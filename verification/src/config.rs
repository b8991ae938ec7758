//! The second-mind policy configuration and its bounds.
//!
//! Every duration is held in milliseconds.

use vstd::prelude::*;
use crate::errors::SecondMindError;

verus! {

/// Bounds and cadences of observation, reasoning and delivery.
#[derive(Clone, Debug, PartialEq, Eq)]
pub struct SecondMindConfig {
    pub observation_ttl: u64,
    pub retention_maintenance_interval: u64,
    pub source_freshness: u64,
    pub native_status_heartbeat_timeout: u64,
    pub maximum_observation_bytes: usize,
    pub model_deadline: u64,
    pub significance_evaluation_interval: u64,
    pub model_request_cooldown: u64,
    pub maximum_model_requests_per_hour: u16,
    pub deadline_risk_horizon: u64,
    pub maximum_model_evidence_age: u64,
    pub policy_validity: u64,
    pub intervention_cooldown: u64,
    pub maximum_interventions_per_session: u16,
    pub outbox_capacity_per_user: usize,
    pub outbox_capacity_per_session: usize,
    pub outbox_entry_ttl: u64,
    pub recovery_batch_size: usize,
    pub recovery_batch_interval: u64,
    pub audit_append_deadline: u64,
    pub notification_attempt_deadline: u64,
    pub resource_selection_deadline: u64,
    pub resource_release_deadline: u64,
    pub audit_ttl: u64,
    pub minimum_candidate_confidence_basis_points: u16,
}

/// A configuration inside the policy bounds: every duration positive and no
/// limit looser than the Phase 2 policy allows.
pub open spec fn spec_config_valid(c: SecondMindConfig) -> bool {
    &&& 0 < c.observation_ttl <= 600_000
    &&& 0 < c.retention_maintenance_interval <= 60_000
    &&& 0 < c.source_freshness <= 30_000
    &&& c.source_freshness <= c.observation_ttl
    &&& 0 < c.native_status_heartbeat_timeout <= 10_000
    &&& 0 < c.maximum_observation_bytes <= 16_384
    &&& 0 < c.model_deadline <= 30_000
    &&& c.significance_evaluation_interval >= 60_000
    &&& c.model_request_cooldown >= 300_000
    &&& 0 < c.maximum_model_requests_per_hour <= 12
    &&& 0 < c.deadline_risk_horizon <= 1_800_000
    &&& 0 < c.maximum_model_evidence_age <= 120_000
    &&& c.maximum_model_evidence_age <= c.observation_ttl
    &&& 0 < c.policy_validity <= 30_000
    &&& c.intervention_cooldown >= 900_000
    &&& 0 < c.maximum_interventions_per_session <= 3
    &&& 0 < c.outbox_capacity_per_user <= 20
    &&& 0 < c.outbox_capacity_per_session <= 5
    &&& c.outbox_capacity_per_session <= c.outbox_capacity_per_user
    &&& 0 < c.outbox_entry_ttl <= 900_000
    &&& 0 < c.recovery_batch_size <= 3
    &&& c.recovery_batch_interval >= 10_000
    &&& 0 < c.audit_append_deadline <= 2_000
    &&& 0 < c.notification_attempt_deadline <= 5_000
    &&& 0 < c.resource_selection_deadline <= 120_000
    &&& 0 < c.resource_release_deadline <= 10_000
    &&& 0 < c.audit_ttl <= 2_592_000_000
    &&& c.minimum_candidate_confidence_basis_points <= 10_000
}

impl Default for SecondMindConfig {
    fn default() -> (c: Self)
        ensures
            c == SecondMindConfig::spec_default(),
    {
        SecondMindConfig {
            observation_ttl: 600_000,
            retention_maintenance_interval: 60_000,
            source_freshness: 30_000,
            native_status_heartbeat_timeout: 10_000,
            maximum_observation_bytes: 16_384,
            model_deadline: 30_000,
            significance_evaluation_interval: 60_000,
            model_request_cooldown: 300_000,
            maximum_model_requests_per_hour: 12,
            deadline_risk_horizon: 1_800_000,
            maximum_model_evidence_age: 120_000,
            policy_validity: 30_000,
            intervention_cooldown: 900_000,
            maximum_interventions_per_session: 3,
            outbox_capacity_per_user: 20,
            outbox_capacity_per_session: 5,
            outbox_entry_ttl: 900_000,
            recovery_batch_size: 3,
            recovery_batch_interval: 10_000,
            audit_append_deadline: 2_000,
            notification_attempt_deadline: 5_000,
            resource_selection_deadline: 60_000,
            resource_release_deadline: 5_000,
            audit_ttl: 2_592_000_000,
            minimum_candidate_confidence_basis_points: 6_000,
        }
    }
}

impl SecondMindConfig {
    /// The Phase 2 defaults.
    pub open spec fn spec_default() -> SecondMindConfig {
        SecondMindConfig {
            observation_ttl: 600_000,
            retention_maintenance_interval: 60_000,
            source_freshness: 30_000,
            native_status_heartbeat_timeout: 10_000,
            maximum_observation_bytes: 16_384,
            model_deadline: 30_000,
            significance_evaluation_interval: 60_000,
            model_request_cooldown: 300_000,
            maximum_model_requests_per_hour: 12,
            deadline_risk_horizon: 1_800_000,
            maximum_model_evidence_age: 120_000,
            policy_validity: 30_000,
            intervention_cooldown: 900_000,
            maximum_interventions_per_session: 3,
            outbox_capacity_per_user: 20,
            outbox_capacity_per_session: 5,
            outbox_entry_ttl: 900_000,
            recovery_batch_size: 3,
            recovery_batch_interval: 10_000,
            audit_append_deadline: 2_000,
            notification_attempt_deadline: 5_000,
            resource_selection_deadline: 60_000,
            resource_release_deadline: 5_000,
            audit_ttl: 2_592_000_000,
            minimum_candidate_confidence_basis_points: 6_000,
        }
    }
}

/// Refuses a configuration outside the policy bounds.
pub fn validate_config(config: &SecondMindConfig) -> (r: Result<(), SecondMindError>)
    ensures
        r is Ok <==> spec_config_valid(*config),
        r matches Err(e) ==> crate::errors::plain_error(
            e,
            crate::errors::SecondMindErrorCode::InvalidArgument,
            "The second-mind policy configuration is invalid.",
            false,
        ),
{
    let c = config;
    if c.observation_ttl == 0 || c.observation_ttl > 600_000
        || c.retention_maintenance_interval == 0 || c.retention_maintenance_interval > 60_000
        || c.source_freshness == 0 || c.source_freshness > 30_000
        || c.source_freshness > c.observation_ttl
        || c.native_status_heartbeat_timeout == 0 || c.native_status_heartbeat_timeout > 10_000
        || c.maximum_observation_bytes == 0 || c.maximum_observation_bytes > 16_384
        || c.model_deadline == 0 || c.model_deadline > 30_000
        || c.significance_evaluation_interval == 0 || c.significance_evaluation_interval < 60_000
        || c.model_request_cooldown == 0 || c.model_request_cooldown < 300_000
        || c.maximum_model_requests_per_hour == 0 || c.maximum_model_requests_per_hour > 12
        || c.deadline_risk_horizon == 0 || c.deadline_risk_horizon > 1_800_000
        || c.maximum_model_evidence_age == 0 || c.maximum_model_evidence_age > 120_000
        || c.maximum_model_evidence_age > c.observation_ttl
        || c.policy_validity == 0 || c.policy_validity > 30_000
        || c.intervention_cooldown == 0 || c.intervention_cooldown < 900_000
        || c.maximum_interventions_per_session == 0 || c.maximum_interventions_per_session > 3
        || c.outbox_capacity_per_user == 0 || c.outbox_capacity_per_user > 20
        || c.outbox_capacity_per_session == 0 || c.outbox_capacity_per_session > 5
        || c.outbox_capacity_per_session > c.outbox_capacity_per_user
        || c.outbox_entry_ttl == 0 || c.outbox_entry_ttl > 900_000
        || c.recovery_batch_size == 0 || c.recovery_batch_size > 3
        || c.recovery_batch_interval == 0 || c.recovery_batch_interval < 10_000
        || c.audit_append_deadline == 0 || c.audit_append_deadline > 2_000
        || c.notification_attempt_deadline == 0 || c.notification_attempt_deadline > 5_000
        || c.resource_selection_deadline == 0 || c.resource_selection_deadline > 120_000
        || c.resource_release_deadline == 0 || c.resource_release_deadline > 10_000
        || c.audit_ttl == 0 || c.audit_ttl > 2_592_000_000
        || c.minimum_candidate_confidence_basis_points > 10_000
    {
        return Err(SecondMindError::invalid("The second-mind policy configuration is invalid."));
    }
    Ok(())
}

/// The default configuration lies inside the policy bounds, so a runtime built
/// from it always starts.
pub proof fn law_default_config_is_valid()
    ensures
        spec_config_valid(SecondMindConfig::spec_default()),
{
}

} // verus!
