use stein_ipc::dedup::{delivery_deduplication_key, hyphenated_text};
use stein_ipc::errors::SecondMindErrorCode;
use stein_ipc::model::{
    DataCategory, FocusSession, FocusSessionState, Goal, GoalState, GrantState, InterventionRecord, InterventionState, OutboxEntry, OutboxState, PermissionGrant,
    PermissionScope, PresenceState,
};
use stein_ipc::policy::{
    decide_delivery_policy, intervention_expiry, model_failure_reason, reasoning_precheck,
    settle_delivery_attempt, ChannelAttempt, DeliverySettlement, ModelFailure, PolicyContext,
    POLICY_PROFILE_REASON, after_audit, after_recovery_audit, record_missed, AfterAudit, AfterRecoveryAudit,
    InterventionLifecycle,
};
use stein_ipc::validation::{ModelPlacement, ModelRouteApproval};
use stein_ipc::evidence::InterventionContent;
use stein_ipc::feedback::InterventionOutcome;
use stein_ipc::preferences::{DoNotDisturbWindow, EffectivePreferences};

const SESSION: u128 = 0x51;
const NOW: i64 = 1_800_000_000_000;

fn context() -> PolicyContext {
    PolicyContext {
        session_id: SESSION,
        session_muted: false,
        candidate_id: 0xC1,
        confidence_basis_points: 8_000,
        minimum_confidence_basis_points: 6_000,
        notification_available: true,
        outbox_capacity_per_user: 2,
        outbox_capacity_per_session: 1,
        session_intervention_count: 0,
        last_delivery_elapsed: None,
        elapsed: 1_000_000,
        presence: PresenceState::Active,
    }
}

fn preferences() -> EffectivePreferences {
    EffectivePreferences {
        revision: 1,
        maximum_interventions_per_session: 3,
        maximum_model_requests_per_hour: 12,
        intervention_cooldown: 900_000,
        proactive_interventions_enabled: true,
        proactive_interventions_muted: false,
        do_not_disturb_windows: Vec::new(),
        allowed_delivery_channels: vec!["windows.native_notification".to_owned()],
        remote_processing_enabled: false,
        restart_continuity_default: false,
    }
}

fn notification_grant() -> PermissionGrant {
    PermissionGrant {
        id: 2,
        owner: 0xA,
        goal_id: 0x60,
        focus_session_id: Some(SESSION),
        device_id: 0xDE,
        scope: PermissionScope::InterveneDesktopNotification,
        selected_resource_id: None,
        model_route_approval_id: None,
        daemon_restart_allowed: false,
        state: GrantState::Active,
        revision: 2,
        effective_at: NOW - 60_000,
        expires_at: NOW + 3_600_000,
        revoked_at: None,
    }
}

fn decide(c: &PolicyContext, p: &EffectivePreferences, interventions: &Vec<InterventionRecord>) -> (bool, Vec<&'static str>) {
    decide_delivery_policy(c, p, NOW, &Vec::new(), interventions, &Vec::new(), &vec![notification_grant()]).unwrap()
}

#[test]
fn a_candidate_passing_every_check_is_allowed() {
    let (allow, reasons) = decide(&context(), &preferences(), &Vec::new());
    assert!(allow);
    assert_eq!(reasons, vec![POLICY_PROFILE_REASON, "policy_checks_passed"]);
    assert_eq!(POLICY_PROFILE_REASON, "policy_profile:phase2-focus-v1");
}

#[test]
fn explicit_mute_dnd_and_channel_preferences_deny_with_every_reason() {
    let mut c = context();
    c.session_muted = true;
    let mut p = preferences();
    p.do_not_disturb_windows = vec![DoNotDisturbWindow { start_minute_local: 0, end_minute_local: 1439, utc_offset_minutes: 0 }];
    p.allowed_delivery_channels = Vec::new();
    let (allow, reasons) = decide(&c, &p, &Vec::new());
    assert!(!allow);
    assert_eq!(
        reasons,
        vec![POLICY_PROFILE_REASON, "interventions_muted", "do_not_disturb", "delivery_channel_not_allowed"]
    );
}

#[test]
fn caps_and_cooldowns_are_named_once_whichever_record_holds_them() {
    let delivered = vec![
        InterventionRecord { id: 1, focus_session_id: SESSION, state: InterventionState::AcceptedByChannel, updated_at: NOW - 10_000 },
    ];
    let mut p = preferences();
    p.maximum_interventions_per_session = 1;
    let mut c = context();
    c.session_intervention_count = 1;
    c.last_delivery_elapsed = Some(c.elapsed - 1_000);
    let (allow, reasons) = decide(&c, &p, &delivered);
    assert!(!allow);
    assert_eq!(reasons, vec![POLICY_PROFILE_REASON, "session_intervention_cap", "intervention_cooldown"]);

    let (allow, reasons) = decide(&c, &preferences(), &Vec::new());
    assert!(!allow);
    assert_eq!(reasons, vec![POLICY_PROFILE_REASON, "intervention_cooldown"]);
}

#[test]
fn low_confidence_repeated_candidates_absence_and_stale_grants_deny() {
    let mut c = context();
    c.confidence_basis_points = 5_999;
    c.presence = PresenceState::Locked;
    let mut stale = notification_grant();
    stale.state = GrantState::Revoked;
    let (allow, reasons) =
        decide_delivery_policy(&c, &preferences(), NOW, &vec![(0xC1, 1)], &Vec::new(), &Vec::new(), &vec![stale]).unwrap();
    assert!(!allow);
    assert_eq!(
        reasons,
        vec![
            POLICY_PROFILE_REASON,
            "candidate_confidence_too_low",
            "candidate_revision_already_decided",
            "presence_not_active",
            "notification_grant_not_current",
        ]
    );
    let (allow, _) =
        decide_delivery_policy(&context(), &preferences(), NOW, &vec![(0xC1, 2)], &Vec::new(), &Vec::new(), &vec![notification_grant()])
            .unwrap();
    assert!(allow);
}

#[test]
fn an_unavailable_channel_denies_only_when_the_outbox_is_full() {
    let mut c = context();
    c.notification_available = false;
    let interventions = vec![
        InterventionRecord { id: 7, focus_session_id: SESSION, state: InterventionState::Queued, updated_at: NOW - 2_000_000 },
    ];
    let pending = vec![OutboxEntry {
        id: 70,
        intervention_id: 7,
        deduplication_key: 700,
        state: OutboxState::Queued,
        attempt_count: 0,
        created_at: NOW - 1,
        not_before: NOW - 1,
    }];
    let (allow, reasons) =
        decide_delivery_policy(&c, &preferences(), NOW, &Vec::new(), &interventions, &pending, &vec![notification_grant()]).unwrap();
    assert!(!allow);
    assert_eq!(reasons, vec![POLICY_PROFILE_REASON, "outbox_capacity"]);
    let (allow, _) =
        decide_delivery_policy(&c, &preferences(), NOW, &Vec::new(), &interventions, &Vec::new(), &vec![notification_grant()]).unwrap();
    assert!(allow);
}

#[test]
fn a_session_without_a_notification_grant_is_refused() {
    let mut reasoning = notification_grant();
    reasoning.scope = PermissionScope::ReasonFocusContext;
    let err = decide_delivery_policy(&context(), &preferences(), NOW, &Vec::new(), &Vec::new(), &Vec::new(), &vec![reasoning])
        .unwrap_err();
    assert_eq!(err.code, SecondMindErrorCode::PermissionDenied);
    assert_eq!(err.summary, "Notification permission is missing.");
}

#[test]
fn delivery_attempts_settle_by_outcome_and_authority() {
    assert_eq!(
        settle_delivery_attempt(ChannelAttempt::Accepted, false),
        DeliverySettlement::Settled { state: InterventionState::AcceptedByChannel, scrub: false, counts: true }
    );
    assert_eq!(
        settle_delivery_attempt(ChannelAttempt::TimedOut, true),
        DeliverySettlement::Settled { state: InterventionState::DeliveryUnknown, scrub: false, counts: true }
    );
    assert_eq!(
        settle_delivery_attempt(ChannelAttempt::Failed, true),
        DeliverySettlement::Settled { state: InterventionState::DeliveryFailed, scrub: false, counts: false }
    );
    assert_eq!(
        settle_delivery_attempt(ChannelAttempt::AdapterError, false),
        DeliverySettlement::Settled { state: InterventionState::Cancelled, scrub: true, counts: false }
    );
    assert_eq!(settle_delivery_attempt(ChannelAttempt::NotAttempted, true), DeliverySettlement::Queue);
    assert_eq!(
        settle_delivery_attempt(ChannelAttempt::NotAttempted, false),
        DeliverySettlement::Settled { state: InterventionState::Cancelled, scrub: true, counts: false }
    );
}

#[test]
fn an_intervention_expires_at_the_earliest_bound() {
    assert_eq!(intervention_expiry(NOW, 600_000, 30_000, NOW + 3_600_000, None, None), NOW + 30_000);
    assert_eq!(intervention_expiry(NOW, 600_000, 900_000, NOW + 3_600_000, None, None), NOW + 600_000);
    assert_eq!(intervention_expiry(NOW, 600_000, 900_000, NOW + 1_000, None, None), NOW + 1_000);
    assert_eq!(intervention_expiry(NOW, 600_000, 900_000, NOW + 3_600_000, Some(NOW + 500), Some(NOW + 400)), NOW + 400);
    assert_eq!(intervention_expiry(NOW, 600_000, 900_000, NOW + 3_600_000, Some(NOW + 500), None), NOW + 500);
}

#[test]
fn delivery_deduplication_keys_are_name_based_over_candidate_revision_and_channel() {
    let candidate: u128 = 0x0190_1234_5678_7abc_8def_0011_2233_4455;
    let text = String::from_utf8(hyphenated_text(candidate)).unwrap();
    assert_eq!(text, uuid::Uuid::from_u128(candidate).hyphenated().to_string());
    assert_eq!(text, "01901234-5678-7abc-8def-001122334455");
    let expected = uuid::Uuid::new_v5(
        &uuid::Uuid::NAMESPACE_OID,
        format!("{}:1:windows.native_notification", uuid::Uuid::from_u128(candidate)).as_bytes(),
    );
    let key = delivery_deduplication_key(candidate, 1);
    assert_eq!(key, expected.as_u128());
    assert_eq!(uuid::Uuid::from_u128(key).get_version_num(), 5);
    assert_ne!(delivery_deduplication_key(candidate, 2), key);
    assert_ne!(delivery_deduplication_key(candidate + 1, 1), key);
    let wide = format!("{}:18446744073709551615:windows.native_notification", uuid::Uuid::from_u128(0));
    assert_eq!(
        delivery_deduplication_key(0, u64::MAX),
        uuid::Uuid::new_v5(&uuid::Uuid::NAMESPACE_OID, wide.as_bytes()).as_u128()
    );
}

fn focus_session(state: FocusSessionState) -> FocusSession {
    FocusSession {
        id: SESSION,
        owner: 0xA,
        goal_id: 0x60,
        goal_revision: 1,
        state,
        muted: false,
        source_degraded: false,
        client_disconnect_allowed: false,
        daemon_restart_allowed: false,
        revision: 3,
        model_route_approval_id: 0x77,
        permission_grant_ids: vec![2],
        selected_resource_ids: Vec::new(),
        requested_at: NOW - 20_000,
        started_at: Some(NOW - 15_000),
        ended_at: None,
        updated_at: NOW - 10_000,
        failure_reason: None,
    }
}

fn goal() -> Goal {
    Goal {
        id: 0x60,
        owner: 0xA,
        title: "Ship the parser".to_owned(),
        success_statement: "All fixtures pass".to_owned(),
        deadline: None,
        state: GoalState::Active,
        revision: 1,
        created_at: NOW - 100_000,
        updated_at: NOW - 100_000,
    }
}

fn model_route(placement: ModelPlacement) -> ModelRouteApproval {
    ModelRouteApproval {
        id: 0x77,
        revision: 1,
        owner: 0xA,
        provider: "local".to_owned(),
        model: "small".to_owned(),
        secret_ref: "secret://model".to_owned(),
        purpose: "reason.focus_context".to_owned(),
        placement,
        maximum_input_tokens: 1_200,
        maximum_output_tokens: 220,
        allowed_categories: vec![DataCategory::Goal],
        tools_enabled: false,
        core_persists_prompt_or_response: false,
        fallback_allowed: false,
        fallback: None,
        effective_at: NOW - 60_000,
        expires_at: None,
        revoked_at: None,
    }
}

#[test]
fn a_reasoning_cycle_stays_silent_before_reading_evidence_when_policy_forbids() {
    let active = focus_session(FocusSessionState::Active);
    let goals = vec![goal()];
    let local = vec![model_route(ModelPlacement::Local)];
    assert_eq!(reasoning_precheck(&active, &goals, &preferences(), &local, NOW, true), Ok(None));
    assert_eq!(
        reasoning_precheck(&focus_session(FocusSessionState::Recovering), &goals, &preferences(), &local, NOW, true),
        Ok(Some("session_not_active"))
    );
    let mut off = preferences();
    off.proactive_interventions_enabled = false;
    assert_eq!(reasoning_precheck(&active, &goals, &off, &local, NOW, true), Ok(Some("proactive_interventions_disabled")));
    let mut muted = active.clone();
    muted.muted = true;
    assert_eq!(reasoning_precheck(&muted, &goals, &preferences(), &local, NOW, true), Ok(Some("interventions_muted")));
    let remote = vec![model_route(ModelPlacement::Remote)];
    assert_eq!(
        reasoning_precheck(&active, &goals, &preferences(), &remote, NOW, true),
        Ok(Some("remote_processing_disabled"))
    );
    assert_eq!(
        reasoning_precheck(&active, &goals, &preferences(), &local, NOW, false),
        Ok(Some("reasoning_route_unavailable"))
    );
    assert_eq!(
        reasoning_precheck(&active, &Vec::new(), &preferences(), &local, NOW, true).unwrap_err().summary,
        "The goal was not found."
    );
    assert_eq!(
        reasoning_precheck(&active, &goals, &preferences(), &Vec::new(), NOW, true).unwrap_err().summary,
        "The model route approval was not found."
    );
    assert_eq!(reasoning_precheck(&active, &goals, &off, &Vec::new(), NOW, true), Ok(Some("proactive_interventions_disabled")));
    assert_eq!(model_failure_reason(ModelFailure::TimedOut), "reasoning_cancelled_or_timed_out");
    assert_eq!(model_failure_reason(ModelFailure::Failed), "reasoning_failed");
}

#[test]
fn delivery_audit_detail_names_the_intervention_state_in_lower_case() {
    let states = [
        InterventionState::Allowed,
        InterventionState::Denied,
        InterventionState::Queued,
        InterventionState::Delivering,
        InterventionState::AcceptedByChannel,
        InterventionState::DeliveryUnknown,
        InterventionState::DeliveryFailed,
        InterventionState::Expired,
        InterventionState::Cancelled,
    ];
    for state in states {
        assert_eq!(state.delivery_audit_code(), format!("delivery_{:?}", state).to_lowercase());
    }
    assert_eq!(InterventionState::AcceptedByChannel.delivery_audit_code(), "delivery_acceptedbychannel");
}

#[test]
fn slow_audit_ack_denies_delivery_without_a_partial_decision() {
    assert_eq!(after_audit(false, true), AfterAudit::Silence("audit_acknowledgement_unavailable"));
    assert_eq!(after_audit(false, false), AfterAudit::Silence("audit_acknowledgement_unavailable"));
    assert_eq!(after_audit(true, false), AfterAudit::Silence("deterministic_policy_denied"));
    assert_eq!(after_audit(true, true), AfterAudit::PublishAndRevalidate);
    assert_eq!(after_recovery_audit(false, true), AfterRecoveryAudit::Skip);
    assert_eq!(after_recovery_audit(true, false), AfterRecoveryAudit::CancelAsMissed);
    assert_eq!(after_recovery_audit(true, true), AfterRecoveryAudit::Attempt);
}

#[test]
fn stale_queued_item_becomes_scrubbed_missed_history() {
    let queued = InterventionLifecycle {
        state: InterventionState::Queued,
        outcome: InterventionOutcome::Unacknowledged,
        outcome_at: None,
        reason_code: "deadline_risk",
        revision: 2,
        updated_at: NOW - 60_000,
    };
    let mut life = queued;
    let mut content = InterventionContent {
        state: InterventionState::Queued,
        user_visible_text: "Resume the report".to_owned(),
        evidence_summary: "workspace activity".to_owned(),
        evidence: Vec::new(),
    };
    assert_eq!(record_missed(&mut life, &mut content, false, NOW), OutboxState::Expired);
    assert_eq!(life.state, InterventionState::Expired);
    assert_eq!(life.outcome, InterventionOutcome::Expired);
    assert_eq!(life.outcome_at, Some(NOW));
    assert_eq!(life.reason_code, "missed_intervention");
    assert_eq!(life.revision, 3);
    assert_eq!(life.updated_at, NOW);
    assert_eq!(content.state, InterventionState::Expired);
    assert!(content.user_visible_text.is_empty() && content.evidence_summary.is_empty());

    let mut lapsed = queued;
    assert_eq!(record_missed(&mut lapsed, &mut content, true, NOW), OutboxState::Cancelled);
    assert_eq!(lapsed.state, InterventionState::Cancelled);
    assert_eq!(lapsed.reason_code, "missed_intervention");
}
