use stein_ipc::resources::ResourceKind;
use stein_ipc::emergency::{
    acknowledgement_matches, decide_emergency_command, stop_all_status, EmergencyCommand,
    EmergencyCommandStatus, EmergencyDecision, EmergencyEnvelope,
};
use stein_ipc::evidence::{
    find_resource, find_route, observation_to_context, resource_statuses, scrub_intervention,
    summarize_evidence, AuditDetails, ContextStamp, EvidenceRole, EvidenceSummary,
    ForegroundApplicationState, InterventionContent, NormalizedObservationValue, ResourceBinding,
    WorkspaceActivityKind,
};
use stein_ipc::gates::{EmergencyRevision, ObservationStamp};
use stein_ipc::model::{
    DataCategory, FocusSession, FocusSessionState, GrantState, InterventionState, PermissionGrant,
    PermissionScope, PresenceState,
};
use stein_ipc::config::SecondMindConfig;
use stein_ipc::runtime::{
    audit_stamp, deleted_session_stop_grants, goal_change_affected_sessions, purge_expired_audit,
    sessions_to_reason, sweep_observations, PlatformPortAvailability,
    UnavailableModelGateway, UnavailableObservationPort,
};
use stein_ipc::errors::SecondMindErrorCode;
use stein_ipc::view_publication::{
    publish_pending, CapabilityHealth, CapabilityState, CoreEvent, CoreEventActorKind,
    EventContext, ModelRouteRecord, PermissionRecord, PublicationState,
};

const V7: u128 = 0x0190_0000_0000_7000_8000_0000_0000_0001;

fn envelope(revision: u64, command: EmergencyCommand) -> EmergencyEnvelope {
    EmergencyEnvelope { command_id: V7, revision, issued_at: 1_000, command }
}

fn stamp(category: DataCategory, observed_at: i64, confidence: u16) -> ContextStamp {
    ContextStamp { category, observed_at, confidence_basis_points: confidence }
}

fn focus(id: u128, state: FocusSessionState) -> FocusSession {
    FocusSession {
        id,
        owner: 1,
        goal_id: 2,
        goal_revision: 1,
        state,
        muted: false,
        source_degraded: false,
        client_disconnect_allowed: false,
        daemon_restart_allowed: false,
        revision: 1,
        model_route_approval_id: 3,
        permission_grant_ids: Vec::new(),
        selected_resource_ids: Vec::new(),
        requested_at: 0,
        started_at: None,
        ended_at: None,
        updated_at: 0,
        failure_reason: None,
    }
}

#[test]
fn emergency_stop_revokes_authority_before_cleanup_even_when_ack_revision_is_wrong() {
    let mut watermark = EmergencyRevision { last_revision: 0 };
    assert_eq!(
        decide_emergency_command(&mut watermark, envelope(1, EmergencyCommand::StopAllObservation), 1_000),
        EmergencyDecision::StopAllObservation
    );
    assert_eq!(watermark.last_revision, 1);
    assert!(!acknowledgement_matches(V7, 1, V7, 2));
    assert!(acknowledgement_matches(V7, 1, V7, 1));
    assert!(!acknowledgement_matches(V7, 1, V7 + 1, 1));
}

#[test]
fn emergency_replays_and_invalid_commands_are_rejected() {
    let mut watermark = EmergencyRevision { last_revision: 4 };
    assert_eq!(
        decide_emergency_command(&mut watermark, envelope(4, EmergencyCommand::OpenStein), 1_000),
        EmergencyDecision::Respond(EmergencyCommandStatus::Rejected)
    );
    assert_eq!(watermark.last_revision, 4);
    assert_eq!(
        decide_emergency_command(&mut watermark, envelope(5, EmergencyCommand::OpenStein), 1_000),
        EmergencyDecision::Respond(EmergencyCommandStatus::Accepted)
    );
    let mut future = envelope(6, EmergencyCommand::OpenStein);
    future.issued_at = 2_001;
    assert_eq!(
        decide_emergency_command(&mut watermark, future, 1_000),
        EmergencyDecision::Respond(EmergencyCommandStatus::Rejected)
    );
    assert_eq!(watermark.last_revision, 6);
    let mut not_v7 = envelope(7, EmergencyCommand::OpenStein);
    not_v7.command_id = 1;
    assert_eq!(
        decide_emergency_command(&mut watermark, not_v7, 1_000),
        EmergencyDecision::Respond(EmergencyCommandStatus::Rejected)
    );
    assert_eq!(
        decide_emergency_command(
            &mut watermark,
            envelope(8, EmergencyCommand::SetInterventionsMuted { session_id: 9, muted: true }),
            1_000
        ),
        EmergencyDecision::SetInterventionsMuted { session_id: 9, muted: true }
    );
}

#[test]
fn stop_all_status_reports_rejection_and_incomplete_cleanup() {
    assert_eq!(stop_all_status(&vec![true, true], false, &vec![true, true]), EmergencyCommandStatus::Accepted);
    assert_eq!(stop_all_status(&vec![true, false], true, &vec![]), EmergencyCommandStatus::Rejected);
    assert_eq!(stop_all_status(&vec![], true, &vec![]), EmergencyCommandStatus::Rejected);
    assert_eq!(stop_all_status(&vec![], false, &vec![]), EmergencyCommandStatus::Accepted);
    assert_eq!(
        stop_all_status(&vec![true], false, &vec![false]),
        EmergencyCommandStatus::CleanupIncomplete
    );
}

#[test]
fn missing_emergency_acknowledgement_is_a_channel_failure() {
    assert!(!acknowledgement_matches(V7, 3, 0, 0));
}

#[test]
fn evidence_is_summarized_per_category_in_order() {
    let context = vec![
        stamp(DataCategory::WorkspaceActivity, 50, 9_000),
        stamp(DataCategory::Goal, 10, 10_000),
        stamp(DataCategory::WorkspaceActivity, 20, 7_000),
        stamp(DataCategory::WorkspaceActivity, 80, 8_000),
    ];
    let summaries = summarize_evidence(&context, "deadline_near");
    assert_eq!(
        summaries,
        vec![
            EvidenceSummary {
                category: DataCategory::Goal,
                observed_from: 10,
                observed_until: 10,
                confidence_basis_points: 10_000,
                role: EvidenceRole::SupportsDeadlineRisk,
            },
            EvidenceSummary {
                category: DataCategory::WorkspaceActivity,
                observed_from: 20,
                observed_until: 80,
                confidence_basis_points: 7_000,
                role: EvidenceRole::SupportsDeadlineRisk,
            },
        ]
    );
    assert_eq!(summarize_evidence(&context, "recent_relevant_progress")[0].role, EvidenceRole::SupportsProgress);
    assert_eq!(summarize_evidence(&context, "other")[1].role, EvidenceRole::Uncertain);
    assert!(summarize_evidence(&vec![], "deadline_near").is_empty());
}

#[test]
fn observations_contribute_only_bounded_context_text() {
    assert_eq!(observation_to_context(&NormalizedObservationValue::Presence(PresenceState::Active)), None);
    assert_eq!(
        observation_to_context(&NormalizedObservationValue::ForegroundApplication(
            ForegroundApplicationState::OutsideSelectedScope
        )),
        None
    );
    assert_eq!(
        observation_to_context(&NormalizedObservationValue::BrowserLocation {
            origin: Some("https://example.test".to_owned()),
            path: Some("/release".to_owned()),
        }),
        Some("https://example.test/release".to_owned())
    );
    assert_eq!(
        observation_to_context(&NormalizedObservationValue::BrowserLocation { origin: None, path: Some("/x".to_owned()) }),
        None
    );
    assert_eq!(
        observation_to_context(&NormalizedObservationValue::WorkspaceActivity {
            activity: WorkspaceActivityKind::Modified
        }),
        Some("modified".to_owned())
    );
    assert_eq!(
        observation_to_context(&NormalizedObservationValue::VisibleText { text: "waiting on a local checksum".to_owned() }),
        Some("waiting on a local checksum".to_owned())
    );
}

#[test]
fn scrubbing_removes_every_user_visible_text() {
    let mut content = InterventionContent {
        state: InterventionState::Cancelled,
        user_visible_text: "Check the release ledger.".to_owned(),
        evidence_summary: "selected-workspace activity".to_owned(),
        evidence: vec![EvidenceSummary {
            category: DataCategory::Goal,
            observed_from: 0,
            observed_until: 0,
            confidence_basis_points: 1,
            role: EvidenceRole::Uncertain,
        }],
    };
    scrub_intervention(&mut content);
    assert!(content.user_visible_text.is_empty());
    assert!(content.evidence_summary.is_empty());
    assert!(content.evidence.is_empty());
    assert_eq!(content.state, InterventionState::Cancelled);
}

#[test]
fn audit_details_carry_candidate_evidence_only_when_attached() {
    let details = AuditDetails::new(vec!["deadline_near".to_owned()], vec![DataCategory::Goal]);
    assert_eq!(details.evidence_age_ms, None);
    let with = details.with_candidate_evidence(1_500, 8_000);
    assert_eq!(with.evidence_age_ms, Some(1_500));
    assert_eq!(with.confidence_basis_points, Some(8_000));
    assert_eq!(with.reason_codes, vec!["deadline_near".to_owned()]);
}

#[test]
fn resources_and_routes_are_found_by_identifier() {
    let resources = vec![
        ResourceBinding {
            id: 5,
            owner: 1,
            kind: ResourceKind::Workspace,
            opaque_reference: "native:5".to_owned(),
            display_label: "release-notes.md".to_owned(),
            revision: 1,
            created_at: 100,
        },
        ResourceBinding {
            id: 6,
            owner: 1,
            kind: ResourceKind::Workspace,
            opaque_reference: "native:6".to_owned(),
            display_label: "ledger".to_owned(),
            revision: 1,
            created_at: 100,
        },
    ];
    let grant = |id: u128, resource: Option<u128>| PermissionGrant {
        id,
        owner: 1,
        goal_id: 2,
        focus_session_id: Some(3),
        device_id: 4,
        scope: PermissionScope::ObserveContentSelectedDocument,
        selected_resource_id: resource,
        model_route_approval_id: None,
        daemon_restart_allowed: false,
        state: GrantState::Active,
        revision: 1,
        effective_at: 0,
        expires_at: 10,
        revoked_at: None,
    };
    let statuses = resource_statuses(&resources, &vec![grant(1, Some(6)), grant(2, None), grant(3, Some(9)), grant(4, Some(5))]);
    let rows: Vec<(u128, String)> = statuses.iter().map(|s| (s.grant_id, s.display_label.clone())).collect();
    assert_eq!(rows, vec![(1, "ledger".to_owned()), (4, "release-notes.md".to_owned())]);
    assert_eq!(find_resource(&resources, 6), Ok(1));
    assert_eq!(
        find_resource(&resources, 7).unwrap_err().summary,
        "The selected resource was not found."
    );
    let routes = vec![ModelRouteRecord { id: 8, owner: 1, revision: 2 }];
    assert_eq!(find_route(&routes, 8), Ok(ModelRouteRecord { id: 8, owner: 1, revision: 2 }));
    assert_eq!(find_route(&routes, 9).unwrap_err().code, SecondMindErrorCode::NotFound);
    let record = PermissionRecord::ModelRouteApproval(routes[0]);
    assert_eq!(record.owner(), 1);
}

#[test]
fn publication_assigns_contiguous_cursors_and_attribution() {
    let mut state = PublicationState { event_cursor: 41, capability_overrides: Vec::new() };
    let context = EventContext {
        actor: 7,
        actor_kind: CoreEventActorKind::LocalOsUser,
        correlation_id: 9,
        causation_id: Some(10),
    };
    let health = |detail: &str| CapabilityHealth {
        id: "platform.native_status".to_owned(),
        state: CapabilityState::Degraded,
        detail: detail.to_owned(),
    };
    let events = vec![
        CoreEvent::RuntimeStatusChanged { healthy: true },
        CoreEvent::CapabilityHealthChanged { capability: health("first") },
        CoreEvent::GoalDeleted { owner: 7, goal_id: 3 },
        CoreEvent::CapabilityHealthChanged { capability: health("second") },
    ];
    let envelopes = publish_pending(&mut state, context, events.clone());
    assert_eq!(state.event_cursor, 45);
    let cursors: Vec<u64> = envelopes.iter().map(|e| e.cursor).collect();
    assert_eq!(cursors, vec![42, 43, 44, 45]);
    for (envelope, event) in envelopes.iter().zip(events.iter()) {
        assert_eq!(&envelope.event, event);
        assert_eq!(envelope.actor, 7);
        assert_eq!(envelope.correlation_id, 9);
        assert_eq!(envelope.causation_id, Some(10));
        assert_eq!((envelope.event_id >> 76) & 0xF, 7);
    }
    assert_eq!(state.capability_overrides, vec![health("second")]);
    assert_eq!(envelopes[2].event.owner(), Some(7));
    assert_eq!(envelopes[0].event.owner(), None);
    let more = publish_pending(&mut state, context, vec![CoreEvent::RuntimeStatusChanged { healthy: false }]);
    assert_eq!(more[0].cursor, 46);
}

#[test]
fn retention_sweep_visits_every_session_without_new_ingestion() {
    let stamp = |id: u128, at: i64| ObservationStamp { observation_id: id, grant_id: 1, observed_at: at };
    let sessions = vec![vec![stamp(1, 0), stamp(2, 500)], vec![], vec![stamp(3, 200)]];
    let (kept, removed) = sweep_observations(&sessions, 600, 500);
    assert_eq!(kept.len(), 3);
    assert_eq!(kept[0].iter().map(|o| o.observation_id).collect::<Vec<_>>(), vec![2]);
    assert!(kept[1].is_empty());
    assert_eq!(kept[2].iter().map(|o| o.observation_id).collect::<Vec<_>>(), vec![3]);
    assert_eq!(removed, 1);
}

#[test]
fn reasoning_scheduler_skips_recovering_and_ended_sessions() {
    let sessions = vec![
        focus(1, FocusSessionState::Active),
        focus(2, FocusSessionState::Recovering),
        focus(3, FocusSessionState::Ended),
        focus(4, FocusSessionState::Active),
    ];
    assert_eq!(sessions_to_reason(&sessions), vec![1, 4]);
}

#[test]
fn unavailable_ports_report_why() {
    assert_eq!(
        UnavailableObservationPort.availability(),
        PlatformPortAvailability::Unavailable { reason: "No observation adapter is configured." }
    );
    assert_eq!(
        UnavailableModelGateway.availability(),
        PlatformPortAvailability::Unavailable { reason: "No model route adapter is configured." }
    );
}

#[test]
fn retention_sweep_physically_purges_audit_at_the_expiry_boundary() {
    let config = SecondMindConfig::default();
    let start: i64 = 1_800_000_000_000;
    let records = vec![audit_stamp(0xA1, 0xA, start, config.audit_ttl)];

    let almost = start + (30 * 24 * 60 * 60 - 1) * 1000;
    let (kept, purged) = purge_expired_audit(&records, almost);
    assert_eq!(purged, 0);
    assert_eq!(kept.len(), 1);

    let (kept, purged) = purge_expired_audit(&kept, almost + 1000);
    assert_eq!(purged, 1);
    assert!(kept.is_empty());
}

fn scoped_grant(id: u128, scope: PermissionScope) -> PermissionGrant {
    PermissionGrant {
        id,
        owner: 1,
        goal_id: 2,
        focus_session_id: Some(10),
        device_id: 0xDE,
        scope,
        selected_resource_id: None,
        model_route_approval_id: None,
        daemon_restart_allowed: false,
        state: GrantState::Active,
        revision: 1,
        effective_at: 0,
        expires_at: 1_000,
        revoked_at: None,
    }
}

#[test]
fn goal_state_change_marks_only_active_sessions_of_that_goal() {
    let mut other_goal = focus(5, FocusSessionState::Active);
    other_goal.goal_id = 9;
    let sessions = vec![
        focus(1, FocusSessionState::Active),
        focus(2, FocusSessionState::Recovering),
        other_goal,
        focus(4, FocusSessionState::Active),
        focus(6, FocusSessionState::Ended),
    ];
    assert_eq!(goal_change_affected_sessions(&sessions, 2), vec![1, 4]);
    assert_eq!(goal_change_affected_sessions(&sessions, 9), vec![5]);
    assert!(goal_change_affected_sessions(&sessions, 7).is_empty());
}

#[test]
fn goal_deletion_stops_only_the_sessions_observation_adapters() {
    let mut session = focus(10, FocusSessionState::Active);
    session.permission_grant_ids = vec![21, 22, 23, 24];
    let grants = vec![
        scoped_grant(22, PermissionScope::ReasonFocusContext),
        scoped_grant(21, PermissionScope::ObserveDesktopPresence),
        scoped_grant(24, PermissionScope::InterveneDesktopNotification),
        scoped_grant(25, PermissionScope::ObserveDesktopPresence),
    ];
    assert_eq!(deleted_session_stop_grants(&session, &grants), vec![21]);
    assert!(deleted_session_stop_grants(&session, &Vec::new()).is_empty());
}
