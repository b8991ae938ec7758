use stein_ipc::admission::ClientAssurance;
use stein_ipc::apply::{apply_event_with_ids, apply_view_event, upsert, remove_key};
use stein_ipc::client::{ActorKind, EventApplication, EventIdentitySet, SessionOpened};
use stein_ipc::codec::MAX_FRAME_BYTES;
use stein_ipc::events::{
    event_actor_is_bound, event_header_is_consistent, event_is_consistent, Component,
    EventKindRules, EventMetadataView, GoalTombstoneView, InterventionHistoryChangeKind,
    SelectedResourceChangeKind, ViewEvent, ViewEventEnvelope,
};
use stein_ipc::model::{DataCategory, FocusSessionState, InterventionState};
use stein_ipc::protocol::{capability_supported, CapabilityId, ProtocolSupport, ProtocolVersion};
use stein_ipc::server::{EventCursor, RetentionClass, SensitivityClass};
use stein_ipc::snapshot::{
    normalize_snapshot_for_protocol, snapshot_is_consistent, validate_session_opened_with_snapshot, ClientSnapshotView,
    InterventionHistoryView, Phase2View, PolicyStamp, RecordStamp, RuntimeStatusView,
};
use stein_ipc::views::{
    capability_health_is_consistent, focus_change_matches_state, goal_change_matches_state,
    ids_unique_non_nil, intervention_is_available, permission_change_matches_state,
    CapabilityHealthView, CaptureSourceView, CaptureStateView, DeliveryChannelView,
    FocusSessionChangeKind, FocusSessionView, GoalChangeKind, GoalView, GrantViewState,
    HealthState, InterventionView, ModelRouteApprovalView, PermissionChangeKind,
    PermissionRecordView, RouteApprovalState, SelectedResourceView, SessionGrantView,
    ViewGoalState,
};

const DAEMON: u128 = 0xD0;
const ACTOR: u128 = 0xA0;
const GOAL: u128 = 0x60;
const OTHER_GOAL: u128 = 0x61;
const SESSION: u128 = 0x51;
const GRANT: u128 = 0x71;
const ROUTE: u128 = 0x72;
const RESOURCE: u128 = 0x81;
const SOURCE: u128 = 0x91;
const CHANNEL: u128 = 0xC1;
const INTERVENTION: u128 = 0xE1;
const DEVICE: u128 = 0xDE;

fn session(version: ProtocolVersion) -> SessionOpened {
    SessionOpened {
        protocol_version: version,
        server_build_id: "core-0.1.0".to_owned(),
        max_frame_bytes: MAX_FRAME_BYTES as u32,
        daemon_instance_id: DAEMON,
        authenticated_actor_id: ACTOR,
        authenticated_actor_kind: ActorKind::LocalOsUser,
    }
}

fn healthy(capability: CapabilityId) -> CapabilityHealthView {
    CapabilityHealthView { schema_version: 1, capability, state: HealthState::Healthy, unavailable_reason: None }
}

fn goal(id: u128, revision: u64) -> GoalView {
    GoalView { goal_id: id, owner_id: ACTOR, state: ViewGoalState::Active, revision, created_at: 100, updated_at: 200 }
}

fn grant() -> SessionGrantView {
    SessionGrantView {
        permission_grant_id: GRANT,
        requested_by_client: 0xCC,
        device_id: DEVICE,
        goal_id: GOAL,
        focus_session_id: Some(SESSION),
        selected_resource_id: Some(RESOURCE),
        owner_id: ACTOR,
        state: GrantViewState::Active,
        revision: 1,
        purpose: "Notice release work".to_owned(),
        consent_copy_version: "v1".to_owned(),
        effective_at: 500,
        expires_at: 9_000,
        revoked_at: None,
        revocation_reason: None,
        sensitivity: SensitivityClass::Sensitive,
        retention: RetentionClass::DurableUntilExpiry,
    }
}

fn route() -> ModelRouteApprovalView {
    ModelRouteApprovalView {
        model_route_approval_id: ROUTE,
        owner_id: ACTOR,
        state: RouteApprovalState::Active,
        revision: 1,
        provider_id: "local".to_owned(),
        route_id: "small".to_owned(),
        account_profile: "default".to_owned(),
        purpose: "reason.focus_context".to_owned(),
        disclosure_version: "v1".to_owned(),
        maximum_request_tokens: 8_000,
        allowed_data_categories: vec![DataCategory::Goal, DataCategory::WorkspaceActivity],
        effective_at: 500,
        expires_at: None,
        revoked_at: None,
    }
}

fn focus() -> FocusSessionView {
    FocusSessionView {
        focus_session_id: SESSION,
        goal_id: GOAL,
        model_route_approval_id: ROUTE,
        state: FocusSessionState::Active,
        interventions_muted: false,
        revision: 1,
        goal_revision: 1,
        created_at: 600,
        updated_at: 700,
        started_at: Some(650),
        ended_at: None,
        permission_grant_ids: vec![GRANT],
        selected_resource_ids: vec![RESOURCE],
    }
}

fn capture() -> CaptureStateView {
    CaptureStateView {
        focus_session_id: SESSION,
        revision: 1,
        updated_at: 800,
        active_categories: vec![DataCategory::WorkspaceActivity],
        sources: vec![CaptureSourceView { observation_source_id: SOURCE, selected_resource_id: Some(RESOURCE), last_complete_at: Some(800) }],
    }
}

fn intervention(revision: u64) -> InterventionView {
    InterventionView {
        intervention_id: INTERVENTION,
        focus_session_id: SESSION,
        goal_id: GOAL,
        delivery_channel_id: Some(CHANNEL),
        state: InterventionState::AcceptedByChannel,
        revision,
        candidate_revision: 1,
        created_at: 1_000,
        updated_at: 1_100,
        expires_at: 2_000,
        reason_codes: vec![1, 2],
        user_visible_text: Some("Check the checksum.".to_owned()),
        sensitivity: SensitivityClass::Personal,
        retention: RetentionClass::BoundedAudit,
    }
}

fn resource() -> SelectedResourceView {
    SelectedResourceView {
        selected_resource_id: RESOURCE,
        display_name: "release-notes.md".to_owned(),
        revision: Some(1),
        created_at: Some(400),
    }
}

fn phase2() -> Phase2View {
    Phase2View {
        current_device_id: Some(DEVICE),
        stein_identity: Some(RecordStamp { owner_id: ACTOR, schema_version: 1, revision: 1, recorded_at: 300 }),
        user_preferences: Some(RecordStamp { owner_id: ACTOR, schema_version: 1, revision: 2, recorded_at: 300 }),
        effective_policy: Some(PolicyStamp { schema_version: 1, user_preferences_revision: 2 }),
        selected_resources: vec![resource()],
        permission_records: vec![
            PermissionRecordView::SessionGrant(grant()),
            PermissionRecordView::ModelRouteApproval(route()),
        ],
        focus_sessions: vec![focus()],
        capture_states: vec![capture()],
        delivery_channels: vec![DeliveryChannelView { delivery_channel_id: CHANNEL, observed_at: 900 }],
        intervention_history: InterventionHistoryView { as_of: 4_000, entries: vec![intervention(1)] },
    }
}

fn snapshot() -> ClientSnapshotView {
    ClientSnapshotView {
        snapshot_id: 0x5A,
        cursor: EventCursor { daemon_instance_id: DAEMON, sequence: 10 },
        runtime: RuntimeStatusView {
            daemon_instance_id: DAEMON,
            protocol_version: ProtocolVersion::v1_2(),
            build_id: "core-0.1.0".to_owned(),
            started_at: 1_000,
            observed_at: 2_000,
        },
        as_of: 5_000,
        capabilities: vec![
            healthy(CapabilityId::Snapshot),
            healthy(CapabilityId::FocusSessions),
            CapabilityHealthView {
                schema_version: 1,
                capability: CapabilityId::NativeNotification,
                state: HealthState::Unavailable,
                unavailable_reason: Some("No adapter".to_owned()),
            },
        ],
        goals: vec![goal(GOAL, 1)],
        phase2: Some(phase2()),
    }
}

fn rules() -> EventKindRules {
    EventKindRules { minimum: ProtocolVersion::v1_1(), sensitivity: SensitivityClass::Personal, retention: RetentionClass::Runtime }
}

fn envelope(sequence: u64, message_id: u128, event: ViewEvent) -> ViewEventEnvelope {
    ViewEventEnvelope {
        cursor: EventCursor { daemon_instance_id: DAEMON, sequence },
        metadata: EventMetadataView {
            schema_version: 1,
            message_id,
            correlation_id: 0xC0,
            causation_id: Some(0xCA),
            actor_id: ACTOR,
            actor_kind: ActorKind::LocalOsUser,
            origin: Component::CoreApplication,
            sensitivity: SensitivityClass::Personal,
            retention: RetentionClass::Runtime,
            occurred_at: 6_000,
        },
        event,
    }
}

fn apply(state: &mut ClientSnapshotView, event: ViewEventEnvelope) -> EventApplication {
    let mut identities = EventIdentitySet::new();
    apply_event_with_ids(state, &mut identities, &session(ProtocolVersion::v1_2()), ClientAssurance::PrivateCapabilityBound, event, rules())
}

#[test]
fn validates_phase2_snapshots_and_rejects_them_for_diagnostic_or_v1_0_sessions() {
    let opened = session(ProtocolVersion::v1_2());
    let frames = MAX_FRAME_BYTES as u32;
    let snap = snapshot();
    validate_session_opened_with_snapshot(
        ProtocolSupport::v1(),
        frames,
        &opened,
        &snap.capabilities,
        &snap,
        ClientAssurance::PrivateCapabilityBound,
    )
    .expect("the authoritative Phase 2 fixture is internally consistent");
    assert!(
        validate_session_opened_with_snapshot(ProtocolSupport::v1(), frames, &opened, &snap.capabilities, &snap, ClientAssurance::Diagnostic)
            .is_err(),
        "a diagnostic handshake must never accept private snapshot state"
    );

    let mut redacted = snap.clone();
    redacted.goals.clear();
    redacted.phase2 = None;
    redacted.cursor.sequence = 0;
    validate_session_opened_with_snapshot(ProtocolSupport::v1(), frames, &opened, &redacted.capabilities, &redacted, ClientAssurance::Diagnostic)
        .expect("content-free protocol 1.1 snapshot is valid for diagnostics");

    let mut missing_phase2 = snap.clone();
    missing_phase2.phase2 = None;
    assert!(
        validate_session_opened_with_snapshot(
            ProtocolSupport::v1(),
            frames,
            &opened,
            &missing_phase2.capabilities,
            &missing_phase2,
            ClientAssurance::PrivateCapabilityBound
        )
        .is_err(),
        "a private protocol 1.1 snapshot must carry authoritative Phase 2 state"
    );

    let legacy = session(ProtocolVersion::v1_0());
    let mut legacy_snapshot = snap.clone();
    legacy_snapshot.runtime.protocol_version = ProtocolVersion::v1_0();
    legacy_snapshot.capabilities = vec![healthy(CapabilityId::Snapshot)];
    assert!(
        !snapshot_is_consistent(&legacy, ClientAssurance::PrivateCapabilityBound, &legacy_snapshot),
        "protocol 1.0 must reject an additive Phase 2 snapshot"
    );
    legacy_snapshot.phase2 = None;
    assert!(snapshot_is_consistent(&legacy, ClientAssurance::PrivateCapabilityBound, &legacy_snapshot));

    let mut other_list = snap.capabilities.clone();
    other_list.pop();
    assert!(validate_session_opened_with_snapshot(ProtocolSupport::v1(), frames, &opened, &other_list, &snap, ClientAssurance::PrivateCapabilityBound)
        .is_err());
}

#[test]
fn protocol_1_0_snapshots_reject_capabilities_introduced_in_1_1() {
    let legacy = session(ProtocolVersion::v1_0());
    let mut snap = snapshot();
    snap.runtime.protocol_version = ProtocolVersion::v1_0();
    snap.phase2 = None;
    snap.capabilities = vec![healthy(CapabilityId::Snapshot)];
    assert!(snapshot_is_consistent(&legacy, ClientAssurance::PrivateCapabilityBound, &snap));
    snap.capabilities.push(healthy(CapabilityId::FocusSessions));
    assert!(!snapshot_is_consistent(&legacy, ClientAssurance::PrivateCapabilityBound, &snap));
}

#[test]
fn phase2_snapshots_reject_dangling_private_references() {
    let opened = session(ProtocolVersion::v1_2());
    let private = ClientAssurance::PrivateCapabilityBound;
    assert!(snapshot_is_consistent(&opened, private, &snapshot()));

    let mut dangling_goal = snapshot();
    dangling_goal.phase2.as_mut().unwrap().focus_sessions[0].goal_id = OTHER_GOAL;
    assert!(!snapshot_is_consistent(&opened, private, &dangling_goal));

    let mut dangling_resource = snapshot();
    dangling_resource.phase2.as_mut().unwrap().capture_states[0].sources[0].selected_resource_id = Some(0x999);
    assert!(!snapshot_is_consistent(&opened, private, &dangling_resource));

    let mut dangling_grant = snapshot();
    dangling_grant.phase2.as_mut().unwrap().focus_sessions[0].permission_grant_ids.push(0x777);
    assert!(!snapshot_is_consistent(&opened, private, &dangling_grant));

    let mut dangling_channel = snapshot();
    dangling_channel.phase2.as_mut().unwrap().intervention_history.entries[0].delivery_channel_id = Some(0x888);
    assert!(!snapshot_is_consistent(&opened, private, &dangling_channel));
}

#[test]
fn snapshot_records_must_be_unique_and_ordered_in_time() {
    let opened = session(ProtocolVersion::v1_2());
    let private = ClientAssurance::PrivateCapabilityBound;
    let mut repeated_goal = snapshot();
    repeated_goal.goals.push(goal(GOAL, 2));
    assert!(!snapshot_is_consistent(&opened, private, &repeated_goal));

    let mut repeated_capability = snapshot();
    repeated_capability.capabilities.push(healthy(CapabilityId::Snapshot));
    assert!(!snapshot_is_consistent(&opened, private, &repeated_capability));

    let mut future_runtime = snapshot();
    future_runtime.runtime.observed_at = 5_001;
    assert!(!snapshot_is_consistent(&opened, private, &future_runtime));

    let mut other_daemon = snapshot();
    other_daemon.cursor.daemon_instance_id = DAEMON + 1;
    assert!(!snapshot_is_consistent(&opened, private, &other_daemon));

    let mut stale_policy = snapshot();
    stale_policy.phase2.as_mut().unwrap().effective_policy = Some(PolicyStamp { schema_version: 1, user_preferences_revision: 1 });
    assert!(!snapshot_is_consistent(&opened, private, &stale_policy));

    let mut missing_identity = snapshot();
    missing_identity.phase2.as_mut().unwrap().stein_identity = None;
    assert!(!snapshot_is_consistent(&opened, private, &missing_identity));

    let v1_1 = session(ProtocolVersion::v1_1());
    let mut v1_1_snapshot = snapshot();
    v1_1_snapshot.runtime.protocol_version = ProtocolVersion::v1_1();
    v1_1_snapshot.capabilities = vec![healthy(CapabilityId::Snapshot), healthy(CapabilityId::FocusSessions)];
    assert!(!snapshot_is_consistent(&v1_1, private, &v1_1_snapshot));
    {
        let p = v1_1_snapshot.phase2.as_mut().unwrap();
        p.current_device_id = None;
        p.stein_identity = None;
        p.user_preferences = None;
        p.effective_policy = None;
        p.selected_resources[0].revision = None;
        p.selected_resources[0].created_at = None;
    }
    assert!(snapshot_is_consistent(&v1_1, private, &v1_1_snapshot));

    let mut unknown_reason = snapshot();
    unknown_reason.capabilities[0].unavailable_reason = Some("x".to_owned());
    assert!(!snapshot_is_consistent(&opened, private, &unknown_reason));
    assert!(!capability_health_is_consistent(&unknown_reason.capabilities[0]));
}

#[test]
fn requested_focus_event_accepts_the_persisted_starting_state() {
    assert!(focus_change_matches_state(FocusSessionChangeKind::Requested, FocusSessionState::Requested, false));
    assert!(focus_change_matches_state(FocusSessionChangeKind::Requested, FocusSessionState::Starting, false));
    assert!(!focus_change_matches_state(FocusSessionChangeKind::Requested, FocusSessionState::Active, false));
    assert!(focus_change_matches_state(FocusSessionChangeKind::Muted, FocusSessionState::Stopping, true));
    assert!(!focus_change_matches_state(FocusSessionChangeKind::Muted, FocusSessionState::Ended, true));
    assert!(!focus_change_matches_state(FocusSessionChangeKind::Unmuted, FocusSessionState::Active, true));
}

#[test]
fn change_kinds_must_agree_with_states() {
    assert!(goal_change_matches_state(GoalChangeKind::Created, ViewGoalState::Draft, 1));
    assert!(!goal_change_matches_state(GoalChangeKind::Created, ViewGoalState::Active, 2));
    assert!(!goal_change_matches_state(GoalChangeKind::Completed, ViewGoalState::Active, 2));
    assert!(goal_change_matches_state(GoalChangeKind::Abandoned, ViewGoalState::Abandoned, 3));
    let revoked = PermissionRecordView::SessionGrant(SessionGrantView { state: GrantViewState::Revoked, ..grant() });
    assert!(permission_change_matches_state(PermissionChangeKind::Revoked, &revoked));
    assert!(!permission_change_matches_state(PermissionChangeKind::Granted, &revoked));
    assert!(permission_change_matches_state(PermissionChangeKind::Updated, &revoked));
    let expired = PermissionRecordView::ModelRouteApproval(ModelRouteApprovalView { state: RouteApprovalState::Expired, ..route() });
    assert!(permission_change_matches_state(PermissionChangeKind::Expired, &expired));
    assert!(intervention_is_available(&intervention(1)));
    assert!(!intervention_is_available(&InterventionView { state: InterventionState::Denied, ..intervention(1) }));
    assert!(!intervention_is_available(&InterventionView { user_visible_text: Some(" ".to_owned()), ..intervention(1) }));
    assert!(ids_unique_non_nil(&vec![1, 2, 3]));
    assert!(!ids_unique_non_nil(&vec![1, 0]));
    assert!(!ids_unique_non_nil(&vec![4, 4]));
}

#[test]
fn contradictory_event_tags_and_states_require_a_reconnect() {
    let cases = vec![
        ViewEvent::FocusSessionViewChanged { focus_change: FocusSessionChangeKind::Ended, focus_session: FocusSessionView { revision: 2, ..focus() } },
        ViewEvent::PermissionViewChanged {
            permission_change: PermissionChangeKind::Revoked,
            permission: PermissionRecordView::SessionGrant(SessionGrantView { revision: 2, ..grant() }),
        },
        ViewEvent::InterventionAvailable { intervention: InterventionView { state: InterventionState::Denied, ..intervention(2) } },
        ViewEvent::GoalViewChanged { goal_change: GoalChangeKind::Completed, goal: goal(GOAL, 2) },
    ];
    for (index, event) in cases.into_iter().enumerate() {
        let mut state = snapshot();
        assert_eq!(apply(&mut state, envelope(11, 0x100 + index as u128, event)), EventApplication::Gap);
        assert_eq!(state, snapshot());
    }
}

#[test]
fn intervention_history_delete_removes_the_cached_entry() {
    let mut state = snapshot();
    let event = ViewEvent::InterventionHistoryChanged {
        history_change: InterventionHistoryChangeKind::Deleted,
        intervention_id: INTERVENTION,
        entry: None,
    };
    assert_eq!(apply(&mut state, envelope(11, 0x200, event)), EventApplication::Applied);
    let history = &state.phase2.as_ref().unwrap().intervention_history;
    assert!(history.entries.is_empty());
    assert_eq!(history.as_of, 6_000);
    assert_eq!(state.cursor.sequence, 11);
    assert_eq!(state.as_of, 6_000);
}

#[test]
fn every_phase2_view_event_applies_to_the_authoritative_cache() {
    let mut state = snapshot();
    let mut sequence = 11;
    let mut message = 0x300;
    let mut step = |state: &mut ClientSnapshotView, event: ViewEvent| {
        let result = apply(state, envelope(sequence, message, event));
        sequence += 1;
        message += 1;
        result
    };
    let updated_goal = GoalView { revision: 2, updated_at: 5_500, ..goal(GOAL, 2) };
    assert_eq!(step(&mut state, ViewEvent::GoalViewChanged { goal_change: GoalChangeKind::Updated, goal: updated_goal }), EventApplication::Applied);
    assert_eq!(state.goals, vec![updated_goal]);

    let muted = FocusSessionView { revision: 2, interventions_muted: true, ..focus() };
    assert_eq!(step(&mut state, ViewEvent::FocusSessionViewChanged { focus_change: FocusSessionChangeKind::Muted, focus_session: muted.clone() }), EventApplication::Applied);
    assert_eq!(state.phase2.as_ref().unwrap().focus_sessions, vec![muted]);

    let channel = DeliveryChannelView { delivery_channel_id: CHANNEL + 1, observed_at: 5_900 };
    assert_eq!(step(&mut state, ViewEvent::DeliveryChannelViewChanged { channel }), EventApplication::Applied);
    assert_eq!(state.phase2.as_ref().unwrap().delivery_channels.len(), 2);

    let newer = intervention(2);
    assert_eq!(step(&mut state, ViewEvent::InterventionViewChanged { intervention: newer.clone() }), EventApplication::Applied);
    assert_eq!(state.phase2.as_ref().unwrap().intervention_history.entries, vec![newer]);

    let preferences = RecordStamp { owner_id: ACTOR, schema_version: 1, revision: 3, recorded_at: 6_000 };
    let policy = PolicyStamp { schema_version: 1, user_preferences_revision: 3 };
    assert_eq!(step(&mut state, ViewEvent::UserPreferencesViewChanged { preferences, effective_policy: policy }), EventApplication::Applied);
    assert_eq!(state.phase2.as_ref().unwrap().user_preferences, Some(preferences));

    let second = SelectedResourceView { selected_resource_id: RESOURCE + 1, display_name: "ledger".to_owned(), revision: Some(1), created_at: Some(5_000) };
    assert_eq!(
        step(&mut state, ViewEvent::SelectedResourceViewChanged { resource_change: SelectedResourceChangeKind::Registered, resource: Some(second), resource_tombstone: None }),
        EventApplication::Applied
    );
    assert_eq!(state.phase2.as_ref().unwrap().selected_resources.len(), 2);

    let stale_capture = CaptureStateView { revision: 0, ..capture() };
    assert_eq!(step(&mut state, ViewEvent::CaptureStateChanged { capture: stale_capture }), EventApplication::Gap);
    assert_eq!(state.cursor.sequence, 16);
}

#[test]
fn deleting_a_goal_removes_everything_that_only_it_used() {
    let mut state = snapshot();
    state.phase2.as_mut().unwrap().selected_resources.push(SelectedResourceView {
        selected_resource_id: 0x82,
        display_name: "unrelated".to_owned(),
        revision: Some(1),
        created_at: Some(400),
    });
    let event = ViewEvent::GoalDeleted { tombstone: GoalTombstoneView { goal_id: GOAL, deleted_revision: 1, deleted_at: 5_500 } };
    assert_eq!(apply(&mut state, envelope(11, 0x400, event)), EventApplication::Applied);
    assert!(state.goals.is_empty());
    let p = state.phase2.as_ref().unwrap();
    assert!(p.focus_sessions.is_empty());
    assert!(p.capture_states.is_empty());
    assert!(p.intervention_history.entries.is_empty());
    assert_eq!(p.permission_records, vec![PermissionRecordView::ModelRouteApproval(route())]);
    assert_eq!(p.selected_resources.len(), 1);
    assert_eq!(p.selected_resources[0].selected_resource_id, 0x82);
    assert_eq!(p.delivery_channels.len(), 1);

    let mut wrong_revision = snapshot();
    let event = ViewEvent::GoalDeleted { tombstone: GoalTombstoneView { goal_id: GOAL, deleted_revision: 2, deleted_at: 5_500 } };
    assert_eq!(apply(&mut wrong_revision, envelope(11, 0x401, event)), EventApplication::Gap);
}

#[test]
fn a_replayed_message_identity_advances_without_reapplying() {
    let mut state = snapshot();
    let mut identities = EventIdentitySet::new();
    let opened = session(ProtocolVersion::v1_2());
    let private = ClientAssurance::PrivateCapabilityBound;
    let first = envelope(11, 0x500, ViewEvent::GoalViewChanged { goal_change: GoalChangeKind::Updated, goal: GoalView { revision: 2, ..goal(GOAL, 2) } });
    assert_eq!(apply_event_with_ids(&mut state, &mut identities, &opened, private, first.clone(), rules()), EventApplication::Applied);
    let covered = apply_event_with_ids(&mut state, &mut identities, &opened, private, first, rules());
    assert_eq!(covered, EventApplication::AlreadyCovered);
    let replay = envelope(12, 0x500, ViewEvent::GoalViewChanged { goal_change: GoalChangeKind::Updated, goal: GoalView { revision: 3, ..goal(GOAL, 3) } });
    assert_eq!(apply_event_with_ids(&mut state, &mut identities, &opened, private, replay, rules()), EventApplication::AlreadyCovered);
    assert_eq!(state.goals[0].revision, 2);
    assert_eq!(state.cursor.sequence, 12);
}

#[test]
fn event_headers_must_come_from_core_for_a_private_session() {
    let opened = session(ProtocolVersion::v1_2());
    let snap = snapshot();
    let good = envelope(11, 0x600, ViewEvent::CapabilityHealthChanged { capability: healthy(CapabilityId::Snapshot) });
    assert!(event_header_is_consistent(&opened, ClientAssurance::PrivateCapabilityBound, &snap, &good.metadata, rules()));
    assert!(event_is_consistent(&opened, ClientAssurance::PrivateCapabilityBound, &snap, &good, rules()));
    assert!(!event_header_is_consistent(&opened, ClientAssurance::Diagnostic, &snap, &good.metadata, rules()));
    let mut from_client = good.clone();
    from_client.metadata.origin = Component::DesktopClient;
    assert!(!event_is_consistent(&opened, ClientAssurance::PrivateCapabilityBound, &snap, &from_client, rules()));
    let mut misclassified = good.clone();
    misclassified.metadata.sensitivity = SensitivityClass::Restricted;
    assert!(!event_is_consistent(&opened, ClientAssurance::PrivateCapabilityBound, &snap, &misclassified, rules()));
    let mut older = good.clone();
    older.metadata.occurred_at = 4_999;
    assert!(!event_is_consistent(&opened, ClientAssurance::PrivateCapabilityBound, &snap, &older, rules()));
    let newer_rules = EventKindRules { minimum: ProtocolVersion { major: 1, minor: 3 }, ..rules() };
    assert!(!event_is_consistent(&opened, ClientAssurance::PrivateCapabilityBound, &snap, &good, newer_rules));
    assert!(event_actor_is_bound(&opened, DAEMON, ActorKind::CoreDaemon));
    assert!(event_actor_is_bound(&opened, 0x5, ActorKind::System));
    assert!(!event_actor_is_bound(&opened, ACTOR, ActorKind::Client));
    assert!(!event_actor_is_bound(&opened, ACTOR + 1, ActorKind::LocalOsUser));
}

#[test]
fn upserts_replace_the_first_match_or_append() {
    let mut goals = vec![goal(1, 1), goal(2, 1)];
    upsert(&mut goals, goal(2, 5));
    assert_eq!(goals, vec![goal(1, 1), goal(2, 5)]);
    upsert(&mut goals, goal(3, 1));
    assert_eq!(goals.len(), 3);
    remove_key(&mut goals, 1);
    assert_eq!(goals, vec![goal(2, 5), goal(3, 1)]);
    let mut state = snapshot();
    let runtime = RuntimeStatusView { observed_at: 5_500, ..state.runtime.clone() };
    let event = envelope(11, 0x700, ViewEvent::RuntimeStatusChanged { runtime: runtime.clone() });
    apply_view_event(&mut state, event);
    assert_eq!(state.runtime, runtime);
}

#[test]
fn protocol_1_0_snapshot_normalization_removes_1_1_state_and_capabilities() {
    let mut snapshot = snapshot();

    normalize_snapshot_for_protocol(&mut snapshot, ProtocolVersion::v1_0());

    assert_eq!(snapshot.runtime.protocol_version, ProtocolVersion::v1_0());
    assert!(snapshot.phase2.is_none());
    assert!(snapshot
        .capabilities
        .iter()
        .all(|health| capability_supported(health.capability, ProtocolVersion::v1_0())));
    assert!(!snapshot
        .capabilities
        .iter()
        .any(|health| health.capability == CapabilityId::FocusSessions));
}

#[test]
fn protocol_1_1_normalization_strips_what_1_2_added() {
    let mut normalized = snapshot();
    normalize_snapshot_for_protocol(&mut normalized, ProtocolVersion::v1_1());
    assert_eq!(normalized.runtime.protocol_version, ProtocolVersion::v1_1());
    let phase2 = normalized.phase2.expect("protocol 1.1 keeps the private views");
    assert_eq!(phase2.current_device_id, None);
    assert_eq!(phase2.stein_identity, None);
    assert_eq!(phase2.user_preferences, None);
    assert_eq!(phase2.effective_policy, None);
    assert_eq!(phase2.selected_resources[0].revision, None);
    assert_eq!(phase2.selected_resources[0].created_at, None);
    assert_eq!(phase2.selected_resources[0].display_name, "release-notes.md");
    assert_eq!(phase2.focus_sessions, vec![focus()]);
    assert_eq!(normalized.capabilities.len(), 3);

    let mut current = snapshot();
    normalize_snapshot_for_protocol(&mut current, ProtocolVersion::v1_2());
    assert_eq!(current, snapshot());
}
