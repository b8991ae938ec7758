use stein_ipc::capture::{
    apply_source_health, check_source_report, mark_recovered_sources_healthy, native_capture_status,
    pause_capture_for_native_status_loss, validate_native_status_heartbeat, HeartbeatTrack,
    NativeStatusHeartbeat, NativeStatusLoss, SourceHealthReport,
};
use stein_ipc::delivery::SourceHealthEntry;
use stein_ipc::errors::SecondMindErrorCode;
use stein_ipc::evidence::{observation_usable, NativeResourceStatus, ObservationFacts, ResourceBinding};
use stein_ipc::resources::ResourceKind;
use stein_ipc::validation::{valid_status_acknowledgement, NativeStatusAcknowledgement};
use stein_ipc::model::{
    DataCategory, FocusSession, FocusSessionState, GrantState, PermissionGrant, PermissionScope, PresenceState,
    SourceHealth,
};
use stein_ipc::validation::SourceStatusClaim;

const OWNER: u128 = 0xA;
const SESSION: u128 = 0x51;
const NOW: i64 = 1_800_000_000_000;
const TIMEOUT: u64 = 10_000;

fn session(state: FocusSessionState) -> FocusSession {
    FocusSession {
        id: SESSION,
        owner: OWNER,
        goal_id: 0x60,
        goal_revision: 1,
        state,
        muted: false,
        source_degraded: false,
        client_disconnect_allowed: true,
        daemon_restart_allowed: true,
        revision: 7,
        model_route_approval_id: 0x77,
        permission_grant_ids: vec![1, 2, 3],
        selected_resource_ids: vec![0x99],
        requested_at: NOW - 20_000,
        started_at: Some(NOW - 15_000),
        ended_at: None,
        updated_at: NOW - 10_000,
        failure_reason: None,
    }
}

fn grant(id: u128, scope: PermissionScope, resource: Option<u128>) -> PermissionGrant {
    PermissionGrant {
        id,
        owner: OWNER,
        goal_id: 0x60,
        focus_session_id: Some(SESSION),
        device_id: 0xDE,
        scope,
        selected_resource_id: resource,
        model_route_approval_id: None,
        daemon_restart_allowed: true,
        state: GrantState::Active,
        revision: 2,
        effective_at: NOW - 60_000,
        expires_at: NOW + 3_600_000,
        revoked_at: None,
    }
}

fn grants() -> Vec<PermissionGrant> {
    vec![
        grant(1, PermissionScope::ReasonFocusContext, None),
        grant(2, PermissionScope::ObserveDesktopPresence, None),
        grant(3, PermissionScope::ObserveWorkspaceActivity, Some(0x99)),
        grant(4, PermissionScope::ObserveScreenPixels, Some(0x98)),
    ]
}

fn track() -> HeartbeatTrack {
    HeartbeatTrack { native_status_revision: Some(7), last_heartbeat_at: Some(NOW - 2_000) }
}

#[test]
fn stale_wrong_session_and_wrong_revision_native_heartbeats_fail_closed() {
    let stale = NativeStatusHeartbeat { session_id: SESSION, revision: 7, emitted_at: NOW - 11_000 };
    let error = validate_native_status_heartbeat(SESSION, Some(track()), stale, NOW, TIMEOUT).unwrap_err();
    assert_eq!(error.code, SecondMindErrorCode::PermissionDenied);
    assert_eq!(error.summary, "The native status heartbeat does not match current capture authority.");

    let wrong_session = NativeStatusHeartbeat { session_id: 0x52, revision: 7, emitted_at: NOW };
    assert!(validate_native_status_heartbeat(SESSION, Some(track()), wrong_session, NOW, TIMEOUT).is_err());

    let wrong_revision = NativeStatusHeartbeat { session_id: SESSION, revision: 8, emitted_at: NOW };
    assert!(validate_native_status_heartbeat(SESSION, Some(track()), wrong_revision, NOW, TIMEOUT).is_err());
}

#[test]
fn a_current_heartbeat_is_accepted_once_time_moves_forward() {
    let beat = NativeStatusHeartbeat { session_id: SESSION, revision: 7, emitted_at: NOW - 1_000 };
    let next = validate_native_status_heartbeat(SESSION, Some(track()), beat, NOW, TIMEOUT).unwrap();
    assert_eq!(next.last_heartbeat_at, Some(NOW - 1_000));
    let edge = NativeStatusHeartbeat { session_id: SESSION, revision: 7, emitted_at: NOW - 10_000 };
    let fresh = HeartbeatTrack { last_heartbeat_at: None, ..track() };
    assert!(validate_native_status_heartbeat(SESSION, Some(fresh), edge, NOW, TIMEOUT).is_ok());
    let earlier = NativeStatusHeartbeat { session_id: SESSION, revision: 7, emitted_at: NOW - 1_500 };
    assert!(validate_native_status_heartbeat(SESSION, Some(next), earlier, NOW, TIMEOUT).is_err());
    let future = NativeStatusHeartbeat { session_id: SESSION, revision: 7, emitted_at: NOW + 1 };
    assert!(validate_native_status_heartbeat(SESSION, Some(track()), future, NOW, TIMEOUT).is_err());
    let gone = validate_native_status_heartbeat(SESSION, None, beat, NOW, TIMEOUT).unwrap_err();
    assert_eq!(gone.summary, "The native status session is no longer active.");
}

fn report(grant_id: u128, scope: PermissionScope, resource: Option<u128>, observed_at: i64) -> SourceHealthReport {
    SourceHealthReport {
        claim: SourceStatusClaim { source_id: "workspace.local".to_owned(), grant_id, scope, resource_id: resource },
        health: SourceHealth::Healthy,
        observed_at,
    }
}

#[test]
fn source_health_reports_must_come_from_a_working_sessions_grant() {
    let working = session(FocusSessionState::Active);
    let ok = report(3, PermissionScope::ObserveWorkspaceActivity, Some(0x99), NOW + 1_000);
    assert_eq!(check_source_report(&working, &grants(), 3, &ok, NOW), Ok(()));
    let late = check_source_report(&session(FocusSessionState::Ended), &grants(), 3, &ok, NOW).unwrap_err();
    assert_eq!(late.summary, "Late source health for an inactive session was rejected.");
    let foreign = report(4, PermissionScope::ObserveScreenPixels, Some(0x98), NOW);
    assert!(check_source_report(&working, &grants(), 4, &foreign, NOW).is_err());
    let missing = check_source_report(&working, &grants()[..2].to_vec(), 3, &ok, NOW).unwrap_err();
    assert_eq!(missing.summary, "The source grant is missing.");
    let wrong_scope = report(3, PermissionScope::ObserveScreenPixels, Some(0x99), NOW);
    assert_eq!(
        check_source_report(&working, &grants(), 3, &wrong_scope, NOW).unwrap_err().summary,
        "The observation source status is outside its grant."
    );
    let ahead = report(3, PermissionScope::ObserveWorkspaceActivity, Some(0x99), NOW + 1_001);
    assert_eq!(
        check_source_report(&working, &grants(), 3, &ahead, NOW).unwrap_err().summary,
        "The source health timestamp is invalid."
    );
}

#[test]
fn source_health_degrades_and_restores_a_session_only_when_it_changes() {
    let working = session(FocusSessionState::Active);
    let (same, save) = apply_source_health(&working, &vec![SourceHealth::Healthy], NOW);
    assert!(!save);
    assert_eq!(same, working);
    let (degraded, save) = apply_source_health(&working, &vec![SourceHealth::Healthy, SourceHealth::Paused], NOW);
    assert!(save);
    assert!(degraded.source_degraded);
    assert_eq!(degraded.revision, 8);
    assert_eq!(degraded.updated_at, NOW);
    let (restored, save) = apply_source_health(&degraded, &vec![SourceHealth::Healthy], NOW + 1);
    assert!(save);
    assert!(!restored.source_degraded);
    assert_eq!(restored.revision, 9);
}

#[test]
fn losing_native_status_pauses_capture_and_stops_observation_adapters() {
    let working = session(FocusSessionState::Active);
    match pause_capture_for_native_status_loss(&working, &grants(), NOW) {
        NativeStatusLoss::Pause { session, save, stop_grant_ids } => {
            assert!(save);
            assert!(session.source_degraded);
            assert_eq!(session.revision, 8);
            assert_eq!(stop_grant_ids, vec![2, 3]);
        }
        NativeStatusLoss::NotWorking => panic!("a working session must pause"),
    }
    let mut already = working.clone();
    already.source_degraded = true;
    match pause_capture_for_native_status_loss(&already, &grants(), NOW) {
        NativeStatusLoss::Pause { session, save, .. } => {
            assert!(!save);
            assert_eq!(session, already);
        }
        NativeStatusLoss::NotWorking => panic!("a working session must pause"),
    }
    assert!(matches!(
        pause_capture_for_native_status_loss(&session(FocusSessionState::Ended), &grants(), NOW),
        NativeStatusLoss::NotWorking
    ));
}

#[test]
fn recovery_ends_only_with_fresh_health_for_every_observation_scope() {
    let mut recovering = session(FocusSessionState::Recovering);
    recovering.source_degraded = true;
    let scopes = vec![PermissionScope::ObserveDesktopPresence, PermissionScope::ObserveWorkspaceActivity];
    let active = mark_recovered_sources_healthy(OWNER, &recovering, &grants(), &scopes, NOW).unwrap();
    assert_eq!(active.state, FocusSessionState::Active);
    assert!(!active.source_degraded);
    assert_eq!(active.revision, 8);
    let partial = mark_recovered_sources_healthy(
        OWNER,
        &recovering,
        &grants(),
        &vec![PermissionScope::ObserveDesktopPresence],
        NOW,
    )
    .unwrap_err();
    assert_eq!(partial.code, SecondMindErrorCode::Unavailable);
    assert_eq!(partial.summary, "Fresh health is missing for a required observation source.");
    let not_recovering =
        mark_recovered_sources_healthy(OWNER, &session(FocusSessionState::Active), &grants(), &scopes, NOW).unwrap_err();
    assert_eq!(not_recovering.summary, "The focus session is not awaiting recovery evidence.");
    let mut revoked = grants();
    revoked[0].state = GrantState::Revoked;
    let denied = mark_recovered_sources_healthy(OWNER, &recovering, &revoked, &scopes, NOW).unwrap_err();
    assert_eq!(denied.code, SecondMindErrorCode::PermissionDenied);
}

#[test]
fn only_fresh_admitted_observations_from_healthy_sources_enter_the_context() {
    let facts = ObservationFacts {
        grant_id: 3,
        category: DataCategory::WorkspaceActivity,
        required_scope: PermissionScope::ObserveWorkspaceActivity,
        observed_at: NOW - 5_000,
    };
    let health = vec![SourceHealthEntry { grant_id: 3, health: SourceHealth::Healthy, observed_at: NOW - 1_000 }];
    let categories = vec![DataCategory::Goal, DataCategory::WorkspaceActivity];
    assert!(observation_usable(facts, &health, &categories, &grants(), NOW, 30_000, 60_000));
    assert!(!observation_usable(facts, &health, &categories, &grants(), NOW, 30_000, 4_999));
    let future = ObservationFacts { observed_at: NOW + 1, ..facts };
    assert!(!observation_usable(future, &health, &categories, &grants(), NOW, 30_000, 60_000));
    let paused = vec![SourceHealthEntry { grant_id: 3, health: SourceHealth::Paused, observed_at: NOW - 1_000 }];
    assert!(!observation_usable(facts, &paused, &categories, &grants(), NOW, 30_000, 60_000));
    let stale = vec![SourceHealthEntry { grant_id: 3, health: SourceHealth::Healthy, observed_at: NOW - 30_001 }];
    assert!(!observation_usable(facts, &stale, &categories, &grants(), NOW, 30_000, 60_000));
    assert!(!observation_usable(facts, &health, &vec![DataCategory::Goal], &grants(), NOW, 30_000, 60_000));
    let wrong_scope = ObservationFacts { required_scope: PermissionScope::ObserveScreenPixels, ..facts };
    assert!(!observation_usable(wrong_scope, &health, &categories, &grants(), NOW, 30_000, 60_000));
    let mut revoked = grants();
    revoked[2].state = GrantState::Revoked;
    assert!(!observation_usable(facts, &health, &categories, &revoked, NOW, 30_000, 60_000));
}

#[test]
fn native_status_lists_observation_scopes_and_hides_labels_when_away() {
    let resources = vec![ResourceBinding {
        id: 0x99,
        owner: OWNER,
        kind: ResourceKind::Workspace,
        opaque_reference: "native:99".to_owned(),
        display_label: "thesis.md".to_owned(),
        revision: 1,
        created_at: NOW - 100_000,
    }];
    let live = session(FocusSessionState::Active);
    let status = native_capture_status(&live, &grants(), &resources, Some(PresenceState::Active), NOW);
    assert_eq!(status.session_id, SESSION);
    assert_eq!(status.revision, 7);
    assert_eq!(status.published_at, NOW);
    assert_eq!(status.heartbeat_deadline, NOW + 10_000);
    assert_eq!(
        status.active_scopes,
        vec![PermissionScope::ObserveDesktopPresence, PermissionScope::ObserveWorkspaceActivity]
    );
    assert_eq!(
        status.resources,
        vec![NativeResourceStatus {
            grant_id: 3,
            scope: PermissionScope::ObserveWorkspaceActivity,
            display_label: "thesis.md".to_owned(),
        }]
    );
    for presence in [Some(PresenceState::Locked), Some(PresenceState::SwitchedAway)] {
        let hidden = native_capture_status(&live, &grants(), &resources, presence, NOW);
        assert!(hidden.resources.is_empty());
        assert_eq!(hidden.active_scopes, status.active_scopes);
    }
    let unknown = native_capture_status(&live, &grants(), &resources, None, NOW);
    assert_eq!(unknown.resources, status.resources);
    let ack = NativeStatusAcknowledgement {
        session_id: SESSION,
        revision: 7,
        acknowledged_at: NOW + 5,
        heartbeat_deadline: NOW + 10_000,
    };
    assert!(valid_status_acknowledgement(status.stamp(), ack));
    assert!(!valid_status_acknowledgement(status.stamp(), NativeStatusAcknowledgement { revision: 6, ..ack }));
}
