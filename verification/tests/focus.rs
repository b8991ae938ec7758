use stein_ipc::admission::ClientAssurance;
use stein_ipc::errors::SecondMindErrorCode;
use stein_ipc::focus::{
    check_start_grants, clear_acknowledged, complete_activation, complete_end, complete_reactivation, fail_start,
    plan_finish_end, FinishStep,
    plan_activation, plan_focus_session_start, request_focus_session, plan_reactivation, recover_owner, recover_session,
    replayed_result, resolve_grants_for_start, resolve_session_grants,
    select_observation_grants, source_restarted_fresh, ActivationPlan, OperationKind, SourceRestart, StartOutcome,
    OperationReceipt, StartPlan,
};
use stein_ipc::model::{
    DataCategory, FocusSession, FocusSessionState, Goal, GoalState, GrantState, PermissionGrant,
    PermissionScope, SourceHealth,
};
use stein_ipc::permissions::{
    approve_model_route, grant_permission, plan_grant_permission, revoke_model_route, route_revocation_actions,
    secret_deletion_outcome, sessions_on_route, Created, RouteRevocationAction,
};
use stein_ipc::runtime::{IdempotencyContext, StartFocusSession};
use stein_ipc::validation::{
    GrantPermission, ModelPlacement, ModelRouteApproval, NativeStatusAcknowledgement, SourceStatusClaim,
};

const OWNER: u128 = 0xA;
const OTHER: u128 = 0xB;
const GOAL: u128 = 0x60;
const SESSION: u128 = 0x51;
const ROUTE: u128 = 0x77;
const RESOURCE: u128 = 0x99;
const DEVICE: u128 = 0xDE;
const PRIVATE: ClientAssurance = ClientAssurance::PrivateCapabilityBound;
const NOW: i64 = 1_800_000_000_000;

fn goal() -> Goal {
    Goal {
        id: GOAL,
        owner: OWNER,
        title: "Ship the parser".to_owned(),
        success_statement: "All fixtures pass".to_owned(),
        deadline: None,
        state: GoalState::Active,
        revision: 3,
        created_at: NOW - 100_000,
        updated_at: NOW - 50_000,
    }
}

fn route() -> ModelRouteApproval {
    ModelRouteApproval {
        id: ROUTE,
        revision: 1,
        owner: OWNER,
        provider: "local".to_owned(),
        model: "small".to_owned(),
        secret_ref: "secret://model".to_owned(),
        purpose: "reason.focus_context".to_owned(),
        placement: ModelPlacement::Local,
        maximum_input_tokens: 1_200,
        maximum_output_tokens: 220,
        allowed_categories: vec![DataCategory::Goal, DataCategory::WorkspaceActivity],
        tools_enabled: false,
        core_persists_prompt_or_response: false,
        fallback_allowed: false,
        fallback: None,
        effective_at: NOW - 60_000,
        expires_at: Some(NOW + 3_600_000),
        revoked_at: None,
    }
}

fn grant(id: u128, scope: PermissionScope, resource: Option<u128>) -> PermissionGrant {
    PermissionGrant {
        id,
        owner: OWNER,
        goal_id: GOAL,
        focus_session_id: None,
        device_id: DEVICE,
        scope,
        selected_resource_id: resource,
        model_route_approval_id: None,
        daemon_restart_allowed: true,
        state: GrantState::Active,
        revision: 1,
        effective_at: NOW - 60_000,
        expires_at: NOW + 3_600_000,
        revoked_at: None,
    }
}

fn grants() -> Vec<PermissionGrant> {
    vec![
        grant(1, PermissionScope::ReasonFocusContext, None),
        grant(2, PermissionScope::InterveneDesktopNotification, None),
        grant(3, PermissionScope::ObserveDesktopPresence, None),
        grant(4, PermissionScope::ObserveWorkspaceActivity, Some(RESOURCE)),
    ]
}

fn command() -> StartFocusSession {
    StartFocusSession {
        idempotency: IdempotencyContext { key: 0x1D, request_digest: [7; 32] },
        owner: OWNER,
        session_id: SESSION,
        goal_id: GOAL,
        expected_goal_revision: 3,
        selected_resource_ids: vec![RESOURCE],
        grant_ids: vec![1, 2, 3, 4],
        model_route_approval_id: ROUTE,
        client_disconnect_allowed: true,
        daemon_restart_allowed: true,
    }
}

fn plan(command: &StartFocusSession, store: &Vec<PermissionGrant>) -> StartPlan {
    plan_focus_session_start(
        PRIVATE,
        command,
        NOW,
        &vec![goal()],
        &Vec::new(),
        &vec![route()],
        store,
    )
    .unwrap()
}

fn bound_store(plan: &StartPlan) -> Vec<PermissionGrant> {
    plan.bound_grants.iter().map(|(g, _)| g.clone()).collect()
}

#[test]
fn an_accepted_start_plans_a_starting_session_with_bound_grants() {
    let c = command();
    let p = plan(&c, &grants());
    assert_eq!(p.session.id, SESSION);
    assert_eq!(p.session.state, FocusSessionState::Starting);
    assert_eq!(p.session.revision, 1);
    assert_eq!(p.session.goal_revision, 3);
    assert_eq!(p.session.requested_at, NOW);
    assert_eq!(p.session.started_at, None);
    assert_eq!(p.session.permission_grant_ids, vec![1, 2, 3, 4]);
    assert_eq!(p.bound_grants.len(), 4);
    for (bound, expected) in &p.bound_grants {
        assert_eq!(*expected, 1);
        assert_eq!(bound.revision, 2);
        assert_eq!(bound.focus_session_id, Some(SESSION));
    }
    assert_eq!(p.bound_grants[0].0.model_route_approval_id, Some(ROUTE));
    assert_eq!(p.bound_grants[1].0.model_route_approval_id, None);
}

#[test]
fn start_refuses_diagnostic_clients_missing_goals_and_stale_revisions() {
    let c = command();
    let diagnostic = plan_focus_session_start(
        ClientAssurance::Diagnostic,
        &c,
        NOW,
        &vec![goal()],
        &Vec::new(),
        &vec![route()],
        &grants(),
    );
    assert_eq!(diagnostic.err().unwrap().code, SecondMindErrorCode::PermissionDenied);

    let missing = plan_focus_session_start(PRIVATE, &c, NOW, &Vec::new(), &Vec::new(), &vec![route()], &grants());
    assert_eq!(missing.err().unwrap().summary, "The goal was not found.");

    let mut stale = c.clone();
    stale.expected_goal_revision = 2;
    let conflict = plan_focus_session_start(PRIVATE, &stale, NOW, &vec![goal()], &Vec::new(), &vec![route()], &grants())
        .err()
        .unwrap();
    assert_eq!(conflict.code, SecondMindErrorCode::Conflict);
    assert_eq!(conflict.current_revision, Some(3));

    let mut done = goal();
    done.state = GoalState::Completed;
    let inactive = plan_focus_session_start(PRIVATE, &c, NOW, &vec![done], &Vec::new(), &vec![route()], &grants());
    assert_eq!(inactive.err().unwrap().summary, "Only an active goal can be focused.");
}

#[test]
fn start_refuses_a_working_session_and_an_unknown_or_unsafe_route() {
    let c = command();
    let first = plan(&c, &grants());
    let busy = plan_focus_session_start(
        PRIVATE,
        &c,
        NOW,
        &vec![goal()],
        &vec![first.session],
        &vec![route()],
        &grants(),
    );
    assert_eq!(
        busy.err().unwrap().summary,
        "A focus session with this identity or owner is already active."
    );

    let unknown = plan_focus_session_start(PRIVATE, &c, NOW, &vec![goal()], &Vec::new(), &Vec::new(), &grants());
    assert_eq!(unknown.err().unwrap().summary, "The model route approval was not found.");

    let mut tools = route();
    tools.tools_enabled = true;
    let unsafe_route = plan_focus_session_start(PRIVATE, &c, NOW, &vec![goal()], &Vec::new(), &vec![tools], &grants());
    assert_eq!(
        unsafe_route.err().unwrap().summary,
        "The model route approval is invalid or unsafe."
    );
}

#[test]
fn start_requires_every_grant_the_policy_names() {
    let c = command();
    let mut without_presence = c.clone();
    without_presence.grant_ids = vec![1, 2, 4];
    let err = plan_focus_session_start(
        PRIVATE,
        &without_presence,
        NOW,
        &vec![goal()],
        &Vec::new(),
        &vec![route()],
        &grants(),
    )
    .err()
    .unwrap();
    assert_eq!(err.summary, "A presence grant is required for safe proactive delivery.");

    let mut without_reasoning = c.clone();
    without_reasoning.grant_ids = vec![2, 3, 4];
    let err = plan_focus_session_start(
        PRIVATE,
        &without_reasoning,
        NOW,
        &vec![goal()],
        &Vec::new(),
        &vec![route()],
        &grants(),
    )
    .err()
    .unwrap();
    assert_eq!(err.summary, "Reasoning and notification grants are required.");

    let mut wrong_resources = c.clone();
    wrong_resources.selected_resource_ids = vec![RESOURCE, 0x98];
    let err = plan_focus_session_start(
        PRIVATE,
        &wrong_resources,
        NOW,
        &vec![goal()],
        &Vec::new(),
        &vec![route()],
        &grants(),
    )
    .err()
    .unwrap();
    assert_eq!(err.summary, "The selected resources do not exactly match the permission grants.");

    let mut unknown_grant = c.clone();
    unknown_grant.grant_ids = vec![1, 2, 3, 4, 9];
    let err = plan_focus_session_start(
        PRIVATE,
        &unknown_grant,
        NOW,
        &vec![goal()],
        &Vec::new(),
        &vec![route()],
        &grants(),
    )
    .err()
    .unwrap();
    assert_eq!(err.code, SecondMindErrorCode::PermissionDenied);
    assert_eq!(err.summary, "A referenced permission is missing.");
}

#[test]
fn continuity_and_route_authorization_cannot_exceed_the_grants() {
    let c = command();
    let mut store = grants();
    store[2].daemon_restart_allowed = false;
    let err = plan_focus_session_start(PRIVATE, &c, NOW, &vec![goal()], &Vec::new(), &vec![route()], &store)
        .err()
        .unwrap();
    assert_eq!(err.summary, "Session continuity cannot exceed its grants.");

    let mut half = c.clone();
    half.client_disconnect_allowed = false;
    let err = plan_focus_session_start(PRIVATE, &half, NOW, &vec![goal()], &Vec::new(), &vec![route()], &grants())
        .err()
        .unwrap();
    assert_eq!(err.summary, "Session continuity cannot exceed its grants.");

    let mut blind = route();
    blind.allowed_categories = vec![DataCategory::WorkspaceActivity];
    let err = plan_focus_session_start(PRIVATE, &c, NOW, &vec![goal()], &Vec::new(), &vec![blind], &grants())
        .err()
        .unwrap();
    assert_eq!(err.summary, "The reasoning grant and route do not authorize the goal packet.");

    let mut other_route = grants();
    other_route[0].model_route_approval_id = Some(0x78);
    let err = plan_focus_session_start(PRIVATE, &c, NOW, &vec![goal()], &Vec::new(), &vec![route()], &other_route)
        .err()
        .unwrap();
    assert_eq!(err.summary, "The reasoning grant and route do not authorize the goal packet.");
}

#[test]
fn check_start_grants_requires_an_observation_grant() {
    let c = command();
    let mut no_observation = c.clone();
    no_observation.selected_resource_ids = Vec::new();
    let rs = vec![
        grant(1, PermissionScope::ReasonFocusContext, None),
        grant(2, PermissionScope::InterveneDesktopNotification, None),
        grant(3, PermissionScope::ObserveDesktopPresence, None),
    ];
    assert_eq!(check_start_grants(&no_observation, &route(), &rs), Ok(()));
    let rs = vec![
        grant(1, PermissionScope::ReasonFocusContext, None),
        grant(2, PermissionScope::InterveneDesktopNotification, None),
        grant(5, PermissionScope::InterveneDesktopNotification, None),
    ];
    let err = check_start_grants(&no_observation, &route(), &rs).unwrap_err();
    assert_eq!(err.summary, "A presence grant is required for safe proactive delivery.");
}

#[test]
fn start_grants_must_serve_this_goal_and_session() {
    let mut store = grants();
    store[1].focus_session_id = Some(0x52);
    let err = resolve_grants_for_start(&store, GOAL, SESSION, &vec![1, 2], NOW).unwrap_err();
    assert_eq!(err.summary, "A referenced permission is not current for this goal and session.");
    let mut store = grants();
    store[0].goal_id = 0x61;
    assert!(resolve_grants_for_start(&store, GOAL, SESSION, &vec![1], NOW).is_err());
    let mut store = grants();
    store[0].focus_session_id = Some(SESSION);
    let resolved = resolve_grants_for_start(&store, GOAL, SESSION, &vec![3, 1], NOW).unwrap();
    assert_eq!(resolved.iter().map(|g| g.id).collect::<Vec<_>>(), vec![3, 1]);
    assert!(resolve_grants_for_start(&grants(), GOAL, SESSION, &vec![1], NOW + 3_600_000).is_err());
}

#[test]
fn replayed_commands_return_the_recorded_result_or_a_conflict() {
    let idempotency = IdempotencyContext { key: 0x1D, request_digest: [7; 32] };
    assert_eq!(replayed_result(None, idempotency), Ok(None));
    let receipt = OperationReceipt {
        owner: OWNER,
        kind: OperationKind::StartFocusSession,
        idempotency_key: 0x1D,
        request_digest: [7; 32],
        result_id: SESSION,
    };
    assert_eq!(replayed_result(Some(receipt), idempotency), Ok(Some(SESSION)));
    let mut changed = receipt;
    changed.request_digest[31] = 8;
    let err = replayed_result(Some(changed), idempotency).unwrap_err();
    assert_eq!(err.code, SecondMindErrorCode::Conflict);
    assert_eq!(err.summary, "The idempotency key was already used for different input.");
}

#[test]
fn a_planned_start_activates_against_its_bound_grants() {
    let c = command();
    let p = plan(&c, &grants());
    let store = bound_store(&p);
    let activation = plan_activation(PRIVATE, OWNER, &p.session, 1, NOW, &vec![goal()], &vec![route()], &store).unwrap();
    match activation {
        ActivationPlan::StartAdapters(observations) => {
            assert_eq!(observations.iter().map(|g| g.id).collect::<Vec<_>>(), vec![3, 4]);
        }
        ActivationPlan::Fail(reason) => panic!("unexpected failure {reason}"),
    }
    let active = complete_activation(&p.session, &vec![SourceHealth::Healthy, SourceHealth::Healthy], NOW + 5);
    assert_eq!(active.state, FocusSessionState::Active);
    assert_eq!(active.started_at, Some(NOW + 5));
    assert_eq!(active.updated_at, NOW + 5);
    assert_eq!(active.revision, 2);
    assert!(!active.source_degraded);
    let degraded = complete_activation(&p.session, &vec![SourceHealth::Healthy, SourceHealth::Paused], NOW + 5);
    assert!(degraded.source_degraded);
}

#[test]
fn activation_refuses_other_actors_stale_revisions_and_started_sessions() {
    let c = command();
    let p = plan(&c, &grants());
    let store = bound_store(&p);
    let goals = vec![goal()];
    let routes = vec![route()];
    let err = plan_activation(PRIVATE, OTHER, &p.session, 1, NOW, &goals, &routes, &store).err().unwrap();
    assert_eq!(err.summary, "The focus session belongs to another actor.");
    let err = plan_activation(PRIVATE, OWNER, &p.session, 2, NOW, &goals, &routes, &store).err().unwrap();
    assert_eq!(err.code, SecondMindErrorCode::Conflict);
    assert_eq!(err.current_revision, Some(1));
    let active = complete_activation(&p.session, &Vec::new(), NOW);
    let err = plan_activation(PRIVATE, OWNER, &active, 2, NOW, &goals, &routes, &store).err().unwrap();
    assert_eq!(err.summary, "Only a starting focus session can activate its adapters.");
    let err = plan_activation(ClientAssurance::Diagnostic, OWNER, &p.session, 1, NOW, &goals, &routes, &store)
        .err()
        .unwrap();
    assert_eq!(err.code, SecondMindErrorCode::PermissionDenied);
}

fn failure_reason(plan: ActivationPlan) -> &'static str {
    match plan {
        ActivationPlan::Fail(reason) => reason,
        ActivationPlan::StartAdapters(_) => panic!("activation was expected to fail"),
    }
}

#[test]
fn activation_fails_the_start_when_its_records_changed() {
    let c = command();
    let p = plan(&c, &grants());
    let store = bound_store(&p);
    let mut moved = goal();
    moved.revision = 4;
    let r = plan_activation(PRIVATE, OWNER, &p.session, 1, NOW, &vec![moved], &vec![route()], &store).unwrap();
    assert_eq!(failure_reason(r), "goal_changed_before_activation");

    let mut expired = route();
    expired.expires_at = Some(NOW);
    let r = plan_activation(PRIVATE, OWNER, &p.session, 1, NOW, &vec![goal()], &vec![expired], &store).unwrap();
    assert_eq!(failure_reason(r), "model_route_invalid_before_activation");

    let mut revoked = store.clone();
    revoked[3].state = GrantState::Revoked;
    let r = plan_activation(PRIVATE, OWNER, &p.session, 1, NOW, &vec![goal()], &vec![route()], &revoked).unwrap();
    assert_eq!(failure_reason(r), "permission_invalid_before_activation");

    let mut rebound = store.clone();
    rebound[3].selected_resource_id = Some(0x98);
    let r = plan_activation(PRIVATE, OWNER, &p.session, 1, NOW, &vec![goal()], &vec![route()], &rebound).unwrap();
    assert_eq!(failure_reason(r), "resource_changed_before_activation");

    let err = plan_activation(PRIVATE, OWNER, &p.session, 1, NOW, &Vec::new(), &vec![route()], &store).err().unwrap();
    assert_eq!(err.summary, "The goal was not found.");
    let err = plan_activation(PRIVATE, OWNER, &p.session, 1, NOW, &vec![goal()], &Vec::new(), &store).err().unwrap();
    assert_eq!(err.summary, "The model route approval was not found.");
}

#[test]
fn a_failed_start_is_recorded_and_answered_as_unavailable() {
    let p = plan(&command(), &grants());
    let (failed, err) = fail_start(&p.session, "observation_source_start_failed", NOW + 9);
    assert_eq!(failed.state, FocusSessionState::Failed);
    assert_eq!(failed.failure_reason, Some("observation_source_start_failed"));
    assert_eq!(failed.updated_at, NOW + 9);
    assert_eq!(failed.revision, 2);
    assert_eq!(err.code, SecondMindErrorCode::Unavailable);
    assert!(err.retryable);
    assert_eq!(err.summary, "A required observation source could not start.");
}

fn working(id: u128, state: FocusSessionState) -> FocusSession {
    let mut s = plan(&command(), &grants()).session;
    s.id = id;
    s.state = state;
    s.revision = 5;
    s
}

#[test]
fn restart_recovers_only_authorized_working_sessions() {
    let p = plan(&command(), &grants());
    let store = bound_store(&p);
    let sessions = vec![
        working(1, FocusSessionState::Active),
        working(2, FocusSessionState::Ended),
        working(3, FocusSessionState::Recovering),
    ];
    let recovered = recover_owner(&sessions, &store, &vec![route()], NOW);
    assert_eq!(recovered.len(), 2);
    assert_eq!(recovered[0].id, 1);
    assert_eq!(recovered[0].state, FocusSessionState::Recovering);
    assert!(recovered[0].source_degraded);
    assert_eq!(recovered[0].revision, 6);
    assert_eq!(recovered[1].id, 3);

    let mut not_allowed = working(1, FocusSessionState::Active);
    not_allowed.daemon_restart_allowed = false;
    let ended = recover_session(&not_allowed, &store, &vec![route()], NOW);
    assert_eq!(ended.state, FocusSessionState::Ended);
    assert_eq!(ended.ended_at, Some(NOW));
    assert_eq!(ended.failure_reason, Some("restart_continuity_not_authorized"));

    let mut revoked_route = route();
    revoked_route.revoked_at = Some(NOW - 1);
    let ended = recover_session(&working(1, FocusSessionState::Active), &store, &vec![revoked_route], NOW);
    assert_eq!(ended.state, FocusSessionState::Ended);

    let mut narrow = store.clone();
    narrow[2].daemon_restart_allowed = false;
    let ended = recover_session(&working(1, FocusSessionState::Active), &narrow, &vec![route()], NOW);
    assert_eq!(ended.state, FocusSessionState::Ended);
}

#[test]
fn reactivation_requires_unchanged_records_and_freshly_healthy_sources() {
    let p = plan(&command(), &grants());
    let store = bound_store(&p);
    let recovering = working(SESSION, FocusSessionState::Recovering);
    let observations = plan_reactivation(OWNER, &recovering, NOW, &vec![goal()], &vec![route()], &store).unwrap();
    assert_eq!(observations.iter().map(|g| g.id).collect::<Vec<_>>(), vec![3, 4]);

    let err = plan_reactivation(OWNER, &working(SESSION, FocusSessionState::Active), NOW, &vec![goal()], &vec![route()], &store)
        .unwrap_err();
    assert_eq!(err.summary, "The focus session is not awaiting adapter recovery.");
    let mut moved = goal();
    moved.state = GoalState::Abandoned;
    let err = plan_reactivation(OWNER, &recovering, NOW, &vec![moved], &vec![route()], &store).unwrap_err();
    assert_eq!(err.summary, "The recovering focus session no longer matches its goal.");
    let mut rebound = store.clone();
    rebound[3].selected_resource_id = None;
    let err = plan_reactivation(OWNER, &recovering, NOW, &vec![goal()], &vec![route()], &rebound).unwrap_err();
    assert_eq!(err.summary, "The recovering focus session resource bindings changed.");

    let claim = SourceStatusClaim {
        source_id: "workspace.local".to_owned(),
        grant_id: 4,
        scope: PermissionScope::ObserveWorkspaceActivity,
        resource_id: Some(RESOURCE),
    };
    let g = &observations[1];
    assert!(source_restarted_fresh(g, &claim, SourceHealth::Healthy, NOW - 30_000, NOW, 30_000));
    assert!(!source_restarted_fresh(g, &claim, SourceHealth::Healthy, NOW - 30_001, NOW, 30_000));
    assert!(!source_restarted_fresh(g, &claim, SourceHealth::Healthy, NOW + 1, NOW, 30_000));
    assert!(!source_restarted_fresh(g, &claim, SourceHealth::Paused, NOW, NOW, 30_000));

    let presence = SourceRestart {
        claim: SourceStatusClaim {
            source_id: "desktop.presence".to_owned(),
            grant_id: 3,
            scope: PermissionScope::ObserveDesktopPresence,
            resource_id: None,
        },
        health: SourceHealth::Healthy,
        observed_at: NOW - 1_000,
    };
    let workspace = SourceRestart { claim: claim.clone(), health: SourceHealth::Healthy, observed_at: NOW - 2_000 };
    let restarts = vec![presence.clone(), workspace.clone()];
    let reactivate = |session: &FocusSession, ready: bool, restarts: &Vec<SourceRestart>| {
        complete_reactivation(OWNER, session, NOW, &vec![goal()], &vec![route()], &store, ready, restarts, 30_000)
    };
    let active = reactivate(&recovering, true, &restarts).unwrap();
    assert_eq!(active.state, FocusSessionState::Active);
    assert!(!active.source_degraded);
    assert_eq!(active.revision, 6);
    assert_eq!(active.updated_at, NOW);

    let err = reactivate(&recovering, false, &restarts).unwrap_err();
    assert_eq!(err.code, SecondMindErrorCode::Unavailable);
    assert_eq!(err.summary, "Independent native status and stop control are required for recovery.");
    let stale = SourceRestart { observed_at: NOW - 30_001, ..workspace.clone() };
    let err = reactivate(&recovering, true, &vec![presence.clone(), stale]).unwrap_err();
    assert_eq!(err.summary, "A recovering observation source is not freshly healthy.");
    let err = reactivate(&recovering, true, &vec![presence.clone()]).unwrap_err();
    assert_eq!(err.summary, "A recovering observation source is not freshly healthy.");
    let paused = SourceRestart { health: SourceHealth::Paused, ..presence.clone() };
    assert!(reactivate(&recovering, true, &vec![paused, workspace.clone()]).is_err());

    let mut last = recovering.clone();
    last.revision = u64::MAX;
    assert_eq!(reactivate(&last, true, &restarts).unwrap().revision, u64::MAX);
}

#[test]
fn session_grants_resolve_in_named_order() {
    let p = plan(&command(), &grants());
    let store = bound_store(&p);
    let resolved = resolve_session_grants(&store, SESSION, &vec![4, 1], NOW).unwrap();
    assert_eq!(resolved.iter().map(|g| g.id).collect::<Vec<_>>(), vec![4, 1]);
    assert_eq!(select_observation_grants(&resolved).len(), 1);
    let err = resolve_session_grants(&grants(), SESSION, &vec![1], NOW).unwrap_err();
    assert_eq!(err.summary, "A referenced permission is not current for this session.");
}

#[test]
fn finishing_an_end_stops_the_observation_adapters_and_records_incomplete_cleanup() {
    let p = plan(&command(), &grants());
    let store = bound_store(&p);
    let mut stopping = working(SESSION, FocusSessionState::Stopping);
    stopping.permission_grant_ids = vec![1, 3, 9, 4];
    match plan_finish_end(OWNER, &stopping, 5, &store).unwrap() {
        FinishStep::StopAdapters { grant_ids, missing } => {
            assert_eq!(grant_ids, vec![3, 4]);
            assert!(missing);
        }
        FinishStep::AlreadyEnded => panic!("a stopping session needs cleanup"),
    }
    let ended = complete_end(&stopping, true, NOW + 4);
    assert_eq!(ended.state, FocusSessionState::Ended);
    assert_eq!(ended.ended_at, Some(NOW + 4));
    assert!(ended.source_degraded);
    assert_eq!(ended.failure_reason, Some("ended_cleanup_incomplete"));
    assert_eq!(ended.revision, 6);
    let clean = complete_end(&stopping, false, NOW + 4);
    assert!(!clean.source_degraded);
    assert_eq!(clean.failure_reason, None);
    assert!(matches!(plan_finish_end(OWNER, &ended, 6, &store), Ok(FinishStep::AlreadyEnded)));
    let err = plan_finish_end(OWNER, &working(SESSION, FocusSessionState::Active), 5, &store).err().unwrap();
    assert_eq!(err.summary, "The focus session is not awaiting adapter cleanup.");
    let err = plan_finish_end(OTHER, &stopping, 5, &store).err().unwrap();
    assert_eq!(err.summary, "The focus session belongs to another actor.");
    let err = plan_finish_end(OWNER, &stopping, 4, &store).err().unwrap();
    assert_eq!(err.current_revision, Some(5));
    assert!(clear_acknowledged(SESSION, 5, Some(NativeStatusAcknowledgement {
        session_id: SESSION,
        revision: 5,
        acknowledged_at: NOW,
        heartbeat_deadline: NOW + 10_000,
    })));
    assert!(!clear_acknowledged(SESSION, 5, Some(NativeStatusAcknowledgement {
        session_id: SESSION,
        revision: 4,
        acknowledged_at: NOW,
        heartbeat_deadline: NOW + 10_000,
    })));
    assert!(!clear_acknowledged(SESSION, 5, None));
}

fn grant_request() -> GrantPermission {
    GrantPermission {
        idempotency: IdempotencyContext { key: 0x2D, request_digest: [9; 32] },
        owner: OWNER,
        goal_id: GOAL,
        device_id: DEVICE,
        scope: PermissionScope::ObserveWorkspaceActivity,
        selected_resource_id: Some(RESOURCE),
        purpose: "Notice release work".to_owned(),
        effective_at: NOW,
        expires_at: NOW + 3_600_000,
        consent_copy_version: "v1".to_owned(),
        client_disconnect_allowed: true,
        daemon_restart_allowed: false,
    }
}

#[test]
fn granting_a_permission_creates_an_unbound_grant_with_its_receipt() {
    let request = grant_request();
    let created = plan_grant_permission(PRIVATE, &request, NOW, 0x71, &vec![goal()], &vec![RESOURCE], &Vec::new(), &Vec::new())
        .unwrap();
    let (g, receipt) = match created {
        Created::New(g, receipt) => (g, receipt),
        Created::Replayed(_) => panic!("nothing was recorded yet"),
    };
    assert_eq!(g.id, 0x71);
    assert_eq!(g.focus_session_id, None);
    assert_eq!(g.revision, 1);
    assert_eq!(g.state, GrantState::Active);
    assert_eq!(g.selected_resource_id, Some(RESOURCE));
    assert!(!g.daemon_restart_allowed);
    assert_eq!(receipt.result_id, 0x71);
    assert_eq!(receipt.kind, OperationKind::GrantSessionPermission);

    let replayed = plan_grant_permission(PRIVATE, &request, NOW, 0x72, &vec![goal()], &vec![RESOURCE], &vec![receipt], &vec![g.clone()])
        .unwrap();
    assert!(matches!(replayed, Created::Replayed(ref r) if *r == g));

    let mut different = request.clone();
    different.idempotency.request_digest[0] = 1;
    let err = plan_grant_permission(PRIVATE, &different, NOW, 0x72, &vec![goal()], &vec![RESOURCE], &vec![receipt], &vec![g])
        .err()
        .unwrap();
    assert_eq!(err.code, SecondMindErrorCode::Conflict);

    let fresh = grant_permission(PRIVATE, &request, NOW, &vec![goal()], &vec![RESOURCE], &Vec::new(), &Vec::new()).unwrap();
    match fresh {
        Created::New(g, receipt) => {
            assert_eq!((g.id >> 76) & 0xF, 7);
            assert_eq!(receipt.result_id, g.id);
        }
        Created::Replayed(_) => panic!("nothing was recorded yet"),
    }
}

#[test]
fn granting_refuses_inactive_goals_unknown_resources_and_invalid_input() {
    let request = grant_request();
    let mut done = goal();
    done.state = GoalState::Abandoned;
    let err = plan_grant_permission(PRIVATE, &request, NOW, 0x71, &vec![done], &vec![RESOURCE], &Vec::new(), &Vec::new())
        .err()
        .unwrap();
    assert_eq!(err.summary, "Only an active goal can receive a focus-session permission.");
    let err = plan_grant_permission(PRIVATE, &request, NOW, 0x71, &vec![goal()], &Vec::new(), &Vec::new(), &Vec::new())
        .err()
        .unwrap();
    assert_eq!(err.summary, "The selected resource binding does not exist.");
    let mut late = request.clone();
    late.effective_at = NOW - 60_001;
    let err = plan_grant_permission(PRIVATE, &late, NOW, 0x71, &vec![goal()], &vec![RESOURCE], &Vec::new(), &Vec::new())
        .err()
        .unwrap();
    assert_eq!(err.code, SecondMindErrorCode::InvalidArgument);
    let err = plan_grant_permission(PRIVATE, &request, NOW, 0x71, &Vec::new(), &vec![RESOURCE], &Vec::new(), &Vec::new())
        .err()
        .unwrap();
    assert_eq!(err.summary, "The goal was not found.");
    let err = plan_grant_permission(
        ClientAssurance::Diagnostic,
        &request,
        NOW,
        0x71,
        &vec![goal()],
        &vec![RESOURCE],
        &Vec::new(),
        &Vec::new(),
    )
    .err()
    .unwrap();
    assert_eq!(err.code, SecondMindErrorCode::PermissionDenied);
}

#[test]
fn approving_and_revoking_a_model_route() {
    let idempotency = IdempotencyContext { key: 0x3D, request_digest: [4; 32] };
    let (approved, receipt) = match approve_model_route(PRIVATE, idempotency, route(), NOW, &Vec::new(), &Vec::new()).unwrap() {
        Created::New(a, receipt) => (a, receipt),
        Created::Replayed(_) => panic!("nothing was recorded yet"),
    };
    assert_eq!(approved, route());
    assert_eq!(receipt.result_id, ROUTE);
    let replayed = approve_model_route(PRIVATE, idempotency, route(), NOW, &vec![receipt], &vec![route()]).unwrap();
    assert!(matches!(replayed, Created::Replayed(ref a) if *a == route()));
    let mut unsafe_route = route();
    unsafe_route.core_persists_prompt_or_response = true;
    let err = approve_model_route(PRIVATE, idempotency, unsafe_route, NOW, &Vec::new(), &Vec::new()).err().unwrap();
    assert_eq!(err.summary, "The model route approval is invalid or unsafe.");

    let revoked = revoke_model_route(PRIVATE, &vec![route()], ROUTE, 1, "No longer needed", NOW).unwrap();
    assert_eq!(revoked.revoked_at, Some(NOW));
    assert_eq!(revoked.revision, 2);
    assert!(!revoked.is_current_at(NOW));
    let err = revoke_model_route(PRIVATE, &vec![route()], ROUTE, 2, "No longer needed", NOW).unwrap_err();
    assert_eq!(err.current_revision, Some(1));
    let err = revoke_model_route(PRIVATE, &vec![route()], ROUTE, 1, "   ", NOW).unwrap_err();
    assert_eq!(err.summary, "The revocation reason is invalid.");
    let err = revoke_model_route(PRIVATE, &Vec::new(), ROUTE, 1, "No longer needed", NOW).unwrap_err();
    assert_eq!(err.summary, "The model route approval was not found.");

    let mut other = working(2, FocusSessionState::Active);
    other.model_route_approval_id = 0x78;
    let sessions = vec![
        working(1, FocusSessionState::Active),
        other,
        working(3, FocusSessionState::Ended),
        working(4, FocusSessionState::Recovering),
    ];
    assert_eq!(sessions_on_route(&sessions, ROUTE), vec![0, 3]);
}

#[test]
fn a_start_retried_under_its_key_returns_the_stored_session() {
    let c = command();
    let first = request_focus_session(PRIVATE, &c, NOW, &Vec::new(), &vec![goal()], &Vec::new(), &vec![route()], &grants())
        .unwrap();
    let stored = match first {
        StartOutcome::Start(p) => p.session,
        StartOutcome::Replayed(_) => panic!("a new key must plan a new start"),
    };
    assert_eq!(stored.id, SESSION);
    assert_eq!(stored.state, FocusSessionState::Starting);
    assert_eq!(stored.selected_resource_ids, vec![RESOURCE]);

    let receipts = vec![OperationReceipt {
        owner: OWNER,
        kind: OperationKind::StartFocusSession,
        idempotency_key: c.idempotency.key,
        request_digest: c.idempotency.request_digest,
        result_id: SESSION,
    }];
    let mut retry = command();
    retry.session_id = SESSION + 1;
    let sessions = vec![stored.clone()];
    let again = request_focus_session(PRIVATE, &retry, NOW + 5, &receipts, &vec![goal()], &sessions, &vec![route()], &grants())
        .unwrap();
    match again {
        StartOutcome::Replayed(s) => assert_eq!(s, stored),
        StartOutcome::Start(_) => panic!("a used key must not start another session"),
    }

    let mut changed = command();
    changed.idempotency.request_digest[0] = 9;
    let err = request_focus_session(PRIVATE, &changed, NOW, &receipts, &vec![goal()], &sessions, &vec![route()], &grants())
        .err()
        .unwrap();
    assert_eq!(err.code, SecondMindErrorCode::Conflict);

    let err = request_focus_session(ClientAssurance::Diagnostic, &retry, NOW, &receipts, &vec![goal()], &sessions, &vec![route()], &grants())
        .err()
        .unwrap();
    assert_eq!(err.code, SecondMindErrorCode::PermissionDenied);
    let err = request_focus_session(PRIVATE, &retry, NOW, &receipts, &vec![goal()], &Vec::new(), &vec![route()], &grants())
        .err()
        .unwrap();
    assert_eq!(err.code, SecondMindErrorCode::NotFound);
}

#[test]
fn route_revocation_saves_first_ends_its_sessions_then_deletes_the_secret() {
    let mut other_route = working(7, FocusSessionState::Active);
    other_route.model_route_approval_id = ROUTE + 1;
    let sessions = vec![
        working(1, FocusSessionState::Active),
        working(2, FocusSessionState::Ended),
        other_route,
        working(4, FocusSessionState::Recovering),
    ];
    assert_eq!(
        route_revocation_actions(&sessions, ROUTE),
        vec![
            RouteRevocationAction::SaveRevokedRoute,
            RouteRevocationAction::EndSession(1),
            RouteRevocationAction::EndSession(4),
            RouteRevocationAction::DeleteSecret,
        ]
    );
    assert_eq!(
        route_revocation_actions(&Vec::new(), ROUTE),
        vec![RouteRevocationAction::SaveRevokedRoute, RouteRevocationAction::DeleteSecret]
    );
    assert_eq!(secret_deletion_outcome(true), Ok(()));
    let err = secret_deletion_outcome(false).unwrap_err();
    assert_eq!(err.code, SecondMindErrorCode::Unavailable);
    assert_eq!(err.summary, "The model route is revoked, but its native credential could not be deleted.");
}

#[test]
fn a_granted_permission_replays_through_the_fresh_identifier_path() {
    let request = grant_request();
    let (g, receipt) =
        match grant_permission(PRIVATE, &request, NOW, &vec![goal()], &vec![RESOURCE], &Vec::new(), &Vec::new()).unwrap() {
            Created::New(g, receipt) => (g, receipt),
            Created::Replayed(_) => panic!("nothing was recorded yet"),
        };
    let again = grant_permission(PRIVATE, &request, NOW + 1, &vec![goal()], &vec![RESOURCE], &vec![receipt], &vec![g.clone()])
        .unwrap();
    assert!(matches!(again, Created::Replayed(ref r) if *r == g));
    let mut different = request.clone();
    different.idempotency.request_digest[0] ^= 0xFF;
    let err = grant_permission(PRIVATE, &different, NOW, &vec![goal()], &vec![RESOURCE], &vec![receipt], &vec![g])
        .err()
        .unwrap();
    assert_eq!(err.code, SecondMindErrorCode::Conflict);
    assert_eq!(err.summary, "The idempotency key was already used for different input.");
}
