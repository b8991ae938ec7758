//! The focus-session lifecycle: what a start request must satisfy, how its
//! grants are bound, when a starting session may activate, and what a
//! restart does to a working session.

use vstd::prelude::*;
use crate::admission::{ClientAssurance, require_private};
use crate::errors::{SecondMindError, SecondMindErrorCode, fails_plain, fails_with, plain_error};
use crate::model::{DataCategory, FocusSession, FocusSessionState, Goal, GoalState, PermissionGrant, PermissionScope, SourceHealth};
use crate::runtime::{IdempotencyContext, StartFocusSession};
use crate::text::trimmed;
use crate::validation::{
    ModelRouteApproval, SourceStatusClaim, first_grant, grant_serves_session, grant_serves_start, spec_route_valid,
    validate_model_route, validate_source_status,
};

verus! {

/// The kind of a mutating command whose outcome is kept for replays.
#[derive(Clone, Copy, Debug, PartialEq, Eq, Structural)]
pub enum OperationKind {
    ApproveModelRoute,
    GrantSessionPermission,
    RegisterSelectedResource,
    StartFocusSession,
}

/// The durable record of a mutating command's outcome.
#[derive(Clone, Copy, Debug, PartialEq, Eq)]
pub struct OperationReceipt {
    pub owner: u128,
    pub kind: OperationKind,
    pub idempotency_key: u128,
    pub request_digest: [u8; 32],
    pub result_id: u128,
}

/// The result a replayed command must return: none when the key is new, the
/// recorded result when the request is the same, and a conflict when the
/// same key carried a different request.
pub open spec fn spec_replayed_result(receipt: Option<OperationReceipt>, idempotency: IdempotencyContext) -> Result<Option<u128>, SecondMindError> {
    match receipt {
        None => Ok(None),
        Some(r) => if r.request_digest@ == idempotency.request_digest@ {
            Ok(Some(r.result_id))
        } else {
            Err(
                SecondMindError {
                    code: SecondMindErrorCode::Conflict,
                    summary: "The idempotency key was already used for different input.",
                    retryable: false,
                    current_revision: None,
                },
            )
        },
    }
}

/// Decides a replay from the receipt found under the command's owner, kind
/// and idempotency key.
pub fn replayed_result(receipt: Option<OperationReceipt>, idempotency: IdempotencyContext) -> (r: Result<Option<u128>, SecondMindError>)
    ensures
        r == spec_replayed_result(receipt, idempotency),
{
    match receipt {
        None => Ok(None),
        Some(rec) => {
            let mut i: usize = 0;
            while i < 32
                invariant
                    i <= 32,
                    receipt == Some(rec),
                    rec.request_digest@.len() == 32 && idempotency.request_digest@.len() == 32,
                    forall|k: int| 0 <= k < i ==> rec.request_digest@[k] == idempotency.request_digest@[k],
                decreases 32 - i,
            {
                if rec.request_digest[i] != idempotency.request_digest[i] {
                    assert(rec.request_digest@[i as int] != idempotency.request_digest@[i as int]);
                    return Err(SecondMindError::idempotency_conflict());
                }
                i = i + 1;
            }
            assert(rec.request_digest@ =~= idempotency.request_digest@);
            Ok(Some(rec.result_id))
        },
    }
}

/// The position of the first goal of `owner` with identifier `id`.
pub open spec fn first_goal(goals: Seq<Goal>, owner: u128, id: u128) -> Option<int> {
    if exists|k: int| 0 <= k < goals.len() && goals[k].id == id && goals[k].owner == owner {
        Some(
            choose|k: int|
                0 <= k < goals.len() && goals[k].id == id && goals[k].owner == owner && forall|m: int|
                    0 <= m < k ==> !(goals[m].id == id && goals[m].owner == owner),
        )
    } else {
        None
    }
}

pub(crate) fn find_goal(goals: &Vec<Goal>, owner: u128, id: u128) -> (r: Option<usize>)
    ensures
        match r {
            Some(i) => i < goals@.len() && first_goal(goals@, owner, id) == Some(i as int),
            None => first_goal(goals@, owner, id) is None,
        },
{
    let mut i: usize = 0;
    while i < goals.len()
        invariant
            i <= goals@.len(),
            forall|m: int| 0 <= m < i ==> !(goals@[m].id == id && goals@[m].owner == owner),
        decreases goals@.len() - i,
    {
        if goals[i].id == id && goals[i].owner == owner {
            proof {
                let j = choose|j: int|
                    0 <= j < goals@.len() && goals@[j].id == id && goals@[j].owner == owner && forall|m: int|
                        0 <= m < j ==> !(goals@[m].id == id && goals@[m].owner == owner);
                if j < i {
                } else if j > i {
                    assert(goals@[i as int].id == id && goals@[i as int].owner == owner);
                }
            }
            return Some(i);
        }
        i = i + 1;
    }
    None
}

/// The position of the first route approval with identifier `id`.
pub open spec fn first_route(routes: Seq<ModelRouteApproval>, id: u128) -> Option<int> {
    if exists|k: int| 0 <= k < routes.len() && routes[k].id == id {
        Some(
            choose|k: int|
                0 <= k < routes.len() && routes[k].id == id && forall|m: int| 0 <= m < k ==> routes[m].id != id,
        )
    } else {
        None
    }
}

pub(crate) fn find_route_approval(routes: &Vec<ModelRouteApproval>, id: u128) -> (r: Option<usize>)
    ensures
        match r {
            Some(i) => i < routes@.len() && first_route(routes@, id) == Some(i as int),
            None => first_route(routes@, id) is None,
        },
{
    let mut i: usize = 0;
    while i < routes.len()
        invariant
            i <= routes@.len(),
            forall|m: int| 0 <= m < i ==> routes@[m].id != id,
        decreases routes@.len() - i,
    {
        if routes[i].id == id {
            proof {
                let j = choose|j: int| 0 <= j < routes@.len() && routes@[j].id == id && forall|m: int| 0 <= m < j ==> routes@[m].id != id;
                if j < i {
                } else if j > i {
                    assert(routes@[i as int].id == id);
                }
            }
            return Some(i);
        }
        i = i + 1;
    }
    None
}

/// Whether the first grant with identifier `id` may serve the start of
/// `session_id` for `goal_id` at `now`.
pub open spec fn start_resolvable(all: Seq<PermissionGrant>, id: u128, goal_id: u128, session_id: u128, now: i64) -> bool {
    first_grant(all, id) matches Some(k) && grant_serves_start(all[k], goal_id, session_id, now)
}

/// The grants a start request names, in the order it names them.
pub open spec fn resolved_grants(all: Seq<PermissionGrant>, ids: Seq<u128>) -> Seq<PermissionGrant> {
    ids.map_values(|id: u128| all[first_grant(all, id)->0])
}

fn first_grant_position(all: &Vec<PermissionGrant>, id: u128) -> (r: Option<usize>)
    ensures
        match r {
            Some(i) => i < all@.len() && first_grant(all@, id) == Some(i as int),
            None => first_grant(all@, id) is None,
        },
{
    match crate::validation::find_grant(all, id) {
        Ok(i) => {
            proof {
                crate::sessions::lemma_first_grant_is(all@, id, i as int);
            }
            Some(i)
        },
        Err(_) => {
            assert(!exists|k: int| 0 <= k < all@.len() && all@[k].id == id);
            None
        },
    }
}

/// Why the first named grant that cannot serve the start cannot, if one
/// cannot: it is missing, or it is not current for this goal and session.
#[verifier::opaque]
pub open spec fn start_refusal(all: Seq<PermissionGrant>, ids: Seq<u128>, goal_id: u128, session_id: u128, now: i64) -> Option<
    &'static str,
>
    decreases ids.len(),
{
    if ids.len() == 0 {
        None
    } else {
        match start_refusal(all, ids.drop_last(), goal_id, session_id, now) {
            Some(m) => Some(m),
            None => if first_grant(all, ids.last()) is None {
                Some("A referenced permission is missing.")
            } else if !start_resolvable(all, ids.last(), goal_id, session_id, now) {
                Some("A referenced permission is not current for this goal and session.")
            } else {
                None
            },
        }
    }
}

proof fn lemma_start_refusal_prefix(all: Seq<PermissionGrant>, ids: Seq<u128>, goal_id: u128, session_id: u128, now: i64, n: int)
    requires
        0 <= n <= ids.len(),
        start_refusal(all, ids.subrange(0, n), goal_id, session_id, now) is Some,
    ensures
        start_refusal(all, ids, goal_id, session_id, now) == start_refusal(all, ids.subrange(0, n), goal_id, session_id, now),
    decreases ids.len() - n,
{
    reveal(start_refusal);
    if n < ids.len() {
        assert(ids.subrange(0, n + 1).drop_last() == ids.subrange(0, n));
        lemma_start_refusal_prefix(all, ids, goal_id, session_id, now, n + 1);
    } else {
        assert(ids.subrange(0, n) == ids);
    }
}

proof fn lemma_start_refusal_step(all: Seq<PermissionGrant>, ids: Seq<u128>, goal_id: u128, session_id: u128, now: i64, j: int)
    requires
        0 <= j < ids.len(),
        start_refusal(all, ids.subrange(0, j), goal_id, session_id, now) is None,
    ensures
        start_refusal(all, ids.subrange(0, j + 1), goal_id, session_id, now) == if first_grant(all, ids[j]) is None {
            Some("A referenced permission is missing.")
        } else if !start_resolvable(all, ids[j], goal_id, session_id, now) {
            Some("A referenced permission is not current for this goal and session.")
        } else {
            None::<&'static str>
        },
{
    reveal(start_refusal);
    assert(ids.subrange(0, j + 1).drop_last() == ids.subrange(0, j));
    assert(ids.subrange(0, j + 1).last() == ids[j]);
}

/// Resolves the grants a start request names: each must exist, belong to the
/// goal, not be bound to another session, and be current. Returns the
/// resolved grants in the order of `ids`.
#[verifier::spinoff_prover]
#[verifier::rlimit(60)]
pub fn resolve_grants_for_start(
    all: &Vec<PermissionGrant>,
    goal_id: u128,
    session_id: u128,
    ids: &Vec<u128>,
    now: i64,
) -> (r: Result<Vec<PermissionGrant>, SecondMindError>)
    ensures
        r is Ok <==> forall|j: int| 0 <= j < ids@.len() ==> #[trigger] start_resolvable(all@, ids@[j], goal_id, session_id, now),
        r matches Ok(v) ==> v@ == resolved_grants(all@, ids@),
        match start_refusal(all@, ids@, goal_id, session_id, now) {
            None => r is Ok,
            Some(m) => fails_plain(r, SecondMindErrorCode::PermissionDenied, m, false),
        },
{
    let mut out: Vec<PermissionGrant> = Vec::new();
    let mut j: usize = 0;
    assert(start_refusal(all@, ids@.subrange(0, 0), goal_id, session_id, now) is None) by {
        reveal(start_refusal);
    }
    while j < ids.len()
        invariant
            j <= ids@.len(),
            out@ == resolved_grants(all@, ids@.subrange(0, j as int)),
            forall|q: int| 0 <= q < j ==> #[trigger] start_resolvable(all@, ids@[q], goal_id, session_id, now),
            start_refusal(all@, ids@.subrange(0, j as int), goal_id, session_id, now) is None,
        decreases ids@.len() - j,
    {
        let id = ids[j];
        proof {
            lemma_start_refusal_step(all@, ids@, goal_id, session_id, now, j as int);
        }
        let k = match first_grant_position(all, id) {
            Some(k) => k,
            None => {
                assert(!start_resolvable(all@, ids@[j as int], goal_id, session_id, now));
                proof {
                    lemma_start_refusal_prefix(all@, ids@, goal_id, session_id, now, (j + 1) as int);
                }
                return Err(SecondMindError::permission("A referenced permission is missing."));
            },
        };
        let g = &all[k];
        let bound_elsewhere = match g.focus_session_id {
            Some(b) => b != session_id,
            None => false,
        };
        if g.goal_id != goal_id || bound_elsewhere || !g.is_current_at(now) {
            assert(!start_resolvable(all@, ids@[j as int], goal_id, session_id, now));
            proof {
                lemma_start_refusal_prefix(all@, ids@, goal_id, session_id, now, (j + 1) as int);
            }
            return Err(SecondMindError::permission("A referenced permission is not current for this goal and session."));
        }
        out.push(crate::sessions::copy_grant(g));
        assert(ids@.subrange(0, (j + 1) as int) == ids@.subrange(0, j as int).push(id));
        assert(resolved_grants(all@, ids@.subrange(0, (j + 1) as int)) == resolved_grants(all@, ids@.subrange(0, j as int)).push(
            all@[k as int],
        ));
        j = j + 1;
    }
    assert(ids@.subrange(0, j as int) == ids@);
    Ok(out)
}

/// Whether a session blocks a new start: it has the requested identifier or
/// is still working.
pub open spec fn blocks_start(sessions: Seq<FocusSession>, session_id: u128) -> bool {
    exists|k: int|
        0 <= k < sessions.len() && ((#[trigger] sessions[k]).id == session_id || sessions[k].state.spec_is_working())
}

fn start_is_blocked(sessions: &Vec<FocusSession>, session_id: u128) -> (r: bool)
    ensures
        r == blocks_start(sessions@, session_id),
{
    let mut i: usize = 0;
    while i < sessions.len()
        invariant
            i <= sessions@.len(),
            forall|k: int|
                0 <= k < i ==> !((#[trigger] sessions@[k]).id == session_id || sessions@[k].state.spec_is_working()),
        decreases sessions@.len() - i,
    {
        if sessions[i].id == session_id || sessions[i].state.is_working() {
            assert(sessions@[i as int].id == session_id || sessions@[i as int].state.spec_is_working());
            return true;
        }
        i = i + 1;
    }
    false
}

/// Whether one of the grants is bound to resource `x`.
pub open spec fn binds_resource(grants: Seq<PermissionGrant>, x: u128) -> bool {
    exists|j: int| 0 <= j < grants.len() && (#[trigger] grants[j]).selected_resource_id == Some(x)
}

/// The resources the grants are bound to are exactly the requested ones.
pub open spec fn resources_match(grants: Seq<PermissionGrant>, wanted: Seq<u128>) -> bool {
    &&& forall|j: int|
        0 <= j < grants.len() ==> ((#[trigger] grants[j]).selected_resource_id matches Some(r) ==> wanted.contains(r))
    &&& forall|i: int| 0 <= i < wanted.len() ==> binds_resource(grants, #[trigger] wanted[i])
}

pub(crate) fn contains_id(ids: &Vec<u128>, x: u128) -> (r: bool)
    ensures
        r == ids@.contains(x),
{
    let mut i: usize = 0;
    while i < ids.len()
        invariant
            i <= ids@.len(),
            forall|k: int| 0 <= k < i ==> ids@[k] != x,
        decreases ids@.len() - i,
    {
        if ids[i] == x {
            assert(ids@[i as int] == x);
            return true;
        }
        i = i + 1;
    }
    false
}

fn grants_bind_resource(grants: &Vec<PermissionGrant>, x: u128) -> (r: bool)
    ensures
        r == binds_resource(grants@, x),
{
    let mut j: usize = 0;
    while j < grants.len()
        invariant
            j <= grants@.len(),
            forall|k: int| 0 <= k < j ==> (#[trigger] grants@[k]).selected_resource_id != Some(x),
        decreases grants@.len() - j,
    {
        if grants[j].selected_resource_id == Some(x) {
            assert(grants@[j as int].selected_resource_id == Some(x));
            return true;
        }
        j = j + 1;
    }
    false
}

fn resources_are_exact(grants: &Vec<PermissionGrant>, wanted: &Vec<u128>) -> (r: bool)
    ensures
        r == resources_match(grants@, wanted@),
{
    let mut j: usize = 0;
    while j < grants.len()
        invariant
            j <= grants@.len(),
            forall|k: int|
                0 <= k < j ==> ((#[trigger] grants@[k]).selected_resource_id matches Some(r) ==> wanted@.contains(r)),
        decreases grants@.len() - j,
    {
        match grants[j].selected_resource_id {
            Some(r) => {
                if !contains_id(wanted, r) {
                    return false;
                }
            },
            None => {},
        }
        j = j + 1;
    }
    let mut i: usize = 0;
    while i < wanted.len()
        invariant
            i <= wanted@.len(),
            forall|k: int|
                0 <= k < grants@.len() ==> ((#[trigger] grants@[k]).selected_resource_id matches Some(r) ==> wanted@.contains(r)),
            forall|q: int| 0 <= q < i ==> binds_resource(grants@, #[trigger] wanted@[q]),
        decreases wanted@.len() - i,
    {
        if !grants_bind_resource(grants, wanted[i]) {
            return false;
        }
        i = i + 1;
    }
    true
}

/// Whether a grant of `scope` is among the grants.
pub open spec fn has_scope(grants: Seq<PermissionGrant>, scope: PermissionScope) -> bool {
    exists|j: int| 0 <= j < grants.len() && (#[trigger] grants[j]).scope == scope
}

fn includes_scope(grants: &Vec<PermissionGrant>, scope: PermissionScope) -> (r: bool)
    ensures
        r == has_scope(grants@, scope),
{
    let mut j: usize = 0;
    while j < grants.len()
        invariant
            j <= grants@.len(),
            forall|k: int| 0 <= k < j ==> (#[trigger] grants@[k]).scope != scope,
        decreases grants@.len() - j,
    {
        if grants[j].scope == scope {
            assert(grants@[j as int].scope == scope);
            return true;
        }
        j = j + 1;
    }
    false
}

/// Whether the route may see goals and a reasoning grant is unbound or bound
/// to this route.
pub open spec fn route_authorizes_goal(grants: Seq<PermissionGrant>, route: ModelRouteApproval) -> bool {
    route.allowed_categories@.contains(DataCategory::Goal) && exists|j: int|
        0 <= j < grants.len() && (#[trigger] grants[j]).scope == PermissionScope::ReasonFocusContext && (
        grants[j].model_route_approval_id is None || grants[j].model_route_approval_id == Some(route.id))
}

fn route_covers_goal(grants: &Vec<PermissionGrant>, route: &ModelRouteApproval) -> (r: bool)
    ensures
        r == route_authorizes_goal(grants@, *route),
{
    let mut c: usize = 0;
    let mut goal_allowed = false;
    while c < route.allowed_categories.len()
        invariant
            c <= route.allowed_categories@.len(),
            goal_allowed == exists|k: int| 0 <= k < c && route.allowed_categories@[k] == DataCategory::Goal,
        decreases route.allowed_categories@.len() - c,
    {
        if route.allowed_categories[c] == DataCategory::Goal {
            goal_allowed = true;
        }
        c = c + 1;
    }
    if !goal_allowed {
        return false;
    }
    let mut j: usize = 0;
    while j < grants.len()
        invariant
            j <= grants@.len(),
            route.allowed_categories@.contains(DataCategory::Goal),
            forall|k: int|
                0 <= k < j ==> !((#[trigger] grants@[k]).scope == PermissionScope::ReasonFocusContext && (
                grants@[k].model_route_approval_id is None || grants@[k].model_route_approval_id == Some(route.id))),
        decreases grants@.len() - j,
    {
        let g = &grants[j];
        let bound_ok = match g.model_route_approval_id {
            None => true,
            Some(id) => id == route.id,
        };
        if g.scope == PermissionScope::ReasonFocusContext && bound_ok {
            assert(grants@[j as int].scope == PermissionScope::ReasonFocusContext);
            return true;
        }
        j = j + 1;
    }
    false
}

/// Whether an observation grant is among the grants.
pub open spec fn has_observation(grants: Seq<PermissionGrant>) -> bool {
    exists|j: int| 0 <= j < grants.len() && (#[trigger] grants[j]).scope.spec_is_observation()
}

fn includes_observation(grants: &Vec<PermissionGrant>) -> (r: bool)
    ensures
        r == has_observation(grants@),
{
    let mut j: usize = 0;
    while j < grants.len()
        invariant
            j <= grants@.len(),
            forall|k: int| 0 <= k < j ==> !(#[trigger] grants@[k]).scope.spec_is_observation(),
        decreases grants@.len() - j,
    {
        if grants[j].scope.is_observation() {
            return true;
        }
        j = j + 1;
    }
    false
}

/// Restart continuity may not exceed the grants: a session that survives a
/// daemon restart must also survive a client disconnect, and every grant
/// must allow the restart.
pub open spec fn continuity_within_grants(c: StartFocusSession, grants: Seq<PermissionGrant>) -> bool {
    c.daemon_restart_allowed ==> c.client_disconnect_allowed && forall|j: int|
        0 <= j < grants.len() ==> (#[trigger] grants[j]).daemon_restart_allowed
}

fn continuity_is_within_grants(c: &StartFocusSession, grants: &Vec<PermissionGrant>) -> (r: bool)
    ensures
        r == continuity_within_grants(*c, grants@),
{
    if !c.daemon_restart_allowed {
        return true;
    }
    if !c.client_disconnect_allowed {
        return false;
    }
    let mut j: usize = 0;
    while j < grants.len()
        invariant
            j <= grants@.len(),
            c.daemon_restart_allowed && c.client_disconnect_allowed,
            forall|k: int| 0 <= k < j ==> (#[trigger] grants@[k]).daemon_restart_allowed,
        decreases grants@.len() - j,
    {
        if !grants[j].daemon_restart_allowed {
            return false;
        }
        j = j + 1;
    }
    true
}

/// A grant bound to the new session: bound to it, a reasoning grant bound to
/// the route too, under the next revision.
pub open spec fn bound_grant(g: PermissionGrant, session_id: u128, route_id: u128) -> PermissionGrant {
    PermissionGrant {
        focus_session_id: Some(session_id),
        model_route_approval_id: if g.scope == PermissionScope::ReasonFocusContext {
            Some(route_id)
        } else {
            g.model_route_approval_id
        },
        revision: if g.revision == u64::MAX {
            u64::MAX
        } else {
            (g.revision + 1) as u64
        },
        ..g
    }
}

/// The starting session a valid request creates at `now`.
pub open spec fn starting_session(c: StartFocusSession, s: FocusSession, now: i64) -> bool {
    &&& s.id == c.session_id && s.owner == c.owner && s.goal_id == c.goal_id
    &&& s.goal_revision == c.expected_goal_revision && s.state == FocusSessionState::Starting
    &&& !s.muted && !s.source_degraded
    &&& s.client_disconnect_allowed == c.client_disconnect_allowed && s.daemon_restart_allowed == c.daemon_restart_allowed
    &&& s.revision == 1 && s.model_route_approval_id == c.model_route_approval_id
    &&& s.permission_grant_ids@ == c.grant_ids@ && s.selected_resource_ids@ == c.selected_resource_ids@
    &&& s.requested_at == now && s.started_at is None && s.ended_at is None && s.updated_at == now
    &&& s.failure_reason is None
}

/// Why the resolved grants of a start request cannot serve it, if they
/// cannot: the first unmet requirement, in the order they are checked.
pub open spec fn start_grant_failure(c: StartFocusSession, route: ModelRouteApproval, rs: Seq<PermissionGrant>) -> Option<&'static str> {
    if !resources_match(rs, c.selected_resource_ids@) {
        Some("The selected resources do not exactly match the permission grants.")
    } else if !has_scope(rs, PermissionScope::ReasonFocusContext) || !has_scope(rs, PermissionScope::InterveneDesktopNotification) {
        Some("Reasoning and notification grants are required.")
    } else if !has_scope(rs, PermissionScope::ObserveDesktopPresence) {
        Some("A presence grant is required for safe proactive delivery.")
    } else if !route_authorizes_goal(rs, route) {
        Some("The reasoning grant and route do not authorize the goal packet.")
    } else if !has_observation(rs) {
        Some("At least one observation grant is required.")
    } else if !continuity_within_grants(c, rs) {
        Some("Session continuity cannot exceed its grants.")
    } else {
        None
    }
}

/// Checks the resolved grants of a start request against the request and
/// its route.
pub fn check_start_grants(c: &StartFocusSession, route: &ModelRouteApproval, rs: &Vec<PermissionGrant>) -> (r: Result<(), SecondMindError>)
    ensures
        match start_grant_failure(*c, *route, rs@) {
            None => r is Ok,
            Some(msg) => fails_plain(r, SecondMindErrorCode::PermissionDenied, msg, false),
        },
{
    if !resources_are_exact(rs, &c.selected_resource_ids) {
        return Err(SecondMindError::permission("The selected resources do not exactly match the permission grants."));
    }
    if !includes_scope(rs, PermissionScope::ReasonFocusContext) || !includes_scope(rs, PermissionScope::InterveneDesktopNotification) {
        return Err(SecondMindError::permission("Reasoning and notification grants are required."));
    }
    if !includes_scope(rs, PermissionScope::ObserveDesktopPresence) {
        return Err(SecondMindError::permission("A presence grant is required for safe proactive delivery."));
    }
    if !route_covers_goal(rs, route) {
        return Err(SecondMindError::permission("The reasoning grant and route do not authorize the goal packet."));
    }
    if !includes_observation(rs) {
        return Err(SecondMindError::permission("At least one observation grant is required."));
    }
    if !continuity_is_within_grants(c, rs) {
        return Err(SecondMindError::permission("Session continuity cannot exceed its grants."));
    }
    Ok(())
}

/// Whether each planned grant is the resolved grant bound to the session,
/// paired with the revision it replaces.
pub open spec fn binds_all(plan: Seq<(PermissionGrant, u64)>, rs: Seq<PermissionGrant>, session_id: u128, route_id: u128) -> bool {
    plan.len() == rs.len() && forall|j: int|
        0 <= j < rs.len() ==> (#[trigger] plan[j]).0 == bound_grant(rs[j], session_id, route_id) && plan[j].1 == rs[j].revision
}

/// Binds each resolved grant to the new session.
pub fn bind_start_grants(rs: &Vec<PermissionGrant>, session_id: u128, route_id: u128) -> (bound: Vec<(PermissionGrant, u64)>)
    ensures
        binds_all(bound@, rs@, session_id, route_id),
{
    let mut bound: Vec<(PermissionGrant, u64)> = Vec::new();
    let mut j: usize = 0;
    while j < rs.len()
        invariant
            j <= rs@.len(),
            bound@.len() == j,
            forall|q: int|
                0 <= q < j ==> (#[trigger] bound@[q]).0 == bound_grant(rs@[q], session_id, route_id) && bound@[q].1
                    == rs@[q].revision,
        decreases rs@.len() - j,
    {
        let g = &rs[j];
        let expected = g.revision;
        let mut b = crate::sessions::copy_grant(g);
        b.focus_session_id = Some(session_id);
        if g.scope == PermissionScope::ReasonFocusContext {
            b.model_route_approval_id = Some(route_id);
        }
        b.revision = g.revision.saturating_add(1);
        bound.push((b, expected));
        j = j + 1;
    }
    bound
}

fn new_starting_session(c: &StartFocusSession, now: i64) -> (s: FocusSession)
    ensures
        starting_session(*c, s, now),
{
    FocusSession {
        id: c.session_id,
        owner: c.owner,
        goal_id: c.goal_id,
        goal_revision: c.expected_goal_revision,
        state: FocusSessionState::Starting,
        muted: false,
        source_degraded: false,
        client_disconnect_allowed: c.client_disconnect_allowed,
        daemon_restart_allowed: c.daemon_restart_allowed,
        revision: 1,
        model_route_approval_id: c.model_route_approval_id,
        permission_grant_ids: crate::sessions::copy_ids(&c.grant_ids),
        selected_resource_ids: crate::sessions::copy_ids(&c.selected_resource_ids),
        requested_at: now,
        started_at: None,
        ended_at: None,
        updated_at: now,
        failure_reason: None,
    }
}

/// A plan to create a starting focus session: the session and each bound
/// grant with the revision it replaces.
pub struct StartPlan {
    pub session: FocusSession,
    pub bound_grants: Vec<(PermissionGrant, u64)>,
}

/// Whether every grant a start request names serves it.
pub open spec fn all_start_resolvable(all: Seq<PermissionGrant>, c: StartFocusSession, now: i64) -> bool {
    forall|j: int| 0 <= j < c.grant_ids@.len() ==> #[trigger] start_resolvable(all, c.grant_ids@[j], c.goal_id, c.session_id, now)
}

/// Plans a focus-session start for the owner from the owner's goals,
/// sessions, route approvals and grants: the goal must be active at the
/// expected revision, no session may share the identifier or still be
/// working, the route must be valid, every named grant must serve the start,
/// and the resolved grants must pass `check_start_grants`.
#[verifier::spinoff_prover]
#[verifier::rlimit(60)]
pub fn plan_focus_session_start(
    assurance: ClientAssurance,
    command: &StartFocusSession,
    now: i64,
    goals: &Vec<Goal>,
    sessions: &Vec<FocusSession>,
    routes: &Vec<ModelRouteApproval>,
    grants: &Vec<PermissionGrant>,
) -> (r: Result<StartPlan, SecondMindError>)
    ensures
        r is Ok <==> assurance.spec_permits_private() && start_accepted(*command, now, goals@, sessions@, routes@, grants@),
        !assurance.spec_permits_private() ==> fails_with(r, SecondMindErrorCode::PermissionDenied),
        assurance.spec_permits_private() ==> match first_goal(goals@, command.owner, command.goal_id) {
            None => fails_plain(r, SecondMindErrorCode::NotFound, "The goal was not found.", false),
            Some(i) => {
                let goal = goals@[i];
                let rs = resolved_grants(grants@, command.grant_ids@);
                let ri = first_route(routes@, command.model_route_approval_id);
                if goal.state != GoalState::Active {
                    fails_plain(r, SecondMindErrorCode::InvalidArgument, "Only an active goal can be focused.", false)
                } else if goal.revision != command.expected_goal_revision {
                    r == Err::<StartPlan, SecondMindError>(SecondMindError::spec_conflict(goal.revision))
                } else if blocks_start(sessions@, command.session_id) {
                    fails_plain(
                        r,
                        SecondMindErrorCode::InvalidArgument,
                        "A focus session with this identity or owner is already active.",
                        false,
                    )
                } else if ri is None {
                    fails_plain(r, SecondMindErrorCode::NotFound, "The model route approval was not found.", false)
                } else if !spec_route_valid(routes@[ri->0], now) {
                    fails_plain(r, SecondMindErrorCode::InvalidArgument, "The model route approval is invalid or unsafe.", false)
                } else if start_refusal(grants@, command.grant_ids@, command.goal_id, command.session_id, now) is Some {
                    fails_plain(
                        r,
                        SecondMindErrorCode::PermissionDenied,
                        start_refusal(grants@, command.grant_ids@, command.goal_id, command.session_id, now)->0,
                        false,
                    )
                } else {
                    match start_grant_failure(*command, routes@[ri->0], rs) {
                        Some(msg) => fails_plain(r, SecondMindErrorCode::PermissionDenied, msg, false),
                        None => r matches Ok(plan) && starting_session(*command, plan.session, now) && binds_all(
                            plan.bound_grants@,
                            rs,
                            command.session_id,
                            command.model_route_approval_id,
                        ),
                    }
                }
            },
        },
{
    proof {
        reveal(start_accepted);
    }
    require_private(assurance)?;
    let gi = match find_goal(goals, command.owner, command.goal_id) {
        Some(i) => i,
        None => return Err(SecondMindError::not_found("The goal was not found.")),
    };
    let goal = &goals[gi];
    match goal.state {
        GoalState::Active => {},
        _ => return Err(SecondMindError::invalid("Only an active goal can be focused.")),
    }
    if goal.revision != command.expected_goal_revision {
        return Err(SecondMindError::conflict(goal.revision));
    }
    if start_is_blocked(sessions, command.session_id) {
        return Err(SecondMindError::invalid("A focus session with this identity or owner is already active."));
    }
    let ri = match find_route_approval(routes, command.model_route_approval_id) {
        Some(i) => i,
        None => return Err(SecondMindError::not_found("The model route approval was not found.")),
    };
    let route = &routes[ri];
    validate_model_route(route, now)?;
    let rs = resolve_grants_for_start(grants, command.goal_id, command.session_id, &command.grant_ids, now)?;
    check_start_grants(command, route, &rs)?;
    let session = new_starting_session(command, now);
    let bound = bind_start_grants(&rs, command.session_id, command.model_route_approval_id);
    Ok(StartPlan { session, bound_grants: bound })
}

/// The error a new start is refused with, if it is refused; the private
/// assurance is checked before it.
pub open spec fn start_failure(
    c: StartFocusSession,
    now: i64,
    goals: Seq<Goal>,
    sessions: Seq<FocusSession>,
    routes: Seq<ModelRouteApproval>,
    grants: Seq<PermissionGrant>,
) -> Option<SecondMindError> {
    match first_goal(goals, c.owner, c.goal_id) {
        None => Some(refusal(SecondMindErrorCode::NotFound, "The goal was not found.")),
        Some(i) => {
            let goal = goals[i];
            let rs = resolved_grants(grants, c.grant_ids@);
            let ri = first_route(routes, c.model_route_approval_id);
            if goal.state != GoalState::Active {
                Some(refusal(SecondMindErrorCode::InvalidArgument, "Only an active goal can be focused."))
            } else if goal.revision != c.expected_goal_revision {
                Some(SecondMindError::spec_conflict(goal.revision))
            } else if blocks_start(sessions, c.session_id) {
                Some(refusal(SecondMindErrorCode::InvalidArgument, "A focus session with this identity or owner is already active."))
            } else if ri is None {
                Some(refusal(SecondMindErrorCode::NotFound, "The model route approval was not found."))
            } else if !spec_route_valid(routes[ri->0], now) {
                Some(refusal(SecondMindErrorCode::InvalidArgument, "The model route approval is invalid or unsafe."))
            } else if start_refusal(grants, c.grant_ids@, c.goal_id, c.session_id, now) is Some {
                Some(refusal(SecondMindErrorCode::PermissionDenied, start_refusal(grants, c.grant_ids@, c.goal_id, c.session_id, now)->0))
            } else {
                match start_grant_failure(c, routes[ri->0], rs) {
                    Some(msg) => Some(refusal(SecondMindErrorCode::PermissionDenied, msg)),
                    None => None,
                }
            }
        },
    }
}

/// A refusal that is never retryable and names no revision.
pub open spec fn refusal(code: SecondMindErrorCode, summary: &'static str) -> SecondMindError {
    SecondMindError { code, summary, retryable: false, current_revision: None }
}

/// Whether the first focus session with identifier `id` is at position `k`
/// and belongs to `owner`.
pub open spec fn first_owned_session_at(sessions: Seq<FocusSession>, owner: u128, id: u128, k: int) -> bool {
    0 <= k < sessions.len() && sessions[k].id == id && (forall|m: int| 0 <= m < k ==> sessions[m].id != id)
        && sessions[k].owner == owner
}

/// What a start request yields.
pub enum StartOutcome {
    /// An earlier request under the same idempotency key created this
    /// session; it is returned as stored.
    Replayed(FocusSession),
    /// A new start.
    Start(StartPlan),
}

/// Handles a focus-session start request. After the private assurance, the
/// idempotency key is looked up among the owner's stored receipts: the same
/// request under a used key returns the session it created, unchanged and
/// whatever session identifier the retry names; a different request under
/// it is a conflict; a new key plans a new start.
#[verifier::spinoff_prover]
#[verifier::rlimit(60)]
pub fn request_focus_session(
    assurance: ClientAssurance,
    command: &StartFocusSession,
    now: i64,
    receipts: &Vec<OperationReceipt>,
    goals: &Vec<Goal>,
    sessions: &Vec<FocusSession>,
    routes: &Vec<ModelRouteApproval>,
    grants: &Vec<PermissionGrant>,
) -> (r: Result<StartOutcome, SecondMindError>)
    ensures
        !assurance.spec_permits_private() ==> fails_with(r, SecondMindErrorCode::PermissionDenied),
        assurance.spec_permits_private() ==> match crate::permissions::replay_of(
            receipts@,
            command.owner,
            OperationKind::StartFocusSession,
            command.idempotency,
        ) {
            Err(e) => r == Err::<StartOutcome, SecondMindError>(e),
            Ok(Some(id)) => match r {
                Ok(StartOutcome::Replayed(s)) => exists|k: int|
                    first_owned_session_at(sessions@, command.owner, id, k) && crate::sessions::same_session(s, sessions@[k]),
                Ok(StartOutcome::Start(_)) => false,
                Err(_) => fails_plain(r, SecondMindErrorCode::NotFound, "The focus session was not found.", false)
                    && !exists|k: int| first_owned_session_at(sessions@, command.owner, id, k),
            },
            Ok(None) => match start_failure(*command, now, goals@, sessions@, routes@, grants@) {
                Some(e) => r == Err::<StartOutcome, SecondMindError>(e),
                None => r matches Ok(StartOutcome::Start(plan)) && starting_session(*command, plan.session, now)
                    && binds_all(
                    plan.bound_grants@,
                    resolved_grants(grants@, command.grant_ids@),
                    command.session_id,
                    command.model_route_approval_id,
                ),
            },
        },
{
    require_private(assurance)?;
    let replay = crate::permissions::replay_for(
        receipts,
        command.owner,
        OperationKind::StartFocusSession,
        command.idempotency,
    )?;
    match replay {
        Some(id) => {
            let k = crate::validation::find_owned_session(sessions, command.owner, id)?;
            let s = crate::sessions::copy_session(&sessions[k]);
            assert(first_owned_session_at(sessions@, command.owner, id, k as int));
            Ok(StartOutcome::Replayed(s))
        },
        None => {
            let plan = plan_focus_session_start(assurance, command, now, goals, sessions, routes, grants)?;
            Ok(StartOutcome::Start(plan))
        },
    }
}

/// Whether the first grant with identifier `id` exists and serves the
/// running session `session_id` at `now`.
pub open spec fn session_resolvable(all: Seq<PermissionGrant>, id: u128, session_id: u128, now: i64) -> bool {
    first_grant(all, id) matches Some(k) && grant_serves_session(all[k], session_id, now)
}

/// Why the first named grant that cannot serve the running session cannot,
/// if one cannot: it is missing, or it is not current for this session.
#[verifier::opaque]
pub open spec fn session_refusal(all: Seq<PermissionGrant>, ids: Seq<u128>, session_id: u128, now: i64) -> Option<&'static str>
    decreases ids.len(),
{
    if ids.len() == 0 {
        None
    } else {
        match session_refusal(all, ids.drop_last(), session_id, now) {
            Some(m) => Some(m),
            None => if first_grant(all, ids.last()) is None {
                Some("A referenced permission is missing.")
            } else if !session_resolvable(all, ids.last(), session_id, now) {
                Some("A referenced permission is not current for this session.")
            } else {
                None
            },
        }
    }
}

proof fn lemma_session_refusal_prefix(all: Seq<PermissionGrant>, ids: Seq<u128>, session_id: u128, now: i64, n: int)
    requires
        0 <= n <= ids.len(),
        session_refusal(all, ids.subrange(0, n), session_id, now) is Some,
    ensures
        session_refusal(all, ids, session_id, now) == session_refusal(all, ids.subrange(0, n), session_id, now),
    decreases ids.len() - n,
{
    reveal(session_refusal);
    if n < ids.len() {
        assert(ids.subrange(0, n + 1).drop_last() == ids.subrange(0, n));
        lemma_session_refusal_prefix(all, ids, session_id, now, n + 1);
    } else {
        assert(ids.subrange(0, n) == ids);
    }
}

proof fn lemma_session_refusal_step(all: Seq<PermissionGrant>, ids: Seq<u128>, session_id: u128, now: i64, j: int)
    requires
        0 <= j < ids.len(),
        session_refusal(all, ids.subrange(0, j), session_id, now) is None,
    ensures
        session_refusal(all, ids.subrange(0, j + 1), session_id, now) == if first_grant(all, ids[j]) is None {
            Some("A referenced permission is missing.")
        } else if !session_resolvable(all, ids[j], session_id, now) {
            Some("A referenced permission is not current for this session.")
        } else {
            None::<&'static str>
        },
{
    reveal(session_refusal);
    assert(ids.subrange(0, j + 1).drop_last() == ids.subrange(0, j));
    assert(ids.subrange(0, j + 1).last() == ids[j]);
}

/// Resolves the grants a running session names: each must exist, be bound
/// to the session and be current. Returns them in the order of `ids`.
#[verifier::spinoff_prover]
#[verifier::rlimit(60)]
pub fn resolve_session_grants(
    all: &Vec<PermissionGrant>,
    session_id: u128,
    ids: &Vec<u128>,
    now: i64,
) -> (r: Result<Vec<PermissionGrant>, SecondMindError>)
    ensures
        r is Ok <==> forall|j: int| 0 <= j < ids@.len() ==> #[trigger] session_resolvable(all@, ids@[j], session_id, now),
        r matches Ok(v) ==> v@ == resolved_grants(all@, ids@),
        match session_refusal(all@, ids@, session_id, now) {
            None => r is Ok,
            Some(m) => fails_plain(r, SecondMindErrorCode::PermissionDenied, m, false),
        },
{
    let mut out: Vec<PermissionGrant> = Vec::new();
    let mut j: usize = 0;
    assert(session_refusal(all@, ids@.subrange(0, 0), session_id, now) is None) by {
        reveal(session_refusal);
    }
    while j < ids.len()
        invariant
            j <= ids@.len(),
            out@ == resolved_grants(all@, ids@.subrange(0, j as int)),
            forall|q: int| 0 <= q < j ==> #[trigger] session_resolvable(all@, ids@[q], session_id, now),
            session_refusal(all@, ids@.subrange(0, j as int), session_id, now) is None,
        decreases ids@.len() - j,
    {
        let id = ids[j];
        proof {
            lemma_session_refusal_step(all@, ids@, session_id, now, j as int);
        }
        let k = match first_grant_position(all, id) {
            Some(k) => k,
            None => {
                assert(!session_resolvable(all@, ids@[j as int], session_id, now));
                proof {
                    lemma_session_refusal_prefix(all@, ids@, session_id, now, (j + 1) as int);
                }
                return Err(SecondMindError::permission("A referenced permission is missing."));
            },
        };
        let g = &all[k];
        if g.focus_session_id != Some(session_id) || !g.is_current_at(now) {
            assert(!session_resolvable(all@, ids@[j as int], session_id, now));
            proof {
                lemma_session_refusal_prefix(all@, ids@, session_id, now, (j + 1) as int);
            }
            return Err(SecondMindError::permission("A referenced permission is not current for this session."));
        }
        out.push(crate::sessions::copy_grant(g));
        assert(ids@.subrange(0, (j + 1) as int) == ids@.subrange(0, j as int).push(id));
        assert(resolved_grants(all@, ids@.subrange(0, (j + 1) as int)) == resolved_grants(all@, ids@.subrange(0, j as int)).push(
            all@[k as int],
        ));
        j = j + 1;
    }
    assert(ids@.subrange(0, j as int) == ids@);
    Ok(out)
}

/// Whether every grant a session names serves it at `now`.
pub open spec fn all_session_resolvable(all: Seq<PermissionGrant>, s: FocusSession, now: i64) -> bool {
    forall|j: int|
        0 <= j < s.permission_grant_ids@.len() ==> #[trigger] session_resolvable(all, s.permission_grant_ids@[j], s.id, now)
}

/// The observation grants among `rs`, in order.
pub open spec fn observation_grants(rs: Seq<PermissionGrant>) -> Seq<PermissionGrant> {
    rs.filter(|g: PermissionGrant| g.scope.spec_is_observation())
}

/// Keeps the observation grants, in order.
pub fn select_observation_grants(rs: &Vec<PermissionGrant>) -> (r: Vec<PermissionGrant>)
    ensures
        r@ == observation_grants(rs@),
{
    let mut out: Vec<PermissionGrant> = Vec::new();
    let mut i: usize = 0;
    while i < rs.len()
        invariant
            i <= rs@.len(),
            out@ == observation_grants(rs@.subrange(0, i as int)),
        decreases rs@.len() - i,
    {
        proof {
            reveal(Seq::filter);
            assert(rs@.subrange(0, (i + 1) as int).drop_last() == rs@.subrange(0, i as int));
        }
        if rs[i].scope.is_observation() {
            out.push(crate::sessions::copy_grant(&rs[i]));
        }
        i = i + 1;
    }
    assert(rs@.subrange(0, i as int) == rs@);
    out
}

/// What activation does with a starting session once its records are read.
pub enum ActivationPlan {
    /// The start fails for this reason before any adapter starts.
    Fail(&'static str),
    /// The adapters of these observation grants start next.
    StartAdapters(Vec<PermissionGrant>),
}

/// Why a starting session that reached its records cannot activate, if it
/// cannot.
pub open spec fn activation_failure(
    s: FocusSession,
    goal: Goal,
    route: ModelRouteApproval,
    grants: Seq<PermissionGrant>,
    now: i64,
) -> Option<&'static str> {
    if goal.state != GoalState::Active || goal.revision != s.goal_revision {
        Some("goal_changed_before_activation")
    } else if !spec_route_valid(route, now) {
        Some("model_route_invalid_before_activation")
    } else if !all_session_resolvable(grants, s, now) {
        Some("permission_invalid_before_activation")
    } else if !resources_match(resolved_grants(grants, s.permission_grant_ids@), s.selected_resource_ids@) {
        Some("resource_changed_before_activation")
    } else {
        None
    }
}

/// Decides how a starting session activates: refuses another actor, a stale
/// revision and a session that is not starting; fails the start when the
/// goal, route, grants or resource bindings changed since the request; and
/// otherwise names the observation grants whose adapters start next.
#[verifier::spinoff_prover]
#[verifier::rlimit(40)]
pub fn plan_activation(
    assurance: ClientAssurance,
    owner: u128,
    session: &FocusSession,
    expected_revision: u64,
    now: i64,
    goals: &Vec<Goal>,
    routes: &Vec<ModelRouteApproval>,
    grants: &Vec<PermissionGrant>,
) -> (r: Result<ActivationPlan, SecondMindError>)
    ensures
        !assurance.spec_permits_private() ==> fails_with(r, SecondMindErrorCode::PermissionDenied),
        assurance.spec_permits_private() ==> if session.owner != owner {
            fails_plain(r, SecondMindErrorCode::PermissionDenied, "The focus session belongs to another actor.", false)
        } else if session.revision != expected_revision {
            r == Err::<ActivationPlan, SecondMindError>(SecondMindError::spec_conflict(session.revision))
        } else if session.state != FocusSessionState::Starting {
            fails_plain(
                r,
                SecondMindErrorCode::InvalidArgument,
                "Only a starting focus session can activate its adapters.",
                false,
            )
        } else {
            match first_goal(goals@, owner, session.goal_id) {
                None => fails_plain(r, SecondMindErrorCode::NotFound, "The goal was not found.", false),
                Some(i) => {
                    let ri = first_route(routes@, session.model_route_approval_id);
                    if (goals@[i].state != GoalState::Active || goals@[i].revision != session.goal_revision) {
                        r matches Ok(ActivationPlan::Fail(m)) && m == "goal_changed_before_activation"
                    } else if ri is None {
                        fails_plain(r, SecondMindErrorCode::NotFound, "The model route approval was not found.", false)
                    } else {
                        match activation_failure(*session, goals@[i], routes@[ri->0], grants@, now) {
                            Some(m) => r matches Ok(ActivationPlan::Fail(f)) && f == m,
                            None => r matches Ok(ActivationPlan::StartAdapters(v)) && v@ == observation_grants(
                                resolved_grants(grants@, session.permission_grant_ids@),
                            ),
                        }
                    }
                },
            }
        },
{
    require_private(assurance)?;
    if session.owner != owner {
        return Err(SecondMindError::permission("The focus session belongs to another actor."));
    }
    if session.revision != expected_revision {
        return Err(SecondMindError::conflict(session.revision));
    }
    if session.state != FocusSessionState::Starting {
        return Err(SecondMindError::invalid("Only a starting focus session can activate its adapters."));
    }
    let gi = match find_goal(goals, owner, session.goal_id) {
        Some(i) => i,
        None => return Err(SecondMindError::not_found("The goal was not found.")),
    };
    let goal = &goals[gi];
    if goal.state != GoalState::Active || goal.revision != session.goal_revision {
        return Ok(ActivationPlan::Fail("goal_changed_before_activation"));
    }
    let ri = match find_route_approval(routes, session.model_route_approval_id) {
        Some(i) => i,
        None => return Err(SecondMindError::not_found("The model route approval was not found.")),
    };
    if validate_model_route(&routes[ri], now).is_err() {
        return Ok(ActivationPlan::Fail("model_route_invalid_before_activation"));
    }
    let rs = match resolve_session_grants(grants, session.id, &session.permission_grant_ids, now) {
        Ok(rs) => rs,
        Err(_) => return Ok(ActivationPlan::Fail("permission_invalid_before_activation")),
    };
    if !resources_are_exact(&rs, &session.selected_resource_ids) {
        return Ok(ActivationPlan::Fail("resource_changed_before_activation"));
    }
    Ok(ActivationPlan::StartAdapters(select_observation_grants(&rs)))
}

/// `after` is `before` with the given state, source flag, timestamps and
/// failure reason, updated at `now`; nothing else changed but, perhaps, the
/// revision.
pub open spec fn lifecycle_fields(
    before: FocusSession,
    after: FocusSession,
    state: FocusSessionState,
    source_degraded: bool,
    started_at: Option<i64>,
    ended_at: Option<i64>,
    failure_reason: Option<&'static str>,
    now: i64,
) -> bool {
    &&& after.id == before.id && after.owner == before.owner && after.goal_id == before.goal_id
    &&& after.goal_revision == before.goal_revision && after.muted == before.muted
    &&& after.client_disconnect_allowed == before.client_disconnect_allowed
    &&& after.daemon_restart_allowed == before.daemon_restart_allowed
    &&& after.model_route_approval_id == before.model_route_approval_id
    &&& after.permission_grant_ids@ == before.permission_grant_ids@
    &&& after.selected_resource_ids@ == before.selected_resource_ids@
    &&& after.requested_at == before.requested_at
    &&& after.state == state && after.source_degraded == source_degraded
    &&& after.started_at == started_at && after.ended_at == ended_at && after.failure_reason == failure_reason
    &&& after.updated_at == now
}

/// `lifecycle_fields` under the next revision.
pub open spec fn lifecycle_step(
    before: FocusSession,
    after: FocusSession,
    state: FocusSessionState,
    source_degraded: bool,
    started_at: Option<i64>,
    ended_at: Option<i64>,
    failure_reason: Option<&'static str>,
    now: i64,
) -> bool {
    lifecycle_fields(before, after, state, source_degraded, started_at, ended_at, failure_reason, now)
        && after.revision == before.revision + 1
}

/// Fails a starting session for `reason`: the failed record under the next
/// revision, and the error the activation request is answered with.
pub fn fail_start(session: &FocusSession, reason: &'static str, now: i64) -> (r: (FocusSession, SecondMindError))
    requires
        session.revision < u64::MAX,
    ensures
        lifecycle_step(
            *session,
            r.0,
            FocusSessionState::Failed,
            session.source_degraded,
            session.started_at,
            session.ended_at,
            Some(reason),
            now,
        ),
        plain_error(r.1, SecondMindErrorCode::Unavailable, "A required observation source could not start.", true),
{
    let mut next = crate::sessions::copy_session(session);
    next.state = FocusSessionState::Failed;
    next.failure_reason = Some(reason);
    next.updated_at = now;
    next.revision = session.revision + 1;
    (next, SecondMindError::unavailable("A required observation source could not start."))
}

/// Whether some source reported anything but healthy.
pub open spec fn any_unhealthy(health: Seq<SourceHealth>) -> bool {
    exists|k: int| 0 <= k < health.len() && health[k] != SourceHealth::Healthy
}

/// Activates a starting session whose adapters all started, with the
/// initial health each source reported: active from `now`, degraded when a
/// source is not healthy.
pub fn complete_activation(session: &FocusSession, health: &Vec<SourceHealth>, now: i64) -> (r: FocusSession)
    requires
        session.revision < u64::MAX,
    ensures
        lifecycle_step(
            *session,
            r,
            FocusSessionState::Active,
            any_unhealthy(health@),
            Some(now),
            session.ended_at,
            session.failure_reason,
            now,
        ),
{
    let mut degraded = false;
    let mut k: usize = 0;
    while k < health.len()
        invariant
            k <= health@.len(),
            degraded == exists|m: int| 0 <= m < k && health@[m] != SourceHealth::Healthy,
        decreases health@.len() - k,
    {
        if health[k] != SourceHealth::Healthy {
            degraded = true;
        }
        k = k + 1;
    }
    let mut next = crate::sessions::copy_session(session);
    next.state = FocusSessionState::Active;
    next.started_at = Some(now);
    next.updated_at = now;
    next.source_degraded = degraded;
    next.revision = session.revision + 1;
    next
}

/// Whether a working session may survive a daemon restart at `now`: it
/// allows the restart, every grant it names has a current counterpart that
/// allows the restart too, and its route approval is in force.
pub open spec fn can_recover(
    s: FocusSession,
    grants: Seq<PermissionGrant>,
    routes: Seq<ModelRouteApproval>,
    now: i64,
) -> bool {
    &&& s.daemon_restart_allowed
    &&& forall|j: int| 0 <= j < s.permission_grant_ids@.len() ==> restart_grant_present(grants, #[trigger] s.permission_grant_ids@[j], now)
    &&& exists|k: int| 0 <= k < routes.len() && (#[trigger] routes[k]).id == s.model_route_approval_id && routes[k].spec_is_current_at(now)
}

/// Whether a current grant `id` that allows a daemon restart exists.
pub open spec fn restart_grant_present(grants: Seq<PermissionGrant>, id: u128, now: i64) -> bool {
    exists|k: int|
        0 <= k < grants.len() && (#[trigger] grants[k]).id == id && grants[k].daemon_restart_allowed
            && grants[k].spec_is_current_at(now)
}

fn has_restart_grant(grants: &Vec<PermissionGrant>, id: u128, now: i64) -> (r: bool)
    ensures
        r == restart_grant_present(grants@, id, now),
{
    let mut k: usize = 0;
    while k < grants.len()
        invariant
            k <= grants@.len(),
            forall|m: int|
                0 <= m < k ==> !((#[trigger] grants@[m]).id == id && grants@[m].daemon_restart_allowed
                    && grants@[m].spec_is_current_at(now)),
        decreases grants@.len() - k,
    {
        let g = &grants[k];
        if g.id == id && g.daemon_restart_allowed && g.is_current_at(now) {
            return true;
        }
        k = k + 1;
    }
    false
}

fn recovery_allowed(s: &FocusSession, grants: &Vec<PermissionGrant>, routes: &Vec<ModelRouteApproval>, now: i64) -> (r: bool)
    ensures
        r == can_recover(*s, grants@, routes@, now),
{
    if !s.daemon_restart_allowed {
        return false;
    }
    let mut j: usize = 0;
    while j < s.permission_grant_ids.len()
        invariant
            j <= s.permission_grant_ids@.len(),
            forall|q: int| 0 <= q < j ==> restart_grant_present(grants@, #[trigger] s.permission_grant_ids@[q], now),
        decreases s.permission_grant_ids@.len() - j,
    {
        if !has_restart_grant(grants, s.permission_grant_ids[j], now) {
            return false;
        }
        j = j + 1;
    }
    let mut k: usize = 0;
    while k < routes.len()
        invariant
            k <= routes@.len(),
            s.daemon_restart_allowed,
            forall|q: int|
                0 <= q < s.permission_grant_ids@.len() ==> restart_grant_present(grants@, #[trigger] s.permission_grant_ids@[q], now),
            forall|m: int|
                0 <= m < k ==> !((#[trigger] routes@[m]).id == s.model_route_approval_id && routes@[m].spec_is_current_at(now)),
        decreases routes@.len() - k,
    {
        if routes[k].id == s.model_route_approval_id && routes[k].is_current_at(now) {
            assert(routes@[k as int].id == s.model_route_approval_id);
            return true;
        }
        k = k + 1;
    }
    false
}

/// What a daemon restart does to a working session: it resumes recovery,
/// degraded until its sources restart, when continuity is authorized, and
/// otherwise ends for want of authorization.
pub open spec fn recovery_of(
    before: FocusSession,
    after: FocusSession,
    grants: Seq<PermissionGrant>,
    routes: Seq<ModelRouteApproval>,
    now: i64,
) -> bool {
    if can_recover(before, grants, routes, now) {
        lifecycle_step(
            before,
            after,
            FocusSessionState::Recovering,
            true,
            before.started_at,
            before.ended_at,
            before.failure_reason,
            now,
        )
    } else {
        lifecycle_step(
            before,
            after,
            FocusSessionState::Ended,
            before.source_degraded,
            before.started_at,
            Some(now),
            Some("restart_continuity_not_authorized"),
            now,
        )
    }
}

/// Decides what a daemon restart does to one working session.
pub fn recover_session(
    session: &FocusSession,
    grants: &Vec<PermissionGrant>,
    routes: &Vec<ModelRouteApproval>,
    now: i64,
) -> (r: FocusSession)
    requires
        session.revision < u64::MAX,
    ensures
        recovery_of(*session, r, grants@, routes@, now),
{
    let mut next = crate::sessions::copy_session(session);
    if recovery_allowed(session, grants, routes, now) {
        next.state = FocusSessionState::Recovering;
        next.source_degraded = true;
    } else {
        next.state = FocusSessionState::Ended;
        next.ended_at = Some(now);
        next.failure_reason = Some("restart_continuity_not_authorized");
    }
    next.updated_at = now;
    next.revision = session.revision + 1;
    next
}

/// The owner's sessions that still hold capture authority, in order.
pub open spec fn working_sessions(sessions: Seq<FocusSession>) -> Seq<FocusSession> {
    sessions.filter(|s: FocusSession| s.state.spec_is_working())
}

/// Decides, after a daemon restart, what becomes of each of the owner's
/// working sessions; the others are left as they are and not returned.
pub fn recover_owner(
    sessions: &Vec<FocusSession>,
    grants: &Vec<PermissionGrant>,
    routes: &Vec<ModelRouteApproval>,
    now: i64,
) -> (r: Vec<FocusSession>)
    requires
        forall|k: int| 0 <= k < sessions@.len() ==> (#[trigger] sessions@[k]).revision < u64::MAX,
    ensures
        r@.len() == working_sessions(sessions@).len(),
        forall|j: int| 0 <= j < r@.len() ==> recovery_of(working_sessions(sessions@)[j], #[trigger] r@[j], grants@, routes@, now),
{
    let mut out: Vec<FocusSession> = Vec::new();
    let mut i: usize = 0;
    while i < sessions.len()
        invariant
            i <= sessions@.len(),
            forall|k: int| 0 <= k < sessions@.len() ==> (#[trigger] sessions@[k]).revision < u64::MAX,
            out@.len() == working_sessions(sessions@.subrange(0, i as int)).len(),
            forall|j: int|
                0 <= j < out@.len() ==> recovery_of(
                    working_sessions(sessions@.subrange(0, i as int))[j],
                    #[trigger] out@[j],
                    grants@,
                    routes@,
                    now,
                ),
        decreases sessions@.len() - i,
    {
        let ghost before = working_sessions(sessions@.subrange(0, i as int));
        proof {
            reveal(Seq::filter);
            assert(sessions@.subrange(0, (i + 1) as int).drop_last() == sessions@.subrange(0, i as int));
        }
        if sessions[i].state.is_working() {
            let s = recover_session(&sessions[i], grants, routes, now);
            out.push(s);
            assert(working_sessions(sessions@.subrange(0, (i + 1) as int)) == before.push(sessions@[i as int]));
        } else {
            assert(working_sessions(sessions@.subrange(0, (i + 1) as int)) == before);
        }
        i = i + 1;
    }
    assert(sessions@.subrange(0, i as int) == sessions@);
    out
}

/// Checks a recovering session before its adapters restart: it must be the
/// owner's and recovering, its goal unchanged, its route valid, its grants
/// current and its resource bindings unchanged. Returns the observation
/// grants whose sources restart.
#[verifier::spinoff_prover]
#[verifier::rlimit(40)]
pub fn plan_reactivation(
    owner: u128,
    session: &FocusSession,
    now: i64,
    goals: &Vec<Goal>,
    routes: &Vec<ModelRouteApproval>,
    grants: &Vec<PermissionGrant>,
) -> (r: Result<Vec<PermissionGrant>, SecondMindError>)
    ensures
        if session.owner != owner || session.state != FocusSessionState::Recovering {
            fails_plain(r, SecondMindErrorCode::InvalidArgument, "The focus session is not awaiting adapter recovery.", false)
        } else {
            match first_goal(goals@, owner, session.goal_id) {
                None => fails_plain(r, SecondMindErrorCode::NotFound, "The goal was not found.", false),
                Some(i) => {
                    let ri = first_route(routes@, session.model_route_approval_id);
                    let rs = resolved_grants(grants@, session.permission_grant_ids@);
                    if (goals@[i].state != GoalState::Active || goals@[i].revision != session.goal_revision) {
                        fails_plain(
                            r,
                            SecondMindErrorCode::PermissionDenied,
                            "The recovering focus session no longer matches its goal.",
                            false,
                        )
                    } else if ri is None {
                        fails_plain(r, SecondMindErrorCode::NotFound, "The model route approval was not found.", false)
                    } else if !spec_route_valid(routes@[ri->0], now) {
                        fails_plain(r, SecondMindErrorCode::InvalidArgument, "The model route approval is invalid or unsafe.", false)
                    } else if session_refusal(grants@, session.permission_grant_ids@, session.id, now) is Some {
                        fails_plain(
                            r,
                            SecondMindErrorCode::PermissionDenied,
                            session_refusal(grants@, session.permission_grant_ids@, session.id, now)->0,
                            false,
                        )
                    } else if !resources_match(rs, session.selected_resource_ids@) {
                        fails_plain(
                            r,
                            SecondMindErrorCode::PermissionDenied,
                            "The recovering focus session resource bindings changed.",
                            false,
                        )
                    } else {
                        r matches Ok(v) && v@ == observation_grants(rs)
                    }
                },
            }
        },
{
    if session.owner != owner || session.state != FocusSessionState::Recovering {
        return Err(SecondMindError::invalid("The focus session is not awaiting adapter recovery."));
    }
    let gi = match find_goal(goals, owner, session.goal_id) {
        Some(i) => i,
        None => return Err(SecondMindError::not_found("The goal was not found.")),
    };
    let goal = &goals[gi];
    if goal.state != GoalState::Active || goal.revision != session.goal_revision {
        return Err(SecondMindError::permission("The recovering focus session no longer matches its goal."));
    }
    let ri = match find_route_approval(routes, session.model_route_approval_id) {
        Some(i) => i,
        None => return Err(SecondMindError::not_found("The model route approval was not found.")),
    };
    validate_model_route(&routes[ri], now)?;
    let rs = resolve_session_grants(grants, session.id, &session.permission_grant_ids, now)?;
    if !resources_are_exact(&rs, &session.selected_resource_ids) {
        return Err(SecondMindError::permission("The recovering focus session resource bindings changed."));
    }
    Ok(select_observation_grants(&rs))
}

/// Whether a restarted source's initial status lets recovery continue: it
/// lies within its grant, is healthy, and was observed no later than `now`
/// and at most `freshness_ms` before it.
pub open spec fn freshly_healthy(
    grant: PermissionGrant,
    claim: SourceStatusClaim,
    health: SourceHealth,
    observed_at: i64,
    now: i64,
    freshness_ms: u64,
) -> bool {
    &&& trimmed(claim.source_id@).len() > 0 && claim.grant_id == grant.id && claim.scope == grant.scope
    &&& claim.resource_id == grant.selected_resource_id
    &&& health == SourceHealth::Healthy
    &&& observed_at <= now && now - observed_at <= freshness_ms
}

/// Checks a restarted source's initial status.
pub fn source_restarted_fresh(
    grant: &PermissionGrant,
    claim: &SourceStatusClaim,
    health: SourceHealth,
    observed_at: i64,
    now: i64,
    freshness_ms: u64,
) -> (r: bool)
    ensures
        r == freshly_healthy(*grant, *claim, health, observed_at, now, freshness_ms),
{
    if validate_source_status(grant, claim).is_err() || health != SourceHealth::Healthy || observed_at > now {
        return false;
    }
    let age: i128 = now as i128 - observed_at as i128;
    age <= freshness_ms as i128
}

/// Whether a recovering session passes every check on its records at
/// `now`: it is the owner's and recovering, its goal is active at the
/// revision it started under, its route approval exists and is valid, its
/// grants are current and its resource bindings unchanged.
pub open spec fn reactivation_ready(
    owner: u128,
    session: FocusSession,
    now: i64,
    goals: Seq<Goal>,
    routes: Seq<ModelRouteApproval>,
    grants: Seq<PermissionGrant>,
) -> bool {
    &&& session.owner == owner && session.state == FocusSessionState::Recovering
    &&& (first_goal(goals, owner, session.goal_id) matches Some(i) && goals[i].state == GoalState::Active
        && goals[i].revision == session.goal_revision)
    &&& (first_route(routes, session.model_route_approval_id) matches Some(ri) && spec_route_valid(routes[ri], now))
    &&& session_refusal(grants, session.permission_grant_ids@, session.id, now) is None
    &&& resources_match(resolved_grants(grants, session.permission_grant_ids@), session.selected_resource_ids@)
}

/// The initial status a restarted observation source reported.
#[derive(Clone, Debug, PartialEq, Eq)]
pub struct SourceRestart {
    pub claim: SourceStatusClaim,
    pub health: SourceHealth,
    pub observed_at: i64,
}

/// Whether the sources restarted for `started`, one each and in its order,
/// all came back freshly healthy at `now`.
pub open spec fn all_restarted_fresh(
    started: Seq<PermissionGrant>,
    restarts: Seq<SourceRestart>,
    now: i64,
    freshness_ms: u64,
) -> bool {
    &&& started.len() == restarts.len()
    &&& forall|i: int|
        #![trigger restarts[i]]
        0 <= i < started.len() ==> freshly_healthy(
            started[i],
            restarts[i].claim,
            restarts[i].health,
            restarts[i].observed_at,
            now,
            freshness_ms,
        )
}

/// Completes the recovery of a session whose records passed the recovery
/// checks at `now`. It needs the independent stop control and an
/// acknowledged native status (`controls_ready`) and then, for each of the
/// session's observation grants in order, a source restarted freshly
/// healthy; only then is the session active, no longer degraded, under the
/// next revision (which saturates). Otherwise it stays recovering.
#[verifier::spinoff_prover]
#[verifier::rlimit(40)]
pub fn complete_reactivation(
    owner: u128,
    session: &FocusSession,
    now: i64,
    goals: &Vec<Goal>,
    routes: &Vec<ModelRouteApproval>,
    grants: &Vec<PermissionGrant>,
    controls_ready: bool,
    restarts: &Vec<SourceRestart>,
    freshness_ms: u64,
) -> (r: Result<FocusSession, SecondMindError>)
    requires
        reactivation_ready(owner, *session, now, goals@, routes@, grants@),
    ensures
        !controls_ready ==> fails_plain(
            r,
            SecondMindErrorCode::Unavailable,
            "Independent native status and stop control are required for recovery.",
            true,
        ),
        controls_ready && !all_restarted_fresh(
            observation_grants(resolved_grants(grants@, session.permission_grant_ids@)),
            restarts@,
            now,
            freshness_ms,
        ) ==> fails_plain(
            r,
            SecondMindErrorCode::Unavailable,
            "A recovering observation source is not freshly healthy.",
            true,
        ),
        r is Ok <==> controls_ready && all_restarted_fresh(
            observation_grants(resolved_grants(grants@, session.permission_grant_ids@)),
            restarts@,
            now,
            freshness_ms,
        ),
        r matches Ok(a) ==> lifecycle_fields(
            *session,
            a,
            FocusSessionState::Active,
            false,
            session.started_at,
            session.ended_at,
            session.failure_reason,
            now,
        ) && a.revision == if session.revision == u64::MAX {
            u64::MAX
        } else {
            (session.revision + 1) as u64
        },
{
    if !controls_ready {
        return Err(SecondMindError::unavailable("Independent native status and stop control are required for recovery."));
    }
    let started = match plan_reactivation(owner, session, now, goals, routes, grants) {
        Ok(v) => v,
        Err(e) => return Err(e),
    };
    let ghost expected = observation_grants(resolved_grants(grants@, session.permission_grant_ids@));
    assert(started@ == expected);
    if restarts.len() != started.len() {
        return Err(SecondMindError::unavailable("A recovering observation source is not freshly healthy."));
    }
    let mut i: usize = 0;
    while i < started.len()
        invariant
            i <= started@.len(),
            started@.len() == restarts@.len(),
            controls_ready,
            started@ == observation_grants(resolved_grants(grants@, session.permission_grant_ids@)),
            forall|k: int|
                #![trigger restarts@[k]]
                0 <= k < i ==> freshly_healthy(
                    started@[k],
                    restarts@[k].claim,
                    restarts@[k].health,
                    restarts@[k].observed_at,
                    now,
                    freshness_ms,
                ),
        decreases started@.len() - i,
    {
        let x = &restarts[i];
        if !source_restarted_fresh(&started[i], &x.claim, x.health, x.observed_at, now, freshness_ms) {
            assert(!all_restarted_fresh(started@, restarts@, now, freshness_ms)) by {
                assert(restarts@[i as int] == *x);
            }
            return Err(SecondMindError::unavailable("A recovering observation source is not freshly healthy."));
        }
        i = i + 1;
    }
    let mut next = crate::sessions::copy_session(session);
    next.state = FocusSessionState::Active;
    next.source_degraded = false;
    next.updated_at = now;
    next.revision = session.revision.saturating_add(1);
    Ok(next)
}

/// Whether a start request passes every check at `now` against the owner's
/// goals, sessions, route approvals and grants.
#[verifier::opaque]
pub open spec fn start_accepted(
    c: StartFocusSession,
    now: i64,
    goals: Seq<Goal>,
    sessions: Seq<FocusSession>,
    routes: Seq<ModelRouteApproval>,
    grants: Seq<PermissionGrant>,
) -> bool {
    &&& first_goal(goals, c.owner, c.goal_id) matches Some(i) && goals[i].state == GoalState::Active
        && goals[i].revision == c.expected_goal_revision
    &&& !blocks_start(sessions, c.session_id)
    &&& first_route(routes, c.model_route_approval_id) matches Some(ri) && spec_route_valid(routes[ri], now)
        && start_grant_failure(c, routes[ri], resolved_grants(grants, c.grant_ids@)) is None
    &&& all_start_resolvable(grants, c, now)
}

/// Whether position `k` holds the first grant of one of the identifiers.
pub open spec fn named_first(before: Seq<PermissionGrant>, ids: Seq<u128>, k: int) -> bool {
    exists|j: int| 0 <= j < ids.len() && first_grant(before, ids[j]) == Some(k)
}

/// Whether `after` is the grant store `before` once the first grant of each
/// named identifier is replaced by its binding to the new session.
#[verifier::opaque]
pub open spec fn grants_bound_in_store(
    before: Seq<PermissionGrant>,
    after: Seq<PermissionGrant>,
    ids: Seq<u128>,
    session_id: u128,
    route_id: u128,
) -> bool {
    &&& after.len() == before.len()
    &&& forall|k: int|
        0 <= k < before.len() ==> #[trigger] after[k] == if named_first(before, ids, k) {
            bound_grant(before[k], session_id, route_id)
        } else {
            before[k]
        }
}

proof fn lemma_first_grant_exists(all: Seq<PermissionGrant>, id: u128, m: int)
    requires
        0 <= m < all.len(),
        all[m].id == id,
    ensures
        first_grant(all, id) matches Some(k) && 0 <= k < all.len() && all[k].id == id
            && forall|q: int| 0 <= q < k ==> all[q].id != id,
    decreases m,
{
    if forall|q: int| 0 <= q < m ==> (#[trigger] all[q]).id != id {
        crate::sessions::lemma_first_grant_is(all, id, m);
    } else {
        let q = choose|q: int| 0 <= q < m && (#[trigger] all[q]).id == id;
        lemma_first_grant_exists(all, id, q);
    }
}

proof fn lemma_first_grant_same_ids(x: Seq<PermissionGrant>, y: Seq<PermissionGrant>, id: u128)
    requires
        x.len() == y.len(),
        forall|k: int| 0 <= k < x.len() ==> #[trigger] x[k].id == y[k].id,
    ensures
        first_grant(x, id) == first_grant(y, id),
{
    if exists|k: int| 0 <= k < x.len() && x[k].id == id {
        let w = choose|k: int| 0 <= k < x.len() && x[k].id == id;
        lemma_first_grant_exists(x, id, w);
        let a = first_grant(x, id)->0;
        assert forall|m: int| 0 <= m < a implies y[m].id != id by {
            assert(x[m].id == y[m].id);
        }
        assert(x[a].id == y[a].id);
        crate::sessions::lemma_first_grant_is(y, id, a);
    } else {
        assert forall|k: int| 0 <= k < y.len() implies y[k].id != id by {
            assert(x[k].id == y[k].id);
        }
    }
}

proof fn lemma_binding_at(
    before: Seq<PermissionGrant>,
    after: Seq<PermissionGrant>,
    ids: Seq<u128>,
    session_id: u128,
    route_id: u128,
    k: int,
)
    requires
        grants_bound_in_store(before, after, ids, session_id, route_id),
        0 <= k < before.len(),
    ensures
        after.len() == before.len(),
        after[k] == if named_first(before, ids, k) {
            bound_grant(before[k], session_id, route_id)
        } else {
            before[k]
        },
{
    reveal(grants_bound_in_store);
}

proof fn lemma_binding_keeps_ids(
    before: Seq<PermissionGrant>,
    after: Seq<PermissionGrant>,
    ids: Seq<u128>,
    session_id: u128,
    route_id: u128,
)
    requires
        grants_bound_in_store(before, after, ids, session_id, route_id),
    ensures
        forall|k: int| 0 <= k < before.len() ==> #[trigger] before[k].id == after[k].id,
{
    assert forall|k: int| 0 <= k < before.len() implies #[trigger] before[k].id == after[k].id by {
        lemma_binding_at(before, after, ids, session_id, route_id, k);
    }
}

#[verifier::spinoff_prover]
#[verifier::rlimit(40)]
proof fn lemma_one_grant_bound(
    before: Seq<PermissionGrant>,
    after: Seq<PermissionGrant>,
    ids: Seq<u128>,
    goal_id: u128,
    session_id: u128,
    route_id: u128,
    now: i64,
    j: int,
)
    requires
        grants_bound_in_store(before, after, ids, session_id, route_id),
        forall|k: int| 0 <= k < before.len() ==> #[trigger] before[k].id == after[k].id,
        0 <= j < ids.len(),
        start_resolvable(before, ids[j], goal_id, session_id, now),
    ensures
        resolved_grants(after, ids)[j] == bound_grant(resolved_grants(before, ids)[j], session_id, route_id),
        session_resolvable(after, ids[j], session_id, now),
{
    let id = ids[j];
    let k = first_grant(before, id)->0;
    assert(0 <= k < before.len()) by {
        let w = choose|q: int| 0 <= q < before.len() && before[q].id == id;
        lemma_first_grant_exists(before, id, w);
    }
    lemma_binding_at(before, after, ids, session_id, route_id, k);
    assert(first_grant(after, id) == Some(k)) by {
        lemma_first_grant_same_ids(before, after, id);
    }
    assert(named_first(before, ids, k)) by {
        assert(first_grant(before, ids[j]) == Some(k));
    }
    assert(after[k] == bound_grant(before[k], session_id, route_id));
    assert(resolved_grants(after, ids)[j] == after[k]);
    assert(resolved_grants(before, ids)[j] == before[k]);
    assert(grant_serves_start(before[k], goal_id, session_id, now));
    assert(after[k].spec_is_current_at(now));
    assert(grant_serves_session(after[k], session_id, now));
}

proof fn lemma_resources_survive_binding(rs: Seq<PermissionGrant>, rs2: Seq<PermissionGrant>, wanted: Seq<u128>, session_id: u128, route_id: u128)
    requires
        resources_match(rs, wanted),
        rs2.len() == rs.len(),
        forall|j: int| 0 <= j < rs.len() ==> #[trigger] rs2[j] == bound_grant(rs[j], session_id, route_id),
    ensures
        resources_match(rs2, wanted),
{
    assert forall|j: int| 0 <= j < rs2.len() implies ((#[trigger] rs2[j]).selected_resource_id matches Some(r) ==> wanted.contains(r)) by {
        assert(rs2[j] == bound_grant(rs[j], session_id, route_id));
        assert(rs[j].selected_resource_id == rs2[j].selected_resource_id);
    }
    assert forall|i: int| 0 <= i < wanted.len() implies binds_resource(rs2, #[trigger] wanted[i]) by {
        assert(binds_resource(rs, wanted[i]));
        let j = choose|j: int| 0 <= j < rs.len() && (#[trigger] rs[j]).selected_resource_id == Some(wanted[i]);
        assert(rs2[j] == bound_grant(rs[j], session_id, route_id));
    }
}

proof fn lemma_start_accepted_parts(
    c: StartFocusSession,
    now: i64,
    goals: Seq<Goal>,
    sessions: Seq<FocusSession>,
    routes: Seq<ModelRouteApproval>,
    grants: Seq<PermissionGrant>,
)
    requires
        start_accepted(c, now, goals, sessions, routes, grants),
    ensures
        first_goal(goals, c.owner, c.goal_id) matches Some(i) && goals[i].state == GoalState::Active
            && goals[i].revision == c.expected_goal_revision,
        first_route(routes, c.model_route_approval_id) matches Some(ri) && spec_route_valid(routes[ri], now),
        all_start_resolvable(grants, c, now),
        resources_match(resolved_grants(grants, c.grant_ids@), c.selected_resource_ids@),
{
    reveal(start_accepted);
}

/// A start request that passes every check, once its grants are bound in
/// the store, passes every check of activation at the same instant: the
/// goal and route are found unchanged, every named grant serves the new
/// session, and the resource bindings still match.
pub proof fn law_accepted_start_can_activate(
    c: StartFocusSession,
    now: i64,
    goals: Seq<Goal>,
    sessions: Seq<FocusSession>,
    routes: Seq<ModelRouteApproval>,
    grants: Seq<PermissionGrant>,
    session: FocusSession,
    bound_store: Seq<PermissionGrant>,
)
    requires
        start_accepted(c, now, goals, sessions, routes, grants),
        starting_session(c, session, now),
        grants_bound_in_store(grants, bound_store, c.grant_ids@, c.session_id, c.model_route_approval_id),
    ensures
        session.state == FocusSessionState::Starting,
        first_goal(goals, session.owner, session.goal_id) matches Some(i) && goals[i].state == GoalState::Active
            && goals[i].revision == session.goal_revision,
        first_route(routes, session.model_route_approval_id) matches Some(ri) && activation_failure(
            session,
            goals[first_goal(goals, session.owner, session.goal_id)->0],
            routes[ri],
            bound_store,
            now,
        ) is None,
{
    lemma_start_accepted_parts(c, now, goals, sessions, routes, grants);
    let ids = c.grant_ids@;
    let rs = resolved_grants(grants, ids);
    let rs2 = resolved_grants(bound_store, ids);
    lemma_binding_keeps_ids(grants, bound_store, ids, c.session_id, c.model_route_approval_id);
    assert forall|j: int| 0 <= j < ids.len() implies #[trigger] rs2[j] == bound_grant(rs[j], c.session_id, c.model_route_approval_id)
        && session_resolvable(bound_store, ids[j], c.session_id, now) by {
        assert(start_resolvable(grants, ids[j], c.goal_id, c.session_id, now));
        lemma_one_grant_bound(grants, bound_store, ids, c.goal_id, c.session_id, c.model_route_approval_id, now, j);
    }
    lemma_resources_survive_binding(rs, rs2, c.selected_resource_ids@, c.session_id, c.model_route_approval_id);
    assert(resources_match(rs2, session.selected_resource_ids@));
    assert forall|j: int| 0 <= j < session.permission_grant_ids@.len() implies #[trigger] session_resolvable(
        bound_store,
        session.permission_grant_ids@[j],
        session.id,
        now,
    ) by {
        assert(rs2[j] == bound_grant(rs[j], c.session_id, c.model_route_approval_id));
    }
    let i = first_goal(goals, c.owner, c.goal_id)->0;
    let ri = first_route(routes, c.model_route_approval_id)->0;
    assert(spec_route_valid(routes[ri], now));
    assert(activation_failure(session, goals[i], routes[ri], bound_store, now) is None);
}

/// What finishing the end of a session does next.
pub enum FinishStep {
    /// The session already ended; it is returned as it is.
    AlreadyEnded,
    /// The adapters of these observation grants stop; `missing` records
    /// whether a named grant could not be found, which leaves the cleanup
    /// incomplete.
    StopAdapters { grant_ids: Vec<u128>, missing: bool },
}

/// Whether some grant has identifier `id`.
pub open spec fn grant_known(grants: Seq<PermissionGrant>, id: u128) -> bool {
    exists|k: int| 0 <= k < grants.len() && (#[trigger] grants[k]).id == id
}

/// The named grants that exist and observe, by identifier, in the order the
/// session names them.
pub open spec fn observation_ids(ids: Seq<u128>, grants: Seq<PermissionGrant>) -> Seq<u128>
    decreases ids.len(),
{
    if ids.len() == 0 {
        Seq::empty()
    } else {
        let rest = observation_ids(ids.drop_last(), grants);
        let id = ids.last();
        if grant_known(grants, id) && grants[first_grant(grants, id)->0].scope.spec_is_observation() {
            rest.push(id)
        } else {
            rest
        }
    }
}

/// Decides how to finish ending a stopping session: another actor's session
/// is refused, an ended one needs nothing, one that is not stopping or is
/// at another revision is refused; otherwise it names the observation
/// grants whose adapters stop.
#[verifier::spinoff_prover]
#[verifier::rlimit(30)]
pub fn plan_finish_end(
    owner: u128,
    session: &FocusSession,
    expected_revision: u64,
    grants: &Vec<PermissionGrant>,
) -> (r: Result<FinishStep, SecondMindError>)
    ensures
        if session.owner != owner {
            fails_plain(r, SecondMindErrorCode::PermissionDenied, "The focus session belongs to another actor.", false)
        } else if session.state == FocusSessionState::Ended {
            r matches Ok(FinishStep::AlreadyEnded)
        } else if session.state != FocusSessionState::Stopping {
            fails_plain(r, SecondMindErrorCode::InvalidArgument, "The focus session is not awaiting adapter cleanup.", false)
        } else if session.revision != expected_revision {
            r == Err::<FinishStep, SecondMindError>(SecondMindError::spec_conflict(session.revision))
        } else {
            r matches Ok(FinishStep::StopAdapters { grant_ids, missing }) && grant_ids@ == observation_ids(
                session.permission_grant_ids@,
                grants@,
            ) && missing == exists|j: int|
                0 <= j < session.permission_grant_ids@.len() && !grant_known(grants@, #[trigger] session.permission_grant_ids@[j])
        },
{
    if session.owner != owner {
        return Err(SecondMindError::permission("The focus session belongs to another actor."));
    }
    if session.state == FocusSessionState::Ended {
        return Ok(FinishStep::AlreadyEnded);
    }
    if session.state != FocusSessionState::Stopping {
        return Err(SecondMindError::invalid("The focus session is not awaiting adapter cleanup."));
    }
    if session.revision != expected_revision {
        return Err(SecondMindError::conflict(session.revision));
    }
    let ids = &session.permission_grant_ids;
    let mut out: Vec<u128> = Vec::new();
    let mut missing = false;
    let mut j: usize = 0;
    while j < ids.len()
        invariant
            j <= ids@.len(),
            out@ == observation_ids(ids@.subrange(0, j as int), grants@),
            missing == exists|q: int| 0 <= q < j && !grant_known(grants@, #[trigger] ids@[q]),
        decreases ids@.len() - j,
    {
        let id = ids[j];
        proof {
            assert(ids@.subrange(0, (j + 1) as int).drop_last() == ids@.subrange(0, j as int));
            assert(ids@.subrange(0, (j + 1) as int).last() == id);
        }
        let ghost before = out@;
        match crate::validation::find_grant(grants, id) {
            Ok(k) => {
                proof {
                    crate::sessions::lemma_first_grant_is(grants@, id, k as int);
                }
                assert(grant_known(grants@, id));
                if grants[k].scope.is_observation() {
                    out.push(id);
                }
                assert(out@ == observation_ids(ids@.subrange(0, (j + 1) as int), grants@));
            },
            Err(_) => {
                assert(!grant_known(grants@, id));
                missing = true;
                assert(out@ == observation_ids(ids@.subrange(0, (j + 1) as int), grants@));
            },
        }
        j = j + 1;
    }
    assert(ids@.subrange(0, j as int) == ids@);
    Ok(FinishStep::StopAdapters { grant_ids: out, missing })
}

/// Whether the native status surface acknowledged clearing exactly this
/// session at this revision.
pub fn clear_acknowledged(
    session_id: u128,
    revision: u64,
    ack: Option<crate::validation::NativeStatusAcknowledgement>,
) -> (r: bool)
    ensures
        r == (ack matches Some(a) && a.session_id == session_id && a.revision == revision),
{
    match ack {
        Some(a) => a.session_id == session_id && a.revision == revision,
        None => false,
    }
}

/// Ends a stopping session once its adapters were asked to stop: ended at
/// `now` under the next revision, degraded and marked incomplete when some
/// part of the cleanup did not finish.
pub fn complete_end(session: &FocusSession, cleanup_incomplete: bool, now: i64) -> (r: FocusSession)
    requires
        session.revision < u64::MAX,
    ensures
        lifecycle_step(
            *session,
            r,
            FocusSessionState::Ended,
            cleanup_incomplete,
            session.started_at,
            Some(now),
            if cleanup_incomplete {
                Some("ended_cleanup_incomplete")
            } else {
                session.failure_reason
            },
            now,
        ),
{
    let mut next = crate::sessions::copy_session(session);
    next.state = FocusSessionState::Ended;
    next.ended_at = Some(now);
    next.updated_at = now;
    next.source_degraded = cleanup_incomplete;
    if cleanup_incomplete {
        next.failure_reason = Some("ended_cleanup_incomplete");
    }
    next.revision = session.revision + 1;
    next
}

/// A daemon restart lets a session resume only with authorized
/// continuity: the session allowed the restart, every grant it names has a
/// current counterpart that allows it, and its route is in force; such a
/// session resumes degraded. Every other working session ends, and both
/// outcomes advance the revision.
pub proof fn law_recovery_requires_authorized_continuity(
    before: FocusSession,
    after: FocusSession,
    grants: Seq<PermissionGrant>,
    routes: Seq<ModelRouteApproval>,
    now: i64,
)
    requires
        recovery_of(before, after, grants, routes, now),
    ensures
        after.state == FocusSessionState::Recovering <==> can_recover(before, grants, routes, now),
        after.state == FocusSessionState::Recovering ==> before.daemon_restart_allowed && after.source_degraded
            && forall|j: int|
            0 <= j < before.permission_grant_ids@.len() ==> restart_grant_present(
                grants,
                #[trigger] before.permission_grant_ids@[j],
                now,
            ),
        after.state != FocusSessionState::Recovering ==> after.state == FocusSessionState::Ended && after.ended_at == Some(now),
        after.revision == before.revision + 1,
{
}

} // verus!
