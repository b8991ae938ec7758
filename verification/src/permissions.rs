//! Granting session permissions and approving or revoking model routes,
//! with idempotent replay of the commands that create records.

use vstd::prelude::*;
use crate::admission::{ClientAssurance, require_private};
use crate::errors::{SecondMindError, SecondMindErrorCode, fails_plain, fails_with};
use crate::focus::{OperationKind, OperationReceipt, first_goal, replayed_result, spec_replayed_result};
use crate::model::{FocusSession, Goal, GoalState, GrantState, PermissionGrant};
use crate::runtime::IdempotencyContext;
use crate::text::validate_text;
use crate::validation::{
    GrantPermission, ModelRouteApproval, copy_route, first_grant, same_route, spec_grant_input_valid, spec_route_valid, validate_grant_input,
    validate_model_route,
};

verus! {

/// Whether a receipt records the command of `owner` and `kind` under `key`.
pub open spec fn receipt_for(r: OperationReceipt, owner: u128, kind: OperationKind, key: u128) -> bool {
    r.owner == owner && r.kind == kind && r.idempotency_key == key
}

/// The first receipt that records the command of `owner` and `kind` under
/// `key`.
pub open spec fn first_receipt(receipts: Seq<OperationReceipt>, owner: u128, kind: OperationKind, key: u128) -> Option<OperationReceipt>
    decreases receipts.len(),
{
    if receipts.len() == 0 {
        None
    } else if receipt_for(receipts[0], owner, kind, key) {
        Some(receipts[0])
    } else {
        first_receipt(receipts.drop_first(), owner, kind, key)
    }
}

/// Finds the receipt of an earlier command of `owner` and `kind` under `key`.
pub fn find_receipt(receipts: &Vec<OperationReceipt>, owner: u128, kind: OperationKind, key: u128) -> (r: Option<OperationReceipt>)
    ensures
        r == first_receipt(receipts@, owner, kind, key),
{
    let mut i: usize = 0;
    assert(receipts@.skip(0) =~= receipts@);
    while i < receipts.len()
        invariant
            i <= receipts@.len(),
            first_receipt(receipts@, owner, kind, key) == first_receipt(receipts@.skip(i as int), owner, kind, key),
        decreases receipts@.len() - i,
    {
        assert(receipts@.skip(i as int)[0] == receipts@[i as int]);
        assert(receipts@.skip(i as int).drop_first() == receipts@.skip(i + 1));
        let r = receipts[i];
        if r.owner == owner && r.kind == kind && r.idempotency_key == key {
            return Some(r);
        }
        i = i + 1;
    }
    assert(receipts@.skip(i as int).len() == 0);
    None
}

/// What a replay of `kind` for `owner` returns against the stored receipts.
pub open spec fn replay_of(
    receipts: Seq<OperationReceipt>,
    owner: u128,
    kind: OperationKind,
    idempotency: IdempotencyContext,
) -> Result<Option<u128>, SecondMindError> {
    spec_replayed_result(first_receipt(receipts, owner, kind, idempotency.key), idempotency)
}

/// Decides a replay of `kind` for `owner` against the stored receipts.
pub fn replay_for(
    receipts: &Vec<OperationReceipt>,
    owner: u128,
    kind: OperationKind,
    idempotency: IdempotencyContext,
) -> (r: Result<Option<u128>, SecondMindError>)
    ensures
        r == replay_of(receipts@, owner, kind, idempotency),
{
    replayed_result(find_receipt(receipts, owner, kind, idempotency.key), idempotency)
}

/// The receipt that records a created record.
pub open spec fn receipt_of(owner: u128, kind: OperationKind, idempotency: IdempotencyContext, result_id: u128) -> OperationReceipt {
    OperationReceipt {
        owner,
        kind,
        idempotency_key: idempotency.key,
        request_digest: idempotency.request_digest,
        result_id,
    }
}

/// The grant a valid request creates under identifier `id`: active, bound to
/// no session or route yet, at revision 1.
pub open spec fn new_grant(c: GrantPermission, id: u128) -> PermissionGrant {
    PermissionGrant {
        id,
        owner: c.owner,
        goal_id: c.goal_id,
        focus_session_id: None,
        device_id: c.device_id,
        scope: c.scope,
        selected_resource_id: c.selected_resource_id,
        model_route_approval_id: None,
        daemon_restart_allowed: c.daemon_restart_allowed,
        state: GrantState::Active,
        revision: 1,
        effective_at: c.effective_at,
        expires_at: c.expires_at,
        revoked_at: None,
    }
}

/// The outcome of a command that creates a record: the record an earlier
/// identical command created, or the new record with its receipt.
pub enum Created<T> {
    Replayed(T),
    New(T, OperationReceipt),
}

/// What a grant request decides when a new grant would take identifier
/// `new_id`: without the private assurance it is refused; a replay returns
/// the grant the earlier command created, or a conflict; otherwise the
/// request must be valid, its goal active and its resource registered, and
/// the new grant and its receipt are returned.
pub open spec fn grant_decided(
    assurance: ClientAssurance,
    command: GrantPermission,
    now: i64,
    new_id: u128,
    goals: Seq<Goal>,
    resource_ids: Seq<u128>,
    receipts: Seq<OperationReceipt>,
    grants: Seq<PermissionGrant>,
    r: Result<Created<PermissionGrant>, SecondMindError>,
) -> bool {
    &&& (!assurance.spec_permits_private() ==> fails_with(r, SecondMindErrorCode::PermissionDenied))
    &&& (assurance.spec_permits_private() ==> match replay_of(
        receipts,
        command.owner,
        OperationKind::GrantSessionPermission,
        command.idempotency,
    ) {
        Err(e) => r == Err::<Created<PermissionGrant>, SecondMindError>(e),
        Ok(Some(id)) => match first_grant(grants, id) {
            Some(k) => r matches Ok(Created::Replayed(g)) && g == grants[k] && g.id == id,
            None => fails_plain(r, SecondMindErrorCode::NotFound, "The permission grant was not found.", false),
        },
        Ok(None) => if !spec_grant_input_valid(command, now) {
            fails_with(r, SecondMindErrorCode::InvalidArgument)
        } else {
            match first_goal(goals, command.owner, command.goal_id) {
                None => fails_plain(r, SecondMindErrorCode::NotFound, "The goal was not found.", false),
                Some(i) => if goals[i].state != GoalState::Active {
                    fails_plain(
                        r,
                        SecondMindErrorCode::InvalidArgument,
                        "Only an active goal can receive a focus-session permission.",
                        false,
                    )
                } else if (command.selected_resource_id matches Some(x) && !resource_ids.contains(x)) {
                    fails_plain(r, SecondMindErrorCode::InvalidArgument, "The selected resource binding does not exist.", false)
                } else {
                    r matches Ok(Created::New(g, receipt)) && g == new_grant(command, new_id) && receipt == receipt_of(
                        command.owner,
                        OperationKind::GrantSessionPermission,
                        command.idempotency,
                        new_id,
                    )
                },
            }
        },
    })
}

/// Decides a grant request: a replay returns the grant the earlier command
/// created; otherwise the request must be valid, its goal active and its
/// resource registered, and the new grant takes identifier `new_id`.
#[verifier::spinoff_prover]
#[verifier::rlimit(30)]
pub fn plan_grant_permission(
    assurance: ClientAssurance,
    command: &GrantPermission,
    now: i64,
    new_id: u128,
    goals: &Vec<Goal>,
    resource_ids: &Vec<u128>,
    receipts: &Vec<OperationReceipt>,
    grants: &Vec<PermissionGrant>,
) -> (r: Result<Created<PermissionGrant>, SecondMindError>)
    ensures
        grant_decided(assurance, *command, now, new_id, goals@, resource_ids@, receipts@, grants@, r),
{
    require_private(assurance)?;
    match replay_for(receipts, command.owner, OperationKind::GrantSessionPermission, command.idempotency)? {
        Some(id) => {
            let k = crate::validation::find_grant(grants, id)?;
            proof {
                crate::sessions::lemma_first_grant_is(grants@, id, k as int);
            }
            return Ok(Created::Replayed(crate::sessions::copy_grant(&grants[k])));
        },
        None => {},
    }
    validate_grant_input(command, now)?;
    let gi = match crate::focus::find_goal(goals, command.owner, command.goal_id) {
        Some(i) => i,
        None => return Err(SecondMindError::not_found("The goal was not found.")),
    };
    if goals[gi].state != GoalState::Active {
        return Err(SecondMindError::invalid("Only an active goal can receive a focus-session permission."));
    }
    match command.selected_resource_id {
        Some(x) => {
            if !crate::focus::contains_id(resource_ids, x) {
                return Err(SecondMindError::invalid("The selected resource binding does not exist."));
            }
        },
        None => {},
    }
    let grant = PermissionGrant {
        id: new_id,
        owner: command.owner,
        goal_id: command.goal_id,
        focus_session_id: None,
        device_id: command.device_id,
        scope: command.scope,
        selected_resource_id: command.selected_resource_id,
        model_route_approval_id: None,
        daemon_restart_allowed: command.daemon_restart_allowed,
        state: GrantState::Active,
        revision: 1,
        effective_at: command.effective_at,
        expires_at: command.expires_at,
        revoked_at: None,
    };
    let receipt = OperationReceipt {
        owner: command.owner,
        kind: OperationKind::GrantSessionPermission,
        idempotency_key: command.idempotency.key,
        request_digest: command.idempotency.request_digest,
        result_id: new_id,
    };
    Ok(Created::New(grant, receipt))
}

/// Handles a grant request with a fresh time-ordered identifier for the new
/// grant: the outcome is exactly what `grant_decided` gives for some
/// version-7 identifier, the one the clock and random source produced, so
/// a replay returns the stored grant and a valid new request succeeds.
pub fn grant_permission(
    assurance: ClientAssurance,
    command: &GrantPermission,
    now: i64,
    goals: &Vec<Goal>,
    resource_ids: &Vec<u128>,
    receipts: &Vec<OperationReceipt>,
    grants: &Vec<PermissionGrant>,
) -> (r: Result<Created<PermissionGrant>, SecondMindError>)
    ensures
        exists|id: u128|
            crate::gates::uuid_version(id) == 7 && #[trigger] grant_decided(
                assurance,
                *command,
                now,
                id,
                goals@,
                resource_ids@,
                receipts@,
                grants@,
                r,
            ),
{
    let id = crate::view_publication::now_v7();
    let r = plan_grant_permission(assurance, command, now, id, goals, resource_ids, receipts, grants);
    assert(grant_decided(assurance, *command, now, id, goals@, resource_ids@, receipts@, grants@, r));
    r
}

/// What a route approval request decides: without the private assurance it
/// is refused; a replay returns the approval the earlier command created, or
/// a conflict; otherwise a valid approval is created with its receipt.
pub open spec fn route_decided(
    assurance: ClientAssurance,
    idempotency: IdempotencyContext,
    value: ModelRouteApproval,
    now: i64,
    receipts: Seq<OperationReceipt>,
    routes: Seq<ModelRouteApproval>,
    r: Result<Created<ModelRouteApproval>, SecondMindError>,
) -> bool {
    &&& (!assurance.spec_permits_private() ==> fails_with(r, SecondMindErrorCode::PermissionDenied))
    &&& (assurance.spec_permits_private() ==> match replay_of(receipts, value.owner, OperationKind::ApproveModelRoute, idempotency) {
        Err(e) => r == Err::<Created<ModelRouteApproval>, SecondMindError>(e),
        Ok(Some(id)) => match crate::focus::first_route(routes, id) {
            Some(k) => r matches Ok(Created::Replayed(a)) && same_route(a, routes[k]),
            None => fails_plain(r, SecondMindErrorCode::NotFound, "The model route approval was not found.", false),
        },
        Ok(None) => if !spec_route_valid(value, now) {
            fails_plain(r, SecondMindErrorCode::InvalidArgument, "The model route approval is invalid or unsafe.", false)
        } else {
            r matches Ok(Created::New(a, receipt)) && a == value && receipt == receipt_of(
                value.owner,
                OperationKind::ApproveModelRoute,
                idempotency,
                value.id,
            )
        },
    })
}

/// Decides a route approval request: a replay returns the approval the
/// earlier command created; otherwise the approval must be valid at `now`.
pub fn approve_model_route(
    assurance: ClientAssurance,
    idempotency: IdempotencyContext,
    value: ModelRouteApproval,
    now: i64,
    receipts: &Vec<OperationReceipt>,
    routes: &Vec<ModelRouteApproval>,
) -> (r: Result<Created<ModelRouteApproval>, SecondMindError>)
    ensures
        route_decided(assurance, idempotency, value, now, receipts@, routes@, r),
{
    require_private(assurance)?;
    match replay_for(receipts, value.owner, OperationKind::ApproveModelRoute, idempotency)? {
        Some(id) => {
            let k = match crate::focus::find_route_approval(routes, id) {
                Some(k) => k,
                None => return Err(SecondMindError::not_found("The model route approval was not found.")),
            };
            return Ok(Created::Replayed(copy_route(&routes[k])));
        },
        None => {},
    }
    validate_model_route(&value, now)?;
    let receipt = OperationReceipt {
        owner: value.owner,
        kind: OperationKind::ApproveModelRoute,
        idempotency_key: idempotency.key,
        request_digest: idempotency.request_digest,
        result_id: value.id,
    };
    Ok(Created::New(value, receipt))
}

/// The approval `route` once revoked at `now`: the next revision, which
/// saturates, and the revocation instant.
pub open spec fn revoked_route(route: ModelRouteApproval, now: i64) -> ModelRouteApproval {
    ModelRouteApproval {
        revision: if route.revision == u64::MAX {
            u64::MAX
        } else {
            (route.revision + 1) as u64
        },
        revoked_at: Some(now),
        ..route
    }
}

/// Revokes the owner's route approval `route_id` at its expected revision
/// for a bounded, printable reason.
pub fn revoke_model_route(
    assurance: ClientAssurance,
    routes: &Vec<ModelRouteApproval>,
    route_id: u128,
    expected_revision: u64,
    reason: &str,
    now: i64,
) -> (r: Result<ModelRouteApproval, SecondMindError>)
    ensures
        !assurance.spec_permits_private() ==> fails_with(r, SecondMindErrorCode::PermissionDenied),
        assurance.spec_permits_private() ==> match crate::focus::first_route(routes@, route_id) {
            None => fails_plain(r, SecondMindErrorCode::NotFound, "The model route approval was not found.", false),
            Some(k) => if routes@[k].revision != expected_revision {
                r == Err::<ModelRouteApproval, SecondMindError>(SecondMindError::spec_conflict(routes@[k].revision))
            } else if !crate::validation::text_ok(reason@, 1, 120) {
                fails_plain(r, SecondMindErrorCode::InvalidArgument, "The revocation reason is invalid.", false)
            } else {
                r matches Ok(a) && same_route(a, revoked_route(routes@[k], now))
            },
        },
{
    require_private(assurance)?;
    let k = match crate::focus::find_route_approval(routes, route_id) {
        Some(k) => k,
        None => return Err(SecondMindError::not_found("The model route approval was not found.")),
    };
    let current = &routes[k];
    if current.revision != expected_revision {
        return Err(SecondMindError::conflict(current.revision));
    }
    validate_text(reason, 1, 120, "The revocation reason is invalid.")?;
    let mut route = copy_route(current);
    route.revision = current.revision.saturating_add(1);
    route.revoked_at = Some(now);
    Ok(route)
}

/// The positions of the working sessions that rely on route `route_id`,
/// which end when the route is revoked.
pub fn sessions_on_route(sessions: &Vec<FocusSession>, route_id: u128) -> (r: Vec<usize>)
    ensures
        forall|j: int| 0 <= j < r@.len() ==> (#[trigger] r@[j]) < sessions@.len(),
        forall|j: int, m: int| 0 <= j < m < r@.len() ==> r@[j] < r@[m],
        forall|k: int|
            0 <= k < sessions@.len() ==> (r@.contains(k as usize) <==> ((#[trigger] sessions@[k]).model_route_approval_id
                == route_id && sessions@[k].state.spec_is_working())),
{
    let mut out: Vec<usize> = Vec::new();
    let mut i: usize = 0;
    while i < sessions.len()
        invariant
            i <= sessions@.len(),
            forall|j: int| 0 <= j < out@.len() ==> (#[trigger] out@[j]) < i,
            forall|j: int, m: int| 0 <= j < m < out@.len() ==> out@[j] < out@[m],
            forall|k: int|
                0 <= k < i ==> (out@.contains(k as usize) <==> ((#[trigger] sessions@[k]).model_route_approval_id
                    == route_id && sessions@[k].state.spec_is_working())),
        decreases sessions@.len() - i,
    {
        let ghost before = out@;
        if sessions[i].model_route_approval_id == route_id && sessions[i].state.is_working() {
            out.push(i);
            assert(out@[before.len() as int] == i);
        }
        assert forall|k: int|
            0 <= k < i + 1 implies (out@.contains(k as usize) <==> ((#[trigger] sessions@[k]).model_route_approval_id
                == route_id && sessions@[k].state.spec_is_working())) by {
            if k < i {
                if out@.contains(k as usize) {
                    let j = choose|j: int| 0 <= j < out@.len() && out@[j] == k as usize;
                    if j == before.len() {
                    } else {
                        assert(before[j] == k as usize);
                        assert(before.contains(k as usize));
                    }
                }
                if before.contains(k as usize) {
                    let j = choose|j: int| 0 <= j < before.len() && before[j] == k as usize;
                    assert(out@[j] == k as usize);
                }
            } else {
                if out@.contains(k as usize) {
                    let j = choose|j: int| 0 <= j < out@.len() && out@[j] == k as usize;
                    if j < before.len() {
                        assert(before[j] < i);
                    }
                }
            }
        }
        i = i + 1;
    }
    out
}

/// One step of revoking a model route, in the order the steps run.
#[derive(Clone, Copy, Debug, PartialEq, Eq, Structural)]
pub enum RouteRevocationAction {
    /// Save the revoked route at its expected revision.
    SaveRevokedRoute,
    /// Cancel the session's queued deliveries and end it because a required
    /// permission was revoked.
    EndSession(u128),
    /// Delete the route's native credential.
    DeleteSecret,
}

/// The steps of revoking route `route_id`: the revoked route is saved
/// first, then each working session on it ends, in order, and only then is
/// the credential deleted.
pub open spec fn route_revocation_plan(sessions: Seq<FocusSession>, route_id: u128) -> Seq<RouteRevocationAction> {
    seq![RouteRevocationAction::SaveRevokedRoute] + sessions.filter(
        |s: FocusSession| s.model_route_approval_id == route_id && s.state.spec_is_working(),
    ).map_values(|s: FocusSession| RouteRevocationAction::EndSession(s.id)) + seq![RouteRevocationAction::DeleteSecret]
}

/// Lists the steps that follow a valid revocation of route `route_id`.
pub fn route_revocation_actions(sessions: &Vec<FocusSession>, route_id: u128) -> (r: Vec<RouteRevocationAction>)
    ensures
        r@ == route_revocation_plan(sessions@, route_id),
{
    let mut out: Vec<RouteRevocationAction> = Vec::new();
    out.push(RouteRevocationAction::SaveRevokedRoute);
    let mut i: usize = 0;
    while i < sessions.len()
        invariant
            i <= sessions@.len(),
            out@ == seq![RouteRevocationAction::SaveRevokedRoute] + sessions@.subrange(0, i as int).filter(
                |s: FocusSession| s.model_route_approval_id == route_id && s.state.spec_is_working(),
            ).map_values(|s: FocusSession| RouteRevocationAction::EndSession(s.id)),
        decreases sessions@.len() - i,
    {
        proof {
            reveal(Seq::filter);
            assert(sessions@.subrange(0, (i + 1) as int).drop_last() == sessions@.subrange(0, i as int));
        }
        if sessions[i].model_route_approval_id == route_id && sessions[i].state.is_working() {
            let ghost before = out@;
            out.push(RouteRevocationAction::EndSession(sessions[i].id));
            let ghost mid = sessions@.subrange(0, i as int).filter(
                |s: FocusSession| s.model_route_approval_id == route_id && s.state.spec_is_working(),
            );
            assert(mid.push(sessions@[i as int]).map_values(|s: FocusSession| RouteRevocationAction::EndSession(s.id))
                == mid.map_values(|s: FocusSession| RouteRevocationAction::EndSession(s.id)).push(
                RouteRevocationAction::EndSession(sessions@[i as int].id),
            ));
            assert(out@ == before.push(RouteRevocationAction::EndSession(sessions@[i as int].id)));
        }
        i = i + 1;
    }
    assert(sessions@.subrange(0, i as int) == sessions@);
    out.push(RouteRevocationAction::DeleteSecret);
    out
}

/// The outcome of deleting a revoked route's credential: a failure is
/// reported as unavailable, while the route stays revoked.
pub fn secret_deletion_outcome(deleted: bool) -> (r: Result<(), SecondMindError>)
    ensures
        r is Ok <==> deleted,
        !deleted ==> fails_plain(
            r,
            SecondMindErrorCode::Unavailable,
            "The model route is revoked, but its native credential could not be deleted.",
            true,
        ),
{
    if deleted {
        Ok(())
    } else {
        Err(SecondMindError::unavailable("The model route is revoked, but its native credential could not be deleted."))
    }
}

/// Revoking a route saves the revoked route before anything else, deletes
/// its credential only after every working session on it has ended, and
/// ends exactly those sessions.
pub proof fn law_route_saved_before_its_secret_is_deleted(sessions: Seq<FocusSession>, route_id: u128)
    ensures
        route_revocation_plan(sessions, route_id)[0] == RouteRevocationAction::SaveRevokedRoute,
        route_revocation_plan(sessions, route_id).last() == RouteRevocationAction::DeleteSecret,
        forall|i: int|
            0 <= i < route_revocation_plan(sessions, route_id).len() - 1 ==> !(#[trigger] route_revocation_plan(
                sessions,
                route_id,
            )[i] is DeleteSecret),
        forall|i: int|
            0 < i < route_revocation_plan(sessions, route_id).len() ==> !(#[trigger] route_revocation_plan(
                sessions,
                route_id,
            )[i] is SaveRevokedRoute),
        forall|id: u128|
            route_revocation_plan(sessions, route_id).contains(RouteRevocationAction::EndSession(id)) <==> exists|k: int|
                0 <= k < sessions.len() && (#[trigger] sessions[k]).id == id && sessions[k].model_route_approval_id
                    == route_id && sessions[k].state.spec_is_working(),
{
    let f = sessions.filter(|s: FocusSession| s.model_route_approval_id == route_id && s.state.spec_is_working());
    let m = f.map_values(|s: FocusSession| RouteRevocationAction::EndSession(s.id));
    let p = route_revocation_plan(sessions, route_id);
    assert(p == seq![RouteRevocationAction::SaveRevokedRoute] + m + seq![RouteRevocationAction::DeleteSecret]);
    assert(p.len() == m.len() + 2);
    assert forall|i: int| 0 < i < p.len() - 1 implies p[i] == m[i - 1] by {}
    assert forall|id: u128| p.contains(RouteRevocationAction::EndSession(id)) <==> exists|k: int|
        0 <= k < sessions.len() && (#[trigger] sessions[k]).id == id && sessions[k].model_route_approval_id == route_id
            && sessions[k].state.spec_is_working() by {
        if p.contains(RouteRevocationAction::EndSession(id)) {
            let i = choose|i: int| 0 <= i < p.len() && p[i] == RouteRevocationAction::EndSession(id);
            assert(0 < i < p.len() - 1);
            assert(m[i - 1] == RouteRevocationAction::EndSession(f[i - 1].id));
            let pred = |s: FocusSession| s.model_route_approval_id == route_id && s.state.spec_is_working();
            sessions.lemma_filter_pred(pred, i - 1);
            sessions.lemma_filter_contains_rev(pred, f[i - 1]);
            let k = choose|k: int| 0 <= k < sessions.len() && sessions[k] == f[i - 1];
            assert(sessions[k].id == id);
        }
        if exists|k: int| 0 <= k < sessions.len() && (#[trigger] sessions[k]).id == id
            && sessions[k].model_route_approval_id == route_id && sessions[k].state.spec_is_working() {
            let k = choose|k: int| 0 <= k < sessions.len() && (#[trigger] sessions[k]).id == id
                && sessions[k].model_route_approval_id == route_id && sessions[k].state.spec_is_working();
            sessions.lemma_filter_contains(
                |s: FocusSession| s.model_route_approval_id == route_id && s.state.spec_is_working(),
                k,
            );
            let j = choose|j: int| 0 <= j < f.len() && f[j] == sessions[k];
            assert(p[j + 1] == RouteRevocationAction::EndSession(id));
        }
    }
}

proof fn lemma_first_receipt_push(
    receipts: Seq<OperationReceipt>,
    x: OperationReceipt,
    owner: u128,
    kind: OperationKind,
    key: u128,
)
    requires
        first_receipt(receipts, owner, kind, key) is None,
    ensures
        first_receipt(receipts.push(x), owner, kind, key) == if receipt_for(x, owner, kind, key) {
            Some(x)
        } else {
            None
        },
    decreases receipts.len(),
{
    let pushed = receipts.push(x);
    if receipts.len() > 0 {
        assert(pushed[0] == receipts[0]);
        assert(!receipt_for(receipts[0], owner, kind, key));
        assert(pushed.drop_first() == receipts.drop_first().push(x));
        lemma_first_receipt_push(receipts.drop_first(), x, owner, kind, key);
    } else {
        assert(pushed[0] == x);
        assert(pushed.drop_first() == Seq::<OperationReceipt>::empty());
        assert(first_receipt(pushed.drop_first(), owner, kind, key) is None);
    }
}

/// Once a command's receipt is recorded, replaying the command with the same
/// input returns the record it created, and reusing its key for different
/// input is a conflict that names no revision.
pub proof fn law_recorded_receipt_replays(
    receipts: Seq<OperationReceipt>,
    owner: u128,
    kind: OperationKind,
    idempotency: IdempotencyContext,
    result_id: u128,
    other: IdempotencyContext,
)
    requires
        first_receipt(receipts, owner, kind, idempotency.key) is None,
        other.key == idempotency.key,
        other.request_digest@ != idempotency.request_digest@,
    ensures
        replay_of(receipts.push(receipt_of(owner, kind, idempotency, result_id)), owner, kind, idempotency) == Ok::<
            Option<u128>,
            SecondMindError,
        >(Some(result_id)),
        replay_of(receipts.push(receipt_of(owner, kind, idempotency, result_id)), owner, kind, other) matches Err(e)
            && e.code == SecondMindErrorCode::Conflict && e.current_revision is None,
{
    lemma_first_receipt_push(receipts, receipt_of(owner, kind, idempotency, result_id), owner, kind, idempotency.key);
}


/// A grant created under an idempotency key is what a retry with the same
/// key and input gets back, with no new grant and no new receipt, whatever
/// identifier the retry would have drawn; the same key with other input is
/// a conflict.
pub proof fn law_grant_replay_returns_the_created_grant(
    assurance: ClientAssurance,
    command: GrantPermission,
    now: i64,
    new_id: u128,
    goals: Seq<Goal>,
    resource_ids: Seq<u128>,
    receipts: Seq<OperationReceipt>,
    grants: Seq<PermissionGrant>,
    g: PermissionGrant,
    receipt: OperationReceipt,
    retry: GrantPermission,
    later: i64,
    retry_id: u128,
    retry_goals: Seq<Goal>,
    retry_resource_ids: Seq<u128>,
    r: Result<Created<PermissionGrant>, SecondMindError>,
)
    requires
        assurance.spec_permits_private(),
        first_receipt(receipts, command.owner, OperationKind::GrantSessionPermission, command.idempotency.key) is None,
        forall|j: int| 0 <= j < grants.len() ==> (#[trigger] grants[j]).id != new_id,
        grant_decided(
            assurance,
            command,
            now,
            new_id,
            goals,
            resource_ids,
            receipts,
            grants,
            Ok(Created::New(g, receipt)),
        ),
        retry.owner == command.owner,
        retry.idempotency.key == command.idempotency.key,
        grant_decided(
            assurance,
            retry,
            later,
            retry_id,
            retry_goals,
            retry_resource_ids,
            receipts.push(receipt),
            grants.push(g),
            r,
        ),
    ensures
        retry.idempotency.request_digest@ == command.idempotency.request_digest@ ==> r == Ok::<
            Created<PermissionGrant>,
            SecondMindError,
        >(Created::Replayed(g)),
        retry.idempotency.request_digest@ != command.idempotency.request_digest@ ==> (r matches Err(e) && e.code
            == SecondMindErrorCode::Conflict),
{
    let kind = OperationKind::GrantSessionPermission;
    assert(g.id == new_id);
    lemma_first_receipt_push(receipts, receipt, command.owner, kind, command.idempotency.key);
    assert(receipt == receipt_of(command.owner, kind, command.idempotency, new_id));
    let grants2 = grants.push(g);
    assert(grants2[grants.len() as int].id == new_id);
    let k = choose|k: int|
        0 <= k < grants2.len() && grants2[k].id == new_id && forall|m: int| 0 <= m < k ==> grants2[m].id != new_id;
    if k < grants.len() {
        assert(grants2[k] == grants[k]);
    }
    assert(first_grant(grants2, new_id) == Some(grants.len() as int));
}

/// A route approval created under an idempotency key is what a retry with
/// the same key and input gets back, whatever identifier the retry names,
/// with no new receipt; the same key with other input is a conflict.
pub proof fn law_route_replay_returns_the_created_approval(
    assurance: ClientAssurance,
    idempotency: IdempotencyContext,
    value: ModelRouteApproval,
    now: i64,
    receipts: Seq<OperationReceipt>,
    routes: Seq<ModelRouteApproval>,
    a: ModelRouteApproval,
    receipt: OperationReceipt,
    retry_idempotency: IdempotencyContext,
    retry: ModelRouteApproval,
    later: i64,
    r: Result<Created<ModelRouteApproval>, SecondMindError>,
)
    requires
        assurance.spec_permits_private(),
        first_receipt(receipts, value.owner, OperationKind::ApproveModelRoute, idempotency.key) is None,
        forall|j: int| 0 <= j < routes.len() ==> (#[trigger] routes[j]).id != value.id,
        route_decided(assurance, idempotency, value, now, receipts, routes, Ok(Created::New(a, receipt))),
        retry.owner == value.owner,
        retry_idempotency.key == idempotency.key,
        route_decided(assurance, retry_idempotency, retry, later, receipts.push(receipt), routes.push(a), r),
    ensures
        retry_idempotency.request_digest@ == idempotency.request_digest@ ==> (r matches Ok(Created::Replayed(b))
            && same_route(b, a)),
        retry_idempotency.request_digest@ != idempotency.request_digest@ ==> (r matches Err(e) && e.code
            == SecondMindErrorCode::Conflict),
{
    let kind = OperationKind::ApproveModelRoute;
    lemma_first_receipt_push(receipts, receipt, value.owner, kind, idempotency.key);
    let routes2 = routes.push(a);
    assert(routes2[routes.len() as int].id == value.id);
    let k = choose|k: int|
        0 <= k < routes2.len() && routes2[k].id == value.id && forall|m: int| 0 <= m < k ==> routes2[m].id != value.id;
    if k < routes.len() {
        assert(routes2[k] == routes[k]);
    }
    assert(crate::focus::first_route(routes2, value.id) == Some(routes.len() as int));
}

} // verus!
