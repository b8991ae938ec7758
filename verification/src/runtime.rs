//! The second-mind runtime's command records, results and unavailable ports.

use vstd::prelude::*;
use crate::gates::{ObservationStamp, fresh, retain_fresh};
use crate::model::{FocusSession, FocusSessionState, PermissionGrant};
use crate::view_publication::InterventionView;

verus! {

/// The idempotency key of a mutating command and the digest of its input.
#[derive(Clone, Copy, Debug, PartialEq, Eq)]
pub struct IdempotencyContext {
    pub key: u128,
    pub request_digest: [u8; 32],
}

/// A request to start a focus session.
#[derive(Clone, Debug, PartialEq, Eq)]
pub struct StartFocusSession {
    pub idempotency: IdempotencyContext,
    pub owner: u128,
    pub session_id: u128,
    pub goal_id: u128,
    pub expected_goal_revision: u64,
    pub selected_resource_ids: Vec<u128>,
    pub grant_ids: Vec<u128>,
    pub model_route_approval_id: u128,
    pub client_disconnect_allowed: bool,
    pub daemon_restart_allowed: bool,
}

/// Why a focus session ends.
#[derive(Clone, Copy, Debug, PartialEq, Eq, Structural)]
pub enum EndFocusReason {
    UserRequested,
    GoalCompleted,
    GoalAbandoned,
    GoalDeleted,
    RequiredPermissionRevoked,
    EmergencyStop,
    Expired,
}

impl EndFocusReason {
    /// The failure reason an ending session records: `ending_` and the
    /// reason's name in lower case.
    pub open spec fn spec_ending_code(self) -> &'static str {
        match self {
            EndFocusReason::UserRequested => "ending_userrequested",
            EndFocusReason::GoalCompleted => "ending_goalcompleted",
            EndFocusReason::GoalAbandoned => "ending_goalabandoned",
            EndFocusReason::GoalDeleted => "ending_goaldeleted",
            EndFocusReason::RequiredPermissionRevoked => "ending_requiredpermissionrevoked",
            EndFocusReason::EmergencyStop => "ending_emergencystop",
            EndFocusReason::Expired => "ending_expired",
        }
    }

    /// The failure reason an ending session records.
    pub fn ending_code(self) -> (s: &'static str)
        ensures
            s == self.spec_ending_code(),
    {
        match self {
            EndFocusReason::UserRequested => "ending_userrequested",
            EndFocusReason::GoalCompleted => "ending_goalcompleted",
            EndFocusReason::GoalAbandoned => "ending_goalabandoned",
            EndFocusReason::GoalDeleted => "ending_goaldeleted",
            EndFocusReason::RequiredPermissionRevoked => "ending_requiredpermissionrevoked",
            EndFocusReason::EmergencyStop => "ending_emergencystop",
            EndFocusReason::Expired => "ending_expired",
        }
    }
}

/// The outcome of one reasoning cycle.
#[derive(Clone, Debug, PartialEq, Eq)]
pub enum ReasoningCycleResult {
    Silence { reason_code: String },
    Intervention(Box<InterventionView>),
}

/// What one retention sweep removed.
#[derive(Clone, Copy, Debug, PartialEq, Eq, Structural)]
pub struct RetentionMaintenanceResult {
    pub removed_observations: usize,
    pub purged_audit_records: u64,
}

/// Whether a platform port can be used.
#[derive(Clone, Copy, Debug, PartialEq, Eq)]
pub enum PlatformPortAvailability {
    Available,
    Unavailable { reason: &'static str },
}

/// The observation port of a runtime with no observation adapter.
#[derive(Clone, Copy, Debug, PartialEq, Eq, Structural)]
pub struct UnavailableObservationPort;

impl UnavailableObservationPort {
    /// Always unavailable.
    pub fn availability(&self) -> (a: PlatformPortAvailability)
        ensures
            a == (PlatformPortAvailability::Unavailable { reason: "No observation adapter is configured." }),
    {
        PlatformPortAvailability::Unavailable { reason: "No observation adapter is configured." }
    }
}

/// The model gateway of a runtime with no model route adapter.
#[derive(Clone, Copy, Debug, PartialEq, Eq, Structural)]
pub struct UnavailableModelGateway;

impl UnavailableModelGateway {
    /// Always unavailable.
    pub fn availability(&self) -> (a: PlatformPortAvailability)
        ensures
            a == (PlatformPortAvailability::Unavailable { reason: "No model route adapter is configured." }),
    {
        PlatformPortAvailability::Unavailable { reason: "No model route adapter is configured." }
    }
}

/// The total number of observations that fail freshness across sessions,
/// saturating at the largest `usize`.
pub open spec fn stale_total(sessions: Seq<Vec<ObservationStamp>>, now: i64, ttl: u64) -> nat
    decreases sessions.len(),
{
    if sessions.len() == 0 {
        0
    } else {
        stale_total(sessions.drop_last(), now, ttl) + (sessions.last()@.len() - sessions.last()@.filter(
            |o: ObservationStamp| fresh(o.observed_at, now, ttl),
        ).len()) as nat
    }
}

proof fn lemma_filter_len_le(s: Seq<ObservationStamp>, now: i64, ttl: u64)
    ensures
        s.filter(|o: ObservationStamp| fresh(o.observed_at, now, ttl)).len() <= s.len(),
    decreases s.len(),
{
    reveal(Seq::filter);
    if s.len() > 0 {
        lemma_filter_len_le(s.drop_last(), now, ttl);
    }
}

/// The observation part of a retention sweep: every session keeps exactly
/// its fresh observations, with no new ingestion needed to trigger removal,
/// and the number removed is reported (saturating).
pub fn sweep_observations(sessions: &Vec<Vec<ObservationStamp>>, now: i64, ttl: u64) -> (r: (Vec<Vec<ObservationStamp>>, usize))
    ensures
        r.0@.len() == sessions@.len(),
        forall|i: int|
            0 <= i < sessions@.len() ==> (#[trigger] r.0@[i])@ == sessions@[i]@.filter(
                |o: ObservationStamp| fresh(o.observed_at, now, ttl),
            ),
        r.1 == (if stale_total(sessions@, now, ttl) > usize::MAX {
            usize::MAX as nat
        } else {
            stale_total(sessions@, now, ttl)
        }),
{
    let mut kept: Vec<Vec<ObservationStamp>> = Vec::new();
    let mut removed: usize = 0;
    let mut i: usize = 0;
    while i < sessions.len()
        invariant
            i <= sessions@.len(),
            kept@.len() == i,
            forall|k: int|
                0 <= k < i ==> (#[trigger] kept@[k])@ == sessions@[k]@.filter(
                    |o: ObservationStamp| fresh(o.observed_at, now, ttl),
                ),
            removed == (if stale_total(sessions@.subrange(0, i as int), now, ttl) > usize::MAX {
                usize::MAX as nat
            } else {
                stale_total(sessions@.subrange(0, i as int), now, ttl)
            }),
        decreases sessions@.len() - i,
    {
        let (fresh_ones, n) = retain_fresh(&sessions[i], now, ttl);
        assert(sessions@.subrange(0, (i + 1) as int).drop_last() == sessions@.subrange(0, i as int));
        assert(sessions@.subrange(0, (i + 1) as int).last() == sessions@[i as int]);
        removed = if removed > usize::MAX - n {
            usize::MAX
        } else {
            removed + n
        };
        let ghost before = kept@;
        kept.push(fresh_ones);
        assert forall|k: int| 0 <= k < i + 1 implies (#[trigger] kept@[k])@ == sessions@[k]@.filter(
            |o: ObservationStamp| fresh(o.observed_at, now, ttl),
        ) by {
            if k < i {
                assert(kept@[k] == before[k]);
            }
        }
        i = i + 1;
    }
    assert(sessions@.subrange(0, i as int) == sessions@);
    (kept, removed)
}

/// The sessions a reasoning tick visits: the active ones, in order.
pub fn sessions_to_reason(sessions: &Vec<FocusSession>) -> (r: Vec<u128>)
    ensures
        r@ == sessions@.filter(|s: FocusSession| s.state is Active).map_values(|s: FocusSession| s.id),
{
    let mut out: Vec<u128> = Vec::new();
    let mut i: usize = 0;
    while i < sessions.len()
        invariant
            i <= sessions@.len(),
            out@ == sessions@.subrange(0, i as int).filter(|s: FocusSession| s.state is Active).map_values(
                |s: FocusSession| s.id,
            ),
        decreases sessions@.len() - i,
    {
        proof {
            reveal(Seq::filter);
            assert(sessions@.subrange(0, (i + 1) as int).drop_last() == sessions@.subrange(0, i as int));
        }
        match sessions[i].state {
            FocusSessionState::Active => {
                let ghost before = out@;
                out.push(sessions[i].id);
                assert(out@ == before.push(sessions@[i as int].id));
            },
            _ => {},
        }
        i = i + 1;
    }
    assert(sessions@.subrange(0, i as int) == sessions@);
    out
}

/// The sessions whose significance a goal's state change marks: the active
/// sessions of that goal, in order.
pub fn goal_change_affected_sessions(sessions: &Vec<FocusSession>, goal_id: u128) -> (r: Vec<u128>)
    ensures
        r@ == sessions@.filter(|s: FocusSession| s.goal_id == goal_id && s.state is Active).map_values(
            |s: FocusSession| s.id,
        ),
{
    let mut out: Vec<u128> = Vec::new();
    let mut i: usize = 0;
    while i < sessions.len()
        invariant
            i <= sessions@.len(),
            out@ == sessions@.subrange(0, i as int).filter(
                |s: FocusSession| s.goal_id == goal_id && s.state is Active,
            ).map_values(|s: FocusSession| s.id),
        decreases sessions@.len() - i,
    {
        proof {
            reveal(Seq::filter);
            assert(sessions@.subrange(0, (i + 1) as int).drop_last() == sessions@.subrange(0, i as int));
        }
        if sessions[i].goal_id == goal_id {
            match sessions[i].state {
                FocusSessionState::Active => {
                    let ghost before = out@;
                    out.push(sessions[i].id);
                    assert(out@ == before.push(sessions@[i as int].id));
                },
                _ => {},
            }
        }
        i = i + 1;
    }
    assert(sessions@.subrange(0, i as int) == sessions@);
    out
}

/// Whether `grants` holds an observation grant with this identifier.
pub open spec fn is_observation_grant(grants: Seq<PermissionGrant>, id: u128) -> bool {
    exists|j: int| 0 <= j < grants.len() && (#[trigger] grants[j]).id == id && grants[j].scope.spec_is_observation()
}

fn observation_grant_listed(grants: &Vec<PermissionGrant>, id: u128) -> (r: bool)
    ensures
        r == is_observation_grant(grants@, id),
{
    let mut j: usize = 0;
    while j < grants.len()
        invariant
            j <= grants@.len(),
            forall|k: int| 0 <= k < j ==> !((#[trigger] grants@[k]).id == id && grants@[k].scope.spec_is_observation()),
        decreases grants@.len() - j,
    {
        if grants[j].id == id && grants[j].scope.is_observation() {
            return true;
        }
        j = j + 1;
    }
    false
}

/// The observation adapters that deleting a session's goal must stop: the
/// session's grants, in its order, that the deleted grants name as
/// observation grants.
pub fn deleted_session_stop_grants(session: &FocusSession, grants: &Vec<PermissionGrant>) -> (r: Vec<u128>)
    ensures
        r@ == session.permission_grant_ids@.filter(|id: u128| is_observation_grant(grants@, id)),
{
    let ids = &session.permission_grant_ids;
    let mut out: Vec<u128> = Vec::new();
    let mut i: usize = 0;
    while i < ids.len()
        invariant
            i <= ids@.len(),
            out@ == ids@.subrange(0, i as int).filter(|id: u128| is_observation_grant(grants@, id)),
        decreases ids@.len() - i,
    {
        proof {
            reveal(Seq::filter);
            assert(ids@.subrange(0, (i + 1) as int).drop_last() == ids@.subrange(0, i as int));
        }
        if observation_grant_listed(grants, ids[i]) {
            out.push(ids[i]);
        }
        i = i + 1;
    }
    assert(ids@.subrange(0, i as int) == ids@);
    out
}

/// When an audit record was written and when retention removes it.
#[derive(Clone, Copy, Debug, PartialEq, Eq, Structural)]
pub struct AuditStamp {
    pub id: u128,
    pub owner: u128,
    pub occurred_at: i64,
    pub expires_at: i64,
}

/// The stamp of an audit record written at `now`: it expires once the
/// audit lifetime has passed.
pub fn audit_stamp(id: u128, owner: u128, now: i64, audit_ttl: u64) -> (a: AuditStamp)
    requires
        now + audit_ttl <= i64::MAX,
    ensures
        a.id == id && a.owner == owner && a.occurred_at == now && a.expires_at == now + audit_ttl,
{
    AuditStamp { id, owner, occurred_at: now, expires_at: (now as i128 + audit_ttl as i128) as i64 }
}

/// Whether retention still keeps an audit record at `now`: only before it
/// expires.
pub open spec fn audit_kept(a: AuditStamp, now: i64) -> bool {
    now < a.expires_at
}

/// Removes the audit records that expired by `now`, at the expiry instant
/// itself included, and reports how many it removed.
pub fn purge_expired_audit(records: &Vec<AuditStamp>, now: i64) -> (r: (Vec<AuditStamp>, u64))
    ensures
        r.0@ == records@.filter(|a: AuditStamp| audit_kept(a, now)),
        r.1 == records@.len() - r.0@.len(),
{
    let mut kept: Vec<AuditStamp> = Vec::new();
    let mut purged: u64 = 0;
    let mut i: usize = 0;
    while i < records.len()
        invariant
            i <= records@.len(),
            kept@ == records@.subrange(0, i as int).filter(|a: AuditStamp| audit_kept(a, now)),
            purged == i - kept@.len(),
            kept@.len() <= i,
        decreases records@.len() - i,
    {
        let a = records[i];
        proof {
            reveal(Seq::filter);
            assert(records@.subrange(0, (i + 1) as int).drop_last() == records@.subrange(0, i as int));
            assert(records@.subrange(0, (i + 1) as int).last() == a);
        }
        if now < a.expires_at {
            kept.push(a);
        } else {
            purged = purged + 1;
        }
        i = i + 1;
    }
    assert(records@.subrange(0, i as int) == records@);
    (kept, purged)
}

} // verus!
