//! Capture authority while a session runs: native status heartbeats, source
//! health reports, the loss of native status control, and the evidence that
//! ends recovery.

use vstd::prelude::*;
use crate::errors::{SecondMindError, SecondMindErrorCode, fails_plain};
use crate::focus::{lifecycle_fields, lifecycle_step, resolved_grants};
use crate::evidence::{NativeResourceStatus, ResourceBinding, resource_statuses, spec_resource_statuses};
use crate::model::{FocusSession, FocusSessionState, PermissionGrant, PermissionScope, PresenceState, SourceHealth};
use crate::text::trimmed;
use crate::validation::{NativeStatusStamp, SourceStatusClaim, first_grant, validate_source_status};

verus! {

/// A heartbeat the native status surface emits while it shows capture.
#[derive(Clone, Copy, Debug, PartialEq, Eq, Structural)]
pub struct NativeStatusHeartbeat {
    pub session_id: u128,
    pub revision: u64,
    pub emitted_at: i64,
}

/// What the runtime remembers of a live session's native status.
#[derive(Clone, Copy, Debug, PartialEq, Eq, Structural)]
pub struct HeartbeatTrack {
    /// The status revision the surface last acknowledged.
    pub native_status_revision: Option<u64>,
    /// When the last accepted heartbeat was emitted.
    pub last_heartbeat_at: Option<i64>,
}

/// Whether a heartbeat matches current capture authority at `now`: for this
/// session at the acknowledged revision, emitted no later than `now` and at
/// most `timeout_ms` before it, and not before the last accepted one.
pub open spec fn heartbeat_current(
    session_id: u128,
    track: HeartbeatTrack,
    heartbeat: NativeStatusHeartbeat,
    now: i64,
    timeout_ms: u64,
) -> bool {
    &&& heartbeat.session_id == session_id
    &&& track.native_status_revision == Some(heartbeat.revision)
    &&& heartbeat.emitted_at <= now && now - heartbeat.emitted_at <= timeout_ms
    &&& !(track.last_heartbeat_at matches Some(p) && heartbeat.emitted_at < p)
}

/// Checks a native status heartbeat against the live session's track,
/// which is `None` once the session is no longer live. An accepted
/// heartbeat becomes the last one.
pub fn validate_native_status_heartbeat(
    session_id: u128,
    track: Option<HeartbeatTrack>,
    heartbeat: NativeStatusHeartbeat,
    now: i64,
    timeout_ms: u64,
) -> (r: Result<HeartbeatTrack, SecondMindError>)
    ensures
        match track {
            None => fails_plain(r, SecondMindErrorCode::PermissionDenied, "The native status session is no longer active.", false),
            Some(t) => if heartbeat_current(session_id, t, heartbeat, now, timeout_ms) {
                r == Ok::<HeartbeatTrack, SecondMindError>(HeartbeatTrack { last_heartbeat_at: Some(heartbeat.emitted_at), ..t })
            } else {
                fails_plain(
                    r,
                    SecondMindErrorCode::PermissionDenied,
                    "The native status heartbeat does not match current capture authority.",
                    false,
                )
            },
        },
{
    let t = match track {
        Some(t) => t,
        None => return Err(SecondMindError::permission("The native status session is no longer active.")),
    };
    let monotonic = match t.last_heartbeat_at {
        Some(p) => heartbeat.emitted_at >= p,
        None => true,
    };
    let age: i128 = now as i128 - heartbeat.emitted_at as i128;
    if heartbeat.session_id != session_id || t.native_status_revision != Some(heartbeat.revision) || age < 0
        || age > timeout_ms as i128 || !monotonic
    {
        return Err(SecondMindError::permission("The native status heartbeat does not match current capture authority."));
    }
    Ok(HeartbeatTrack { last_heartbeat_at: Some(heartbeat.emitted_at), ..t })
}

/// Whether the session names grant `id`.
pub open spec fn names_grant(session: FocusSession, id: u128) -> bool {
    session.permission_grant_ids@.contains(id)
}

/// A source health report, with the health and instant it carries.
#[derive(Clone, Debug, PartialEq, Eq)]
pub struct SourceHealthReport {
    pub claim: SourceStatusClaim,
    pub health: SourceHealth,
    pub observed_at: i64,
}

/// Checks a source health report for a session at `now`: the session must
/// still work and name the grant, the grant must exist and the report lie
/// within it, and the report may be at most a second ahead of `now`.
pub fn check_source_report(
    session: &FocusSession,
    grants: &Vec<PermissionGrant>,
    grant_id: u128,
    report: &SourceHealthReport,
    now: i64,
) -> (r: Result<(), SecondMindError>)
    ensures
        if !session.state.spec_is_working() || !names_grant(*session, grant_id) {
            fails_plain(r, SecondMindErrorCode::PermissionDenied, "Late source health for an inactive session was rejected.", false)
        } else {
            match first_grant(grants@, grant_id) {
                None => fails_plain(r, SecondMindErrorCode::PermissionDenied, "The source grant is missing.", false),
                Some(k) => {
                    let g = grants@[k];
                    let c = report.claim;
                    if !(trimmed(c.source_id@).len() > 0 && c.grant_id == g.id && c.scope == g.scope && c.resource_id
                        == g.selected_resource_id) {
                        fails_plain(
                            r,
                            SecondMindErrorCode::PermissionDenied,
                            "The observation source status is outside its grant.",
                            false,
                        )
                    } else if report.observed_at > now + 1000 {
                        fails_plain(r, SecondMindErrorCode::InvalidArgument, "The source health timestamp is invalid.", false)
                    } else {
                        r is Ok
                    }
                },
            }
        },
{
    if !session.state.is_working() || !crate::focus::contains_id(&session.permission_grant_ids, grant_id) {
        return Err(SecondMindError::permission("Late source health for an inactive session was rejected."));
    }
    let k = match crate::validation::find_grant(grants, grant_id) {
        Ok(k) => k,
        Err(_) => return Err(SecondMindError::permission("The source grant is missing.")),
    };
    proof {
        crate::sessions::lemma_first_grant_is(grants@, grant_id, k as int);
    }
    validate_source_status(&grants[k], &report.claim)?;
    if report.observed_at as i128 > now as i128 + 1000 {
        return Err(SecondMindError::invalid("The source health timestamp is invalid."));
    }
    Ok(())
}

/// Whether some reported source is not healthy.
pub open spec fn any_degraded(health: Seq<SourceHealth>) -> bool {
    exists|k: int| 0 <= k < health.len() && health[k] != SourceHealth::Healthy
}

/// The session after its sources' health changed: when the degraded flag
/// must change, under the next revision (which saturates) and updated at
/// `now`; otherwise unchanged. Returns whether a record must be saved.
pub fn apply_source_health(session: &FocusSession, health: &Vec<SourceHealth>, now: i64) -> (r: (FocusSession, bool))
    ensures
        r.1 == (session.source_degraded != any_degraded(health@)),
        r.1 ==> lifecycle_fields(
            *session,
            r.0,
            session.state,
            any_degraded(health@),
            session.started_at,
            session.ended_at,
            session.failure_reason,
            now,
        ) && r.0.revision == (if session.revision == u64::MAX {
            u64::MAX
        } else {
            (session.revision + 1) as u64
        }),
        !r.1 ==> crate::sessions::same_session(r.0, *session),
{
    let mut degraded = false;
    let mut k: usize = 0;
    while k < health.len()
        invariant
            k <= health@.len(),
            degraded == exists|m: int| 0 <= m < k && health@[m] != SourceHealth::Healthy,
        decreases health@.len() - k,
    {
        if health[k] != SourceHealth::Healthy {
            degraded = true;
        }
        k = k + 1;
    }
    let mut next = crate::sessions::copy_session(session);
    if session.source_degraded == degraded {
        return (next, false);
    }
    next.source_degraded = degraded;
    next.updated_at = now;
    next.revision = session.revision.saturating_add(1);
    (next, true)
}

/// The identifiers of the session's observation grants among `grants`, in
/// the order of `grants`.
pub open spec fn session_observation_ids(session: FocusSession, grants: Seq<PermissionGrant>) -> Seq<u128>
    decreases grants.len(),
{
    if grants.len() == 0 {
        Seq::empty()
    } else {
        let rest = session_observation_ids(session, grants.drop_last());
        let g = grants.last();
        if names_grant(session, g.id) && g.scope.spec_is_observation() {
            rest.push(g.id)
        } else {
            rest
        }
    }
}

/// What losing native status control does to a session: nothing when it no
/// longer works; otherwise it is degraded (saved only when it was not yet)
/// and the adapters of these observation grants stop.
pub enum NativeStatusLoss {
    NotWorking,
    Pause { session: FocusSession, save: bool, stop_grant_ids: Vec<u128> },
}

/// Decides what losing native status control at `now` does to a session.
pub fn pause_capture_for_native_status_loss(
    session: &FocusSession,
    grants: &Vec<PermissionGrant>,
    now: i64,
) -> (r: NativeStatusLoss)
    ensures
        !session.state.spec_is_working() ==> r is NotWorking,
        session.state.spec_is_working() ==> match r {
            NativeStatusLoss::NotWorking => false,
            NativeStatusLoss::Pause { session: s, save, stop_grant_ids } => save == !session.source_degraded
                && stop_grant_ids@ == session_observation_ids(*session, grants@) && if save {
                lifecycle_fields(
                    *session,
                    s,
                    session.state,
                    true,
                    session.started_at,
                    session.ended_at,
                    session.failure_reason,
                    now,
                ) && s.revision == (if session.revision == u64::MAX {
                    u64::MAX
                } else {
                    (session.revision + 1) as u64
                })
            } else {
                crate::sessions::same_session(s, *session)
            },
        },
{
    if !session.state.is_working() {
        return NativeStatusLoss::NotWorking;
    }
    let mut ids: Vec<u128> = Vec::new();
    let mut i: usize = 0;
    while i < grants.len()
        invariant
            i <= grants@.len(),
            ids@ == session_observation_ids(*session, grants@.subrange(0, i as int)),
        decreases grants@.len() - i,
    {
        proof {
            assert(grants@.subrange(0, (i + 1) as int).drop_last() == grants@.subrange(0, i as int));
            assert(grants@.subrange(0, (i + 1) as int).last() == grants@[i as int]);
        }
        let g = &grants[i];
        if crate::focus::contains_id(&session.permission_grant_ids, g.id) && g.scope.is_observation() {
            ids.push(g.id);
        }
        i = i + 1;
    }
    assert(grants@.subrange(0, i as int) == grants@);
    let mut next = crate::sessions::copy_session(session);
    let save = !session.source_degraded;
    if save {
        next.source_degraded = true;
        next.updated_at = now;
        next.revision = session.revision.saturating_add(1);
    }
    NativeStatusLoss::Pause { session: next, save, stop_grant_ids: ids }
}

/// Whether every observation scope among the grants has fresh health.
pub open spec fn scopes_covered(grants: Seq<PermissionGrant>, healthy: Seq<PermissionScope>) -> bool {
    forall|j: int| 0 <= j < grants.len() ==> ((#[trigger] grants[j]).scope.spec_is_observation() ==> healthy.contains(grants[j].scope))
}

/// Ends recovery once fresh health covers every observation scope the
/// session's grants need: the owner's recovering session becomes active and
/// no longer degraded under the next revision.
pub fn mark_recovered_sources_healthy(
    owner: u128,
    session: &FocusSession,
    grants: &Vec<PermissionGrant>,
    healthy_scopes: &Vec<PermissionScope>,
    now: i64,
) -> (r: Result<FocusSession, SecondMindError>)
    requires
        session.revision < u64::MAX,
    ensures
        if session.owner != owner || session.state != FocusSessionState::Recovering {
            fails_plain(r, SecondMindErrorCode::InvalidArgument, "The focus session is not awaiting recovery evidence.", false)
        } else if crate::focus::session_refusal(grants@, session.permission_grant_ids@, session.id, now) is Some {
            fails_plain(
                r,
                SecondMindErrorCode::PermissionDenied,
                crate::focus::session_refusal(grants@, session.permission_grant_ids@, session.id, now)->0,
                false,
            )
        } else if !scopes_covered(resolved_grants(grants@, session.permission_grant_ids@), healthy_scopes@) {
            fails_plain(r, SecondMindErrorCode::Unavailable, "Fresh health is missing for a required observation source.", true)
        } else {
            r matches Ok(s) && lifecycle_step(
                *session,
                s,
                FocusSessionState::Active,
                false,
                session.started_at,
                session.ended_at,
                session.failure_reason,
                now,
            )
        },
{
    if session.owner != owner || session.state != FocusSessionState::Recovering {
        return Err(SecondMindError::invalid("The focus session is not awaiting recovery evidence."));
    }
    let rs = crate::focus::resolve_session_grants(grants, session.id, &session.permission_grant_ids, now)?;
    let mut j: usize = 0;
    while j < rs.len()
        invariant
            j <= rs@.len(),
            rs@ == resolved_grants(grants@, session.permission_grant_ids@),
            session.owner == owner && session.state == FocusSessionState::Recovering,
            crate::focus::session_refusal(grants@, session.permission_grant_ids@, session.id, now) is None,
            forall|q: int|
                0 <= q < j ==> ((#[trigger] rs@[q]).scope.spec_is_observation() ==> healthy_scopes@.contains(rs@[q].scope)),
        decreases rs@.len() - j,
    {
        if rs[j].scope.is_observation() && !scope_listed(healthy_scopes, rs[j].scope) {
            assert(!scopes_covered(rs@, healthy_scopes@)) by {
                assert(rs@[j as int].scope.spec_is_observation() && !healthy_scopes@.contains(rs@[j as int].scope));
            }
            return Err(SecondMindError::unavailable("Fresh health is missing for a required observation source."));
        }
        j = j + 1;
    }
    let mut next = crate::sessions::copy_session(session);
    next.state = FocusSessionState::Active;
    next.source_degraded = false;
    next.updated_at = now;
    next.revision = session.revision + 1;
    Ok(next)
}

fn scope_listed(scopes: &Vec<PermissionScope>, scope: PermissionScope) -> (r: bool)
    ensures
        r == scopes@.contains(scope),
{
    let mut i: usize = 0;
    while i < scopes.len()
        invariant
            i <= scopes@.len(),
            forall|k: int| 0 <= k < i ==> scopes@[k] != scope,
        decreases scopes@.len() - i,
    {
        if scopes[i] == scope {
            assert(scopes@[i as int] == scope);
            return true;
        }
        i = i + 1;
    }
    false
}

/// Heartbeats only move forward: once a heartbeat is accepted, no heartbeat
/// emitted before it is accepted for the same session, and an accepted one
/// is never older than the timeout.
pub proof fn law_heartbeats_are_monotonic(
    session_id: u128,
    track: HeartbeatTrack,
    first: NativeStatusHeartbeat,
    second: NativeStatusHeartbeat,
    now: i64,
    later: i64,
    timeout_ms: u64,
)
    requires
        heartbeat_current(session_id, track, first, now, timeout_ms),
        heartbeat_current(session_id, HeartbeatTrack { last_heartbeat_at: Some(first.emitted_at), ..track }, second, later, timeout_ms),
    ensures
        second.emitted_at >= first.emitted_at,
        later - second.emitted_at <= timeout_ms,
        second.session_id == session_id && second.revision == first.revision,
{
}

/// The session's observation grants among `grants`, in the order of `grants`.
pub open spec fn session_capture_grants(session: FocusSession, grants: Seq<PermissionGrant>) -> Seq<PermissionGrant> {
    grants.filter(|g: PermissionGrant| session.permission_grant_ids@.contains(g.id) && g.scope.spec_is_observation())
}

/// Whether the native surface must hide resource labels: while the desktop
/// is locked or the user switched away.
pub open spec fn hides_private_labels(presence: Option<PresenceState>) -> bool {
    match presence {
        Some(PresenceState::Locked) | Some(PresenceState::SwitchedAway) => true,
        _ => false,
    }
}

/// How long the native surface may go without a heartbeat after a status
/// is published, in milliseconds.
pub const NATIVE_STATUS_HEARTBEAT_WINDOW: i64 = 10_000;

/// The capture status published to the native status surface.
#[derive(Clone, Debug, PartialEq, Eq)]
pub struct NativeCaptureStatus {
    pub session_id: u128,
    pub revision: u64,
    pub active_scopes: Vec<PermissionScope>,
    pub resources: Vec<NativeResourceStatus>,
    pub muted: bool,
    pub source_degraded: bool,
    pub published_at: i64,
    pub heartbeat_deadline: i64,
}

impl NativeCaptureStatus {
    /// The identity and window an acknowledgement of this status must match.
    pub fn stamp(&self) -> (s: NativeStatusStamp)
        ensures
            s == (NativeStatusStamp {
                session_id: self.session_id,
                revision: self.revision,
                published_at: self.published_at,
                heartbeat_deadline: self.heartbeat_deadline,
            }),
    {
        NativeStatusStamp {
            session_id: self.session_id,
            revision: self.revision,
            published_at: self.published_at,
            heartbeat_deadline: self.heartbeat_deadline,
        }
    }
}

/// The status CORE publishes for a session at `now`: the scopes of its
/// observation grants, the labels of their resources unless the presence
/// hides them, its mute and degradation flags, and a heartbeat deadline
/// one window after publication.
pub fn native_capture_status(
    session: &FocusSession,
    grants: &Vec<PermissionGrant>,
    resources: &Vec<ResourceBinding>,
    presence: Option<PresenceState>,
    now: i64,
) -> (s: NativeCaptureStatus)
    requires
        now <= i64::MAX - NATIVE_STATUS_HEARTBEAT_WINDOW,
    ensures
        s.session_id == session.id,
        s.revision == session.revision,
        s.muted == session.muted,
        s.source_degraded == session.source_degraded,
        s.published_at == now,
        s.heartbeat_deadline == now + NATIVE_STATUS_HEARTBEAT_WINDOW,
        s.active_scopes@ == session_capture_grants(*session, grants@).map_values(|g: PermissionGrant| g.scope),
        hides_private_labels(presence) ==> s.resources@.len() == 0,
        !hides_private_labels(presence) ==> s.resources@.map_values(
            |r: NativeResourceStatus| (r.grant_id, r.scope, r.display_label@),
        ) == spec_resource_statuses(resources@, session_capture_grants(*session, grants@)),
{
    let mut held: Vec<PermissionGrant> = Vec::new();
    let mut scopes: Vec<PermissionScope> = Vec::new();
    let mut i: usize = 0;
    while i < grants.len()
        invariant
            i <= grants@.len(),
            held@ == session_capture_grants(*session, grants@.subrange(0, i as int)),
            scopes@ == held@.map_values(|g: PermissionGrant| g.scope),
        decreases grants@.len() - i,
    {
        proof {
            reveal(Seq::filter);
            assert(grants@.subrange(0, (i + 1) as int).drop_last() == grants@.subrange(0, i as int));
        }
        let g = &grants[i];
        if crate::focus::contains_id(&session.permission_grant_ids, g.id) && g.scope.is_observation() {
            let ghost before = held@;
            held.push(crate::sessions::copy_grant(g));
            scopes.push(g.scope);
            assert(held@.map_values(|g: PermissionGrant| g.scope) == before.map_values(
                |g: PermissionGrant| g.scope,
            ).push(g.scope));
        }
        i = i + 1;
    }
    assert(grants@.subrange(0, i as int) == grants@);
    let hide = match presence {
        Some(PresenceState::Locked) | Some(PresenceState::SwitchedAway) => true,
        _ => false,
    };
    let rows = if hide {
        Vec::new()
    } else {
        resource_statuses(resources, &held)
    };
    NativeCaptureStatus {
        session_id: session.id,
        revision: session.revision,
        active_scopes: scopes,
        resources: rows,
        muted: session.muted,
        source_degraded: session.source_degraded,
        published_at: now,
        heartbeat_deadline: now + NATIVE_STATUS_HEARTBEAT_WINDOW,
    }
}

} // verus!
