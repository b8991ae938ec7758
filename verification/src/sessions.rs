//! Focus-session and permission transitions, and observation admission.

use vstd::prelude::*;
use crate::admission::{ClientAssurance, require_private};
use crate::delivery::SourceHealthEntry;
use crate::errors::{SecondMindError, SecondMindErrorCode, fails_plain, fails_with};
use crate::gates::uuid_version;
use crate::runtime::EndFocusReason;
use crate::model::{FocusSession, FocusSessionState, GrantState, PermissionGrant, PermissionScope, SourceHealth};
use crate::text::chars_of;

verus! {

pub fn copy_ids(ids: &Vec<u128>) -> (r: Vec<u128>)
    ensures
        r@ == ids@,
{
    let mut out: Vec<u128> = Vec::new();
    let mut i: usize = 0;
    while i < ids.len()
        invariant
            i <= ids@.len(),
            out@ == ids@.subrange(0, i as int),
        decreases ids@.len() - i,
    {
        out.push(ids[i]);
        assert(ids@.subrange(0, (i + 1) as int) == ids@.subrange(0, i as int).push(ids@[i as int]));
        i = i + 1;
    }
    assert(ids@.subrange(0, i as int) == ids@);
    out
}

/// A copy of the session record.
pub fn copy_session(s: &FocusSession) -> (r: FocusSession)
    ensures
        same_session(r, *s),
{
    FocusSession {
        id: s.id,
        owner: s.owner,
        goal_id: s.goal_id,
        goal_revision: s.goal_revision,
        state: s.state,
        muted: s.muted,
        source_degraded: s.source_degraded,
        client_disconnect_allowed: s.client_disconnect_allowed,
        daemon_restart_allowed: s.daemon_restart_allowed,
        revision: s.revision,
        model_route_approval_id: s.model_route_approval_id,
        permission_grant_ids: copy_ids(&s.permission_grant_ids),
        selected_resource_ids: copy_ids(&s.selected_resource_ids),
        requested_at: s.requested_at,
        started_at: s.started_at,
        ended_at: s.ended_at,
        updated_at: s.updated_at,
        failure_reason: s.failure_reason,
    }
}

/// Two session records agree in every field, the identifier lists by their
/// contents.
pub open spec fn same_session(a: FocusSession, b: FocusSession) -> bool {
    &&& a.id == b.id && a.owner == b.owner && a.goal_id == b.goal_id && a.goal_revision == b.goal_revision
    &&& a.state == b.state && a.muted == b.muted && a.source_degraded == b.source_degraded
    &&& a.client_disconnect_allowed == b.client_disconnect_allowed && a.daemon_restart_allowed == b.daemon_restart_allowed
    &&& a.revision == b.revision && a.model_route_approval_id == b.model_route_approval_id
    &&& a.permission_grant_ids@ == b.permission_grant_ids@ && a.selected_resource_ids@ == b.selected_resource_ids@
    &&& a.requested_at == b.requested_at && a.started_at == b.started_at && a.ended_at == b.ended_at
    &&& a.updated_at == b.updated_at && a.failure_reason == b.failure_reason
}

/// `after` is `before` with the given state, mute flag, next revision and
/// update time, and nothing else changed.
pub open spec fn session_transition(
    before: FocusSession,
    after: FocusSession,
    state: FocusSessionState,
    muted: bool,
    now: i64,
) -> bool {
    &&& same_session(after, FocusSession {
        state: after.state,
        muted: after.muted,
        revision: after.revision,
        updated_at: after.updated_at,
        permission_grant_ids: after.permission_grant_ids,
        selected_resource_ids: after.selected_resource_ids,
        ..before
    })
    &&& after.permission_grant_ids@ == before.permission_grant_ids@
    &&& after.selected_resource_ids@ == before.selected_resource_ids@
    &&& after.state == state && after.muted == muted
    &&& after.revision == before.revision + 1 && after.updated_at == now
}

/// Starts ending a focus session at its expected revision: the session moves
/// to `Stopping` under the next revision and records why it ends. An already
/// ended or failed session is returned unchanged; another actor's session is
/// refused.
pub fn end_focus_session(
    assurance: ClientAssurance,
    owner: u128,
    session: &FocusSession,
    expected_revision: u64,
    reason: EndFocusReason,
    now: i64,
) -> (r: Result<FocusSession, SecondMindError>)
    ensures
        !assurance.spec_permits_private() ==> fails_with(r, SecondMindErrorCode::PermissionDenied),
        assurance.spec_permits_private() && session.owner != owner ==> fails_plain(
            r,
            SecondMindErrorCode::PermissionDenied,
            "The focus session belongs to another actor.",
            false,
        ),
        assurance.spec_permits_private() && session.owner == owner ==> if session.state is Ended
            || session.state is Failed {
            r matches Ok(s) && same_session(s, *session)
        } else if session.revision != expected_revision || session.revision == u64::MAX {
            r == Err::<FocusSession, SecondMindError>(SecondMindError::spec_conflict(session.revision))
        } else {
            r matches Ok(s) && crate::focus::lifecycle_step(
                *session,
                s,
                FocusSessionState::Stopping,
                session.source_degraded,
                session.started_at,
                session.ended_at,
                Some(reason.spec_ending_code()),
                now,
            )
        },
{
    require_private(assurance)?;
    if session.owner != owner {
        return Err(SecondMindError::permission("The focus session belongs to another actor."));
    }
    match session.state {
        FocusSessionState::Ended | FocusSessionState::Failed => return Ok(copy_session(session)),
        _ => {},
    }
    if session.revision != expected_revision || session.revision == u64::MAX {
        return Err(SecondMindError::conflict(session.revision));
    }
    let mut next = copy_session(session);
    next.state = FocusSessionState::Stopping;
    next.failure_reason = Some(reason.ending_code());
    next.updated_at = now;
    next.revision = session.revision + 1;
    Ok(next)
}

/// Mutes or unmutes interventions of a working session at its expected
/// revision.
pub fn set_interventions_muted(
    assurance: ClientAssurance,
    owner: u128,
    session: &FocusSession,
    expected_revision: u64,
    muted: bool,
    now: i64,
) -> (r: Result<FocusSession, SecondMindError>)
    ensures
        !assurance.spec_permits_private() ==> fails_with(r, SecondMindErrorCode::PermissionDenied),
        assurance.spec_permits_private() && (session.owner != owner || !session.state.spec_is_working())
            ==> fails_plain(
            r,
            SecondMindErrorCode::PermissionDenied,
            "The focus session cannot be muted by this actor.",
            false,
        ),
        assurance.spec_permits_private() && session.owner == owner && session.state.spec_is_working() ==> if session.revision
            != expected_revision || session.revision == u64::MAX {
            r == Err::<FocusSession, SecondMindError>(SecondMindError::spec_conflict(session.revision))
        } else {
            r matches Ok(s) && session_transition(*session, s, session.state, muted, now)
        },
{
    require_private(assurance)?;
    if session.owner != owner || !session.state.is_working() {
        return Err(SecondMindError::permission("The focus session cannot be muted by this actor."));
    }
    if session.revision != expected_revision || session.revision == u64::MAX {
        return Err(SecondMindError::conflict(session.revision));
    }
    let mut next = copy_session(session);
    next.muted = muted;
    next.updated_at = now;
    next.revision = session.revision + 1;
    Ok(next)
}

/// A copy of the grant record.
pub fn copy_grant(g: &PermissionGrant) -> (r: PermissionGrant)
    ensures
        r == *g,
{
    PermissionGrant { ..*g }
}

/// Position `i` holds the first grant with identifier `id`, so it is the
/// one that a lookup by identifier finds.
pub proof fn lemma_first_grant_is(all: Seq<PermissionGrant>, id: u128, i: int)
    requires
        0 <= i < all.len(),
        all[i].id == id,
        forall|m: int| 0 <= m < i ==> all[m].id != id,
    ensures
        crate::validation::first_grant(all, id) == Some(i),
{
    let j = choose|j: int| 0 <= j < all.len() && all[j].id == id && forall|m: int| 0 <= m < j ==> all[m].id != id;
    if j < i {
        assert(all[j].id != id);
    } else if j > i {
        assert(all[i].id != id);
    }
}

/// Revokes an owner's grant at its expected revision: the grant becomes
/// revoked at `now` under the next revision.
pub fn revoke_permission(
    assurance: ClientAssurance,
    grants: &Vec<PermissionGrant>,
    grant_id: u128,
    expected_revision: u64,
    now: i64,
) -> (r: Result<PermissionGrant, SecondMindError>)
    ensures
        !assurance.spec_permits_private() ==> fails_with(r, SecondMindErrorCode::PermissionDenied),
        assurance.spec_permits_private() ==> match crate::validation::first_grant(grants@, grant_id) {
            None => fails_plain(r, SecondMindErrorCode::NotFound, "The permission grant was not found.", false),
            Some(k) => if grants@[k].revision != expected_revision || grants@[k].revision == u64::MAX {
                r == Err::<PermissionGrant, SecondMindError>(SecondMindError::spec_conflict(grants@[k].revision))
            } else {
                r == Ok::<PermissionGrant, SecondMindError>(
                    PermissionGrant {
                        state: GrantState::Revoked,
                        revoked_at: Some(now),
                        revision: (grants@[k].revision + 1) as u64,
                        ..grants@[k]
                    },
                )
            },
        },
{
    require_private(assurance)?;
    let k = match crate::validation::find_grant(grants, grant_id) {
        Ok(k) => k,
        Err(e) => {
            assert(!exists|j: int| 0 <= j < grants@.len() && grants@[j].id == grant_id);
            return Err(e);
        },
    };
    proof {
        lemma_first_grant_is(grants@, grant_id, k as int);
    }
    let current = &grants[k];
    if current.revision != expected_revision || current.revision == u64::MAX {
        return Err(SecondMindError::conflict(current.revision));
    }
    let mut g = copy_grant(current);
    g.state = GrantState::Revoked;
    g.revoked_at = Some(now);
    g.revision = current.revision + 1;
    Ok(g)
}

/// Whether another current observation grant of `grants` still serves
/// session `session_id` once grant `grant_id` is revoked.
pub open spec fn observation_remains(grants: Seq<PermissionGrant>, grant_id: u128, session_id: u128, now: i64) -> bool {
    exists|j: int|
        0 <= j < grants.len() && (#[trigger] grants[j]).id != grant_id && grants[j].focus_session_id == Some(session_id)
            && grants[j].scope.spec_is_observation() && grants[j].spec_is_current_at(now)
}

/// What follows the durable revocation of a grant.
pub struct RevocationEffects {
    /// The session whose adapter for the grant stops, if the grant served one.
    pub stop_adapter: Option<u128>,
    /// The session that lost its last current observation grant and ends
    /// because a required permission was revoked.
    pub end_session: Option<u128>,
    /// The queued deliveries that name the grant; they are cancelled with
    /// their text cleared.
    pub cancelled_deliveries: Vec<u128>,
}

/// Decides what follows once `revoked` is saved, against the owner's other
/// grants and pending deliveries at `now`: the adapter it fed stops; when it
/// was an observation grant and no other current observation grant serves
/// its session, that session ends; and every queued delivery that names it
/// is cancelled and scrubbed.
pub fn revocation_effects(
    revoked: &PermissionGrant,
    grants: &Vec<PermissionGrant>,
    pending: &Vec<crate::delivery::PendingDelivery>,
    now: i64,
) -> (r: RevocationEffects)
    ensures
        r.stop_adapter == revoked.focus_session_id,
        r.end_session == match revoked.focus_session_id {
            Some(sid) => if revoked.scope.spec_is_observation() && !observation_remains(grants@, revoked.id, sid, now) {
                Some(sid)
            } else {
                None
            },
            None => None,
        },
        r.cancelled_deliveries@ == pending@.filter(
            |e: crate::delivery::PendingDelivery| crate::delivery::cancelled_with_grant(e, revoked.id),
        ).map_values(|e: crate::delivery::PendingDelivery| e.id),
{
    let end_session = match revoked.focus_session_id {
        Some(sid) => {
            if revoked.scope.is_observation() {
                let mut remains = false;
                let mut j: usize = 0;
                while j < grants.len()
                    invariant
                        j <= grants@.len(),
                        remains <==> exists|k: int|
                            0 <= k < j && (#[trigger] grants@[k]).id != revoked.id && grants@[k].focus_session_id == Some(sid)
                                && grants@[k].scope.spec_is_observation() && grants@[k].spec_is_current_at(now),
                    decreases grants@.len() - j,
                {
                    let g = &grants[j];
                    if g.id != revoked.id && g.focus_session_id == Some(sid) && g.scope.is_observation()
                        && g.is_current_at(now) {
                        remains = true;
                    }
                    j = j + 1;
                }
                if remains {
                    None
                } else {
                    Some(sid)
                }
            } else {
                None
            }
        },
        None => None,
    };
    RevocationEffects {
        stop_adapter: revoked.focus_session_id,
        end_session,
        cancelled_deliveries: crate::delivery::outbox_cancellations_for_grant(pending, revoked.id),
    }
}

/// A normalized observation, as far as admission reads it.
#[derive(Clone, Debug, PartialEq, Eq)]
pub struct ObservationClaim {
    pub observation_id: u128,
    pub grant_id: u128,
    pub grant_revision: u64,
    pub device_id: u128,
    pub required_scope: PermissionScope,
    pub selected_resource_id: Option<u128>,
    pub source_id: String,
    pub source_event_id: u128,
    pub observed_at: i64,
    pub received_at: i64,
    pub confidence_basis_points: u16,
    /// The byte length of the observation's bounded text, when it has one.
    pub bounded_text_bytes: Option<usize>,
}

/// The grant authorizes the observation at `now` for the session.
pub open spec fn within_grant(g: PermissionGrant, o: ObservationClaim, session_id: u128, now: i64) -> bool {
    g.spec_is_current_at(now) && g.focus_session_id == Some(session_id) && g.revision == o.grant_revision
        && g.device_id == o.device_id && g.scope == o.required_scope && g.selected_resource_id
        == o.selected_resource_id
}

/// The observation's time stamps and confidence are plausible.
pub open spec fn plausible(o: ObservationClaim, now: i64, ttl: u64) -> bool {
    0 <= now - o.observed_at <= ttl && o.received_at >= o.observed_at && o.confidence_basis_points <= 10_000
}

/// Whether an observation is admissible.
pub open spec fn spec_observation_admissible(
    session: FocusSession,
    grant: Option<PermissionGrant>,
    o: ObservationClaim,
    source_id: Option<Seq<char>>,
    source_health: Option<SourceHealthEntry>,
    now: i64,
    ttl: u64,
    maximum_bytes: usize,
    freshness: u64,
) -> bool {
    &&& session.state is Active
    &&& match grant {
        Some(g) => within_grant(g, o, session.id, now),
        None => false,
    }
    &&& match source_id {
        Some(sid) => sid == o.source_id@,
        None => false,
    }
    &&& uuid_version(o.observation_id) == 7 && uuid_version(o.source_event_id) == 7
    &&& plausible(o, now, ttl)
    &&& match o.bounded_text_bytes {
        Some(n) => n <= maximum_bytes,
        None => true,
    }
    &&& match source_health {
        Some(h) => h.health is Healthy && now - h.observed_at <= freshness,
        None => false,
    }
}

/// Admits an observation into a session's ephemeral context, checking in
/// order: an active session, the grant's presence and scope, the source's
/// identity and time-ordered provenance, plausible times and confidence, the
/// payload bound, and a healthy, fresh source.
pub fn admit_observation(
    session: &FocusSession,
    grant: Option<&PermissionGrant>,
    observation: &ObservationClaim,
    source_id: Option<&String>,
    source_health: Option<SourceHealthEntry>,
    now: i64,
    observation_ttl: u64,
    maximum_observation_bytes: usize,
    source_freshness: u64,
) -> (r: Result<(), SecondMindError>)
    ensures
        !(session.state is Active) ==> fails_plain(r, SecondMindErrorCode::PermissionDenied, "Late observation for an inactive session was rejected.", false),
        session.state is Active && grant is None ==> fails_plain(r, SecondMindErrorCode::PermissionDenied, "The observation grant is missing.", false),
        session.state is Active ==> match grant {
            Some(g) => !within_grant(*g, *observation, session.id, now) ==> fails_plain(r, SecondMindErrorCode::PermissionDenied, "The observation is outside its current grant.", false),
            None => true,
        },
        r is Ok <==> spec_observation_admissible(
            *session,
            match grant { Some(g) => Some(*g), None => None },
            *observation,
            match source_id { Some(s) => Some(s@), None => None },
            source_health,
            now,
            observation_ttl,
            maximum_observation_bytes,
            source_freshness,
        ),
{
    match session.state {
        FocusSessionState::Active => {},
        _ => return Err(SecondMindError::permission("Late observation for an inactive session was rejected.")),
    }
    let g = match grant {
        Some(g) => g,
        None => return Err(SecondMindError::permission("The observation grant is missing.")),
    };
    if !g.is_current_at(now) || g.focus_session_id != Some(session.id) || g.revision != observation.grant_revision
        || g.device_id != observation.device_id || g.scope != observation.required_scope
        || g.selected_resource_id != observation.selected_resource_id
    {
        return Err(SecondMindError::permission("The observation is outside its current grant."));
    }
    let sid = match source_id {
        Some(s) => s,
        None => return Err(SecondMindError::permission("The observation source is unknown.")),
    };
    let a = chars_of(sid.as_str());
    let b = chars_of(observation.source_id.as_str());
    if !crate::text::same_chars(&a, &b) || !crate::gates::uuid_is_v7(observation.observation_id)
        || !crate::gates::uuid_is_v7(observation.source_event_id)
    {
        return Err(SecondMindError::permission("The observation provenance does not match the active source."));
    }
    let age = now as i128 - observation.observed_at as i128;
    if age < 0 || age > observation_ttl as i128 || observation.received_at < observation.observed_at
        || observation.confidence_basis_points > 10_000
    {
        return Err(SecondMindError::invalid("The observation timestamp or confidence is invalid."));
    }
    match observation.bounded_text_bytes {
        Some(n) => {
            if n > maximum_observation_bytes {
                return Err(SecondMindError::invalid("The normalized observation exceeds its payload bound."));
            }
        },
        None => {},
    }
    let fresh = match source_health {
        Some(h) => {
            let healthy = match h.health {
                SourceHealth::Healthy => true,
                _ => false,
            };
            healthy && (now as i128) - (h.observed_at as i128) <= source_freshness as i128
        },
        None => false,
    };
    if !fresh {
        return Err(SecondMindError::permission("The observation source is not freshly healthy."));
    }
    Ok(())
}

} // verus!
