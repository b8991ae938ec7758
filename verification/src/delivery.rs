//! The fail-closed revalidation of delivery authority immediately before a
//! notification attempt.

use vstd::prelude::*;
use crate::gates::{count_delivered, cooldown_held, delivered_count, durable_cooldown};
use crate::model::{FocusSession, FocusSessionState, GoalState, InterventionRecord, OutboxState, PermissionGrant, PresenceState, SourceHealth};
use crate::preferences::{EffectivePreferences, native_notification_channel, safe_instant, spec_dnd_contains};
use crate::validation::ModelPlacement;

verus! {

/// Whether a policy decision allowed or denied delivery.
#[derive(Clone, Copy, Debug, PartialEq, Eq, Structural)]
pub enum PolicyOutcome {
    Allow,
    Deny,
}

/// A grant and the revision a policy decision relied on.
#[derive(Clone, Copy, Debug, PartialEq, Eq, Structural)]
pub struct GrantRevision {
    pub grant_id: u128,
    pub revision: u64,
}

/// The parts of a policy decision that revalidation reads.
#[derive(Clone, Debug, PartialEq, Eq)]
pub struct PolicyDecision {
    pub id: u128,
    pub candidate_id: u128,
    pub candidate_revision: u64,
    pub outcome: PolicyOutcome,
    pub owner: u128,
    pub focus_session_id: u128,
    pub expires_at: i64,
    pub model_route_revision: u64,
    pub permission_grant_revisions: Vec<GrantRevision>,
}

/// The state of the session's model route at revalidation.
#[derive(Clone, Copy, Debug, PartialEq, Eq, Structural)]
pub struct RouteStanding {
    pub revision: u64,
    /// Whether the route is approved and unexpired at the revalidation instant.
    pub current: bool,
    pub placement: ModelPlacement,
}

/// The standing of a route approval at `now`, as revalidation reads it.
pub fn route_standing(route: &crate::validation::ModelRouteApproval, now: i64) -> (r: RouteStanding)
    ensures
        r.revision == route.revision && r.current == route.spec_is_current_at(now) && r.placement == route.placement,
{
    RouteStanding { revision: route.revision, current: route.is_current_at(now), placement: route.placement }
}

/// The state of the goal at revalidation.
#[derive(Clone, Copy, Debug, PartialEq, Eq, Structural)]
pub struct GoalStanding {
    pub state: GoalState,
    pub deadline: Option<i64>,
}

/// The health of one observation source of the live session.
#[derive(Clone, Copy, Debug, PartialEq, Eq, Structural)]
pub struct SourceHealthEntry {
    pub grant_id: u128,
    pub health: SourceHealth,
    pub observed_at: i64,
}

/// The live, non-durable state of the session.
#[derive(Clone, Debug, PartialEq, Eq)]
pub struct LiveSession {
    pub presence: PresenceState,
    pub source_health: Vec<SourceHealthEntry>,
}

/// Every grant revision the decision relied on is still the current revision
/// of a grant bound to the session.
pub open spec fn decision_grants_current(
    revisions: Seq<GrantRevision>,
    grants: Seq<PermissionGrant>,
    session_id: u128,
    now: i64,
) -> bool {
    forall|j: int| 0 <= j < revisions.len() ==> #[trigger] revision_current(grants, revisions[j], session_id, now)
}

/// The grant revision is the current revision of a grant bound to the session.
pub open spec fn revision_current(grants: Seq<PermissionGrant>, want: GrantRevision, session_id: u128, now: i64) -> bool {
    exists|k: int|
        0 <= k < grants.len() && grants[k].id == want.grant_id && grants[k].revision == want.revision
            && grants[k].focus_session_id == Some(session_id) && grants[k].spec_is_current_at(now)
}

/// Whether the decision relied on grant `id`.
pub open spec fn decision_names(revisions: Seq<GrantRevision>, id: u128) -> bool {
    exists|j: int| 0 <= j < revisions.len() && (#[trigger] revisions[j]).grant_id == id
}

/// Whether the source of grant `id` is healthy and fresh at `now`.
pub open spec fn source_fresh(health: Seq<SourceHealthEntry>, id: u128, now: i64, freshness: u64) -> bool {
    exists|k: int|
        0 <= k < health.len() && (#[trigger] health[k]).grant_id == id && health[k].health is Healthy
            && now - health[k].observed_at <= freshness
}

/// Every observation grant the decision relied on has a healthy, fresh source.
pub open spec fn observation_sources_fresh(
    grants: Seq<PermissionGrant>,
    revisions: Seq<GrantRevision>,
    health: Seq<SourceHealthEntry>,
    now: i64,
    freshness: u64,
) -> bool {
    forall|k: int|
        0 <= k < grants.len() && (#[trigger] grants[k]).scope.spec_is_observation() && decision_names(
            revisions,
            grants[k].id,
        ) ==> source_fresh(health, grants[k].id, now, freshness)
}

/// Whether the channel set allows native notifications.
pub open spec fn allows_native(channels: Seq<String>) -> bool {
    exists|i: int| 0 <= i < channels.len() && (#[trigger] channels[i])@ == native_notification_channel()
}

/// Whether quiet hours hold at `now` for the preferences.
pub open spec fn quiet_now(p: EffectivePreferences, now: i64) -> bool {
    exists|i: int|
        0 <= i < p.do_not_disturb_windows@.len() && spec_dnd_contains(#[trigger] p.do_not_disturb_windows@[i], now)
}

/// The complete authority condition for one delivery attempt.
pub open spec fn spec_delivery_authority(
    decision: PolicyDecision,
    goal_id: u128,
    intervention_id: u128,
    now: i64,
    session: Option<FocusSession>,
    goal: Option<GoalStanding>,
    route: Option<RouteStanding>,
    preferences: Option<EffectivePreferences>,
    grants: Option<Seq<PermissionGrant>>,
    interventions: Option<Seq<InterventionRecord>>,
    live: Option<LiveSession>,
    source_freshness: u64,
) -> bool {
    &&& decision.outcome is Allow && now < decision.expires_at
    &&& session matches Some(s) && s.owner == decision.owner && s.goal_id == goal_id && s.state is Active && !s.muted
    &&& goal matches Some(g) && g.state is Active && !(g.deadline matches Some(d) && d <= now)
    &&& route matches Some(rt) && preferences matches Some(p) && rt.revision == decision.model_route_revision && rt.current
        && !(rt.placement is Remote && !p.remote_processing_enabled) && p.proactive_interventions_enabled
        && !p.proactive_interventions_muted && !quiet_now(p, now) && allows_native(p.allowed_delivery_channels@)
    &&& grants matches Some(gs) && decision_grants_current(decision.permission_grant_revisions@, gs, session->0.id, now)
    &&& interventions matches Some(is) && delivered_count(is, session->0.id, Some(intervention_id))
        < preferences->0.maximum_interventions_per_session && !durable_cooldown(
        is,
        session->0.id,
        Some(intervention_id),
        now,
        preferences->0.intervention_cooldown,
    )
    &&& live matches Some(l) && l.presence is Active && observation_sources_fresh(
        grants->0,
        decision.permission_grant_revisions@,
        l.source_health@,
        now,
        source_freshness,
    )
}

/// A notification is delivered only into a live, attended focus session the
/// user still wants interrupted: the decision allowed it and has not
/// expired, the session is active (not stopping, recovering or ended),
/// unmuted and the decision owner's, the preferences enable unmuted
/// proactive interventions outside quiet hours, and the user is present.
pub proof fn law_delivery_needs_live_authority(
    decision: PolicyDecision,
    goal_id: u128,
    intervention_id: u128,
    now: i64,
    session: Option<FocusSession>,
    goal: Option<GoalStanding>,
    route: Option<RouteStanding>,
    preferences: Option<EffectivePreferences>,
    grants: Option<Seq<PermissionGrant>>,
    interventions: Option<Seq<InterventionRecord>>,
    live: Option<LiveSession>,
    source_freshness: u64,
)
    ensures
        spec_delivery_authority(
            decision,
            goal_id,
            intervention_id,
            now,
            session,
            goal,
            route,
            preferences,
            grants,
            interventions,
            live,
            source_freshness,
        ) ==> {
            &&& session matches Some(s) && s.state == FocusSessionState::Active && !s.muted && s.owner == decision.owner
            &&& preferences matches Some(p) && p.proactive_interventions_enabled && !p.proactive_interventions_muted
                && !quiet_now(p, now)
            &&& live matches Some(l) && l.presence == PresenceState::Active
            &&& decision.outcome == PolicyOutcome::Allow && now < decision.expires_at
        },
{
}

fn grant_matches(g: &PermissionGrant, want: GrantRevision, session_id: u128, now: i64) -> (r: bool)
    ensures
        r == (g.id == want.grant_id && g.revision == want.revision && g.focus_session_id == Some(session_id)
            && g.spec_is_current_at(now)),
{
    g.id == want.grant_id && g.revision == want.revision && g.focus_session_id == Some(session_id)
        && g.is_current_at(now)
}

fn grants_current(revisions: &Vec<GrantRevision>, grants: &Vec<PermissionGrant>, session_id: u128, now: i64) -> (r: bool)
    ensures
        r == decision_grants_current(revisions@, grants@, session_id, now),
{
    let mut j: usize = 0;
    while j < revisions.len()
        invariant
            j <= revisions@.len(),
            forall|q: int| 0 <= q < j ==> #[trigger] revision_current(grants@, revisions@[q], session_id, now),
        decreases revisions@.len() - j,
    {
        let want = revisions[j];
        let mut k: usize = 0;
        while k < grants.len() && !grant_matches(&grants[k], want, session_id, now)
            invariant
                k <= grants@.len(),
                forall|k2: int|
                    0 <= k2 < k ==> !(grants@[k2].id == want.grant_id && grants@[k2].revision == want.revision
                        && grants@[k2].focus_session_id == Some(session_id) && grants@[k2].spec_is_current_at(now)),
            decreases grants@.len() - k,
        {
            k = k + 1;
        }
        if k == grants.len() {
            assert(!revision_current(grants@, revisions@[j as int], session_id, now));
            return false;
        }
        assert(revision_current(grants@, revisions@[j as int], session_id, now)) by {
            assert(grants@[k as int].id == want.grant_id);
        }
        j = j + 1;
    }
    true
}

fn names(revisions: &Vec<GrantRevision>, id: u128) -> (r: bool)
    ensures
        r == decision_names(revisions@, id),
{
    let mut j: usize = 0;
    while j < revisions.len()
        invariant
            j <= revisions@.len(),
            forall|q: int| 0 <= q < j ==> (#[trigger] revisions@[q]).grant_id != id,
        decreases revisions@.len() - j,
    {
        if revisions[j].grant_id == id {
            return true;
        }
        j = j + 1;
    }
    false
}

pub(crate) fn fresh_source(health: &Vec<SourceHealthEntry>, id: u128, now: i64, freshness: u64) -> (r: bool)
    ensures
        r == source_fresh(health@, id, now, freshness),
{
    let mut k: usize = 0;
    while k < health.len()
        invariant
            k <= health@.len(),
            forall|q: int|
                0 <= q < k ==> !((#[trigger] health@[q]).grant_id == id && health@[q].health is Healthy
                    && now - health@[q].observed_at <= freshness),
        decreases health@.len() - k,
    {
        let e = health[k];
        let healthy = match e.health {
            SourceHealth::Healthy => true,
            _ => false,
        };
        if e.grant_id == id && healthy && (now as i128) - (e.observed_at as i128) <= freshness as i128 {
            return true;
        }
        k = k + 1;
    }
    false
}

fn sources_fresh(
    grants: &Vec<PermissionGrant>,
    revisions: &Vec<GrantRevision>,
    health: &Vec<SourceHealthEntry>,
    now: i64,
    freshness: u64,
) -> (r: bool)
    ensures
        r == observation_sources_fresh(grants@, revisions@, health@, now, freshness),
{
    let mut k: usize = 0;
    while k < grants.len()
        invariant
            k <= grants@.len(),
            forall|q: int|
                0 <= q < k && (#[trigger] grants@[q]).scope.spec_is_observation() && decision_names(
                    revisions@,
                    grants@[q].id,
                ) ==> source_fresh(health@, grants@[q].id, now, freshness),
        decreases grants@.len() - k,
    {
        let g = &grants[k];
        if g.scope.is_observation() && names(revisions, g.id) && !fresh_source(health, g.id, now, freshness) {
            return false;
        }
        k = k + 1;
    }
    true
}

/// Side-effect-free revalidation used immediately before a notification
/// attempt: the decision must still allow delivery and be unexpired, the
/// session active and unmuted for the goal, the goal active and before its
/// deadline, the route unchanged and current (and remote only when allowed),
/// the user's opt-in, mute, quiet hours and channel choices still permit it,
/// every relied-on grant unchanged and current, the session cap and cooldown
/// still open (not counting this intervention), the user present and every
/// relied-on observation source healthy and fresh. A record that could not
/// be loaded is `None` and denies.
pub fn delivery_authority_is_current(
    decision: &PolicyDecision,
    goal_id: u128,
    intervention_id: u128,
    now: i64,
    session: Option<&FocusSession>,
    goal: Option<GoalStanding>,
    route: Option<RouteStanding>,
    preferences: Option<&EffectivePreferences>,
    grants: Option<&Vec<PermissionGrant>>,
    interventions: Option<&Vec<InterventionRecord>>,
    live: Option<&LiveSession>,
    source_freshness: u64,
) -> (r: bool)
    requires
        safe_instant(now),
    ensures
        r == spec_delivery_authority(
            *decision,
            goal_id,
            intervention_id,
            now,
            match session {
                Some(s) => Some(*s),
                None => None,
            },
            goal,
            route,
            match preferences {
                Some(p) => Some(*p),
                None => None,
            },
            match grants {
                Some(g) => Some(g@),
                None => None,
            },
            match interventions {
                Some(i) => Some(i@),
                None => None,
            },
            match live {
                Some(l) => Some(*l),
                None => None,
            },
            source_freshness,
        ),
        r ==> (session matches Some(s) && s.state == FocusSessionState::Active && !s.muted && s.owner == decision.owner),
        r ==> (preferences matches Some(p) && p.proactive_interventions_enabled && !p.proactive_interventions_muted
            && !quiet_now(*p, now)),
        r ==> (live matches Some(l) && l.presence == PresenceState::Active),
        r ==> decision.outcome == PolicyOutcome::Allow && now < decision.expires_at,
{
    proof {
        law_delivery_needs_live_authority(
            *decision,
            goal_id,
            intervention_id,
            now,
            match session {
                Some(s) => Some(*s),
                None => None,
            },
            goal,
            route,
            match preferences {
                Some(p) => Some(*p),
                None => None,
            },
            match grants {
                Some(g) => Some(g@),
                None => None,
            },
            match interventions {
                Some(i) => Some(i@),
                None => None,
            },
            match live {
                Some(l) => Some(*l),
                None => None,
            },
            source_freshness,
        );
    }
    let allow = match decision.outcome {
        PolicyOutcome::Allow => true,
        PolicyOutcome::Deny => false,
    };
    if !allow || now >= decision.expires_at {
        return false;
    }
    let s = match session {
        Some(s) => s,
        None => return false,
    };
    let active = match s.state {
        FocusSessionState::Active => true,
        _ => false,
    };
    if s.owner != decision.owner || s.goal_id != goal_id || !active || s.muted {
        return false;
    }
    let g = match goal {
        Some(g) => g,
        None => return false,
    };
    let goal_active = match g.state {
        GoalState::Active => true,
        _ => false,
    };
    let past_deadline = match g.deadline {
        Some(d) => d <= now,
        None => false,
    };
    if !goal_active || past_deadline {
        return false;
    }
    let rt = match route {
        Some(rt) => rt,
        None => return false,
    };
    let p = match preferences {
        Some(p) => p,
        None => return false,
    };
    let remote = match rt.placement {
        ModelPlacement::Remote => true,
        ModelPlacement::Local => false,
    };
    if rt.revision != decision.model_route_revision || !rt.current || (remote && !p.remote_processing_enabled)
        || !p.proactive_interventions_enabled || p.proactive_interventions_muted || p.is_do_not_disturb(now)
        || !p.permits_native_notification()
    {
        return false;
    }
    let gs = match grants {
        Some(gs) => gs,
        None => return false,
    };
    if !grants_current(&decision.permission_grant_revisions, gs, s.id, now) {
        return false;
    }
    let is = match interventions {
        Some(is) => is,
        None => return false,
    };
    let delivered = count_delivered(is, s.id, Some(intervention_id));
    let cooling = cooldown_held(is, s.id, Some(intervention_id), now, p.intervention_cooldown);
    if delivered >= p.maximum_interventions_per_session as usize || cooling {
        return false;
    }
    let l = match live {
        Some(l) => l,
        None => return false,
    };
    let present = match l.presence {
        PresenceState::Active => true,
        _ => false,
    };
    present && sources_fresh(gs, &decision.permission_grant_revisions, &l.source_health, now, source_freshness)
}

/// A delivery waiting in the outbox, as recovery reads it.
#[derive(Clone, Debug, PartialEq, Eq)]
pub struct PendingDelivery {
    pub id: u128,
    pub state: OutboxState,
    pub attempt_count: u32,
    pub not_before: i64,
    pub expires_at: i64,
    pub policy_decision_id: u128,
    pub candidate_revision: u64,
    pub deduplication_key: u128,
    pub permission_grant_ids: Vec<u128>,
}

/// Whether revoking grant `grant_id` cancels the delivery: it is still
/// queued and names that grant.
pub open spec fn cancelled_with_grant(e: PendingDelivery, grant_id: u128) -> bool {
    e.state == OutboxState::Queued && e.permission_grant_ids@.contains(grant_id)
}

/// The queued deliveries that revoking a grant cancels, in outbox order;
/// they are saved cancelled with their text cleared.
pub fn outbox_cancellations_for_grant(entries: &Vec<PendingDelivery>, grant_id: u128) -> (r: Vec<u128>)
    ensures
        r@ == entries@.filter(|e: PendingDelivery| cancelled_with_grant(e, grant_id)).map_values(
            |e: PendingDelivery| e.id,
        ),
{
    let mut out: Vec<u128> = Vec::new();
    let mut i: usize = 0;
    while i < entries.len()
        invariant
            i <= entries@.len(),
            out@ == entries@.subrange(0, i as int).filter(|e: PendingDelivery| cancelled_with_grant(e, grant_id)).map_values(
                |e: PendingDelivery| e.id,
            ),
        decreases entries@.len() - i,
    {
        proof {
            reveal(Seq::filter);
            assert(entries@.subrange(0, (i + 1) as int).drop_last() == entries@.subrange(0, i as int));
        }
        let e = &entries[i];
        if e.state == OutboxState::Queued && crate::focus::contains_id(&e.permission_grant_ids, grant_id) {
            let ghost before = out@;
            out.push(e.id);
            assert(out@ == before.push(entries@[i as int].id));
        }
        i = i + 1;
    }
    assert(entries@.subrange(0, i as int) == entries@);
    out
}

/// What recovery does with one delivery of its batch.
#[derive(Clone, Copy, Debug, PartialEq, Eq, Structural)]
pub enum RecoveryVerdict {
    /// An attempt may have reached the channel before the restart: the
    /// delivery and its intervention become `DeliveryUnknown`.
    MarkUnknown,
    /// The delivery is not due yet and stays queued.
    NotDue,
    /// Authority lapsed: the delivery and its intervention expire as missed.
    Expire,
    /// Authority still holds: a fresh decision may deliver it.
    Redeliver,
}

/// Whether a current grant with identifier `id` exists.
pub open spec fn grant_current_anywhere(grants: Seq<PermissionGrant>, id: u128, now: i64) -> bool {
    exists|k: int| 0 <= k < grants.len() && (#[trigger] grants[k]).id == id && grants[k].spec_is_current_at(now)
}

/// Whether a current grant holds exactly the revision the decision relied
/// on.
pub open spec fn revision_still_current(grants: Seq<PermissionGrant>, want: GrantRevision, now: i64) -> bool {
    exists|k: int|
        0 <= k < grants.len() && (#[trigger] grants[k]).id == want.grant_id && grants[k].revision == want.revision
            && grants[k].spec_is_current_at(now)
}

/// Whether another delivery of the same key already reached, or may have
/// reached, the channel.
pub open spec fn terminal_duplicate(pending: Seq<PendingDelivery>, entry: PendingDelivery) -> bool {
    exists|k: int|
        0 <= k < pending.len() && (#[trigger] pending[k]).id != entry.id && pending[k].deduplication_key
            == entry.deduplication_key && (pending[k].state is AcceptedByChannel || pending[k].state is DeliveryUnknown)
}

/// Whether a queued delivery still has the authority it was decided with at
/// `now`: unexpired; its session active and unmuted; every grant it names
/// current; the decision it was made under found, for this candidate
/// revision and session, allowing and unexpired, with every relied-on grant
/// revision current; the route unchanged, current and remote only when
/// allowed; the goal active before its deadline; the user present with
/// every relied-on observation source healthy and fresh; the user's
/// preferences, cap and cooldown still open (not counting this
/// intervention); and no other delivery of its key shown.
pub open spec fn recovery_authority(
    entry: PendingDelivery,
    pending: Seq<PendingDelivery>,
    intervention_id: u128,
    candidate_id: u128,
    session: FocusSession,
    decision: Option<PolicyDecision>,
    goal: Option<GoalStanding>,
    route: Option<RouteStanding>,
    p: EffectivePreferences,
    grants: Seq<PermissionGrant>,
    interventions: Seq<InterventionRecord>,
    live: Option<LiveSession>,
    now: i64,
    source_freshness: u64,
) -> bool {
    &&& now < entry.expires_at
    &&& session.state is Active && !session.muted
    &&& forall|j: int|
        0 <= j < entry.permission_grant_ids@.len() ==> grant_current_anywhere(grants, #[trigger] entry.permission_grant_ids@[j], now)
    &&& decision matches Some(d) && d.id == entry.policy_decision_id && d.candidate_id == candidate_id
        && d.candidate_revision == entry.candidate_revision && d.focus_session_id == session.id && d.outcome is Allow
        && now < d.expires_at
    &&& forall|j: int|
        0 <= j < decision->0.permission_grant_revisions@.len() ==> revision_still_current(
            grants,
            #[trigger] decision->0.permission_grant_revisions@[j],
            now,
        )
    &&& route matches Some(rt) && rt.revision == decision->0.model_route_revision && rt.current && !(rt.placement is Remote
        && !p.remote_processing_enabled)
    &&& goal matches Some(g) && g.state is Active && !(g.deadline matches Some(dl) && dl <= now)
    &&& live matches Some(l) && l.presence is Active && observation_sources_fresh(
        grants,
        decision->0.permission_grant_revisions@,
        l.source_health@,
        now,
        source_freshness,
    )
    &&& p.proactive_interventions_enabled && !p.proactive_interventions_muted && !quiet_now(p, now)
    &&& allows_native(p.allowed_delivery_channels@)
    &&& delivered_count(interventions, session.id, Some(intervention_id)) < p.maximum_interventions_per_session
    &&& !durable_cooldown(interventions, session.id, Some(intervention_id), now, p.intervention_cooldown)
    &&& !terminal_duplicate(pending, entry)
}

fn named_grants_current(ids: &Vec<u128>, grants: &Vec<PermissionGrant>, now: i64) -> (r: bool)
    ensures
        r == forall|j: int| 0 <= j < ids@.len() ==> grant_current_anywhere(grants@, #[trigger] ids@[j], now),
{
    let mut j: usize = 0;
    while j < ids.len()
        invariant
            j <= ids@.len(),
            forall|q: int| 0 <= q < j ==> grant_current_anywhere(grants@, #[trigger] ids@[q], now),
        decreases ids@.len() - j,
    {
        let id = ids[j];
        let mut k: usize = 0;
        let mut found = false;
        while k < grants.len()
            invariant
                k <= grants@.len(),
                found == exists|m: int| 0 <= m < k && (#[trigger] grants@[m]).id == id && grants@[m].spec_is_current_at(now),
            decreases grants@.len() - k,
        {
            if grants[k].id == id && grants[k].is_current_at(now) {
                found = true;
            }
            k = k + 1;
        }
        if !found {
            return false;
        }
        j = j + 1;
    }
    true
}

fn revisions_still_current(revisions: &Vec<GrantRevision>, grants: &Vec<PermissionGrant>, now: i64) -> (r: bool)
    ensures
        r == forall|j: int| 0 <= j < revisions@.len() ==> revision_still_current(grants@, #[trigger] revisions@[j], now),
{
    let mut j: usize = 0;
    while j < revisions.len()
        invariant
            j <= revisions@.len(),
            forall|q: int| 0 <= q < j ==> revision_still_current(grants@, #[trigger] revisions@[q], now),
        decreases revisions@.len() - j,
    {
        let want = revisions[j];
        let mut k: usize = 0;
        let mut found = false;
        while k < grants.len()
            invariant
                k <= grants@.len(),
                found == exists|m: int|
                    0 <= m < k && (#[trigger] grants@[m]).id == want.grant_id && grants@[m].revision == want.revision
                        && grants@[m].spec_is_current_at(now),
            decreases grants@.len() - k,
        {
            if grants[k].id == want.grant_id && grants[k].revision == want.revision && grants[k].is_current_at(now) {
                found = true;
            }
            k = k + 1;
        }
        if !found {
            return false;
        }
        j = j + 1;
    }
    true
}

fn has_terminal_duplicate(pending: &Vec<PendingDelivery>, entry: &PendingDelivery) -> (r: bool)
    ensures
        r == terminal_duplicate(pending@, *entry),
{
    let mut k: usize = 0;
    while k < pending.len()
        invariant
            k <= pending@.len(),
            forall|m: int|
                0 <= m < k ==> !((#[trigger] pending@[m]).id != entry.id && pending@[m].deduplication_key
                    == entry.deduplication_key && (pending@[m].state is AcceptedByChannel
                    || pending@[m].state is DeliveryUnknown)),
        decreases pending@.len() - k,
    {
        let o = &pending[k];
        let terminal = match o.state {
            OutboxState::AcceptedByChannel | OutboxState::DeliveryUnknown => true,
            _ => false,
        };
        if o.id != entry.id && o.deduplication_key == entry.deduplication_key && terminal {
            return true;
        }
        k = k + 1;
    }
    false
}

/// Decides what recovery does with one delivery of its batch at `now`: a
/// delivery that was being attempted, or was attempted before, becomes
/// unknown; one not yet due waits; one whose authority lapsed expires; and
/// one whose authority holds may be delivered again.
#[verifier::spinoff_prover]
#[verifier::rlimit(40)]
pub fn revalidate_recovery_entry(
    entry: &PendingDelivery,
    pending: &Vec<PendingDelivery>,
    intervention_id: u128,
    candidate_id: u128,
    session: &FocusSession,
    decision: Option<&PolicyDecision>,
    goal: Option<GoalStanding>,
    route: Option<RouteStanding>,
    preferences: &EffectivePreferences,
    grants: &Vec<PermissionGrant>,
    interventions: &Vec<InterventionRecord>,
    live: Option<&LiveSession>,
    now: i64,
    source_freshness: u64,
) -> (r: RecoveryVerdict)
    requires
        safe_instant(now),
    ensures
        r == if entry.state is Delivering || entry.attempt_count > 0 {
            RecoveryVerdict::MarkUnknown
        } else if entry.not_before > now {
            RecoveryVerdict::NotDue
        } else if recovery_authority(
            *entry,
            pending@,
            intervention_id,
            candidate_id,
            *session,
            match decision {
                Some(d) => Some(*d),
                None => None,
            },
            goal,
            route,
            *preferences,
            grants@,
            interventions@,
            match live {
                Some(l) => Some(*l),
                None => None,
            },
            now,
            source_freshness,
        ) {
            RecoveryVerdict::Redeliver
        } else {
            RecoveryVerdict::Expire
        },
{
    let attempted = match entry.state {
        OutboxState::Delivering => true,
        _ => entry.attempt_count > 0,
    };
    if attempted {
        return RecoveryVerdict::MarkUnknown;
    }
    if entry.not_before > now {
        return RecoveryVerdict::NotDue;
    }
    let d = match decision {
        Some(d) => d,
        None => return RecoveryVerdict::Expire,
    };
    let allowed = match d.outcome {
        PolicyOutcome::Allow => true,
        PolicyOutcome::Deny => false,
    };
    let session_active = match session.state {
        FocusSessionState::Active => true,
        _ => false,
    };
    if now >= entry.expires_at || !session_active || session.muted {
        return RecoveryVerdict::Expire;
    }
    if !named_grants_current(&entry.permission_grant_ids, grants, now) {
        return RecoveryVerdict::Expire;
    }
    if d.id != entry.policy_decision_id || d.candidate_id != candidate_id || d.candidate_revision != entry.candidate_revision
        || d.focus_session_id != session.id || !allowed || now >= d.expires_at
    {
        return RecoveryVerdict::Expire;
    }
    if !revisions_still_current(&d.permission_grant_revisions, grants, now) {
        return RecoveryVerdict::Expire;
    }
    let route_ok = match route {
        Some(rt) => rt.revision == d.model_route_revision && rt.current && !(match rt.placement {
            ModelPlacement::Remote => true,
            ModelPlacement::Local => false,
        } && !preferences.remote_processing_enabled),
        None => false,
    };
    let goal_ok = match goal {
        Some(g) => {
            let active = match g.state {
                GoalState::Active => true,
                _ => false,
            };
            active && match g.deadline {
                Some(dl) => now < dl,
                None => true,
            }
        },
        None => false,
    };
    if !route_ok || !goal_ok {
        return RecoveryVerdict::Expire;
    }
    let l = match live {
        Some(l) => l,
        None => return RecoveryVerdict::Expire,
    };
    let present = match l.presence {
        PresenceState::Active => true,
        _ => false,
    };
    if !present || !sources_fresh(grants, &d.permission_grant_revisions, &l.source_health, now, source_freshness) {
        return RecoveryVerdict::Expire;
    }
    if !preferences.proactive_interventions_enabled || preferences.proactive_interventions_muted
        || preferences.is_do_not_disturb(now) || !preferences.permits_native_notification()
    {
        return RecoveryVerdict::Expire;
    }
    if count_delivered(interventions, session.id, Some(intervention_id)) >= preferences.maximum_interventions_per_session as usize
        || cooldown_held(interventions, session.id, Some(intervention_id), now, preferences.intervention_cooldown)
    {
        return RecoveryVerdict::Expire;
    }
    if has_terminal_duplicate(pending, entry) {
        return RecoveryVerdict::Expire;
    }
    RecoveryVerdict::Redeliver
}

/// Recovery delivers an intervention at most once: while another delivery
/// of the same key has reached, or may have reached, the channel, no
/// delivery of that key has recovery authority, and neither does one whose
/// decision denied or expired.
pub proof fn law_recovery_never_redelivers_a_shown_key(
    entry: PendingDelivery,
    pending: Seq<PendingDelivery>,
    intervention_id: u128,
    candidate_id: u128,
    session: FocusSession,
    decision: Option<PolicyDecision>,
    goal: Option<GoalStanding>,
    route: Option<RouteStanding>,
    p: EffectivePreferences,
    grants: Seq<PermissionGrant>,
    interventions: Seq<InterventionRecord>,
    live: Option<LiveSession>,
    now: i64,
    source_freshness: u64,
)
    requires
        recovery_authority(
            entry,
            pending,
            intervention_id,
            candidate_id,
            session,
            decision,
            goal,
            route,
            p,
            grants,
            interventions,
            live,
            now,
            source_freshness,
        ),
    ensures
        !terminal_duplicate(pending, entry),
        forall|k: int|
            0 <= k < pending.len() && (#[trigger] pending[k]).id != entry.id && pending[k].deduplication_key
                == entry.deduplication_key ==> !(pending[k].state is AcceptedByChannel) && !(pending[k].state is DeliveryUnknown),
        decision matches Some(d) && d.outcome is Allow && now < d.expires_at && now < entry.expires_at,
{
}

} // verus!
