//! The deterministic delivery policy that decides, after the model proposed
//! a candidate, whether an intervention may be delivered, with every reason.

use vstd::prelude::*;
use crate::errors::{SecondMindError, SecondMindErrorCode, fails_plain};
use crate::gates::{count_delivered, count_queued, cooldown_held, delivered_count, durable_cooldown, queued_count, sat_sub, session_queued_count};
use crate::focus::{find_goal, find_route_approval, first_goal, first_route};
use crate::model::{
    FocusSession, FocusSessionState, Goal, InterventionRecord, InterventionState, OutboxEntry, OutboxState, PermissionGrant,
    PermissionScope, PresenceState,
};
use crate::evidence::{InterventionContent, scrub_intervention};
use crate::feedback::InterventionOutcome;
use crate::validation::{ModelPlacement, ModelRouteApproval};
use crate::delivery::{allows_native, quiet_now};
use crate::preferences::{EffectivePreferences, safe_instant};

verus! {

/// The policy profile every decision names first.
pub const POLICY_PROFILE_REASON: &'static str = "policy_profile:phase2-focus-v1";

/// What the delivery policy reads besides the user's preferences and the
/// durable records.
#[derive(Clone, Copy, Debug, PartialEq, Eq, Structural)]
pub struct PolicyContext {
    pub session_id: u128,
    pub session_muted: bool,
    pub candidate_id: u128,
    pub confidence_basis_points: u16,
    pub minimum_confidence_basis_points: u16,
    pub notification_available: bool,
    pub outbox_capacity_per_user: usize,
    pub outbox_capacity_per_session: usize,
    /// Interventions delivered in this process for the session.
    pub session_intervention_count: u16,
    /// The monotonic instant of the last delivery in this process.
    pub last_delivery_elapsed: Option<u64>,
    /// The monotonic instant now.
    pub elapsed: u64,
    pub presence: PresenceState,
}

/// `s`, with `reason` appended when `cond` holds.
#[verifier::opaque]
pub open spec fn push_if(s: Seq<&'static str>, cond: bool, reason: &'static str) -> Seq<&'static str> {
    if cond {
        s.push(reason)
    } else {
        s
    }
}

/// Whether the first revision of the candidate was already decided.
pub open spec fn candidate_decided(decided: Seq<(u128, u64)>, candidate_id: u128) -> bool {
    exists|i: int| 0 <= i < decided.len() && #[trigger] decided[i] == (candidate_id, 1u64)
}

/// Whether the durable records hold the session at its intervention cap.
pub open spec fn durable_cap(c: PolicyContext, p: EffectivePreferences, interventions: Seq<InterventionRecord>) -> bool {
    delivered_count(interventions, c.session_id, None) >= p.maximum_interventions_per_session
}

/// Whether the durable records hold the intervention cooldown at `now`.
pub open spec fn durable_hold(c: PolicyContext, p: EffectivePreferences, interventions: Seq<InterventionRecord>, now: i64) -> bool {
    durable_cooldown(interventions, c.session_id, None, now, p.intervention_cooldown)
}

/// Whether the outbox could not take the intervention while the channel is
/// unavailable.
pub open spec fn outbox_full(c: PolicyContext, interventions: Seq<InterventionRecord>, pending: Seq<OutboxEntry>) -> bool {
    !c.notification_available && (queued_count(pending) >= c.outbox_capacity_per_user || session_queued_count(
        pending,
        interventions,
        c.session_id,
    ) >= c.outbox_capacity_per_session)
}

/// Whether this process delivered too recently.
pub open spec fn recent_delivery(c: PolicyContext, p: EffectivePreferences) -> bool {
    c.last_delivery_elapsed matches Some(last) && sat_sub(c.elapsed, last) < p.intervention_cooldown
}

/// `start` followed by the reasons that deny the candidate, in the order
/// the policy checks them; a cap or cooldown found in both the durable
/// records and this process is named once.
pub open spec fn denial_reasons(
    start: Seq<&'static str>,
    c: PolicyContext,
    p: EffectivePreferences,
    now: i64,
    decided: Seq<(u128, u64)>,
    interventions: Seq<InterventionRecord>,
    pending: Seq<OutboxEntry>,
    grant: PermissionGrant,
) -> Seq<&'static str> {
    let s1 = push_if(start, !p.proactive_interventions_enabled, "proactive_interventions_disabled");
    let s2 = push_if(s1, c.session_muted || p.proactive_interventions_muted, "interventions_muted");
    let s3 = push_if(s2, quiet_now(p, now), "do_not_disturb");
    let s4 = push_if(s3, !allows_native(p.allowed_delivery_channels@), "delivery_channel_not_allowed");
    let s5 = push_if(s4, c.confidence_basis_points < c.minimum_confidence_basis_points, "candidate_confidence_too_low");
    let s6 = push_if(s5, candidate_decided(decided, c.candidate_id), "candidate_revision_already_decided");
    let s7 = push_if(s6, durable_cap(c, p, interventions), "session_intervention_cap");
    let s8 = push_if(s7, durable_hold(c, p, interventions, now), "intervention_cooldown");
    let s9 = push_if(s8, outbox_full(c, interventions, pending), "outbox_capacity");
    let s10 = push_if(
        s9,
        c.session_intervention_count >= p.maximum_interventions_per_session && !durable_cap(c, p, interventions),
        "session_intervention_cap",
    );
    let s11 = push_if(s10, recent_delivery(c, p) && !durable_hold(c, p, interventions, now), "intervention_cooldown");
    let s12 = push_if(s11, c.presence != PresenceState::Active, "presence_not_active");
    push_if(s12, !grant.spec_is_current_at(now), "notification_grant_not_current")
}

/// Whether any check denies the candidate.
pub open spec fn denied(
    c: PolicyContext,
    p: EffectivePreferences,
    now: i64,
    decided: Seq<(u128, u64)>,
    interventions: Seq<InterventionRecord>,
    pending: Seq<OutboxEntry>,
    grant: PermissionGrant,
) -> bool {
    ||| !p.proactive_interventions_enabled
    ||| c.session_muted || p.proactive_interventions_muted
    ||| quiet_now(p, now)
    ||| !allows_native(p.allowed_delivery_channels@)
    ||| c.confidence_basis_points < c.minimum_confidence_basis_points
    ||| candidate_decided(decided, c.candidate_id)
    ||| durable_cap(c, p, interventions)
    ||| durable_hold(c, p, interventions, now)
    ||| outbox_full(c, interventions, pending)
    ||| c.session_intervention_count >= p.maximum_interventions_per_session
    ||| recent_delivery(c, p)
    ||| c.presence != PresenceState::Active
    ||| !grant.spec_is_current_at(now)
}

/// The position of the first grant of `scope`.
pub open spec fn first_of_scope(grants: Seq<PermissionGrant>, scope: PermissionScope) -> Option<int>
    decreases grants.len(),
{
    if grants.len() == 0 {
        None
    } else {
        match first_of_scope(grants.drop_last(), scope) {
            Some(k) => Some(k),
            None => if grants.last().scope == scope {
                Some(grants.len() - 1)
            } else {
                None
            },
        }
    }
}

fn find_scope(grants: &Vec<PermissionGrant>, scope: PermissionScope) -> (r: Option<usize>)
    ensures
        match r {
            Some(k) => first_of_scope(grants@, scope) == Some(k as int) && k < grants@.len(),
            None => first_of_scope(grants@, scope) is None,
        },
{
    let mut i: usize = 0;
    while i < grants.len()
        invariant
            i <= grants@.len(),
            first_of_scope(grants@.subrange(0, i as int), scope) is None,
        decreases grants@.len() - i,
    {
        proof {
            assert(grants@.subrange(0, (i + 1) as int).drop_last() == grants@.subrange(0, i as int));
        }
        if grants[i].scope == scope {
            proof {
                lemma_first_of_scope_prefix(grants@, scope, (i + 1) as int);
            }
            return Some(i);
        }
        i = i + 1;
    }
    assert(grants@.subrange(0, i as int) == grants@);
    None
}

proof fn lemma_first_of_scope_prefix(grants: Seq<PermissionGrant>, scope: PermissionScope, n: int)
    requires
        0 <= n <= grants.len(),
        first_of_scope(grants.subrange(0, n), scope) is Some,
    ensures
        first_of_scope(grants, scope) == first_of_scope(grants.subrange(0, n), scope),
    decreases grants.len() - n,
{
    if n < grants.len() {
        assert(grants.subrange(0, n + 1).drop_last() == grants.subrange(0, n));
        lemma_first_of_scope_prefix(grants, scope, n + 1);
    } else {
        assert(grants.subrange(0, n) == grants);
    }
}

fn any_decided(decided: &Vec<(u128, u64)>, candidate_id: u128) -> (r: bool)
    ensures
        r == candidate_decided(decided@, candidate_id),
{
    let mut i: usize = 0;
    while i < decided.len()
        invariant
            i <= decided@.len(),
            forall|k: int| 0 <= k < i ==> decided@[k] != (candidate_id, 1u64),
        decreases decided@.len() - i,
    {
        let (id, revision) = decided[i];
        if id == candidate_id && revision == 1 {
            assert(decided@[i as int] == (candidate_id, 1u64));
            return true;
        }
        i = i + 1;
    }
    false
}

/// Decides whether a candidate may be delivered at `now` for the session
/// whose grants are `grants`, by every check of the deterministic policy.
/// Returns whether delivery is allowed and the decision's reasons: the
/// policy profile, then each denial, or `policy_checks_passed` when none
/// applies. A session without a notification grant is refused.
#[verifier::spinoff_prover]
#[verifier::rlimit(40)]
pub fn decide_delivery_policy(
    c: &PolicyContext,
    p: &EffectivePreferences,
    now: i64,
    decided: &Vec<(u128, u64)>,
    interventions: &Vec<InterventionRecord>,
    pending: &Vec<OutboxEntry>,
    grants: &Vec<PermissionGrant>,
) -> (r: Result<(bool, Vec<&'static str>), SecondMindError>)
    requires
        safe_instant(now),
    ensures
        match first_of_scope(grants@, PermissionScope::InterveneDesktopNotification) {
            None => fails_plain(r, SecondMindErrorCode::PermissionDenied, "Notification permission is missing.", false),
            Some(k) => {
                let g = grants@[k];
                let allow = !denied(*c, *p, now, decided@, interventions@, pending@, g);
                r matches Ok((a, reasons)) && a == allow && reasons@ == push_if(
                    denial_reasons(seq![POLICY_PROFILE_REASON], *c, *p, now, decided@, interventions@, pending@, g),
                    allow,
                    "policy_checks_passed",
                )
            },
        },
        (c.session_muted || p.proactive_interventions_muted) && r is Ok ==> (r matches Ok((a, reasons)) && !a
            && reasons@.contains("interventions_muted")),
{
    let k = match find_scope(grants, PermissionScope::InterveneDesktopNotification) {
        Some(k) => k,
        None => return Err(SecondMindError::permission("Notification permission is missing.")),
    };
    let grant = &grants[k];
    let disabled = !p.proactive_interventions_enabled;
    let muted = c.session_muted || p.proactive_interventions_muted;
    let quiet = p.is_do_not_disturb(now);
    let channel_refused = !p.permits_native_notification();
    let low_confidence = c.confidence_basis_points < c.minimum_confidence_basis_points;
    let already_decided = any_decided(decided, c.candidate_id);
    let at_cap = count_delivered(interventions, c.session_id, None) >= p.maximum_interventions_per_session as usize;
    let held = cooldown_held(interventions, c.session_id, None, now, p.intervention_cooldown);
    let full = if c.notification_available {
        false
    } else {
        let (all, mine) = count_queued(pending, interventions, c.session_id);
        all >= c.outbox_capacity_per_user || mine >= c.outbox_capacity_per_session
    };
    let process_cap = c.session_intervention_count >= p.maximum_interventions_per_session;
    let recent = match c.last_delivery_elapsed {
        Some(last) => c.elapsed.saturating_sub(last) < p.intervention_cooldown,
        None => false,
    };
    let absent = c.presence != PresenceState::Active;
    let stale_grant = !grant.is_current_at(now);
    let mut reasons: Vec<&'static str> = Vec::new();
    reasons.push(POLICY_PROFILE_REASON);
    assert(reasons@ == seq![POLICY_PROFILE_REASON]);
    push_when(&mut reasons, disabled, "proactive_interventions_disabled");
    push_when(&mut reasons, muted, "interventions_muted");
    push_when(&mut reasons, quiet, "do_not_disturb");
    push_when(&mut reasons, channel_refused, "delivery_channel_not_allowed");
    push_when(&mut reasons, low_confidence, "candidate_confidence_too_low");
    push_when(&mut reasons, already_decided, "candidate_revision_already_decided");
    push_when(&mut reasons, at_cap, "session_intervention_cap");
    push_when(&mut reasons, held, "intervention_cooldown");
    push_when(&mut reasons, full, "outbox_capacity");
    push_when(&mut reasons, process_cap && !at_cap, "session_intervention_cap");
    push_when(&mut reasons, recent && !held, "intervention_cooldown");
    push_when(&mut reasons, absent, "presence_not_active");
    push_when(&mut reasons, stale_grant, "notification_grant_not_current");
    let allow = !(disabled || muted || quiet || channel_refused || low_confidence || already_decided || at_cap || held
        || full || process_cap || recent || absent || stale_grant);
    push_when(&mut reasons, allow, "policy_checks_passed");
    proof {
        if c.session_muted || p.proactive_interventions_muted {
            law_muted_interventions_are_denied(*c, *p, now, decided@, interventions@, pending@, grants@[k as int]);
        }
    }
    Ok((allow, reasons))
}

fn push_when(v: &mut Vec<&'static str>, cond: bool, reason: &'static str)
    ensures
        final(v)@ == push_if(old(v)@, cond, reason),
{
    reveal(push_if);
    if cond {
        v.push(reason);
    }
}

/// How an attempt to hand the intervention to the notification channel
/// ended.
#[derive(Clone, Copy, Debug, PartialEq, Eq, Structural)]
pub enum ChannelAttempt {
    /// The channel accepted the notification.
    Accepted,
    /// The channel could not say whether the notification was shown.
    Unknown,
    /// The attempt did not finish within its deadline.
    TimedOut,
    /// The channel reported the delivery failed.
    Failed,
    /// The channel adapter returned an error.
    AdapterError,
    /// The channel was unavailable, so nothing was attempted.
    NotAttempted,
}

/// What becomes of an intervention after a delivery attempt.
#[derive(Clone, Copy, Debug, PartialEq, Eq, Structural)]
pub enum DeliverySettlement {
    /// The intervention takes `state`; its content is scrubbed when
    /// `scrub`, and `counts` says whether it counts as a delivery for the
    /// session's cap and cooldown.
    Settled { state: InterventionState, scrub: bool, counts: bool },
    /// The intervention waits in the outbox for the channel.
    Queue,
}

/// Settles an intervention after a delivery attempt. A shown or possibly
/// shown notification counts as delivered; a failed one is recorded as
/// failed while authority holds and cancelled and scrubbed otherwise; an
/// unavailable channel queues the intervention while authority holds.
pub fn settle_delivery_attempt(attempt: ChannelAttempt, authority_after_attempt: bool) -> (r: DeliverySettlement)
    ensures
        r == match attempt {
            ChannelAttempt::Accepted => DeliverySettlement::Settled {
                state: InterventionState::AcceptedByChannel,
                scrub: false,
                counts: true,
            },
            ChannelAttempt::Unknown | ChannelAttempt::TimedOut => DeliverySettlement::Settled {
                state: InterventionState::DeliveryUnknown,
                scrub: false,
                counts: true,
            },
            ChannelAttempt::Failed | ChannelAttempt::AdapterError => if authority_after_attempt {
                DeliverySettlement::Settled { state: InterventionState::DeliveryFailed, scrub: false, counts: false }
            } else {
                DeliverySettlement::Settled { state: InterventionState::Cancelled, scrub: true, counts: false }
            },
            ChannelAttempt::NotAttempted => if authority_after_attempt {
                DeliverySettlement::Queue
            } else {
                DeliverySettlement::Settled { state: InterventionState::Cancelled, scrub: true, counts: false }
            },
        },
{
    match attempt {
        ChannelAttempt::Accepted => DeliverySettlement::Settled {
            state: InterventionState::AcceptedByChannel,
            scrub: false,
            counts: true,
        },
        ChannelAttempt::Unknown | ChannelAttempt::TimedOut => DeliverySettlement::Settled {
            state: InterventionState::DeliveryUnknown,
            scrub: false,
            counts: true,
        },
        ChannelAttempt::Failed | ChannelAttempt::AdapterError => if authority_after_attempt {
            DeliverySettlement::Settled { state: InterventionState::DeliveryFailed, scrub: false, counts: false }
        } else {
            DeliverySettlement::Settled { state: InterventionState::Cancelled, scrub: true, counts: false }
        },
        ChannelAttempt::NotAttempted => if authority_after_attempt {
            DeliverySettlement::Queue
        } else {
            DeliverySettlement::Settled { state: InterventionState::Cancelled, scrub: true, counts: false }
        },
    }
}

/// The smaller of two instants.
pub open spec fn earlier(a: int, b: int) -> int {
    if a <= b {
        a
    } else {
        b
    }
}

/// When an allowed intervention expires: the earliest of the outbox entry
/// lifetime and the policy decision's validity (both from `now`),
/// the notification grant's expiry, and the goal deadline and route expiry
/// where they exist.
pub open spec fn spec_intervention_expiry(
    now: i64,
    outbox_ttl: u64,
    policy_validity: u64,
    grant_expires_at: i64,
    goal_deadline: Option<i64>,
    route_expires_at: Option<i64>,
) -> int {
    let e1 = earlier(earlier(now + outbox_ttl, now + policy_validity), grant_expires_at as int);
    let e2 = match goal_deadline {
        Some(d) => earlier(e1, d as int),
        None => e1,
    };
    match route_expires_at {
        Some(x) => earlier(e2, x as int),
        None => e2,
    }
}

/// Computes when an allowed intervention expires.
pub fn intervention_expiry(
    now: i64,
    outbox_ttl: u64,
    policy_validity: u64,
    grant_expires_at: i64,
    goal_deadline: Option<i64>,
    route_expires_at: Option<i64>,
) -> (r: i64)
    requires
        now + outbox_ttl <= i64::MAX,
        now + policy_validity <= i64::MAX,
    ensures
        r == spec_intervention_expiry(now, outbox_ttl, policy_validity, grant_expires_at, goal_deadline, route_expires_at),
{
    let mut expiry = (now as i128 + outbox_ttl as i128) as i64;
    let decision_expiry = (now as i128 + policy_validity as i128) as i64;
    if decision_expiry < expiry {
        expiry = decision_expiry;
    }
    if grant_expires_at < expiry {
        expiry = grant_expires_at;
    }
    match goal_deadline {
        Some(d) => if d < expiry {
            expiry = d;
        },
        None => {},
    }
    match route_expires_at {
        Some(x) => if x < expiry {
            expiry = x;
        },
        None => {},
    }
    expiry
}

/// Why the user's preferences silence a reasoning cycle now, if they do.
pub open spec fn preference_silence(session: FocusSession, p: EffectivePreferences, now: i64) -> Option<&'static str> {
    if !p.proactive_interventions_enabled {
        Some("proactive_interventions_disabled")
    } else if session.muted || p.proactive_interventions_muted {
        Some("interventions_muted")
    } else if quiet_now(p, now) {
        Some("do_not_disturb")
    } else if !allows_native(p.allowed_delivery_channels@) {
        Some("delivery_channel_not_allowed")
    } else {
        None
    }
}

/// Why the session's route silences a reasoning cycle now, if it does: a
/// remote route needs remote processing, and the route and model must be
/// available.
pub open spec fn route_silence(p: EffectivePreferences, route: ModelRouteApproval, now: i64, model_available: bool) -> Option<&'static str> {
    if route.placement == ModelPlacement::Remote && !p.remote_processing_enabled {
        Some("remote_processing_disabled")
    } else if !route.spec_is_current_at(now) || !model_available {
        Some("reasoning_route_unavailable")
    } else {
        None
    }
}

/// Decides whether a reasoning cycle for `session` goes on to read
/// evidence: an inactive session is silent; otherwise its goal must exist,
/// the user's preferences may silence it, its route must exist, and the
/// route may silence it.
pub fn reasoning_precheck(
    session: &FocusSession,
    goals: &Vec<Goal>,
    preferences: &EffectivePreferences,
    routes: &Vec<ModelRouteApproval>,
    now: i64,
    model_available: bool,
) -> (r: Result<Option<&'static str>, SecondMindError>)
    requires
        safe_instant(now),
    ensures
        if session.state != FocusSessionState::Active {
            r == Ok::<Option<&'static str>, SecondMindError>(Some("session_not_active"))
        } else if first_goal(goals@, session.owner, session.goal_id) is None {
            fails_plain(r, SecondMindErrorCode::NotFound, "The goal was not found.", false)
        } else if preference_silence(*session, *preferences, now) is Some {
            r == Ok::<Option<&'static str>, SecondMindError>(preference_silence(*session, *preferences, now))
        } else {
            match first_route(routes@, session.model_route_approval_id) {
                None => fails_plain(r, SecondMindErrorCode::NotFound, "The model route approval was not found.", false),
                Some(k) => r == Ok::<Option<&'static str>, SecondMindError>(
                    route_silence(*preferences, routes@[k], now, model_available),
                ),
            }
        },
        quiet_now(*preferences, now) ==> r != Ok::<Option<&'static str>, SecondMindError>(None),
        (session.muted || preferences.proactive_interventions_muted || !preferences.proactive_interventions_enabled)
            ==> r != Ok::<Option<&'static str>, SecondMindError>(None),
{
    proof {
        law_preferences_silence_reasoning(*session, *preferences, now);
    }
    if session.state != FocusSessionState::Active {
        return Ok(Some("session_not_active"));
    }
    match find_goal(goals, session.owner, session.goal_id) {
        Some(_) => {},
        None => return Err(SecondMindError::not_found("The goal was not found.")),
    }
    if !preferences.proactive_interventions_enabled {
        return Ok(Some("proactive_interventions_disabled"));
    }
    if session.muted || preferences.proactive_interventions_muted {
        return Ok(Some("interventions_muted"));
    }
    if preferences.is_do_not_disturb(now) {
        return Ok(Some("do_not_disturb"));
    }
    if !preferences.permits_native_notification() {
        return Ok(Some("delivery_channel_not_allowed"));
    }
    let k = match find_route_approval(routes, session.model_route_approval_id) {
        Some(k) => k,
        None => return Err(SecondMindError::not_found("The model route approval was not found.")),
    };
    let route = &routes[k];
    if route.placement == ModelPlacement::Remote && !preferences.remote_processing_enabled {
        return Ok(Some("remote_processing_disabled"));
    }
    if !route.is_current_at(now) || !model_available {
        return Ok(Some("reasoning_route_unavailable"));
    }
    Ok(None)
}

/// What a reasoning cycle does once its decision and audit commit returns,
/// or misses its deadline.
#[derive(Clone, Copy, Debug, PartialEq, Eq)]
pub enum AfterAudit {
    /// The cycle ends silent for this reason and delivers nothing.
    Silence(&'static str),
    /// The committed intervention is published and revalidated for
    /// delivery.
    PublishAndRevalidate,
}

/// The step after the decision commit: without a durable audit
/// acknowledgement in time the cycle is silent and publishes nothing; a
/// denied decision is silent after its audit; only an allowed, audited
/// intervention goes on towards delivery.
pub open spec fn spec_after_audit(acknowledged: bool, allowed: bool) -> AfterAudit {
    if !acknowledged {
        AfterAudit::Silence("audit_acknowledgement_unavailable")
    } else if !allowed {
        AfterAudit::Silence("deterministic_policy_denied")
    } else {
        AfterAudit::PublishAndRevalidate
    }
}

/// Decides the step after the decision commit.
pub fn after_audit(acknowledged: bool, allowed: bool) -> (r: AfterAudit)
    ensures
        r == spec_after_audit(acknowledged, allowed),
{
    if !acknowledged {
        AfterAudit::Silence("audit_acknowledgement_unavailable")
    } else if !allowed {
        AfterAudit::Silence("deterministic_policy_denied")
    } else {
        AfterAudit::PublishAndRevalidate
    }
}

/// What recovery does with a queued delivery once the audit of its fresh
/// decision returns.
#[derive(Clone, Copy, Debug, PartialEq, Eq, Structural)]
pub enum AfterRecoveryAudit {
    /// The audit was not acknowledged in time: the delivery stays queued.
    Skip,
    /// Authority lapsed after the audit: the delivery is cancelled and its
    /// intervention recorded as missed.
    CancelAsMissed,
    /// The delivery is attempted.
    Attempt,
}

/// The step after a recovery decision commit.
pub open spec fn spec_after_recovery_audit(acknowledged: bool, authority_current: bool) -> AfterRecoveryAudit {
    if !acknowledged {
        AfterRecoveryAudit::Skip
    } else if !authority_current {
        AfterRecoveryAudit::CancelAsMissed
    } else {
        AfterRecoveryAudit::Attempt
    }
}

/// Decides the step after a recovery decision commit.
pub fn after_recovery_audit(acknowledged: bool, authority_current: bool) -> (r: AfterRecoveryAudit)
    ensures
        r == spec_after_recovery_audit(acknowledged, authority_current),
{
    if !acknowledged {
        AfterRecoveryAudit::Skip
    } else if !authority_current {
        AfterRecoveryAudit::CancelAsMissed
    } else {
        AfterRecoveryAudit::Attempt
    }
}

/// No delivery is attempted before its audit is durably acknowledged, and
/// an audit that misses its deadline leaves a cycle silent.
pub proof fn law_no_delivery_before_acknowledged_audit(acknowledged: bool, allowed: bool, authority_current: bool)
    ensures
        spec_after_audit(acknowledged, allowed) is PublishAndRevalidate ==> acknowledged && allowed,
        !acknowledged ==> spec_after_audit(acknowledged, allowed) == AfterAudit::Silence(
            "audit_acknowledgement_unavailable",
        ),
        spec_after_recovery_audit(acknowledged, authority_current) is Attempt ==> acknowledged && authority_current,
{
}

/// The lifecycle fields of an intervention that delivery changes.
#[derive(Clone, Copy, Debug, PartialEq, Eq)]
pub struct InterventionLifecycle {
    pub state: InterventionState,
    pub outcome: InterventionOutcome,
    pub outcome_at: Option<i64>,
    pub reason_code: &'static str,
    pub revision: u64,
    pub updated_at: i64,
}

/// The lifecycle of an intervention recorded as missed at `now`: expired
/// (cancelled when authority lapsed after a fresh audit), with an expired
/// outcome, the missed-intervention reason and the next revision
/// (saturating).
pub open spec fn missed_lifecycle(life: InterventionLifecycle, after_audit: bool, now: i64) -> InterventionLifecycle {
    InterventionLifecycle {
        state: if after_audit {
            InterventionState::Cancelled
        } else {
            InterventionState::Expired
        },
        outcome: InterventionOutcome::Expired,
        outcome_at: Some(now),
        reason_code: "missed_intervention",
        revision: if life.revision == u64::MAX {
            u64::MAX
        } else {
            (life.revision + 1) as u64
        },
        updated_at: now,
    }
}

/// Records a queued intervention as missed: its lifecycle as
/// `missed_lifecycle` gives, its text and evidence scrubbed, and the state
/// its outbox entry is saved in, with its text cleared.
pub fn record_missed(
    life: &mut InterventionLifecycle,
    content: &mut InterventionContent,
    after_audit: bool,
    now: i64,
) -> (entry_state: OutboxState)
    ensures
        *final(life) == missed_lifecycle(*old(life), after_audit, now),
        final(content).state == final(life).state,
        final(content).user_visible_text@.len() == 0,
        final(content).evidence_summary@.len() == 0,
        final(content).evidence@.len() == 0,
        entry_state == if after_audit {
            OutboxState::Cancelled
        } else {
            OutboxState::Expired
        },
{
    let state = if after_audit {
        InterventionState::Cancelled
    } else {
        InterventionState::Expired
    };
    *life = InterventionLifecycle {
        state,
        outcome: InterventionOutcome::Expired,
        outcome_at: Some(now),
        reason_code: "missed_intervention",
        revision: life.revision.saturating_add(1),
        updated_at: now,
    };
    content.state = state;
    scrub_intervention(content);
    if after_audit {
        OutboxState::Cancelled
    } else {
        OutboxState::Expired
    }
}

/// How a model request ended without output.
#[derive(Clone, Copy, Debug, PartialEq, Eq, Structural)]
pub enum ModelFailure {
    Cancelled,
    DeadlineExceeded,
    /// The request outlived the model deadline.
    TimedOut,
    /// Any other gateway failure.
    Failed,
}

/// The silence a failed model request ends the cycle with.
pub fn model_failure_reason(failure: ModelFailure) -> (r: &'static str)
    ensures
        r == match failure {
            ModelFailure::Failed => "reasoning_failed",
            _ => "reasoning_cancelled_or_timed_out",
        },
{
    match failure {
        ModelFailure::Failed => "reasoning_failed",
        _ => "reasoning_cancelled_or_timed_out",
    }
}

/// A policy decision always explains itself: a denied candidate names at
/// least one reason besides the policy profile and never claims the checks
/// passed, and an allowed candidate names the profile and that the checks
/// passed, nothing else.
pub proof fn law_decisions_name_their_reasons(
    c: PolicyContext,
    p: EffectivePreferences,
    now: i64,
    decided: Seq<(u128, u64)>,
    interventions: Seq<InterventionRecord>,
    pending: Seq<OutboxEntry>,
    grant: PermissionGrant,
)
    ensures
        ({
            let allow = !denied(c, p, now, decided, interventions, pending, grant);
            let reasons = push_if(
                denial_reasons(seq![POLICY_PROFILE_REASON], c, p, now, decided, interventions, pending, grant),
                allow,
                "policy_checks_passed",
            );
            &&& allow ==> reasons == seq![POLICY_PROFILE_REASON, "policy_checks_passed"]
            &&& !allow ==> reasons.len() > 1 && reasons[0] == POLICY_PROFILE_REASON && !reasons.contains(
                "policy_checks_passed",
            )
        }),
{
    reveal(push_if);
    let allow = !denied(c, p, now, decided, interventions, pending, grant);
    let d = denial_reasons(seq![POLICY_PROFILE_REASON], c, p, now, decided, interventions, pending, grant);
    lemma_denials_extend(c, p, now, decided, interventions, pending, grant);
    assert(reasons_shape(d, !allow));
    if allow {
        assert(d == seq![POLICY_PROFILE_REASON]);
        assert(d.push("policy_checks_passed") =~= seq![POLICY_PROFILE_REASON, "policy_checks_passed"]);
    } else {
        assert(d.len() > 1);
        assert forall|i: int| 0 <= i < d.len() implies d[i] != "policy_checks_passed" by {
            reveal_strlit("policy_checks_passed");
            reveal_strlit("policy_profile:phase2-focus-v1");
            reveal_strlit("proactive_interventions_disabled");
            reveal_strlit("interventions_muted");
            reveal_strlit("do_not_disturb");
            reveal_strlit("delivery_channel_not_allowed");
            reveal_strlit("candidate_confidence_too_low");
            reveal_strlit("candidate_revision_already_decided");
            reveal_strlit("session_intervention_cap");
            reveal_strlit("intervention_cooldown");
            reveal_strlit("outbox_capacity");
            reveal_strlit("presence_not_active");
            reveal_strlit("notification_grant_not_current");
        }
    }
}

/// `s` starts with the policy profile, continues with denial reasons only,
/// and has any exactly when `flag` holds.
spec fn reasons_shape(s: Seq<&'static str>, flag: bool) -> bool {
    &&& s.len() >= 1 && s[0] == POLICY_PROFILE_REASON
    &&& (s.len() > 1 <==> flag)
    &&& forall|i: int| 1 <= i < s.len() ==> is_denial_reason(#[trigger] s[i])
}

proof fn lemma_push_reason(s: Seq<&'static str>, flag: bool, cond: bool, r: &'static str)
    requires
        reasons_shape(s, flag),
        is_denial_reason(r),
    ensures
        reasons_shape(push_if(s, cond, r), flag || cond),
{
    reveal(push_if);
    if cond {
        assert forall|i: int| 1 <= i < s.push(r).len() implies is_denial_reason(#[trigger] s.push(r)[i]) by {
            if i < s.len() {
                assert(s.push(r)[i] == s[i]);
            }
        }
    }
}

/// Every reason the policy appends is one of its denial reasons, after the
/// starting profile; there is one exactly when some check denies.
proof fn lemma_denials_extend(
    c: PolicyContext,
    p: EffectivePreferences,
    now: i64,
    decided: Seq<(u128, u64)>,
    interventions: Seq<InterventionRecord>,
    pending: Seq<OutboxEntry>,
    grant: PermissionGrant,
)
    ensures
        reasons_shape(
            denial_reasons(seq![POLICY_PROFILE_REASON], c, p, now, decided, interventions, pending, grant),
            denied(c, p, now, decided, interventions, pending, grant),
        ),
{
    let s0 = seq![POLICY_PROFILE_REASON];
    assert(reasons_shape(s0, false));
    let c1 = !p.proactive_interventions_enabled;
    let c2 = c.session_muted || p.proactive_interventions_muted;
    let c3 = quiet_now(p, now);
    let c4 = !allows_native(p.allowed_delivery_channels@);
    let c5 = c.confidence_basis_points < c.minimum_confidence_basis_points;
    let c6 = candidate_decided(decided, c.candidate_id);
    let c7 = durable_cap(c, p, interventions);
    let c8 = durable_hold(c, p, interventions, now);
    let c9 = outbox_full(c, interventions, pending);
    let c10 = c.session_intervention_count >= p.maximum_interventions_per_session && !c7;
    let c11 = recent_delivery(c, p) && !c8;
    let c12 = c.presence != PresenceState::Active;
    let c13 = !grant.spec_is_current_at(now);
    let s1 = push_if(s0, c1, "proactive_interventions_disabled");
    lemma_push_reason(s0, false, c1, "proactive_interventions_disabled");
    let s2 = push_if(s1, c2, "interventions_muted");
    lemma_push_reason(s1, c1, c2, "interventions_muted");
    let s3 = push_if(s2, c3, "do_not_disturb");
    lemma_push_reason(s2, c1 || c2, c3, "do_not_disturb");
    let s4 = push_if(s3, c4, "delivery_channel_not_allowed");
    lemma_push_reason(s3, c1 || c2 || c3, c4, "delivery_channel_not_allowed");
    let s5 = push_if(s4, c5, "candidate_confidence_too_low");
    lemma_push_reason(s4, c1 || c2 || c3 || c4, c5, "candidate_confidence_too_low");
    let s6 = push_if(s5, c6, "candidate_revision_already_decided");
    lemma_push_reason(s5, c1 || c2 || c3 || c4 || c5, c6, "candidate_revision_already_decided");
    let f6 = c1 || c2 || c3 || c4 || c5 || c6;
    let s7 = push_if(s6, c7, "session_intervention_cap");
    lemma_push_reason(s6, f6, c7, "session_intervention_cap");
    let s8 = push_if(s7, c8, "intervention_cooldown");
    lemma_push_reason(s7, f6 || c7, c8, "intervention_cooldown");
    let s9 = push_if(s8, c9, "outbox_capacity");
    lemma_push_reason(s8, f6 || c7 || c8, c9, "outbox_capacity");
    let f9 = f6 || c7 || c8 || c9;
    let s10 = push_if(s9, c10, "session_intervention_cap");
    lemma_push_reason(s9, f9, c10, "session_intervention_cap");
    let s11 = push_if(s10, c11, "intervention_cooldown");
    lemma_push_reason(s10, f9 || c10, c11, "intervention_cooldown");
    let s12 = push_if(s11, c12, "presence_not_active");
    lemma_push_reason(s11, f9 || c10 || c11, c12, "presence_not_active");
    let s13 = push_if(s12, c13, "notification_grant_not_current");
    lemma_push_reason(s12, f9 || c10 || c11 || c12, c13, "notification_grant_not_current");
    assert(denial_reasons(s0, c, p, now, decided, interventions, pending, grant) == s13);
    assert((f9 || c10 || c11 || c12 || c13) == denied(c, p, now, decided, interventions, pending, grant));
}

/// Whether `r` names a denial.
pub open spec fn is_denial_reason(r: &'static str) -> bool {
    ||| r == "proactive_interventions_disabled"
    ||| r == "interventions_muted"
    ||| r == "do_not_disturb"
    ||| r == "delivery_channel_not_allowed"
    ||| r == "candidate_confidence_too_low"
    ||| r == "candidate_revision_already_decided"
    ||| r == "session_intervention_cap"
    ||| r == "intervention_cooldown"
    ||| r == "outbox_capacity"
    ||| r == "presence_not_active"
    ||| r == "notification_grant_not_current"
}

/// Only an intervention whose channel was unavailable, while its authority
/// still held, waits in the outbox; a timed-out attempt is a terminal
/// unknown delivery and is never queued.
pub proof fn law_only_unattempted_deliveries_are_queued(attempt: ChannelAttempt, authority_after_attempt: bool, r: DeliverySettlement)
    requires
        r == match attempt {
            ChannelAttempt::Accepted => DeliverySettlement::Settled {
                state: InterventionState::AcceptedByChannel,
                scrub: false,
                counts: true,
            },
            ChannelAttempt::Unknown | ChannelAttempt::TimedOut => DeliverySettlement::Settled {
                state: InterventionState::DeliveryUnknown,
                scrub: false,
                counts: true,
            },
            ChannelAttempt::Failed | ChannelAttempt::AdapterError => if authority_after_attempt {
                DeliverySettlement::Settled { state: InterventionState::DeliveryFailed, scrub: false, counts: false }
            } else {
                DeliverySettlement::Settled { state: InterventionState::Cancelled, scrub: true, counts: false }
            },
            ChannelAttempt::NotAttempted => if authority_after_attempt {
                DeliverySettlement::Queue
            } else {
                DeliverySettlement::Settled { state: InterventionState::Cancelled, scrub: true, counts: false }
            },
        },
    ensures
        r is Queue <==> attempt == ChannelAttempt::NotAttempted && authority_after_attempt,
        attempt == ChannelAttempt::TimedOut ==> r == (DeliverySettlement::Settled {
            state: InterventionState::DeliveryUnknown,
            scrub: false,
            counts: true,
        }),
        r matches DeliverySettlement::Settled { state, scrub, .. } ==> (scrub <==> state == InterventionState::Cancelled),
{
}


/// `x` stays among the reasons whatever is appended after it.
proof fn lemma_reason_kept(s: Seq<&'static str>, cond: bool, r: &'static str, x: &'static str)
    requires
        s.contains(x),
    ensures
        push_if(s, cond, r).contains(x),
{
    reveal(push_if);
    if cond {
        let i = choose|i: int| 0 <= i < s.len() && s[i] == x;
        assert(s.push(r)[i] == x);
    }
}

/// The user's mute always wins: when the session or the preferences mute
/// interventions, the candidate is denied and the decision names
/// `interventions_muted` among its reasons, whatever else holds.
pub proof fn law_muted_interventions_are_denied(
    c: PolicyContext,
    p: EffectivePreferences,
    now: i64,
    decided: Seq<(u128, u64)>,
    interventions: Seq<InterventionRecord>,
    pending: Seq<OutboxEntry>,
    grant: PermissionGrant,
)
    requires
        c.session_muted || p.proactive_interventions_muted,
    ensures
        denied(c, p, now, decided, interventions, pending, grant),
        push_if(
            denial_reasons(seq![POLICY_PROFILE_REASON], c, p, now, decided, interventions, pending, grant),
            !denied(c, p, now, decided, interventions, pending, grant),
            "policy_checks_passed",
        ).contains("interventions_muted"),
{
    let s0 = seq![POLICY_PROFILE_REASON];
    let s1 = push_if(s0, !p.proactive_interventions_enabled, "proactive_interventions_disabled");
    let s2 = push_if(s1, c.session_muted || p.proactive_interventions_muted, "interventions_muted");
    assert(s2.contains("interventions_muted")) by {
        reveal(push_if);
        assert(s1.push("interventions_muted")[s1.len() as int] == "interventions_muted");
    }
    let s3 = push_if(s2, quiet_now(p, now), "do_not_disturb");
    lemma_reason_kept(s2, quiet_now(p, now), "do_not_disturb", "interventions_muted");
    let s4 = push_if(s3, !allows_native(p.allowed_delivery_channels@), "delivery_channel_not_allowed");
    lemma_reason_kept(s3, !allows_native(p.allowed_delivery_channels@), "delivery_channel_not_allowed", "interventions_muted");
    let c5 = c.confidence_basis_points < c.minimum_confidence_basis_points;
    let s5 = push_if(s4, c5, "candidate_confidence_too_low");
    lemma_reason_kept(s4, c5, "candidate_confidence_too_low", "interventions_muted");
    let c6 = candidate_decided(decided, c.candidate_id);
    let s6 = push_if(s5, c6, "candidate_revision_already_decided");
    lemma_reason_kept(s5, c6, "candidate_revision_already_decided", "interventions_muted");
    let c7 = durable_cap(c, p, interventions);
    let s7 = push_if(s6, c7, "session_intervention_cap");
    lemma_reason_kept(s6, c7, "session_intervention_cap", "interventions_muted");
    let c8 = durable_hold(c, p, interventions, now);
    let s8 = push_if(s7, c8, "intervention_cooldown");
    lemma_reason_kept(s7, c8, "intervention_cooldown", "interventions_muted");
    let c9 = outbox_full(c, interventions, pending);
    let s9 = push_if(s8, c9, "outbox_capacity");
    lemma_reason_kept(s8, c9, "outbox_capacity", "interventions_muted");
    let c10 = c.session_intervention_count >= p.maximum_interventions_per_session && !c7;
    let s10 = push_if(s9, c10, "session_intervention_cap");
    lemma_reason_kept(s9, c10, "session_intervention_cap", "interventions_muted");
    let c11 = recent_delivery(c, p) && !c8;
    let s11 = push_if(s10, c11, "intervention_cooldown");
    lemma_reason_kept(s10, c11, "intervention_cooldown", "interventions_muted");
    let c12 = c.presence != PresenceState::Active;
    let s12 = push_if(s11, c12, "presence_not_active");
    lemma_reason_kept(s11, c12, "presence_not_active", "interventions_muted");
    let c13 = !grant.spec_is_current_at(now);
    let s13 = push_if(s12, c13, "notification_grant_not_current");
    lemma_reason_kept(s12, c13, "notification_grant_not_current", "interventions_muted");
    assert(denial_reasons(s0, c, p, now, decided, interventions, pending, grant) == s13);
    lemma_reason_kept(s13, !denied(c, p, now, decided, interventions, pending, grant), "policy_checks_passed", "interventions_muted");
}

/// A reasoning cycle never spends model cost against the user's wishes:
/// with proactive interventions disabled or muted, or during any
/// do-not-disturb window, the preferences silence it.
pub proof fn law_preferences_silence_reasoning(session: FocusSession, p: EffectivePreferences, now: i64)
    ensures
        quiet_now(p, now) ==> preference_silence(session, p, now) is Some,
        (session.muted || p.proactive_interventions_muted || !p.proactive_interventions_enabled)
            ==> preference_silence(session, p, now) is Some,
        preference_silence(session, p, now) is None ==> p.proactive_interventions_enabled && !session.muted
            && !p.proactive_interventions_muted && !quiet_now(p, now) && allows_native(p.allowed_delivery_channels@),
{
}

} // verus!
