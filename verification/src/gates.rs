//! The deterministic gates in front of model reasoning and delivery.

use vstd::prelude::*;
use crate::model::{DataCategory, InterventionRecord, InterventionState, OutboxEntry, OutboxState, PermissionScope};

verus! {

/// One hour in milliseconds.
pub const HOUR_MS: u64 = 3_600_000;

/// `a - b`, or zero when `b` exceeds `a`.
pub open spec fn sat_sub(a: u64, b: u64) -> int {
    if a >= b {
        a - b
    } else {
        0
    }
}

/// The history with its prefix of requests at least an hour old removed.
pub open spec fn prune_history(h: Seq<u64>, elapsed: u64) -> Seq<u64>
    decreases h.len(),
{
    if h.len() > 0 && sat_sub(elapsed, h[0]) >= HOUR_MS {
        prune_history(h.drop_first(), elapsed)
    } else {
        h
    }
}

/// The per-session model request budget: at most one request in flight, a
/// rolling hourly cap and a cooldown between request starts.
#[derive(Clone, Debug, PartialEq, Eq)]
pub struct ModelRequestBudget {
    pub in_flight: bool,
    /// Monotonic start times of the requests of the last hour, oldest first.
    pub history: Vec<u64>,
}

impl ModelRequestBudget {
    /// An idle budget with no history.
    pub fn new() -> (b: Self)
        ensures
            !b.in_flight,
            b.history@.len() == 0,
    {
        ModelRequestBudget { in_flight: false, history: Vec::new() }
    }

    /// Tries to start a model request at monotonic time `elapsed`.
    pub fn begin(&mut self, elapsed: u64, maximum_per_hour: u16, cooldown: u64) -> (r: Result<(), &'static str>)
        ensures
            old(self).in_flight ==> r == Err::<(), &'static str>("model_request_in_flight") && *final(self)
                == *old(self),
            !old(self).in_flight ==> ({
                let p = prune_history(old(self).history@, elapsed);
                if maximum_per_hour == 0 || p.len() >= maximum_per_hour {
                    &&& r == Err::<(), &'static str>("model_hourly_budget_exhausted")
                    &&& final(self).history@ == p
                    &&& !final(self).in_flight
                } else if p.len() > 0 && sat_sub(elapsed, p.last()) < cooldown {
                    &&& r == Err::<(), &'static str>("model_request_cooldown")
                    &&& final(self).history@ == p
                    &&& !final(self).in_flight
                } else {
                    &&& r == Ok::<(), &'static str>(())
                    &&& final(self).history@ == p.push(elapsed)
                    &&& final(self).in_flight
                }
            }),
    {
        if self.in_flight {
            return Err("model_request_in_flight");
        }
        while self.history.len() > 0 && elapsed.saturating_sub(self.history[0]) >= HOUR_MS
            invariant
                !self.in_flight,
                prune_history(old(self).history@, elapsed) == prune_history(self.history@, elapsed),
            decreases self.history@.len(),
        {
            self.history.remove(0);
        }
        assert(prune_history(self.history@, elapsed) == self.history@);
        if maximum_per_hour == 0 || self.history.len() >= maximum_per_hour as usize {
            return Err("model_hourly_budget_exhausted");
        }
        let n = self.history.len();
        if n > 0 && elapsed.saturating_sub(self.history[n - 1]) < cooldown {
            return Err("model_request_cooldown");
        }
        self.in_flight = true;
        self.history.push(elapsed);
        Ok(())
    }

    /// Releases the in-flight slot when the request finishes or is dropped.
    pub fn finish(&mut self)
        ensures
            !final(self).in_flight,
            final(self).history@ == old(self).history@,
    {
        self.in_flight = false;
    }
}

/// Whether the start times are oldest first.
pub open spec fn sorted_history(h: Seq<u64>) -> bool {
    forall|i: int, j: int| 0 <= i <= j < h.len() ==> h[i] <= h[j]
}

/// Whether a request started at `t` falls inside the hour before `elapsed`.
pub open spec fn within_hour(t: u64, elapsed: u64) -> bool {
    sat_sub(elapsed, t) < HOUR_MS
}

/// For a history kept oldest first and no later than now, pruning removes
/// exactly the requests started an hour ago or earlier: what remains is the
/// set of requests of the rolling hour.
pub proof fn law_pruning_keeps_exactly_the_rolling_hour(h: Seq<u64>, elapsed: u64)
    requires
        sorted_history(h),
        forall|i: int| 0 <= i < h.len() ==> h[i] <= elapsed,
    ensures
        prune_history(h, elapsed) == h.filter(|t: u64| within_hour(t, elapsed)),
    decreases h.len(),
{
    reveal(Seq::filter);
    if h.len() == 0 {
        assert(h.filter(|t: u64| within_hour(t, elapsed)) =~= h);
    } else if sat_sub(elapsed, h[0]) >= HOUR_MS {
        let t = h.drop_first();
        assert forall|i: int, j: int| 0 <= i <= j < t.len() implies t[i] <= t[j] by {
            assert(t[i] == h[i + 1]);
            assert(t[j] == h[j + 1]);
        }
        law_pruning_keeps_exactly_the_rolling_hour(t, elapsed);
        lemma_filter_skips_stale_head(h, elapsed);
    } else {
        assert forall|i: int| 0 <= i < h.len() implies within_hour(#[trigger] h[i], elapsed) by {
            assert(h[0] <= h[i]);
        }
        lemma_filter_keeps_all(h, elapsed);
    }
}

proof fn lemma_filter_keeps_all(h: Seq<u64>, elapsed: u64)
    requires
        forall|i: int| 0 <= i < h.len() ==> within_hour(#[trigger] h[i], elapsed),
    ensures
        h.filter(|t: u64| within_hour(t, elapsed)) == h,
    decreases h.len(),
{
    reveal(Seq::filter);
    if h.len() > 0 {
        let d = h.drop_last();
        assert forall|i: int| 0 <= i < d.len() implies within_hour(#[trigger] d[i], elapsed) by {
            assert(d[i] == h[i]);
        }
        lemma_filter_keeps_all(d, elapsed);
        assert(within_hour(h.last(), elapsed));
        assert(d.push(h.last()) =~= h);
    }
}

proof fn lemma_filter_skips_stale_head(h: Seq<u64>, elapsed: u64)
    requires
        h.len() > 0,
        !within_hour(h[0], elapsed),
    ensures
        h.filter(|t: u64| within_hour(t, elapsed)) == h.drop_first().filter(
            |t: u64| within_hour(t, elapsed),
        ),
    decreases h.len(),
{
    reveal(Seq::filter);
    if h.len() == 1 {
        assert(h.drop_first() =~= Seq::<u64>::empty());
        assert(h.drop_last() =~= Seq::<u64>::empty());
    } else {
        let d = h.drop_last();
        assert(d[0] == h[0]);
        lemma_filter_skips_stale_head(d, elapsed);
        assert(d.drop_first() =~= h.drop_first().drop_last());
        assert(h.drop_first().last() == h.last());
    }
}

/// After every successful start, the requests of the rolling hour, the new
/// one included, never exceed the hourly cap.
pub proof fn law_model_budget_respects_hourly_cap(
    before: ModelRequestBudget,
    after: ModelRequestBudget,
    elapsed: u64,
    maximum_per_hour: u16,
)
    requires
        !before.in_flight,
        maximum_per_hour > 0,
        prune_history(before.history@, elapsed).len() < maximum_per_hour,
        after.history@ == prune_history(before.history@, elapsed).push(elapsed),
    ensures
        after.history@.filter(|t: u64| within_hour(t, elapsed)).len() <= maximum_per_hour,
{
    let h = after.history@;
    lemma_filter_len_le(h, elapsed);
}

proof fn lemma_filter_len_le(h: Seq<u64>, elapsed: u64)
    ensures
        h.filter(|t: u64| within_hour(t, elapsed)).len() <= h.len(),
    decreases h.len(),
{
    reveal(Seq::filter);
    if h.len() > 0 {
        lemma_filter_len_le(h.drop_last(), elapsed);
    }
}

/// The per-session state that decides when a new significance evaluation is
/// due.
#[derive(Clone, Copy, Debug, PartialEq, Eq, Structural)]
pub struct SignificanceState {
    pub significance_generation: u64,
    pub last_evaluated_generation: u64,
    pub last_significance_evaluation_elapsed: Option<u64>,
    pub deadline_risk_active: bool,
}

/// Whether an observation of `scope` is a relevant state change for the
/// significance gate: presence and the foreground application are not, so
/// their churn alone never buys another evaluation.
pub open spec fn significance_relevant(scope: PermissionScope) -> bool {
    !(scope is ObserveDesktopPresence || scope is ObserveDesktopForegroundApplication)
}

/// Whether the goal's deadline lies ahead of `now` and inside the horizon.
pub open spec fn deadline_risk(deadline: Option<i64>, now: i64, horizon: u64) -> bool {
    match deadline {
        Some(d) => d - now > 0 && d - now <= horizon,
        None => false,
    }
}

/// Categories whose fresh evidence can make a deadline risk significant.
pub open spec fn significant_category(c: DataCategory) -> bool {
    c is Goal || c is BrowserLocation || c is VisibleText || c is SelectedDocument || c is ScreenPixels
        || c is WorkspaceActivity
}

/// What the significance gate decides, and the state it leaves behind.
pub open spec fn spec_significance_gate(
    s: SignificanceState,
    deadline: Option<i64>,
    now: i64,
    elapsed: u64,
    horizon: u64,
    interval: u64,
    context: Seq<DataCategory>,
) -> (SignificanceState, Option<&'static str>) {
    let risk = deadline_risk(deadline, now, horizon);
    let generation = if risk && !s.deadline_risk_active {
        if s.significance_generation == u64::MAX {
            u64::MAX
        } else {
            (s.significance_generation + 1) as u64
        }
    } else {
        s.significance_generation
    };
    let noted = SignificanceState { significance_generation: generation, deadline_risk_active: risk, ..s };
    if generation == s.last_evaluated_generation {
        (noted, Some("no_relevant_state_change"))
    } else if s.last_significance_evaluation_elapsed matches Some(last) && sat_sub(elapsed, last)
        < interval {
        (noted, Some("significance_rate_limited"))
    } else {
        let evaluated = SignificanceState {
            last_significance_evaluation_elapsed: Some(elapsed),
            last_evaluated_generation: generation,
            ..noted
        };
        let verdict = match deadline {
            None => Some("deadline_not_configured"),
            Some(d) => if d - now <= 0 {
                Some("goal_deadline_elapsed")
            } else if d - now > horizon {
                Some("outside_deadline_risk_horizon")
            } else if !(exists|i: int| 0 <= i < context.len() && significant_category(#[trigger] context[i])) {
                Some("no_fresh_significant_evidence")
            } else {
                None
            },
        };
        (evaluated, verdict)
    }
}

/// Whether `c` is evidence of the user's current work: the goal itself, the
/// browser location, visible text, the selected document, screen pixels or
/// workspace activity.
pub open spec fn work_evidence(c: DataCategory) -> bool {
    c == DataCategory::Goal || c == DataCategory::BrowserLocation || c == DataCategory::VisibleText
        || c == DataCategory::SelectedDocument || c == DataCategory::ScreenPixels
        || c == DataCategory::WorkspaceActivity
}

/// Fresh evidence of the user's work is never dismissed as insignificant.
/// A context holding any `work_evidence` category is not answered with
/// `no_fresh_significant_evidence`; for a deadline inside the risk horizon
/// the evaluation is significant unless nothing changed since the last one
/// or it comes too soon after it.
pub proof fn law_work_evidence_is_significant(
    s: SignificanceState,
    deadline: Option<i64>,
    now: i64,
    elapsed: u64,
    horizon: u64,
    interval: u64,
    context: Seq<DataCategory>,
    i: int,
)
    requires
        0 <= i < context.len(),
        work_evidence(context[i]),
    ensures
        spec_significance_gate(s, deadline, now, elapsed, horizon, interval, context).1 != Some(
            "no_fresh_significant_evidence",
        ),
        (deadline matches Some(d) && 0 < d - now <= horizon) ==> ({
            let v = spec_significance_gate(s, deadline, now, elapsed, horizon, interval, context).1;
            v is None || v == Some("no_relevant_state_change") || v == Some("significance_rate_limited")
        }),
{
    assert(significant_category(context[i]));
    reveal_strlit("no_fresh_significant_evidence");
    reveal_strlit("no_relevant_state_change");
    reveal_strlit("significance_rate_limited");
    reveal_strlit("deadline_not_configured");
    reveal_strlit("goal_deadline_elapsed");
    reveal_strlit("outside_deadline_risk_horizon");
}

/// Whether `context` holds an item of a significant category.
fn has_significant_evidence(context: &Vec<DataCategory>) -> (r: bool)
    ensures
        r == exists|i: int| 0 <= i < context@.len() && significant_category(#[trigger] context@[i]),
{
    let mut i: usize = 0;
    while i < context.len()
        invariant
            i <= context@.len(),
            forall|k: int| 0 <= k < i ==> !significant_category(#[trigger] context@[k]),
        decreases context@.len() - i,
    {
        match context[i] {
            DataCategory::Goal | DataCategory::BrowserLocation | DataCategory::VisibleText
            | DataCategory::SelectedDocument | DataCategory::ScreenPixels
            | DataCategory::WorkspaceActivity => {
                return true;
            },
            _ => {},
        }
        i = i + 1;
    }
    false
}

impl SignificanceState {
    /// A fresh session state with nothing evaluated.
    pub fn new() -> (s: Self)
        ensures
            s.significance_generation == 0 && s.last_evaluated_generation == 0
                && s.last_significance_evaluation_elapsed is None && !s.deadline_risk_active,
    {
        SignificanceState {
            significance_generation: 0,
            last_evaluated_generation: 0,
            last_significance_evaluation_elapsed: None,
            deadline_risk_active: false,
        }
    }

    /// Records a significance-relevant change.
    pub fn note_change(&mut self)
        ensures
            final(self).significance_generation == (if old(self).significance_generation == u64::MAX {
                u64::MAX
            } else {
                (old(self).significance_generation + 1) as u64
            }),
            final(self).last_evaluated_generation == old(self).last_evaluated_generation,
            final(self).last_significance_evaluation_elapsed == old(self).last_significance_evaluation_elapsed,
            final(self).deadline_risk_active == old(self).deadline_risk_active,
    {
        self.significance_generation = self.significance_generation.saturating_add(1);
    }

    /// Records an admitted observation of `scope`, which marks a change only
    /// when it is significance-relevant; returns whether it was.
    pub fn note_observation(&mut self, scope: PermissionScope) -> (relevant: bool)
        ensures
            relevant == significance_relevant(scope),
            final(self).significance_generation == (if !relevant {
                old(self).significance_generation
            } else if old(self).significance_generation == u64::MAX {
                u64::MAX
            } else {
                (old(self).significance_generation + 1) as u64
            }),
            final(self).last_evaluated_generation == old(self).last_evaluated_generation,
            final(self).last_significance_evaluation_elapsed == old(self).last_significance_evaluation_elapsed,
            final(self).deadline_risk_active == old(self).deadline_risk_active,
    {
        let relevant = match scope {
            PermissionScope::ObserveDesktopPresence | PermissionScope::ObserveDesktopForegroundApplication => false,
            _ => true,
        };
        if relevant {
            self.note_change();
        }
        relevant
    }

    /// Decides whether a reasoning cycle may spend a significance evaluation:
    /// returns the silence reason, or `None` when the evaluation is significant.
    pub fn significance_gate(
        &mut self,
        deadline: Option<i64>,
        now: i64,
        elapsed: u64,
        horizon: u64,
        interval: u64,
        context: &Vec<DataCategory>,
    ) -> (r: Option<&'static str>)
        ensures
            (*final(self), r) == spec_significance_gate(
                *old(self),
                deadline,
                now,
                elapsed,
                horizon,
                interval,
                context@,
            ),
            (exists|i: int| 0 <= i < context@.len() && work_evidence(#[trigger] context@[i])) ==> r != Some(
                "no_fresh_significant_evidence",
            ),
    {
        proof {
            if exists|i: int| 0 <= i < context@.len() && work_evidence(#[trigger] context@[i]) {
                let i = choose|i: int| 0 <= i < context@.len() && work_evidence(#[trigger] context@[i]);
                law_work_evidence_is_significant(*old(self), deadline, now, elapsed, horizon, interval, context@, i);
            }
        }
        let remaining: Option<i128> = match deadline {
            Some(d) => Some(d as i128 - now as i128),
            None => None,
        };
        let risk = match remaining {
            Some(rem) => rem > 0 && rem <= horizon as i128,
            None => false,
        };
        if risk && !self.deadline_risk_active {
            self.significance_generation = self.significance_generation.saturating_add(1);
        }
        self.deadline_risk_active = risk;
        if self.significance_generation == self.last_evaluated_generation {
            return Some("no_relevant_state_change");
        }
        match self.last_significance_evaluation_elapsed {
            Some(last) => {
                if elapsed.saturating_sub(last) < interval {
                    return Some("significance_rate_limited");
                }
            },
            None => {},
        }
        self.last_significance_evaluation_elapsed = Some(elapsed);
        self.last_evaluated_generation = self.significance_generation;
        match remaining {
            None => Some("deadline_not_configured"),
            Some(rem) => {
                if rem <= 0 {
                    Some("goal_deadline_elapsed")
                } else if rem > horizon as i128 {
                    Some("outside_deadline_risk_horizon")
                } else if !has_significant_evidence(context) {
                    Some("no_fresh_significant_evidence")
                } else {
                    None
                }
            },
        }
    }
}

/// Intervention states that hold the session's intervention cooldown.
pub open spec fn spec_consumes_intervention_cooldown(state: InterventionState) -> bool {
    state is Queued || state is Delivering || state is AcceptedByChannel || state is DeliveryUnknown
}

/// Whether an intervention in `state` holds the session's cooldown.
pub fn consumes_intervention_cooldown(state: InterventionState) -> (r: bool)
    ensures
        r == spec_consumes_intervention_cooldown(state),
{
    match state {
        InterventionState::Queued | InterventionState::Delivering
        | InterventionState::AcceptedByChannel | InterventionState::DeliveryUnknown => true,
        _ => false,
    }
}

/// Intervention states that count as delivered toward the session cap.
pub open spec fn delivered_state(state: InterventionState) -> bool {
    state is AcceptedByChannel || state is DeliveryUnknown
}

/// The number of delivered interventions of `session_id`, other than `skip`.
pub open spec fn delivered_count(s: Seq<InterventionRecord>, session_id: u128, skip: Option<u128>) -> nat
    decreases s.len(),
{
    if s.len() == 0 {
        0
    } else {
        let x = s.last();
        delivered_count(s.drop_last(), session_id, skip) + if x.focus_session_id == session_id
            && delivered_state(x.state) && skip != Some(x.id) {
            1nat
        } else {
            0nat
        }
    }
}

/// Whether an intervention of `session_id`, other than `skip`, holds the
/// cooldown at `now`.
pub open spec fn durable_cooldown(
    s: Seq<InterventionRecord>,
    session_id: u128,
    skip: Option<u128>,
    now: i64,
    cooldown: u64,
) -> bool {
    exists|i: int|
        0 <= i < s.len() && (#[trigger] s[i]).focus_session_id == session_id && skip != Some(s[i].id)
            && spec_consumes_intervention_cooldown(s[i].state) && (now - s[i].updated_at < 0 || now
            - s[i].updated_at < cooldown)
}

/// Counts the delivered interventions of a session.
pub fn count_delivered(interventions: &Vec<InterventionRecord>, session_id: u128, skip: Option<u128>) -> (n: usize)
    ensures
        n == delivered_count(interventions@, session_id, skip),
{
    let mut n: usize = 0;
    let mut i: usize = 0;
    while i < interventions.len()
        invariant
            i <= interventions@.len(),
            n == delivered_count(interventions@.subrange(0, i as int), session_id, skip),
            n <= i,
        decreases interventions@.len() - i,
    {
        let x = interventions[i];
        assert(interventions@.subrange(0, (i + 1) as int).drop_last() == interventions@.subrange(0, i as int));
        let delivered = match x.state {
            InterventionState::AcceptedByChannel | InterventionState::DeliveryUnknown => true,
            _ => false,
        };
        if x.focus_session_id == session_id && delivered && skip != Some(x.id) {
            n = n + 1;
        }
        i = i + 1;
    }
    assert(interventions@.subrange(0, i as int) == interventions@);
    n
}

/// Whether an intervention of the session holds the cooldown at `now`.
pub fn cooldown_held(
    interventions: &Vec<InterventionRecord>,
    session_id: u128,
    skip: Option<u128>,
    now: i64,
    cooldown: u64,
) -> (r: bool)
    ensures
        r == durable_cooldown(interventions@, session_id, skip, now, cooldown),
{
    let mut i: usize = 0;
    while i < interventions.len()
        invariant
            i <= interventions@.len(),
            forall|k: int|
                0 <= k < i ==> !((#[trigger] interventions@[k]).focus_session_id == session_id && skip
                    != Some(interventions@[k].id) && spec_consumes_intervention_cooldown(
                    interventions@[k].state,
                ) && (now - interventions@[k].updated_at < 0 || now - interventions@[k].updated_at
                    < cooldown)),
        decreases interventions@.len() - i,
    {
        let x = interventions[i];
        let age = now as i128 - x.updated_at as i128;
        if x.focus_session_id == session_id && skip != Some(x.id) && consumes_intervention_cooldown(x.state)
            && (age < 0 || age < cooldown as i128) {
            return true;
        }
        i = i + 1;
    }
    false
}

/// The number of queued outbox entries, and of those the ones that belong to
/// interventions of `session_id`.
pub open spec fn queued_count(p: Seq<OutboxEntry>) -> nat
    decreases p.len(),
{
    if p.len() == 0 {
        0
    } else {
        queued_count(p.drop_last()) + if p.last().state is Queued {
            1nat
        } else {
            0nat
        }
    }
}

/// Whether `intervention_id` names an intervention of `session_id`.
pub open spec fn intervention_of_session(s: Seq<InterventionRecord>, intervention_id: u128, session_id: u128) -> bool {
    exists|i: int|
        0 <= i < s.len() && (#[trigger] s[i]).id == intervention_id && s[i].focus_session_id
            == session_id
}

/// The number of queued outbox entries that belong to the session.
pub open spec fn session_queued_count(p: Seq<OutboxEntry>, s: Seq<InterventionRecord>, session_id: u128) -> nat
    decreases p.len(),
{
    if p.len() == 0 {
        0
    } else {
        session_queued_count(p.drop_last(), s, session_id) + if p.last().state is Queued
            && intervention_of_session(s, p.last().intervention_id, session_id) {
            1nat
        } else {
            0nat
        }
    }
}

fn is_intervention_of_session(interventions: &Vec<InterventionRecord>, intervention_id: u128, session_id: u128) -> (r: bool)
    ensures
        r == intervention_of_session(interventions@, intervention_id, session_id),
{
    let mut i: usize = 0;
    while i < interventions.len()
        invariant
            i <= interventions@.len(),
            forall|k: int|
                0 <= k < i ==> !((#[trigger] interventions@[k]).id == intervention_id
                    && interventions@[k].focus_session_id == session_id),
        decreases interventions@.len() - i,
    {
        if interventions[i].id == intervention_id && interventions[i].focus_session_id == session_id {
            return true;
        }
        i = i + 1;
    }
    false
}

/// Counts queued outbox entries overall and for the session.
pub fn count_queued(pending: &Vec<OutboxEntry>, interventions: &Vec<InterventionRecord>, session_id: u128) -> (r: (usize, usize))
    ensures
        r.0 == queued_count(pending@),
        r.1 == session_queued_count(pending@, interventions@, session_id),
{
    let mut all: usize = 0;
    let mut mine: usize = 0;
    let mut i: usize = 0;
    while i < pending.len()
        invariant
            i <= pending@.len(),
            all == queued_count(pending@.subrange(0, i as int)),
            mine == session_queued_count(pending@.subrange(0, i as int), interventions@, session_id),
            all <= i,
            mine <= i,
        decreases pending@.len() - i,
    {
        let e = pending[i];
        assert(pending@.subrange(0, (i + 1) as int).drop_last() == pending@.subrange(0, i as int));
        match e.state {
            OutboxState::Queued => {
                all = all + 1;
                if is_intervention_of_session(interventions, e.intervention_id, session_id) {
                    mine = mine + 1;
                }
            },
            _ => {},
        }
        i = i + 1;
    }
    assert(pending@.subrange(0, i as int) == pending@);
    (all, mine)
}

/// The delivery preferences that the gates read.
#[derive(Clone, Copy, Debug, PartialEq, Eq, Structural)]
pub struct DeliveryLimits {
    pub proactive_interventions_enabled: bool,
    pub maximum_interventions_per_session: u16,
    pub intervention_cooldown: u64,
    pub outbox_capacity_per_user: usize,
    pub outbox_capacity_per_session: usize,
}

/// What the pre-model delivery gate decides.
pub open spec fn spec_pre_model_delivery_gate(
    limits: DeliveryLimits,
    session_id: u128,
    interventions: Seq<InterventionRecord>,
    now: i64,
    last_delivery_elapsed: Option<u64>,
    elapsed: u64,
    notification_available: bool,
    pending: Seq<OutboxEntry>,
) -> Option<&'static str> {
    if !limits.proactive_interventions_enabled {
        Some("proactive_interventions_disabled")
    } else if delivered_count(interventions, session_id, None) >= limits.maximum_interventions_per_session {
        Some("session_intervention_cap")
    } else if durable_cooldown(interventions, session_id, None, now, limits.intervention_cooldown) || (
    last_delivery_elapsed matches Some(last) && sat_sub(elapsed, last) < limits.intervention_cooldown) {
        Some("intervention_cooldown")
    } else if !notification_available && (queued_count(pending) >= limits.outbox_capacity_per_user
        || session_queued_count(pending, interventions, session_id) >= limits.outbox_capacity_per_session) {
        Some("outbox_capacity")
    } else {
        None
    }
}

/// Decides, before any model cost, whether an intervention could be
/// delivered: proactive opt-in, the session cap, the cooldown and, when the
/// channel is unavailable, the outbox capacity. Returns the silence reason.
pub fn pre_model_delivery_gate(
    limits: DeliveryLimits,
    session_id: u128,
    interventions: &Vec<InterventionRecord>,
    now: i64,
    last_delivery_elapsed: Option<u64>,
    elapsed: u64,
    notification_available: bool,
    pending: &Vec<OutboxEntry>,
) -> (r: Option<&'static str>)
    ensures
        r == spec_pre_model_delivery_gate(
            limits,
            session_id,
            interventions@,
            now,
            last_delivery_elapsed,
            elapsed,
            notification_available,
            pending@,
        ),
{
    if !limits.proactive_interventions_enabled {
        return Some("proactive_interventions_disabled");
    }
    if count_delivered(interventions, session_id, None) >= limits.maximum_interventions_per_session as usize {
        return Some("session_intervention_cap");
    }
    let durable = cooldown_held(interventions, session_id, None, now, limits.intervention_cooldown);
    let ephemeral = match last_delivery_elapsed {
        Some(last) => elapsed.saturating_sub(last) < limits.intervention_cooldown,
        None => false,
    };
    if durable || ephemeral {
        return Some("intervention_cooldown");
    }
    if !notification_available {
        let (all, mine) = count_queued(pending, interventions, session_id);
        if all >= limits.outbox_capacity_per_user || mine >= limits.outbox_capacity_per_session {
            return Some("outbox_capacity");
        }
    }
    None
}

/// The monotonic revision watermark of the independent emergency channel.
#[derive(Clone, Copy, Debug, PartialEq, Eq, Structural)]
pub struct EmergencyRevision {
    pub last_revision: u64,
}

impl EmergencyRevision {
    /// Accepts `revision` only when it is positive and newer than every
    /// revision accepted before; an accepted revision becomes the watermark.
    pub fn accept(&mut self, revision: u64) -> (is_new: bool)
        ensures
            is_new == (revision != 0 && revision > old(self).last_revision),
            final(self).last_revision == (if is_new {
                revision
            } else {
                old(self).last_revision
            }),
    {
        if revision == 0 || revision <= self.last_revision {
            false
        } else {
            self.last_revision = revision;
            true
        }
    }
}

/// The version number of a UUID, from its bits.
pub open spec fn uuid_version(id: u128) -> u128 {
    (id / 75_557_863_725_914_323_419_136) % 16
}

/// The version number of the UUID whose integer form is `id`.
///
/// Calls `uuid::Uuid::get_version_num` on `uuid::Uuid::from_u128(id)`, which
/// reads the high nibble of byte 6 of the big-endian form, that is bits 76 to
/// 79 of the integer.
#[verifier::external_body]
fn uuid_version_num(id: u128) -> (v: usize)
    ensures
        v == uuid_version(id),
{
    uuid::Uuid::from_u128(id).get_version_num()
}

/// Whether the UUID `id` is a time-ordered (version 7) identifier.
pub fn uuid_is_v7(id: u128) -> (r: bool)
    ensures
        r == (uuid_version(id) == 7),
{
    uuid_version_num(id) == 7
}

/// Whether an emergency command may be executed: a new revision, a
/// time-ordered command identifier and an issue time at most one second in
/// the future.
pub fn emergency_command_is_valid(revision_is_new: bool, command_id: u128, issued_at: i64, now: i64) -> (r: bool)
    ensures
        r == (revision_is_new && uuid_version(command_id) == 7 && issued_at <= now + 1000),
{
    revision_is_new && uuid_version_num(command_id) == 7 && (issued_at as i128) <= now as i128 + 1000
}

/// A retained observation's identity and capture time.
#[derive(Clone, Copy, Debug, PartialEq, Eq, Structural)]
pub struct ObservationStamp {
    pub observation_id: u128,
    pub grant_id: u128,
    pub observed_at: i64,
}

/// Whether an observation captured at `t` is still inside its time to live.
pub open spec fn fresh(t: i64, now: i64, ttl: u64) -> bool {
    0 <= now - t < ttl
}

/// The retention sweep: keeps exactly the observations younger than the time
/// to live (a future capture time is dropped too) and reports how many it
/// removed.
pub fn retain_fresh(observations: &Vec<ObservationStamp>, now: i64, ttl: u64) -> (r: (Vec<ObservationStamp>, usize))
    ensures
        r.0@ == observations@.filter(|o: ObservationStamp| fresh(o.observed_at, now, ttl)),
        r.1 == observations@.len() - r.0@.len(),
{
    let mut kept: Vec<ObservationStamp> = Vec::new();
    let mut i: usize = 0;
    while i < observations.len()
        invariant
            i <= observations@.len(),
            kept@ == observations@.subrange(0, i as int).filter(
                |o: ObservationStamp| fresh(o.observed_at, now, ttl),
            ),
            kept@.len() <= i,
        decreases observations@.len() - i,
    {
        let o = observations[i];
        proof {
            reveal(Seq::filter);
            assert(observations@.subrange(0, (i + 1) as int).drop_last() == observations@.subrange(
                0,
                i as int,
            ));
        }
        let age = now as i128 - o.observed_at as i128;
        if 0 <= age && age < ttl as i128 {
            kept.push(o);
        }
        i = i + 1;
    }
    assert(observations@.subrange(0, i as int) == observations@);
    let removed = observations.len() - kept.len();
    (kept, removed)
}

/// Whether a recovery batch is due: the first batch always is, later ones
/// only a full interval after the previous batch.
pub fn recovery_batch_due(last_batch_elapsed: Option<u64>, elapsed: u64, interval: u64) -> (r: bool)
    ensures
        r == !(last_batch_elapsed matches Some(last) && sat_sub(elapsed, last) < interval),
{
    match last_batch_elapsed {
        Some(last) => elapsed.saturating_sub(last) >= interval,
        None => true,
    }
}

/// Outbox entries that a recovery batch revisits.
pub open spec fn recoverable(e: OutboxEntry) -> bool {
    e.state is Queued || e.state is Delivering
}

/// The first `batch_size` recoverable entries, in the given order.
fn first_recoverable(pending: &Vec<OutboxEntry>, batch_size: usize) -> (r: Vec<OutboxEntry>)
    ensures
        r@ == ({
            let f = pending@.filter(|e: OutboxEntry| recoverable(e));
            f.take(if batch_size < f.len() {
                batch_size as int
            } else {
                f.len() as int
            })
        }),
{
    let mut all: Vec<OutboxEntry> = Vec::new();
    let mut i: usize = 0;
    while i < pending.len()
        invariant
            i <= pending@.len(),
            all@ == pending@.subrange(0, i as int).filter(|e: OutboxEntry| recoverable(e)),
        decreases pending@.len() - i,
    {
        let e = pending[i];
        proof {
            reveal(Seq::filter);
            assert(pending@.subrange(0, (i + 1) as int).drop_last() == pending@.subrange(0, i as int));
        }
        match e.state {
            OutboxState::Queued | OutboxState::Delivering => all.push(e),
            _ => {},
        }
        i = i + 1;
    }
    assert(pending@.subrange(0, i as int) == pending@);
    let mut batch: Vec<OutboxEntry> = Vec::new();
    let mut j: usize = 0;
    while j < all.len() && j < batch_size
        invariant
            j <= all@.len(),
            j <= batch_size,
            batch@ == all@.take(j as int),
        decreases all@.len() - j,
    {
        batch.push(all[j]);
        assert(all@.take((j + 1) as int) == all@.take(j as int).push(all@[j as int]));
        j = j + 1;
    }
    assert(all@.take(all@.len() as int) == all@);
    batch
}

/// Whether `a` comes no later than `b` in recovery order: by creation time,
/// then by identifier.
pub open spec fn recovery_before(a: OutboxEntry, b: OutboxEntry) -> bool {
    a.created_at < b.created_at || (a.created_at == b.created_at && a.id <= b.id)
}

/// Whether the entries are in recovery order.
pub open spec fn in_recovery_order(s: Seq<OutboxEntry>) -> bool {
    forall|i: int, j: int| 0 <= i < j < s.len() ==> recovery_before(#[trigger] s[i], #[trigger] s[j])
}

/// Where `e` goes in the ordered `t`: after every entry that comes no later.
pub open spec fn insertion_point(t: Seq<OutboxEntry>, e: OutboxEntry) -> nat
    decreases t.len(),
{
    if t.len() == 0 {
        0
    } else if recovery_before(t[0], e) {
        1 + insertion_point(t.drop_first(), e)
    } else {
        0
    }
}

/// The entries sorted into recovery order, equal entries keeping their
/// relative order.
pub open spec fn recovery_order(s: Seq<OutboxEntry>) -> Seq<OutboxEntry>
    decreases s.len(),
{
    if s.len() == 0 {
        s
    } else {
        let t = recovery_order(s.drop_last());
        t.insert(insertion_point(t, s.last()) as int, s.last())
    }
}

proof fn lemma_insertion_point(t: Seq<OutboxEntry>, e: OutboxEntry)
    ensures
        insertion_point(t, e) <= t.len(),
        forall|k: int| 0 <= k < insertion_point(t, e) ==> recovery_before(#[trigger] t[k], e),
        insertion_point(t, e) < t.len() ==> !recovery_before(t[insertion_point(t, e) as int], e),
    decreases t.len(),
{
    if t.len() > 0 && recovery_before(t[0], e) {
        lemma_insertion_point(t.drop_first(), e);
        assert forall|k: int| 0 <= k < insertion_point(t, e) implies recovery_before(#[trigger] t[k], e) by {
            if k > 0 {
                assert(t[k] == t.drop_first()[k - 1]);
            }
        }
        if insertion_point(t, e) < t.len() {
            assert(t[insertion_point(t, e) as int] == t.drop_first()[insertion_point(t.drop_first(), e) as int]);
        }
    }
}

proof fn lemma_insert_keeps_order(t: Seq<OutboxEntry>, e: OutboxEntry)
    requires
        in_recovery_order(t),
    ensures
        in_recovery_order(t.insert(insertion_point(t, e) as int, e)),
{
    lemma_insertion_point(t, e);
    let p = insertion_point(t, e) as int;
    let u = t.insert(p, e);
    assert forall|i: int, j: int| 0 <= i < j < u.len() implies recovery_before(#[trigger] u[i], #[trigger] u[j]) by {
        if j < p {
            assert(u[i] == t[i] && u[j] == t[j]);
        } else if j == p {
            assert(u[i] == t[i]);
        } else if i == p {
            assert(u[j] == t[j - 1]);
            assert(recovery_before(t[p], t[j - 1]) || j - 1 == p);
        } else if i < p {
            assert(u[i] == t[i] && u[j] == t[j - 1]);
        } else {
            assert(u[i] == t[i - 1] && u[j] == t[j - 1]);
        }
    }
}

/// Recovery order is ordered, and holds exactly the entries it sorts.
pub proof fn lemma_recovery_order(s: Seq<OutboxEntry>)
    ensures
        in_recovery_order(recovery_order(s)),
        recovery_order(s).to_multiset() == s.to_multiset(),
        recovery_order(s).len() == s.len(),
    decreases s.len(),
{
    if s.len() > 0 {
        let t = recovery_order(s.drop_last());
        lemma_recovery_order(s.drop_last());
        lemma_insert_keeps_order(t, s.last());
        lemma_insertion_point(t, s.last());
        vstd::seq_lib::to_multiset_insert(t, insertion_point(t, s.last()) as int, s.last());
        vstd::seq_lib::to_multiset_build(s.drop_last(), s.last());
        assert(s.drop_last().push(s.last()) == s);
    }
}

fn comes_no_later(a: &OutboxEntry, b: &OutboxEntry) -> (r: bool)
    ensures
        r == recovery_before(*a, *b),
{
    a.created_at < b.created_at || (a.created_at == b.created_at && a.id <= b.id)
}

/// Sorts pending deliveries into recovery order: oldest first, ties by
/// identifier.
pub fn sort_for_recovery(pending: &Vec<OutboxEntry>) -> (r: Vec<OutboxEntry>)
    ensures
        r@ == recovery_order(pending@),
        in_recovery_order(r@),
        r@.to_multiset() == pending@.to_multiset(),
{
    let mut out: Vec<OutboxEntry> = Vec::new();
    let mut i: usize = 0;
    while i < pending.len()
        invariant
            i <= pending@.len(),
            out@ == recovery_order(pending@.subrange(0, i as int)),
        decreases pending@.len() - i,
    {
        let e = pending[i];
        let mut p: usize = 0;
        proof {
            lemma_recovery_order(pending@.subrange(0, i as int));
            assert(out@.subrange(0, out@.len() as int) == out@);
        }
        while p < out.len() && comes_no_later(&out[p], &e)
            invariant
                p <= out@.len(),
                insertion_point(out@, e) == p + insertion_point(out@.subrange(p as int, out@.len() as int), e),
            decreases out@.len() - p,
        {
            let ghost rest = out@.subrange(p as int, out@.len() as int);
            assert(rest[0] == out@[p as int]);
            assert(rest.drop_first() == out@.subrange(p + 1, out@.len() as int));
            p = p + 1;
        }
        proof {
            let rest = out@.subrange(p as int, out@.len() as int);
            if p < out@.len() {
                assert(rest[0] == out@[p as int]);
            }
            assert(insertion_point(rest, e) == 0);
            assert(pending@.subrange(0, (i + 1) as int).drop_last() == pending@.subrange(0, i as int));
            assert(pending@.subrange(0, (i + 1) as int).last() == e);
        }
        out.insert(p, e);
        i = i + 1;
    }
    assert(pending@.subrange(0, i as int) == pending@);
    proof {
        lemma_recovery_order(pending@);
    }
    out
}

/// Selects a recovery batch: the first `batch_size` recoverable entries in
/// recovery order, oldest first.
pub fn select_recovery_batch(pending: &Vec<OutboxEntry>, batch_size: usize) -> (r: Vec<OutboxEntry>)
    ensures
        r@ == ({
            let f = recovery_order(pending@).filter(|e: OutboxEntry| recoverable(e));
            f.take(if batch_size < f.len() {
                batch_size as int
            } else {
                f.len() as int
            })
        }),
{
    let sorted = sort_for_recovery(pending);
    first_recoverable(&sorted, batch_size)
}

/// The recovery batch of one revalidation call at monotonic `elapsed`.
pub open spec fn spec_recovery_batch(
    pending: Seq<OutboxEntry>,
    batch_size: usize,
) -> Seq<OutboxEntry> {
    let f = recovery_order(pending).filter(|e: OutboxEntry| recoverable(e));
    f.take(if batch_size < f.len() {
        batch_size as int
    } else {
        f.len() as int
    })
}

/// One revalidation call's batch: empty, with nothing recorded, until a full
/// interval has passed since the last batch; otherwise the call is recorded
/// at `elapsed` and takes the oldest `batch_size` recoverable entries.
pub fn take_recovery_batch(
    last_batch_elapsed: &mut Option<u64>,
    elapsed: u64,
    interval: u64,
    pending: &Vec<OutboxEntry>,
    batch_size: usize,
) -> (r: Vec<OutboxEntry>)
    ensures
        (*old(last_batch_elapsed) matches Some(last) && sat_sub(elapsed, last) < interval) ==> r@.len() == 0
            && *final(last_batch_elapsed) == *old(last_batch_elapsed),
        !(*old(last_batch_elapsed) matches Some(last) && sat_sub(elapsed, last) < interval) ==> r@
            == spec_recovery_batch(pending@, batch_size) && *final(last_batch_elapsed) == Some(elapsed),
{
    if !recovery_batch_due(*last_batch_elapsed, elapsed, interval) {
        return Vec::new();
    }
    *last_batch_elapsed = Some(elapsed);
    select_recovery_batch(pending, batch_size)
}

/// A recovery call takes at most `batch_size` entries, and once a call at
/// `first` took its batch (recording `first`), a call at `second`, less than
/// an interval later, finds the batch not yet due and takes none.
pub proof fn law_recovery_batches_are_bounded_and_spaced(
    pending: Seq<OutboxEntry>,
    batch_size: usize,
    first: u64,
    second: u64,
    interval: u64,
)
    requires
        first <= second,
        second - first < interval,
    ensures
        spec_recovery_batch(pending, batch_size).len() <= batch_size,
        sat_sub(second, first) < interval,
{
}

/// Whether a new delivery would duplicate a live outbox entry.
pub open spec fn duplicate_delivery(pending: Seq<OutboxEntry>, key: u128) -> bool {
    exists|i: int|
        0 <= i < pending.len() && (#[trigger] pending[i]).deduplication_key == key && !(
        pending[i].state is Expired || pending[i].state is Cancelled)
}

/// Admits a new delivery to the outbox: never a duplicate of a live entry,
/// and never beyond the per-user or per-session capacity (nothing is evicted).
pub fn outbox_admission(
    pending: &Vec<OutboxEntry>,
    interventions: &Vec<InterventionRecord>,
    session_id: u128,
    deduplication_key: u128,
    capacity_per_user: usize,
    capacity_per_session: usize,
) -> (r: Result<(), &'static str>)
    ensures
        duplicate_delivery(pending@, deduplication_key) ==> r == Err::<(), &'static str>(
            "delivery_deduplicated",
        ),
        !duplicate_delivery(pending@, deduplication_key) ==> r == (if queued_count(pending@) < capacity_per_user
            && session_queued_count(pending@, interventions@, session_id) < capacity_per_session {
            Ok::<(), &'static str>(())
        } else {
            Err::<(), &'static str>("outbox_capacity")
        }),
{
    let mut i: usize = 0;
    while i < pending.len()
        invariant
            i <= pending@.len(),
            forall|k: int|
                0 <= k < i ==> !((#[trigger] pending@[k]).deduplication_key == deduplication_key && !(
                pending@[k].state is Expired || pending@[k].state is Cancelled)),
        decreases pending@.len() - i,
    {
        let e = pending[i];
        let live = match e.state {
            OutboxState::Expired | OutboxState::Cancelled => false,
            _ => true,
        };
        if e.deduplication_key == deduplication_key && live {
            return Err("delivery_deduplicated");
        }
        i = i + 1;
    }
    let (all, mine) = count_queued(pending, interventions, session_id);
    if all >= capacity_per_user || mine >= capacity_per_session {
        return Err("outbox_capacity");
    }
    Ok(())
}

/// Whether ending session `session_id` cancels the outbox entry: it is
/// still queued and belongs to one of the session's interventions.
pub open spec fn cancelled_with_session(e: OutboxEntry, interventions: Seq<InterventionRecord>, session_id: u128) -> bool {
    e.state == OutboxState::Queued && intervention_of_session(interventions, e.intervention_id, session_id)
}

/// The outbox entry once cancelled.
pub open spec fn cancelled_entry(e: OutboxEntry) -> OutboxEntry {
    OutboxEntry { state: OutboxState::Cancelled, ..e }
}

/// The queued deliveries of a session's interventions, cancelled, in outbox
/// order; they are saved with their text cleared when the session ends.
pub fn outbox_cancellations_for_session(
    entries: &Vec<OutboxEntry>,
    interventions: &Vec<InterventionRecord>,
    session_id: u128,
) -> (r: Vec<OutboxEntry>)
    ensures
        r@ == entries@.filter(|e: OutboxEntry| cancelled_with_session(e, interventions@, session_id)).map_values(
            |e: OutboxEntry| cancelled_entry(e),
        ),
{
    let mut out: Vec<OutboxEntry> = Vec::new();
    let mut i: usize = 0;
    while i < entries.len()
        invariant
            i <= entries@.len(),
            out@ == entries@.subrange(0, i as int).filter(|e: OutboxEntry| cancelled_with_session(e, interventions@, session_id)).map_values(
                |e: OutboxEntry| cancelled_entry(e),
            ),
        decreases entries@.len() - i,
    {
        let e = entries[i];
        let ghost before = entries@.subrange(0, i as int).filter(|e: OutboxEntry| cancelled_with_session(e, interventions@, session_id));
        proof {
            reveal(Seq::filter);
            assert(entries@.subrange(0, (i + 1) as int).drop_last() == entries@.subrange(0, i as int));
            assert(entries@.subrange(0, (i + 1) as int).last() == e);
        }
        if e.state == OutboxState::Queued && is_intervention_of_session(interventions, e.intervention_id, session_id) {
            out.push(OutboxEntry { state: OutboxState::Cancelled, ..e });
            assert(before.push(e).map_values(|e: OutboxEntry| cancelled_entry(e)) == before.map_values(
                |e: OutboxEntry| cancelled_entry(e),
            ).push(cancelled_entry(e)));
        }
        i = i + 1;
    }
    assert(entries@.subrange(0, i as int) == entries@);
    out
}

} // verus!
