//! Typed view events and their publication with contiguous cursors.

use vstd::prelude::*;
use crate::model::{FocusSession, Goal, InterventionState, PermissionGrant};
use crate::preferences::{EffectivePolicy, ExplicitPreferences};
use crate::text::chars_of;

verus! {

/// How a goal's view changed.
#[derive(Clone, Copy, Debug, PartialEq, Eq, Structural)]
pub enum GoalViewChange {
    Created,
    Updated,
    Completed,
    Abandoned,
}

/// How a focus session's view changed.
#[derive(Clone, Copy, Debug, PartialEq, Eq, Structural)]
pub enum FocusSessionViewChange {
    Requested,
    Started,
    Muted,
    Unmuted,
    RecoveryStarted,
    Recovered,
    Stopping,
    Ended,
    Failed,
}

/// How a permission's view changed.
#[derive(Clone, Copy, Debug, PartialEq, Eq, Structural)]
pub enum PermissionViewChange {
    Granted,
    Updated,
    Revoked,
    Expired,
}

/// How the intervention history changed.
#[derive(Clone, Copy, Debug, PartialEq, Eq, Structural)]
pub enum InterventionHistoryViewChange {
    Added,
    Updated,
    Deleted,
}

/// How a selected resource's view changed.
#[derive(Clone, Copy, Debug, PartialEq, Eq, Structural)]
pub enum SelectedResourceViewChange {
    Registered,
    Removed,
}

/// A user-approved model route, as far as views carry it.
#[derive(Clone, Copy, Debug, PartialEq, Eq, Structural)]
pub struct ModelRouteRecord {
    pub id: u128,
    pub owner: u128,
    pub revision: u64,
}

/// A permission as the permission view shows it.
#[derive(Clone, Debug, PartialEq, Eq)]
pub enum PermissionRecord {
    SessionGrant(PermissionGrant),
    ModelRouteApproval(ModelRouteRecord),
}

impl PermissionRecord {
    /// The actor that owns the permission.
    pub open spec fn spec_owner(&self) -> u128 {
        match self {
            PermissionRecord::SessionGrant(g) => g.owner,
            PermissionRecord::ModelRouteApproval(r) => r.owner,
        }
    }

    /// The actor that owns the permission.
    pub fn owner(&self) -> (o: u128)
        ensures
            o == self.spec_owner(),
    {
        match self {
            PermissionRecord::SessionGrant(g) => g.owner,
            PermissionRecord::ModelRouteApproval(r) => r.owner,
        }
    }
}

/// An intervention, as far as views carry it.
#[derive(Clone, Copy, Debug, PartialEq, Eq, Structural)]
pub struct InterventionView {
    pub id: u128,
    pub owner: u128,
    pub goal_id: u128,
    pub focus_session_id: u128,
    pub state: InterventionState,
    pub revision: u64,
}

/// The health of a platform capability.
#[derive(Clone, Copy, Debug, PartialEq, Eq, Structural)]
pub enum CapabilityState {
    Healthy,
    Degraded,
    Unavailable,
}

/// A capability health report keyed by its identifier.
#[derive(Clone, Debug, PartialEq, Eq)]
pub struct CapabilityHealth {
    pub id: String,
    pub state: CapabilityState,
    pub detail: String,
}

/// The privacy-filtered input of one capture view; it holds no observation
/// payload.
#[derive(Clone, Debug, PartialEq, Eq)]
pub struct CaptureViewProjection {
    pub session: FocusSession,
    pub grants: Vec<PermissionGrant>,
    pub native_status_available: bool,
    pub emergency_control_available: bool,
}

/// A committed change that CORE publishes to subscribed clients.
#[derive(Clone, Debug, PartialEq, Eq)]
pub enum CoreEvent {
    GoalViewChanged { change: GoalViewChange, goal: Goal },
    RuntimeStatusChanged { healthy: bool },
    FocusSessionViewChanged { change: FocusSessionViewChange, focus_session: FocusSession },
    CaptureStateChanged { capture: CaptureViewProjection },
    CapabilityHealthChanged { capability: CapabilityHealth },
    DeliveryChannelViewChanged { owner: u128, channel_id: String },
    PermissionViewChanged { change: PermissionViewChange, permission: PermissionRecord },
    InterventionAvailable { intervention: InterventionView },
    InterventionViewChanged { intervention: InterventionView },
    InterventionHistoryChanged {
        change: InterventionHistoryViewChange,
        owner: u128,
        intervention_id: u128,
        entry: Option<InterventionView>,
    },
    GoalDeleted { owner: u128, goal_id: u128 },
    SelectedResourceViewChanged { change: SelectedResourceViewChange, owner: u128, resource_id: u128 },
    UserPreferencesViewChanged { preferences: ExplicitPreferences, effective_policy: EffectivePolicy },
}

impl CoreEvent {
    /// The actor whose private view the event belongs to; runtime-wide
    /// events have none.
    pub open spec fn spec_owner(&self) -> Option<u128> {
        match self {
            CoreEvent::GoalViewChanged { goal, .. } => Some(goal.owner),
            CoreEvent::RuntimeStatusChanged { .. } | CoreEvent::CapabilityHealthChanged { .. } => None,
            CoreEvent::FocusSessionViewChanged { focus_session, .. } => Some(focus_session.owner),
            CoreEvent::CaptureStateChanged { capture } => Some(capture.session.owner),
            CoreEvent::DeliveryChannelViewChanged { owner, .. } => Some(*owner),
            CoreEvent::InterventionHistoryChanged { owner, .. } => Some(*owner),
            CoreEvent::PermissionViewChanged { permission, .. } => Some(permission.spec_owner()),
            CoreEvent::InterventionAvailable { intervention } => Some(intervention.owner),
            CoreEvent::InterventionViewChanged { intervention } => Some(intervention.owner),
            CoreEvent::GoalDeleted { owner, .. } => Some(*owner),
            CoreEvent::SelectedResourceViewChanged { owner, .. } => Some(*owner),
            CoreEvent::UserPreferencesViewChanged { preferences, .. } => Some(preferences.owner),
        }
    }

    /// The actor whose private view the event belongs to.
    pub fn owner(&self) -> (o: Option<u128>)
        ensures
            o == self.spec_owner(),
    {
        match self {
            CoreEvent::GoalViewChanged { goal, .. } => Some(goal.owner),
            CoreEvent::RuntimeStatusChanged { .. } | CoreEvent::CapabilityHealthChanged { .. } => None,
            CoreEvent::FocusSessionViewChanged { focus_session, .. } => Some(focus_session.owner),
            CoreEvent::CaptureStateChanged { capture } => Some(capture.session.owner),
            CoreEvent::DeliveryChannelViewChanged { owner, .. } => Some(*owner),
            CoreEvent::InterventionHistoryChanged { owner, .. } => Some(*owner),
            CoreEvent::PermissionViewChanged { permission, .. } => Some(permission.owner()),
            CoreEvent::InterventionAvailable { intervention } => Some(intervention.owner),
            CoreEvent::InterventionViewChanged { intervention } => Some(intervention.owner),
            CoreEvent::GoalDeleted { owner, .. } => Some(*owner),
            CoreEvent::SelectedResourceViewChanged { owner, .. } => Some(*owner),
            CoreEvent::UserPreferencesViewChanged { preferences, .. } => Some(preferences.owner),
        }
    }
}

/// Who caused an event.
#[derive(Clone, Copy, Debug, PartialEq, Eq, Structural)]
pub enum CoreEventActorKind {
    LocalOsUser,
    CoreDaemon,
    System,
}

/// The attribution shared by the events of one commit.
#[derive(Clone, Copy, Debug, PartialEq, Eq, Structural)]
pub struct EventContext {
    pub actor: u128,
    pub actor_kind: CoreEventActorKind,
    pub correlation_id: u128,
    pub causation_id: Option<u128>,
}

/// A published event with its global cursor.
#[derive(Clone, Debug, PartialEq, Eq)]
pub struct CoreEventEnvelope {
    pub event_id: u128,
    pub cursor: u64,
    pub occurred_at: i64,
    pub actor: u128,
    pub actor_kind: CoreEventActorKind,
    pub correlation_id: u128,
    pub causation_id: Option<u128>,
    pub event: CoreEvent,
}

/// The publication boundary: the last assigned cursor and the capability
/// health overrides, at most one per identifier.
pub struct PublicationState {
    pub event_cursor: u64,
    pub capability_overrides: Vec<CapabilityHealth>,
}

/// A fresh time-ordered UUID.
///
/// Calls `uuid::Uuid::now_v7`; the value carries version 7 whatever the clock
/// and random bits were, and nothing else is stated.
#[verifier::external_body]
pub(crate) fn now_v7() -> (id: u128)
    ensures
        crate::gates::uuid_version(id) == 7,
{
    uuid::Uuid::now_v7().as_u128()
}

/// The current UTC instant as whole Unix seconds and the nanoseconds past
/// that second.
///
/// Calls `time::OffsetDateTime::now_utc` and reads the instant's
/// `unix_timestamp` and `nanosecond`; the nanoseconds are below one second,
/// as `nanosecond` documents, and nothing is stated of the reading itself.
#[verifier::external_body]
fn now_utc_parts() -> (t: (i64, u32))
    ensures
        t.1 < 1_000_000_000,
{
    let now = time::OffsetDateTime::now_utc();
    (now.unix_timestamp(), now.nanosecond())
}

/// Unix milliseconds from whole seconds and the nanoseconds past them: the
/// seconds times 1000 plus the whole milliseconds of the nanoseconds,
/// saturating at the end of the `i64` range it would leave.
pub open spec fn spec_utc_millis(seconds: i64, nanos: u32) -> i64 {
    let ms = seconds * 1000;
    let total = ms + nanos / 1_000_000;
    if ms < i64::MIN || ms > i64::MAX {
        if seconds < 0 {
            i64::MIN
        } else {
            i64::MAX
        }
    } else if total > i64::MAX {
        i64::MAX
    } else {
        total as i64
    }
}

/// Unix milliseconds from a clock reading split into seconds and
/// nanoseconds.
fn utc_millis(seconds: i64, nanos: u32) -> (t: i64)
    ensures
        t == spec_utc_millis(seconds, nanos),
{
    let millis_in_second: i64 = (nanos / 1_000_000) as i64;
    match seconds.checked_mul(1000) {
        Some(ms) => match ms.checked_add(millis_in_second) {
            Some(t) => t,
            None => i64::MAX,
        },
        None => if seconds < 0 {
            i64::MIN
        } else {
            i64::MAX
        },
    }
}

/// The current UTC instant in Unix milliseconds, saturating at the ends of
/// the `i64` range: the conversion of one clock reading, whose seconds and
/// sub-second nanoseconds the clock alone decides.
fn now_utc_ms() -> (t: i64)
    ensures
        exists|seconds: i64, nanos: u32| nanos < 1_000_000_000 && t == #[trigger] spec_utc_millis(seconds, nanos),
{
    let (seconds, nanos) = now_utc_parts();
    utc_millis(seconds, nanos)
}

/// Records a capability health override, replacing the one with the same
/// identifier.
fn set_override(overrides: &mut Vec<CapabilityHealth>, capability: CapabilityHealth)
    ensures
        exists|i: int| 0 <= i < final(overrides)@.len() && final(overrides)@[i] == capability,
        final(overrides)@.len() == old(overrides)@.len() || final(overrides)@ == old(overrides)@.push(capability),
        forall|k: int|
            0 <= k < old(overrides)@.len() ==> final(overrides)@[k] == old(overrides)@[k] || (old(
                overrides,
            )@[k].id@ == capability.id@ && final(overrides)@[k] == capability),
{
    let id = chars_of(capability.id.as_str());
    let mut i: usize = 0;
    while i < overrides.len()
        invariant
            i <= overrides@.len(),
            overrides@ == old(overrides)@,
            id@ == capability.id@,
        decreases overrides@.len() - i,
    {
        let existing = chars_of(overrides[i].id.as_str());
        if crate::text::same_chars(&existing, &id) {
            overrides.set(i, capability);
            assert(overrides@[i as int] == capability);
            return;
        }
        i = i + 1;
    }
    overrides.push(capability);
    assert(overrides@[overrides@.len() - 1] == capability);
}

/// Whether `envelopes` carry the cursors after `start`, one each, in order.
pub open spec fn cursors_follow(envelopes: Seq<CoreEventEnvelope>, start: int) -> bool {
    forall|i: int| 0 <= i < envelopes.len() ==> (#[trigger] envelopes[i]).cursor == start + i + 1
}

/// Whether the override list holds a report for the identifier `id`.
pub open spec fn has_override(overrides: Seq<CapabilityHealth>, id: Seq<char>) -> bool {
    exists|k: int| 0 <= k < overrides.len() && (#[trigger] overrides[k]).id@ == id
}

fn copy_health(c: &CapabilityHealth) -> (r: CapabilityHealth)
    ensures
        r.id@ == c.id@ && r.state == c.state && r.detail@ == c.detail@,
{
    CapabilityHealth { id: c.id.clone(), state: c.state, detail: c.detail.clone() }
}

proof fn lemma_override_kept(before: Seq<CapabilityHealth>, after: Seq<CapabilityHealth>, capability: CapabilityHealth, id: Seq<char>)
    requires
        has_override(before, id),
        after.len() >= before.len(),
        forall|k: int|
            0 <= k < before.len() ==> after[k] == before[k] || (before[k].id@ == capability.id@ && after[k]
                == capability),
    ensures
        has_override(after, id),
{
    let k = choose|k: int| 0 <= k < before.len() && (#[trigger] before[k]).id@ == id;
    assert(after[k].id@ == id);
}

/// Publishes the events of one commit: each gets the next cursor, a fresh
/// identifier, the publication instant and the commit's attribution, in
/// order. Returns the envelopes to broadcast.
pub fn publish_pending(state: &mut PublicationState, context: EventContext, pending: Vec<CoreEvent>) -> (envelopes: Vec<CoreEventEnvelope>)
    requires
        old(state).event_cursor + pending@.len() <= u64::MAX,
    ensures
        final(state).event_cursor == old(state).event_cursor + pending@.len(),
        envelopes@.len() == pending@.len(),
        cursors_follow(envelopes@, old(state).event_cursor as int),
        forall|k: int|
            0 <= k < old(state).capability_overrides@.len() ==> has_override(
                final(state).capability_overrides@,
                #[trigger] old(state).capability_overrides@[k].id@,
            ),
        forall|i: int|
            0 <= i < pending@.len() ==> (#[trigger] pending@[i] matches CoreEvent::CapabilityHealthChanged { capability }
                ==> has_override(final(state).capability_overrides@, capability.id@)),
        forall|i: int|
            0 <= i < pending@.len() ==> (#[trigger] envelopes@[i]).cursor == old(state).event_cursor + i + 1
                && envelopes@[i].event == pending@[i] && envelopes@[i].actor == context.actor
                && envelopes@[i].actor_kind == context.actor_kind && envelopes@[i].correlation_id
                == context.correlation_id && envelopes@[i].causation_id == context.causation_id
                && crate::gates::uuid_version(envelopes@[i].event_id) == 7,
{
    let mut out: Vec<CoreEventEnvelope> = Vec::new();
    let ghost start = state.event_cursor;
    let ghost old_overrides = state.capability_overrides@;
    let mut events = pending;
    let ghost all = events@;
    let mut i: usize = 0;
    let n = events.len();
    while events.len() > 0
        invariant
            i + events@.len() == n,
            n == all.len(),
            events@ == all.subrange(i as int, n as int),
            out@.len() == i,
            state.event_cursor == start + i,
            start + n <= u64::MAX,
            forall|q: int|
                0 <= q < i ==> (#[trigger] out@[q]).cursor == start + q + 1 && out@[q].event == all[q]
                    && out@[q].actor == context.actor && out@[q].actor_kind == context.actor_kind
                    && out@[q].correlation_id == context.correlation_id && out@[q].causation_id
                    == context.causation_id && crate::gates::uuid_version(out@[q].event_id) == 7,
            forall|k: int|
                0 <= k < old_overrides.len() ==> has_override(
                    state.capability_overrides@,
                    #[trigger] old_overrides[k].id@,
                ),
            forall|q: int|
                0 <= q < i ==> (#[trigger] all[q] matches CoreEvent::CapabilityHealthChanged { capability }
                    ==> has_override(state.capability_overrides@, capability.id@)),
        decreases events@.len(),
    {
        let event = events.remove(0);
        proof {
            assert(all.subrange(i as int, n as int)[0] == all[i as int]);
        }
        let ghost prev = state.capability_overrides@;
        match &event {
            CoreEvent::CapabilityHealthChanged { capability } => {
                let copy = copy_health(capability);
                set_override(&mut state.capability_overrides, copy);
                proof {
                    assert forall|k: int| 0 <= k < old_overrides.len() implies has_override(
                        state.capability_overrides@,
                        #[trigger] old_overrides[k].id@,
                    ) by {
                        lemma_override_kept(prev, state.capability_overrides@, copy, old_overrides[k].id@);
                    }
                    assert forall|q: int|
                        0 <= q < i + 1 implies (#[trigger] all[q] matches CoreEvent::CapabilityHealthChanged { capability }
                            ==> has_override(state.capability_overrides@, capability.id@)) by {
                        if q < i {
                            if let CoreEvent::CapabilityHealthChanged { capability: c } = all[q] {
                                lemma_override_kept(prev, state.capability_overrides@, copy, c.id@);
                            }
                        } else {
                            let j = choose|j: int|
                                0 <= j < state.capability_overrides@.len() && state.capability_overrides@[j] == copy;
                            assert(state.capability_overrides@[j].id@ == capability.id@);
                        }
                    }
                }
            },
            _ => {},
        }
        state.event_cursor = state.event_cursor + 1;
        let envelope = CoreEventEnvelope {
            event_id: now_v7(),
            cursor: state.event_cursor,
            occurred_at: now_utc_ms(),
            actor: context.actor,
            actor_kind: context.actor_kind,
            correlation_id: context.correlation_id,
            causation_id: context.causation_id,
            event,
        };
        let ghost before = out@;
        out.push(envelope);
        proof {
            assert(all.subrange(i as int, n as int)[0] == all[i as int]);
            assert(events@ == all.subrange(i + 1, n as int));
            assert forall|q: int| 0 <= q < i + 1 implies (#[trigger] out@[q]).cursor == start + q + 1
                && out@[q].event == all[q] && out@[q].actor == context.actor && out@[q].actor_kind
                == context.actor_kind && out@[q].correlation_id == context.correlation_id
                && out@[q].causation_id == context.causation_id && crate::gates::uuid_version(out@[q].event_id) == 7 by {
                if q < i {
                    assert(out@[q] == before[q]);
                }
            }
        }
        i = i + 1;
    }
    out
}

/// Consecutive commits publish one contiguous stream: when a second commit
/// starts at the cursor where the first ended, the two commits' envelopes
/// together carry the cursors after the first start, one each, in order.
pub proof fn law_publication_cursors_are_contiguous(first: Seq<CoreEventEnvelope>, second: Seq<CoreEventEnvelope>, start: int)
    requires
        cursors_follow(first, start),
        cursors_follow(second, start + first.len()),
    ensures
        cursors_follow(first + second, start),
{
    assert forall|i: int| 0 <= i < (first + second).len() implies (#[trigger] (first + second)[i]).cursor == start + i + 1 by {
        if i >= first.len() {
            assert((first + second)[i] == second[i - first.len()]);
        }
    }
}

} // verus!
