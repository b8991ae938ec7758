//! Applying a consistent view event to the client's cached snapshot:
//! keyed upserts, removals, and the cascade that a deleted goal causes.

use vstd::prelude::*;
use crate::admission::ClientAssurance;
use crate::client::{
    CacheCursor, EventApplication, EventIdentitySet, MAX_APPLIED_EVENT_IDENTITIES, SessionOpened,
    apply_event_cursor,
};
use crate::events::{
    EventKindRules, InterventionHistoryChangeKind, ViewEvent, ViewEventEnvelope, event_header_is_consistent,
    event_is_consistent, spec_event_consistent, spec_header_consistent,
};
use crate::protocol::{ProtocolVersion, spec_version_at_least};
use crate::server::spec_event_follows;
use crate::snapshot::{ClientSnapshotView, Phase2View, permission_key};
use crate::views::{
    CapabilityHealthView, CaptureStateView, DeliveryChannelView, FocusSessionView, GoalView, InterventionView,
    PermissionRecordView, SelectedResourceView,
};

verus! {

/// A cached record found again by a UUID key.
pub trait Keyed {
    /// The record's key.
    spec fn key_of(&self) -> u128;

    /// The record's key.
    fn key(&self) -> (k: u128)
        ensures
            k == self.key_of(),
    ;
}

impl Keyed for GoalView {
    open spec fn key_of(&self) -> u128 {
        self.goal_id
    }

    fn key(&self) -> (k: u128) {
        self.goal_id
    }
}

impl Keyed for FocusSessionView {
    open spec fn key_of(&self) -> u128 {
        self.focus_session_id
    }

    fn key(&self) -> (k: u128) {
        self.focus_session_id
    }
}

impl Keyed for CaptureStateView {
    open spec fn key_of(&self) -> u128 {
        self.focus_session_id
    }

    fn key(&self) -> (k: u128) {
        self.focus_session_id
    }
}

impl Keyed for DeliveryChannelView {
    open spec fn key_of(&self) -> u128 {
        self.delivery_channel_id
    }

    fn key(&self) -> (k: u128) {
        self.delivery_channel_id
    }
}

impl Keyed for InterventionView {
    open spec fn key_of(&self) -> u128 {
        self.intervention_id
    }

    fn key(&self) -> (k: u128) {
        self.intervention_id
    }
}

impl Keyed for SelectedResourceView {
    open spec fn key_of(&self) -> u128 {
        self.selected_resource_id
    }

    fn key(&self) -> (k: u128) {
        self.selected_resource_id
    }
}

/// Whether `i` is the first position of `s` that holds `key`.
pub open spec fn is_first<T: Keyed>(s: Seq<T>, key: u128, i: int) -> bool {
    0 <= i < s.len() && s[i].key_of() == key && forall|m: int| 0 <= m < i ==> (#[trigger] s[m]).key_of() != key
}

/// `s` with the first record of `x`'s key replaced by `x`, or with `x`
/// appended when no record has that key.
pub open spec fn upserted<T: Keyed>(s: Seq<T>, x: T) -> Seq<T> {
    if exists|i: int| is_first(s, x.key_of(), i) {
        s.update(choose|i: int| is_first(s, x.key_of(), i), x)
    } else {
        s.push(x)
    }
}

/// Replaces the first record with `x`'s key by `x`, or appends `x`.
pub fn upsert<T: Keyed>(v: &mut Vec<T>, x: T)
    ensures
        final(v)@ == upserted(old(v)@, x),
{
    let key = x.key();
    let mut i: usize = 0;
    while i < v.len()
        invariant
            i <= v@.len(),
            v@ == old(v)@,
            key == x.key_of(),
            forall|m: int| 0 <= m < i ==> (#[trigger] v@[m]).key_of() != key,
        decreases v@.len() - i,
    {
        if v[i].key() == key {
            proof {
                assert(is_first(v@, key, i as int));
                let j = choose|j: int| is_first(v@, key, j);
                if j < i {
                    assert(v@[j].key_of() != key);
                } else if j > i {
                    assert(v@[i as int].key_of() != key);
                }
            }
            v.set(i, x);
            return;
        }
        i = i + 1;
    }
    assert(!exists|j: int| is_first(v@, key, j)) by {
        if exists|j: int| is_first(v@, key, j) {
            let j = choose|j: int| is_first(v@, key, j);
            assert(v@[j].key_of() != key);
        }
    }
    v.push(x);
}

/// Removes every record with `key`, keeping the order of the rest.
pub fn remove_key<T: Keyed>(v: &mut Vec<T>, key: u128)
    ensures
        final(v)@ == old(v)@.filter(|y: T| y.key_of() != key),
{
    let mut rest: Vec<T> = Vec::new();
    std::mem::swap(v, &mut rest);
    let ghost all = rest@;
    let n = rest.len();
    let mut i: usize = 0;
    assert(all.subrange(0, 0) == Seq::<T>::empty());
    while rest.len() > 0
        invariant
            i + rest@.len() == n,
            n == all.len(),
            all == old(v)@,
            rest@ == all.subrange(i as int, n as int),
            v@ == all.subrange(0, i as int).filter(|y: T| y.key_of() != key),
        decreases rest@.len(),
    {
        let y = rest.remove(0);
        proof {
            assert(all.subrange(i as int, n as int)[0] == all[i as int]);
            assert(all.subrange(0, (i + 1) as int).drop_last() == all.subrange(0, i as int));
            reveal(Seq::filter);
        }
        if y.key() != key {
            v.push(y);
        }
        proof {
            assert(rest@ == all.subrange(i + 1, n as int));
        }
        i = i + 1;
    }
    assert(all.subrange(0, n as int) == all);
}

/// Whether `i` is the first report of `capability`'s kind.
pub open spec fn is_first_capability(s: Seq<CapabilityHealthView>, c: CapabilityHealthView, i: int) -> bool {
    0 <= i < s.len() && s[i].capability == c.capability && forall|m: int|
        0 <= m < i ==> (#[trigger] s[m]).capability != c.capability
}

/// `s` with the first report of `c`'s capability replaced by `c`, or with
/// `c` appended.
pub open spec fn capability_upserted(s: Seq<CapabilityHealthView>, c: CapabilityHealthView) -> Seq<CapabilityHealthView> {
    if exists|i: int| is_first_capability(s, c, i) {
        s.update(choose|i: int| is_first_capability(s, c, i), c)
    } else {
        s.push(c)
    }
}

fn upsert_capability(v: &mut Vec<CapabilityHealthView>, c: CapabilityHealthView)
    ensures
        final(v)@ == capability_upserted(old(v)@, c),
{
    let mut i: usize = 0;
    while i < v.len()
        invariant
            i <= v@.len(),
            v@ == old(v)@,
            forall|m: int| 0 <= m < i ==> (#[trigger] v@[m]).capability != c.capability,
        decreases v@.len() - i,
    {
        if v[i].capability == c.capability {
            proof {
                assert(is_first_capability(v@, c, i as int));
                let j = choose|j: int| is_first_capability(v@, c, j);
                if j < i {
                    assert(v@[j].capability != c.capability);
                } else if j > i {
                    assert(v@[i as int].capability != c.capability);
                }
            }
            v.set(i, c);
            return;
        }
        i = i + 1;
    }
    assert(!exists|j: int| is_first_capability(v@, c, j)) by {
        if exists|j: int| is_first_capability(v@, c, j) {
            let j = choose|j: int| is_first_capability(v@, c, j);
            assert(v@[j].capability != c.capability);
        }
    }
    v.push(c);
}

/// Whether `i` is the first permission record with `r`'s key.
pub open spec fn is_first_permission(s: Seq<PermissionRecordView>, r: PermissionRecordView, i: int) -> bool {
    0 <= i < s.len() && permission_key(s[i]) == permission_key(r) && forall|m: int|
        0 <= m < i ==> permission_key(#[trigger] s[m]) != permission_key(r)
}

/// `s` with the first record of `r`'s key replaced by `r`, or with `r`
/// appended.
pub open spec fn permission_upserted(s: Seq<PermissionRecordView>, r: PermissionRecordView) -> Seq<PermissionRecordView> {
    if exists|i: int| is_first_permission(s, r, i) {
        s.update(choose|i: int| is_first_permission(s, r, i), r)
    } else {
        s.push(r)
    }
}

fn same_record_key(a: &PermissionRecordView, b: &PermissionRecordView) -> (r: bool)
    ensures
        r == (permission_key(*a) == permission_key(*b)),
{
    match (a, b) {
        (PermissionRecordView::SessionGrant(x), PermissionRecordView::SessionGrant(y)) => x.permission_grant_id
            == y.permission_grant_id,
        (PermissionRecordView::ModelRouteApproval(x), PermissionRecordView::ModelRouteApproval(y)) => x.model_route_approval_id
            == y.model_route_approval_id,
        _ => false,
    }
}

fn upsert_permission(v: &mut Vec<PermissionRecordView>, r: PermissionRecordView)
    ensures
        final(v)@ == permission_upserted(old(v)@, r),
{
    let mut i: usize = 0;
    while i < v.len()
        invariant
            i <= v@.len(),
            v@ == old(v)@,
            forall|m: int| 0 <= m < i ==> permission_key(#[trigger] v@[m]) != permission_key(r),
        decreases v@.len() - i,
    {
        if same_record_key(&v[i], &r) {
            proof {
                assert(is_first_permission(v@, r, i as int));
                let j = choose|j: int| is_first_permission(v@, r, j);
                if j < i {
                    assert(permission_key(v@[j]) != permission_key(r));
                } else if j > i {
                    assert(permission_key(v@[i as int]) != permission_key(r));
                }
            }
            v.set(i, r);
            return;
        }
        i = i + 1;
    }
    assert(!exists|j: int| is_first_permission(v@, r, j)) by {
        if exists|j: int| is_first_permission(v@, r, j) {
            let j = choose|j: int| is_first_permission(v@, r, j);
            assert(permission_key(v@[j]) != permission_key(r));
        }
    }
    v.push(r);
}


/// Keeps, in order, the elements whose flag is set, where each flag says
/// whether `keep` holds of its element.
fn retain_by_flags<T>(v: Vec<T>, flags: &Vec<bool>, Ghost(keep): Ghost<spec_fn(T) -> bool>) -> (r: Vec<T>)
    requires
        flags@.len() == v@.len(),
        forall|k: int| 0 <= k < v@.len() ==> flags@[k] == keep(v@[k]),
    ensures
        r@ == v@.filter(keep),
{
    let mut v = v;
    let mut out: Vec<T> = Vec::new();
    let ghost all = v@;
    let n = v.len();
    let mut i: usize = 0;
    while v.len() > 0
        invariant
            i + v@.len() == n,
            n == all.len(),
            flags@.len() == n,
            forall|k: int| 0 <= k < n ==> flags@[k] == keep(all[k]),
            v@ == all.subrange(i as int, n as int),
            out@ == all.subrange(0, i as int).filter(keep),
        decreases v@.len(),
    {
        let y = v.remove(0);
        proof {
            assert(all.subrange(i as int, n as int)[0] == all[i as int]);
            assert(all.subrange(0, (i + 1) as int).drop_last() == all.subrange(0, i as int));
            reveal(Seq::filter);
        }
        if flags[i] {
            out.push(y);
        }
        proof {
            assert(v@ == all.subrange(i + 1, n as int));
        }
        i = i + 1;
    }
    assert(all.subrange(0, n as int) == all);
    out
}

/// Whether a permission record is a session grant for `goal`.
pub open spec fn grant_of_goal(r: PermissionRecordView, goal: u128) -> bool {
    r matches PermissionRecordView::SessionGrant(g) && g.goal_id == goal
}

/// Whether a focus session of `goal` has identifier `id`.
pub open spec fn session_of_goal(p: Phase2View, goal: u128, id: u128) -> bool {
    exists|k: int|
        0 <= k < p.focus_sessions@.len() && (#[trigger] p.focus_sessions@[k]).goal_id == goal
            && p.focus_sessions@[k].focus_session_id == id
}

/// Whether a grant matching `on_goal` (for `goal`, or for another goal)
/// binds resource `id`.
pub open spec fn grant_binds(p: Phase2View, goal: u128, on_goal: bool, id: u128) -> bool {
    exists|k: int|
        0 <= k < p.permission_records@.len() && (#[trigger] p.permission_records@[k] matches PermissionRecordView::SessionGrant(g)
            && (g.goal_id == goal) == on_goal && g.selected_resource_id == Some(id))
}

/// Whether a focus session matching `on_goal` selected resource `id`.
pub open spec fn session_selects(p: Phase2View, goal: u128, on_goal: bool, id: u128) -> bool {
    exists|k: int, j: int|
        0 <= k < p.focus_sessions@.len() && ((p.focus_sessions@[k].goal_id == goal) == on_goal) && 0 <= j
            < p.focus_sessions@[k].selected_resource_ids@.len() && #[trigger] p.focus_sessions@[k].selected_resource_ids@[j]
            == id
}

/// Whether a resource survives the deletion of `goal`: it was not bound to
/// the goal's grants or sessions, or another goal's grant or session still
/// uses it.
pub open spec fn resource_survives(p: Phase2View, goal: u128, id: u128) -> bool {
    !(grant_binds(p, goal, true, id) || session_selects(p, goal, true, id)) || grant_binds(p, goal, false, id)
        || session_selects(p, goal, false, id)
}

fn has_session_of_goal(p: &Phase2View, goal: u128, id: u128) -> (r: bool)
    ensures
        r == session_of_goal(*p, goal, id),
{
    let mut k: usize = 0;
    while k < p.focus_sessions.len()
        invariant
            k <= p.focus_sessions@.len(),
            forall|q: int|
                0 <= q < k ==> !((#[trigger] p.focus_sessions@[q]).goal_id == goal
                    && p.focus_sessions@[q].focus_session_id == id),
        decreases p.focus_sessions@.len() - k,
    {
        if p.focus_sessions[k].goal_id == goal && p.focus_sessions[k].focus_session_id == id {
            assert(p.focus_sessions@[k as int].goal_id == goal);
            return true;
        }
        k = k + 1;
    }
    false
}

fn has_grant_binding(p: &Phase2View, goal: u128, on_goal: bool, id: u128) -> (r: bool)
    ensures
        r == grant_binds(*p, goal, on_goal, id),
{
    let mut k: usize = 0;
    while k < p.permission_records.len()
        invariant
            k <= p.permission_records@.len(),
            forall|q: int|
                0 <= q < k ==> !(#[trigger] p.permission_records@[q] matches PermissionRecordView::SessionGrant(g) && (g.goal_id
                    == goal) == on_goal && g.selected_resource_id == Some(id)),
        decreases p.permission_records@.len() - k,
    {
        match &p.permission_records[k] {
            PermissionRecordView::SessionGrant(g) => {
                if (g.goal_id == goal) == on_goal && g.selected_resource_id == Some(id) {
                    assert(p.permission_records@[k as int] matches PermissionRecordView::SessionGrant(g) && (g.goal_id
                        == goal) == on_goal && g.selected_resource_id == Some(id));
                    return true;
                }
            },
            _ => {},
        }
        k = k + 1;
    }
    false
}

fn has_session_selection(p: &Phase2View, goal: u128, on_goal: bool, id: u128) -> (r: bool)
    ensures
        r == session_selects(*p, goal, on_goal, id),
{
    let mut k: usize = 0;
    while k < p.focus_sessions.len()
        invariant
            k <= p.focus_sessions@.len(),
            forall|q: int, j: int|
                0 <= q < k && ((p.focus_sessions@[q].goal_id == goal) == on_goal) && 0 <= j
                    < p.focus_sessions@[q].selected_resource_ids@.len() ==> #[trigger] p.focus_sessions@[q].selected_resource_ids@[j]
                    != id,
        decreases p.focus_sessions@.len() - k,
    {
        let f = &p.focus_sessions[k];
        if (f.goal_id == goal) == on_goal {
            let mut j: usize = 0;
            while j < f.selected_resource_ids.len()
                invariant
                    j <= f.selected_resource_ids@.len(),
                    k < p.focus_sessions@.len(),
                    *f == p.focus_sessions@[k as int],
                    (f.goal_id == goal) == on_goal,
                    forall|q: int, j2: int|
                        0 <= q < k && ((p.focus_sessions@[q].goal_id == goal) == on_goal) && 0 <= j2
                            < p.focus_sessions@[q].selected_resource_ids@.len() ==> #[trigger] p.focus_sessions@[q].selected_resource_ids@[j2]
                            != id,
                    forall|m: int| 0 <= m < j ==> f.selected_resource_ids@[m] != id,
                decreases f.selected_resource_ids@.len() - j,
            {
                if f.selected_resource_ids[j] == id {
                    assert(p.focus_sessions@[k as int].selected_resource_ids@[j as int] == id);
                    return true;
                }
                j = j + 1;
            }
        }
        k = k + 1;
    }
    false
}


/// The private state after `goal` is deleted: the goal's focus sessions,
/// grants, captures of its sessions and history entries are gone, and so is
/// every resource that only the goal's grants and sessions used.
pub open spec fn spec_goal_deleted_phase2(p: Phase2View, q: Phase2View, goal: u128) -> bool {
    &&& q.current_device_id == p.current_device_id && q.stein_identity == p.stein_identity
    &&& q.user_preferences == p.user_preferences && q.effective_policy == p.effective_policy
    &&& q.delivery_channels == p.delivery_channels
    &&& q.intervention_history.as_of == p.intervention_history.as_of
    &&& q.focus_sessions@ == p.focus_sessions@.filter(|f: FocusSessionView| f.goal_id != goal)
    &&& q.permission_records@ == p.permission_records@.filter(|r: PermissionRecordView| !grant_of_goal(r, goal))
    &&& q.capture_states@ == p.capture_states@.filter(
        |c: CaptureStateView| !session_of_goal(p, goal, c.focus_session_id),
    )
    &&& q.intervention_history.entries@ == p.intervention_history.entries@.filter(
        |e: InterventionView| e.goal_id != goal,
    )
    &&& q.selected_resources@ == p.selected_resources@.filter(
        |r: SelectedResourceView| resource_survives(p, goal, r.selected_resource_id),
    )
}

fn delete_goal_from_phase2(p: Phase2View, goal: u128) -> (q: Phase2View)
    ensures
        spec_goal_deleted_phase2(p, q, goal),
{
    let ghost gp = p;
    let mut capture_flags: Vec<bool> = Vec::new();
    let mut i: usize = 0;
    while i < p.capture_states.len()
        invariant
            i <= p.capture_states@.len(),
            gp == p,
            capture_flags@.len() == i,
            forall|k: int|
                0 <= k < i ==> capture_flags@[k] == !session_of_goal(gp, goal, p.capture_states@[k].focus_session_id),
        decreases p.capture_states@.len() - i,
    {
        capture_flags.push(!has_session_of_goal(&p, goal, p.capture_states[i].focus_session_id));
        i = i + 1;
    }
    let mut resource_flags: Vec<bool> = Vec::new();
    let mut i: usize = 0;
    while i < p.selected_resources.len()
        invariant
            i <= p.selected_resources@.len(),
            gp == p,
            resource_flags@.len() == i,
            forall|k: int|
                0 <= k < i ==> resource_flags@[k] == resource_survives(gp, goal, p.selected_resources@[k].selected_resource_id),
        decreases p.selected_resources@.len() - i,
    {
        let id = p.selected_resources[i].selected_resource_id;
        let bound = has_grant_binding(&p, goal, true, id) || has_session_selection(&p, goal, true, id);
        let elsewhere = has_grant_binding(&p, goal, false, id) || has_session_selection(&p, goal, false, id);
        resource_flags.push(!bound || elsewhere);
        i = i + 1;
    }
    let mut session_flags: Vec<bool> = Vec::new();
    let mut i: usize = 0;
    while i < p.focus_sessions.len()
        invariant
            i <= p.focus_sessions@.len(),
            session_flags@.len() == i,
            forall|k: int| 0 <= k < i ==> session_flags@[k] == (p.focus_sessions@[k].goal_id != goal),
        decreases p.focus_sessions@.len() - i,
    {
        session_flags.push(p.focus_sessions[i].goal_id != goal);
        i = i + 1;
    }
    let mut grant_flags: Vec<bool> = Vec::new();
    let mut i: usize = 0;
    while i < p.permission_records.len()
        invariant
            i <= p.permission_records@.len(),
            grant_flags@.len() == i,
            forall|k: int| 0 <= k < i ==> grant_flags@[k] == !grant_of_goal(p.permission_records@[k], goal),
        decreases p.permission_records@.len() - i,
    {
        let keep = match &p.permission_records[i] {
            PermissionRecordView::SessionGrant(g) => g.goal_id != goal,
            PermissionRecordView::ModelRouteApproval(_) => true,
        };
        grant_flags.push(keep);
        i = i + 1;
    }
    let mut entry_flags: Vec<bool> = Vec::new();
    let mut i: usize = 0;
    while i < p.intervention_history.entries.len()
        invariant
            i <= p.intervention_history.entries@.len(),
            entry_flags@.len() == i,
            forall|k: int| 0 <= k < i ==> entry_flags@[k] == (p.intervention_history.entries@[k].goal_id != goal),
        decreases p.intervention_history.entries@.len() - i,
    {
        entry_flags.push(p.intervention_history.entries[i].goal_id != goal);
        i = i + 1;
    }
    let Phase2View {
        current_device_id,
        stein_identity,
        user_preferences,
        effective_policy,
        selected_resources,
        permission_records,
        focus_sessions,
        capture_states,
        delivery_channels,
        intervention_history,
    } = p;
    let crate::snapshot::InterventionHistoryView { as_of, entries } = intervention_history;
    let selected_resources = retain_by_flags(
        selected_resources,
        &resource_flags,
        Ghost(|r: SelectedResourceView| resource_survives(gp, goal, r.selected_resource_id)),
    );
    let permission_records = retain_by_flags(
        permission_records,
        &grant_flags,
        Ghost(|r: PermissionRecordView| !grant_of_goal(r, goal)),
    );
    let focus_sessions = retain_by_flags(focus_sessions, &session_flags, Ghost(|f: FocusSessionView| f.goal_id != goal));
    let capture_states = retain_by_flags(
        capture_states,
        &capture_flags,
        Ghost(|c: CaptureStateView| !session_of_goal(gp, goal, c.focus_session_id)),
    );
    let entries = retain_by_flags(entries, &entry_flags, Ghost(|e: InterventionView| e.goal_id != goal));
    Phase2View {
        current_device_id,
        stein_identity,
        user_preferences,
        effective_policy,
        selected_resources,
        permission_records,
        focus_sessions,
        capture_states,
        delivery_channels,
        intervention_history: crate::snapshot::InterventionHistoryView { as_of, entries },
    }
}


/// Whether an event edits the private state, which must then be cached.
pub open spec fn needs_private_state(e: ViewEvent) -> bool {
    !(e is GoalViewChanged || e is RuntimeStatusChanged || e is CapabilityHealthChanged || e is GoalDeleted)
}

/// What applying a private event does to the private state; `as_of` is the
/// cache's instant and `occurred_at` the event's.
pub open spec fn spec_private_applied(p: Phase2View, q: Phase2View, as_of: i64, occurred_at: i64, e: ViewEvent) -> bool {
    match e {
        ViewEvent::FocusSessionViewChanged { focus_session, .. } => q == Phase2View {
            focus_sessions: q.focus_sessions,
            ..p
        } && q.focus_sessions@ == upserted(p.focus_sessions@, focus_session),
        ViewEvent::CaptureStateChanged { capture } => q == Phase2View { capture_states: q.capture_states, ..p }
            && q.capture_states@ == upserted(p.capture_states@, capture),
        ViewEvent::DeliveryChannelViewChanged { channel } => q == Phase2View {
            delivery_channels: q.delivery_channels,
            ..p
        } && q.delivery_channels@ == upserted(p.delivery_channels@, channel),
        ViewEvent::PermissionViewChanged { permission, .. } => q == Phase2View {
            permission_records: q.permission_records,
            ..p
        } && q.permission_records@ == permission_upserted(p.permission_records@, permission),
        ViewEvent::InterventionAvailable { intervention } | ViewEvent::InterventionViewChanged { intervention } => q
            == Phase2View { intervention_history: q.intervention_history, ..p } && q.intervention_history.as_of == as_of
            && q.intervention_history.entries@ == upserted(p.intervention_history.entries@, intervention),
        ViewEvent::InterventionHistoryChanged { history_change, intervention_id, entry } => q == Phase2View {
            intervention_history: q.intervention_history,
            ..p
        } && q.intervention_history.as_of == occurred_at && if history_change is Deleted {
            q.intervention_history.entries@ == p.intervention_history.entries@.filter(
                |x: InterventionView| x.key_of() != intervention_id,
            )
        } else {
            q.intervention_history.entries@ == upserted(p.intervention_history.entries@, entry->0)
        },
        ViewEvent::SelectedResourceViewChanged { resource, resource_tombstone, .. } => q == Phase2View {
            selected_resources: q.selected_resources,
            ..p
        } && match resource {
            Some(r) => q.selected_resources@ == upserted(p.selected_resources@, r),
            None => match resource_tombstone {
                Some(t) => q.selected_resources@ == p.selected_resources@.filter(
                    |x: SelectedResourceView| x.key_of() != t.selected_resource_id,
                ),
                None => q.selected_resources == p.selected_resources,
            },
        },
        ViewEvent::UserPreferencesViewChanged { preferences, effective_policy } => q == Phase2View {
            user_preferences: Some(preferences),
            effective_policy: Some(effective_policy),
            ..p
        },
        _ => q == p,
    }
}

/// What applying an event's payload does to the cached snapshot.
pub open spec fn spec_applied(before: ClientSnapshotView, after: ClientSnapshotView, e: ViewEventEnvelope) -> bool {
    match e.event {
        ViewEvent::GoalViewChanged { goal, .. } => after == ClientSnapshotView { goals: after.goals, ..before }
            && after.goals@ == upserted(before.goals@, goal),
        ViewEvent::RuntimeStatusChanged { runtime } => after == ClientSnapshotView { runtime: runtime, ..before },
        ViewEvent::CapabilityHealthChanged { capability } => after == ClientSnapshotView {
            capabilities: after.capabilities,
            ..before
        } && after.capabilities@ == capability_upserted(before.capabilities@, capability),
        ViewEvent::GoalDeleted { tombstone } => after == ClientSnapshotView {
            goals: after.goals,
            phase2: after.phase2,
            ..before
        } && after.goals@ == before.goals@.filter(|g: GoalView| g.key_of() != tombstone.goal_id) && match (
            before.phase2,
            after.phase2,
        ) {
            (Some(p), Some(q)) => spec_goal_deleted_phase2(p, q, tombstone.goal_id),
            (None, None) => true,
            _ => false,
        },
        _ => after == ClientSnapshotView { phase2: after.phase2, ..before } && match (before.phase2, after.phase2) {
            (Some(p), Some(q)) => spec_private_applied(p, q, before.as_of, e.metadata.occurred_at, e.event),
            _ => false,
        },
    }
}

/// Applies an event's payload to the cached snapshot: records are upserted
/// by key, deletions remove their records, and a deleted goal takes its
/// sessions, grants, captures, history and now-unused resources with it.
pub fn apply_view_event(snapshot: &mut ClientSnapshotView, envelope: ViewEventEnvelope)
    requires
        needs_private_state(envelope.event) ==> old(snapshot).phase2 is Some,
        envelope.event matches ViewEvent::InterventionHistoryChanged { history_change, entry, .. } ==> (
        history_change is Deleted || entry is Some),
    ensures
        spec_applied(*old(snapshot), *final(snapshot), envelope),
{
    let as_of = snapshot.as_of;
    let occurred_at = envelope.metadata.occurred_at;
    match envelope.event {
        ViewEvent::GoalViewChanged { goal, .. } => {
            upsert(&mut snapshot.goals, goal);
        },
        ViewEvent::RuntimeStatusChanged { runtime } => {
            snapshot.runtime = runtime;
        },
        ViewEvent::CapabilityHealthChanged { capability } => {
            upsert_capability(&mut snapshot.capabilities, capability);
        },
        ViewEvent::GoalDeleted { tombstone } => {
            remove_key(&mut snapshot.goals, tombstone.goal_id);
            match snapshot.phase2.take() {
                Some(p) => {
                    snapshot.phase2 = Some(delete_goal_from_phase2(p, tombstone.goal_id));
                },
                None => {},
            }
        },
        event => {
            let mut p = match snapshot.phase2.take() {
                Some(p) => p,
                None => {
                    return;
                },
            };
            match event {
                ViewEvent::FocusSessionViewChanged { focus_session, .. } => {
                    upsert(&mut p.focus_sessions, focus_session);
                },
                ViewEvent::CaptureStateChanged { capture } => {
                    upsert(&mut p.capture_states, capture);
                },
                ViewEvent::DeliveryChannelViewChanged { channel } => {
                    upsert(&mut p.delivery_channels, channel);
                },
                ViewEvent::PermissionViewChanged { permission, .. } => {
                    upsert_permission(&mut p.permission_records, permission);
                },
                ViewEvent::InterventionAvailable { intervention } | ViewEvent::InterventionViewChanged { intervention } => {
                    p.intervention_history.as_of = as_of;
                    upsert(&mut p.intervention_history.entries, intervention);
                },
                ViewEvent::InterventionHistoryChanged { history_change, intervention_id, entry } => {
                    p.intervention_history.as_of = occurred_at;
                    match history_change {
                        InterventionHistoryChangeKind::Deleted => {
                            remove_key(&mut p.intervention_history.entries, intervention_id);
                        },
                        _ => match entry {
                            Some(e) => upsert(&mut p.intervention_history.entries, e),
                            None => {},
                        },
                    }
                },
                ViewEvent::SelectedResourceViewChanged { resource, resource_tombstone, .. } => {
                    match resource {
                        Some(r) => upsert(&mut p.selected_resources, r),
                        None => match resource_tombstone {
                            Some(t) => remove_key(&mut p.selected_resources, t.selected_resource_id),
                            None => {},
                        },
                    }
                },
                ViewEvent::UserPreferencesViewChanged { preferences, effective_policy } => {
                    p.user_preferences = Some(preferences);
                    p.effective_policy = Some(effective_policy);
                },
                _ => {},
            }
            snapshot.phase2 = Some(p);
        },
    }
}


/// Whether the rules of an event's kind date every event that edits private
/// state at protocol 1.1 or later, as the protocol does.
pub open spec fn rules_fit(e: ViewEvent, rules: EventKindRules) -> bool {
    needs_private_state(e) ==> spec_version_at_least(rules.minimum, ProtocolVersion { major: 1, minor: 1 })
}

/// The snapshot with its cursor and instant moved to the event's.
pub open spec fn advanced(s: ClientSnapshotView, e: ViewEventEnvelope) -> ClientSnapshotView {
    ClientSnapshotView { cursor: e.cursor, as_of: e.metadata.occurred_at, ..s }
}

/// How one application changes the set of recorded message identities: an
/// applied event's identity was new and is recorded; a covered event's
/// identity is recorded; a gap records nothing.
pub open spec fn identities_after(before: Set<u128>, after: Set<u128>, message_id: u128, r: EventApplication) -> bool {
    match r {
        EventApplication::Applied => !before.contains(message_id) && after == before.insert(message_id),
        EventApplication::AlreadyCovered => after == before.insert(message_id),
        EventApplication::Gap => after == before,
    }
}

/// One message identity changes the cache at most once: after an event was
/// applied or found covered, a later event carrying the same identity is
/// never applied, whatever calls came in between (they only add identities,
/// as `law_recorded_identities_are_kept` shows).
pub proof fn law_an_identity_is_applied_at_most_once(
    s0: Set<u128>,
    s1: Set<u128>,
    s2: Set<u128>,
    s3: Set<u128>,
    message_id: u128,
    first: EventApplication,
    later: EventApplication,
)
    requires
        identities_after(s0, s1, message_id, first),
        !(first is Gap),
        s1.subset_of(s2),
        identities_after(s2, s3, message_id, later),
    ensures
        !(later is Applied),
{
    assert(s1.contains(message_id));
}

/// Recording identities never forgets one.
pub proof fn law_recorded_identities_are_kept(before: Set<u128>, after: Set<u128>, message_id: u128, r: EventApplication)
    requires
        identities_after(before, after, message_id, r),
    ensures
        before.subset_of(after),
{
}

/// Applies one event to the cached snapshot. An event of another daemon
/// instance, or one that does not directly follow the cache, is a gap; an
/// event the cache already covers is not applied again; a following event
/// must be consistent with the session and cache, and its message identity
/// is recorded, so a replayed identity advances the cursor without being
/// applied twice and an exhausted identity set forces a reconnect.
pub fn apply_event_with_ids(
    snapshot: &mut ClientSnapshotView,
    identities: &mut EventIdentitySet,
    session: &SessionOpened,
    assurance: ClientAssurance,
    envelope: ViewEventEnvelope,
    rules: EventKindRules,
) -> (r: EventApplication)
    requires
        old(identities).well_formed(),
        rules_fit(envelope.event, rules),
    ensures
        final(identities).well_formed(),
        envelope.cursor.daemon_instance_id != old(snapshot).cursor.daemon_instance_id ==> r is Gap,
        envelope.cursor.daemon_instance_id == old(snapshot).cursor.daemon_instance_id && envelope.cursor.sequence
            <= old(snapshot).cursor.sequence ==> !(r is Applied) && (r is AlreadyCovered <==> (spec_header_consistent(
            *session,
            assurance,
            *old(snapshot),
            envelope.metadata,
            rules,
        ) && (old(identities)@.contains(envelope.metadata.message_id) || old(identities).len()
            < MAX_APPLIED_EVENT_IDENTITIES))),
        envelope.cursor.sequence > old(snapshot).cursor.sequence && !spec_event_follows(
            old(snapshot).cursor,
            envelope.cursor,
        ) ==> r is Gap,
        envelope.cursor.sequence > old(snapshot).cursor.sequence && spec_event_follows(old(snapshot).cursor, envelope.cursor)
            && !spec_event_consistent(
            *session,
            assurance,
            *old(snapshot),
            envelope,
            rules,
        ) ==> r is Gap,
        envelope.cursor.sequence > old(snapshot).cursor.sequence && spec_event_follows(old(snapshot).cursor, envelope.cursor)
            && spec_event_consistent(
            *session,
            assurance,
            *old(snapshot),
            envelope,
            rules,
        ) && old(identities)@.contains(envelope.metadata.message_id) ==> r is AlreadyCovered && *final(snapshot)
            == advanced(*old(snapshot), envelope),
        envelope.cursor.sequence > old(snapshot).cursor.sequence && spec_event_follows(old(snapshot).cursor, envelope.cursor)
            && spec_event_consistent(
            *session,
            assurance,
            *old(snapshot),
            envelope,
            rules,
        ) && !old(identities)@.contains(envelope.metadata.message_id) && old(identities).len()
            < MAX_APPLIED_EVENT_IDENTITIES ==> r is Applied,
        r is Gap || (r is AlreadyCovered && envelope.cursor.sequence <= old(snapshot).cursor.sequence)
            ==> *final(snapshot) == *old(snapshot),
        r is Applied ==> spec_applied(advanced(*old(snapshot), envelope), *final(snapshot), envelope),
        identities_after(old(identities)@, final(identities)@, envelope.metadata.message_id, r),
{
    let header = event_header_is_consistent(session, assurance, snapshot, &envelope.metadata, rules);
    let consistent = event_is_consistent(session, assurance, snapshot, &envelope, rules);
    let mut cache = CacheCursor { cursor: snapshot.cursor, as_of: snapshot.as_of };
    let r = apply_event_cursor(
        &mut cache,
        identities,
        envelope.cursor,
        envelope.metadata.occurred_at,
        envelope.metadata.message_id,
        header,
        consistent,
    );
    match r {
        EventApplication::Gap => r,
        EventApplication::AlreadyCovered => {
            snapshot.cursor = cache.cursor;
            snapshot.as_of = cache.as_of;
            r
        },
        EventApplication::Applied => {
            snapshot.cursor = cache.cursor;
            snapshot.as_of = cache.as_of;
            apply_view_event(snapshot, envelope);
            r
        },
    }
}


/// A record upserted into a cached list is the one found first by its key
/// afterwards, and the list grows only when no record had that key.
pub proof fn law_upsert_reads_back<T: Keyed>(s: Seq<T>, x: T)
    ensures
        exists|i: int| is_first(upserted(s, x), x.key_of(), i) && upserted(s, x)[i] == x,
        upserted(s, x).len() == if exists|i: int| is_first(s, x.key_of(), i) {
            s.len()
        } else {
            s.len() + 1
        },
{
    let key = x.key_of();
    let u = upserted(s, x);
    if exists|i: int| is_first(s, key, i) {
        let i = choose|i: int| is_first(s, key, i);
        assert(u == s.update(i, x));
        assert forall|m: int| 0 <= m < i implies (#[trigger] u[m]).key_of() != key by {
            assert(u[m] == s[m]);
        }
        assert(is_first(u, key, i));
    } else {
        assert(u == s.push(x));
        assert forall|m: int| 0 <= m < s.len() implies (#[trigger] u[m]).key_of() != key by {
            assert(u[m] == s[m]);
            if s[m].key_of() == key {
                lemma_first_exists(s, key, m);
            }
        }
        assert(is_first(u, key, s.len() as int));
    }
}

proof fn lemma_first_exists<T: Keyed>(s: Seq<T>, key: u128, m: int)
    requires
        0 <= m < s.len(),
        s[m].key_of() == key,
    ensures
        exists|i: int| is_first(s, key, i),
    decreases m,
{
    if forall|q: int| 0 <= q < m ==> (#[trigger] s[q]).key_of() != key {
        assert(is_first(s, key, m));
    } else {
        let q = choose|q: int| 0 <= q < m && (#[trigger] s[q]).key_of() == key;
        lemma_first_exists(s, key, q);
    }
}

/// An applied event leaves the cache at the event's cursor and instant, so
/// the same event is covered afterwards and can never be applied twice.
pub proof fn law_applied_event_is_covered_afterwards(s: ClientSnapshotView, t: ClientSnapshotView, e: ViewEventEnvelope)
    requires
        spec_applied(advanced(s, e), t, e),
    ensures
        t.cursor == e.cursor,
        t.as_of == e.metadata.occurred_at,
        e.cursor.sequence <= t.cursor.sequence,
{
}

} // verus!
