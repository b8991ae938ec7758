//! The client's authoritative snapshot and the rules that make it
//! consistent with the session that delivered it.

use vstd::prelude::*;
use crate::admission::ClientAssurance;
use crate::client::SessionOpened;
use crate::protocol::{ProtocolVersion, capability_supported, spec_capability_supported, spec_version_at_least, version_at_least};
use crate::server::EventCursor;
use crate::views::{
    CapabilityHealthView, CaptureStateView, DeliveryChannelView, FocusSessionView, GoalView,
    InterventionView, PermissionRecordView, SelectedResourceView, capture_state_is_consistent,
    focus_session_is_consistent, ids_unique, intervention_is_consistent, is_nonblank, nil, no_dup_ids,
    nonblank, permission_record_is_consistent, spec_capture_consistent, spec_focus_session_consistent,
    spec_intervention_consistent, spec_permission_consistent, capability_health_is_consistent,
    spec_capability_health_consistent,
};

verus! {

/// CORE's runtime status as the client caches it.
#[derive(Clone, Debug, PartialEq, Eq)]
pub struct RuntimeStatusView {
    pub daemon_instance_id: u128,
    pub protocol_version: ProtocolVersion,
    pub build_id: String,
    pub started_at: i64,
    pub observed_at: i64,
}

/// The owner, schema, revision and recording instant of a durable
/// user record (the STEIN identity or the user preferences).
#[derive(Clone, Copy, Debug, PartialEq, Eq, Structural)]
pub struct RecordStamp {
    pub owner_id: u128,
    pub schema_version: u32,
    pub revision: u64,
    pub recorded_at: i64,
}

/// The schema and preferences revision of the effective policy.
#[derive(Clone, Copy, Debug, PartialEq, Eq, Structural)]
pub struct PolicyStamp {
    pub schema_version: u32,
    pub user_preferences_revision: u64,
}

/// The intervention history as the client caches it.
#[derive(Clone, Debug, PartialEq, Eq)]
pub struct InterventionHistoryView {
    pub as_of: i64,
    pub entries: Vec<InterventionView>,
}

/// The private state that protocol 1.1 added to snapshots.
#[derive(Clone, Debug, PartialEq, Eq)]
pub struct Phase2View {
    pub current_device_id: Option<u128>,
    pub stein_identity: Option<RecordStamp>,
    pub user_preferences: Option<RecordStamp>,
    pub effective_policy: Option<PolicyStamp>,
    pub selected_resources: Vec<SelectedResourceView>,
    pub permission_records: Vec<PermissionRecordView>,
    pub focus_sessions: Vec<FocusSessionView>,
    pub capture_states: Vec<CaptureStateView>,
    pub delivery_channels: Vec<DeliveryChannelView>,
    pub intervention_history: InterventionHistoryView,
}

/// The authoritative snapshot the client caches.
#[derive(Clone, Debug, PartialEq, Eq)]
pub struct ClientSnapshotView {
    pub snapshot_id: u128,
    pub cursor: EventCursor,
    pub runtime: RuntimeStatusView,
    pub as_of: i64,
    pub capabilities: Vec<CapabilityHealthView>,
    pub goals: Vec<GoalView>,
    pub phase2: Option<Phase2View>,
}

/// Whether a goal with identifier `id` is cached.
pub open spec fn goal_known(goals: Seq<GoalView>, id: u128) -> bool {
    exists|k: int| 0 <= k < goals.len() && (#[trigger] goals[k]).goal_id == id
}

/// Whether a selected resource with identifier `id` is cached.
pub open spec fn resource_known(p: Phase2View, id: u128) -> bool {
    exists|k: int| 0 <= k < p.selected_resources@.len() && (#[trigger] p.selected_resources@[k]).selected_resource_id == id
}

/// Whether a focus session with identifier `id` is cached.
pub open spec fn session_known(p: Phase2View, id: u128) -> bool {
    exists|k: int| 0 <= k < p.focus_sessions@.len() && (#[trigger] p.focus_sessions@[k]).focus_session_id == id
}

/// Whether a model route approval with identifier `id` is cached.
pub open spec fn route_known(p: Phase2View, id: u128) -> bool {
    exists|k: int|
        0 <= k < p.permission_records@.len() && (#[trigger] p.permission_records@[k] matches PermissionRecordView::ModelRouteApproval(a)
            && a.model_route_approval_id == id)
}

/// Whether a session grant with identifier `id` is cached.
pub open spec fn grant_known(p: Phase2View, id: u128) -> bool {
    exists|k: int|
        0 <= k < p.permission_records@.len() && (#[trigger] p.permission_records@[k] matches PermissionRecordView::SessionGrant(g)
            && g.permission_grant_id == id)
}

/// Whether a delivery channel with identifier `id` is cached.
pub open spec fn channel_known(p: Phase2View, id: u128) -> bool {
    exists|k: int| 0 <= k < p.delivery_channels@.len() && (#[trigger] p.delivery_channels@[k]).delivery_channel_id == id
}

fn find_goal_id(goals: &Vec<GoalView>, id: u128) -> (r: bool)
    ensures
        r == goal_known(goals@, id),
{
    let mut i: usize = 0;
    while i < goals.len()
        invariant
            i <= goals@.len(),
            forall|k: int| 0 <= k < i ==> (#[trigger] goals@[k]).goal_id != id,
        decreases goals@.len() - i,
    {
        if goals[i].goal_id == id {
            assert(goals@[i as int].goal_id == id);
            return true;
        }
        i = i + 1;
    }
    false
}

fn has_resource(p: &Phase2View, id: u128) -> (r: bool)
    ensures
        r == resource_known(*p, id),
{
    let mut i: usize = 0;
    while i < p.selected_resources.len()
        invariant
            i <= p.selected_resources@.len(),
            forall|k: int| 0 <= k < i ==> (#[trigger] p.selected_resources@[k]).selected_resource_id != id,
        decreases p.selected_resources@.len() - i,
    {
        if p.selected_resources[i].selected_resource_id == id {
            assert(p.selected_resources@[i as int].selected_resource_id == id);
            return true;
        }
        i = i + 1;
    }
    false
}

fn has_session(p: &Phase2View, id: u128) -> (r: bool)
    ensures
        r == session_known(*p, id),
{
    let mut i: usize = 0;
    while i < p.focus_sessions.len()
        invariant
            i <= p.focus_sessions@.len(),
            forall|k: int| 0 <= k < i ==> (#[trigger] p.focus_sessions@[k]).focus_session_id != id,
        decreases p.focus_sessions@.len() - i,
    {
        if p.focus_sessions[i].focus_session_id == id {
            assert(p.focus_sessions@[i as int].focus_session_id == id);
            return true;
        }
        i = i + 1;
    }
    false
}

fn has_route(p: &Phase2View, id: u128) -> (r: bool)
    ensures
        r == route_known(*p, id),
{
    let mut i: usize = 0;
    while i < p.permission_records.len()
        invariant
            i <= p.permission_records@.len(),
            forall|k: int|
                0 <= k < i ==> !(#[trigger] p.permission_records@[k] matches PermissionRecordView::ModelRouteApproval(a)
                    && a.model_route_approval_id == id),
        decreases p.permission_records@.len() - i,
    {
        match &p.permission_records[i] {
            PermissionRecordView::ModelRouteApproval(a) => {
                if a.model_route_approval_id == id {
                    assert(p.permission_records@[i as int] matches PermissionRecordView::ModelRouteApproval(a)
                        && a.model_route_approval_id == id);
                    return true;
                }
            },
            _ => {},
        }
        i = i + 1;
    }
    false
}

fn has_grant(p: &Phase2View, id: u128) -> (r: bool)
    ensures
        r == grant_known(*p, id),
{
    let mut i: usize = 0;
    while i < p.permission_records.len()
        invariant
            i <= p.permission_records@.len(),
            forall|k: int|
                0 <= k < i ==> !(#[trigger] p.permission_records@[k] matches PermissionRecordView::SessionGrant(g)
                    && g.permission_grant_id == id),
        decreases p.permission_records@.len() - i,
    {
        match &p.permission_records[i] {
            PermissionRecordView::SessionGrant(g) => {
                if g.permission_grant_id == id {
                    assert(p.permission_records@[i as int] matches PermissionRecordView::SessionGrant(g)
                        && g.permission_grant_id == id);
                    return true;
                }
            },
            _ => {},
        }
        i = i + 1;
    }
    false
}

fn has_channel(p: &Phase2View, id: u128) -> (r: bool)
    ensures
        r == channel_known(*p, id),
{
    let mut i: usize = 0;
    while i < p.delivery_channels.len()
        invariant
            i <= p.delivery_channels@.len(),
            forall|k: int| 0 <= k < i ==> (#[trigger] p.delivery_channels@[k]).delivery_channel_id != id,
        decreases p.delivery_channels@.len() - i,
    {
        if p.delivery_channels[i].delivery_channel_id == id {
            assert(p.delivery_channels@[i as int].delivery_channel_id == id);
            return true;
        }
        i = i + 1;
    }
    false
}

/// A session grant names a cached goal, and its resource and focus session,
/// when present, are cached too; a model route approval relates to nothing.
pub open spec fn spec_permission_relations(s: ClientSnapshotView, record: PermissionRecordView) -> bool {
    match record {
        PermissionRecordView::SessionGrant(g) => {
            &&& goal_known(s.goals@, g.goal_id)
            &&& g.selected_resource_id matches Some(r) ==> (s.phase2 matches Some(p) && resource_known(p, r))
            &&& g.focus_session_id matches Some(f) ==> (s.phase2 matches Some(p) && session_known(p, f))
        },
        PermissionRecordView::ModelRouteApproval(_) => true,
    }
}

/// Whether a permission record's references are all cached.
pub fn permission_relations_are_consistent(s: &ClientSnapshotView, record: &PermissionRecordView) -> (r: bool)
    ensures
        r == spec_permission_relations(*s, *record),
{
    match record {
        PermissionRecordView::SessionGrant(g) => {
            if !find_goal_id(&s.goals, g.goal_id) {
                return false;
            }
            match g.selected_resource_id {
                Some(rid) => match &s.phase2 {
                    Some(p) => {
                        if !has_resource(p, rid) {
                            return false;
                        }
                    },
                    None => return false,
                },
                None => {},
            }
            match g.focus_session_id {
                Some(fid) => match &s.phase2 {
                    Some(p) => has_session(p, fid),
                    None => false,
                },
                None => true,
            }
        },
        PermissionRecordView::ModelRouteApproval(_) => true,
    }
}

/// A focus session names a cached goal and model route approval, and every
/// grant and resource it names is cached.
pub open spec fn spec_focus_relations(s: ClientSnapshotView, f: FocusSessionView) -> bool {
    &&& goal_known(s.goals@, f.goal_id)
    &&& s.phase2 matches Some(p) && {
        &&& route_known(p, f.model_route_approval_id)
        &&& forall|k: int| 0 <= k < f.permission_grant_ids@.len() ==> grant_known(p, #[trigger] f.permission_grant_ids@[k])
        &&& forall|k: int| 0 <= k < f.selected_resource_ids@.len() ==> resource_known(p, #[trigger] f.selected_resource_ids@[k])
    }
}

/// Whether a focus session's references are all cached.
pub fn focus_session_relations_are_consistent(s: &ClientSnapshotView, f: &FocusSessionView) -> (r: bool)
    ensures
        r == spec_focus_relations(*s, *f),
{
    if !find_goal_id(&s.goals, f.goal_id) {
        return false;
    }
    let p = match &s.phase2 {
        Some(p) => p,
        None => return false,
    };
    if !has_route(p, f.model_route_approval_id) {
        return false;
    }
    let mut i: usize = 0;
    while i < f.permission_grant_ids.len()
        invariant
            i <= f.permission_grant_ids@.len(),
            s.phase2 == Some(*p),
            goal_known(s.goals@, f.goal_id),
            route_known(*p, f.model_route_approval_id),
            forall|k: int| 0 <= k < i ==> grant_known(*p, #[trigger] f.permission_grant_ids@[k]),
        decreases f.permission_grant_ids@.len() - i,
    {
        if !has_grant(p, f.permission_grant_ids[i]) {
            assert(!grant_known(*p, f.permission_grant_ids@[i as int]));
            return false;
        }
        i = i + 1;
    }
    let mut j: usize = 0;
    while j < f.selected_resource_ids.len()
        invariant
            j <= f.selected_resource_ids@.len(),
            s.phase2 == Some(*p),
            goal_known(s.goals@, f.goal_id),
            route_known(*p, f.model_route_approval_id),
            forall|k: int| 0 <= k < f.permission_grant_ids@.len() ==> grant_known(*p, #[trigger] f.permission_grant_ids@[k]),
            forall|k: int| 0 <= k < j ==> resource_known(*p, #[trigger] f.selected_resource_ids@[k]),
        decreases f.selected_resource_ids@.len() - j,
    {
        if !has_resource(p, f.selected_resource_ids[j]) {
            assert(!resource_known(*p, f.selected_resource_ids@[j as int]));
            return false;
        }
        j = j + 1;
    }
    true
}

/// A capture names a cached focus session, and every resource its sources
/// name is cached.
pub open spec fn spec_capture_relations(s: ClientSnapshotView, c: CaptureStateView) -> bool {
    match s.phase2 {
        Some(p) => session_known(p, c.focus_session_id) && forall|k: int|
            0 <= k < c.sources@.len() ==> source_resource_known(p, #[trigger] c.sources@[k]),
        None => false,
    }
}

/// The source's resource, when it names one, is cached.
pub open spec fn source_resource_known(p: Phase2View, source: crate::views::CaptureSourceView) -> bool {
    match source.selected_resource_id {
        Some(r) => resource_known(p, r),
        None => true,
    }
}

/// Whether a capture's references are all cached.
pub fn capture_relations_are_consistent(s: &ClientSnapshotView, c: &CaptureStateView) -> (r: bool)
    ensures
        r == spec_capture_relations(*s, *c),
{
    let p = match &s.phase2 {
        Some(p) => p,
        None => return false,
    };
    if !has_session(p, c.focus_session_id) {
        return false;
    }
    let mut i: usize = 0;
    while i < c.sources.len()
        invariant
            i <= c.sources@.len(),
            s.phase2 == Some(*p),
            session_known(*p, c.focus_session_id),
            forall|k: int| 0 <= k < i ==> source_resource_known(*p, #[trigger] c.sources@[k]),
        decreases c.sources@.len() - i,
    {
        match c.sources[i].selected_resource_id {
            Some(rid) => {
                if !has_resource(p, rid) {
                    assert(!source_resource_known(*p, c.sources@[i as int]));
                    return false;
                }
            },
            None => {},
        }
        i = i + 1;
    }
    true
}

/// An intervention names a cached goal and focus session, and its delivery
/// channel, when present, is cached.
pub open spec fn spec_intervention_relations(s: ClientSnapshotView, i: InterventionView) -> bool {
    goal_known(s.goals@, i.goal_id) && match s.phase2 {
        Some(p) => session_known(p, i.focus_session_id) && match i.delivery_channel_id {
            Some(c) => channel_known(p, c),
            None => true,
        },
        None => false,
    }
}

/// Whether an intervention's references are all cached.
pub fn intervention_relations_are_consistent(s: &ClientSnapshotView, i: &InterventionView) -> (r: bool)
    ensures
        r == spec_intervention_relations(*s, *i),
{
    if !find_goal_id(&s.goals, i.goal_id) {
        return false;
    }
    let p = match &s.phase2 {
        Some(p) => p,
        None => return false,
    };
    if !has_session(p, i.focus_session_id) {
        return false;
    }
    match i.delivery_channel_id {
        Some(c) => has_channel(p, c),
        None => true,
    }
}

/// Whether the first entry for `id`, if any, has a revision of at most
/// `revision`.
pub open spec fn first_entry_not_newer(entries: Seq<InterventionView>, id: u128, revision: u64) -> bool
    decreases entries.len(),
{
    if entries.len() == 0 {
        true
    } else if entries[0].intervention_id == id {
        entries[0].revision <= revision
    } else {
        first_entry_not_newer(entries.drop_first(), id, revision)
    }
}

/// The first cached history entry for an intervention is not newer than
/// the incoming record.
pub open spec fn spec_not_regressed(s: ClientSnapshotView, i: InterventionView) -> bool {
    match s.phase2 {
        Some(p) => first_entry_not_newer(p.intervention_history.entries@, i.intervention_id, i.revision),
        None => false,
    }
}

/// Whether an incoming intervention record does not regress the cached one.
pub fn intervention_revision_not_regressed(s: &ClientSnapshotView, i: &InterventionView) -> (r: bool)
    ensures
        r == spec_not_regressed(*s, *i),
{
    let p = match &s.phase2 {
        Some(p) => p,
        None => return false,
    };
    let entries = &p.intervention_history.entries;
    let ghost all = entries@;
    let mut k: usize = 0;
    assert(all.subrange(0, all.len() as int) == all);
    while k < entries.len()
        invariant
            k <= all.len(),
            all == entries@,
            s.phase2 == Some(*p),
            *entries == p.intervention_history.entries,
            first_entry_not_newer(all, i.intervention_id, i.revision) == first_entry_not_newer(
                all.subrange(k as int, all.len() as int),
                i.intervention_id,
                i.revision,
            ),
        decreases all.len() - k,
    {
        let ghost rest = all.subrange(k as int, all.len() as int);
        assert(rest.len() > 0 && rest[0] == all[k as int]);
        if entries[k].intervention_id == i.intervention_id {
            return entries[k].revision <= i.revision;
        }
        assert(rest.drop_first() == all.subrange(k + 1, all.len() as int));
        k = k + 1;
    }
    true
}

/// A cached selected resource: a non-nil identifier and a non-blank name,
/// with a positive revision and a creation instant no later than the
/// snapshot exactly when the session speaks protocol 1.2.
pub open spec fn spec_resource_consistent(r: SelectedResourceView, v1_2: bool, as_of: i64) -> bool {
    &&& r.selected_resource_id != nil() && nonblank(r.display_name@)
    &&& if v1_2 {
        (r.revision matches Some(v) && v > 0) && (r.created_at matches Some(c) && c <= as_of)
    } else {
        r.revision is None && r.created_at is None
    }
}

/// The identity, preferences and policy that protocol 1.2 requires, owned by
/// the session's actor, of schema 1, with positive revisions recorded no
/// later than the snapshot, and a policy derived from those preferences.
pub open spec fn spec_identity_records(p: Phase2View, actor: u128, as_of: i64) -> bool {
    &&& p.current_device_id matches Some(d) && d != nil()
    &&& p.stein_identity matches Some(i) && i.owner_id == actor && i.schema_version == 1 && i.revision != 0
        && i.recorded_at <= as_of
    &&& p.user_preferences matches Some(u) && u.owner_id == actor && u.schema_version == 1 && u.revision != 0
        && u.recorded_at <= as_of
    &&& p.effective_policy matches Some(e) && e.schema_version == 1 && e.user_preferences_revision
        == p.user_preferences->0.revision
}

/// The key that identifies a permission record: its kind and identifier.
pub open spec fn permission_key(r: PermissionRecordView) -> (bool, u128) {
    match r {
        PermissionRecordView::SessionGrant(g) => (true, g.permission_grant_id),
        PermissionRecordView::ModelRouteApproval(a) => (false, a.model_route_approval_id),
    }
}

/// No two permission records share a key.
pub open spec fn permission_keys_distinct(s: Seq<PermissionRecordView>) -> bool {
    forall|i: int, j: int| 0 <= i < j < s.len() ==> permission_key(s[i]) != permission_key(s[j])
}

/// The identity records agree with the protocol version: present and
/// consistent from protocol 1.2 on, absent before.
pub open spec fn spec_identity_part(session: SessionOpened, s: ClientSnapshotView, p: Phase2View) -> bool {
    if spec_version_at_least(session.protocol_version, ProtocolVersion { major: 1, minor: 2 }) {
        spec_identity_records(p, session.authenticated_actor_id, s.as_of)
    } else {
        p.current_device_id is None && p.stein_identity is None && p.user_preferences is None
            && p.effective_policy is None
    }
}

/// Every selected resource is consistent and none repeats.
pub open spec fn spec_resources_part(p: Phase2View, v1_2: bool, as_of: i64) -> bool {
    &&& forall|k: int| 0 <= k < p.selected_resources@.len() ==> spec_resource_consistent(#[trigger] p.selected_resources@[k], v1_2, as_of)
    &&& no_dup_ids(p.selected_resources@.map_values(|r: SelectedResourceView| r.selected_resource_id))
}

/// Every permission record is consistent and no key repeats.
pub open spec fn spec_permissions_part(p: Phase2View, actor: u128, as_of: i64) -> bool {
    &&& forall|k: int| 0 <= k < p.permission_records@.len() ==> spec_permission_consistent(actor, #[trigger] p.permission_records@[k], as_of)
    &&& permission_keys_distinct(p.permission_records@)
}

/// Every focus session is consistent and none repeats.
pub open spec fn spec_sessions_part(p: Phase2View, as_of: i64) -> bool {
    &&& forall|k: int| 0 <= k < p.focus_sessions@.len() ==> spec_focus_session_consistent(#[trigger] p.focus_sessions@[k], as_of)
    &&& no_dup_ids(p.focus_sessions@.map_values(|f: FocusSessionView| f.focus_session_id))
}

/// Every capture is consistent and no focus session has two.
pub open spec fn spec_captures_part(p: Phase2View, as_of: i64) -> bool {
    &&& forall|k: int| 0 <= k < p.capture_states@.len() ==> spec_capture_consistent(#[trigger] p.capture_states@[k], as_of)
    &&& no_dup_ids(p.capture_states@.map_values(|c: CaptureStateView| c.focus_session_id))
}

/// Every delivery channel is non-nil, observed no later than the snapshot,
/// and none repeats.
pub open spec fn spec_channels_part(p: Phase2View, as_of: i64) -> bool {
    &&& forall|k: int|
        0 <= k < p.delivery_channels@.len() ==> (#[trigger] p.delivery_channels@[k]).delivery_channel_id != nil()
            && p.delivery_channels@[k].observed_at <= as_of
    &&& no_dup_ids(p.delivery_channels@.map_values(|c: DeliveryChannelView| c.delivery_channel_id))
}

/// Every permission, focus session and capture names only cached records.
pub open spec fn spec_relations_part(s: ClientSnapshotView, p: Phase2View) -> bool {
    &&& forall|k: int| 0 <= k < p.permission_records@.len() ==> spec_permission_relations(s, #[trigger] p.permission_records@[k])
    &&& forall|k: int| 0 <= k < p.focus_sessions@.len() ==> spec_focus_relations(s, #[trigger] p.focus_sessions@[k])
    &&& forall|k: int| 0 <= k < p.capture_states@.len() ==> spec_capture_relations(s, #[trigger] p.capture_states@[k])
}

/// The history is no newer than the snapshot, and every entry is
/// consistent at the history's instant, names only cached records and
/// occurs once.
pub open spec fn spec_history_part(s: ClientSnapshotView, p: Phase2View) -> bool {
    &&& p.intervention_history.as_of <= s.as_of
    &&& forall|k: int|
        0 <= k < p.intervention_history.entries@.len() ==> spec_intervention_consistent(
            #[trigger] p.intervention_history.entries@[k],
            p.intervention_history.as_of,
        ) && spec_intervention_relations(s, p.intervention_history.entries@[k])
    &&& no_dup_ids(p.intervention_history.entries@.map_values(|e: InterventionView| e.intervention_id))
}

/// What the private part of a snapshot must satisfy.
pub open spec fn spec_phase2_consistent(session: SessionOpened, s: ClientSnapshotView, p: Phase2View) -> bool {
    let v1_2 = spec_version_at_least(session.protocol_version, ProtocolVersion { major: 1, minor: 2 });
    &&& spec_identity_part(session, s, p)
    &&& spec_resources_part(p, v1_2, s.as_of)
    &&& spec_permissions_part(p, session.authenticated_actor_id, s.as_of)
    &&& spec_sessions_part(p, s.as_of)
    &&& spec_captures_part(p, s.as_of)
    &&& spec_channels_part(p, s.as_of)
    &&& spec_relations_part(s, p)
    &&& spec_history_part(s, p)
}

fn identity_records_are_consistent(p: &Phase2View, actor: u128, as_of: i64) -> (r: bool)
    ensures
        r == spec_identity_records(*p, actor, as_of),
{
    let device = match p.current_device_id {
        Some(d) => d != 0,
        None => false,
    };
    let identity = match p.stein_identity {
        Some(i) => i.owner_id == actor && i.schema_version == 1 && i.revision != 0 && i.recorded_at <= as_of,
        None => false,
    };
    let (preferences, revision) = match p.user_preferences {
        Some(u) => (u.owner_id == actor && u.schema_version == 1 && u.revision != 0 && u.recorded_at <= as_of, u.revision),
        None => (false, 0),
    };
    let policy = match p.effective_policy {
        Some(e) => e.schema_version == 1 && e.user_preferences_revision == revision,
        None => false,
    };
    device && identity && preferences && policy
}

fn resource_is_consistent(r: &SelectedResourceView, v1_2: bool, as_of: i64) -> (ok: bool)
    ensures
        ok == spec_resource_consistent(*r, v1_2, as_of),
{
    if r.selected_resource_id == 0 || !is_nonblank(&r.display_name) {
        return false;
    }
    if v1_2 {
        let revision_ok = match r.revision {
            Some(v) => v > 0,
            None => false,
        };
        let created_ok = match r.created_at {
            Some(c) => c <= as_of,
            None => false,
        };
        revision_ok && created_ok
    } else {
        r.revision.is_none() && r.created_at.is_none()
    }
}

fn same_permission_key(a: &PermissionRecordView, b: &PermissionRecordView) -> (r: bool)
    ensures
        r == (permission_key(*a) == permission_key(*b)),
{
    match (a, b) {
        (PermissionRecordView::SessionGrant(x), PermissionRecordView::SessionGrant(y)) => x.permission_grant_id
            == y.permission_grant_id,
        (PermissionRecordView::ModelRouteApproval(x), PermissionRecordView::ModelRouteApproval(y)) => x.model_route_approval_id
            == y.model_route_approval_id,
        _ => false,
    }
}

fn permission_keys_unique(records: &Vec<PermissionRecordView>) -> (r: bool)
    ensures
        r == permission_keys_distinct(records@),
{
    let n = records.len();
    let mut j: usize = 0;
    while j < n
        invariant
            j <= n == records@.len(),
            forall|a: int, b: int| 0 <= a < b < j ==> permission_key(records@[a]) != permission_key(records@[b]),
        decreases n - j,
    {
        let mut i: usize = 0;
        while i < j
            invariant
                i <= j < n == records@.len(),
                forall|a: int| 0 <= a < i ==> permission_key(records@[a]) != permission_key(records@[j as int]),
            decreases j - i,
        {
            if same_permission_key(&records[i], &records[j]) {
                return false;
            }
            i = i + 1;
        }
        j = j + 1;
    }
    true
}

fn resources_are_consistent(p: &Phase2View, v1_2: bool, as_of: i64) -> (r: bool)
    ensures
        r == spec_resources_part(*p, v1_2, as_of),
{
    let mut ids: Vec<u128> = Vec::new();
    let mut i: usize = 0;
    while i < p.selected_resources.len()
        invariant
            i <= p.selected_resources@.len(),
            ids@ == p.selected_resources@.subrange(0, i as int).map_values(|r: SelectedResourceView| r.selected_resource_id),
            forall|k: int| 0 <= k < i ==> spec_resource_consistent(#[trigger] p.selected_resources@[k], v1_2, as_of),
        decreases p.selected_resources@.len() - i,
    {
        if !resource_is_consistent(&p.selected_resources[i], v1_2, as_of) {
            return false;
        }
        ids.push(p.selected_resources[i].selected_resource_id);
        assert(p.selected_resources@.subrange(0, (i + 1) as int).map_values(|r: SelectedResourceView| r.selected_resource_id)
            == p.selected_resources@.subrange(0, i as int).map_values(|r: SelectedResourceView| r.selected_resource_id).push(
            p.selected_resources@[i as int].selected_resource_id,
        ));
        i = i + 1;
    }
    assert(p.selected_resources@.subrange(0, i as int) == p.selected_resources@);
    ids_unique(&ids)
}

fn permissions_are_consistent(p: &Phase2View, actor: u128, as_of: i64) -> (r: bool)
    ensures
        r == spec_permissions_part(*p, actor, as_of),
{
    let mut i: usize = 0;
    while i < p.permission_records.len()
        invariant
            i <= p.permission_records@.len(),
            forall|k: int| 0 <= k < i ==> spec_permission_consistent(actor, #[trigger] p.permission_records@[k], as_of),
        decreases p.permission_records@.len() - i,
    {
        if !permission_record_is_consistent(actor, &p.permission_records[i], as_of) {
            return false;
        }
        i = i + 1;
    }
    permission_keys_unique(&p.permission_records)
}

fn sessions_are_consistent(p: &Phase2View, as_of: i64) -> (r: bool)
    ensures
        r == spec_sessions_part(*p, as_of),
{
    let mut ids: Vec<u128> = Vec::new();
    let mut i: usize = 0;
    while i < p.focus_sessions.len()
        invariant
            i <= p.focus_sessions@.len(),
            ids@ == p.focus_sessions@.subrange(0, i as int).map_values(|f: FocusSessionView| f.focus_session_id),
            forall|k: int| 0 <= k < i ==> spec_focus_session_consistent(#[trigger] p.focus_sessions@[k], as_of),
        decreases p.focus_sessions@.len() - i,
    {
        if !focus_session_is_consistent(&p.focus_sessions[i], as_of) {
            return false;
        }
        ids.push(p.focus_sessions[i].focus_session_id);
        assert(p.focus_sessions@.subrange(0, (i + 1) as int).map_values(|f: FocusSessionView| f.focus_session_id)
            == p.focus_sessions@.subrange(0, i as int).map_values(|f: FocusSessionView| f.focus_session_id).push(
            p.focus_sessions@[i as int].focus_session_id,
        ));
        i = i + 1;
    }
    assert(p.focus_sessions@.subrange(0, i as int) == p.focus_sessions@);
    ids_unique(&ids)
}

fn captures_are_consistent(p: &Phase2View, as_of: i64) -> (r: bool)
    ensures
        r == spec_captures_part(*p, as_of),
{
    let mut ids: Vec<u128> = Vec::new();
    let mut i: usize = 0;
    while i < p.capture_states.len()
        invariant
            i <= p.capture_states@.len(),
            ids@ == p.capture_states@.subrange(0, i as int).map_values(|c: CaptureStateView| c.focus_session_id),
            forall|k: int| 0 <= k < i ==> spec_capture_consistent(#[trigger] p.capture_states@[k], as_of),
        decreases p.capture_states@.len() - i,
    {
        if !capture_state_is_consistent(&p.capture_states[i], as_of) {
            return false;
        }
        ids.push(p.capture_states[i].focus_session_id);
        assert(p.capture_states@.subrange(0, (i + 1) as int).map_values(|c: CaptureStateView| c.focus_session_id)
            == p.capture_states@.subrange(0, i as int).map_values(|c: CaptureStateView| c.focus_session_id).push(
            p.capture_states@[i as int].focus_session_id,
        ));
        i = i + 1;
    }
    assert(p.capture_states@.subrange(0, i as int) == p.capture_states@);
    ids_unique(&ids)
}

fn channels_are_consistent(p: &Phase2View, as_of: i64) -> (r: bool)
    ensures
        r == spec_channels_part(*p, as_of),
{
    let mut ids: Vec<u128> = Vec::new();
    let mut i: usize = 0;
    while i < p.delivery_channels.len()
        invariant
            i <= p.delivery_channels@.len(),
            ids@ == p.delivery_channels@.subrange(0, i as int).map_values(|c: DeliveryChannelView| c.delivery_channel_id),
            forall|k: int|
                0 <= k < i ==> (#[trigger] p.delivery_channels@[k]).delivery_channel_id != nil()
                    && p.delivery_channels@[k].observed_at <= as_of,
        decreases p.delivery_channels@.len() - i,
    {
        let c = p.delivery_channels[i];
        if c.delivery_channel_id == 0 || c.observed_at > as_of {
            return false;
        }
        ids.push(c.delivery_channel_id);
        assert(p.delivery_channels@.subrange(0, (i + 1) as int).map_values(|c: DeliveryChannelView| c.delivery_channel_id)
            == p.delivery_channels@.subrange(0, i as int).map_values(|c: DeliveryChannelView| c.delivery_channel_id).push(
            c.delivery_channel_id,
        ));
        i = i + 1;
    }
    assert(p.delivery_channels@.subrange(0, i as int) == p.delivery_channels@);
    ids_unique(&ids)
}

fn relations_are_consistent(s: &ClientSnapshotView, p: &Phase2View) -> (r: bool)
    ensures
        r == spec_relations_part(*s, *p),
{
    let mut i: usize = 0;
    while i < p.permission_records.len()
        invariant
            i <= p.permission_records@.len(),
            forall|k: int| 0 <= k < i ==> spec_permission_relations(*s, #[trigger] p.permission_records@[k]),
        decreases p.permission_records@.len() - i,
    {
        if !permission_relations_are_consistent(s, &p.permission_records[i]) {
            return false;
        }
        i = i + 1;
    }
    let mut i: usize = 0;
    while i < p.focus_sessions.len()
        invariant
            i <= p.focus_sessions@.len(),
            forall|k: int| 0 <= k < p.permission_records@.len() ==> spec_permission_relations(*s, #[trigger] p.permission_records@[k]),
            forall|k: int| 0 <= k < i ==> spec_focus_relations(*s, #[trigger] p.focus_sessions@[k]),
        decreases p.focus_sessions@.len() - i,
    {
        if !focus_session_relations_are_consistent(s, &p.focus_sessions[i]) {
            return false;
        }
        i = i + 1;
    }
    let mut i: usize = 0;
    while i < p.capture_states.len()
        invariant
            i <= p.capture_states@.len(),
            forall|k: int| 0 <= k < p.permission_records@.len() ==> spec_permission_relations(*s, #[trigger] p.permission_records@[k]),
            forall|k: int| 0 <= k < p.focus_sessions@.len() ==> spec_focus_relations(*s, #[trigger] p.focus_sessions@[k]),
            forall|k: int| 0 <= k < i ==> spec_capture_relations(*s, #[trigger] p.capture_states@[k]),
        decreases p.capture_states@.len() - i,
    {
        if !capture_relations_are_consistent(s, &p.capture_states[i]) {
            return false;
        }
        i = i + 1;
    }
    true
}

fn history_is_consistent(s: &ClientSnapshotView, p: &Phase2View) -> (r: bool)
    ensures
        r == spec_history_part(*s, *p),
{
    if p.intervention_history.as_of > s.as_of {
        return false;
    }
    let entries = &p.intervention_history.entries;
    let history_as_of = p.intervention_history.as_of;
    let mut ids: Vec<u128> = Vec::new();
    let mut i: usize = 0;
    while i < entries.len()
        invariant
            i <= entries@.len(),
            *entries == p.intervention_history.entries,
            history_as_of == p.intervention_history.as_of,
            ids@ == entries@.subrange(0, i as int).map_values(|e: InterventionView| e.intervention_id),
            forall|k: int|
                0 <= k < i ==> spec_intervention_consistent(#[trigger] entries@[k], history_as_of)
                    && spec_intervention_relations(*s, entries@[k]),
        decreases entries@.len() - i,
    {
        if !intervention_is_consistent(&entries[i], history_as_of) || !intervention_relations_are_consistent(
            s,
            &entries[i],
        ) {
            return false;
        }
        ids.push(entries[i].intervention_id);
        assert(entries@.subrange(0, (i + 1) as int).map_values(|e: InterventionView| e.intervention_id)
            == entries@.subrange(0, i as int).map_values(|e: InterventionView| e.intervention_id).push(
            entries@[i as int].intervention_id,
        ));
        i = i + 1;
    }
    assert(entries@.subrange(0, i as int) == entries@);
    ids_unique(&ids)
}

/// Whether the private part of a snapshot is consistent with the session and
/// the rest of the snapshot.
pub fn phase2_snapshot_is_consistent(session: &SessionOpened, s: &ClientSnapshotView, p: &Phase2View) -> (r: bool)
    ensures
        r == spec_phase2_consistent(*session, *s, *p),
{
    let v1_2 = version_at_least(session.protocol_version, ProtocolVersion::v1_2());
    let identity = if v1_2 {
        identity_records_are_consistent(p, session.authenticated_actor_id, s.as_of)
    } else {
        p.current_device_id.is_none() && p.stein_identity.is_none() && p.user_preferences.is_none()
            && p.effective_policy.is_none()
    };
    identity && resources_are_consistent(p, v1_2, s.as_of) && permissions_are_consistent(
        p,
        session.authenticated_actor_id,
        s.as_of,
    ) && sessions_are_consistent(p, s.as_of) && captures_are_consistent(p, s.as_of) && channels_are_consistent(
        p,
        s.as_of,
    ) && relations_are_consistent(s, p) && history_is_consistent(s, p)
}


/// Every capability report is consistent, visible at the negotiated
/// version, and reported once.
pub open spec fn spec_capabilities_part(caps: Seq<CapabilityHealthView>, v: ProtocolVersion) -> bool {
    &&& forall|k: int|
        0 <= k < caps.len() ==> spec_capability_health_consistent(#[trigger] caps[k]) && spec_capability_supported(
            caps[k].capability,
            v,
        )
    &&& forall|i: int, j: int| 0 <= i < j < caps.len() ==> caps[i].capability != caps[j].capability
}

/// Every cached goal is a non-nil goal of the session's actor with a
/// positive revision, created no later than updated and updated no later
/// than the snapshot, and no goal repeats.
pub open spec fn spec_goals_part(goals: Seq<GoalView>, actor: u128, as_of: i64) -> bool {
    &&& forall|k: int|
        0 <= k < goals.len() ==> (#[trigger] goals[k]).goal_id != nil() && goals[k].owner_id == actor
            && goals[k].revision > 0 && goals[k].created_at <= goals[k].updated_at && goals[k].updated_at <= as_of
    &&& no_dup_ids(goals.map_values(|g: GoalView| g.goal_id))
}

/// What an authoritative snapshot must satisfy for the session and the
/// connection's assurance: it belongs to the session's daemon and version, a
/// diagnostic connection sees no private state, private state exists exactly
/// from protocol 1.1 on, and every record is consistent.
pub open spec fn spec_snapshot_consistent(session: SessionOpened, assurance: ClientAssurance, s: ClientSnapshotView) -> bool {
    let v = session.protocol_version;
    let private = assurance is PrivateCapabilityBound;
    let v1_1 = spec_version_at_least(v, ProtocolVersion { major: 1, minor: 1 });
    &&& s.snapshot_id != nil() && s.cursor.daemon_instance_id == session.daemon_instance_id
    &&& s.runtime.daemon_instance_id == session.daemon_instance_id && s.runtime.protocol_version == v
    &&& s.runtime.started_at <= s.runtime.observed_at && s.runtime.observed_at <= s.as_of
    &&& !private ==> s.cursor.sequence == 0 && s.goals@.len() == 0 && s.phase2 is None
    &&& !v1_1 ==> s.phase2 is None
    &&& private && v1_1 ==> s.phase2 is Some
    &&& spec_capabilities_part(s.capabilities@, v)
    &&& spec_goals_part(s.goals@, session.authenticated_actor_id, s.as_of)
    &&& match s.phase2 {
        Some(p) => spec_phase2_consistent(session, s, p),
        None => true,
    }
}

fn capabilities_are_consistent(caps: &Vec<CapabilityHealthView>, v: ProtocolVersion) -> (r: bool)
    ensures
        r == spec_capabilities_part(caps@, v),
{
    let n = caps.len();
    let mut j: usize = 0;
    while j < n
        invariant
            j <= n == caps@.len(),
            forall|k: int|
                0 <= k < j ==> spec_capability_health_consistent(#[trigger] caps@[k]) && spec_capability_supported(
                    caps@[k].capability,
                    v,
                ),
            forall|a: int, b: int| 0 <= a < b < j ==> caps@[a].capability != caps@[b].capability,
        decreases n - j,
    {
        if !capability_health_is_consistent(&caps[j]) || !capability_supported(caps[j].capability, v) {
            return false;
        }
        let mut i: usize = 0;
        while i < j
            invariant
                i <= j < n == caps@.len(),
                forall|a: int| 0 <= a < i ==> caps@[a].capability != caps@[j as int].capability,
            decreases j - i,
        {
            if caps[i].capability == caps[j].capability {
                return false;
            }
            i = i + 1;
        }
        j = j + 1;
    }
    true
}

fn goals_are_consistent(goals: &Vec<GoalView>, actor: u128, as_of: i64) -> (r: bool)
    ensures
        r == spec_goals_part(goals@, actor, as_of),
{
    let mut ids: Vec<u128> = Vec::new();
    let mut i: usize = 0;
    while i < goals.len()
        invariant
            i <= goals@.len(),
            ids@ == goals@.subrange(0, i as int).map_values(|g: GoalView| g.goal_id),
            forall|k: int|
                0 <= k < i ==> (#[trigger] goals@[k]).goal_id != nil() && goals@[k].owner_id == actor
                    && goals@[k].revision > 0 && goals@[k].created_at <= goals@[k].updated_at
                    && goals@[k].updated_at <= as_of,
        decreases goals@.len() - i,
    {
        let g = goals[i];
        if g.goal_id == 0 || g.owner_id != actor || g.revision == 0 || g.created_at > g.updated_at
            || g.updated_at > as_of
        {
            return false;
        }
        ids.push(g.goal_id);
        assert(goals@.subrange(0, (i + 1) as int).map_values(|g: GoalView| g.goal_id) == goals@.subrange(
            0,
            i as int,
        ).map_values(|g: GoalView| g.goal_id).push(g.goal_id));
        i = i + 1;
    }
    assert(goals@.subrange(0, i as int) == goals@);
    ids_unique(&ids)
}

/// Whether an authoritative snapshot is consistent with the session that
/// delivered it and the connection's assurance.
pub fn snapshot_is_consistent(session: &SessionOpened, assurance: ClientAssurance, s: &ClientSnapshotView) -> (r: bool)
    ensures
        r == spec_snapshot_consistent(*session, assurance, *s),
{
    let v = session.protocol_version;
    if s.snapshot_id == 0 || s.cursor.daemon_instance_id != session.daemon_instance_id
        || s.runtime.daemon_instance_id != session.daemon_instance_id || s.runtime.protocol_version != v
        || s.runtime.started_at > s.runtime.observed_at || s.runtime.observed_at > s.as_of
    {
        return false;
    }
    let private = match assurance {
        ClientAssurance::PrivateCapabilityBound => true,
        _ => false,
    };
    if !private && (s.cursor.sequence != 0 || s.goals.len() != 0 || s.phase2.is_some()) {
        return false;
    }
    let v1_1 = version_at_least(v, ProtocolVersion::v1_1());
    if !v1_1 && s.phase2.is_some() {
        return false;
    }
    if private && v1_1 && s.phase2.is_none() {
        return false;
    }
    if !capabilities_are_consistent(&s.capabilities, v) {
        return false;
    }
    if !goals_are_consistent(&s.goals, session.authenticated_actor_id, s.as_of) {
        return false;
    }
    match &s.phase2 {
        Some(p) => phase2_snapshot_is_consistent(session, s, p),
        None => true,
    }
}

/// Two capability reports are the same report.
pub open spec fn same_health(a: CapabilityHealthView, b: CapabilityHealthView) -> bool {
    &&& a.schema_version == b.schema_version && a.capability == b.capability && a.state == b.state
    &&& match (a.unavailable_reason, b.unavailable_reason) {
        (Some(x), Some(y)) => x@ == y@,
        (None, None) => true,
        _ => false,
    }
}

/// Two capability lists are the same reports in the same order.
pub open spec fn same_capabilities(a: Seq<CapabilityHealthView>, b: Seq<CapabilityHealthView>) -> bool {
    a.len() == b.len() && forall|k: int| 0 <= k < a.len() ==> same_health(#[trigger] a[k], b[k])
}

fn capability_lists_match(a: &Vec<CapabilityHealthView>, b: &Vec<CapabilityHealthView>) -> (r: bool)
    ensures
        r == same_capabilities(a@, b@),
{
    if a.len() != b.len() {
        return false;
    }
    let mut k: usize = 0;
    while k < a.len()
        invariant
            k <= a@.len() == b@.len(),
            forall|q: int| 0 <= q < k ==> same_health(#[trigger] a@[q], b@[q]),
        decreases a@.len() - k,
    {
        let x = &a[k];
        let y = &b[k];
        let reasons = match (&x.unavailable_reason, &y.unavailable_reason) {
            (Some(p), Some(q)) => *p == *q,
            (None, None) => true,
            _ => false,
        };
        if x.schema_version != y.schema_version || x.capability != y.capability || x.state != y.state || !reasons {
            return false;
        }
        k = k + 1;
    }
    true
}

/// Checks CORE's session-opened reply with its authoritative snapshot: the
/// reply's scalar rules, then that the reply's capability list is the
/// snapshot's and the snapshot is consistent with the session.
pub fn validate_session_opened_with_snapshot(
    hello_support: crate::protocol::ProtocolSupport,
    hello_max_frame_bytes: u32,
    opened: &SessionOpened,
    opened_capabilities: &Vec<CapabilityHealthView>,
    snapshot: &ClientSnapshotView,
    assurance: ClientAssurance,
) -> (r: Result<(), crate::client::ClientError>)
    ensures
        r is Ok <==> (crate::client::spec_session_opened_valid(hello_support, hello_max_frame_bytes, *opened)
            && same_capabilities(opened_capabilities@, snapshot.capabilities@) && spec_snapshot_consistent(
            *opened,
            assurance,
            *snapshot,
        )),
        r matches Err(e) ==> e is Handshake,
{
    let consistent = capability_lists_match(opened_capabilities, &snapshot.capabilities) && snapshot_is_consistent(
        opened,
        assurance,
        snapshot,
    );
    crate::client::validate_session_opened(hello_support, hello_max_frame_bytes, opened, consistent)
}

/// A selected resource without the stamps protocol 1.2 added.
pub open spec fn without_resource_stamps(r: SelectedResourceView) -> SelectedResourceView {
    SelectedResourceView { revision: None, created_at: None, ..r }
}

fn strip_resource_stamps(v: Vec<SelectedResourceView>) -> (r: Vec<SelectedResourceView>)
    ensures
        r@ == v@.map_values(|x: SelectedResourceView| without_resource_stamps(x)),
{
    let mut v = v;
    let ghost all = v@;
    let n = v.len();
    let mut out: Vec<SelectedResourceView> = Vec::new();
    let mut i: usize = 0;
    while v.len() > 0
        invariant
            i + v@.len() == n,
            n == all.len(),
            v@ == all.subrange(i as int, n as int),
            out@ == all.subrange(0, i as int).map_values(|x: SelectedResourceView| without_resource_stamps(x)),
        decreases v@.len(),
    {
        let mut x = v.remove(0);
        proof {
            assert(all.subrange(i as int, n as int)[0] == all[i as int]);
        }
        x.revision = None;
        x.created_at = None;
        out.push(x);
        proof {
            assert(v@ == all.subrange(i + 1, n as int));
            assert(all.subrange(0, (i + 1) as int).map_values(|x: SelectedResourceView| without_resource_stamps(x))
                == all.subrange(0, i as int).map_values(|x: SelectedResourceView| without_resource_stamps(x)).push(
                without_resource_stamps(all[i as int]),
            ));
        }
        i = i + 1;
    }
    assert(all.subrange(0, n as int) == all);
    out
}

fn keep_supported_health(v: Vec<CapabilityHealthView>, negotiated: ProtocolVersion) -> (r: Vec<CapabilityHealthView>)
    ensures
        r@ == v@.filter(|h: CapabilityHealthView| spec_capability_supported(h.capability, negotiated)),
{
    let mut v = v;
    let ghost all = v@;
    let n = v.len();
    let mut out: Vec<CapabilityHealthView> = Vec::new();
    let mut i: usize = 0;
    while v.len() > 0
        invariant
            i + v@.len() == n,
            n == all.len(),
            v@ == all.subrange(i as int, n as int),
            out@ == all.subrange(0, i as int).filter(|h: CapabilityHealthView| spec_capability_supported(h.capability, negotiated)),
        decreases v@.len(),
    {
        let x = v.remove(0);
        proof {
            assert(all.subrange(i as int, n as int)[0] == all[i as int]);
            assert(all.subrange(0, (i + 1) as int).drop_last() == all.subrange(0, i as int));
            reveal(Seq::filter);
        }
        if capability_supported(x.capability, negotiated) {
            out.push(x);
        }
        proof {
            assert(v@ == all.subrange(i + 1, n as int));
        }
        i = i + 1;
    }
    assert(all.subrange(0, n as int) == all);
    out
}

/// `q` is the Phase 2 view `p` as protocol 1.1 shows it: without the
/// device, identity, preferences and policy, and without resource stamps.
pub open spec fn phase2_for_v1_1(p: Phase2View, q: Phase2View) -> bool {
    &&& q.current_device_id is None && q.stein_identity is None && q.user_preferences is None
    &&& q.effective_policy is None
    &&& q.selected_resources@ == p.selected_resources@.map_values(|x: SelectedResourceView| without_resource_stamps(x))
    &&& q.permission_records@ == p.permission_records@ && q.focus_sessions@ == p.focus_sessions@
    &&& q.capture_states@ == p.capture_states@ && q.delivery_channels@ == p.delivery_channels@
    &&& q.intervention_history == p.intervention_history
}

/// Shapes a snapshot for the negotiated protocol: it reports that protocol,
/// keeps only the capabilities the protocol may see, drops the Phase 2 views
/// before 1.1, and strips what 1.2 added when 1.1 was negotiated.
pub fn normalize_snapshot_for_protocol(snapshot: &mut ClientSnapshotView, negotiated: ProtocolVersion)
    ensures
        final(snapshot).snapshot_id == old(snapshot).snapshot_id && final(snapshot).cursor == old(snapshot).cursor,
        final(snapshot).as_of == old(snapshot).as_of && final(snapshot).goals@ == old(snapshot).goals@,
        final(snapshot).runtime == (RuntimeStatusView { protocol_version: negotiated, ..old(snapshot).runtime }),
        final(snapshot).capabilities@ == old(snapshot).capabilities@.filter(
            |h: CapabilityHealthView| spec_capability_supported(h.capability, negotiated),
        ),
        !spec_version_at_least(negotiated, ProtocolVersion { major: 1, minor: 1 }) ==> final(snapshot).phase2 is None,
        spec_version_at_least(negotiated, ProtocolVersion { major: 1, minor: 1 }) && !spec_version_at_least(
            negotiated,
            ProtocolVersion { major: 1, minor: 2 },
        ) ==> match old(snapshot).phase2 {
            None => final(snapshot).phase2 is None,
            Some(p) => final(snapshot).phase2 matches Some(q) && phase2_for_v1_1(p, q),
        },
        spec_version_at_least(negotiated, ProtocolVersion { major: 1, minor: 2 }) ==> final(snapshot).phase2 == old(
            snapshot,
        ).phase2,
{
    snapshot.runtime.protocol_version = negotiated;
    let mut caps: Vec<CapabilityHealthView> = Vec::new();
    std::mem::swap(&mut caps, &mut snapshot.capabilities);
    snapshot.capabilities = keep_supported_health(caps, negotiated);
    if !version_at_least(negotiated, ProtocolVersion::v1_1()) {
        snapshot.phase2 = None;
    } else if !version_at_least(negotiated, ProtocolVersion::v1_2()) {
        match snapshot.phase2.take() {
            None => {},
            Some(p) => {
                let mut q = p;
                q.current_device_id = None;
                q.stein_identity = None;
                q.user_preferences = None;
                q.effective_policy = None;
                let mut resources: Vec<SelectedResourceView> = Vec::new();
                std::mem::swap(&mut resources, &mut q.selected_resources);
                q.selected_resources = strip_resource_stamps(resources);
                snapshot.phase2 = Some(q);
            },
        }
    }
}

} // verus!
