//! CORE's view events as the client receives them, and the rules an event
//! must satisfy against the session and the cached snapshot before the
//! client applies it.

use vstd::prelude::*;
use crate::admission::ClientAssurance;
use crate::client::{ActorKind, SessionOpened};
use crate::protocol::{ProtocolVersion, spec_version_at_least, version_at_least};
use crate::server::{EventCursor, RetentionClass, SensitivityClass};
use crate::snapshot::{
    ClientSnapshotView, PolicyStamp, RecordStamp, RuntimeStatusView,
    permission_key, spec_capture_relations, spec_focus_relations, spec_intervention_relations,
    spec_not_regressed, spec_permission_relations, capture_relations_are_consistent,
    focus_session_relations_are_consistent, intervention_relations_are_consistent,
    intervention_revision_not_regressed, permission_relations_are_consistent,
};
use crate::views::{
    CapabilityHealthView, CaptureStateView, DeliveryChannelView, FocusSessionChangeKind, FocusSessionView,
    GoalChangeKind, GoalView, InterventionView, PermissionChangeKind, PermissionRecordView,
    SelectedResourceView, SCHEMA_VERSION_V1, capability_health_is_consistent, capture_state_is_consistent,
    focus_change_matches_state, focus_session_is_consistent, goal_change_matches_state,
    intervention_is_available, intervention_is_consistent, nil, permission_change_matches_state,
    permission_record_is_consistent, spec_capability_health_consistent, spec_capture_consistent,
    spec_focus_change_matches, spec_focus_session_consistent, spec_goal_change_matches,
    spec_intervention_available, spec_intervention_consistent, spec_permission_change_matches,
    spec_permission_consistent,
};

verus! {

/// The component that produced a message.
#[derive(Clone, Copy, Debug, PartialEq, Eq, Structural)]
pub enum Component {
    CoreApplication,
    CoreDaemon,
    CoreCli,
    DesktopClient,
    TestFixture,
}

/// The metadata of an event envelope.
#[derive(Clone, Copy, Debug, PartialEq, Eq, Structural)]
pub struct EventMetadataView {
    pub schema_version: u32,
    pub message_id: u128,
    pub correlation_id: u128,
    pub causation_id: Option<u128>,
    pub actor_id: u128,
    pub actor_kind: ActorKind,
    pub origin: Component,
    pub sensitivity: SensitivityClass,
    pub retention: RetentionClass,
    pub occurred_at: i64,
}

/// What the protocol prescribes for an event's kind: the version that
/// introduced it and the classification its metadata must carry.
#[derive(Clone, Copy, Debug, PartialEq, Eq, Structural)]
pub struct EventKindRules {
    pub minimum: ProtocolVersion,
    pub sensitivity: SensitivityClass,
    pub retention: RetentionClass,
}

/// The kind of change to the intervention history.
#[derive(Clone, Copy, Debug, PartialEq, Eq, Structural)]
pub enum InterventionHistoryChangeKind {
    Added,
    Updated,
    Deleted,
}

/// The kind of change to a selected resource.
#[derive(Clone, Copy, Debug, PartialEq, Eq, Structural)]
pub enum SelectedResourceChangeKind {
    Registered,
    Removed,
}

/// The record of a deleted goal.
#[derive(Clone, Copy, Debug, PartialEq, Eq, Structural)]
pub struct GoalTombstoneView {
    pub goal_id: u128,
    pub deleted_revision: u64,
    pub deleted_at: i64,
}

/// The record of a removed selected resource.
#[derive(Clone, Copy, Debug, PartialEq, Eq, Structural)]
pub struct ResourceTombstoneView {
    pub selected_resource_id: u128,
    pub deleted_revision: u64,
    pub deleted_at: i64,
}

/// The payload of a view event.
#[derive(Clone, Debug, PartialEq, Eq)]
pub enum ViewEvent {
    GoalViewChanged { goal_change: GoalChangeKind, goal: GoalView },
    RuntimeStatusChanged { runtime: RuntimeStatusView },
    FocusSessionViewChanged { focus_change: FocusSessionChangeKind, focus_session: FocusSessionView },
    CaptureStateChanged { capture: CaptureStateView },
    CapabilityHealthChanged { capability: CapabilityHealthView },
    DeliveryChannelViewChanged { channel: DeliveryChannelView },
    PermissionViewChanged { permission_change: PermissionChangeKind, permission: PermissionRecordView },
    InterventionAvailable { intervention: InterventionView },
    InterventionViewChanged { intervention: InterventionView },
    InterventionHistoryChanged {
        history_change: InterventionHistoryChangeKind,
        intervention_id: u128,
        entry: Option<InterventionView>,
    },
    GoalDeleted { tombstone: GoalTombstoneView },
    SelectedResourceViewChanged {
        resource_change: SelectedResourceChangeKind,
        resource: Option<SelectedResourceView>,
        resource_tombstone: Option<ResourceTombstoneView>,
    },
    UserPreferencesViewChanged { preferences: RecordStamp, effective_policy: PolicyStamp },
}

/// A view event with its cursor and metadata.
#[derive(Clone, Debug, PartialEq, Eq)]
pub struct ViewEventEnvelope {
    pub cursor: EventCursor,
    pub metadata: EventMetadataView,
    pub event: ViewEvent,
}

/// Whether the actor that an event names is bound to the session: the
/// session's own user, CORE's daemon instance, or a non-nil system actor;
/// never a client.
pub open spec fn spec_actor_bound(session: SessionOpened, actor_id: u128, kind: ActorKind) -> bool {
    match kind {
        ActorKind::LocalOsUser => actor_id == session.authenticated_actor_id && session.authenticated_actor_kind
            == ActorKind::LocalOsUser,
        ActorKind::CoreDaemon => actor_id == session.daemon_instance_id,
        ActorKind::System => actor_id != nil(),
        ActorKind::Client => false,
    }
}

/// Whether the event's actor is bound to the session.
pub fn event_actor_is_bound(session: &SessionOpened, actor_id: u128, kind: ActorKind) -> (r: bool)
    ensures
        r == spec_actor_bound(*session, actor_id, kind),
{
    match kind {
        ActorKind::LocalOsUser => actor_id == session.authenticated_actor_id && match session.authenticated_actor_kind {
            ActorKind::LocalOsUser => true,
            _ => false,
        },
        ActorKind::CoreDaemon => actor_id == session.daemon_instance_id,
        ActorKind::System => actor_id != 0,
        ActorKind::Client => false,
    }
}

/// What an event's metadata must satisfy: a private session that speaks the
/// event's version, schema 1, non-nil identifiers, CORE's application as
/// origin, the kind's classification, a bound actor, and private state in
/// the cache for an event of protocol 1.1 or later.
pub open spec fn spec_header_consistent(
    session: SessionOpened,
    assurance: ClientAssurance,
    current: ClientSnapshotView,
    m: EventMetadataView,
    rules: EventKindRules,
) -> bool {
    &&& assurance is PrivateCapabilityBound
    &&& spec_version_at_least(session.protocol_version, rules.minimum)
    &&& m.schema_version == SCHEMA_VERSION_V1
    &&& m.message_id != nil() && m.correlation_id != nil() && m.actor_id != nil()
    &&& m.origin is CoreApplication
    &&& m.sensitivity == rules.sensitivity && m.retention == rules.retention
    &&& spec_actor_bound(session, m.actor_id, m.actor_kind)
    &&& spec_version_at_least(rules.minimum, ProtocolVersion { major: 1, minor: 1 }) ==> current.phase2 is Some
}

/// Whether an event's metadata is consistent with the session and cache.
pub fn event_header_is_consistent(
    session: &SessionOpened,
    assurance: ClientAssurance,
    current: &ClientSnapshotView,
    m: &EventMetadataView,
    rules: EventKindRules,
) -> (r: bool)
    ensures
        r == spec_header_consistent(*session, assurance, *current, *m, rules),
{
    let private = match assurance {
        ClientAssurance::PrivateCapabilityBound => true,
        _ => false,
    };
    let core = match m.origin {
        Component::CoreApplication => true,
        _ => false,
    };
    private && version_at_least(session.protocol_version, rules.minimum) && m.schema_version == SCHEMA_VERSION_V1
        && m.message_id != 0 && m.correlation_id != 0 && m.actor_id != 0 && core && m.sensitivity
        == rules.sensitivity && m.retention == rules.retention && event_actor_is_bound(
        session,
        m.actor_id,
        m.actor_kind,
    ) && (!version_at_least(rules.minimum, ProtocolVersion::v1_1()) || current.phase2.is_some())
}

/// Whether the first cached goal with the goal's identifier, if any, is not
/// newer than it.
pub open spec fn first_goal_not_newer(goals: Seq<GoalView>, g: GoalView) -> bool
    decreases goals.len(),
{
    if goals.len() == 0 {
        true
    } else if goals[0].goal_id == g.goal_id {
        goals[0].revision <= g.revision
    } else {
        first_goal_not_newer(goals.drop_first(), g)
    }
}

/// Whether the first cached focus session with the session's identifier, if
/// any, is not newer than it.
pub open spec fn first_session_not_newer(sessions: Seq<FocusSessionView>, f: FocusSessionView) -> bool
    decreases sessions.len(),
{
    if sessions.len() == 0 {
        true
    } else if sessions[0].focus_session_id == f.focus_session_id {
        sessions[0].revision <= f.revision
    } else {
        first_session_not_newer(sessions.drop_first(), f)
    }
}

/// Whether the first cached capture of the same focus session, if any, is
/// not newer than it.
pub open spec fn first_capture_not_newer(captures: Seq<CaptureStateView>, c: CaptureStateView) -> bool
    decreases captures.len(),
{
    if captures.len() == 0 {
        true
    } else if captures[0].focus_session_id == c.focus_session_id {
        captures[0].revision <= c.revision
    } else {
        first_capture_not_newer(captures.drop_first(), c)
    }
}

/// Whether the first cached delivery channel with the same identifier, if
/// any, was not observed later.
pub open spec fn first_channel_not_newer(channels: Seq<DeliveryChannelView>, c: DeliveryChannelView) -> bool
    decreases channels.len(),
{
    if channels.len() == 0 {
        true
    } else if channels[0].delivery_channel_id == c.delivery_channel_id {
        channels[0].observed_at <= c.observed_at
    } else {
        first_channel_not_newer(channels.drop_first(), c)
    }
}

/// The revision of a permission record.
pub open spec fn permission_revision(r: PermissionRecordView) -> u64 {
    match r {
        PermissionRecordView::SessionGrant(g) => g.revision,
        PermissionRecordView::ModelRouteApproval(a) => a.revision,
    }
}

/// Whether the first cached permission with the same key, if any, is not
/// newer than it.
pub open spec fn first_permission_not_newer(records: Seq<PermissionRecordView>, r: PermissionRecordView) -> bool
    decreases records.len(),
{
    if records.len() == 0 {
        true
    } else if permission_key(records[0]) == permission_key(r) {
        permission_revision(records[0]) <= permission_revision(r)
    } else {
        first_permission_not_newer(records.drop_first(), r)
    }
}

fn goal_not_regressed(goals: &Vec<GoalView>, g: &GoalView) -> (r: bool)
    ensures
        r == first_goal_not_newer(goals@, *g),
{
    let ghost all = goals@;
    let mut k: usize = 0;
    assert(all.subrange(0, all.len() as int) == all);
    while k < goals.len()
        invariant
            k <= all.len(),
            all == goals@,
            first_goal_not_newer(all, *g) == first_goal_not_newer(all.subrange(k as int, all.len() as int), *g),
        decreases all.len() - k,
    {
        let ghost rest = all.subrange(k as int, all.len() as int);
        assert(rest.len() > 0 && rest[0] == all[k as int]);
        if goals[k].goal_id == g.goal_id {
            return goals[k].revision <= g.revision;
        }
        assert(rest.drop_first() == all.subrange(k + 1, all.len() as int));
        k = k + 1;
    }
    true
}

fn session_not_regressed(sessions: &Vec<FocusSessionView>, f: &FocusSessionView) -> (r: bool)
    ensures
        r == first_session_not_newer(sessions@, *f),
{
    let ghost all = sessions@;
    let mut k: usize = 0;
    assert(all.subrange(0, all.len() as int) == all);
    while k < sessions.len()
        invariant
            k <= all.len(),
            all == sessions@,
            first_session_not_newer(all, *f) == first_session_not_newer(all.subrange(k as int, all.len() as int), *f),
        decreases all.len() - k,
    {
        let ghost rest = all.subrange(k as int, all.len() as int);
        assert(rest.len() > 0 && rest[0] == all[k as int]);
        if sessions[k].focus_session_id == f.focus_session_id {
            return sessions[k].revision <= f.revision;
        }
        assert(rest.drop_first() == all.subrange(k + 1, all.len() as int));
        k = k + 1;
    }
    true
}

fn capture_not_regressed(captures: &Vec<CaptureStateView>, c: &CaptureStateView) -> (r: bool)
    ensures
        r == first_capture_not_newer(captures@, *c),
{
    let ghost all = captures@;
    let mut k: usize = 0;
    assert(all.subrange(0, all.len() as int) == all);
    while k < captures.len()
        invariant
            k <= all.len(),
            all == captures@,
            first_capture_not_newer(all, *c) == first_capture_not_newer(all.subrange(k as int, all.len() as int), *c),
        decreases all.len() - k,
    {
        let ghost rest = all.subrange(k as int, all.len() as int);
        assert(rest.len() > 0 && rest[0] == all[k as int]);
        if captures[k].focus_session_id == c.focus_session_id {
            return captures[k].revision <= c.revision;
        }
        assert(rest.drop_first() == all.subrange(k + 1, all.len() as int));
        k = k + 1;
    }
    true
}

fn channel_not_regressed(channels: &Vec<DeliveryChannelView>, c: &DeliveryChannelView) -> (r: bool)
    ensures
        r == first_channel_not_newer(channels@, *c),
{
    let ghost all = channels@;
    let mut k: usize = 0;
    assert(all.subrange(0, all.len() as int) == all);
    while k < channels.len()
        invariant
            k <= all.len(),
            all == channels@,
            first_channel_not_newer(all, *c) == first_channel_not_newer(all.subrange(k as int, all.len() as int), *c),
        decreases all.len() - k,
    {
        let ghost rest = all.subrange(k as int, all.len() as int);
        assert(rest.len() > 0 && rest[0] == all[k as int]);
        if channels[k].delivery_channel_id == c.delivery_channel_id {
            return channels[k].observed_at <= c.observed_at;
        }
        assert(rest.drop_first() == all.subrange(k + 1, all.len() as int));
        k = k + 1;
    }
    true
}

fn record_revision(r: &PermissionRecordView) -> (v: u64)
    ensures
        v == permission_revision(*r),
{
    match r {
        PermissionRecordView::SessionGrant(g) => g.revision,
        PermissionRecordView::ModelRouteApproval(a) => a.revision,
    }
}

fn same_key(a: &PermissionRecordView, b: &PermissionRecordView) -> (r: bool)
    ensures
        r == (permission_key(*a) == permission_key(*b)),
{
    match (a, b) {
        (PermissionRecordView::SessionGrant(x), PermissionRecordView::SessionGrant(y)) => x.permission_grant_id
            == y.permission_grant_id,
        (PermissionRecordView::ModelRouteApproval(x), PermissionRecordView::ModelRouteApproval(y)) => x.model_route_approval_id
            == y.model_route_approval_id,
        _ => false,
    }
}

fn permission_not_regressed(records: &Vec<PermissionRecordView>, r: &PermissionRecordView) -> (ok: bool)
    ensures
        ok == first_permission_not_newer(records@, *r),
{
    let ghost all = records@;
    let mut k: usize = 0;
    assert(all.subrange(0, all.len() as int) == all);
    while k < records.len()
        invariant
            k <= all.len(),
            all == records@,
            first_permission_not_newer(all, *r) == first_permission_not_newer(all.subrange(k as int, all.len() as int), *r),
        decreases all.len() - k,
    {
        let ghost rest = all.subrange(k as int, all.len() as int);
        assert(rest.len() > 0 && rest[0] == all[k as int]);
        if same_key(&records[k], r) {
            return record_revision(&records[k]) <= record_revision(r);
        }
        assert(rest.drop_first() == all.subrange(k + 1, all.len() as int));
        k = k + 1;
    }
    true
}


/// What a goal change must satisfy: made by the session's user under a
/// non-nil cause, for a goal of that user whose times are ordered up to the
/// event, whose state agrees with the change, and which does not regress
/// the cached goal.
pub open spec fn spec_goal_event(session: SessionOpened, current: ClientSnapshotView, m: EventMetadataView, change: GoalChangeKind, g: GoalView) -> bool {
    &&& m.actor_id == session.authenticated_actor_id && m.actor_kind == session.authenticated_actor_kind
    &&& m.actor_kind is LocalOsUser
    &&& m.causation_id matches Some(c) && c != nil()
    &&& g.owner_id == m.actor_id && g.revision > 0 && g.created_at <= g.updated_at && g.updated_at <= m.occurred_at
    &&& spec_goal_change_matches(change, g.state, g.revision)
    &&& first_goal_not_newer(current.goals@, g)
}

/// What a runtime status change must satisfy: reported by CORE's daemon
/// about itself, for the session's version and the cached build, with
/// ordered times.
pub open spec fn spec_runtime_event(session: SessionOpened, current: ClientSnapshotView, cursor: EventCursor, m: EventMetadataView, rt: RuntimeStatusView) -> bool {
    &&& m.actor_kind is CoreDaemon && m.actor_id == session.daemon_instance_id
    &&& rt.daemon_instance_id == session.daemon_instance_id && rt.daemon_instance_id == cursor.daemon_instance_id
    &&& rt.protocol_version == session.protocol_version && rt.protocol_version == current.runtime.protocol_version
    &&& rt.build_id@ == current.runtime.build_id@
    &&& rt.started_at <= rt.observed_at && rt.observed_at <= m.occurred_at
}

/// What a goal deletion must satisfy: made by the session's user, with a
/// positive deleted revision no later than the event, naming a cached goal
/// at exactly that revision.
pub open spec fn spec_goal_deleted_event(session: SessionOpened, current: ClientSnapshotView, m: EventMetadataView, t: GoalTombstoneView) -> bool {
    &&& m.actor_id == session.authenticated_actor_id && m.actor_kind == session.authenticated_actor_kind
    &&& m.actor_kind is LocalOsUser
    &&& t.deleted_revision > 0 && t.deleted_at <= m.occurred_at
    &&& exists|k: int|
        0 <= k < current.goals@.len() && (#[trigger] current.goals@[k]).goal_id == t.goal_id
            && current.goals@[k].revision == t.deleted_revision
}

/// What a selected-resource change must satisfy: a registration carries a
/// resource with a positive revision created no later than the event and no
/// tombstone; a removal carries a tombstone with a positive revision no
/// later than the event and no resource.
pub open spec fn spec_resource_event(
    occurred_at: i64,
    change: SelectedResourceChangeKind,
    resource: Option<SelectedResourceView>,
    tombstone: Option<ResourceTombstoneView>,
) -> bool {
    let valid_resource = resource matches Some(r) && (r.revision matches Some(v) && v > 0) && (r.created_at matches Some(c)
        && c <= occurred_at);
    let valid_tombstone = tombstone matches Some(t) && t.deleted_revision > 0 && t.deleted_at <= occurred_at;
    (change is Registered && valid_resource && tombstone is None) || (change is Removed && valid_tombstone
        && resource is None)
}

/// What an intervention history change must satisfy: an added or updated
/// entry is present under the changed identifier, consistent, related to
/// cached records and not regressed; a deletion names a non-nil
/// intervention and carries no entry.
pub open spec fn spec_history_event(
    current: ClientSnapshotView,
    occurred_at: i64,
    change: InterventionHistoryChangeKind,
    intervention_id: u128,
    entry: Option<InterventionView>,
) -> bool {
    match change {
        InterventionHistoryChangeKind::Added | InterventionHistoryChangeKind::Updated => entry matches Some(e)
            && e.intervention_id == intervention_id && spec_intervention_consistent(e, occurred_at)
            && spec_intervention_relations(current, e) && spec_not_regressed(current, e),
        InterventionHistoryChangeKind::Deleted => intervention_id != nil() && entry is None,
    }
}

/// What the payload of an event must satisfy against the session and cache.
pub open spec fn spec_payload_consistent(session: SessionOpened, current: ClientSnapshotView, e: ViewEventEnvelope) -> bool {
    let m = e.metadata;
    let at = m.occurred_at;
    match e.event {
        ViewEvent::GoalViewChanged { goal_change, goal } => spec_goal_event(session, current, m, goal_change, goal),
        ViewEvent::RuntimeStatusChanged { runtime } => spec_runtime_event(session, current, e.cursor, m, runtime),
        ViewEvent::FocusSessionViewChanged { focus_change, focus_session } => {
            &&& spec_focus_session_consistent(focus_session, at)
            &&& spec_focus_change_matches(focus_change, focus_session.state, focus_session.interventions_muted)
            &&& spec_focus_relations(current, focus_session)
            &&& current.phase2 matches Some(p) && first_session_not_newer(p.focus_sessions@, focus_session)
        },
        ViewEvent::CaptureStateChanged { capture } => {
            &&& spec_capture_consistent(capture, at)
            &&& spec_capture_relations(current, capture)
            &&& current.phase2 matches Some(p) && first_capture_not_newer(p.capture_states@, capture)
        },
        ViewEvent::CapabilityHealthChanged { capability } => spec_capability_health_consistent(capability),
        ViewEvent::DeliveryChannelViewChanged { channel } => {
            &&& channel.delivery_channel_id != nil() && channel.observed_at <= at
            &&& current.phase2 matches Some(p) && first_channel_not_newer(p.delivery_channels@, channel)
        },
        ViewEvent::PermissionViewChanged { permission_change, permission } => {
            &&& spec_permission_consistent(session.authenticated_actor_id, permission, at)
            &&& spec_permission_change_matches(permission_change, permission)
            &&& spec_permission_relations(current, permission)
            &&& current.phase2 matches Some(p) && first_permission_not_newer(p.permission_records@, permission)
        },
        ViewEvent::InterventionAvailable { intervention } => {
            &&& spec_intervention_consistent(intervention, at) && spec_intervention_available(intervention)
            &&& spec_intervention_relations(current, intervention) && spec_not_regressed(current, intervention)
        },
        ViewEvent::InterventionViewChanged { intervention } => {
            &&& spec_intervention_consistent(intervention, at)
            &&& spec_intervention_relations(current, intervention) && spec_not_regressed(current, intervention)
        },
        ViewEvent::InterventionHistoryChanged { history_change, intervention_id, entry } => spec_history_event(
            current,
            at,
            history_change,
            intervention_id,
            entry,
        ),
        ViewEvent::GoalDeleted { tombstone } => spec_goal_deleted_event(session, current, m, tombstone),
        ViewEvent::SelectedResourceViewChanged { resource_change, resource, resource_tombstone } => spec_resource_event(
            at,
            resource_change,
            resource,
            resource_tombstone,
        ),
        ViewEvent::UserPreferencesViewChanged { preferences, effective_policy } => preferences.schema_version == 1
            && preferences.revision > 0 && effective_policy.schema_version == 1
            && effective_policy.user_preferences_revision == preferences.revision,
    }
}

/// What an event must satisfy before it is applied: a consistent header,
/// an instant no earlier than the cache, and a consistent payload.
pub open spec fn spec_event_consistent(
    session: SessionOpened,
    assurance: ClientAssurance,
    current: ClientSnapshotView,
    e: ViewEventEnvelope,
    rules: EventKindRules,
) -> bool {
    spec_header_consistent(session, assurance, current, e.metadata, rules) && e.metadata.occurred_at
        >= current.as_of && spec_payload_consistent(session, current, e)
}

fn goal_event_is_consistent(session: &SessionOpened, current: &ClientSnapshotView, m: &EventMetadataView, change: GoalChangeKind, g: &GoalView) -> (r: bool)
    ensures
        r == spec_goal_event(*session, *current, *m, change, *g),
{
    let local = match m.actor_kind {
        ActorKind::LocalOsUser => true,
        _ => false,
    };
    let cause = match m.causation_id {
        Some(c) => c != 0,
        None => false,
    };
    m.actor_id == session.authenticated_actor_id && m.actor_kind == session.authenticated_actor_kind && local && cause
        && g.owner_id == m.actor_id && g.revision > 0 && g.created_at <= g.updated_at && g.updated_at
        <= m.occurred_at && goal_change_matches_state(change, g.state, g.revision) && goal_not_regressed(
        &current.goals,
        g,
    )
}

fn runtime_event_is_consistent(
    session: &SessionOpened,
    current: &ClientSnapshotView,
    cursor: EventCursor,
    m: &EventMetadataView,
    rt: &RuntimeStatusView,
) -> (r: bool)
    ensures
        r == spec_runtime_event(*session, *current, cursor, *m, *rt),
{
    let daemon = match m.actor_kind {
        ActorKind::CoreDaemon => true,
        _ => false,
    };
    daemon && m.actor_id == session.daemon_instance_id && rt.daemon_instance_id == session.daemon_instance_id
        && rt.daemon_instance_id == cursor.daemon_instance_id && rt.protocol_version == session.protocol_version
        && rt.protocol_version == current.runtime.protocol_version && rt.build_id == current.runtime.build_id
        && rt.started_at <= rt.observed_at && rt.observed_at <= m.occurred_at
}

fn goal_deleted_event_is_consistent(
    session: &SessionOpened,
    current: &ClientSnapshotView,
    m: &EventMetadataView,
    t: &GoalTombstoneView,
) -> (r: bool)
    ensures
        r == spec_goal_deleted_event(*session, *current, *m, *t),
{
    let local = match m.actor_kind {
        ActorKind::LocalOsUser => true,
        _ => false,
    };
    if !(m.actor_id == session.authenticated_actor_id && m.actor_kind == session.authenticated_actor_kind && local
        && t.deleted_revision > 0 && t.deleted_at <= m.occurred_at) {
        return false;
    }
    let mut k: usize = 0;
    while k < current.goals.len()
        invariant
            k <= current.goals@.len(),
            m.actor_id == session.authenticated_actor_id && m.actor_kind == session.authenticated_actor_kind,
            m.actor_kind is LocalOsUser,
            t.deleted_revision > 0 && t.deleted_at <= m.occurred_at,
            forall|q: int|
                0 <= q < k ==> !((#[trigger] current.goals@[q]).goal_id == t.goal_id && current.goals@[q].revision
                    == t.deleted_revision),
        decreases current.goals@.len() - k,
    {
        if current.goals[k].goal_id == t.goal_id && current.goals[k].revision == t.deleted_revision {
            assert(current.goals@[k as int].goal_id == t.goal_id);
            return true;
        }
        k = k + 1;
    }
    false
}

fn resource_event_is_consistent(
    occurred_at: i64,
    change: SelectedResourceChangeKind,
    resource: &Option<SelectedResourceView>,
    tombstone: &Option<ResourceTombstoneView>,
) -> (r: bool)
    ensures
        r == spec_resource_event(occurred_at, change, *resource, *tombstone),
{
    let valid_resource = match resource {
        Some(r) => {
            let revision = match r.revision {
                Some(v) => v > 0,
                None => false,
            };
            let created = match r.created_at {
                Some(c) => c <= occurred_at,
                None => false,
            };
            revision && created
        },
        None => false,
    };
    let valid_tombstone = match tombstone {
        Some(t) => t.deleted_revision > 0 && t.deleted_at <= occurred_at,
        None => false,
    };
    match change {
        SelectedResourceChangeKind::Registered => valid_resource && tombstone.is_none(),
        SelectedResourceChangeKind::Removed => valid_tombstone && resource.is_none(),
    }
}

fn history_event_is_consistent(
    current: &ClientSnapshotView,
    occurred_at: i64,
    change: InterventionHistoryChangeKind,
    intervention_id: u128,
    entry: &Option<InterventionView>,
) -> (r: bool)
    ensures
        r == spec_history_event(*current, occurred_at, change, intervention_id, *entry),
{
    match change {
        InterventionHistoryChangeKind::Added | InterventionHistoryChangeKind::Updated => match entry {
            Some(e) => e.intervention_id == intervention_id && intervention_is_consistent(e, occurred_at)
                && intervention_relations_are_consistent(current, e) && intervention_revision_not_regressed(current, e),
            None => false,
        },
        InterventionHistoryChangeKind::Deleted => intervention_id != 0 && entry.is_none(),
    }
}

fn payload_is_consistent(session: &SessionOpened, current: &ClientSnapshotView, e: &ViewEventEnvelope) -> (r: bool)
    ensures
        r == spec_payload_consistent(*session, *current, *e),
{
    let m = &e.metadata;
    let at = m.occurred_at;
    match &e.event {
        ViewEvent::GoalViewChanged { goal_change, goal } => goal_event_is_consistent(session, current, m, *goal_change, goal),
        ViewEvent::RuntimeStatusChanged { runtime } => runtime_event_is_consistent(session, current, e.cursor, m, runtime),
        ViewEvent::FocusSessionViewChanged { focus_change, focus_session } => {
            focus_session_is_consistent(focus_session, at) && focus_change_matches_state(
                *focus_change,
                focus_session.state,
                focus_session.interventions_muted,
            ) && focus_session_relations_are_consistent(current, focus_session) && match &current.phase2 {
                Some(p) => session_not_regressed(&p.focus_sessions, focus_session),
                None => false,
            }
        },
        ViewEvent::CaptureStateChanged { capture } => {
            capture_state_is_consistent(capture, at) && capture_relations_are_consistent(current, capture) && match &current.phase2 {
                Some(p) => capture_not_regressed(&p.capture_states, capture),
                None => false,
            }
        },
        ViewEvent::CapabilityHealthChanged { capability } => capability_health_is_consistent(capability),
        ViewEvent::DeliveryChannelViewChanged { channel } => {
            channel.delivery_channel_id != 0 && channel.observed_at <= at && match &current.phase2 {
                Some(p) => channel_not_regressed(&p.delivery_channels, channel),
                None => false,
            }
        },
        ViewEvent::PermissionViewChanged { permission_change, permission } => {
            permission_record_is_consistent(session.authenticated_actor_id, permission, at)
                && permission_change_matches_state(*permission_change, permission)
                && permission_relations_are_consistent(current, permission) && match &current.phase2 {
                Some(p) => permission_not_regressed(&p.permission_records, permission),
                None => false,
            }
        },
        ViewEvent::InterventionAvailable { intervention } => {
            intervention_is_consistent(intervention, at) && intervention_is_available(intervention)
                && intervention_relations_are_consistent(current, intervention) && intervention_revision_not_regressed(
                current,
                intervention,
            )
        },
        ViewEvent::InterventionViewChanged { intervention } => {
            intervention_is_consistent(intervention, at) && intervention_relations_are_consistent(current, intervention)
                && intervention_revision_not_regressed(current, intervention)
        },
        ViewEvent::InterventionHistoryChanged { history_change, intervention_id, entry } => history_event_is_consistent(
            current,
            at,
            *history_change,
            *intervention_id,
            entry,
        ),
        ViewEvent::GoalDeleted { tombstone } => goal_deleted_event_is_consistent(session, current, m, tombstone),
        ViewEvent::SelectedResourceViewChanged { resource_change, resource, resource_tombstone } => resource_event_is_consistent(
            at,
            *resource_change,
            resource,
            resource_tombstone,
        ),
        ViewEvent::UserPreferencesViewChanged { preferences, effective_policy } => preferences.schema_version == 1
            && preferences.revision > 0 && effective_policy.schema_version == 1
            && effective_policy.user_preferences_revision == preferences.revision,
    }
}

/// Whether an event may be applied to the cache: its header is consistent
/// with the session and the rules of its kind, it is no older than the
/// cache, and its payload is consistent.
pub fn event_is_consistent(
    session: &SessionOpened,
    assurance: ClientAssurance,
    current: &ClientSnapshotView,
    e: &ViewEventEnvelope,
    rules: EventKindRules,
) -> (r: bool)
    ensures
        r == spec_event_consistent(*session, assurance, *current, *e, rules),
{
    event_header_is_consistent(session, assurance, current, &e.metadata, rules) && e.metadata.occurred_at
        >= current.as_of && payload_is_consistent(session, current, e)
}

} // verus!
