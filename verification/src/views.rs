//! The client's authoritative view records and the consistency rules that
//! every record CORE sends must satisfy before the client caches it.
//!
//! Identifiers are UUIDs held as `u128`, where zero is the nil UUID; instants
//! are Unix milliseconds.

use vstd::prelude::*;
use crate::model::{DataCategory, FocusSessionState, InterventionState};
use crate::server::{RetentionClass, SensitivityClass};
use crate::text::trimmed;

verus! {

/// The lifecycle of a goal as views show it.
#[derive(Clone, Copy, Debug, PartialEq, Eq, Structural)]
pub enum ViewGoalState {
    Draft,
    Active,
    Completed,
    Abandoned,
}

/// A goal as the client caches it.
#[derive(Clone, Copy, Debug, PartialEq, Eq, Structural)]
pub struct GoalView {
    pub goal_id: u128,
    pub owner_id: u128,
    pub state: ViewGoalState,
    pub revision: u64,
    pub created_at: i64,
    pub updated_at: i64,
}

/// A selected resource as the client caches it.
#[derive(Clone, Debug, PartialEq, Eq)]
pub struct SelectedResourceView {
    pub selected_resource_id: u128,
    pub display_name: String,
    pub revision: Option<u64>,
    pub created_at: Option<i64>,
}

/// The lifecycle of a session permission grant as views show it.
#[derive(Clone, Copy, Debug, PartialEq, Eq, Structural)]
pub enum GrantViewState {
    Active,
    Revoked,
    Expired,
}

/// A session permission grant as the client caches it.
#[derive(Clone, Debug, PartialEq, Eq)]
pub struct SessionGrantView {
    pub permission_grant_id: u128,
    pub requested_by_client: u128,
    pub device_id: u128,
    pub goal_id: u128,
    pub focus_session_id: Option<u128>,
    pub selected_resource_id: Option<u128>,
    pub owner_id: u128,
    pub state: GrantViewState,
    pub revision: u64,
    pub purpose: String,
    pub consent_copy_version: String,
    pub effective_at: i64,
    pub expires_at: i64,
    pub revoked_at: Option<i64>,
    pub revocation_reason: Option<String>,
    pub sensitivity: SensitivityClass,
    pub retention: RetentionClass,
}

/// The lifecycle of a model route approval as views show it.
#[derive(Clone, Copy, Debug, PartialEq, Eq, Structural)]
pub enum RouteApprovalState {
    Active,
    Revoked,
    Expired,
}

/// A model route approval as the client caches it.
#[derive(Clone, Debug, PartialEq, Eq)]
pub struct ModelRouteApprovalView {
    pub model_route_approval_id: u128,
    pub owner_id: u128,
    pub state: RouteApprovalState,
    pub revision: u64,
    pub provider_id: String,
    pub route_id: String,
    pub account_profile: String,
    pub purpose: String,
    pub disclosure_version: String,
    pub maximum_request_tokens: u32,
    pub allowed_data_categories: Vec<DataCategory>,
    pub effective_at: i64,
    pub expires_at: Option<i64>,
    pub revoked_at: Option<i64>,
}

/// A permission of either kind as the client caches it.
#[derive(Clone, Debug, PartialEq, Eq)]
pub enum PermissionRecordView {
    SessionGrant(SessionGrantView),
    ModelRouteApproval(ModelRouteApprovalView),
}

/// A focus session as the client caches it.
#[derive(Clone, Debug, PartialEq, Eq)]
pub struct FocusSessionView {
    pub focus_session_id: u128,
    pub goal_id: u128,
    pub model_route_approval_id: u128,
    pub state: FocusSessionState,
    pub interventions_muted: bool,
    pub revision: u64,
    pub goal_revision: u64,
    pub created_at: i64,
    pub updated_at: i64,
    pub started_at: Option<i64>,
    pub ended_at: Option<i64>,
    pub permission_grant_ids: Vec<u128>,
    pub selected_resource_ids: Vec<u128>,
}

/// One observation source of a capture view.
#[derive(Clone, Copy, Debug, PartialEq, Eq, Structural)]
pub struct CaptureSourceView {
    pub observation_source_id: u128,
    pub selected_resource_id: Option<u128>,
    pub last_complete_at: Option<i64>,
}

/// What a focus session is capturing, as the client caches it.
#[derive(Clone, Debug, PartialEq, Eq)]
pub struct CaptureStateView {
    pub focus_session_id: u128,
    pub revision: u64,
    pub updated_at: i64,
    pub active_categories: Vec<DataCategory>,
    pub sources: Vec<CaptureSourceView>,
}

/// A delivery channel as the client caches it.
#[derive(Clone, Copy, Debug, PartialEq, Eq, Structural)]
pub struct DeliveryChannelView {
    pub delivery_channel_id: u128,
    pub observed_at: i64,
}

/// An intervention as the client caches it. Reason codes are held by their
/// numeric code.
#[derive(Clone, Debug, PartialEq, Eq)]
pub struct InterventionView {
    pub intervention_id: u128,
    pub focus_session_id: u128,
    pub goal_id: u128,
    pub delivery_channel_id: Option<u128>,
    pub state: InterventionState,
    pub revision: u64,
    pub candidate_revision: u64,
    pub created_at: i64,
    pub updated_at: i64,
    pub expires_at: i64,
    pub reason_codes: Vec<u32>,
    pub user_visible_text: Option<String>,
    pub sensitivity: SensitivityClass,
    pub retention: RetentionClass,
}

/// The nil UUID.
pub open spec fn nil() -> u128 {
    0
}

/// No identifier occurs twice.
pub open spec fn no_dup_ids(s: Seq<u128>) -> bool {
    forall|i: int, j: int| 0 <= i < j < s.len() ==> s[i] != s[j]
}

/// Every identifier is non-nil and none occurs twice.
pub open spec fn unique_non_nil(s: Seq<u128>) -> bool {
    (forall|i: int| 0 <= i < s.len() ==> s[i] != nil()) && no_dup_ids(s)
}

/// No category occurs twice.
pub open spec fn no_dup_categories(s: Seq<DataCategory>) -> bool {
    forall|i: int, j: int| 0 <= i < j < s.len() ==> s[i] != s[j]
}

/// No reason code occurs twice.
pub open spec fn no_dup_codes(s: Seq<u32>) -> bool {
    forall|i: int, j: int| 0 <= i < j < s.len() ==> s[i] != s[j]
}

/// An optional identifier, when present, is non-nil.
pub open spec fn some_non_nil(o: Option<u128>) -> bool {
    match o {
        Some(id) => id != nil(),
        None => true,
    }
}

/// An optional instant, when present, lies in `[low, high]`.
pub open spec fn within(o: Option<i64>, low: i64, high: i64) -> bool {
    match o {
        Some(t) => low <= t <= high,
        None => true,
    }
}

/// An optional instant, when present, is at most `high`.
pub open spec fn not_after(o: Option<i64>, high: i64) -> bool {
    match o {
        Some(t) => t <= high,
        None => true,
    }
}

/// Text that is not blank.
pub open spec fn nonblank(s: Seq<char>) -> bool {
    trimmed(s).len() > 0
}

/// Whether `ids` has no repeated element.
pub fn ids_unique(ids: &Vec<u128>) -> (r: bool)
    ensures
        r == no_dup_ids(ids@),
{
    let n = ids.len();
    let mut j: usize = 0;
    while j < n
        invariant
            j <= n == ids@.len(),
            forall|a: int, b: int| 0 <= a < b < j ==> ids@[a] != ids@[b],
        decreases n - j,
    {
        let mut i: usize = 0;
        while i < j
            invariant
                i <= j < n == ids@.len(),
                forall|a: int| 0 <= a < i ==> ids@[a] != ids@[j as int],
            decreases j - i,
        {
            if ids[i] == ids[j] {
                return false;
            }
            i = i + 1;
        }
        j = j + 1;
    }
    true
}

/// Whether `ids` are all non-nil and distinct.
pub fn ids_unique_non_nil(ids: &Vec<u128>) -> (r: bool)
    ensures
        r == unique_non_nil(ids@),
{
    let mut i: usize = 0;
    while i < ids.len()
        invariant
            i <= ids@.len(),
            forall|k: int| 0 <= k < i ==> ids@[k] != nil(),
        decreases ids@.len() - i,
    {
        if ids[i] == 0 {
            return false;
        }
        i = i + 1;
    }
    ids_unique(ids)
}

fn categories_unique(categories: &Vec<DataCategory>) -> (r: bool)
    ensures
        r == no_dup_categories(categories@),
{
    let n = categories.len();
    let mut j: usize = 0;
    while j < n
        invariant
            j <= n == categories@.len(),
            forall|a: int, b: int| 0 <= a < b < j ==> categories@[a] != categories@[b],
        decreases n - j,
    {
        let mut i: usize = 0;
        while i < j
            invariant
                i <= j < n == categories@.len(),
                forall|a: int| 0 <= a < i ==> categories@[a] != categories@[j as int],
            decreases j - i,
        {
            if categories[i] == categories[j] {
                return false;
            }
            i = i + 1;
        }
        j = j + 1;
    }
    true
}

fn codes_unique(codes: &Vec<u32>) -> (r: bool)
    ensures
        r == no_dup_codes(codes@),
{
    let n = codes.len();
    let mut j: usize = 0;
    while j < n
        invariant
            j <= n == codes@.len(),
            forall|a: int, b: int| 0 <= a < b < j ==> codes@[a] != codes@[b],
        decreases n - j,
    {
        let mut i: usize = 0;
        while i < j
            invariant
                i <= j < n == codes@.len(),
                forall|a: int| 0 <= a < i ==> codes@[a] != codes@[j as int],
            decreases j - i,
        {
            if codes[i] == codes[j] {
                return false;
            }
            i = i + 1;
        }
        j = j + 1;
    }
    true
}

/// Whether `s` is not blank.
pub fn is_nonblank(s: &String) -> (r: bool)
    ensures
        r == nonblank(s@),
{
    let (start, end) = crate::text::trimmed_bounds(s.as_str());
    start < end
}

fn opt_non_nil(o: Option<u128>) -> (r: bool)
    ensures
        r == some_non_nil(o),
{
    match o {
        Some(id) => id != 0,
        None => true,
    }
}

fn opt_within(o: Option<i64>, low: i64, high: i64) -> (r: bool)
    ensures
        r == within(o, low, high),
{
    match o {
        Some(t) => low <= t && t <= high,
        None => true,
    }
}

fn opt_not_after(o: Option<i64>, high: i64) -> (r: bool)
    ensures
        r == not_after(o, high),
{
    match o {
        Some(t) => t <= high,
        None => true,
    }
}

/// What a focus session record must satisfy, with `boundary` the instant of
/// the state that carries it.
pub open spec fn spec_focus_session_consistent(f: FocusSessionView, boundary: i64) -> bool {
    &&& f.focus_session_id != nil() && f.goal_id != nil() && f.model_route_approval_id != nil()
    &&& f.revision > 0 && f.goal_revision > 0
    &&& f.created_at <= f.updated_at <= boundary
    &&& within(f.started_at, f.created_at, boundary)
    &&& within(f.ended_at, f.created_at, boundary)
    &&& unique_non_nil(f.permission_grant_ids@)
    &&& unique_non_nil(f.selected_resource_ids@)
}

/// Whether a focus session record is consistent at `boundary`.
pub fn focus_session_is_consistent(f: &FocusSessionView, boundary: i64) -> (r: bool)
    ensures
        r == spec_focus_session_consistent(*f, boundary),
{
    f.focus_session_id != 0 && f.goal_id != 0 && f.model_route_approval_id != 0 && f.revision > 0
        && f.goal_revision > 0 && f.created_at <= f.updated_at && f.updated_at <= boundary
        && opt_within(f.started_at, f.created_at, boundary) && opt_within(f.ended_at, f.created_at, boundary)
        && ids_unique_non_nil(&f.permission_grant_ids) && ids_unique_non_nil(&f.selected_resource_ids)
}

/// What one capture source must satisfy.
pub open spec fn source_consistent(s: CaptureSourceView, boundary: i64) -> bool {
    s.observation_source_id != nil() && some_non_nil(s.selected_resource_id) && not_after(
        s.last_complete_at,
        boundary,
    )
}

/// The observation source identifiers of a capture view.
pub open spec fn source_ids(sources: Seq<CaptureSourceView>) -> Seq<u128> {
    sources.map_values(|s: CaptureSourceView| s.observation_source_id)
}

/// What a capture record must satisfy at `boundary`.
pub open spec fn spec_capture_consistent(c: CaptureStateView, boundary: i64) -> bool {
    &&& c.focus_session_id != nil() && c.revision != 0 && c.updated_at <= boundary
    &&& no_dup_categories(c.active_categories@)
    &&& forall|k: int| 0 <= k < c.sources@.len() ==> source_consistent(#[trigger] c.sources@[k], boundary)
    &&& no_dup_ids(source_ids(c.sources@))
}

/// Whether a capture record is consistent at `boundary`.
pub fn capture_state_is_consistent(c: &CaptureStateView, boundary: i64) -> (r: bool)
    ensures
        r == spec_capture_consistent(*c, boundary),
{
    if c.focus_session_id == 0 || c.revision == 0 || c.updated_at > boundary {
        return false;
    }
    if !categories_unique(&c.active_categories) {
        return false;
    }
    let mut ids: Vec<u128> = Vec::new();
    let mut i: usize = 0;
    while i < c.sources.len()
        invariant
            i <= c.sources@.len(),
            ids@ == source_ids(c.sources@.subrange(0, i as int)),
            forall|k: int| 0 <= k < i ==> source_consistent(#[trigger] c.sources@[k], boundary),
        decreases c.sources@.len() - i,
    {
        let s = c.sources[i];
        if s.observation_source_id == 0 || !opt_non_nil(s.selected_resource_id) || !opt_not_after(
            s.last_complete_at,
            boundary,
        ) {
            return false;
        }
        ids.push(s.observation_source_id);
        assert(source_ids(c.sources@.subrange(0, (i + 1) as int)) == source_ids(c.sources@.subrange(0, i as int)).push(
            s.observation_source_id,
        ));
        i = i + 1;
    }
    assert(c.sources@.subrange(0, i as int) == c.sources@);
    ids_unique(&ids)
}

/// What a permission record must satisfy for the session's actor at
/// `boundary`.
pub open spec fn spec_permission_consistent(actor: u128, record: PermissionRecordView, boundary: i64) -> bool {
    match record {
        PermissionRecordView::SessionGrant(g) => {
            &&& g.permission_grant_id != nil() && g.requested_by_client != nil() && g.device_id != nil()
                && g.goal_id != nil()
            &&& some_non_nil(g.focus_session_id) && some_non_nil(g.selected_resource_id)
            &&& g.owner_id == actor && g.revision > 0
            &&& nonblank(g.purpose@) && nonblank(g.consent_copy_version@)
            &&& g.effective_at <= g.expires_at && g.effective_at <= boundary
            &&& within(g.revoked_at, g.effective_at, boundary)
            &&& (g.revoked_at is Some) == (g.revocation_reason is Some)
            &&& g.sensitivity == SensitivityClass::Sensitive
            &&& g.retention == RetentionClass::DurableUntilExpiry
        },
        PermissionRecordView::ModelRouteApproval(a) => {
            &&& a.model_route_approval_id != nil() && a.owner_id == actor && a.revision > 0
            &&& nonblank(a.provider_id@) && nonblank(a.route_id@) && nonblank(a.account_profile@)
                && nonblank(a.purpose@) && nonblank(a.disclosure_version@)
            &&& a.maximum_request_tokens > 0
            &&& a.allowed_data_categories@.len() > 0 && no_dup_categories(a.allowed_data_categories@)
            &&& a.effective_at <= boundary
            &&& match a.expires_at {
                Some(e) => e >= a.effective_at,
                None => true,
            }
            &&& within(a.revoked_at, a.effective_at, boundary)
        },
    }
}

/// Whether a permission record is consistent for `actor` at `boundary`.
pub fn permission_record_is_consistent(actor: u128, record: &PermissionRecordView, boundary: i64) -> (r: bool)
    ensures
        r == spec_permission_consistent(actor, *record, boundary),
{
    match record {
        PermissionRecordView::SessionGrant(g) => {
            let sensitive = match g.sensitivity {
                SensitivityClass::Sensitive => true,
                _ => false,
            };
            let durable = match g.retention {
                RetentionClass::DurableUntilExpiry => true,
                _ => false,
            };
            g.permission_grant_id != 0 && g.requested_by_client != 0 && g.device_id != 0 && g.goal_id != 0
                && opt_non_nil(g.focus_session_id) && opt_non_nil(g.selected_resource_id) && g.owner_id
                == actor && g.revision > 0 && is_nonblank(&g.purpose) && is_nonblank(&g.consent_copy_version)
                && g.effective_at <= g.expires_at && g.effective_at <= boundary && opt_within(
                g.revoked_at,
                g.effective_at,
                boundary,
            ) && g.revoked_at.is_some() == g.revocation_reason.is_some() && sensitive && durable
        },
        PermissionRecordView::ModelRouteApproval(a) => {
            let expiry_ok = match a.expires_at {
                Some(e) => e >= a.effective_at,
                None => true,
            };
            a.model_route_approval_id != 0 && a.owner_id == actor && a.revision > 0 && is_nonblank(&a.provider_id)
                && is_nonblank(&a.route_id) && is_nonblank(&a.account_profile) && is_nonblank(&a.purpose)
                && is_nonblank(&a.disclosure_version) && a.maximum_request_tokens > 0
                && a.allowed_data_categories.len() > 0 && categories_unique(&a.allowed_data_categories)
                && a.effective_at <= boundary && expiry_ok && opt_within(a.revoked_at, a.effective_at, boundary)
        },
    }
}

/// What an intervention record must satisfy at `boundary`.
pub open spec fn spec_intervention_consistent(i: InterventionView, boundary: i64) -> bool {
    &&& i.intervention_id != nil() && i.focus_session_id != nil() && i.goal_id != nil()
    &&& some_non_nil(i.delivery_channel_id)
    &&& i.revision > 0 && i.candidate_revision > 0
    &&& i.created_at <= i.updated_at <= boundary && i.created_at <= i.expires_at
    &&& i.reason_codes@.len() > 0 && no_dup_codes(i.reason_codes@)
    &&& i.sensitivity == SensitivityClass::Personal && i.retention == RetentionClass::BoundedAudit
}

/// Whether an intervention record is consistent at `boundary`.
pub fn intervention_is_consistent(i: &InterventionView, boundary: i64) -> (r: bool)
    ensures
        r == spec_intervention_consistent(*i, boundary),
{
    let personal = match i.sensitivity {
        SensitivityClass::Personal => true,
        _ => false,
    };
    let audit = match i.retention {
        RetentionClass::BoundedAudit => true,
        _ => false,
    };
    i.intervention_id != 0 && i.focus_session_id != 0 && i.goal_id != 0 && opt_non_nil(i.delivery_channel_id)
        && i.revision > 0 && i.candidate_revision > 0 && i.created_at <= i.updated_at && i.updated_at <= boundary
        && i.created_at <= i.expires_at && i.reason_codes.len() > 0 && codes_unique(&i.reason_codes) && personal
        && audit
}

/// Intervention states in which the intervention is on offer to the user.
pub open spec fn offered_state(state: InterventionState) -> bool {
    state is Allowed || state is Queued || state is Delivering || state is AcceptedByChannel
        || state is DeliveryUnknown
}

/// Whether an intervention is available to the user: it has non-blank text
/// and is in an offered state.
pub open spec fn spec_intervention_available(i: InterventionView) -> bool {
    (i.user_visible_text matches Some(t) && nonblank(t@)) && offered_state(i.state)
}

/// Whether an intervention is available to the user.
pub fn intervention_is_available(i: &InterventionView) -> (r: bool)
    ensures
        r == spec_intervention_available(*i),
{
    let text = match &i.user_visible_text {
        Some(t) => is_nonblank(t),
        None => false,
    };
    let offered = match i.state {
        InterventionState::Allowed | InterventionState::Queued | InterventionState::Delivering
        | InterventionState::AcceptedByChannel | InterventionState::DeliveryUnknown => true,
        _ => false,
    };
    text && offered
}


/// The kind of change a goal event reports.
#[derive(Clone, Copy, Debug, PartialEq, Eq, Structural)]
pub enum GoalChangeKind {
    Created,
    Updated,
    Completed,
    Abandoned,
}

/// Whether a goal change agrees with the goal's new state and revision.
pub open spec fn spec_goal_change_matches(change: GoalChangeKind, state: ViewGoalState, revision: u64) -> bool {
    match change {
        GoalChangeKind::Created => revision == 1 && (state is Draft || state is Active),
        GoalChangeKind::Updated => state is Draft || state is Active,
        GoalChangeKind::Completed => state is Completed,
        GoalChangeKind::Abandoned => state is Abandoned,
    }
}

/// Whether a goal change agrees with the goal's new state and revision.
pub fn goal_change_matches_state(change: GoalChangeKind, state: ViewGoalState, revision: u64) -> (r: bool)
    ensures
        r == spec_goal_change_matches(change, state, revision),
{
    let open = match state {
        ViewGoalState::Draft | ViewGoalState::Active => true,
        _ => false,
    };
    match change {
        GoalChangeKind::Created => revision == 1 && open,
        GoalChangeKind::Updated => open,
        GoalChangeKind::Completed => match state {
            ViewGoalState::Completed => true,
            _ => false,
        },
        GoalChangeKind::Abandoned => match state {
            ViewGoalState::Abandoned => true,
            _ => false,
        },
    }
}

/// The kind of change a focus session event reports.
#[derive(Clone, Copy, Debug, PartialEq, Eq, Structural)]
pub enum FocusSessionChangeKind {
    Requested,
    Started,
    Recovered,
    Muted,
    Unmuted,
    RecoveryStarted,
    Stopping,
    Ended,
    Failed,
}

/// Whether a focus session change agrees with the session's new state and
/// mute flag.
pub open spec fn spec_focus_change_matches(change: FocusSessionChangeKind, state: FocusSessionState, muted: bool) -> bool {
    let live = !(state is Ended || state is Failed);
    match change {
        FocusSessionChangeKind::Requested => state is Requested || state is Starting,
        FocusSessionChangeKind::Started | FocusSessionChangeKind::Recovered => state is Active,
        FocusSessionChangeKind::Muted => muted && live,
        FocusSessionChangeKind::Unmuted => !muted && live,
        FocusSessionChangeKind::RecoveryStarted => state is Recovering,
        FocusSessionChangeKind::Stopping => state is Stopping,
        FocusSessionChangeKind::Ended => state is Ended,
        FocusSessionChangeKind::Failed => state is Failed,
    }
}

/// Whether a focus session change agrees with the session's new state.
pub fn focus_change_matches_state(change: FocusSessionChangeKind, state: FocusSessionState, muted: bool) -> (r: bool)
    ensures
        r == spec_focus_change_matches(change, state, muted),
{
    let live = match state {
        FocusSessionState::Ended | FocusSessionState::Failed => false,
        _ => true,
    };
    match change {
        FocusSessionChangeKind::Requested => match state {
            FocusSessionState::Requested | FocusSessionState::Starting => true,
            _ => false,
        },
        FocusSessionChangeKind::Started | FocusSessionChangeKind::Recovered => match state {
            FocusSessionState::Active => true,
            _ => false,
        },
        FocusSessionChangeKind::Muted => muted && live,
        FocusSessionChangeKind::Unmuted => !muted && live,
        FocusSessionChangeKind::RecoveryStarted => match state {
            FocusSessionState::Recovering => true,
            _ => false,
        },
        FocusSessionChangeKind::Stopping => match state {
            FocusSessionState::Stopping => true,
            _ => false,
        },
        FocusSessionChangeKind::Ended => match state {
            FocusSessionState::Ended => true,
            _ => false,
        },
        FocusSessionChangeKind::Failed => match state {
            FocusSessionState::Failed => true,
            _ => false,
        },
    }
}

/// The kind of change a permission event reports.
#[derive(Clone, Copy, Debug, PartialEq, Eq, Structural)]
pub enum PermissionChangeKind {
    Granted,
    Updated,
    Revoked,
    Expired,
}

/// Whether a permission change agrees with the record's new state.
pub open spec fn spec_permission_change_matches(change: PermissionChangeKind, record: PermissionRecordView) -> bool {
    match record {
        PermissionRecordView::SessionGrant(g) => match change {
            PermissionChangeKind::Granted => g.state is Active,
            PermissionChangeKind::Updated => true,
            PermissionChangeKind::Revoked => g.state is Revoked,
            PermissionChangeKind::Expired => g.state is Expired,
        },
        PermissionRecordView::ModelRouteApproval(a) => match change {
            PermissionChangeKind::Granted => a.state is Active,
            PermissionChangeKind::Updated => true,
            PermissionChangeKind::Revoked => a.state is Revoked,
            PermissionChangeKind::Expired => a.state is Expired,
        },
    }
}

/// Whether a permission change agrees with the record's new state.
pub fn permission_change_matches_state(change: PermissionChangeKind, record: &PermissionRecordView) -> (r: bool)
    ensures
        r == spec_permission_change_matches(change, *record),
{
    let (active, revoked, expired) = match record {
        PermissionRecordView::SessionGrant(g) => match g.state {
            GrantViewState::Active => (true, false, false),
            GrantViewState::Revoked => (false, true, false),
            GrantViewState::Expired => (false, false, true),
        },
        PermissionRecordView::ModelRouteApproval(a) => match a.state {
            RouteApprovalState::Active => (true, false, false),
            RouteApprovalState::Revoked => (false, true, false),
            RouteApprovalState::Expired => (false, false, true),
        },
    };
    match change {
        PermissionChangeKind::Granted => active,
        PermissionChangeKind::Updated => true,
        PermissionChangeKind::Revoked => revoked,
        PermissionChangeKind::Expired => expired,
    }
}

/// The schema version of every record of protocol 1.
pub const SCHEMA_VERSION_V1: u32 = 1;

/// The health of a platform capability as views show it.
#[derive(Clone, Copy, Debug, PartialEq, Eq, Structural)]
pub enum HealthState {
    Healthy,
    Degraded,
    Unavailable,
}

/// A capability health record as the client caches it.
#[derive(Clone, Debug, PartialEq, Eq)]
pub struct CapabilityHealthView {
    pub schema_version: u32,
    pub capability: crate::protocol::CapabilityId,
    pub state: HealthState,
    pub unavailable_reason: Option<String>,
}

/// A health record of schema 1 that gives a reason exactly when the
/// capability is unavailable; a degraded capability may give one or not.
pub open spec fn spec_capability_health_consistent(h: CapabilityHealthView) -> bool {
    h.schema_version == SCHEMA_VERSION_V1 && match h.state {
        HealthState::Healthy => h.unavailable_reason is None,
        HealthState::Unavailable => h.unavailable_reason is Some,
        HealthState::Degraded => true,
    }
}

/// Whether a capability health record is consistent.
pub fn capability_health_is_consistent(h: &CapabilityHealthView) -> (r: bool)
    ensures
        r == spec_capability_health_consistent(*h),
{
    h.schema_version == SCHEMA_VERSION_V1 && match h.state {
        HealthState::Healthy => h.unavailable_reason.is_none(),
        HealthState::Unavailable => h.unavailable_reason.is_some(),
        HealthState::Degraded => true,
    }
}

} // verus!
