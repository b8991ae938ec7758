//! Evidence handling: audit details, evidence summaries, context extraction
//! from observations, scrubbing and resource labels.

use vstd::prelude::*;
use crate::errors::{SecondMindError, SecondMindErrorCode, fails_plain};
use crate::model::{DataCategory, InterventionState, PermissionGrant, PermissionScope, PresenceState};
use crate::view_publication::ModelRouteRecord;

verus! {

/// The content-free details of one audit record.
#[derive(Clone, Debug, PartialEq, Eq)]
pub struct AuditDetails {
    pub reason_codes: Vec<String>,
    pub evidence_categories: Vec<DataCategory>,
    pub evidence_age_ms: Option<u64>,
    pub confidence_basis_points: Option<u16>,
}

impl AuditDetails {
    /// Details with reasons and categories and no candidate evidence.
    pub fn new(reason_codes: Vec<String>, evidence_categories: Vec<DataCategory>) -> (d: Self)
        ensures
            d.reason_codes@ == reason_codes@,
            d.evidence_categories@ == evidence_categories@,
            d.evidence_age_ms is None,
            d.confidence_basis_points is None,
    {
        AuditDetails { reason_codes, evidence_categories, evidence_age_ms: None, confidence_basis_points: None }
    }

    /// The details with a candidate's evidence age and confidence attached.
    pub fn with_candidate_evidence(self, evidence_age_ms: u64, confidence_basis_points: u16) -> (d: Self)
        ensures
            d.reason_codes@ == self.reason_codes@,
            d.evidence_categories@ == self.evidence_categories@,
            d.evidence_age_ms == Some(evidence_age_ms),
            d.confidence_basis_points == Some(confidence_basis_points),
    {
        AuditDetails {
            reason_codes: self.reason_codes,
            evidence_categories: self.evidence_categories,
            evidence_age_ms: Some(evidence_age_ms),
            confidence_basis_points: Some(confidence_basis_points),
        }
    }
}

/// One item of the working context handed to the model.
#[derive(Clone, Copy, Debug, PartialEq, Eq, Structural)]
pub struct ContextStamp {
    pub category: DataCategory,
    pub observed_at: i64,
    pub confidence_basis_points: u16,
}

/// How a piece of evidence bears on the candidate.
#[derive(Clone, Copy, Debug, PartialEq, Eq, Structural)]
pub enum EvidenceRole {
    SupportsProgress,
    SupportsDeadlineRisk,
    Uncertain,
}

/// The evidence of one category: its time span and weakest confidence.
#[derive(Clone, Copy, Debug, PartialEq, Eq, Structural)]
pub struct EvidenceSummary {
    pub category: DataCategory,
    pub observed_from: i64,
    pub observed_until: i64,
    pub confidence_basis_points: u16,
    pub role: EvidenceRole,
}

/// The categories in summary order.
pub open spec fn category_order() -> Seq<DataCategory> {
    seq![
        DataCategory::Goal,
        DataCategory::EvidenceAggregates,
        DataCategory::WindowMetadata,
        DataCategory::BrowserLocation,
        DataCategory::VisibleText,
        DataCategory::SelectedDocument,
        DataCategory::ScreenPixels,
        DataCategory::WorkspaceActivity,
        DataCategory::DeliveryConstraints,
    ]
}

/// The context items of category `c`.
pub open spec fn of_category(items: Seq<ContextStamp>, c: DataCategory) -> Seq<ContextStamp> {
    items.filter(|x: ContextStamp| x.category == c)
}

/// The earliest observation time of a non-empty sequence.
pub open spec fn earliest(s: Seq<ContextStamp>) -> i64
    decreases s.len(),
{
    if s.len() <= 1 {
        s[0].observed_at
    } else {
        let e = earliest(s.drop_last());
        if s.last().observed_at < e {
            s.last().observed_at
        } else {
            e
        }
    }
}

/// The latest observation time of a non-empty sequence.
pub open spec fn latest(s: Seq<ContextStamp>) -> i64
    decreases s.len(),
{
    if s.len() <= 1 {
        s[0].observed_at
    } else {
        let e = latest(s.drop_last());
        if s.last().observed_at > e {
            s.last().observed_at
        } else {
            e
        }
    }
}

/// The weakest confidence of a non-empty sequence.
pub open spec fn weakest(s: Seq<ContextStamp>) -> u16
    decreases s.len(),
{
    if s.len() <= 1 {
        s[0].confidence_basis_points
    } else {
        let e = weakest(s.drop_last());
        if s.last().confidence_basis_points < e {
            s.last().confidence_basis_points
        } else {
            e
        }
    }
}

/// The role the reason code gives the evidence.
pub open spec fn spec_role(reason: Seq<char>) -> EvidenceRole {
    if reason == seq!['r', 'e', 'c', 'e', 'n', 't', '_', 'r', 'e', 'l', 'e', 'v', 'a', 'n', 't', '_', 'p', 'r', 'o', 'g', 'r', 'e', 's', 's'] {
        EvidenceRole::SupportsProgress
    } else if reason == seq!['d', 'e', 'a', 'd', 'l', 'i', 'n', 'e', '_', 'n', 'e', 'a', 'r']
        || reason == seq!['s', 'u', 'c', 'c', 'e', 's', 's', '_', 'c', 'o', 'n', 'd', 'i', 't', 'i', 'o', 'n', '_', 'u', 'n', 'o', 'b', 's', 'e', 'r', 'v', 'e', 'd'] {
        EvidenceRole::SupportsDeadlineRisk
    } else {
        EvidenceRole::Uncertain
    }
}

/// The summary of category `c`, if the context has any of it.
pub open spec fn summary_of(items: Seq<ContextStamp>, c: DataCategory, role: EvidenceRole) -> Option<EvidenceSummary> {
    let s = of_category(items, c);
    if s.len() == 0 {
        None
    } else {
        Some(EvidenceSummary {
            category: c,
            observed_from: earliest(s),
            observed_until: latest(s),
            confidence_basis_points: weakest(s),
            role,
        })
    }
}

/// The summaries of the first `k` categories in order.
pub open spec fn summaries_upto(items: Seq<ContextStamp>, k: int, role: EvidenceRole) -> Seq<EvidenceSummary>
    decreases k,
{
    if k <= 0 {
        Seq::empty()
    } else {
        let prev = summaries_upto(items, k - 1, role);
        match summary_of(items, category_order()[k - 1], role) {
            Some(x) => prev.push(x),
            None => prev,
        }
    }
}

fn role_for(reason_code: &str) -> (r: EvidenceRole)
    ensures
        r == spec_role(reason_code@),
{
    let reason = crate::text::chars_of(reason_code);
    let progress: Vec<char> = vec!['r', 'e', 'c', 'e', 'n', 't', '_', 'r', 'e', 'l', 'e', 'v', 'a', 'n', 't', '_', 'p', 'r', 'o', 'g', 'r', 'e', 's', 's'];
    let near: Vec<char> = vec!['d', 'e', 'a', 'd', 'l', 'i', 'n', 'e', '_', 'n', 'e', 'a', 'r'];
    let unobserved: Vec<char> = vec!['s', 'u', 'c', 'c', 'e', 's', 's', '_', 'c', 'o', 'n', 'd', 'i', 't', 'i', 'o', 'n', '_', 'u', 'n', 'o', 'b', 's', 'e', 'r', 'v', 'e', 'd'];
    if crate::text::same_chars(&reason, &progress) {
        EvidenceRole::SupportsProgress
    } else if crate::text::same_chars(&reason, &near) || crate::text::same_chars(&reason, &unobserved) {
        EvidenceRole::SupportsDeadlineRisk
    } else {
        EvidenceRole::Uncertain
    }
}

fn summarize_category(context: &Vec<ContextStamp>, c: DataCategory, role: EvidenceRole) -> (r: Option<EvidenceSummary>)
    ensures
        r == summary_of(context@, c, role),
{
    let mut found: Option<EvidenceSummary> = None;
    let mut i: usize = 0;
    while i < context.len()
        invariant
            i <= context@.len(),
            found == summary_of(context@.subrange(0, i as int), c, role),
        decreases context@.len() - i,
    {
        let x = context[i];
        proof {
            reveal(Seq::filter);
            assert(context@.subrange(0, (i + 1) as int).drop_last() == context@.subrange(0, i as int));
        }
        if x.category == c {
            found = match found {
                None => Some(EvidenceSummary {
                    category: c,
                    observed_from: x.observed_at,
                    observed_until: x.observed_at,
                    confidence_basis_points: x.confidence_basis_points,
                    role,
                }),
                Some(s) => Some(EvidenceSummary {
                    category: c,
                    observed_from: if x.observed_at < s.observed_from { x.observed_at } else { s.observed_from },
                    observed_until: if x.observed_at > s.observed_until { x.observed_at } else { s.observed_until },
                    confidence_basis_points: if x.confidence_basis_points < s.confidence_basis_points {
                        x.confidence_basis_points
                    } else {
                        s.confidence_basis_points
                    },
                    role,
                }),
            };
            proof {
                let before = of_category(context@.subrange(0, i as int), c);
                let after = of_category(context@.subrange(0, (i + 1) as int), c);
                assert(after == before.push(x));
                assert(after.drop_last() == before);
            }
        }
        i = i + 1;
    }
    assert(context@.subrange(0, i as int) == context@);
    found
}

/// Summarizes the context per category, in category order: the earliest and
/// latest observation and the weakest confidence of each category present,
/// with the role that the reason code gives the evidence.
pub fn summarize_evidence(context: &Vec<ContextStamp>, reason_code: &str) -> (r: Vec<EvidenceSummary>)
    ensures
        r@ == summaries_upto(context@, 9, spec_role(reason_code@)),
{
    let role = role_for(reason_code);
    let order: Vec<DataCategory> = vec![
        DataCategory::Goal,
        DataCategory::EvidenceAggregates,
        DataCategory::WindowMetadata,
        DataCategory::BrowserLocation,
        DataCategory::VisibleText,
        DataCategory::SelectedDocument,
        DataCategory::ScreenPixels,
        DataCategory::WorkspaceActivity,
        DataCategory::DeliveryConstraints,
    ];
    assert(order@ == category_order());
    let mut out: Vec<EvidenceSummary> = Vec::new();
    let mut k: usize = 0;
    while k < order.len()
        invariant
            k <= order@.len(),
            order@ == category_order(),
            out@ == summaries_upto(context@, k as int, role),
        decreases order@.len() - k,
    {
        match summarize_category(context, order[k], role) {
            Some(s) => out.push(s),
            None => {},
        }
        k = k + 1;
    }
    out
}

/// Whether the user is present, switched away, and so on.
#[derive(Clone, Debug, PartialEq, Eq)]
pub enum ForegroundApplicationState {
    Selected { application_id: String },
    OutsideSelectedScope,
}

/// The kind of a workspace change.
#[derive(Clone, Copy, Debug, PartialEq, Eq, Structural)]
pub enum WorkspaceActivityKind {
    Created,
    Modified,
    Renamed,
    Deleted,
}

/// A normalized observation value.
#[derive(Clone, Debug, PartialEq, Eq)]
pub enum NormalizedObservationValue {
    Presence(PresenceState),
    ForegroundApplication(ForegroundApplicationState),
    WindowMetadata { title: String },
    BrowserLocation { origin: Option<String>, path: Option<String> },
    VisibleText { text: String },
    SelectedDocument { text: String },
    ScreenPixels { text: String },
    WorkspaceActivity { activity: WorkspaceActivityKind },
}

/// The working-context text an observation contributes, if any.
pub open spec fn spec_observation_to_context(value: NormalizedObservationValue) -> Option<Seq<char>> {
    match value {
        NormalizedObservationValue::Presence(_) => None,
        NormalizedObservationValue::ForegroundApplication(ForegroundApplicationState::Selected { application_id }) => Some(application_id@),
        NormalizedObservationValue::ForegroundApplication(ForegroundApplicationState::OutsideSelectedScope) => None,
        NormalizedObservationValue::BrowserLocation { origin, path } => match origin {
            None => None,
            Some(o) => Some(o@ + match path {
                Some(p) => p@,
                None => Seq::<char>::empty(),
            }),
        },
        NormalizedObservationValue::WorkspaceActivity { activity } => Some(match activity {
            WorkspaceActivityKind::Created => seq!['c', 'r', 'e', 'a', 't', 'e', 'd'],
            WorkspaceActivityKind::Modified => seq!['m', 'o', 'd', 'i', 'f', 'i', 'e', 'd'],
            WorkspaceActivityKind::Renamed => seq!['r', 'e', 'n', 'a', 'm', 'e', 'd'],
            WorkspaceActivityKind::Deleted => seq!['d', 'e', 'l', 'e', 't', 'e', 'd'],
        }),
        NormalizedObservationValue::WindowMetadata { title } => Some(title@),
        NormalizedObservationValue::VisibleText { text } => Some(text@),
        NormalizedObservationValue::SelectedDocument { text } => Some(text@),
        NormalizedObservationValue::ScreenPixels { text } => Some(text@),
    }
}

fn text_of(chars: Vec<char>) -> (s: String)
    ensures
        s@ == chars@,
{
    crate::text::string_from_chars(chars.as_slice())
}

/// The working-context text an observation contributes: presence and
/// applications outside the selected scope contribute nothing, a browser
/// location contributes its origin and path, and a workspace change its kind.
pub fn observation_to_context(value: &NormalizedObservationValue) -> (r: Option<String>)
    ensures
        match (r, spec_observation_to_context(*value)) {
            (Some(s), Some(t)) => s@ == t,
            (None, None) => true,
            _ => false,
        },
{
    match value {
        NormalizedObservationValue::Presence(_) => None,
        NormalizedObservationValue::ForegroundApplication(ForegroundApplicationState::Selected { application_id }) => Some(application_id.clone()),
        NormalizedObservationValue::ForegroundApplication(ForegroundApplicationState::OutsideSelectedScope) => None,
        NormalizedObservationValue::BrowserLocation { origin, path } => {
            match origin {
                None => None,
                Some(o) => {
                    let mut chars = crate::text::chars_of(o.as_str());
                    match path {
                        Some(p) => {
                            let tail = crate::text::chars_of(p.as_str());
                            let mut i: usize = 0;
                            let ghost head = chars@;
                            while i < tail.len()
                                invariant
                                    i <= tail@.len(),
                                    chars@ == head + tail@.subrange(0, i as int),
                                decreases tail@.len() - i,
                            {
                                chars.push(tail[i]);
                                assert(tail@.subrange(0, (i + 1) as int) == tail@.subrange(0, i as int).push(tail@[i as int]));
                                i = i + 1;
                            }
                            assert(tail@.subrange(0, i as int) == tail@);
                        },
                        None => {
                            assert(chars@ == o@ + Seq::<char>::empty());
                        },
                    }
                    Some(text_of(chars))
                },
            }
        },
        NormalizedObservationValue::WorkspaceActivity { activity } => {
            let chars: Vec<char> = match activity {
                WorkspaceActivityKind::Created => vec!['c', 'r', 'e', 'a', 't', 'e', 'd'],
                WorkspaceActivityKind::Modified => vec!['m', 'o', 'd', 'i', 'f', 'i', 'e', 'd'],
                WorkspaceActivityKind::Renamed => vec!['r', 'e', 'n', 'a', 'm', 'e', 'd'],
                WorkspaceActivityKind::Deleted => vec!['d', 'e', 'l', 'e', 't', 'e', 'd'],
            };
            Some(text_of(chars))
        },
        NormalizedObservationValue::WindowMetadata { title } => Some(title.clone()),
        NormalizedObservationValue::VisibleText { text } => Some(text.clone()),
        NormalizedObservationValue::SelectedDocument { text } => Some(text.clone()),
        NormalizedObservationValue::ScreenPixels { text } => Some(text.clone()),
    }
}

/// The user-visible parts of an intervention.
#[derive(Clone, Debug, PartialEq, Eq)]
pub struct InterventionContent {
    pub state: InterventionState,
    pub user_visible_text: String,
    pub evidence_summary: String,
    pub evidence: Vec<EvidenceSummary>,
}

/// Removes every user-visible text and evidence of an intervention.
pub fn scrub_intervention(intervention: &mut InterventionContent)
    ensures
        final(intervention).user_visible_text@.len() == 0,
        final(intervention).evidence_summary@.len() == 0,
        final(intervention).evidence@.len() == 0,
        final(intervention).state == old(intervention).state,
{
    intervention.user_visible_text = String::new();
    intervention.evidence_summary = String::new();
    intervention.evidence = Vec::new();
}

/// A resource the user selected through the native picker: an opaque
/// reference CORE never interprets and a safe user-visible label.
#[derive(Clone, Debug, PartialEq, Eq)]
pub struct ResourceBinding {
    pub id: u128,
    pub owner: u128,
    pub kind: crate::resources::ResourceKind,
    pub opaque_reference: String,
    pub display_label: String,
    pub revision: u64,
    pub created_at: i64,
}

/// A resource that the native status surface shows for a grant.
#[derive(Clone, Debug, PartialEq, Eq)]
pub struct NativeResourceStatus {
    pub grant_id: u128,
    pub scope: PermissionScope,
    pub display_label: String,
}

/// The first resource with identifier `id`.
pub open spec fn resource_with(resources: Seq<ResourceBinding>, id: u128) -> Option<ResourceBinding>
    decreases resources.len(),
{
    if resources.len() == 0 {
        None
    } else if resources[0].id == id {
        Some(resources[0])
    } else {
        resource_with(resources.drop_first(), id)
    }
}

/// The status rows of the grants, in grant order: one per grant bound to a
/// known resource, labelled by that resource.
pub open spec fn spec_resource_statuses(resources: Seq<ResourceBinding>, grants: Seq<PermissionGrant>) -> Seq<(u128, PermissionScope, Seq<char>)>
    decreases grants.len(),
{
    if grants.len() == 0 {
        Seq::empty()
    } else {
        let prev = spec_resource_statuses(resources, grants.drop_last());
        let g = grants.last();
        match g.selected_resource_id {
            Some(id) => match resource_with(resources, id) {
                Some(r) => prev.push((g.id, g.scope, r.display_label@)),
                None => prev,
            },
            None => prev,
        }
    }
}

fn find_resource_index(resources: &Vec<ResourceBinding>, id: u128) -> (r: Option<usize>)
    ensures
        match r {
            Some(i) => i < resources@.len() && resource_with(resources@, id) == Some(resources@[i as int]),
            None => resource_with(resources@, id) is None,
        },
{
    let mut i: usize = 0;
    assert(resources@.subrange(0, resources@.len() as int) == resources@);
    while i < resources.len()
        invariant
            i <= resources@.len(),
            resource_with(resources@, id) == resource_with(resources@.subrange(i as int, resources@.len() as int), id),
        decreases resources@.len() - i,
    {
        let ghost rest = resources@.subrange(i as int, resources@.len() as int);
        assert(rest[0] == resources@[i as int]);
        if resources[i].id == id {
            return Some(i);
        }
        assert(rest.drop_first() == resources@.subrange(i + 1, resources@.len() as int));
        i = i + 1;
    }
    None
}

/// The native status rows for the grants' selected resources.
pub fn resource_statuses(resources: &Vec<ResourceBinding>, grants: &Vec<PermissionGrant>) -> (r: Vec<NativeResourceStatus>)
    ensures
        r@.map_values(|s: NativeResourceStatus| (s.grant_id, s.scope, s.display_label@))
            == spec_resource_statuses(resources@, grants@),
{
    let mut out: Vec<NativeResourceStatus> = Vec::new();
    let mut i: usize = 0;
    assert(resources@.subrange(0, resources@.len() as int) == resources@);
    while i < grants.len()
        invariant
            i <= grants@.len(),
            out@.map_values(|s: NativeResourceStatus| (s.grant_id, s.scope, s.display_label@))
                == spec_resource_statuses(resources@, grants@.subrange(0, i as int)),
        decreases grants@.len() - i,
    {
        let g = &grants[i];
        assert(grants@.subrange(0, (i + 1) as int).drop_last() == grants@.subrange(0, i as int));
        match g.selected_resource_id {
            Some(id) => {
                match find_resource_index(resources, id) {
                    Some(k) => {
                        let ghost before = out@;
                        out.push(NativeResourceStatus {
                            grant_id: g.id,
                            scope: g.scope,
                            display_label: resources[k].display_label.clone(),
                        });
                        assert(out@.map_values(|s: NativeResourceStatus| (s.grant_id, s.scope, s.display_label@))
                            == before.map_values(|s: NativeResourceStatus| (s.grant_id, s.scope, s.display_label@)).push(
                            (g.id, g.scope, resources@[k as int].display_label@),
                        ));
                    },
                    None => {},
                }
            },
            None => {},
        }
        i = i + 1;
    }
    assert(grants@.subrange(0, i as int) == grants@);
    out
}

/// Finds an owner's model route approval.
pub fn find_route(routes: &Vec<ModelRouteRecord>, id: u128) -> (r: Result<ModelRouteRecord, SecondMindError>)
    ensures
        r matches Ok(route) ==> route.id == id && exists|k: int|
            0 <= k < routes@.len() && routes@[k] == route && forall|m: int| 0 <= m < k ==> routes@[m].id != id,
        r is Err <==> forall|k: int| 0 <= k < routes@.len() ==> routes@[k].id != id,
        r is Err ==> fails_plain(r, SecondMindErrorCode::NotFound, "The model route approval was not found.", false),
{
    let mut i: usize = 0;
    while i < routes.len()
        invariant
            i <= routes@.len(),
            forall|k: int| 0 <= k < i ==> routes@[k].id != id,
        decreases routes@.len() - i,
    {
        if routes[i].id == id {
            return Ok(routes[i]);
        }
        i = i + 1;
    }
    Err(SecondMindError::not_found("The model route approval was not found."))
}

/// Finds an owner's selected resource.
pub fn find_resource(resources: &Vec<ResourceBinding>, id: u128) -> (r: Result<usize, SecondMindError>)
    ensures
        r matches Ok(i) ==> i < resources@.len() && resource_with(resources@, id) == Some(resources@[i as int]),
        r is Err <==> resource_with(resources@, id) is None,
        r is Err ==> fails_plain(r, SecondMindErrorCode::NotFound, "The selected resource was not found.", false),
{
    match find_resource_index(resources, id) {
        Some(i) => Ok(i),
        None => Err(SecondMindError::not_found("The selected resource was not found.")),
    }
}

/// What context assembly reads of one retained observation.
#[derive(Clone, Copy, Debug, PartialEq, Eq, Structural)]
pub struct ObservationFacts {
    pub grant_id: u128,
    pub category: DataCategory,
    pub required_scope: PermissionScope,
    pub observed_at: i64,
}

/// Whether a current grant of the observation's scope admitted it.
pub open spec fn admitting_grant(grants: Seq<PermissionGrant>, o: ObservationFacts, now: i64) -> bool {
    exists|k: int|
        0 <= k < grants.len() && (#[trigger] grants[k]).scope == o.required_scope && grants[k].id == o.grant_id
            && grants[k].spec_is_current_at(now)
}

/// Whether an observation may enter the model's working context at `now`:
/// observed no later than `now` and at most `evidence_age` before it, from
/// a source that is healthy and fresh, in a category the route allows, and
/// admitted by a current grant of its scope.
pub open spec fn usable_as_context(
    o: ObservationFacts,
    health: Seq<crate::delivery::SourceHealthEntry>,
    route_categories: Seq<DataCategory>,
    grants: Seq<PermissionGrant>,
    now: i64,
    source_freshness: u64,
    evidence_age: u64,
) -> bool {
    &&& o.observed_at <= now && now - o.observed_at <= evidence_age
    &&& crate::delivery::source_fresh(health, o.grant_id, now, source_freshness)
    &&& route_categories.contains(o.category)
    &&& admitting_grant(grants, o, now)
}

fn category_allowed(categories: &Vec<DataCategory>, c: DataCategory) -> (r: bool)
    ensures
        r == categories@.contains(c),
{
    let mut i: usize = 0;
    while i < categories.len()
        invariant
            i <= categories@.len(),
            forall|k: int| 0 <= k < i ==> categories@[k] != c,
        decreases categories@.len() - i,
    {
        if categories[i] == c {
            assert(categories@[i as int] == c);
            return true;
        }
        i = i + 1;
    }
    false
}

/// Decides whether an observation may enter the model's working context.
pub fn observation_usable(
    o: ObservationFacts,
    health: &Vec<crate::delivery::SourceHealthEntry>,
    route_categories: &Vec<DataCategory>,
    grants: &Vec<PermissionGrant>,
    now: i64,
    source_freshness: u64,
    evidence_age: u64,
) -> (r: bool)
    ensures
        r == usable_as_context(o, health@, route_categories@, grants@, now, source_freshness, evidence_age),
{
    let age: i128 = now as i128 - o.observed_at as i128;
    if age < 0 || age > evidence_age as i128 {
        return false;
    }
    if !crate::delivery::fresh_source(health, o.grant_id, now, source_freshness) {
        return false;
    }
    if !category_allowed(route_categories, o.category) {
        return false;
    }
    let mut k: usize = 0;
    while k < grants.len()
        invariant
            k <= grants@.len(),
            o.observed_at <= now && now - o.observed_at <= evidence_age,
            crate::delivery::source_fresh(health@, o.grant_id, now, source_freshness),
            route_categories@.contains(o.category),
            forall|m: int|
                0 <= m < k ==> !((#[trigger] grants@[m]).scope == o.required_scope && grants@[m].id == o.grant_id
                    && grants@[m].spec_is_current_at(now)),
        decreases grants@.len() - k,
    {
        let g = &grants[k];
        if g.scope == o.required_scope && g.id == o.grant_id && g.is_current_at(now) {
            return true;
        }
        k = k + 1;
    }
    false
}

} // verus!
