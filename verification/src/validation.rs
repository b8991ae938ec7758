//! Validation of model output, model routes, permission requests,
//! observations and native status acknowledgements.

use vstd::prelude::*;
use crate::config::SecondMindConfig;
use crate::errors::{SecondMindError, SecondMindErrorCode, fails_plain};
use crate::model::{DataCategory, FocusSession, PermissionGrant, PermissionScope};
use crate::text::{chars_of, has_control, trimmed, validate_text};

verus! {

/// `c` with an ASCII capital letter lowered.
pub open spec fn ascii_lower(c: char) -> char {
    if 'A' <= c <= 'Z' {
        ((c as u32) + 32) as char
    } else {
        c
    }
}

/// Whether `needle` occurs in `hay`.
pub open spec fn occurs(hay: Seq<char>, needle: Seq<char>) -> bool {
    exists|i: int| 0 <= i <= hay.len() - needle.len() && #[trigger] hay.subrange(i, i + needle.len()) == needle
}

fn lower_chars(s: &str) -> (r: Vec<char>)
    ensures
        r@ == s@.map_values(|c: char| ascii_lower(c)),
{
    let chars = chars_of(s);
    let mut out: Vec<char> = Vec::new();
    let mut i: usize = 0;
    while i < chars.len()
        invariant
            i <= chars@.len(),
            chars@ == s@,
            out@ == chars@.subrange(0, i as int).map_values(|c: char| ascii_lower(c)),
        decreases chars@.len() - i,
    {
        let c = chars[i];
        let l = if 'A' <= c && c <= 'Z' {
            let n = (c as u32) + 32;
            assert(n < 0xD800);
            char_from_u32_ascii(n)
        } else {
            c
        };
        out.push(l);
        assert(chars@.subrange(0, (i + 1) as int).map_values(|c: char| ascii_lower(c)) == chars@.subrange(
            0,
            i as int,
        ).map_values(|c: char| ascii_lower(c)).push(ascii_lower(c)));
        i = i + 1;
    }
    assert(chars@.subrange(0, i as int) == chars@);
    out
}

/// The character with the given ASCII code.
fn char_from_u32_ascii(n: u32) -> (c: char)
    requires
        0x61 <= n <= 0x7A,
    ensures
        c == n as char,
{
    let table: Vec<char> = vec!['a', 'b', 'c', 'd', 'e', 'f', 'g', 'h', 'i', 'j', 'k', 'l', 'm', 'n', 'o', 'p', 'q', 'r', 's', 't', 'u', 'v', 'w', 'x', 'y', 'z'];
    let c = table[(n - 0x61) as usize];
    assert(c as u32 == n) by {
        assert(table@[(n - 0x61) as int] as u32 == n);
    }
    c
}

/// Whether `needle` occurs in `hay`.
fn occurs_in(hay: &Vec<char>, needle: &Vec<char>) -> (r: bool)
    ensures
        r == occurs(hay@, needle@),
{
    if needle.len() > hay.len() {
        return false;
    }
    let n = hay.len();
    let last = n - needle.len();
    let mut i: usize = 0;
    loop
        invariant
            n == hay@.len(),
            i <= last,
            last == hay@.len() - needle@.len(),
            needle@.len() <= hay@.len(),
            forall|k: int| 0 <= k < i ==> #[trigger] hay@.subrange(k, k + needle@.len()) != needle@,
        decreases last - i,
    {
        let mut j: usize = 0;
        let mut matched = true;
        while j < needle.len()
            invariant
                n == hay@.len(),
                j <= needle@.len(),
                i <= last,
                last == hay@.len() - needle@.len(),
                needle@.len() <= hay@.len(),
                matched ==> forall|m: int| 0 <= m < j ==> hay@[i + m] == needle@[m],
                !matched ==> hay@.subrange(i as int, i + needle@.len()) != needle@,
            decreases needle@.len() - j,
        {
            assert(i + j < hay@.len());
            if hay[i + j] != needle[j] {
                if matched {
                    assert(hay@.subrange(i as int, i + needle@.len())[j as int] != needle@[j as int]);
                }
                matched = false;
            }
            j = j + 1;
        }
        if matched {
            assert(hay@.subrange(i as int, i + needle@.len()) =~= needle@);
            return true;
        }
        if i == last {
            return false;
        }
        i = i + 1;
    }
}

/// The tool-call markers that model output must not carry.
pub open spec fn tool_shaped(lower: Seq<char>) -> bool {
    occurs(lower, seq!['"', 't', 'o', 'o', 'l', '"']) || occurs(
        lower,
        seq!['f', 'u', 'n', 'c', 't', 'i', 'o', 'n', '_', 'c', 'a', 'l', 'l'],
    ) || occurs(lower, seq!['<', 't', 'o', 'o', 'l', '_', 'c', 'a', 'l', 'l'])
}

/// Text within `[min, max]` trimmed characters and free of control characters.
pub open spec fn text_ok(s: Seq<char>, min: nat, max: nat) -> bool {
    min <= trimmed(s).len() <= max && !has_control(s)
}

/// Checks a candidate intervention from the model: bounded texts, a
/// confidence in basis points, and no tool-shaped output.
pub fn validate_candidate(text: &str, reason: &str, evidence: &str, confidence: u16) -> (r: Result<(), SecondMindError>)
    ensures
        !text_ok(text@, 1, 512) ==> fails_plain(r, SecondMindErrorCode::InvalidArgument, "Candidate intervention text is invalid.", false),
        text_ok(text@, 1, 512) && !text_ok(reason@, 1, 80) ==> fails_plain(r, SecondMindErrorCode::InvalidArgument, "Candidate reason code is invalid.", false),
        text_ok(text@, 1, 512) && text_ok(reason@, 1, 80) && !text_ok(evidence@, 1, 240) ==> fails_plain(r, SecondMindErrorCode::InvalidArgument, "Candidate evidence summary is invalid.", false),
        text_ok(text@, 1, 512) && text_ok(reason@, 1, 80) && text_ok(evidence@, 1, 240) ==> (r is Ok <==> (
            confidence <= 10_000 && !tool_shaped(text@.map_values(|c: char| ascii_lower(c))))),
        text_ok(text@, 1, 512) && text_ok(reason@, 1, 80) && text_ok(evidence@, 1, 240) && r is Err ==> fails_plain(r, SecondMindErrorCode::PermissionDenied, "Tool-shaped or invalid model output was rejected.", false),
{
    validate_text(text, 1, 512, "Candidate intervention text is invalid.")?;
    validate_text(reason, 1, 80, "Candidate reason code is invalid.")?;
    validate_text(evidence, 1, 240, "Candidate evidence summary is invalid.")?;
    let lower = lower_chars(text);
    let tool: Vec<char> = vec!['"', 't', 'o', 'o', 'l', '"'];
    let call: Vec<char> = vec!['f', 'u', 'n', 'c', 't', 'i', 'o', 'n', '_', 'c', 'a', 'l', 'l'];
    let tag: Vec<char> = vec!['<', 't', 'o', 'o', 'l', '_', 'c', 'a', 'l', 'l'];
    assert(tool@ == seq!['"', 't', 'o', 'o', 'l', '"']);
    assert(call@ == seq!['f', 'u', 'n', 'c', 't', 'i', 'o', 'n', '_', 'c', 'a', 'l', 'l']);
    assert(tag@ == seq!['<', 't', 'o', 'o', 'l', '_', 'c', 'a', 'l', 'l']);
    if confidence > 10_000 || occurs_in(&lower, &tool) || occurs_in(&lower, &call) || occurs_in(&lower, &tag) {
        return Err(SecondMindError::permission("Tool-shaped or invalid model output was rejected."));
    }
    Ok(())
}

/// The data category that a permission scope produces.
pub open spec fn spec_category_for_scope(scope: PermissionScope) -> DataCategory {
    match scope {
        PermissionScope::ObserveDesktopPresence | PermissionScope::ObserveDesktopForegroundApplication => DataCategory::EvidenceAggregates,
        PermissionScope::ObserveDesktopWindowMetadata => DataCategory::WindowMetadata,
        PermissionScope::ObserveBrowserLocation => DataCategory::BrowserLocation,
        PermissionScope::ObserveContentVisibleText => DataCategory::VisibleText,
        PermissionScope::ObserveContentSelectedDocument => DataCategory::SelectedDocument,
        PermissionScope::ObserveScreenPixels => DataCategory::ScreenPixels,
        PermissionScope::ObserveWorkspaceActivity => DataCategory::WorkspaceActivity,
        PermissionScope::ReasonFocusContext => DataCategory::Goal,
        PermissionScope::InterveneDesktopNotification => DataCategory::DeliveryConstraints,
    }
}

/// The data category that a permission scope produces.
pub fn category_for_scope(scope: PermissionScope) -> (c: DataCategory)
    ensures
        c == spec_category_for_scope(scope),
{
    match scope {
        PermissionScope::ObserveDesktopPresence | PermissionScope::ObserveDesktopForegroundApplication => DataCategory::EvidenceAggregates,
        PermissionScope::ObserveDesktopWindowMetadata => DataCategory::WindowMetadata,
        PermissionScope::ObserveBrowserLocation => DataCategory::BrowserLocation,
        PermissionScope::ObserveContentVisibleText => DataCategory::VisibleText,
        PermissionScope::ObserveContentSelectedDocument => DataCategory::SelectedDocument,
        PermissionScope::ObserveScreenPixels => DataCategory::ScreenPixels,
        PermissionScope::ObserveWorkspaceActivity => DataCategory::WorkspaceActivity,
        PermissionScope::ReasonFocusContext => DataCategory::Goal,
        PermissionScope::InterveneDesktopNotification => DataCategory::DeliveryConstraints,
    }
}

/// The limits an observation adapter must respect for one scope. Durations
/// are in milliseconds.
#[derive(Clone, Copy, Debug, PartialEq, Eq, Structural)]
pub struct ObservationLimits {
    pub maximum_payload_bytes: usize,
    pub minimum_interval: u64,
    pub heartbeat_interval: u64,
    pub stale_after: u64,
}

/// The limits for `scope`: presence and the foreground application may
/// report every second, screen pixels every ten seconds and the rest every
/// five; browser locations carry at most 2 KiB.
pub fn observation_limits(config: &SecondMindConfig, scope: PermissionScope) -> (l: ObservationLimits)
    ensures
        l.minimum_interval == (match scope {
            PermissionScope::ObserveDesktopPresence | PermissionScope::ObserveDesktopForegroundApplication => 1000u64,
            PermissionScope::ObserveScreenPixels => 10_000u64,
            _ => 5000u64,
        }),
        l.maximum_payload_bytes == (if scope is ObserveBrowserLocation {
            2048
        } else {
            config.maximum_observation_bytes
        }),
        l.heartbeat_interval == 10_000,
        l.stale_after == config.source_freshness,
{
    let minimum_interval: u64 = match scope {
        PermissionScope::ObserveDesktopPresence | PermissionScope::ObserveDesktopForegroundApplication => 1000,
        PermissionScope::ObserveScreenPixels => 10_000,
        _ => 5000,
    };
    let maximum_payload_bytes = match scope {
        PermissionScope::ObserveBrowserLocation => 2048,
        _ => config.maximum_observation_bytes,
    };
    ObservationLimits {
        maximum_payload_bytes,
        minimum_interval,
        heartbeat_interval: 10_000,
        stale_after: config.source_freshness,
    }
}

/// The capture status CORE published to the native status surface.
#[derive(Clone, Copy, Debug, PartialEq, Eq, Structural)]
pub struct NativeStatusStamp {
    pub session_id: u128,
    pub revision: u64,
    pub published_at: i64,
    pub heartbeat_deadline: i64,
}

/// The native surface's acknowledgement of a published status.
#[derive(Clone, Copy, Debug, PartialEq, Eq, Structural)]
pub struct NativeStatusAcknowledgement {
    pub session_id: u128,
    pub revision: u64,
    pub acknowledged_at: i64,
    pub heartbeat_deadline: i64,
}

/// Whether an acknowledgement is for exactly the published status, arrived
/// within its heartbeat window, and does not shorten the deadline.
pub fn valid_status_acknowledgement(status: NativeStatusStamp, ack: NativeStatusAcknowledgement) -> (r: bool)
    ensures
        r == (ack.session_id == status.session_id && ack.revision == status.revision
            && status.published_at <= ack.acknowledged_at && ack.acknowledged_at <= status.heartbeat_deadline
            && ack.heartbeat_deadline >= status.heartbeat_deadline),
{
    ack.session_id == status.session_id && ack.revision == status.revision
        && ack.acknowledged_at >= status.published_at && ack.acknowledged_at <= status.heartbeat_deadline
        && ack.heartbeat_deadline >= status.heartbeat_deadline
}

/// What an observation source reports about itself.
#[derive(Clone, Debug, PartialEq, Eq)]
pub struct SourceStatusClaim {
    pub source_id: String,
    pub grant_id: u128,
    pub scope: PermissionScope,
    pub resource_id: Option<u128>,
}

/// Refuses a source status outside its grant: a blank source, or another
/// grant, scope or resource.
pub fn validate_source_status(grant: &PermissionGrant, status: &SourceStatusClaim) -> (r: Result<(), SecondMindError>)
    ensures
        r is Ok <==> (trimmed(status.source_id@).len() > 0 && status.grant_id == grant.id
            && status.scope == grant.scope && status.resource_id == grant.selected_resource_id),
        r is Err ==> fails_plain(r, SecondMindErrorCode::PermissionDenied, "The observation source status is outside its grant.", false),
{
    let (start, end) = crate::text::trimmed_bounds(status.source_id.as_str());
    if start == end || status.grant_id != grant.id || status.scope != grant.scope
        || status.resource_id != grant.selected_resource_id
    {
        return Err(SecondMindError::permission("The observation source status is outside its grant."));
    }
    Ok(())
}

/// A request to grant a session permission, as far as validation reads it.
#[derive(Clone, Debug, PartialEq, Eq)]
pub struct GrantPermission {
    pub idempotency: crate::runtime::IdempotencyContext,
    pub owner: u128,
    pub goal_id: u128,
    pub device_id: u128,
    pub scope: PermissionScope,
    pub selected_resource_id: Option<u128>,
    pub purpose: String,
    pub effective_at: i64,
    pub expires_at: i64,
    pub consent_copy_version: String,
    pub client_disconnect_allowed: bool,
    pub daemon_restart_allowed: bool,
}

/// Whether a grant request has bounded purpose and consent texts, an
/// effective time at most a minute in the past and before the expiry, and a
/// resource binding exactly when the scope needs one.
pub open spec fn spec_grant_input_valid(command: GrantPermission, now: i64) -> bool {
    text_ok(command.purpose@, 1, 240) && text_ok(command.consent_copy_version@, 1, 64)
        && command.effective_at >= now - 60_000 && command.expires_at > command.effective_at
        && command.scope.spec_needs_resource() == (command.selected_resource_id is Some)
}

/// Checks a grant request: bounded purpose and consent texts, an effective
/// time at most a minute in the past and before the expiry, and a resource
/// binding exactly when the scope needs one.
pub fn validate_grant_input(command: &GrantPermission, now: i64) -> (r: Result<(), SecondMindError>)
    ensures
        r is Ok <==> spec_grant_input_valid(*command, now),
        r matches Err(e) ==> e.code == SecondMindErrorCode::InvalidArgument,
{
    validate_text(command.purpose.as_str(), 1, 240, "Permission purpose is invalid.")?;
    validate_text(command.consent_copy_version.as_str(), 1, 64, "Consent copy version is invalid.")?;
    if (command.effective_at as i128) < now as i128 - 60_000 || command.expires_at <= command.effective_at {
        return Err(SecondMindError::invalid("Permission effective and expiry times are invalid."));
    }
    let needs_resource = match command.scope {
        PermissionScope::ObserveDesktopPresence | PermissionScope::ReasonFocusContext
        | PermissionScope::InterveneDesktopNotification => false,
        _ => true,
    };
    if needs_resource != command.selected_resource_id.is_some() {
        return Err(SecondMindError::invalid("The permission resource binding does not match its scope."));
    }
    Ok(())
}

/// Where a model runs.
#[derive(Clone, Copy, Debug, PartialEq, Eq, Structural)]
pub enum ModelPlacement {
    Local,
    Remote,
}

/// A user-approved model route, as far as validation reads it.
#[derive(Clone, Debug, PartialEq, Eq)]
pub struct ModelRouteApproval {
    pub id: u128,
    pub revision: u64,
    pub owner: u128,
    pub provider: String,
    pub model: String,
    pub secret_ref: String,
    pub purpose: String,
    pub placement: ModelPlacement,
    pub maximum_input_tokens: u32,
    pub maximum_output_tokens: u32,
    pub allowed_categories: Vec<DataCategory>,
    pub tools_enabled: bool,
    pub core_persists_prompt_or_response: bool,
    pub fallback_allowed: bool,
    pub fallback: Option<u128>,
    pub effective_at: i64,
    pub expires_at: Option<i64>,
    pub revoked_at: Option<i64>,
}

/// Two route approvals agree in every field, texts and categories by their
/// contents.
pub open spec fn same_route(a: ModelRouteApproval, b: ModelRouteApproval) -> bool {
    &&& a.id == b.id && a.revision == b.revision && a.owner == b.owner
    &&& a.provider@ == b.provider@ && a.model@ == b.model@ && a.secret_ref@ == b.secret_ref@
    &&& a.purpose@ == b.purpose@ && a.placement == b.placement
    &&& a.maximum_input_tokens == b.maximum_input_tokens && a.maximum_output_tokens == b.maximum_output_tokens
    &&& a.allowed_categories@ == b.allowed_categories@ && a.tools_enabled == b.tools_enabled
    &&& a.core_persists_prompt_or_response == b.core_persists_prompt_or_response
    &&& a.fallback_allowed == b.fallback_allowed && a.fallback == b.fallback
    &&& a.effective_at == b.effective_at && a.expires_at == b.expires_at && a.revoked_at == b.revoked_at
}

/// A copy of the categories.
pub fn copy_categories(v: &Vec<DataCategory>) -> (r: Vec<DataCategory>)
    ensures
        r@ == v@,
{
    let mut out: Vec<DataCategory> = Vec::new();
    let mut i: usize = 0;
    while i < v.len()
        invariant
            i <= v@.len(),
            out@ == v@.subrange(0, i as int),
        decreases v@.len() - i,
    {
        out.push(v[i]);
        assert(v@.subrange(0, (i + 1) as int) == v@.subrange(0, i as int).push(v@[i as int]));
        i = i + 1;
    }
    assert(v@.subrange(0, i as int) == v@);
    out
}

/// A copy of the route approval.
pub fn copy_route(r: &ModelRouteApproval) -> (c: ModelRouteApproval)
    ensures
        same_route(c, *r),
{
    ModelRouteApproval {
        id: r.id,
        revision: r.revision,
        owner: r.owner,
        provider: r.provider.clone(),
        model: r.model.clone(),
        secret_ref: r.secret_ref.clone(),
        purpose: r.purpose.clone(),
        placement: r.placement,
        maximum_input_tokens: r.maximum_input_tokens,
        maximum_output_tokens: r.maximum_output_tokens,
        allowed_categories: copy_categories(&r.allowed_categories),
        tools_enabled: r.tools_enabled,
        core_persists_prompt_or_response: r.core_persists_prompt_or_response,
        fallback_allowed: r.fallback_allowed,
        fallback: r.fallback,
        effective_at: r.effective_at,
        expires_at: r.expires_at,
        revoked_at: r.revoked_at,
    }
}

impl ModelRouteApproval {
    /// Whether the approval is in force at `now`: effective, unrevoked and
    /// unexpired.
    pub open spec fn spec_is_current_at(self, now: i64) -> bool {
        self.revoked_at is None && self.effective_at <= now && !(self.expires_at matches Some(e) && e <= now)
    }

    /// Whether the approval is in force at `now`.
    pub fn is_current_at(&self, now: i64) -> (r: bool)
        ensures
            r == self.spec_is_current_at(now),
    {
        let unexpired = match self.expires_at {
            Some(e) => now < e,
            None => true,
        };
        self.revoked_at.is_none() && self.effective_at <= now && unexpired
    }
}

/// The only purpose a model route may serve.
pub open spec fn focus_context_purpose() -> Seq<char> {
    seq!['r', 'e', 'a', 's', 'o', 'n', '.', 'f', 'o', 'c', 'u', 's', '_', 'c', 'o', 'n', 't', 'e', 'x', 't']
}

/// Whether a model route is safe to approve at `now`.
pub open spec fn spec_route_valid(route: ModelRouteApproval, now: i64) -> bool {
    &&& trimmed(route.provider@).len() > 0
    &&& trimmed(route.model@).len() > 0
    &&& trimmed(route.secret_ref@).len() > 0
    &&& route.purpose@ == focus_context_purpose()
    &&& 0 < route.maximum_input_tokens <= 8000
    &&& 0 < route.maximum_output_tokens <= 512
    &&& route.allowed_categories@.len() > 0
    &&& !route.tools_enabled
    &&& !route.core_persists_prompt_or_response
    &&& route.fallback_allowed == (route.fallback is Some)
    &&& !(route.expires_at matches Some(e) && e <= now)
}

/// Refuses an unsafe model route: blank provider, model or secret
/// reference, another purpose, unbounded tokens, no allowed category, tools,
/// persisted prompts, an inconsistent fallback, or an elapsed expiry.
pub fn validate_model_route(route: &ModelRouteApproval, now: i64) -> (r: Result<(), SecondMindError>)
    ensures
        r is Ok <==> spec_route_valid(*route, now),
        r is Err ==> fails_plain(r, SecondMindErrorCode::InvalidArgument, "The model route approval is invalid or unsafe.", false),
{
    let (ps, pe) = crate::text::trimmed_bounds(route.provider.as_str());
    let (ms, me) = crate::text::trimmed_bounds(route.model.as_str());
    let (ss, se) = crate::text::trimmed_bounds(route.secret_ref.as_str());
    let purpose = chars_of(route.purpose.as_str());
    let expected: Vec<char> = vec!['r', 'e', 'a', 's', 'o', 'n', '.', 'f', 'o', 'c', 'u', 's', '_', 'c', 'o', 'n', 't', 'e', 'x', 't'];
    assert(expected@ == focus_context_purpose());
    let expired = match route.expires_at {
        Some(e) => e <= now,
        None => false,
    };
    if ps == pe || ms == me || ss == se || !crate::text::same_chars(&purpose, &expected)
        || route.maximum_input_tokens == 0 || route.maximum_input_tokens > 8000
        || route.maximum_output_tokens == 0 || route.maximum_output_tokens > 512
        || route.allowed_categories.len() == 0 || route.tools_enabled
        || route.core_persists_prompt_or_response
        || route.fallback_allowed != route.fallback.is_some() || expired
    {
        return Err(SecondMindError::invalid("The model route approval is invalid or unsafe."));
    }
    Ok(())
}

/// Finds the grant `id` among an owner's grants.
pub fn find_grant(grants: &Vec<PermissionGrant>, id: u128) -> (r: Result<usize, SecondMindError>)
    ensures
        r matches Ok(i) ==> i < grants@.len() && grants@[i as int].id == id && forall|k: int| 0 <= k < i ==> grants@[k].id != id,
        r is Err <==> forall|k: int| 0 <= k < grants@.len() ==> grants@[k].id != id,
        r is Err ==> fails_plain(r, SecondMindErrorCode::NotFound, "The permission grant was not found.", false),
{
    let mut i: usize = 0;
    while i < grants.len()
        invariant
            i <= grants@.len(),
            forall|k: int| 0 <= k < i ==> grants@[k].id != id,
        decreases grants@.len() - i,
    {
        if grants[i].id == id {
            return Ok(i);
        }
        i = i + 1;
    }
    Err(SecondMindError::not_found("The permission grant was not found."))
}

/// Finds the focus session `id`.
pub fn find_session(sessions: &Vec<FocusSession>, id: u128) -> (r: Result<usize, SecondMindError>)
    ensures
        r matches Ok(i) ==> i < sessions@.len() && sessions@[i as int].id == id && forall|k: int| 0 <= k < i ==> sessions@[k].id != id,
        r is Err <==> forall|k: int| 0 <= k < sessions@.len() ==> sessions@[k].id != id,
        r is Err ==> fails_plain(r, SecondMindErrorCode::NotFound, "The focus session was not found.", false),
{
    let mut i: usize = 0;
    while i < sessions.len()
        invariant
            i <= sessions@.len(),
            forall|k: int| 0 <= k < i ==> sessions@[k].id != id,
        decreases sessions@.len() - i,
    {
        if sessions[i].id == id {
            return Ok(i);
        }
        i = i + 1;
    }
    Err(SecondMindError::not_found("The focus session was not found."))
}

/// Finds the focus session `id` and refuses it, as not found, when another
/// actor owns it.
pub fn find_owned_session(sessions: &Vec<FocusSession>, owner: u128, id: u128) -> (r: Result<usize, SecondMindError>)
    ensures
        r matches Ok(i) ==> i < sessions@.len() && sessions@[i as int].id == id && sessions@[i as int].owner == owner
            && forall|m: int| 0 <= m < i ==> sessions@[m].id != id,
        r is Ok <==> exists|k: int| 0 <= k < sessions@.len() && sessions@[k].id == id && (forall|m: int| 0 <= m < k ==> sessions@[m].id != id) && sessions@[k].owner == owner,
        r is Err ==> fails_plain(r, SecondMindErrorCode::NotFound, "The focus session was not found.", false),
{
    let i = find_session(sessions, id)?;
    if sessions[i].owner != owner {
        proof {
            assert forall|k: int| 0 <= k < sessions@.len() && sessions@[k].id == id && (forall|m: int| 0 <= m < k ==> sessions@[m].id != id) implies sessions@[k].owner != owner by {
                if k < i {
                } else if k > i {
                    assert(sessions@[i as int].id == id);
                }
            }
        }
        return Err(SecondMindError::not_found("The focus session was not found."));
    }
    Ok(i)
}

/// Whether grant `g` may serve the running session `session_id` at `now`.
pub open spec fn grant_serves_session(g: PermissionGrant, session_id: u128, now: i64) -> bool {
    g.focus_session_id == Some(session_id) && g.spec_is_current_at(now)
}

/// Whether grant `g` may serve the start of `session_id` for `goal_id` at
/// `now`: bound to the goal, not bound to another session, and current.
pub open spec fn grant_serves_start(g: PermissionGrant, goal_id: u128, session_id: u128, now: i64) -> bool {
    g.goal_id == goal_id && !(g.focus_session_id matches Some(b) && b != session_id) && g.spec_is_current_at(now)
}

/// The first grant with identifier `id`.
pub open spec fn first_grant(all: Seq<PermissionGrant>, id: u128) -> Option<int> {
    if exists|k: int| 0 <= k < all.len() && all[k].id == id {
        Some(choose|k: int| 0 <= k < all.len() && all[k].id == id && forall|m: int| 0 <= m < k ==> all[m].id != id)
    } else {
        None
    }
}

/// Whether the first grant with identifier `id` exists and serves the
/// running session `session_id` at `now`.
pub open spec fn resolvable(all: Seq<PermissionGrant>, id: u128, session_id: u128, now: i64) -> bool {
    exists|k: int|
        0 <= k < all.len() && all[k].id == id && (forall|m: int| 0 <= m < k ==> all[m].id != id)
            && grant_serves_session(all[k], session_id, now)
}

/// Resolves the referenced grants for a running session: every one must
/// exist, be bound to the session and be current, or the request is refused.
/// Returns the positions of the grants, in the order of `ids`.
pub fn resolve_grants(all: &Vec<PermissionGrant>, session_id: u128, ids: &Vec<u128>, now: i64) -> (r: Result<Vec<usize>, SecondMindError>)
    ensures
        r is Ok <==> forall|j: int| 0 <= j < ids@.len() ==> #[trigger] resolvable(all@, ids@[j], session_id, now),
        r matches Ok(v) ==> v@.len() == ids@.len() && forall|j: int|
            0 <= j < ids@.len() ==> #[trigger] v@[j] < all@.len() && all@[v@[j] as int].id == ids@[j]
                && grant_serves_session(all@[v@[j] as int], session_id, now),
        r matches Err(e) ==> e.code == SecondMindErrorCode::PermissionDenied,
{
    let mut out: Vec<usize> = Vec::new();
    let mut j: usize = 0;
    while j < ids.len()
        invariant
            j <= ids@.len(),
            out@.len() == j,
            forall|q: int|
                0 <= q < j ==> #[trigger] out@[q] < all@.len() && all@[out@[q] as int].id == ids@[q]
                    && grant_serves_session(all@[out@[q] as int], session_id, now),
            forall|q: int| 0 <= q < j ==> #[trigger] resolvable(all@, ids@[q], session_id, now),
        decreases ids@.len() - j,
    {
        let id = ids[j];
        let k = match find_grant(all, id) {
            Ok(k) => k,
            Err(_) => {
                assert(!resolvable(all@, ids@[j as int], session_id, now));
                return Err(SecondMindError::permission("A referenced permission is missing."));
            },
        };
        if all[k].focus_session_id != Some(session_id) || !all[k].is_current_at(now) {
            proof {
                if resolvable(all@, ids@[j as int], session_id, now) {
                    let k2 = choose|k2: int|
                        0 <= k2 < all@.len() && all@[k2].id == id && (forall|m: int| 0 <= m < k2 ==> all@[m].id != id)
                            && grant_serves_session(all@[k2], session_id, now);
                    if k2 < k {
                    } else if k2 > k {
                        assert(all@[k as int].id == id);
                    }
                }
            }
            return Err(SecondMindError::permission("A referenced permission is not current for this session."));
        }
        assert(resolvable(all@, ids@[j as int], session_id, now));
        let ghost before = out@;
        out.push(k);
        assert forall|q: int|
            0 <= q < j + 1 implies #[trigger] out@[q] < all@.len() && all@[out@[q] as int].id == ids@[q]
                && grant_serves_session(all@[out@[q] as int], session_id, now) by {
            if q < j {
                assert(out@[q] == before[q]);
            }
        }
        j = j + 1;
    }
    Ok(out)
}

} // verus!
