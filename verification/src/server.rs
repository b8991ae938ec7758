//! Server-side session admission: configuration, handshake validation,
//! request admission, cancellation and event continuity.

use vstd::prelude::*;
use crate::admission::{ClientAssurance, RequestKind, SessionAdmission, request_allowed, spec_request_allowed};
use crate::codec::MAX_FRAME_BYTES;
use crate::protocol::{CapabilityId, ProtocolSupport, ProtocolVersion, spec_version_at_least, version_at_least};
use crate::text::{chars_of, is_white_space, trimmed};

verus! {

/// Limits of the local protocol server. Durations are in milliseconds.
#[derive(Clone, Debug, PartialEq, Eq)]
pub struct ServerConfig {
    pub maximum_connections: usize,
    pub maximum_in_flight_per_connection: usize,
    pub maximum_requests_per_window: usize,
    pub request_rate_window: u64,
    pub handshake_timeout: u64,
    pub idle_timeout: u64,
    pub shutdown_grace: u64,
}

impl ServerConfig {
    /// The default server limits.
    pub open spec fn spec_default() -> ServerConfig {
        ServerConfig {
            maximum_connections: 8,
            maximum_in_flight_per_connection: 16,
            maximum_requests_per_window: 120,
            request_rate_window: 10_000,
            handshake_timeout: 5_000,
            idle_timeout: 300_000,
            shutdown_grace: 1_000,
        }
    }
}

impl Default for ServerConfig {
    fn default() -> (c: Self)
        ensures
            c == ServerConfig::spec_default(),
    {
        ServerConfig {
            maximum_connections: 8,
            maximum_in_flight_per_connection: 16,
            maximum_requests_per_window: 120,
            request_rate_window: 10_000,
            handshake_timeout: 5_000,
            idle_timeout: 300_000,
            shutdown_grace: 1_000,
        }
    }
}

/// Why the server could not start or run.
#[derive(Clone, Debug, PartialEq, Eq)]
pub enum ServerError {
    /// The protected local pipe could not be created or accepted.
    Transport(String),
    /// The configuration is invalid.
    InvalidConfig(&'static str),
    /// The production private broker identity is invalid.
    InvalidPrivateIdentity,
}

/// What validating a server configuration yields: the first violated bound.
pub open spec fn spec_validate_config(c: ServerConfig) -> Result<(), &'static str> {
    if c.maximum_connections == 0 {
        Err("maximum_connections must be positive")
    } else if c.maximum_in_flight_per_connection == 0 {
        Err("maximum_in_flight_per_connection must be positive")
    } else if c.maximum_requests_per_window == 0 {
        Err("maximum_requests_per_window must be positive")
    } else if c.handshake_timeout == 0 {
        Err("handshake_timeout must be positive")
    } else {
        Ok(())
    }
}

/// Refuses a configuration with a zero limit or a zero handshake deadline.
pub fn validate_config(config: &ServerConfig) -> (r: Result<(), ServerError>)
    ensures
        match spec_validate_config(*config) {
            Ok(()) => r is Ok,
            Err(m) => r == Err::<(), ServerError>(ServerError::InvalidConfig(m)),
        },
{
    if config.maximum_connections == 0 {
        return Err(ServerError::InvalidConfig("maximum_connections must be positive"));
    }
    if config.maximum_in_flight_per_connection == 0 {
        return Err(ServerError::InvalidConfig("maximum_in_flight_per_connection must be positive"));
    }
    if config.maximum_requests_per_window == 0 {
        return Err(ServerError::InvalidConfig("maximum_requests_per_window must be positive"));
    }
    if config.handshake_timeout == 0 {
        return Err(ServerError::InvalidConfig("handshake_timeout must be positive"));
    }
    Ok(())
}

/// The default server limits pass validation.
pub proof fn law_default_server_config_is_valid()
    ensures
        spec_validate_config(ServerConfig::spec_default()) is Ok,
{
}

/// The client's opening handshake.
#[derive(Clone, Debug, PartialEq, Eq)]
pub struct ClientHello {
    pub client_instance_id: u128,
    pub client_name: String,
    pub client_build_id: String,
    pub protocol_support: ProtocolSupport,
    pub max_frame_bytes: u32,
    pub capabilities: Vec<CapabilityId>,
}

/// Text that is non-blank and at most 100 characters long.
pub open spec fn bounded_label(s: Seq<char>) -> bool {
    trimmed(s).len() > 0 && s.len() <= 100
}

/// Whether the list repeats an element.
pub open spec fn has_duplicate(s: Seq<CapabilityId>) -> bool {
    exists|i: int, j: int| 0 <= i < j < s.len() && s[i] == s[j]
}

/// What validating a hello yields: the first violated rule.
pub open spec fn spec_validate_client_hello(h: ClientHello) -> Result<(), &'static str> {
    if h.client_instance_id == 0 {
        Err("The client instance identifier must not be nil.")
    } else if !bounded_label(h.client_name@) {
        Err("The client name must contain between 1 and 100 characters.")
    } else if !bounded_label(h.client_build_id@) {
        Err("The client build identifier must contain between 1 and 100 characters.")
    } else if h.protocol_support.minimum_minor > h.protocol_support.maximum_minor {
        Err("The client protocol minor-version range is invalid.")
    } else if h.max_frame_bytes < MAX_FRAME_BYTES {
        Err("The client frame-size limit is below CORE's required protocol limit.")
    } else if has_duplicate(h.capabilities@) {
        Err("The client capability list contains a duplicate.")
    } else {
        Ok(())
    }
}

/// Whether `s` is non-blank and at most 100 characters long.
fn is_bounded_label(s: &String) -> (r: bool)
    ensures
        r == bounded_label(s@),
{
    let chars = chars_of(s.as_str());
    if chars.len() > 100 {
        return false;
    }
    let mut i: usize = 0;
    while i < chars.len()
        invariant
            i <= chars@.len() <= 100,
            chars@ == s@,
            forall|k: int| 0 <= k < i ==> is_white_space(#[trigger] chars@[k]),
        decreases chars@.len() - i,
    {
        if !crate::text::char_is_white_space(chars[i]) {
            proof {
                crate::text::lemma_trimmed_nonempty_with_visible(s@, i as int);
            }
            return true;
        }
        i = i + 1;
    }
    proof {
        crate::text::lemma_trimmed_empty_when_all_white(s@);
    }
    false
}

/// Whether the capability list repeats an element.
fn capabilities_repeat(capabilities: &Vec<CapabilityId>) -> (r: bool)
    ensures
        r == has_duplicate(capabilities@),
{
    let n = capabilities.len();
    let mut j: usize = 0;
    while j < n
        invariant
            j <= n == capabilities@.len(),
            forall|a: int, b: int| 0 <= a < b < j ==> capabilities@[a] != capabilities@[b],
        decreases n - j,
    {
        let mut i: usize = 0;
        while i < j
            invariant
                i <= j < n == capabilities@.len(),
                forall|a: int| 0 <= a < i ==> capabilities@[a] != capabilities@[j as int],
            decreases j - i,
        {
            if capabilities[i] == capabilities[j] {
                return true;
            }
            i = i + 1;
        }
        j = j + 1;
    }
    false
}

/// Checks a client hello: a non-nil instance, bounded names, a well-formed
/// version range, a sufficient frame limit and no repeated capability.
pub fn validate_client_hello(hello: &ClientHello) -> (r: Result<(), &'static str>)
    ensures
        r == spec_validate_client_hello(*hello),
{
    if hello.client_instance_id == 0 {
        return Err("The client instance identifier must not be nil.");
    }
    if !is_bounded_label(&hello.client_name) {
        return Err("The client name must contain between 1 and 100 characters.");
    }
    if !is_bounded_label(&hello.client_build_id) {
        return Err("The client build identifier must contain between 1 and 100 characters.");
    }
    if hello.protocol_support.minimum_minor > hello.protocol_support.maximum_minor {
        return Err("The client protocol minor-version range is invalid.");
    }
    if (hello.max_frame_bytes as usize) < MAX_FRAME_BYTES {
        return Err("The client frame-size limit is below CORE's required protocol limit.");
    }
    if capabilities_repeat(&hello.capabilities) {
        return Err("The client capability list contains a duplicate.");
    }
    Ok(())
}

/// The data-protection class of a message.
#[derive(Clone, Copy, Debug, PartialEq, Eq, Structural)]
pub enum SensitivityClass {
    Operational,
    Personal,
    Sensitive,
    Restricted,
}

/// How long a message's content may be kept.
#[derive(Clone, Copy, Debug, PartialEq, Eq, Structural)]
pub enum RetentionClass {
    Runtime,
    DurableUntilExpiry,
    BoundedAudit,
}

/// Why a request was refused before dispatch.
#[derive(Clone, Copy, Debug, PartialEq, Eq, Structural)]
pub enum AdmissionRejection {
    /// The request needs a newer negotiated protocol version.
    IncompatibleProtocol,
    /// The connection is not admitted for the request.
    PermissionDenied,
    /// The request's metadata classification is wrong.
    InvalidClassification,
}

/// The wire sensitivity a request of `kind` must carry: protocol 1.0 keeps
/// the snapshot request `Personal`, otherwise the kind's own class applies.
pub open spec fn spec_request_sensitivity(kind: RequestKind, kind_sensitivity: SensitivityClass, negotiated: ProtocolVersion) -> SensitivityClass {
    if kind is GetSnapshot && negotiated.major == 1 && negotiated.minor == 0 {
        SensitivityClass::Personal
    } else {
        kind_sensitivity
    }
}

/// The wire sensitivity a request of `kind` must carry, given the class
/// that the protocol assigns to the kind.
pub fn request_sensitivity(kind: RequestKind, kind_sensitivity: SensitivityClass, negotiated: ProtocolVersion) -> (s: SensitivityClass)
    ensures
        s == spec_request_sensitivity(kind, kind_sensitivity, negotiated),
{
    match kind {
        RequestKind::GetSnapshot => {
            if negotiated.major == 1 && negotiated.minor == 0 {
                SensitivityClass::Personal
            } else {
                kind_sensitivity
            }
        },
        _ => kind_sensitivity,
    }
}

/// The admission of a request before dispatch: its minimum version first,
/// then the connection's assurance, then its sensitivity and retention
/// classification.
pub open spec fn spec_request_admission(
    kind: RequestKind,
    required: ProtocolVersion,
    negotiated: ProtocolVersion,
    assurance: ClientAssurance,
    kind_sensitivity: SensitivityClass,
    declared_sensitivity: SensitivityClass,
    retention_matches: bool,
) -> Result<(), AdmissionRejection> {
    if !spec_version_at_least(negotiated, required) {
        Err(AdmissionRejection::IncompatibleProtocol)
    } else if !spec_request_allowed(assurance, kind) {
        Err(AdmissionRejection::PermissionDenied)
    } else if !(declared_sensitivity == spec_request_sensitivity(kind, kind_sensitivity, negotiated) && retention_matches) {
        Err(AdmissionRejection::InvalidClassification)
    } else {
        Ok(())
    }
}

/// Admits a request before dispatch: its minimum version first, then the
/// connection's assurance, then its sensitivity and retention classification.
pub fn validate_request_admission(
    kind: RequestKind,
    required: ProtocolVersion,
    negotiated: ProtocolVersion,
    assurance: ClientAssurance,
    kind_sensitivity: SensitivityClass,
    declared_sensitivity: SensitivityClass,
    retention_matches: bool,
) -> (r: Result<(), AdmissionRejection>)
    ensures
        !spec_version_at_least(negotiated, required) ==> r == Err::<(), AdmissionRejection>(
            AdmissionRejection::IncompatibleProtocol,
        ),
        spec_version_at_least(negotiated, required) && !spec_request_allowed(assurance, kind) ==> r
            == Err::<(), AdmissionRejection>(AdmissionRejection::PermissionDenied),
        spec_version_at_least(negotiated, required) && spec_request_allowed(assurance, kind) ==> r == (if (
        declared_sensitivity == spec_request_sensitivity(kind, kind_sensitivity, negotiated) && retention_matches) {
            Ok::<(), AdmissionRejection>(())
        } else {
            Err::<(), AdmissionRejection>(AdmissionRejection::InvalidClassification)
        }),
        r == spec_request_admission(
            kind,
            required,
            negotiated,
            assurance,
            kind_sensitivity,
            declared_sensitivity,
            retention_matches,
        ),
{
    if !version_at_least(negotiated, required) {
        return Err(AdmissionRejection::IncompatibleProtocol);
    }
    if !request_allowed(assurance, kind) {
        return Err(AdmissionRejection::PermissionDenied);
    }
    if declared_sensitivity != request_sensitivity(kind, kind_sensitivity, negotiated) || !retention_matches {
        return Err(AdmissionRejection::InvalidClassification);
    }
    Ok(())
}

/// A protocol session open on a connection: the assurance that the
/// transport admitted the connection with, and the negotiated version.
#[derive(Clone, Copy, Debug, PartialEq, Eq, Structural)]
pub struct ConnectionSession {
    pub assurance: ClientAssurance,
    pub negotiated: ProtocolVersion,
}

/// Why a connection ends with a fatal frame.
#[derive(Clone, Copy, Debug, PartialEq, Eq, Structural)]
pub enum FatalReason {
    HandshakeRequired,
    IncompatibleProtocol,
    AuthenticationFailed,
}

/// The assurance an admission grants.
pub open spec fn admitted_assurance(admission: SessionAdmission) -> ClientAssurance {
    match admission {
        SessionAdmission::Diagnostic => ClientAssurance::Diagnostic,
        _ => ClientAssurance::PrivateCapabilityBound,
    }
}

/// The session a handshake opens: a valid hello whose version range meets
/// CORE's (`negotiated`, from the protocol's negotiation) opens a session
/// under the transport's admission, which no hello field can change.
pub open spec fn spec_open_protocol_session(
    admission: SessionAdmission,
    hello: ClientHello,
    negotiated: Option<ProtocolVersion>,
) -> Result<ConnectionSession, FatalReason> {
    if spec_validate_client_hello(hello) is Err {
        Err(FatalReason::HandshakeRequired)
    } else {
        match negotiated {
            None => Err(FatalReason::IncompatibleProtocol),
            Some(v) => Ok(ConnectionSession { assurance: admitted_assurance(admission), negotiated: v }),
        }
    }
}

/// Opens a protocol session from the client's hello.
pub fn open_protocol_session(
    admission: SessionAdmission,
    hello: &ClientHello,
    negotiated: Option<ProtocolVersion>,
) -> (r: Result<ConnectionSession, FatalReason>)
    ensures
        r == spec_open_protocol_session(admission, *hello, negotiated),
{
    if validate_client_hello(hello).is_err() {
        return Err(FatalReason::HandshakeRequired);
    }
    match negotiated {
        None => Err(FatalReason::IncompatibleProtocol),
        Some(v) => Ok(ConnectionSession { assurance: admission.assurance(), negotiated: v }),
    }
}

/// A frame the client sends once its session is open, as far as the
/// connection reads it.
#[derive(Clone, Copy, Debug, PartialEq, Eq, Structural)]
pub enum SessionFrame {
    Request {
        kind: RequestKind,
        required: ProtocolVersion,
        kind_sensitivity: SensitivityClass,
        declared_sensitivity: SensitivityClass,
        retention_matches: bool,
    },
    Cancel,
    OpenSession,
}

/// What the connection does with one frame.
#[derive(Clone, Copy, Debug, PartialEq, Eq, Structural)]
pub enum FrameAction {
    /// Dispatch the request to CORE under this assurance.
    Dispatch(ClientAssurance),
    /// Answer the request with this refusal; the session stays open.
    Refuse(AdmissionRejection),
    /// Acknowledge the cancellation.
    AcknowledgeCancel,
    /// Send one fatal frame and end the session.
    Fatal(FatalReason),
}

/// The connection's answer to one frame: a request goes through admission
/// and is dispatched under the session's own assurance; only a private
/// session may cancel, any other cancel ends the session; a second hello
/// ends it too.
pub open spec fn spec_session_step(session: ConnectionSession, frame: SessionFrame) -> FrameAction {
    match frame {
        SessionFrame::Request { kind, required, kind_sensitivity, declared_sensitivity, retention_matches } => {
            match spec_request_admission(
                kind,
                required,
                session.negotiated,
                session.assurance,
                kind_sensitivity,
                declared_sensitivity,
                retention_matches,
            ) {
                Ok(_) => FrameAction::Dispatch(session.assurance),
                Err(e) => FrameAction::Refuse(e),
            }
        },
        SessionFrame::Cancel => if session.assurance is PrivateCapabilityBound {
            FrameAction::AcknowledgeCancel
        } else {
            FrameAction::Fatal(FatalReason::AuthenticationFailed)
        },
        SessionFrame::OpenSession => FrameAction::Fatal(FatalReason::HandshakeRequired),
    }
}

/// Decides what the connection does with one frame.
pub fn session_step(session: ConnectionSession, frame: SessionFrame) -> (r: FrameAction)
    ensures
        r == spec_session_step(session, frame),
{
    match frame {
        SessionFrame::Request { kind, required, kind_sensitivity, declared_sensitivity, retention_matches } => {
            match validate_request_admission(
                kind,
                required,
                session.negotiated,
                session.assurance,
                kind_sensitivity,
                declared_sensitivity,
                retention_matches,
            ) {
                Ok(_) => FrameAction::Dispatch(session.assurance),
                Err(e) => FrameAction::Refuse(e),
            }
        },
        SessionFrame::Cancel => match session.assurance {
            ClientAssurance::PrivateCapabilityBound => FrameAction::AcknowledgeCancel,
            _ => FrameAction::Fatal(FatalReason::AuthenticationFailed),
        },
        SessionFrame::OpenSession => FrameAction::Fatal(FatalReason::HandshakeRequired),
    }
}

/// Authority is a property of the connection, not of the hello: whatever
/// hello a client sends, an opened session carries the transport's
/// admission, every request is dispatched under exactly that assurance and
/// only when it allows the request, and a cancel from a session that is not
/// private ends it with an authentication failure.
pub proof fn law_hello_never_changes_admission(
    admission: SessionAdmission,
    hello: ClientHello,
    negotiated: Option<ProtocolVersion>,
    frame: SessionFrame,
)
    ensures
        spec_open_protocol_session(admission, hello, negotiated) matches Ok(s) ==> s.assurance == admitted_assurance(
            admission,
        ),
        spec_open_protocol_session(admission, hello, negotiated) matches Ok(s) ==> (spec_session_step(s, frame) matches FrameAction::Dispatch(a)
            ==> a == admitted_assurance(admission) && (frame matches SessionFrame::Request { kind, .. }
            && spec_request_allowed(a, kind))),
        spec_open_protocol_session(admission, hello, negotiated) matches Ok(s) ==> (admission is Diagnostic && frame
            is Cancel ==> spec_session_step(s, frame) == FrameAction::Fatal(FatalReason::AuthenticationFailed)),
{
}

/// Why an admitted request was refused before it was dispatched.
#[derive(Clone, Copy, Debug, PartialEq, Eq, Structural)]
pub enum DispatchRejection {
    /// The connection exceeded its request-rate limit.
    RateLimited,
    /// A request with the same identifier is already in flight.
    DuplicateRequest,
    /// The connection already has its maximum of requests in flight.
    TooManyInFlight,
}

impl DispatchRejection {
    /// The public summary of the rejection.
    pub fn summary(self) -> (s: &'static str)
        ensures
            s == match self {
                DispatchRejection::RateLimited => "The connection exceeded its request-rate limit.",
                DispatchRejection::DuplicateRequest => "The request identifier is already in flight.",
                DispatchRejection::TooManyInFlight => "Too many requests are already in flight.",
            },
    {
        match self {
            DispatchRejection::RateLimited => "The connection exceeded its request-rate limit.",
            DispatchRejection::DuplicateRequest => "The request identifier is already in flight.",
            DispatchRejection::TooManyInFlight => "Too many requests are already in flight.",
        }
    }
}

/// The request instants still inside the rate window at `now`: the oldest
/// are dropped while more than `window` has passed since them.
pub open spec fn drop_stale(times: Seq<u64>, now: u64, window: u64) -> Seq<u64>
    decreases times.len(),
{
    if times.len() > 0 && now - times[0] > window {
        drop_stale(times.drop_first(), now, window)
    } else {
        times
    }
}

/// Whether a request with identifier `request_id` is in flight.
pub open spec fn in_flight_has(in_flight: Seq<InFlightRequest>, request_id: u128) -> bool {
    exists|k: int| 0 <= k < in_flight.len() && (#[trigger] in_flight[k]).request_id == request_id
}

/// Decides whether an admitted request may be dispatched at the monotonic
/// instant `now`: the rate window is pruned; a full window refuses the
/// request without recording it; otherwise its instant is recorded, and it
/// is still refused when its identifier is already in flight or the
/// connection's in-flight capacity is used up.
pub fn gate_request(
    times: &mut Vec<u64>,
    now: u64,
    window: u64,
    maximum_per_window: usize,
    request_id: u128,
    in_flight: &Vec<InFlightRequest>,
    maximum_in_flight: usize,
) -> (r: Result<(), DispatchRejection>)
    ensures
        ({
            let kept = drop_stale(old(times)@, now, window);
            if kept.len() >= maximum_per_window {
                r == Err::<(), DispatchRejection>(DispatchRejection::RateLimited) && final(times)@ == kept
            } else {
                &&& final(times)@ == kept.push(now)
                &&& r == if in_flight_has(in_flight@, request_id) {
                    Err::<(), DispatchRejection>(DispatchRejection::DuplicateRequest)
                } else if in_flight@.len() >= maximum_in_flight {
                    Err::<(), DispatchRejection>(DispatchRejection::TooManyInFlight)
                } else {
                    Ok::<(), DispatchRejection>(())
                }
            }
        }),
{
    let ghost original = times@;
    while times.len() > 0 && now.saturating_sub(times[0]) > window
        invariant
            drop_stale(original, now, window) == drop_stale(times@, now, window),
        decreases times@.len(),
    {
        proof {
            assert(times@.drop_first() == times@.subrange(1, times@.len() as int));
        }
        times.remove(0);
    }
    if times.len() >= maximum_per_window {
        return Err(DispatchRejection::RateLimited);
    }
    times.push(now);
    let mut k: usize = 0;
    while k < in_flight.len()
        invariant
            k <= in_flight@.len(),
            original == old(times)@,
            drop_stale(original, now, window).len() < maximum_per_window,
            times@ == drop_stale(original, now, window).push(now),
            forall|m: int| 0 <= m < k ==> (#[trigger] in_flight@[m]).request_id != request_id,
        decreases in_flight@.len() - k,
    {
        if in_flight[k].request_id == request_id {
            assert(in_flight_has(in_flight@, request_id)) by {
                assert(in_flight@[k as int].request_id == request_id);
            }
            return Err(DispatchRejection::DuplicateRequest);
        }
        k = k + 1;
    }
    if in_flight.len() >= maximum_in_flight {
        return Err(DispatchRejection::TooManyInFlight);
    }
    Ok(())
}

proof fn lemma_drop_stale_shrinks(times: Seq<u64>, now: u64, window: u64)
    ensures
        drop_stale(times, now, window).len() <= times.len(),
    decreases times.len(),
{
    if times.len() > 0 && now - times[0] > window {
        lemma_drop_stale_shrinks(times.drop_first(), now, window);
    }
}

/// The rate window never holds more requests than the limit: whatever the
/// window held before, after a request is gated it holds at most the limit
/// or no more than it already did, and a recorded request is the newest.
pub proof fn law_rate_window_never_exceeds_its_limit(before: Seq<u64>, after: Seq<u64>, now: u64, window: u64, maximum_per_window: usize)
    requires
        ({
            let kept = drop_stale(before, now, window);
            if kept.len() >= maximum_per_window {
                after == kept
            } else {
                after == kept.push(now)
            }
        }),
    ensures
        after.len() <= before.len() || after.len() <= maximum_per_window,
        before.len() <= maximum_per_window ==> after.len() <= maximum_per_window,
        after.len() > drop_stale(before, now, window).len() ==> after.last() == now,
{
    lemma_drop_stale_shrinks(before, now, window);
}

/// What a request's handler answered, as far as committing a shutdown reads
/// it.
#[derive(Clone, Copy, Debug, PartialEq, Eq, Structural)]
pub enum HandlerOutcome {
    /// A shutdown response, which the daemon accepted or declined.
    Shutdown { accepted: bool },
    /// Any other response.
    OtherResponse,
    /// A public error.
    Rejected,
}

/// Whether answering the request commits the process to shutting down: only
/// a shutdown request whose handler accepted it does.
pub fn accepted_shutdown(kind: RequestKind, outcome: HandlerOutcome) -> (r: bool)
    ensures
        r == (kind is Shutdown && outcome == (HandlerOutcome::Shutdown { accepted: true })),
{
    match (kind, outcome) {
        (RequestKind::Shutdown, HandlerOutcome::Shutdown { accepted }) => accepted,
        _ => false,
    }
}

/// One request in flight on a connection.
#[derive(Clone, Copy, Debug, PartialEq, Eq, Structural)]
pub struct InFlightRequest {
    pub request_id: u128,
    pub cancellation_id: Option<u128>,
}

/// The outcome of a cancellation request.
#[derive(Clone, Copy, Debug, PartialEq, Eq, Structural)]
pub enum CancellationStatus {
    CancellationRequested,
    RequestNotFound,
}

/// In-flight requests are keyed by their request identifier.
pub open spec fn distinct_requests(in_flight: Seq<InFlightRequest>) -> bool {
    forall|i: int, j: int|
        0 <= i < j < in_flight.len() ==> in_flight[i].request_id != in_flight[j].request_id
}

/// Finds the in-flight request that a cancellation targets. A cancellation
/// takes effect only when its identifier is the one the request declared;
/// the returned index is the request whose token must be cancelled.
pub fn request_cancellation(in_flight: &Vec<InFlightRequest>, request_id: u128, cancellation_id: u128) -> (r: (
    CancellationStatus,
    Option<usize>,
))
    requires
        distinct_requests(in_flight@),
    ensures
        r.0 is CancellationRequested <==> exists|i: int|
            0 <= i < in_flight@.len() && #[trigger] in_flight@[i].request_id == request_id
                && in_flight@[i].cancellation_id == Some(cancellation_id),
        r.0 is CancellationRequested <==> r.1 is Some,
        r.1 matches Some(i) ==> i < in_flight@.len() && in_flight@[i as int].request_id == request_id,
{
    let mut i: usize = 0;
    while i < in_flight.len()
        invariant
            i <= in_flight@.len(),
            distinct_requests(in_flight@),
            forall|k: int| 0 <= k < i ==> #[trigger] in_flight@[k].request_id != request_id,
        decreases in_flight@.len() - i,
    {
        if in_flight[i].request_id == request_id {
            if in_flight[i].cancellation_id == Some(cancellation_id) {
                return (CancellationStatus::CancellationRequested, Some(i));
            } else {
                assert forall|k: int|
                    0 <= k < in_flight@.len() && #[trigger] in_flight@[k].request_id == request_id
                        implies in_flight@[k].cancellation_id != Some(cancellation_id) by {
                    if k != i {
                        assert(in_flight@[k].request_id != in_flight@[i as int].request_id);
                    }
                }
                return (CancellationStatus::RequestNotFound, None);
            }
        }
        i = i + 1;
    }
    (CancellationStatus::RequestNotFound, None)
}

/// A position in CORE's global event stream.
#[derive(Clone, Copy, Debug, PartialEq, Eq, Structural)]
pub struct EventCursor {
    pub daemon_instance_id: u128,
    pub sequence: u64,
}

/// Whether `observed` directly follows `expected` in the same daemon
/// instance; anything else is a gap that forces a reconnect.
pub open spec fn spec_event_follows(expected: EventCursor, observed: EventCursor) -> bool {
    observed.daemon_instance_id == expected.daemon_instance_id && observed.sequence == (if expected.sequence
        == u64::MAX {
        u64::MAX as int
    } else {
        expected.sequence + 1
    })
}

/// Whether an event at `observed` may be forwarded after `expected`.
pub fn event_follows(expected: EventCursor, observed: EventCursor) -> (r: bool)
    ensures
        r == spec_event_follows(expected, observed),
{
    observed.daemon_instance_id == expected.daemon_instance_id && observed.sequence
        == expected.sequence.saturating_add(1)
}

/// What the server's event loop does with one event of a subscription.
#[derive(Clone, Copy, Debug, PartialEq, Eq, Structural)]
pub enum EventForwarding {
    /// Forward the event and advance the expected cursor to it.
    Forward,
    /// Close the session with a gap so the client reconnects for a snapshot.
    CloseForGap,
}

/// Decides one event: it must follow the expected cursor and be expressible
/// in the negotiated protocol version, or the session closes for a gap.
pub fn forward_event(
    expected: EventCursor,
    observed: EventCursor,
    event_minimum: ProtocolVersion,
    negotiated: ProtocolVersion,
) -> (r: EventForwarding)
    ensures
        r is Forward <==> (spec_event_follows(expected, observed) && spec_version_at_least(
            negotiated,
            event_minimum,
        )),
{
    if !event_follows(expected, observed) {
        return EventForwarding::CloseForGap;
    }
    if !version_at_least(negotiated, event_minimum) {
        return EventForwarding::CloseForGap;
    }
    EventForwarding::Forward
}

/// Every forwarded stream is contiguous: each forwarded cursor is exactly one
/// past the previous one in the same daemon instance.
pub proof fn law_forwarded_events_are_contiguous(expected: EventCursor, observed: EventCursor)
    requires
        spec_event_follows(expected, observed),
        expected.sequence < u64::MAX,
    ensures
        observed.sequence == expected.sequence + 1,
        observed.daemon_instance_id == expected.daemon_instance_id,
{
}

} // verus!
