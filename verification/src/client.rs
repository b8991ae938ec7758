//! Client-side protocol state: handshake checks, request pre-checks, the
//! authoritative snapshot cache's ordering and event deduplication.

use vstd::prelude::*;
use crate::admission::{ClientAssurance, RequestKind, request_allowed, spec_request_allowed};
use crate::codec::MAX_FRAME_BYTES;
use crate::protocol::{
    ProtocolSupport, ProtocolVersion, protocol_support_is_implemented,
    spec_protocol_support_is_implemented, spec_version_at_least, version_at_least,
};
use crate::server::EventCursor;

verus! {

/// Why a client operation failed.
#[derive(Clone, Debug, PartialEq, Eq)]
pub enum ClientError {
    /// The local transport is unavailable.
    Transport(String),
    /// CORE closed the connection.
    Closed,
    /// The handshake failed.
    Handshake(String),
    /// The request timed out.
    Timeout,
    /// CORE refused the request.
    Request(String),
    /// CORE returned an unexpected response variant.
    UnexpectedResponse,
    /// The event stream requires an authoritative reconnect.
    EventGap,
    /// The request was cancelled.
    Cancelled,
    /// CORE did not confirm cancellation before the deadline.
    CancellationUnconfirmed,
    /// The request requires a private capability-bound session.
    PrivateCapabilityRequired,
    /// The private broker did not have current native admission.
    PrivateBrokerAdmission,
    /// The request needs a newer protocol than the session negotiated.
    UnsupportedProtocol { required: ProtocolVersion, negotiated: ProtocolVersion },
}

/// Refuses a client protocol advertisement beyond the implemented versions.
pub fn validate_protocol_support(support: ProtocolSupport) -> (r: Result<(), ClientError>)
    ensures
        r is Ok <==> spec_protocol_support_is_implemented(support),
        r matches Err(e) ==> e is Handshake,
{
    if !protocol_support_is_implemented(support) {
        return Err(ClientError::Handshake(
            "the requested protocol range exceeds this client's implemented versions".to_owned(),
        ));
    }
    Ok(())
}

/// The terminal failure that ended a connection.
#[derive(Clone, Copy, Debug, PartialEq, Eq, Structural)]
pub enum PendingFailure {
    Closed,
    EventGap,
}

impl PendingFailure {
    /// The client error that reports the failure.
    pub fn into_client_error(self) -> (e: ClientError)
        ensures
            e == (match self {
                PendingFailure::Closed => ClientError::Closed,
                PendingFailure::EventGap => ClientError::EventGap,
            }),
    {
        match self {
            PendingFailure::Closed => ClientError::Closed,
            PendingFailure::EventGap => ClientError::EventGap,
        }
    }
}

/// Records a terminal failure: the first one sticks, except that an event gap
/// always overrides a plain close. Returns the failure now in force.
pub fn record_terminal_failure(terminal: &mut Option<PendingFailure>, failure: PendingFailure) -> (r: PendingFailure)
    ensures
        *final(terminal) == spec_record_terminal(*old(terminal), failure),
        Some(r) == *final(terminal),
{
    match *terminal {
        None => *terminal = Some(failure),
        Some(_) => {
            match failure {
                PendingFailure::EventGap => *terminal = Some(failure),
                PendingFailure::Closed => {},
            }
        },
    }
    match *terminal {
        Some(f) => f,
        None => PendingFailure::Closed,
    }
}

/// The terminal failure in force after recording `failure` over `t`.
pub open spec fn spec_record_terminal(t: Option<PendingFailure>, failure: PendingFailure) -> Option<PendingFailure> {
    if t is None || failure is EventGap {
        Some(failure)
    } else {
        t
    }
}

/// Once an event gap is recorded no later failure replaces it, and the first
/// recorded failure is never replaced by a plain close.
pub proof fn law_terminal_failure_is_sticky(t: Option<PendingFailure>, failure: PendingFailure)
    ensures
        spec_record_terminal(Some(PendingFailure::EventGap), failure) == Some(PendingFailure::EventGap),
        t is Some ==> spec_record_terminal(t, PendingFailure::Closed) == t,
        spec_record_terminal(t, failure) is Some,
{
}

/// Checks a request before it enters the writer queue: a closed connection
/// reports its terminal failure, then the negotiated version must cover the
/// request and the session's assurance must admit it.
pub fn request_precheck(
    terminal: Option<PendingFailure>,
    closed: bool,
    kind: RequestKind,
    required: ProtocolVersion,
    negotiated: ProtocolVersion,
    assurance: ClientAssurance,
) -> (r: Result<(), ClientError>)
    ensures
        closed ==> r == Err::<(), ClientError>(
            match terminal {
                Some(PendingFailure::EventGap) => ClientError::EventGap,
                _ => ClientError::Closed,
            },
        ),
        !closed && !spec_version_at_least(negotiated, required) ==> r == Err::<(), ClientError>(
            ClientError::UnsupportedProtocol { required, negotiated },
        ),
        !closed && spec_version_at_least(negotiated, required) ==> (r is Ok <==> spec_request_allowed(
            assurance,
            kind,
        )),
        !closed && spec_version_at_least(negotiated, required) && !spec_request_allowed(assurance, kind)
            ==> r == Err::<(), ClientError>(ClientError::PrivateCapabilityRequired),
{
    if closed {
        let failure = match terminal {
            Some(f) => f,
            None => PendingFailure::Closed,
        };
        return Err(failure.into_client_error());
    }
    if !version_at_least(negotiated, required) {
        return Err(ClientError::UnsupportedProtocol { required, negotiated });
    }
    if !request_allowed(assurance, kind) {
        return Err(ClientError::PrivateCapabilityRequired);
    }
    Ok(())
}

/// The kind of actor CORE authenticated.
#[derive(Clone, Copy, Debug, PartialEq, Eq, Structural)]
pub enum ActorKind {
    LocalOsUser,
    CoreDaemon,
    System,
    Client,
}

/// The scalar parts of CORE's session-opened reply that the client checks.
#[derive(Clone, Debug, PartialEq, Eq)]
pub struct SessionOpened {
    pub protocol_version: ProtocolVersion,
    pub server_build_id: String,
    pub max_frame_bytes: u32,
    pub daemon_instance_id: u128,
    pub authenticated_actor_id: u128,
    pub authenticated_actor_kind: ActorKind,
}

/// What the client requires of the session-opened reply to its hello.
pub open spec fn spec_session_opened_valid(
    hello_support: ProtocolSupport,
    hello_max_frame_bytes: u32,
    opened: SessionOpened,
) -> bool {
    let v = opened.protocol_version;
    &&& spec_protocol_support_is_implemented(hello_support)
    &&& v.major == 1 && v.minor <= crate::protocol::IMPLEMENTED_MAXIMUM_MINOR
    &&& v.major == hello_support.major && hello_support.minimum_minor <= v.minor <= hello_support.maximum_minor
    &&& crate::text::trimmed(opened.server_build_id@).len() > 0
    &&& 0 < opened.max_frame_bytes <= hello_max_frame_bytes && opened.max_frame_bytes <= MAX_FRAME_BYTES
    &&& opened.daemon_instance_id != 0 && opened.authenticated_actor_id != 0
    &&& opened.authenticated_actor_kind is LocalOsUser
}

/// Whether `s` is blank.
fn is_blank(s: &String) -> (r: bool)
    ensures
        r == (crate::text::trimmed(s@).len() == 0),
{
    let chars = crate::text::chars_of(s.as_str());
    let mut i: usize = 0;
    while i < chars.len()
        invariant
            i <= chars@.len(),
            chars@ == s@,
            forall|k: int| 0 <= k < i ==> crate::text::is_white_space(#[trigger] chars@[k]),
        decreases chars@.len() - i,
    {
        if !crate::text::char_is_white_space(chars[i]) {
            proof {
                crate::text::lemma_trimmed_nonempty_with_visible(s@, i as int);
            }
            return false;
        }
        i = i + 1;
    }
    proof {
        crate::text::lemma_trimmed_empty_when_all_white(s@);
    }
    true
}

/// Checks CORE's session-opened reply against the client's hello: the
/// selected version must be implemented and advertised, the build identifier
/// non-blank, the frame limit within both limits, and the authenticated
/// identity a non-nil local OS user. `snapshot_consistent` is the outcome of
/// checking the authoritative snapshot that came with the reply.
pub fn validate_session_opened(
    hello_support: ProtocolSupport,
    hello_max_frame_bytes: u32,
    opened: &SessionOpened,
    snapshot_consistent: bool,
) -> (r: Result<(), ClientError>)
    ensures
        r is Ok <==> (spec_session_opened_valid(hello_support, hello_max_frame_bytes, *opened)
            && snapshot_consistent),
        r matches Err(e) ==> e is Handshake,
{
    let v = opened.protocol_version;
    if validate_protocol_support(hello_support).is_err() || !ProtocolSupport::v1().supports(v)
        || v.major != hello_support.major || v.minor < hello_support.minimum_minor
        || v.minor > hello_support.maximum_minor
    {
        return Err(ClientError::Handshake(
            "server selected a protocol version outside the advertised range".to_owned(),
        ));
    }
    if is_blank(&opened.server_build_id) {
        return Err(ClientError::Handshake("server returned an empty build identifier".to_owned()));
    }
    if opened.max_frame_bytes == 0 || opened.max_frame_bytes > hello_max_frame_bytes
        || opened.max_frame_bytes as usize > MAX_FRAME_BYTES
    {
        return Err(ClientError::Handshake("server returned an invalid frame-size limit".to_owned()));
    }
    let local_user = match opened.authenticated_actor_kind {
        ActorKind::LocalOsUser => true,
        _ => false,
    };
    if opened.daemon_instance_id == 0 || opened.authenticated_actor_id == 0 || !local_user {
        return Err(ClientError::Handshake(
            "server returned an invalid authenticated session identity".to_owned(),
        ));
    }
    if !snapshot_consistent {
        return Err(ClientError::Handshake(
            "server returned an inconsistent authoritative snapshot".to_owned(),
        ));
    }
    Ok(())
}

/// Where a cached snapshot stands: its event cursor sequence and its
/// `as_of` instant.
#[derive(Clone, Copy, Debug, PartialEq, Eq, Structural)]
pub struct SnapshotVersion {
    pub sequence: u64,
    pub as_of: i64,
}

/// Whether `incoming` is strictly newer than `current`: a later cursor, or
/// the same cursor observed later.
pub open spec fn spec_newer(incoming: SnapshotVersion, current: SnapshotVersion) -> bool {
    incoming.sequence > current.sequence || (incoming.sequence == current.sequence && incoming.as_of
        > current.as_of)
}

/// `a` is at least as new as `b`.
pub open spec fn not_older(a: SnapshotVersion, b: SnapshotVersion) -> bool {
    a == b || spec_newer(a, b)
}

/// Merges an authoritative snapshot into the cache: it replaces the cached
/// snapshot only when strictly newer. Returns whether it replaced it.
pub fn merge_snapshot(current: &mut SnapshotVersion, incoming: SnapshotVersion) -> (replaced: bool)
    ensures
        replaced == spec_newer(incoming, *old(current)),
        *final(current) == (if replaced {
            incoming
        } else {
            *old(current)
        }),
{
    if incoming.sequence > current.sequence || (incoming.sequence == current.sequence && incoming.as_of
        > current.as_of) {
        *current = incoming;
        true
    } else {
        false
    }
}

/// The cache never regresses: after a merge it is at least as new as both
/// the previous cache and the incoming snapshot, and merging the same
/// snapshot again changes nothing.
pub proof fn law_snapshot_merge_never_regresses(current: SnapshotVersion, incoming: SnapshotVersion)
    ensures
        ({
            let merged = if spec_newer(incoming, current) {
                incoming
            } else {
                current
            };
            &&& not_older(merged, current)
            &&& not_older(merged, incoming)
            &&& !spec_newer(incoming, merged)
        }),
{
}

/// The cap on remembered event identities per connection.
pub const MAX_APPLIED_EVENT_IDENTITIES: usize = 4096;

/// The bounded, connection-local set of applied event message identities.
pub struct EventIdentitySet {
    ids: Vec<u128>,
}

impl View for EventIdentitySet {
    type V = Set<u128>;

    /// The remembered identities.
    closed spec fn view(&self) -> Set<u128> {
        self.ids@.to_set()
    }
}

impl EventIdentitySet {
    /// The remembered identities are distinct and within the cap.
    pub closed spec fn well_formed(&self) -> bool {
        self.ids@.no_duplicates() && self.ids@.len() <= MAX_APPLIED_EVENT_IDENTITIES
    }

    /// The number of remembered identities.
    pub closed spec fn len(&self) -> nat {
        self.ids@.len()
    }

    /// An empty set.
    pub fn new() -> (s: Self)
        ensures
            s.well_formed(),
            s@ == Set::<u128>::empty(),
            s.len() == 0,
    {
        let s = EventIdentitySet { ids: Vec::new() };
        assert(s.ids@.to_set() =~= Set::<u128>::empty());
        s
    }

    /// Records a message identity. Returns `Some(true)` for a new identity,
    /// `Some(false)` for a duplicate, and `None` when the set is full, so that
    /// exhaustion forces a reconnect instead of weakening deduplication.
    pub fn record(&mut self, message_id: u128) -> (r: Option<bool>)
        requires
            old(self).well_formed(),
        ensures
            final(self).well_formed(),
            old(self)@.contains(message_id) ==> r == Some(false) && final(self)@ == old(self)@
                && final(self).len() == old(self).len(),
            !old(self)@.contains(message_id) && old(self).len() >= MAX_APPLIED_EVENT_IDENTITIES ==> r
                is None && final(self)@ == old(self)@ && final(self).len() == old(self).len(),
            !old(self)@.contains(message_id) && old(self).len() < MAX_APPLIED_EVENT_IDENTITIES ==> r
                == Some(true) && final(self)@ == old(self)@.insert(message_id) && final(self).len()
                == old(self).len() + 1,
    {
        let mut i: usize = 0;
        while i < self.ids.len()
            invariant
                i <= self.ids@.len(),
                self.well_formed(),
                forall|k: int| 0 <= k < i ==> self.ids@[k] != message_id,
            decreases self.ids@.len() - i,
        {
            if self.ids[i] == message_id {
                assert(self.ids@.to_set().contains(message_id)) by {
                    assert(self.ids@.contains(message_id));
                }
                return Some(false);
            }
            i = i + 1;
        }
        assert(!self.ids@.contains(message_id));
        assert(!self.ids@.to_set().contains(message_id));
        if self.ids.len() >= MAX_APPLIED_EVENT_IDENTITIES {
            return None;
        }
        let ghost before = self.ids@;
        self.ids.push(message_id);
        proof {
            assert(self.ids@ == before.push(message_id));
            assert(self.ids@.to_set() =~= before.to_set().insert(message_id)) by {
                assert forall|x: u128| self.ids@.to_set().contains(x) <==> before.to_set().insert(message_id).contains(x) by {
                    if self.ids@.contains(x) {
                        let k = choose|k: int| 0 <= k < self.ids@.len() && self.ids@[k] == x;
                        if k < before.len() {
                            assert(before[k] == x);
                        }
                    }
                    if before.contains(x) {
                        let k = choose|k: int| 0 <= k < before.len() && before[k] == x;
                        assert(self.ids@[k] == x);
                    }
                    if x == message_id {
                        assert(self.ids@[before.len() as int] == x);
                    }
                }
            }
            assert forall|a: int, b: int| 0 <= a < b < self.ids@.len() implies self.ids@[a] != self.ids@[b] by {
                if b == before.len() {
                    assert(before[a] != message_id);
                }
            }
        }
        Some(true)
    }
}

/// What applying an event does to the cached snapshot.
#[derive(Clone, Copy, Debug, PartialEq, Eq, Structural)]
pub enum EventApplication {
    /// The event advanced the cache and its payload must be applied.
    Applied,
    /// The cache already covers the event; it must not be applied again.
    AlreadyCovered,
    /// The stream has a gap and the client must reconnect.
    Gap,
}

/// Where the client's cached snapshot stands in the event stream.
#[derive(Clone, Copy, Debug, PartialEq, Eq, Structural)]
pub struct CacheCursor {
    pub cursor: EventCursor,
    pub as_of: i64,
}

/// Classifies one event against the cache and, when it continues the stream,
/// advances the cache. `header_consistent` and `event_consistent` are the
/// outcomes of checking the event's metadata and its payload against the
/// session and cache. An event at or before the cached cursor is covered (a
/// concurrent snapshot may have included it) unless its header is bad or the
/// identity set is exhausted; an event that does not directly follow is a
/// gap; a replayed identity advances the cursor but is not applied twice.
pub fn apply_event_cursor(
    cache: &mut CacheCursor,
    identities: &mut EventIdentitySet,
    event_cursor: EventCursor,
    occurred_at: i64,
    message_id: u128,
    header_consistent: bool,
    event_consistent: bool,
) -> (r: EventApplication)
    requires
        old(identities).well_formed(),
    ensures
        final(identities).well_formed(),
        event_cursor.daemon_instance_id != old(cache).cursor.daemon_instance_id ==> (r is Gap
            && *final(cache) == *old(cache) && final(identities)@ == old(identities)@),
        event_cursor.daemon_instance_id == old(cache).cursor.daemon_instance_id && event_cursor.sequence
            <= old(cache).cursor.sequence ==> *final(cache) == *old(cache) && (r is AlreadyCovered <==> (
        header_consistent && (old(identities)@.contains(message_id) || old(identities).len()
            < MAX_APPLIED_EVENT_IDENTITIES))) && !(r is Applied),
        r is Applied ==> (*final(cache) == CacheCursor { cursor: event_cursor, as_of: occurred_at }
            && crate::server::spec_event_follows(old(cache).cursor, event_cursor) && event_consistent
            && !old(identities)@.contains(message_id) && final(identities)@ == old(identities)@.insert(
            message_id,
        )),
        event_cursor.sequence > old(cache).cursor.sequence && !crate::server::spec_event_follows(
            old(cache).cursor,
            event_cursor,
        ) ==> (r is Gap && *final(cache) == *old(cache)),
        event_cursor.sequence > old(cache).cursor.sequence && crate::server::spec_event_follows(
            old(cache).cursor,
            event_cursor,
        ) && event_consistent && old(identities)@.contains(message_id) ==> r is AlreadyCovered
            && *final(cache) == (CacheCursor { cursor: event_cursor, as_of: occurred_at }),
        event_cursor.sequence > old(cache).cursor.sequence && crate::server::spec_event_follows(
            old(cache).cursor,
            event_cursor,
        ) && event_consistent && !old(identities)@.contains(message_id) && old(identities).len()
            < MAX_APPLIED_EVENT_IDENTITIES ==> r is Applied,
        event_cursor.sequence > old(cache).cursor.sequence && crate::server::spec_event_follows(
            old(cache).cursor,
            event_cursor,
        ) && !event_consistent ==> r is Gap && *final(cache) == *old(cache) && final(identities)@ == old(
            identities,
        )@,
        event_cursor.sequence > old(cache).cursor.sequence && crate::server::spec_event_follows(
            old(cache).cursor,
            event_cursor,
        ) && event_consistent && !old(identities)@.contains(message_id) && old(identities).len()
            >= MAX_APPLIED_EVENT_IDENTITIES ==> r is Gap && *final(cache) == *old(cache),
        r is Gap ==> *final(cache) == *old(cache),
        r is AlreadyCovered ==> final(identities)@ == old(identities)@.insert(message_id),
        r is Gap ==> final(identities)@ == old(identities)@,
{
    proof {
        if old(identities)@.contains(message_id) {
            assert(old(identities)@.insert(message_id) =~= old(identities)@);
        }
    }
    if event_cursor.daemon_instance_id != cache.cursor.daemon_instance_id {
        return EventApplication::Gap;
    }
    if event_cursor.sequence <= cache.cursor.sequence {
        if !header_consistent {
            return EventApplication::Gap;
        }
        return match identities.record(message_id) {
            None => EventApplication::Gap,
            Some(_) => EventApplication::AlreadyCovered,
        };
    }
    if !crate::server::event_follows(cache.cursor, event_cursor) {
        return EventApplication::Gap;
    }
    if !event_consistent {
        return EventApplication::Gap;
    }
    let is_new = match identities.record(message_id) {
        None => return EventApplication::Gap,
        Some(b) => b,
    };
    cache.cursor = event_cursor;
    cache.as_of = occurred_at;
    if !is_new {
        return EventApplication::AlreadyCovered;
    }
    EventApplication::Applied
}

} // verus!
