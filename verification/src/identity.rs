//! Operating-system identity: pipe names and peer-user checks.

use vstd::prelude::*;
use crate::text::{chars_of, string_from_chars};

verus! {

/// Characters a security identifier keeps in a pipe name.
pub open spec fn pipe_safe(c: char) -> bool {
    ('0' <= c <= '9') || ('a' <= c <= 'z') || ('A' <= c <= 'Z') || c == '-'
}

/// The identifier with every character that is not an ASCII letter, digit or
/// hyphen removed.
pub open spec fn sanitized(sid: Seq<char>) -> Seq<char> {
    sid.filter(|c: char| pipe_safe(c))
}

/// Removes from `sid` every character that is not an ASCII letter, digit or
/// hyphen.
pub fn sanitize_sid(sid: &str) -> (r: Vec<char>)
    ensures
        r@ == sanitized(sid@),
{
    let chars = chars_of(sid);
    let mut kept: Vec<char> = Vec::new();
    let mut i: usize = 0;
    while i < chars.len()
        invariant
            i <= chars@.len(),
            chars@ == sid@,
            kept@ == chars@.subrange(0, i as int).filter(|c: char| pipe_safe(c)),
        decreases chars@.len() - i,
    {
        let c = chars[i];
        proof {
            assert(chars@.subrange(0, (i + 1) as int).drop_last() == chars@.subrange(0, i as int));
            reveal(Seq::filter);
        }
        if ('0' <= c && c <= '9') || ('a' <= c && c <= 'z') || ('A' <= c && c <= 'Z') || c == '-' {
            kept.push(c);
        }
        i = i + 1;
    }
    assert(chars@.subrange(0, i as int) == chars@);
    kept
}

/// The production pipe prefix, as characters.
pub open spec fn production_pipe_prefix() -> Seq<char> {
    seq!['\\', '\\', '.', '\\', 'p', 'i', 'p', 'e', '\\', 's', 't', 'e', 'i', 'n', '-', 'c', 'o', 'r', 'e', '-', 'v', '1', '-']
}

/// The private test pipe prefix, as characters.
pub open spec fn test_pipe_prefix() -> Seq<char> {
    seq!['\\', '\\', '.', '\\', 'p', 'i', 'p', 'e', '\\', 's', 't', 'e', 'i', 'n', '-', 'c', 'o', 'r', 'e', '-', 'p', 'r', 'i', 'v', 'a', 't', 'e', '-', 't', 'e', 's', 't', '-']
}

fn push_all(v: &mut Vec<char>, tail: &Vec<char>)
    ensures
        final(v)@ == old(v)@ + tail@,
{
    let mut i: usize = 0;
    let ghost start = v@;
    while i < tail.len()
        invariant
            i <= tail@.len(),
            v@ == start + tail@.subrange(0, i as int),
        decreases tail@.len() - i,
    {
        v.push(tail[i]);
        assert(tail@.subrange(0, (i + 1) as int) == tail@.subrange(0, i as int).push(tail@[i as int]));
        i = i + 1;
    }
    assert(tail@.subrange(0, i as int) == tail@);
}

fn production_prefix_chars() -> (v: Vec<char>)
    ensures
        v@ == production_pipe_prefix(),
{
    let v: Vec<char> = vec!['\\', '\\', '.', '\\', 'p', 'i', 'p', 'e', '\\', 's', 't', 'e', 'i', 'n', '-', 'c', 'o', 'r', 'e', '-', 'v', '1', '-'];
    assert(v@ == production_pipe_prefix());
    v
}

fn test_prefix_chars() -> (v: Vec<char>)
    ensures
        v@ == test_pipe_prefix(),
{
    let v: Vec<char> = vec!['\\', '\\', '.', '\\', 'p', 'i', 'p', 'e', '\\', 's', 't', 'e', 'i', 'n', '-', 'c', 'o', 'r', 'e', '-', 'p', 'r', 'i', 'v', 'a', 't', 'e', '-', 't', 'e', 's', 't', '-'];
    assert(v@ == test_pipe_prefix());
    v
}

/// The production pipe name of the user whose security identifier is given.
pub open spec fn spec_default_pipe_name(sid: Seq<char>) -> Seq<char> {
    production_pipe_prefix() + sanitized(sid)
}

/// CORE's production pipe name for the operating-system user `sid`.
pub fn default_pipe_name(sid: &str) -> (name: String)
    ensures
        name@ == spec_default_pipe_name(sid@),
{
    let mut chars = production_prefix_chars();
    let safe = sanitize_sid(sid);
    push_all(&mut chars, &safe);
    string_from_chars(chars.as_slice())
}

/// A randomized, non-production named-pipe endpoint for the private client
/// compatibility harness, deliberately distinct from CORE's production pipe.
#[derive(Clone, Debug, PartialEq, Eq)]
pub struct PrivateTestEndpoint {
    pipe_name: String,
}

/// A fresh time-ordered UUID in its hyphenated text form.
///
/// Calls `uuid::Uuid::now_v7`. The text is 36 characters long and carries the
/// version digit `7` at index 14 whatever the clock and random bits were;
/// nothing else of the value is stated.
#[verifier::external_body]
fn now_v7_text() -> (text: Vec<char>)
    ensures
        text@.len() == 36,
        text@[14] == '7',
{
    uuid::Uuid::now_v7().hyphenated().to_string().chars().collect()
}

impl View for PrivateTestEndpoint {
    type V = Seq<char>;

    /// The endpoint's pipe name as characters.
    closed spec fn view(&self) -> Seq<char> {
        self.pipe_name@
    }
}

impl PrivateTestEndpoint {
    /// The test pipe name for `sid` with the given unique suffix.
    pub open spec fn spec_pipe_name(sid: Seq<char>, suffix: Seq<char>) -> Seq<char> {
        test_pipe_prefix() + sanitized(sid) + seq!['-'] + suffix
    }

    /// A new endpoint for the operating-system user `sid`, randomized by a
    /// fresh UUID.
    pub fn new(sid: &str) -> (endpoint: Self)
        ensures
            exists|suffix: Seq<char>|
                suffix.len() == 36 && endpoint@ == Self::spec_pipe_name(sid@, suffix),
    {
        let mut chars = test_prefix_chars();
        let safe = sanitize_sid(sid);
        push_all(&mut chars, &safe);
        chars.push('-');
        let suffix = now_v7_text();
        push_all(&mut chars, &suffix);
        assert(chars@ == Self::spec_pipe_name(sid@, suffix@));
        PrivateTestEndpoint { pipe_name: string_from_chars(chars.as_slice()) }
    }

    /// The endpoint's pipe name.
    pub fn pipe_name(&self) -> (name: &str)
        ensures
            name@ == self@,
    {
        self.pipe_name.as_str()
    }
}

/// A private test endpoint never names CORE's production pipe, whatever the
/// users and the random suffix.
pub proof fn law_test_endpoint_is_never_production(sid: Seq<char>, other_sid: Seq<char>, suffix: Seq<char>)
    ensures
        PrivateTestEndpoint::spec_pipe_name(sid, suffix) != spec_default_pipe_name(other_sid),
{
    let a = PrivateTestEndpoint::spec_pipe_name(sid, suffix);
    let b = spec_default_pipe_name(other_sid);
    assert(a[20] == 'p');
    assert(b[20] == 'v');
}

/// The peer of a pipe belongs to a different operating-system user.
#[derive(Clone, Copy, Debug, PartialEq, Eq, Structural)]
pub enum IdentityError {
    DifferentUser,
}

/// Accepts a peer only when its security identifier is the current user's,
/// returning that identifier.
pub fn ensure_process_is_current_user(actual: &str, expected: &str) -> (r: Result<String, IdentityError>)
    ensures
        r is Ok <==> actual@ == expected@,
        r matches Ok(sid) ==> sid@ == actual@,
{
    let a = chars_of(actual);
    let e = chars_of(expected);
    if a.len() != e.len() {
        return Err(IdentityError::DifferentUser);
    }
    let mut i: usize = 0;
    while i < a.len()
        invariant
            i <= a@.len() == e@.len(),
            a@ == actual@,
            e@ == expected@,
            forall|k: int| 0 <= k < i ==> a@[k] == e@[k],
        decreases a@.len() - i,
    {
        if a[i] != e[i] {
            return Err(IdentityError::DifferentUser);
        }
        i = i + 1;
    }
    assert(a@ == e@);
    Ok(string_from_chars(a.as_slice()))
}

/// The production package name of the signed STEIN package.
pub open spec fn production_package_name() -> Seq<char> {
    seq!['S', 'T', 'E', 'I', 'N', '.', 'P', 'e', 'r', 's', 'o', 'n', 'a', 'l', 'I', 'n', 't', 'e', 'l', 'l', 'i', 'g', 'e', 'n', 'c', 'e']
}

/// The application identifier of the private broker inside the package.
pub open spec fn broker_application_id() -> Seq<char> {
    seq!['P', 'r', 'i', 'v', 'a', 't', 'e', 'B', 'r', 'o', 'k', 'e', 'r']
}

/// Characters of a Windows package publisher identifier.
pub open spec fn publisher_char(c: char) -> bool {
    ('0' <= c <= '9') || ('a' <= c <= 'h') || ('j' <= c <= 'k') || ('m' <= c <= 'n') || ('p' <= c <= 't')
        || ('v' <= c <= 'z')
}

/// Whether the package family name and broker AUMID are exactly the
/// production ones: the production package name, an underscore, a 13
/// character publisher identifier, and the broker application in that family.
pub open spec fn spec_production_identity(pfn: Seq<char>, aumid: Seq<char>) -> bool {
    let n = production_package_name().len();
    &&& pfn.len() == n + 1 + 13
    &&& pfn.subrange(0, n as int) == production_package_name()
    &&& pfn[n as int] == '_'
    &&& forall|i: int| n + 1 <= i < pfn.len() ==> publisher_char(#[trigger] pfn[i])
    &&& aumid == pfn + seq!['!'] + broker_application_id()
}

/// Refuses any package family name or broker AUMID but the exact production
/// ones; development and differently cased identities fail closed.
pub fn validate_production_identity(package_family_name: &str, broker_aumid: &str) -> (r: Result<(), crate::server::ServerError>)
    ensures
        r is Ok <==> spec_production_identity(package_family_name@, broker_aumid@),
        r is Err ==> r == Err::<(), crate::server::ServerError>(crate::server::ServerError::InvalidPrivateIdentity),
{
    let pfn = chars_of(package_family_name);
    let aumid = chars_of(broker_aumid);
    let name: Vec<char> = vec!['S', 'T', 'E', 'I', 'N', '.', 'P', 'e', 'r', 's', 'o', 'n', 'a', 'l', 'I', 'n', 't', 'e', 'l', 'l', 'i', 'g', 'e', 'n', 'c', 'e'];
    let broker: Vec<char> = vec!['P', 'r', 'i', 'v', 'a', 't', 'e', 'B', 'r', 'o', 'k', 'e', 'r'];
    assert(name@ == production_package_name());
    assert(broker@ == broker_application_id());
    let n = name.len();
    if pfn.len() != n + 1 + 13 {
        return Err(crate::server::ServerError::InvalidPrivateIdentity);
    }
    let mut i: usize = 0;
    while i < n
        invariant
            i <= n == name@.len(),
            name@ == production_package_name(),
            pfn@ == package_family_name@,
            pfn@.len() == n + 14,
            forall|k: int| 0 <= k < i ==> pfn@[k] == name@[k],
        decreases n - i,
    {
        if pfn[i] != name[i] {
            assert(pfn@.subrange(0, n as int)[i as int] != production_package_name()[i as int]);
            return Err(crate::server::ServerError::InvalidPrivateIdentity);
        }
        i = i + 1;
    }
    assert(pfn@.subrange(0, n as int) == production_package_name());
    if pfn[n] != '_' {
        return Err(crate::server::ServerError::InvalidPrivateIdentity);
    }
    let mut j: usize = n + 1;
    while j < pfn.len()
        invariant
            n + 1 <= j <= pfn@.len(),
            pfn@.len() == n + 14,
            pfn@ == package_family_name@,
            pfn@.subrange(0, n as int) == production_package_name(),
            pfn@[n as int] == '_',
            n == production_package_name().len(),
            forall|k: int| n + 1 <= k < j ==> publisher_char(#[trigger] pfn@[k]),
        decreases pfn@.len() - j,
    {
        let c = pfn[j];
        let ok = ('0' <= c && c <= '9') || ('a' <= c && c <= 'h') || ('j' <= c && c <= 'k') || ('m' <= c
            && c <= 'n') || ('p' <= c && c <= 't') || ('v' <= c && c <= 'z');
        if !ok {
            return Err(crate::server::ServerError::InvalidPrivateIdentity);
        }
        j = j + 1;
    }
    let mut expected = pfn.clone();
    assert(expected@ == pfn@);
    expected.push('!');
    push_all(&mut expected, &broker);
    assert(expected@ == package_family_name@ + seq!['!'] + broker_application_id());
    assert(aumid@ == broker_aumid@);
    if !crate::text::same_chars(&aumid, &expected) {
        return Err(crate::server::ServerError::InvalidPrivateIdentity);
    }
    Ok(())
}

} // verus!
