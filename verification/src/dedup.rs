//! The deduplication key of a notification delivery: a name-based UUID over
//! the candidate, its revision and the channel.

use vstd::prelude::*;
use crate::gates::uuid_version;

verus! {

/// The ASCII digit of a value below sixteen, in lower case.
pub open spec fn hex_digit(n: nat) -> u8 {
    if n < 10 {
        (48 + n) as u8
    } else {
        (87 + n) as u8
    }
}

/// The last `count` hexadecimal digits of `v`, most significant first.
pub open spec fn hex_digits(v: nat, count: nat) -> Seq<u8>
    decreases count,
{
    if count == 0 {
        Seq::empty()
    } else {
        hex_digits(v / 16, (count - 1) as nat).push(hex_digit(v % 16))
    }
}

/// The decimal digits of `n`, most significant first.
pub open spec fn decimal_digits(n: nat) -> Seq<u8>
    decreases n,
{
    if n < 10 {
        seq![(48 + n) as u8]
    } else {
        decimal_digits(n / 10).push((48 + n % 10) as u8)
    }
}

/// Whether position `i` of the hyphenated form holds a hyphen.
pub open spec fn hyphen_at(i: int) -> bool {
    i == 8 || i == 13 || i == 18 || i == 23
}

/// The digit a position of the hyphenated form shows.
pub open spec fn digit_index(i: int) -> int {
    if i < 8 {
        i
    } else if i < 13 {
        i - 1
    } else if i < 18 {
        i - 2
    } else if i < 23 {
        i - 3
    } else {
        i - 4
    }
}

/// The hyphenated lower-case text of a UUID: its 32 hexadecimal digits in
/// groups of 8, 4, 4, 4 and 12.
pub open spec fn hyphenated(id: u128) -> Seq<u8> {
    Seq::new(36, |i: int| if hyphen_at(i) { 45u8 } else { hex_digits(id as nat, 32)[digit_index(i)] })
}

/// The bytes of the native notification channel's name.
pub open spec fn native_channel_bytes() -> Seq<u8> {
    seq![
        119u8, 105, 110, 100, 111, 119, 115, 46, 110, 97, 116, 105, 118, 101, 95, 110, 111, 116, 105, 102, 105, 99, 97,
        116, 105, 111, 110,
    ]
}

/// The name a delivery's deduplication key is derived from:
/// `<candidate>:<revision>:<channel>`.
pub open spec fn deduplication_name(candidate_id: u128, candidate_revision: u64) -> Seq<u8> {
    hyphenated(candidate_id) + seq![58u8] + decimal_digits(candidate_revision as nat) + seq![58u8] + native_channel_bytes()
}

/// The UUID that `uuid::Uuid::new_v5` derives from the OID namespace and a
/// name.
pub uninterp spec fn oid_name_uuid(name: Seq<u8>) -> u128;

/// A name-based UUID in the OID namespace.
///
/// Calls `uuid::Uuid::new_v5` with `uuid::Uuid::NAMESPACE_OID`. The value
/// depends on the name alone and carries version 5, as the crate documents;
/// the SHA-1 derivation itself is not stated.
#[verifier::external_body]
fn uuid_v5_oid(name: &[u8]) -> (id: u128)
    ensures
        id == oid_name_uuid(name@),
        uuid_version(id) == 5,
{
    uuid::Uuid::new_v5(&uuid::Uuid::NAMESPACE_OID, name).as_u128()
}

fn hex_text(v: u128, count: u32) -> (r: Vec<u8>)
    ensures
        r@ == hex_digits(v as nat, count as nat),
    decreases count,
{
    if count == 0 {
        Vec::new()
    } else {
        let mut r = hex_text(v / 16, count - 1);
        let d = v % 16;
        let c: u8 = if d < 10 {
            48 + d as u8
        } else {
            87 + d as u8
        };
        r.push(c);
        r
    }
}

fn decimal_text(n: u64) -> (r: Vec<u8>)
    ensures
        r@ == decimal_digits(n as nat),
    decreases n,
{
    if n < 10 {
        let mut r: Vec<u8> = Vec::new();
        r.push(48 + n as u8);
        r
    } else {
        let mut r = decimal_text(n / 10);
        r.push(48 + (n % 10) as u8);
        r
    }
}

proof fn lemma_hex_digits_len(v: nat, count: nat)
    ensures
        hex_digits(v, count).len() == count,
    decreases count,
{
    if count > 0 {
        lemma_hex_digits_len(v / 16, (count - 1) as nat);
    }
}

/// The hyphenated lower-case text of a UUID.
pub fn hyphenated_text(id: u128) -> (r: Vec<u8>)
    ensures
        r@ == hyphenated(id),
{
    let digits = hex_text(id, 32);
    proof {
        lemma_hex_digits_len(id as nat, 32);
    }
    let mut out: Vec<u8> = Vec::new();
    let mut i: usize = 0;
    let mut d: usize = 0;
    while i < 36
        invariant
            i <= 36,
            digits@ == hex_digits(id as nat, 32),
            digits@.len() == 32,
            d == if i <= 8 {
                i as int
            } else if i <= 13 {
                i - 1
            } else if i <= 18 {
                i - 2
            } else if i <= 23 {
                i - 3
            } else {
                i - 4
            },
            out@.len() == i,
            forall|j: int| 0 <= j < i ==> out@[j] == hyphenated(id)[j],
        decreases 36 - i,
    {
        if i == 8 || i == 13 || i == 18 || i == 23 {
            out.push(45);
        } else {
            out.push(digits[d]);
            d = d + 1;
        }
        i = i + 1;
    }
    assert(out@ =~= hyphenated(id));
    out
}

/// The deduplication key of a native notification delivery of a candidate
/// revision.
pub fn delivery_deduplication_key(candidate_id: u128, candidate_revision: u64) -> (key: u128)
    ensures
        key == oid_name_uuid(deduplication_name(candidate_id, candidate_revision)),
        uuid_version(key) == 5,
{
    let mut name = hyphenated_text(candidate_id);
    name.push(58);
    let mut revision = decimal_text(candidate_revision);
    name.append(&mut revision);
    name.push(58);
    let mut channel: Vec<u8> = vec![
        119u8, 105, 110, 100, 111, 119, 115, 46, 110, 97, 116, 105, 118, 101, 95, 110, 111, 116, 105, 102, 105, 99, 97,
        116, 105, 111, 110,
    ];
    assert(channel@ == native_channel_bytes());
    name.append(&mut channel);
    assert(name@ =~= deduplication_name(candidate_id, candidate_revision));
    uuid_v5_oid(name.as_slice())
}

} // verus!
