//! Bounded user-visible text.

use vstd::prelude::*;
use crate::errors::SecondMindError;

verus! {

/// The characters with the Unicode `White_Space` property.
pub open spec fn is_white_space(c: char) -> bool {
    let n = c as u32;
    (0x09 <= n <= 0x0D) || n == 0x20 || n == 0x85 || n == 0xA0 || n == 0x1680 || (0x2000 <= n
        <= 0x200A) || n == 0x2028 || n == 0x2029 || n == 0x202F || n == 0x205F || n == 0x3000
}

/// The characters of general category `Cc`.
pub open spec fn is_control(c: char) -> bool {
    let n = c as u32;
    n <= 0x1F || (0x7F <= n <= 0x9F)
}

/// Whether `c` has the Unicode `White_Space` property.
pub fn char_is_white_space(c: char) -> (r: bool)
    ensures
        r == is_white_space(c),
{
    let n = c as u32;
    (0x09 <= n && n <= 0x0D) || n == 0x20 || n == 0x85 || n == 0xA0 || n == 0x1680 || (0x2000
        <= n && n <= 0x200A) || n == 0x2028 || n == 0x2029 || n == 0x202F || n == 0x205F || n
        == 0x3000
}

/// Whether `c` is a control character.
pub fn char_is_control(c: char) -> (r: bool)
    ensures
        r == is_control(c),
{
    let n = c as u32;
    n <= 0x1F || (0x7F <= n && n <= 0x9F)
}

/// The characters of `s`, in order.
pub fn chars_of(s: &str) -> (v: Vec<char>)
    ensures
        v@ == s@,
{
    let mut v: Vec<char> = Vec::new();
    for c in it: s.chars()
        invariant
            v@ == it.seq().take(it.index() as int),
    {
        v.push(c);
    }
    v
}


/// `s` without its leading white space.
pub open spec fn trim_start(s: Seq<char>) -> Seq<char>
    decreases s.len(),
{
    if s.len() > 0 && is_white_space(s[0]) {
        trim_start(s.drop_first())
    } else {
        s
    }
}

/// `s` without its trailing white space.
pub open spec fn trim_end(s: Seq<char>) -> Seq<char>
    decreases s.len(),
{
    if s.len() > 0 && is_white_space(s.last()) {
        trim_end(s.drop_last())
    } else {
        s
    }
}

/// `s` without leading or trailing white space, as `str::trim` gives it.
pub open spec fn trimmed(s: Seq<char>) -> Seq<char> {
    trim_end(trim_start(s))
}

/// Whether `s` holds a control character.
pub open spec fn has_control(s: Seq<char>) -> bool {
    exists|i: int| 0 <= i < s.len() && is_control(#[trigger] s[i])
}


proof fn lemma_trim_start_visible(s: Seq<char>, i: int)
    requires
        0 <= i < s.len(),
        !is_white_space(s[i]),
    ensures
        trim_start(s).len() > 0,
        exists|j: int| 0 <= j < trim_start(s).len() && !is_white_space(#[trigger] trim_start(s)[j]),
    decreases s.len(),
{
    if s.len() > 0 && is_white_space(s[0]) {
        assert(i > 0);
        assert(s.drop_first()[i - 1] == s[i]);
        lemma_trim_start_visible(s.drop_first(), i - 1);
    } else {
        assert(trim_start(s) == s);
    }
}

proof fn lemma_trim_end_visible(s: Seq<char>, i: int)
    requires
        0 <= i < s.len(),
        !is_white_space(s[i]),
    ensures
        trim_end(s).len() > 0,
    decreases s.len(),
{
    if s.len() > 0 && is_white_space(s.last()) {
        assert(i < s.len() - 1);
        assert(s.drop_last()[i] == s[i]);
        lemma_trim_end_visible(s.drop_last(), i);
    }
}

/// Text with a character outside white space trims to something non-empty.
pub proof fn lemma_trimmed_nonempty_with_visible(s: Seq<char>, i: int)
    requires
        0 <= i < s.len(),
        !is_white_space(s[i]),
    ensures
        trimmed(s).len() > 0,
{
    lemma_trim_start_visible(s, i);
    let t = trim_start(s);
    let j = choose|j: int| 0 <= j < t.len() && !is_white_space(#[trigger] t[j]);
    lemma_trim_end_visible(t, j);
}

proof fn lemma_trim_start_all_white(s: Seq<char>)
    requires
        forall|k: int| 0 <= k < s.len() ==> is_white_space(#[trigger] s[k]),
    ensures
        trim_start(s).len() == 0,
    decreases s.len(),
{
    if s.len() > 0 {
        assert(is_white_space(s[0]));
        assert forall|k: int| 0 <= k < s.drop_first().len() implies is_white_space(
            #[trigger] s.drop_first()[k],
        ) by {
            assert(s.drop_first()[k] == s[k + 1]);
        }
        lemma_trim_start_all_white(s.drop_first());
    }
}

/// Text made only of white space trims to nothing.
pub proof fn lemma_trimmed_empty_when_all_white(s: Seq<char>)
    requires
        forall|k: int| 0 <= k < s.len() ==> is_white_space(#[trigger] s[k]),
    ensures
        trimmed(s).len() == 0,
{
    lemma_trim_start_all_white(s);
    assert(trim_start(s).len() == 0);
    assert(trim_end(trim_start(s)) == trim_start(s));
}

/// The bounds `[start, end)` of the trimmed part of `chars`.
fn trim_bounds(chars: &Vec<char>) -> (r: (usize, usize))
    ensures
        r.0 <= r.1 <= chars@.len(),
        trimmed(chars@) == chars@.subrange(r.0 as int, r.1 as int),
{
    let n = chars.len();
    let mut start: usize = 0;
    assert(chars@.subrange(0, n as int) == chars@);
    while start < n && char_is_white_space(chars[start])
        invariant
            start <= n == chars@.len(),
            trim_start(chars@) == trim_start(chars@.subrange(start as int, n as int)),
        decreases n - start,
    {
        assert(chars@.subrange(start as int, n as int).drop_first() == chars@.subrange(
            start + 1,
            n as int,
        ));
        start = start + 1;
    }
    assert(trim_start(chars@.subrange(start as int, n as int)) == chars@.subrange(
        start as int,
        n as int,
    ));
    let mut end: usize = n;
    while end > start && char_is_white_space(chars[end - 1])
        invariant
            start <= end <= n == chars@.len(),
            trimmed(chars@) == trim_end(chars@.subrange(start as int, end as int)),
        decreases end - start,
    {
        assert(chars@.subrange(start as int, end as int).drop_last() == chars@.subrange(
            start as int,
            end - 1,
        ));
        end = end - 1;
    }
    (start, end)
}

/// The bounds of the trimmed part of `s`; equal bounds mean blank text.
pub fn trimmed_bounds(s: &str) -> (r: (usize, usize))
    ensures
        r.0 <= r.1 <= s@.len(),
        trimmed(s@) == s@.subrange(r.0 as int, r.1 as int),
        trimmed(s@).len() == r.1 - r.0,
{
    let chars = chars_of(s);
    trim_bounds(&chars)
}

/// Refuses text whose trimmed length lies outside `[minimum, maximum]` or
/// that holds a control character anywhere.
pub fn validate_text(value: &str, minimum: usize, maximum: usize, summary: &'static str) -> (r: Result<(), SecondMindError>)
    ensures
        r is Ok <==> (minimum <= trimmed(value@).len() <= maximum && !has_control(value@)),
        r matches Err(e) ==> crate::errors::plain_error(
            e,
            crate::errors::SecondMindErrorCode::InvalidArgument,
            summary,
            false,
        ),
{
    let chars = chars_of(value);
    let (start, end) = trim_bounds(&chars);
    let length = end - start;
    let mut i: usize = 0;
    while i < chars.len()
        invariant
            i <= chars@.len(),
            chars@ == value@,
            forall|k: int| 0 <= k < i ==> !is_control(#[trigger] chars@[k]),
        decreases chars@.len() - i,
    {
        if char_is_control(chars[i]) {
            return Err(SecondMindError::invalid(summary));
        }
        i = i + 1;
    }
    if length < minimum || length > maximum {
        Err(SecondMindError::invalid(summary))
    } else {
        Ok(())
    }
}


/// Whether two character sequences are equal.
pub fn same_chars(a: &Vec<char>, b: &Vec<char>) -> (r: bool)
    ensures
        r == (a@ == b@),
{
    if a.len() != b.len() {
        return false;
    }
    let mut i: usize = 0;
    while i < a.len()
        invariant
            i <= a@.len() == b@.len(),
            forall|k: int| 0 <= k < i ==> a@[k] == b@[k],
        decreases a@.len() - i,
    {
        if a[i] != b[i] {
            return false;
        }
        i = i + 1;
    }
    assert(a@ == b@);
    true
}

/// Appends one character to a string.
#[verifier::external_body]
fn string_push(s: &mut String, c: char)
    ensures
        final(s)@ == old(s)@.push(c),
{
    s.push(c);
}

/// The string made of `chars`.
pub fn string_from_chars(chars: &[char]) -> (s: String)
    ensures
        s@ == chars@,
{
    let mut s = String::new();
    let mut i: usize = 0;
    while i < chars.len()
        invariant
            i <= chars@.len(),
            s@ == chars@.subrange(0, i as int),
        decreases chars@.len() - i,
    {
        string_push(&mut s, chars[i]);
        assert(chars@.subrange(0, (i + 1) as int) == chars@.subrange(0, i as int).push(chars@[i as int]));
        i = i + 1;
    }
    assert(chars@.subrange(0, i as int) == chars@);
    s
}

/// The trimmed text, cut to at most `maximum` characters.
pub fn bound_text(value: String, maximum: usize) -> (r: String)
    ensures
        r@ == trimmed(value@).take(
            if maximum < trimmed(value@).len() {
                maximum as int
            } else {
                trimmed(value@).len() as int
            },
        ),
{
    let chars = chars_of(value.as_str());
    let (start, end) = trim_bounds(&chars);
    let stop = if end - start > maximum {
        start + maximum
    } else {
        end
    };
    let mut kept: Vec<char> = Vec::new();
    let mut i: usize = start;
    while i < stop
        invariant
            start <= i <= stop <= end <= chars@.len(),
            kept@ == chars@.subrange(start as int, i as int),
        decreases stop - i,
    {
        kept.push(chars[i]);
        assert(chars@.subrange(start as int, (i + 1) as int) == chars@.subrange(start as int, i as int).push(
            chars@[i as int],
        ));
        i = i + 1;
    }
    assert(kept@ == trimmed(value@).take(stop - start));
    string_from_chars(kept.as_slice())
}

} // verus!
