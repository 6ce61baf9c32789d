//! Byte strings as they appear in HTTP headers: ASCII case folding, prefixes
//! and line breaks.

use vstd::prelude::*;
use vstd::utf8::{encode_utf8, is_ascii_chars, is_ascii_chars_encode_utf8};

verus! {

/// The bytes that a text is written with on the wire: its UTF-8 form.
pub open spec fn text(s: Seq<char>) -> Seq<u8> {
    encode_utf8(s)
}

/// The lower-case form of an ASCII letter; every other byte stands for itself.
pub open spec fn ascii_lower(b: u8) -> u8 {
    if 0x41 <= b <= 0x5a {
        (b + 0x20) as u8
    } else {
        b
    }
}

/// Equality of two byte strings up to the case of ASCII letters.
pub open spec fn eq_ignore_ascii_case(a: Seq<u8>, b: Seq<u8>) -> bool {
    &&& a.len() == b.len()
    &&& forall|i: int| 0 <= i < a.len() ==> ascii_lower(#[trigger] a[i]) == ascii_lower(b[i])
}

/// `a` begins with `prefix`, up to the case of ASCII letters.
pub open spec fn starts_with_ignore_ascii_case(a: Seq<u8>, prefix: Seq<u8>) -> bool {
    &&& prefix.len() <= a.len()
    &&& eq_ignore_ascii_case(a.subrange(0, prefix.len() as int), prefix)
}

/// `s` holds a carriage return or a line feed.
pub open spec fn has_line_break(s: Seq<u8>) -> bool {
    exists|i: int| 0 <= i < s.len() && (#[trigger] s[i] == 0x0d || s[i] == 0x0a)
}

/// An ASCII text is written with one byte for each of its characters.
pub proof fn lemma_ascii_text(s: Seq<char>)
    requires
        is_ascii_chars(s),
    ensures
        text(s).len() == s.len(),
        forall|i: int| 0 <= i < s.len() ==> #[trigger] text(s)[i] == s[i] as u8,
{
    is_ascii_chars_encode_utf8(s);
}

pub fn to_ascii_lower(b: u8) -> (r: u8)
    ensures
        r == ascii_lower(b),
{
    if 0x41 <= b && b <= 0x5a {
        b + 0x20
    } else {
        b
    }
}

pub fn bytes_eq_ignore_ascii_case(a: &[u8], b: &[u8]) -> (r: bool)
    ensures
        r == eq_ignore_ascii_case(a@, b@),
{
    if a.len() != b.len() {
        return false;
    }
    let mut i: usize = 0;
    while i < a.len()
        invariant
            a@.len() == b@.len(),
            i <= a@.len(),
            forall|j: int| 0 <= j < i ==> ascii_lower(#[trigger] a@[j]) == ascii_lower(b@[j]),
        decreases a@.len() - i,
    {
        if to_ascii_lower(a[i]) != to_ascii_lower(b[i]) {
            return false;
        }
        i += 1;
    }
    true
}

pub fn bytes_start_with_ignore_ascii_case(a: &[u8], prefix: &[u8]) -> (r: bool)
    ensures
        r == starts_with_ignore_ascii_case(a@, prefix@),
{
    if prefix.len() > a.len() {
        return false;
    }
    let mut i: usize = 0;
    while i < prefix.len()
        invariant
            prefix@.len() <= a@.len(),
            i <= prefix@.len(),
            forall|j: int| 0 <= j < i ==> ascii_lower(#[trigger] a@[j]) == ascii_lower(prefix@[j]),
        decreases prefix@.len() - i,
    {
        if to_ascii_lower(a[i]) != to_ascii_lower(prefix[i]) {
            assert(a@.subrange(0, prefix@.len() as int)[i as int] == a@[i as int]);
            return false;
        }
        i += 1;
    }
    assert forall|j: int| 0 <= j < prefix@.len() implies ascii_lower(
        #[trigger] a@.subrange(0, prefix@.len() as int)[j],
    ) == ascii_lower(prefix@[j]) by {
        assert(a@.subrange(0, prefix@.len() as int)[j] == a@[j]);
    }
    true
}

pub fn contains_line_break(s: &[u8]) -> (r: bool)
    ensures
        r == has_line_break(s@),
{
    let mut i: usize = 0;
    while i < s.len()
        invariant
            i <= s@.len(),
            forall|j: int| 0 <= j < i ==> #[trigger] s@[j] != 0x0d && s@[j] != 0x0a,
        decreases s@.len() - i,
    {
        if s[i] == 0x0d || s[i] == 0x0a {
            return true;
        }
        i += 1;
    }
    false
}

} // verus!
