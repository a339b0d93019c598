//! Byte strings of the wire protocol, and the byte-level helpers the decoder
//! is built from.

use vstd::prelude::*;
use vstd::utf8::valid_utf8;

verus! {

/// The name of the header that tags every record: `type`.
pub open spec fn kind_name() -> Seq<u8> {
    seq![116u8, 121, 112, 101]
}

/// The tag of a keystroke command: `keystroke`.
pub open spec fn keystroke_tag() -> Seq<u8> {
    seq![107u8, 101, 121, 115, 116, 114, 111, 107, 101]
}

/// The tag of a window-resize command: `window`.
pub open spec fn window_tag() -> Seq<u8> {
    seq![119u8, 105, 110, 100, 111, 119]
}

/// The name of the header that carries the row count: `rows`.
pub open spec fn rows_name() -> Seq<u8> {
    seq![114u8, 111, 119, 115]
}

/// The name of the header that carries the column count: `cols`.
pub open spec fn cols_name() -> Seq<u8> {
    seq![99u8, 111, 108, 115]
}

/// The tag of every record written to the output log: `out`.
pub open spec fn out_tag() -> Seq<u8> {
    seq![111u8, 117, 116]
}

pub fn kind_name_bytes() -> (r: Vec<u8>)
    ensures
        r@ == kind_name(),
{
    vec![116u8, 121, 112, 101]
}

pub fn keystroke_tag_bytes() -> (r: Vec<u8>)
    ensures
        r@ == keystroke_tag(),
{
    vec![107u8, 101, 121, 115, 116, 114, 111, 107, 101]
}

pub fn window_tag_bytes() -> (r: Vec<u8>)
    ensures
        r@ == window_tag(),
{
    vec![119u8, 105, 110, 100, 111, 119]
}

pub fn rows_name_bytes() -> (r: Vec<u8>)
    ensures
        r@ == rows_name(),
{
    vec![114u8, 111, 119, 115]
}

pub fn cols_name_bytes() -> (r: Vec<u8>)
    ensures
        r@ == cols_name(),
{
    vec![99u8, 111, 108, 115]
}

pub fn out_tag_bytes() -> (r: Vec<u8>)
    ensures
        r@ == out_tag(),
{
    vec![111u8, 117, 116]
}

/// Byte-wise equality of two byte strings.
pub fn bytes_eq(a: &[u8], b: &[u8]) -> (r: bool)
    ensures
        r == (a@ == b@),
{
    if a.len() != b.len() {
        return false;
    }
    let mut i: usize = 0;
    while i < a.len()
        invariant
            a@.len() == b@.len(),
            i <= a@.len(),
            forall|j: int| 0 <= j < i ==> a@[j] == b@[j],
        decreases a@.len() - i,
    {
        if a[i] != b[i] {
            return false;
        }
        i = i + 1;
    }
    assert(a@ =~= b@);
    true
}

/// Relies on std::str::from_utf8: it succeeds exactly on well-formed UTF-8.
#[verifier::external_body]
pub(crate) fn is_utf8(b: &[u8]) -> (r: bool)
    ensures
        r == valid_utf8(b@),
{
    std::str::from_utf8(b).is_ok()
}

/// An ASCII decimal digit.
pub open spec fn is_digit(c: u8) -> bool {
    48 <= c <= 57
}

pub open spec fn all_digits(s: Seq<u8>) -> bool {
    forall|i: int| 0 <= i < s.len() ==> is_digit(#[trigger] s[i])
}

/// The number that a string of decimal digits writes, most significant first.
pub open spec fn digits_value(s: Seq<u8>) -> nat
    decreases s.len(),
{
    if s.len() == 0 {
        0
    } else {
        digits_value(s.drop_last()) * 10 + (s.last() - 48) as nat
    }
}

/// A number's digits: the string without its optional leading `+`.
pub open spec fn unsigned_digits(s: Seq<u8>) -> Seq<u8> {
    if s.len() > 0 && s[0] == 43 {
        s.drop_first()
    } else {
        s
    }
}

/// What parsing a string as an unsigned 16-bit integer gives: an optional
/// `+`, then at least one decimal digit, the value at most 65535.
pub open spec fn parse_u16_spec(s: Seq<u8>) -> Option<u16> {
    let d = unsigned_digits(s);
    if d.len() > 0 && all_digits(d) && digits_value(d) <= 65535 {
        Some(digits_value(d) as u16)
    } else {
        None
    }
}

/// The value of a digit string is at least that of any of its prefixes.
proof fn lemma_prefix_value(s: Seq<u8>, k: int)
    requires
        all_digits(s),
        0 <= k <= s.len(),
    ensures
        digits_value(s.take(k)) <= digits_value(s),
    decreases s.len(),
{
    if k < s.len() {
        assert(s.drop_last().take(k) =~= s.take(k));
        lemma_prefix_value(s.drop_last(), k);
    } else {
        assert(s.take(k) =~= s);
    }
}

/// Parses an unsigned 16-bit decimal integer, with an optional leading `+`.
pub fn parse_u16(s: &[u8]) -> (r: Option<u16>)
    ensures
        r == parse_u16_spec(s@),
{
    let start: usize = if s.len() > 0 && s[0] == 43 {
        1
    } else {
        0
    };
    let ghost d = s@.subrange(start as int, s@.len() as int);
    assert(d =~= unsigned_digits(s@));
    if start >= s.len() {
        return None;
    }
    let mut acc: u32 = 0;
    let mut i: usize = start;
    while i < s.len()
        invariant
            start <= i <= s@.len(),
            d == s@.subrange(start as int, s@.len() as int),
            d == unsigned_digits(s@),
            acc as nat == digits_value(d.take(i - start)),
            acc <= 65535,
            all_digits(d.take(i - start)),
        decreases s@.len() - i,
    {
        let c = s[i];
        assert(d.take(i + 1 - start).drop_last() =~= d.take(i - start));
        assert(d.take(i + 1 - start).last() == c);
        assert(d[i - start] == c);
        if c < 48 || c > 57 {
            assert(!is_digit(d[i - start]));
            assert(!all_digits(d));
            return None;
        }
        let next = acc * 10 + (c - 48) as u32;
        assert(all_digits(d.take(i + 1 - start)));
        assert(digits_value(d.take(i + 1 - start)) == next as nat);
        if next > 65535 {
            proof {
                if all_digits(d) {
                    lemma_prefix_value(d, i + 1 - start);
                }
            }
            return None;
        }
        acc = next;
        i = i + 1;
    }
    assert(d.take(i - start) =~= d);
    Some(acc as u16)
}

} // verus!
