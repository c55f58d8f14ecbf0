//! Text building blocks: decimal rendering of integers and the
//! replacement of characters that may not stand in an identifier.

use vstd::prelude::*;
use vstd::std_specs::iter::IteratorSpec;
use vstd::string::*;

verus! {

/// Whether a character is alphabetic or numeric in the sense of Unicode,
/// as `char::is_alphanumeric` decides it.
pub uninterp spec fn alphanumeric(c: char) -> bool;

/// The character for one decimal digit.
pub open spec fn digit(d: nat) -> char
    recommends
        d < 10,
{
    (d + 48) as char
}

/// The decimal digits of a natural number, most significant first,
/// without leading zeros.
pub open spec fn decimal(n: nat) -> Seq<char>
    decreases n,
{
    if n < 10 {
        seq![digit(n)]
    } else {
        decimal(n / 10).push(digit(n % 10))
    }
}

/// The decimal form of an integer: a minus sign before the magnitude of
/// a negative number.
pub open spec fn signed_decimal(i: int) -> Seq<char> {
    if i < 0 {
        seq!['-'] + decimal((-i) as nat)
    } else {
        decimal(i as nat)
    }
}

/// The canonical text of a boolean.
pub open spec fn bool_text(b: bool) -> Seq<char> {
    if b {
        "true"@
    } else {
        "false"@
    }
}

/// One character made safe for an identifier: kept when alphanumeric,
/// replaced by an underscore otherwise.
pub open spec fn sanitized_char(c: char) -> char {
    if alphanumeric(c) {
        c
    } else {
        '_'
    }
}

/// A text with every non-alphanumeric character replaced by `_`.
pub open spec fn sanitized(s: Seq<char>) -> Seq<char> {
    Seq::new(s.len(), |i: int| sanitized_char(s[i]))
}

/// The parts joined with `_` between neighbours.
pub open spec fn joined(parts: Seq<Seq<char>>) -> Seq<char>
    decreases parts.len(),
{
    if parts.len() == 0 {
        Seq::empty()
    } else if parts.len() == 1 {
        parts[0]
    } else {
        joined(parts.drop_last()) + seq!['_'] + parts.last()
    }
}

/// Calls `char::is_alphanumeric`. The result is the Unicode property the
/// standard library documents; it is named, not spelled out.
#[verifier::external_body]
fn is_alphanumeric(c: char) -> (b: bool)
    ensures
        b == alphanumeric(c),
{
    c.is_alphanumeric()
}

/// Calls `String::push`, which appends one character to the end.
#[verifier::external_body]
pub(crate) fn push_char(s: &mut String, c: char)
    ensures
        final(s)@ == old(s)@.push(c),
{
    s.push(c)
}

fn digit_char(d: u64) -> (c: char)
    requires
        d < 10,
    ensures
        c == digit(d as nat),
{
    ((d + 48) as u8) as char
}

/// Appends the decimal form of `n` to `out`.
pub fn push_decimal(out: &mut String, n: u64)
    ensures
        final(out)@ == old(out)@ + decimal(n as nat),
    decreases n,
{
    if n >= 10 {
        push_decimal(out, n / 10);
    }
    push_char(out, digit_char(n % 10));
}

/// Appends the decimal form of `i` to `out`, with a leading `-` when
/// `i` is negative.
pub fn push_signed_decimal(out: &mut String, i: i64)
    ensures
        final(out)@ == old(out)@ + signed_decimal(i as int),
{
    if i < 0 {
        push_char(out, '-');
        let magnitude: u64 = ((-(i + 1)) as u64) + 1;
        push_decimal(out, magnitude);
    } else {
        push_decimal(out, i as u64);
    }
}

/// Appends `true` or `false` to `out`.
pub fn push_bool(out: &mut String, b: bool)
    ensures
        final(out)@ == old(out)@ + bool_text(b),
{
    if b {
        out.append("true");
    } else {
        out.append("false");
    }
}

/// Appends `s` to `out` with every non-alphanumeric character replaced
/// by `_`.
pub fn push_sanitized(out: &mut String, s: &str)
    ensures
        final(out)@ == old(out)@ + sanitized(s@),
{
    broadcast use vstd::string::group_string_axioms;

    let mut rest = s.chars();
    let ghost mut seen: int = 0;
    loop
        invariant
            0 <= seen <= s@.len(),
            rest.remaining() == s@.skip(seen),
            out@ == old(out)@ + sanitized(s@).take(seen),
        ensures
            seen == s@.len(),
        decreases s@.len() - seen,
    {
        match rest.next() {
            Some(c) => {
                assert(c == s@[seen]);
                let kept = if is_alphanumeric(c) { c } else { '_' };
                push_char(out, kept);
                proof {
                    assert(s@.skip(seen).drop_first() == s@.skip(seen + 1));
                    seen = seen + 1;
                    assert(sanitized(s@).take(seen) == sanitized(s@).take(seen - 1).push(kept));
                }
            },
            None => break ,
        }
    }
    assert(sanitized(s@).take(seen) == sanitized(s@));
}

} // verus!
