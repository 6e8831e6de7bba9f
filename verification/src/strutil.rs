//! Small trusted bridges to std's string primitives that vstd does not
//! specify, used by the serializer and the parser.

use vstd::prelude::*;

verus! {

/// Relies on String::push: appends exactly the one character.
#[verifier::external_body]
pub(crate) fn push_char(out: &mut String, c: char)
    ensures
        final(out)@ == old(out)@ + seq![c],
{
    out.push(c);
}

/// Relies on str::chars: yields the string's characters in order, which is
/// the string's view.
#[verifier::external_body]
pub(crate) fn chars_vec(s: &str) -> (v: Vec<char>)
    ensures
        v@ == s@,
{
    s.chars().collect()
}

/// Relies on str's PartialEq: two string slices are equal exactly when
/// their character sequences are equal.
#[verifier::external_body]
pub(crate) fn str_eq(a: &str, b: &str) -> (r: bool)
    ensures
        r == (a@ == b@),
{
    a == b
}

/// Relies on char::from_u32: returns the character with the given code
/// point, or None when the value is a surrogate or above the maximum code
/// point.
#[verifier::external_body]
pub(crate) fn char_from_u32(v: u32) -> (r: Option<char>)
    ensures
        r is Some ==> r.unwrap() as u32 == v,
        r is None <==> (0xD800 <= v <= 0xDFFF || v > 0x10FFFF),
{
    char::from_u32(v)
}

} // verus!
