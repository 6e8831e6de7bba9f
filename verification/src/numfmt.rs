//! Decimal rendering of integers, used for the timestamps in the persisted
//! document and for the synthesized command identifiers.

use vstd::prelude::*;
use crate::strutil::push_char;

verus! {

/// The decimal digit character for a value below ten.
pub open spec fn dec_digit(d: nat) -> char
    recommends
        d < 10,
{
    if d == 0 { '0' }
    else if d == 1 { '1' }
    else if d == 2 { '2' }
    else if d == 3 { '3' }
    else if d == 4 { '4' }
    else if d == 5 { '5' }
    else if d == 6 { '6' }
    else if d == 7 { '7' }
    else if d == 8 { '8' }
    else { '9' }
}

/// The decimal rendering of a natural number, without sign and without
/// leading zeros (a single zero renders as "0").
pub open spec fn dec_of_nat(n: nat) -> Seq<char>
    decreases n,
{
    if n < 10 {
        seq![dec_digit(n)]
    } else {
        dec_of_nat(n / 10).push(dec_digit(n % 10))
    }
}

/// The decimal rendering of an integer: a leading minus sign for negative
/// values, then the magnitude's digits.
pub open spec fn dec_of_int(n: int) -> Seq<char> {
    if n < 0 {
        seq!['-'] + dec_of_nat((-n) as nat)
    } else {
        dec_of_nat(n as nat)
    }
}

fn digit_char(d: u64) -> (c: char)
    requires
        d < 10,
    ensures
        c == dec_digit(d as nat),
{
    if d == 0 { '0' }
    else if d == 1 { '1' }
    else if d == 2 { '2' }
    else if d == 3 { '3' }
    else if d == 4 { '4' }
    else if d == 5 { '5' }
    else if d == 6 { '6' }
    else if d == 7 { '7' }
    else if d == 8 { '8' }
    else { '9' }
}

fn push_dec_u64(n: u64, out: &mut String)
    ensures
        final(out)@ == old(out)@ + dec_of_nat(n as nat),
    decreases n,
{
    if n < 10 {
        push_char(out, digit_char(n));
    } else {
        push_dec_u64(n / 10, out);
        push_char(out, digit_char(n % 10));
        proof {
            assert(old(out)@ + dec_of_nat((n / 10) as nat) + seq![dec_digit((n % 10) as nat)]
                =~= old(out)@ + dec_of_nat(n as nat));
        }
    }
}

/// Appends the decimal rendering of `n` to `out`.
pub fn push_dec_i64(n: i64, out: &mut String)
    ensures
        final(out)@ == old(out)@ + dec_of_int(n as int),
{
    if n >= 0 {
        push_dec_u64(n as u64, out);
    } else {
        push_char(out, '-');
        let mag: u64 = if n == i64::MIN {
            9223372036854775808u64
        } else {
            (-n) as u64
        };
        push_dec_u64(mag, out);
        proof {
            assert(old(out)@ + seq!['-'] + dec_of_nat(mag as nat)
                =~= old(out)@ + dec_of_int(n as int));
        }
    }
}

/// Returns the decimal rendering of `n` as a string.
pub fn dec_string_i64(n: i64) -> (r: String)
    ensures
        r@ == dec_of_int(n as int),
{
    let mut out = String::new();
    push_dec_i64(n, &mut out);
    out
}

} // verus!
