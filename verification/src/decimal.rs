//! Decimal notation for unsigned integers.

use vstd::prelude::*;

verus! {

/// The code of the character `0`; the other nine digits follow it in order.
const ZERO: u8 = 48;

/// The character that writes the digit `d`, for `d` in `0..=9`.
pub open spec fn digit_char(d: nat) -> char {
    ('0' as nat + d) as char
}

/// The decimal notation of `n`: most significant digit first, no leading zeros,
/// and the single digit `0` for zero.
pub open spec fn decimal(n: nat) -> Seq<char>
    decreases n,
{
    if n < 10 {
        seq![digit_char(n)]
    } else {
        decimal(n / 10).push(digit_char(n % 10))
    }
}

/// Taken on trust from the standard library, not proved here: `String::push` keeps
/// the characters already in the string as they are and puts `ch` after the last.
pub assume_specification[ String::push ](s: &mut String, ch: char)
    ensures
        final(s)@ == old(s)@.push(ch),
;

/// Appends the decimal notation of `n` to `out`.
pub fn push_decimal(out: &mut String, n: u64)
    ensures
        final(out)@ == old(out)@ + decimal(n as nat),
    decreases n,
{
    if n >= 10 {
        push_decimal(out, n / 10);
    }
    let d: u8 = (n % 10) as u8;
    let c: char = (ZERO + d) as char;
    out.push(c);
    proof {
        let before = old(out)@;
        if n >= 10 {
            assert(before + decimal(n as nat) =~= (before + decimal((n / 10) as nat)).push(c));
        } else {
            assert(before + decimal(n as nat) =~= before.push(c));
        }
    }
}

/// The decimal notation of `n` as a string.
pub fn decimal_string(n: u64) -> (s: String)
    ensures
        s@ == decimal(n as nat),
{
    let mut s = String::new();
    push_decimal(&mut s, n);
    assert(s@ =~= decimal(n as nat));
    s
}

} // verus!
