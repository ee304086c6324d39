//! Fixed-point money values: amounts are kept in minor units (cents) and
//! quantities in hundredths, so totals and renderings are exact.

use vstd::prelude::*;
use crate::strutil::{dec_digit_char, dec_seq, digit_char, push_char, push_dec_fixed};

verus! {

/// The natural (no leading zero) decimal rendering of a number.
pub open spec fn dec_nat(n: nat) -> Seq<char>
    decreases n,
{
    if n < 10 {
        seq![dec_digit_char(n as int)]
    } else {
        dec_nat(n / 10).push(dec_digit_char((n % 10) as int))
    }
}

/// Appends the natural decimal rendering of `n` to `s`.
pub fn push_dec_nat(s: &mut String, n: u64)
    ensures
        final(s)@ == old(s)@ + dec_nat(n as nat),
    decreases n,
{
    if n < 10 {
        push_char(s, digit_char(n as u8));
        assert(old(s)@ + dec_nat(n as nat) =~= old(s)@.push(dec_digit_char(n as int)));
    } else {
        push_dec_nat(s, n / 10);
        push_char(s, digit_char((n % 10) as u8));
        assert(old(s)@ + dec_nat(n as nat) =~= (old(s)@ + dec_nat((n / 10) as nat)).push(
            dec_digit_char((n % 10) as int),
        ));
    }
}

/// An amount of `c` cents rendered with two decimal places.
pub open spec fn spec_format_cents(c: nat) -> Seq<char> {
    dec_nat(c / 100) + seq!['.'] + dec_seq(c % 100, 2)
}

/// Renders an amount in cents with two decimal places.
pub fn format_cents(c: u64) -> (r: String)
    ensures
        r@ == spec_format_cents(c as nat),
{
    proof {
        crate::strutil::lemma_pow10_small();
    }
    let mut s = String::new();
    push_dec_nat(&mut s, c / 100);
    push_char(&mut s, '.');
    push_dec_fixed(&mut s, c % 100, 2);
    proof {
        assert(s@ =~= spec_format_cents(c as nat));
    }
    s
}

/// A quantity of `q` hundredths rendered the way a plain decimal number
/// prints: no fractional part when whole, one digit when a multiple of a
/// tenth, two digits otherwise.
pub open spec fn spec_format_quantity(q: nat) -> Seq<char> {
    if q % 100 == 0 {
        dec_nat(q / 100)
    } else if q % 10 == 0 {
        dec_nat(q / 100) + seq!['.'] + seq![dec_digit_char(((q / 10) % 10) as int)]
    } else {
        dec_nat(q / 100) + seq!['.'] + dec_seq(q % 100, 2)
    }
}

/// Renders a quantity held in hundredths.
pub fn format_quantity(q: u64) -> (r: String)
    ensures
        r@ == spec_format_quantity(q as nat),
{
    proof {
        crate::strutil::lemma_pow10_small();
    }
    let mut s = String::new();
    push_dec_nat(&mut s, q / 100);
    if q % 100 != 0 {
        push_char(&mut s, '.');
        if q % 10 == 0 {
            let d = ((q / 10) % 10) as u8;
            push_char(&mut s, digit_char(d));
        } else {
            push_dec_fixed(&mut s, q % 100, 2);
        }
    }
    proof {
        assert(s@ =~= spec_format_quantity(q as nat));
    }
    s
}

} // verus!
