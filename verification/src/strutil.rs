//! Small verified helpers for building strings: appending single characters
//! and fixed-width decimal renderings of unsigned numbers.

use vstd::prelude::*;

verus! {

/// True for the ten ASCII decimal digit characters.
pub open spec fn is_dec_digit(c: char) -> bool {
    48 <= c as u32 <= 57
}

/// The decimal digit character for a value in 0..=9.
pub open spec fn dec_digit_char(d: int) -> char {
    if d == 0 {
        '0'
    } else if d == 1 {
        '1'
    } else if d == 2 {
        '2'
    } else if d == 3 {
        '3'
    } else if d == 4 {
        '4'
    } else if d == 5 {
        '5'
    } else if d == 6 {
        '6'
    } else if d == 7 {
        '7'
    } else if d == 8 {
        '8'
    } else {
        '9'
    }
}

/// 10 raised to the given power.
pub open spec fn pow10(w: nat) -> nat
    decreases w,
{
    if w == 0 {
        1
    } else {
        10 * pow10((w - 1) as nat)
    }
}

/// The exactly `w`-character decimal rendering of `n` (leading zeros kept),
/// most significant digit first.
pub open spec fn dec_seq(n: nat, w: nat) -> Seq<char>
    decreases w,
{
    if w == 0 {
        Seq::empty()
    } else {
        dec_seq(n / 10, (w - 1) as nat).push(dec_digit_char((n % 10) as int))
    }
}

pub proof fn lemma_dec_seq_len_digits(n: nat, w: nat)
    ensures
        dec_seq(n, w).len() == w,
        forall|i: int| 0 <= i < w ==> is_dec_digit(#[trigger] dec_seq(n, w)[i]),
    decreases w,
{
    if w > 0 {
        lemma_dec_seq_len_digits(n / 10, (w - 1) as nat);
    }
}

/// Distinct values below `pow10(w)` have distinct `w`-wide renderings.
pub proof fn lemma_dec_seq_injective(n1: nat, n2: nat, w: nat)
    requires
        n1 < pow10(w),
        n2 < pow10(w),
        dec_seq(n1, w) == dec_seq(n2, w),
    ensures
        n1 == n2,
    decreases w,
{
    if w == 0 {
        assert(pow10(0) == 1);
    } else {
        lemma_dec_seq_len_digits(n1 / 10, (w - 1) as nat);
        lemma_dec_seq_len_digits(n2 / 10, (w - 1) as nat);
        assert(dec_seq(n1, w).last() == dec_digit_char((n1 % 10) as int));
        assert(dec_seq(n2, w).last() == dec_digit_char((n2 % 10) as int));
        assert(n1 % 10 == n2 % 10);
        assert(dec_seq(n1, w).drop_last() =~= dec_seq(n1 / 10, (w - 1) as nat));
        assert(dec_seq(n2, w).drop_last() =~= dec_seq(n2 / 10, (w - 1) as nat));
        assert(n1 / 10 < pow10((w - 1) as nat)) by {
            vstd::arithmetic::div_mod::lemma_multiply_divide_lt(
                n1 as int,
                pow10((w - 1) as nat) as int,
                10,
            );
        }
        assert(n2 / 10 < pow10((w - 1) as nat)) by {
            vstd::arithmetic::div_mod::lemma_multiply_divide_lt(
                n2 as int,
                pow10((w - 1) as nat) as int,
                10,
            );
        }
        lemma_dec_seq_injective(n1 / 10, n2 / 10, (w - 1) as nat);
        vstd::arithmetic::div_mod::lemma_fundamental_div_mod(n1 as int, 10);
        vstd::arithmetic::div_mod::lemma_fundamental_div_mod(n2 as int, 10);
    }
}

pub proof fn lemma_pow10_small()
    ensures
        pow10(0) == 1,
        pow10(1) == 10,
        pow10(2) == 100,
        pow10(3) == 1000,
        pow10(4) == 10000,
{
    assert(pow10(0) == 1);
    assert(pow10(1) == 10 * pow10(0));
    assert(pow10(2) == 10 * pow10(1));
    assert(pow10(3) == 10 * pow10(2));
    assert(pow10(4) == 10 * pow10(3));
}

/// Relies on `String::push`: appends exactly the given character.
#[verifier::external_body]
pub fn push_char(s: &mut String, c: char)
    ensures
        final(s)@ == old(s)@.push(c),
{
    s.push(c);
}

/// The decimal digit character for a value in 0..=9, as executable code.
pub fn digit_char(d: u8) -> (c: char)
    requires
        d < 10,
    ensures
        c == dec_digit_char(d as int),
{
    match d {
        0 => '0',
        1 => '1',
        2 => '2',
        3 => '3',
        4 => '4',
        5 => '5',
        6 => '6',
        7 => '7',
        8 => '8',
        _ => '9',
    }
}

/// Appends the `w`-character decimal rendering of `n` to `s`.
pub fn push_dec_fixed(s: &mut String, n: u64, w: usize)
    requires
        n < pow10(w as nat),
    ensures
        final(s)@ == old(s)@ + dec_seq(n as nat, w as nat),
    decreases w,
{
    if w == 0 {
        assert(old(s)@ + dec_seq(n as nat, 0) =~= old(s)@);
    } else {
        assert(n as int / 10 < pow10((w - 1) as nat)) by {
            vstd::arithmetic::div_mod::lemma_multiply_divide_lt(
                n as int,
                pow10((w - 1) as nat) as int,
                10,
            );
        }
        push_dec_fixed(s, n / 10, w - 1);
        let d: u8 = (n % 10) as u8;
        push_char(s, digit_char(d));
        assert(old(s)@ + dec_seq((n / 10) as nat, (w - 1) as nat).push(dec_digit_char(d as int))
            =~= (old(s)@ + dec_seq((n / 10) as nat, (w - 1) as nat)).push(dec_digit_char(d as int)));
    }
}

} // verus!
