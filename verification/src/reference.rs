//! Structured creditor references: a fixed-layout base string derived from
//! the bill, client and year, completed with mod-97 check digits so that the
//! whole reference satisfies the standard check-digit relation.

use vstd::prelude::*;
use crate::strutil::{dec_digit_char, dec_seq, is_dec_digit, push_char, push_dec_fixed};

verus! {

/// Characters admitted in a reference body: decimal digits and upper-case
/// latin letters.
pub open spec fn ref_char(c: char) -> bool {
    is_dec_digit(c) || 65 <= c as u32 <= 90
}

/// The numeric code a character contributes to the mod-97 computation:
/// digits keep their value, letters 'A'..='Z' map to 10..=35.
pub open spec fn ref_char_code(c: char) -> int {
    if is_dec_digit(c) {
        c as u32 - 48
    } else {
        c as u32 - 55
    }
}

/// Folds one character into a running mod-97 remainder. A digit contributes
/// one decimal digit; a letter contributes its two-digit code.
pub open spec fn mod97_push(acc: int, c: char) -> int {
    if is_dec_digit(c) {
        (acc * 10 + ref_char_code(c)) % 97
    } else {
        (acc * 100 + ref_char_code(c)) % 97
    }
}

/// The mod-97 remainder of the decimal expansion of a character sequence,
/// folded left to right.
pub open spec fn mod97(s: Seq<char>) -> int
    decreases s.len(),
{
    if s.len() == 0 {
        0
    } else {
        mod97_push(mod97(s.drop_last()), s.last())
    }
}

pub proof fn lemma_mod97_bound(s: Seq<char>)
    ensures
        0 <= mod97(s) < 97,
    decreases s.len(),
{
    if s.len() > 0 {
        lemma_mod97_bound(s.drop_last());
        vstd::arithmetic::div_mod::lemma_mod_bound(
            mod97(s.drop_last()) * 10 + ref_char_code(s.last()),
            97,
        );
        vstd::arithmetic::div_mod::lemma_mod_bound(
            mod97(s.drop_last()) * 100 + ref_char_code(s.last()),
            97,
        );
    }
}

pub proof fn lemma_mod97_snoc(s: Seq<char>, c: char)
    ensures
        mod97(s.push(c)) == mod97_push(mod97(s), c),
{
    assert(s.push(c).drop_last() =~= s);
}

/// The check-digit relation: the reference starts with the scheme letters,
/// and moving its first four characters behind the rest leaves a decimal
/// expansion with remainder 1 modulo 97.
pub open spec fn reference_checksum_ok(s: Seq<char>) -> bool {
    &&& s.len() >= 4
    &&& s[0] == 'R'
    &&& s[1] == 'F'
    &&& mod97(s.skip(4) + s.take(4)) == 1
}

/// The three-digit segment derived from the client identifier. The offset
/// keeps small identifiers away from an all-zero segment.
pub open spec fn client_segment(client_id: u64) -> nat {
    ((client_id + 420) % 1000) as nat
}

/// The four-digit segment derived from the bill identifier.
pub open spec fn bill_segment(bill_id: u64) -> nat {
    ((bill_id + 4200) % 10000) as nat
}

/// The unchecked base string: a four-digit year, a separator letter, the
/// client segment, a second separator letter, and the bill segment.
pub open spec fn spec_reference_body(bill_id: u64, client_id: u64, year: i32) -> Seq<char> {
    dec_seq(year as nat, 4) + seq!['Y'] + dec_seq(client_segment(client_id), 3) + seq!['K']
        + dec_seq(bill_segment(bill_id), 4)
}

/// The check digits completing a body: two digits chosen so that the
/// rearranged reference has remainder 1 modulo 97.
pub open spec fn spec_check_digits(body: Seq<char>) -> int {
    98 - mod97(body + seq!['R', 'F', '0', '0'])
}

/// The complete reference in electronic form: scheme letters, check digits,
/// body, with no separators.
pub open spec fn spec_reference(bill_id: u64, client_id: u64, year: i32) -> Seq<char> {
    let body = spec_reference_body(bill_id, client_id, year);
    seq!['R', 'F'] + dec_seq(spec_check_digits(body) as nat, 2) + body
}

/// The reference in print form: the electronic form split into groups of
/// four characters separated by single spaces.
pub open spec fn spec_reference_display(bill_id: u64, client_id: u64, year: i32) -> Seq<char> {
    let e = spec_reference(bill_id, client_id, year);
    e.take(4) + seq![' '] + e.subrange(4, 8) + seq![' '] + e.subrange(8, 12) + seq![' ']
        + e.subrange(12, 16) + seq![' '] + e.skip(16)
}

/// The character sequence with all spaces removed.
pub open spec fn strip_spaces(s: Seq<char>) -> Seq<char> {
    s.filter(|c: char| c != ' ')
}

proof fn lemma_strip_spaces_none(s: Seq<char>)
    requires
        forall|i: int| 0 <= i < s.len() ==> s[i] != ' ',
    ensures
        strip_spaces(s) == s,
    decreases s.len(),
{
    reveal(Seq::filter);
    if s.len() == 0 {
        assert(s.filter(|c: char| c != ' ') =~= s);
    } else {
        lemma_strip_spaces_none(s.drop_last());
        assert(s.filter(|c: char| c != ' ') =~= s.drop_last().filter(|c: char| c != ' ').push(
            s.last(),
        ));
        assert(s.drop_last().push(s.last()) =~= s);
    }
}

proof fn lemma_strip_spaces_single_space()
    ensures
        strip_spaces(seq![' ']) == Seq::<char>::empty(),
{
    reveal(Seq::filter);
    let s = seq![' '];
    assert(s.drop_last() =~= Seq::<char>::empty());
    assert(Seq::<char>::empty().filter(|c: char| c != ' ') =~= Seq::<char>::empty());
    assert(s.filter(|c: char| c != ' ') =~= Seq::<char>::empty());
}

proof fn lemma_dec_digit_code(d: int)
    requires
        0 <= d <= 9,
    ensures
        is_dec_digit(dec_digit_char(d)),
        ref_char_code(dec_digit_char(d)) == d,
{
}

/// Folding two decimal digits of `c` into remainder `b` is the same as one
/// linear step by `b * 100 + c`.
proof fn lemma_two_digit_fold(b: int, c: int)
    requires
        0 <= b < 97,
        0 <= c <= 98,
    ensures
        (((b * 10 + c / 10) % 97) * 10 + c % 10) % 97 == (b * 100 + c) % 97,
{
    let x = b * 10 + c / 10;
    vstd::arithmetic::div_mod::lemma_mod_bound(c, 10);
    vstd::arithmetic::div_mod::lemma_mul_mod_noop_left(x, 10, 97);
    assert(((x % 97) * 10) % 97 == (x * 10) % 97);
    vstd::arithmetic::div_mod::lemma_add_mod_noop((x % 97) * 10, c % 10, 97);
    vstd::arithmetic::div_mod::lemma_add_mod_noop(x * 10, c % 10, 97);
    vstd::arithmetic::div_mod::lemma_mod_twice((x % 97) * 10, 97);
    vstd::arithmetic::div_mod::lemma_small_mod((c % 10) as nat, 97);
    assert(((x % 97) * 10 + c % 10) % 97 == (x * 10 + c % 10) % 97);
    vstd::arithmetic::div_mod::lemma_fundamental_div_mod(c, 10);
    assert(x * 10 + c % 10 == b * 100 + c) by (nonlinear_arith)
        requires
            x == b * 10 + c / 10 && c == 10 * (c / 10) + c % 10,
    ;
}

/// Appending the scheme letters and the check digits of a body to that body
/// yields remainder 1: the generated layout always passes the check.
#[verifier::rlimit(50)]
proof fn lemma_check_digits(body: Seq<char>)
    ensures
        2 <= spec_check_digits(body) <= 98,
        mod97(body + seq!['R', 'F'] + dec_seq(spec_check_digits(body) as nat, 2)) == 1,
{
    let m0 = mod97(body);
    let a = mod97_push(m0, 'R');
    let b = mod97_push(a, 'F');
    assert(body + seq!['R', 'F', '0', '0'] =~= body.push('R').push('F').push('0').push('0'));
    lemma_mod97_snoc(body, 'R');
    lemma_mod97_snoc(body.push('R'), 'F');
    lemma_mod97_snoc(body.push('R').push('F'), '0');
    lemma_mod97_snoc(body.push('R').push('F').push('0'), '0');
    let m2 = mod97(body + seq!['R', 'F', '0', '0']);
    lemma_mod97_bound(body.push('R').push('F'));
    assert(b == mod97(body.push('R').push('F')));
    // Folding in the two placeholder zero digits multiplies by 100 modulo 97.
    assert(m2 == (b * 100) % 97) by {
        assert(m2 == (((b * 10) % 97) * 10) % 97);
        vstd::arithmetic::div_mod::lemma_mul_mod_noop_left(b * 10, 10, 97);
    }
    vstd::arithmetic::div_mod::lemma_mod_bound(b * 100, 97);
    let c = 98 - m2;
    assert(c == spec_check_digits(body));
    assert(2 <= c <= 98);

    // The two check digits of c.
    let d1 = (c / 10) as nat;
    let d2 = (c % 10) as nat;
    assert(c / 10 <= 9);
    vstd::arithmetic::div_mod::lemma_mod_bound(c, 10);
    let cn = c as nat;
    assert(dec_seq(cn / 10 / 10, 0) =~= Seq::<char>::empty());
    assert(dec_seq(cn / 10, 1) =~= seq![dec_digit_char(((cn / 10) % 10) as int)]);
    assert(dec_seq(cn, 2) =~= seq![
        dec_digit_char(((cn / 10) % 10) as int),
        dec_digit_char((cn % 10) as int),
    ]);
    vstd::arithmetic::div_mod::lemma_small_mod((c as nat) / 10, 10);
    lemma_dec_digit_code(d1 as int);
    lemma_dec_digit_code(d2 as int);

    let target = body + seq!['R', 'F'] + dec_seq(c as nat, 2);
    assert(target =~= body.push('R').push('F').push(dec_digit_char(d1 as int)).push(
        dec_digit_char(d2 as int),
    ));
    lemma_mod97_snoc(body.push('R').push('F'), dec_digit_char(d1 as int));
    lemma_mod97_snoc(
        body.push('R').push('F').push(dec_digit_char(d1 as int)),
        dec_digit_char(d2 as int),
    );
    let t1 = mod97(body.push('R').push('F').push(dec_digit_char(d1 as int)));
    assert(t1 == (b * 10 + c / 10) % 97);
    let t2 = mod97(target);
    assert(t2 == (t1 * 10 + c % 10) % 97);

    // Collapse the two digit folds into a single linear expression mod 97.
    lemma_two_digit_fold(b, c);
    assert(t2 == (b * 100 + c) % 97);

    // b * 100 + c == 97 * (b * 100 / 97) + 98, so the remainder is 1.
    vstd::arithmetic::div_mod::lemma_fundamental_div_mod(b * 100, 97);
    let q = b * 100 / 97;
    assert(b * 100 + c == 97 * q + 98);
    vstd::arithmetic::div_mod::lemma_mod_multiples_vanish(q, 98, 97);
    assert((97 * q + 98) % 97 == 98int % 97);
    assert(98int % 97 == 1);
}

/// A generated reference read back without its grouping spaces is exactly
/// the electronic form, and that form satisfies the mod-97 check-digit
/// relation: any validator of the scheme accepts it.
pub proof fn lemma_display_reference_valid(bill_id: u64, client_id: u64, year: i32)
    requires
        0 <= year <= 9999,
    ensures
        strip_spaces(spec_reference_display(bill_id, client_id, year)) == spec_reference(
            bill_id,
            client_id,
            year,
        ),
        reference_checksum_ok(spec_reference(bill_id, client_id, year)),
{
    broadcast use vstd::seq_lib::group_seq_lib_default;

    lemma_generated_reference_checksum_ok(bill_id, client_id, year);
    let e = spec_reference(bill_id, client_id, year);
    let d = spec_reference_display(bill_id, client_id, year);
    lemma_dec_seq_len_digits_body(bill_id, client_id, year);
    let body = spec_reference_body(bill_id, client_id, year);
    lemma_check_digits(body);
    crate::strutil::lemma_dec_seq_len_digits(spec_check_digits(body) as nat, 2);
    assert(e.len() == 17);
    lemma_reference_chars(bill_id, client_id, year);
    lemma_strip_spaces_single_space();
    lemma_strip_spaces_none(e.take(4));
    lemma_strip_spaces_none(e.subrange(4, 8));
    lemma_strip_spaces_none(e.subrange(8, 12));
    lemma_strip_spaces_none(e.subrange(12, 16));
    lemma_strip_spaces_none(e.skip(16));
    assert(strip_spaces(d) =~= e.take(4) + e.subrange(4, 8) + e.subrange(8, 12) + e.subrange(
        12,
        16,
    ) + e.skip(16));
    assert(strip_spaces(d) =~= e);
}

/// Every character of the electronic reference is a digit or an upper-case
/// letter; in particular none is a space.
proof fn lemma_reference_chars(bill_id: u64, client_id: u64, year: i32)
    requires
        0 <= year <= 9999,
    ensures
        forall|i: int|
            0 <= i < spec_reference(bill_id, client_id, year).len() ==> ref_char(
                #[trigger] spec_reference(bill_id, client_id, year)[i],
            ),
{
    let e = spec_reference(bill_id, client_id, year);
    let body = spec_reference_body(bill_id, client_id, year);
    let y4 = dec_seq(year as nat, 4);
    let c3 = dec_seq(client_segment(client_id), 3);
    let b4 = dec_seq(bill_segment(bill_id), 4);
    lemma_check_digits(body);
    let cc = dec_seq(spec_check_digits(body) as nat, 2);
    crate::strutil::lemma_dec_seq_len_digits(spec_check_digits(body) as nat, 2);
    crate::strutil::lemma_dec_seq_len_digits(year as nat, 4);
    crate::strutil::lemma_dec_seq_len_digits(client_segment(client_id), 3);
    crate::strutil::lemma_dec_seq_len_digits(bill_segment(bill_id), 4);
    assert forall|i: int| 0 <= i < e.len() implies ref_char(#[trigger] e[i]) by {
        if i < 2 {
            assert(e[i] == seq!['R', 'F'][i]);
        } else if i < 4 {
            assert(e[i] == cc[i - 2]);
        } else if i < 8 {
            assert(e[i] == y4[i - 4]);
        } else if i == 8 {
            assert(e[i] == 'Y');
        } else if i < 12 {
            assert(e[i] == c3[i - 9]);
        } else if i == 12 {
            assert(e[i] == 'K');
        } else {
            assert(e[i] == b4[i - 13]);
        }
    }
}

/// Every generated reference satisfies the mod-97 check-digit relation.
pub proof fn lemma_generated_reference_checksum_ok(bill_id: u64, client_id: u64, year: i32)
    requires
        0 <= year <= 9999,
    ensures
        reference_checksum_ok(spec_reference(bill_id, client_id, year)),
{
    let body = spec_reference_body(bill_id, client_id, year);
    let r = spec_reference(bill_id, client_id, year);
    lemma_check_digits(body);
    let c = spec_check_digits(body);
    lemma_dec_seq_len_digits_body(bill_id, client_id, year);
    vstd::arithmetic::div_mod::lemma_mod_bound(c, 100);
    crate::strutil::lemma_dec_seq_len_digits(c as nat, 2);
    assert(r.len() == 4 + body.len());
    assert(r.skip(4) =~= body);
    assert(r.take(4) =~= seq!['R', 'F'] + dec_seq(c as nat, 2));
    assert(r.skip(4) + r.take(4) =~= body + seq!['R', 'F'] + dec_seq(c as nat, 2));
}

proof fn lemma_dec_seq_len_digits_body(bill_id: u64, client_id: u64, year: i32)
    ensures
        spec_reference_body(bill_id, client_id, year).len() == 13,
{
    crate::strutil::lemma_dec_seq_len_digits(year as nat, 4);
    crate::strutil::lemma_dec_seq_len_digits(client_segment(client_id), 3);
    crate::strutil::lemma_dec_seq_len_digits(bill_segment(bill_id), 4);
}

/// Builds the unchecked base string for a reference.
fn build_reference_body(bill_id: u64, client_id: u64, year: i32) -> (b: String)
    requires
        0 <= year <= 9999,
    ensures
        b@ == spec_reference_body(bill_id, client_id, year),
        b@.len() == 13,
        forall|i: int| 0 <= i < b@.len() ==> ref_char(#[trigger] b@[i]),
{
    proof {
        crate::strutil::lemma_pow10_small();
    }
    let client_seg: u64 = (client_id % 1000 + 420) % 1000;
    let bill_seg: u64 = (bill_id % 10000 + 4200) % 10000;
    proof {
        vstd::arithmetic::div_mod::lemma_add_mod_noop(client_id as int, 420, 1000);
        vstd::arithmetic::div_mod::lemma_small_mod(420, 1000);
        vstd::arithmetic::div_mod::lemma_mod_twice(client_id as int + 420, 1000);
        assert(client_seg == client_segment(client_id));
        vstd::arithmetic::div_mod::lemma_add_mod_noop(bill_id as int, 4200, 10000);
        vstd::arithmetic::div_mod::lemma_small_mod(4200, 10000);
        vstd::arithmetic::div_mod::lemma_mod_twice(bill_id as int + 4200, 10000);
        assert(bill_seg == bill_segment(bill_id));
    }

    let mut body = String::new();
    push_dec_fixed(&mut body, year as u64, 4);
    push_char(&mut body, 'Y');
    push_dec_fixed(&mut body, client_seg, 3);
    push_char(&mut body, 'K');
    push_dec_fixed(&mut body, bill_seg, 4);
    proof {
        assert(body@ =~= spec_reference_body(bill_id, client_id, year));
        let y4 = dec_seq(year as nat, 4);
        let c3 = dec_seq(client_segment(client_id), 3);
        let b4 = dec_seq(bill_segment(bill_id), 4);
        crate::strutil::lemma_dec_seq_len_digits(year as nat, 4);
        crate::strutil::lemma_dec_seq_len_digits(client_segment(client_id), 3);
        crate::strutil::lemma_dec_seq_len_digits(bill_segment(bill_id), 4);
        assert forall|i: int| 0 <= i < body@.len() implies ref_char(#[trigger] body@[i]) by {
            if i < 4 {
                assert(body@[i] == y4[i]);
            } else if i == 4 {
                assert(body@[i] == 'Y');
            } else if i < 8 {
                assert(body@[i] == c3[i - 5]);
            } else if i == 8 {
                assert(body@[i] == 'K');
            } else {
                assert(body@[i] == b4[i - 9]);
            }
        }
    }
    body
}

/// Computes the two check digits completing a reference body.
fn reference_check_digits(body: &str) -> (c: u64)
    requires
        forall|i: int| 0 <= i < body@.len() ==> ref_char(#[trigger] body@[i]),
    ensures
        c == spec_check_digits(body@),
        2 <= c <= 98,
{
    // Fold the body and the scheme placeholder through the mod-97 relation.
    let mut acc: u64 = mod97_of_str(body);
    acc = mod97_step(acc, 'R');
    acc = mod97_step(acc, 'F');
    acc = mod97_step(acc, '0');
    acc = mod97_step(acc, '0');
    proof {
        let b = body@;
        assert(b + seq!['R', 'F', '0', '0'] =~= b.push('R').push('F').push('0').push('0'));
        lemma_mod97_snoc(b, 'R');
        lemma_mod97_snoc(b.push('R'), 'F');
        lemma_mod97_snoc(b.push('R').push('F'), '0');
        lemma_mod97_snoc(b.push('R').push('F').push('0'), '0');
        assert(acc == mod97(b + seq!['R', 'F', '0', '0']));
    }
    98 - acc
}

/// Assembles the print form: scheme letters, check digits, then the body in
/// groups of four characters separated by spaces.
fn format_reference_display(check: u64, body: &String) -> (r: String)
    requires
        check < 100,
        body@.len() == 13,
        forall|i: int| 0 <= i < body@.len() ==> ref_char(#[trigger] body@[i]),
    ensures
        r@ == seq!['R', 'F'] + dec_seq(check as nat, 2) + seq![' '] + body@.subrange(0, 4)
            + seq![' '] + body@.subrange(4, 8) + seq![' '] + body@.subrange(8, 12) + seq![' ']
            + body@.subrange(12, 13),
{
    proof {
        crate::strutil::lemma_pow10_small();
    }
    let mut r = String::new();
    push_char(&mut r, 'R');
    push_char(&mut r, 'F');
    push_dec_fixed(&mut r, check, 2);
    push_char(&mut r, ' ');
    let bs = body.as_str();
    push_char(&mut r, bs.get_char(0));
    push_char(&mut r, bs.get_char(1));
    push_char(&mut r, bs.get_char(2));
    push_char(&mut r, bs.get_char(3));
    push_char(&mut r, ' ');
    push_char(&mut r, bs.get_char(4));
    push_char(&mut r, bs.get_char(5));
    push_char(&mut r, bs.get_char(6));
    push_char(&mut r, bs.get_char(7));
    push_char(&mut r, ' ');
    push_char(&mut r, bs.get_char(8));
    push_char(&mut r, bs.get_char(9));
    push_char(&mut r, bs.get_char(10));
    push_char(&mut r, bs.get_char(11));
    push_char(&mut r, ' ');
    push_char(&mut r, bs.get_char(12));
    proof {
        assert(r@ =~= seq!['R', 'F'] + dec_seq(check as nat, 2) + seq![' '] + body@.subrange(
            0,
            4,
        ) + seq![' '] + body@.subrange(4, 8) + seq![' '] + body@.subrange(8, 12) + seq![' ']
            + body@.subrange(12, 13));
    }
    r
}

/// Generates the structured creditor reference for a bill in print form:
/// scheme letters, two mod-97 check digits, then the fixed-width base string
/// built from the year, the client identifier and the bill identifier, all
/// grouped in blocks of four characters separated by spaces.
pub fn generate_reference(bill_id: u64, client_id: u64, year: i32) -> (r: String)
    requires
        0 <= year <= 9999,
    ensures
        r@ == spec_reference_display(bill_id, client_id, year),
        strip_spaces(r@) == spec_reference(bill_id, client_id, year),
        reference_checksum_ok(strip_spaces(r@)),
{
    let body = build_reference_body(bill_id, client_id, year);
    let check = reference_check_digits(body.as_str());
    let r = format_reference_display(check, &body);
    proof {
        let e = spec_reference(bill_id, client_id, year);
        let b = spec_reference_body(bill_id, client_id, year);
        crate::strutil::lemma_dec_seq_len_digits(spec_check_digits(b) as nat, 2);
        assert(check == spec_check_digits(b));
        assert(e =~= seq!['R', 'F'] + dec_seq(check as nat, 2) + b);
        assert(e.take(4) =~= seq!['R', 'F'] + dec_seq(check as nat, 2));
        assert(e.subrange(4, 8) =~= b.subrange(0, 4));
        assert(e.subrange(8, 12) =~= b.subrange(4, 8));
        assert(e.subrange(12, 16) =~= b.subrange(8, 12));
        assert(e.skip(16) =~= b.subrange(12, 13));
        assert(r@ =~= spec_reference_display(bill_id, client_id, year));
        lemma_display_reference_valid(bill_id, client_id, year);
    }
    r
}

/// Folds one character into a running mod-97 remainder, as executable code.
fn mod97_step(acc: u64, c: char) -> (r: u64)
    requires
        acc < 97,
        ref_char(c),
    ensures
        r == mod97_push(acc as int, c),
        r < 97,
{
    let code = c as u32 as u64;
    if code <= 57 {
        (acc * 10 + (code - 48)) % 97
    } else {
        (acc * 100 + (code - 55)) % 97
    }
}

/// The mod-97 remainder of a whole string of reference characters.
fn mod97_of_str(s: &str) -> (r: u64)
    requires
        forall|i: int| 0 <= i < s@.len() ==> ref_char(#[trigger] s@[i]),
    ensures
        r == mod97(s@),
        r < 97,
{
    let n = s.unicode_len();
    let mut acc: u64 = 0;
    let mut i: usize = 0;
    while i < n
        invariant
            n == s@.len(),
            0 <= i <= n,
            acc == mod97(s@.take(i as int)),
            acc < 97,
            forall|j: int| 0 <= j < s@.len() ==> ref_char(#[trigger] s@[j]),
        decreases n - i,
    {
        let c = s.get_char(i);
        proof {
            assert(s@.take(i + 1).drop_last() =~= s@.take(i as int));
            assert(s@.take(i + 1).last() == s@[i as int]);
        }
        acc = mod97_step(acc, c);
        i = i + 1;
    }
    proof {
        assert(s@.take(n as int) =~= s@);
    }
    acc
}

/// Adding a fixed offset and reducing by a modulus stays injective inside
/// one modulus-wide window.
proof fn lemma_offset_mod_injective(a1: int, a2: int, offset: int, m: int)
    requires
        0 <= a1 < m,
        0 <= a2 < m,
        0 <= offset,
        0 < m,
        (a1 + offset) % m == (a2 + offset) % m,
    ensures
        a1 == a2,
{
    let x1 = a1 + offset;
    let x2 = a2 + offset;
    vstd::arithmetic::div_mod::lemma_fundamental_div_mod(x1, m);
    vstd::arithmetic::div_mod::lemma_fundamental_div_mod(x2, m);
    let q1 = x1 / m;
    let q2 = x2 / m;
    assert(x1 - x2 == m * (q1 - q2)) by (nonlinear_arith)
        requires
            x1 == m * q1 + x1 % m && x2 == m * q2 + x2 % m && x1 % m == x2 % m,
    ;
    if q1 != q2 {
        assert(m * (q1 - q2) >= m || m * (q1 - q2) <= -m) by (nonlinear_arith)
            requires
                0 < m && q1 != q2,
        ;
    }
}

/// Within the widths of the reference fields, the generated reference is
/// injective: two references agree only when the bill, the client and the
/// year all agree.
pub proof fn lemma_reference_injective(
    bill_id1: u64,
    client_id1: u64,
    year1: i32,
    bill_id2: u64,
    client_id2: u64,
    year2: i32,
)
    requires
        0 <= year1 <= 9999,
        0 <= year2 <= 9999,
        bill_id1 < 10000,
        bill_id2 < 10000,
        client_id1 < 1000,
        client_id2 < 1000,
        !(bill_id1 == bill_id2 && client_id1 == client_id2 && year1 == year2),
    ensures
        spec_reference(bill_id1, client_id1, year1) != spec_reference(bill_id2, client_id2, year2),
{
    crate::strutil::lemma_pow10_small();
    let e1 = spec_reference(bill_id1, client_id1, year1);
    let e2 = spec_reference(bill_id2, client_id2, year2);
    let body1 = spec_reference_body(bill_id1, client_id1, year1);
    let body2 = spec_reference_body(bill_id2, client_id2, year2);
    lemma_check_digits(body1);
    lemma_check_digits(body2);
    crate::strutil::lemma_dec_seq_len_digits(spec_check_digits(body1) as nat, 2);
    crate::strutil::lemma_dec_seq_len_digits(spec_check_digits(body2) as nat, 2);
    crate::strutil::lemma_dec_seq_len_digits(year1 as nat, 4);
    crate::strutil::lemma_dec_seq_len_digits(year2 as nat, 4);
    crate::strutil::lemma_dec_seq_len_digits(client_segment(client_id1), 3);
    crate::strutil::lemma_dec_seq_len_digits(client_segment(client_id2), 3);
    crate::strutil::lemma_dec_seq_len_digits(bill_segment(bill_id1), 4);
    crate::strutil::lemma_dec_seq_len_digits(bill_segment(bill_id2), 4);
    if e1 == e2 {
        assert(e1.skip(4) =~= body1);
        assert(e2.skip(4) =~= body2);
        assert(body1 == body2);
        assert(body1.subrange(0, 4) =~= dec_seq(year1 as nat, 4));
        assert(body2.subrange(0, 4) =~= dec_seq(year2 as nat, 4));
        crate::strutil::lemma_dec_seq_injective(year1 as nat, year2 as nat, 4);
        assert(year1 == year2);
        assert(body1.subrange(5, 8) =~= dec_seq(client_segment(client_id1), 3));
        assert(body2.subrange(5, 8) =~= dec_seq(client_segment(client_id2), 3));
        crate::strutil::lemma_dec_seq_injective(
            client_segment(client_id1),
            client_segment(client_id2),
            3,
        );
        lemma_offset_mod_injective(client_id1 as int, client_id2 as int, 420, 1000);
        assert(client_id1 == client_id2);
        assert(body1.subrange(9, 13) =~= dec_seq(bill_segment(bill_id1), 4));
        assert(body2.subrange(9, 13) =~= dec_seq(bill_segment(bill_id2), 4));
        crate::strutil::lemma_dec_seq_injective(bill_segment(bill_id1), bill_segment(bill_id2), 4);
        lemma_offset_mod_injective(bill_id1 as int, bill_id2 as int, 4200, 10000);
        assert(false);
    }
}

/// Distinct bill identifiers below the segment modulus give references that
/// differ in the bill-derived segment (the last four characters).
pub proof fn lemma_references_differ_in_bill_segment(
    bill_id1: u64,
    bill_id2: u64,
    client_id: u64,
    year: i32,
)
    requires
        0 <= year <= 9999,
        bill_id1 < 10000,
        bill_id2 < 10000,
        bill_id1 != bill_id2,
    ensures
        spec_reference(bill_id1, client_id, year).skip(13)
            != spec_reference(bill_id2, client_id, year).skip(13),
        spec_reference(bill_id1, client_id, year) != spec_reference(bill_id2, client_id, year),
        spec_reference_display(bill_id1, client_id, year) != spec_reference_display(
            bill_id2,
            client_id,
            year,
        ),
{
    lemma_display_reference_valid(bill_id1, client_id, year);
    lemma_display_reference_valid(bill_id2, client_id, year);
    let r1 = spec_reference(bill_id1, client_id, year);
    let r2 = spec_reference(bill_id2, client_id, year);
    let body1 = spec_reference_body(bill_id1, client_id, year);
    let body2 = spec_reference_body(bill_id2, client_id, year);
    lemma_dec_seq_len_digits_body(bill_id1, client_id, year);
    lemma_dec_seq_len_digits_body(bill_id2, client_id, year);
    lemma_check_digits(body1);
    lemma_check_digits(body2);
    crate::strutil::lemma_dec_seq_len_digits(spec_check_digits(body1) as nat, 2);
    crate::strutil::lemma_dec_seq_len_digits(spec_check_digits(body2) as nat, 2);
    crate::strutil::lemma_dec_seq_len_digits(year as nat, 4);
    crate::strutil::lemma_dec_seq_len_digits(client_segment(client_id), 3);
    crate::strutil::lemma_dec_seq_len_digits(bill_segment(bill_id1), 4);
    crate::strutil::lemma_dec_seq_len_digits(bill_segment(bill_id2), 4);

    // The two bill segments hold distinct values.
    assert(bill_segment(bill_id1) != bill_segment(bill_id2)) by {
        vstd::arithmetic::div_mod::lemma_fundamental_div_mod(bill_id1 as int + 4200, 10000);
        vstd::arithmetic::div_mod::lemma_fundamental_div_mod(bill_id2 as int + 4200, 10000);
        vstd::arithmetic::div_mod::lemma_mod_bound(bill_id1 as int + 4200, 10000);
        vstd::arithmetic::div_mod::lemma_mod_bound(bill_id2 as int + 4200, 10000);
    }
    crate::strutil::lemma_pow10_small();
    if dec_seq(bill_segment(bill_id1), 4) == dec_seq(bill_segment(bill_id2), 4) {
        crate::strutil::lemma_dec_seq_injective(
            bill_segment(bill_id1),
            bill_segment(bill_id2),
            4,
        );
    }
    assert(r1.skip(13) =~= dec_seq(bill_segment(bill_id1), 4));
    assert(r2.skip(13) =~= dec_seq(bill_segment(bill_id2), 4));
    assert(r1.skip(13) != r2.skip(13));
}

} // verus!
