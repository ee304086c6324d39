//! Bank account validation: whitespace-stripping, upper-casing, and the
//! international account number check carried out by an outside parser.

use vstd::prelude::*;
use crate::strutil::push_char;

verus! {

/// Whitespace characters removed by normalization.
pub open spec fn is_space_char(c: char) -> bool {
    c == ' ' || c == '\t' || c == '\n' || c == '\r'
}

/// ASCII alphanumeric characters: the only ones that may appear in an
/// account number.
pub open spec fn account_char(c: char) -> bool {
    48 <= c as u32 <= 57 || 65 <= c as u32 <= 90 || 97 <= c as u32 <= 122
}

/// The upper-case counterpart of a lower-case ASCII letter; any other
/// character is unchanged.
pub open spec fn upper_char(c: char) -> char {
    if c == 'a' {
        'A'
    } else if c == 'b' {
        'B'
    } else if c == 'c' {
        'C'
    } else if c == 'd' {
        'D'
    } else if c == 'e' {
        'E'
    } else if c == 'f' {
        'F'
    } else if c == 'g' {
        'G'
    } else if c == 'h' {
        'H'
    } else if c == 'i' {
        'I'
    } else if c == 'j' {
        'J'
    } else if c == 'k' {
        'K'
    } else if c == 'l' {
        'L'
    } else if c == 'm' {
        'M'
    } else if c == 'n' {
        'N'
    } else if c == 'o' {
        'O'
    } else if c == 'p' {
        'P'
    } else if c == 'q' {
        'Q'
    } else if c == 'r' {
        'R'
    } else if c == 's' {
        'S'
    } else if c == 't' {
        'T'
    } else if c == 'u' {
        'U'
    } else if c == 'v' {
        'V'
    } else if c == 'w' {
        'W'
    } else if c == 'x' {
        'X'
    } else if c == 'y' {
        'Y'
    } else if c == 'z' {
        'Z'
    } else {
        c
    }
}

/// The normalized form of an account string: whitespace removed and ASCII
/// letters upper-cased.
pub open spec fn spec_normalize_account(s: Seq<char>) -> Seq<char>
    decreases s.len(),
{
    if s.len() == 0 {
        Seq::empty()
    } else {
        let rest = spec_normalize_account(s.drop_last());
        if is_space_char(s.last()) {
            rest
        } else {
            rest.push(upper_char(s.last()))
        }
    }
}

/// An account string is accepted exactly when its normalized form is
/// non-empty and passes the international account number rules.
pub open spec fn spec_valid_account(s: Seq<char>) -> bool {
    spec_normalize_account(s).len() > 0 && iban_parse_ok(spec_normalize_account(s))
}

/// Whether a string satisfies the international bank account number rules:
/// two upper-case letters, two check digits verified by the mod-97
/// rearrangement, and a country-specific account part.
pub uninterp spec fn iban_parse_ok(s: Seq<char>) -> bool;

/// Relies on `str::parse::<iban::Iban>`: it accepts a string only if every
/// character is ASCII alphanumeric or a grouping space, and rejects an
/// empty string outright.
#[verifier::external_body]
fn parse_iban_ok(s: &str) -> (r: bool)
    ensures
        r == iban_parse_ok(s@),
        s@.len() == 0 ==> r == false,
        (exists|i: int| 0 <= i < s@.len() && !account_char(#[trigger] s@[i]) && s@[i] != ' ')
            ==> r == false,
{
    s.parse::<iban::Iban>().is_ok()
}

/// The upper-case counterpart of a lower-case ASCII letter, as executable
/// code.
fn upper_char_exec(c: char) -> (r: char)
    ensures
        r == upper_char(c),
{
    match c {
        'a' => 'A',
        'b' => 'B',
        'c' => 'C',
        'd' => 'D',
        'e' => 'E',
        'f' => 'F',
        'g' => 'G',
        'h' => 'H',
        'i' => 'I',
        'j' => 'J',
        'k' => 'K',
        'l' => 'L',
        'm' => 'M',
        'n' => 'N',
        'o' => 'O',
        'p' => 'P',
        'q' => 'Q',
        'r' => 'R',
        's' => 'S',
        't' => 'T',
        'u' => 'U',
        'v' => 'V',
        'w' => 'W',
        'x' => 'X',
        'y' => 'Y',
        'z' => 'Z',
        _ => c,
    }
}

/// Normalizes an account string: removes whitespace and upper-cases ASCII
/// letters.
fn normalize_account(s: &str) -> (r: String)
    ensures
        r@ == spec_normalize_account(s@),
{
    let n = s.unicode_len();
    let mut out = String::new();
    let mut i: usize = 0;
    while i < n
        invariant
            n == s@.len(),
            0 <= i <= n,
            out@ == spec_normalize_account(s@.take(i as int)),
        decreases n - i,
    {
        let c = s.get_char(i);
        proof {
            assert(s@.take(i + 1).drop_last() =~= s@.take(i as int));
            assert(s@.take(i + 1).last() == s@[i as int]);
        }
        if !(c == ' ' || c == '\t' || c == '\n' || c == '\r') {
            push_char(&mut out, upper_char_exec(c));
        }
        i = i + 1;
    }
    proof {
        assert(s@.take(n as int) =~= s@);
    }
    out
}

/// No whitespace character survives normalization.
proof fn lemma_normalized_no_space(s: Seq<char>)
    ensures
        forall|i: int|
            0 <= i < spec_normalize_account(s).len() ==> !is_space_char(
                #[trigger] spec_normalize_account(s)[i],
            ),
    decreases s.len(),
{
    if s.len() > 0 {
        lemma_normalized_no_space(s.drop_last());
        let rest = spec_normalize_account(s.drop_last());
        if !is_space_char(s.last()) {
            assert(!is_space_char(upper_char(s.last())));
            assert forall|i: int|
                0 <= i < spec_normalize_account(s).len() implies !is_space_char(
                #[trigger] spec_normalize_account(s)[i],
            ) by {
                if i < rest.len() {
                    assert(spec_normalize_account(s)[i] == rest[i]);
                }
            }
        }
    }
}

/// Decides whether a string is a valid international bank account number
/// after normalization. The empty string and any string that keeps a
/// non-alphanumeric character after normalization are rejected.
pub fn validate_iban(iban_str: &str) -> (r: bool)
    ensures
        r == spec_valid_account(iban_str@),
        spec_normalize_account(iban_str@).len() == 0 ==> r == false,
        (exists|i: int|
            0 <= i < spec_normalize_account(iban_str@).len() && !account_char(
                #[trigger] spec_normalize_account(iban_str@)[i],
            )) ==> r == false,
{
    let cleaned = normalize_account(iban_str);
    if cleaned.as_str().unicode_len() == 0 {
        return false;
    }
    let r = parse_iban_ok(cleaned.as_str());
    proof {
        lemma_normalized_no_space(iban_str@);
        if exists|i: int|
            0 <= i < spec_normalize_account(iban_str@).len() && !account_char(
                #[trigger] spec_normalize_account(iban_str@)[i],
            ) {
            let i = choose|i: int|
                0 <= i < spec_normalize_account(iban_str@).len() && !account_char(
                    #[trigger] spec_normalize_account(iban_str@)[i],
                );
            assert(cleaned@[i] != ' ');
        }
    }
    r
}

} // verus!
