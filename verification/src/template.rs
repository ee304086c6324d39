//! Placeholder substitution for document templates. A placeholder is a key
//! between a double opening brace and the next double closing brace; keys
//! are trimmed of surrounding spaces and replaced by the field value of the
//! same name, or by the empty string when no field supplies one. An opening
//! pair without a closing pair is kept literally, as is all other text.

use vstd::prelude::*;

verus! {

/// The first position at or after `i` where `a` is immediately followed by
/// `b`, if any.
pub open spec fn spec_find2(s: Seq<char>, a: char, b: char, i: int) -> Option<int>
    decreases s.len() - i,
{
    if i < 0 {
        None
    } else if i + 2 > s.len() {
        None
    } else if s[i] == a && s[i + 1] == b {
        Some(i)
    } else {
        spec_find2(s, a, b, i + 1)
    }
}

/// What a successful or failed search means, position by position.
pub proof fn lemma_find2_props(s: Seq<char>, a: char, b: char, from: int)
    requires
        0 <= from,
    ensures
        match spec_find2(s, a, b, from) {
            Some(k) => {
                &&& from <= k
                &&& k + 2 <= s.len()
                &&& s[k] == a
                &&& s[k + 1] == b
                &&& forall|m: int| from <= m < k ==> !((#[trigger] s[m]) == a && s[m + 1] == b)
            },
            None => forall|m: int|
                from <= m && m + 2 <= s.len() ==> !((#[trigger] s[m]) == a && s[m + 1] == b),
        },
    decreases s.len() - from,
{
    if from + 2 > s.len() {
    } else if s[from] == a && s[from + 1] == b {
    } else {
        lemma_find2_props(s, a, b, from + 1);
    }
}

/// The sequence with leading spaces removed.
pub open spec fn spec_trim_start(s: Seq<char>) -> Seq<char>
    decreases s.len(),
{
    if s.len() > 0 && s[0] == ' ' {
        spec_trim_start(s.skip(1))
    } else {
        s
    }
}

/// The sequence with trailing spaces removed.
pub open spec fn spec_trim_end(s: Seq<char>) -> Seq<char>
    decreases s.len(),
{
    if s.len() > 0 && s.last() == ' ' {
        spec_trim_end(s.drop_last())
    } else {
        s
    }
}

/// The value of the first field with the given key, or the empty sequence
/// when no field has it.
pub open spec fn spec_lookup(fields: Seq<(Seq<char>, Seq<char>)>, key: Seq<char>) -> Seq<char>
    decreases fields.len(),
{
    if fields.len() == 0 {
        Seq::empty()
    } else if fields[0].0 == key {
        fields[0].1
    } else {
        spec_lookup(fields.skip(1), key)
    }
}

/// A lookup yields the empty sequence or the value of one of the fields.
pub proof fn lemma_lookup_values(fields: Seq<(Seq<char>, Seq<char>)>, key: Seq<char>)
    ensures
        spec_lookup(fields, key) == Seq::<char>::empty() || exists|k: int|
            0 <= k < fields.len() && spec_lookup(fields, key) == #[trigger] fields[k].1,
    decreases fields.len(),
{
    if fields.len() > 0 && !(fields[0].0 == key) {
        lemma_lookup_values(fields.skip(1), key);
        if spec_lookup(fields, key) != Seq::<char>::empty() {
            let k = choose|k: int|
                0 <= k < fields.skip(1).len() && spec_lookup(fields.skip(1), key)
                    == #[trigger] fields.skip(1)[k].1;
            assert(fields.skip(1)[k] == fields[k + 1]);
            assert(spec_lookup(fields, key) == fields[k + 1].1);
        }
    }
}

/// The key of a placeholder whose opener starts at `i` and whose closer
/// starts at `j`: the text between them, trimmed of spaces.
pub open spec fn spec_key(t: Seq<char>, i: int, j: int) -> Seq<char> {
    spec_trim_end(spec_trim_start(t.subrange(i + 2, j)))
}

/// The filled suffix of a template from position `pos` on: literal text up
/// to the next placeholder, that placeholder's value, and the filled rest.
pub open spec fn spec_fill_from(
    t: Seq<char>,
    fields: Seq<(Seq<char>, Seq<char>)>,
    pos: int,
) -> Seq<char>
    decreases t.len() - pos,
    when 0 <= pos <= t.len()
    via spec_fill_from_dec
{
    match spec_find2(t, '{', '{', pos) {
        None => t.skip(pos),
        Some(i) => match spec_find2(t, '}', '}', i + 2) {
            None => t.skip(pos),
            Some(j) => t.subrange(pos, i) + spec_lookup(fields, spec_key(t, i, j))
                + spec_fill_from(t, fields, j + 2),
        },
    }
}

#[via_fn]
proof fn spec_fill_from_dec(t: Seq<char>, fields: Seq<(Seq<char>, Seq<char>)>, pos: int) {
    match spec_find2(t, '{', '{', pos) {
        None => {},
        Some(i) => {
            lemma_find2_props(t, '{', '{', pos);
            match spec_find2(t, '}', '}', i + 2) {
                None => {},
                Some(j) => {
                    lemma_find2_props(t, '}', '}', i + 2);
                },
            }
        },
    }
}

/// The whole template, filled.
pub open spec fn spec_fill(t: Seq<char>, fields: Seq<(Seq<char>, Seq<char>)>) -> Seq<char> {
    spec_fill_from(t, fields, 0)
}

/// True when the template holds at least one complete placeholder.
pub open spec fn spec_has_placeholder(t: Seq<char>) -> bool {
    match spec_find2(t, '{', '{', 0) {
        None => false,
        Some(i) => spec_find2(t, '}', '}', i + 2) is Some,
    }
}

/// True when no double opening brace occurs in the sequence.
pub open spec fn no_open_brace(s: Seq<char>) -> bool {
    forall|i: int| 0 <= i && i + 1 < s.len() ==> !((#[trigger] s[i]) == '{' && s[i + 1] == '{')
}

/// True when, from position `pos` on, every double opening brace is
/// followed by a closing pair.
pub open spec fn template_closed_from(t: Seq<char>, pos: int) -> bool
    decreases t.len() - pos,
    when 0 <= pos <= t.len()
    via template_closed_from_dec
{
    match spec_find2(t, '{', '{', pos) {
        None => true,
        Some(i) => match spec_find2(t, '}', '}', i + 2) {
            None => false,
            Some(j) => template_closed_from(t, j + 2),
        },
    }
}

#[via_fn]
proof fn template_closed_from_dec(t: Seq<char>, pos: int) {
    match spec_find2(t, '{', '{', pos) {
        None => {},
        Some(i) => {
            lemma_find2_props(t, '{', '{', pos);
            match spec_find2(t, '}', '}', i + 2) {
                None => {},
                Some(j) => {
                    lemma_find2_props(t, '}', '}', i + 2);
                },
            }
        },
    }
}

/// True when every double opening brace in the template is closed.
pub open spec fn template_closed(t: Seq<char>) -> bool {
    template_closed_from(t, 0)
}

/// A double opening brace in a concatenation lies in one part or crosses
/// the boundary; the boundary case needs the left part to end on an
/// opening brace.
proof fn lemma_no_open_concat(x: Seq<char>, y: Seq<char>)
    requires
        no_open_brace(x),
        no_open_brace(y),
        x.len() > 0 ==> x.last() != '{',
    ensures
        no_open_brace(x + y),
{
    let s = x + y;
    assert forall|i: int| 0 <= i && i + 1 < s.len() implies !((#[trigger] s[i]) == '{' && s[i + 1]
        == '{') by {
        if i + 1 < x.len() {
            assert(s[i] == x[i] && s[i + 1] == x[i + 1]);
        } else if i < x.len() {
            assert(s[i] == x[i] && i == x.len() - 1);
        } else {
            assert(s[i] == y[i - x.len()] && s[i + 1] == y[i + 1 - x.len()]);
        }
    }
}

/// Filling a template whose openers are all closed, with field values free
/// of opening braces, leaves no double opening brace in the result: no
/// placeholder syntax survives.
pub proof fn lemma_fill_from_no_open(
    t: Seq<char>,
    fields: Seq<(Seq<char>, Seq<char>)>,
    pos: int,
)
    requires
        0 <= pos <= t.len(),
        template_closed_from(t, pos),
        forall|k: int|
            0 <= k < fields.len() ==> forall|m: int|
                0 <= m < (#[trigger] fields[k].1).len() ==> fields[k].1[m] != '{',
    ensures
        no_open_brace(spec_fill_from(t, fields, pos)),
    decreases t.len() - pos,
{
    lemma_find2_props(t, '{', '{', pos);
    match spec_find2(t, '{', '{', pos) {
        None => {
            let out = t.skip(pos);
            assert forall|i: int| 0 <= i && i + 1 < out.len() implies !((#[trigger] out[i]) == '{'
                && out[i + 1] == '{') by {
                assert(out[i] == t[pos + i] && out[i + 1] == t[pos + i + 1]);
            }
        },
        Some(i) => {
            lemma_find2_props(t, '}', '}', i + 2);
            match spec_find2(t, '}', '}', i + 2) {
                None => {},
                Some(j) => {
                    let chunk = t.subrange(pos, i);
                    let val = spec_lookup(fields, spec_key(t, i, j));
                    let rest = spec_fill_from(t, fields, j + 2);
                    // No opener inside the literal chunk, and it cannot end
                    // on an opening brace: either would be an earlier match.
                    assert forall|m: int| 0 <= m && m + 1 < chunk.len() implies !((
                    #[trigger] chunk[m]) == '{' && chunk[m + 1] == '{') by {
                        assert(chunk[m] == t[pos + m] && chunk[m + 1] == t[pos + m + 1]);
                    }
                    if chunk.len() > 0 && chunk.last() == '{' {
                        assert(t[i - 1] == '{' && t[i] == '{');
                        assert(false);
                    }
                    // The substituted value has no opening brace at all.
                    lemma_lookup_values(fields, spec_key(t, i, j));
                    assert forall|m: int| 0 <= m < val.len() implies val[m] != '{' by {
                        if val != Seq::<char>::empty() {
                            let k = choose|k: int|
                                0 <= k < fields.len() && val == #[trigger] fields[k].1;
                            assert(fields[k].1[m] != '{');
                        }
                    }
                    lemma_fill_from_no_open(t, fields, j + 2);
                    lemma_no_open_concat(chunk, val);
                    if (chunk + val).len() > 0 && (chunk + val).last() == '{' {
                        if val.len() > 0 {
                            assert((chunk + val).last() == val[val.len() - 1]);
                            assert(false);
                        } else {
                            assert(chunk + val =~= chunk);
                            assert(false);
                        }
                    }
                    lemma_no_open_concat(chunk + val, rest);
                    assert(spec_fill_from(t, fields, pos) =~= (chunk + val) + rest);
                },
            }
        },
    }
}

/// Filling a template whose openers are all closed, with field values free
/// of opening braces, leaves no placeholder syntax in the output.
pub proof fn lemma_fill_no_open(t: Seq<char>, fields: Seq<(Seq<char>, Seq<char>)>)
    requires
        template_closed(t),
        forall|k: int|
            0 <= k < fields.len() ==> forall|m: int|
                0 <= m < (#[trigger] fields[k].1).len() ==> fields[k].1[m] != '{',
    ensures
        no_open_brace(spec_fill(t, fields)),
{
    lemma_fill_from_no_open(t, fields, 0);
}

/// Decides whether the template holds at least one complete placeholder.
pub fn has_placeholder(template: &str) -> (r: bool)
    ensures
        r == spec_has_placeholder(template@),
{
    let n = template.unicode_len();
    match find_double(template, '{', '{', 0) {
        None => false,
        Some(i) => {
            proof {
                lemma_find2_props(template@, '{', '{', 0);
            }
            match find_double(template, '}', '}', i + 2) {
                None => false,
                Some(_) => true,
            }
        },
    }
}

/// The views of a list of owned field pairs.
pub open spec fn fields_view(fields: Seq<(String, String)>) -> Seq<(Seq<char>, Seq<char>)> {
    Seq::new(fields.len(), |i: int| (fields[i].0@, fields[i].1@))
}

/// Finds the first position at or after `from` where `a` is immediately
/// followed by `b`.
fn find_double(s: &str, a: char, b: char, from: usize) -> (r: Option<usize>)
    requires
        from <= s@.len(),
    ensures
        match r {
            Some(k) => spec_find2(s@, a, b, from as int) == Some(k as int) && from <= k && k + 2
                <= s@.len(),
            None => spec_find2(s@, a, b, from as int) is None,
        },
{
    let n = s.unicode_len();
    let mut i: usize = from;
    while n - i >= 2
        invariant
            from <= i <= n,
            n == s@.len(),
            spec_find2(s@, a, b, from as int) == spec_find2(s@, a, b, i as int),
        decreases n - i,
    {
        let c1 = s.get_char(i);
        let c2 = s.get_char(i + 1);
        if c1 == a && c2 == b {
            proof {
                lemma_find2_props(s@, a, b, i as int);
            }
            return Some(i);
        }
        i = i + 1;
    }
    None
}

/// Looks up a key among the fields; a missing key yields the empty string.
fn lookup_field(fields: &Vec<(String, String)>, key: &String) -> (r: String)
    ensures
        r@ == spec_lookup(fields_view(fields@), key@),
{
    let fv = Ghost(fields_view(fields@));
    let n = fields.len();
    let mut f: usize = 0;
    proof {
        assert(fv@.skip(0) =~= fv@);
    }
    while f < n
        invariant
            0 <= f <= n,
            n == fields@.len(),
            fv@ == fields_view(fields@),
            spec_lookup(fv@, key@) == spec_lookup(fv@.skip(f as int), key@),
        decreases n - f,
    {
        let pair = &fields[f];
        proof {
            assert(fv@.skip(f as int)[0] == fv@[f as int]);
            assert(fv@.skip(f as int).skip(1) =~= fv@.skip(f as int + 1));
        }
        if pair.0 == *key {
            return pair.1.clone();
        }
        f = f + 1;
    }
    proof {
        assert(fv@.skip(n as int) =~= Seq::<(Seq<char>, Seq<char>)>::empty());
    }
    String::new()
}

/// Fills every placeholder of the template with the value of the field of
/// the same name, or with the empty string when no field supplies it.
/// Literal text, including any unclosed opener, is kept unchanged.
pub fn fill(template: &str, fields: &Vec<(String, String)>) -> (r: String)
    ensures
        r@ == spec_fill(template@, fields_view(fields@)),
{
    let ghost t = template@;
    let ghost fv = fields_view(fields@);
    let n = template.unicode_len();
    let mut out = String::new();
    let mut pos: usize = 0;
    loop
        invariant
            pos <= n,
            n == t.len(),
            t == template@,
            fv == fields_view(fields@),
            out@ + spec_fill_from(t, fv, pos as int) == spec_fill(t, fv),
        decreases n - pos,
    {
        match find_double(template, '{', '{', pos) {
            None => {
                out.append(template.substring_char(pos, n));
                proof {
                    assert(t.subrange(pos as int, n as int) =~= t.skip(pos as int));
                    assert(spec_fill_from(t, fv, pos as int) == t.skip(pos as int));
                }
                return out;
            },
            Some(i) => {
                match find_double(template, '}', '}', i + 2) {
                    None => {
                        out.append(template.substring_char(pos, n));
                        proof {
                            assert(t.subrange(pos as int, n as int) =~= t.skip(pos as int));
                            assert(spec_fill_from(t, fv, pos as int) == t.skip(pos as int));
                        }
                        return out;
                    },
                    Some(j) => {
                        proof {
                            lemma_find2_props(t, '{', '{', pos as int);
                            lemma_find2_props(t, '}', '}', i as int + 2);
                        }
                        let ghost out0 = out@;
                        out.append(template.substring_char(pos, i));

                        // Trim the key of surrounding spaces by moving the
                        // bounds inward.
                        let mut lo: usize = i + 2;
                        let mut hi: usize = j;
                        while lo < hi && template.get_char(lo) == ' '
                            invariant
                                i + 2 <= lo <= hi <= j,
                                j <= n,
                                n == t.len(),
                                t == template@,
                                hi == j,
                                spec_trim_start(t.subrange(i as int + 2, j as int))
                                    == spec_trim_start(t.subrange(lo as int, j as int)),
                            decreases hi - lo,
                        {
                            proof {
                                assert(t.subrange(lo as int, j as int).skip(1) =~= t.subrange(
                                    lo as int + 1,
                                    j as int,
                                ));
                            }
                            lo = lo + 1;
                        }
                        proof {
                            assert(spec_trim_start(t.subrange(lo as int, j as int)) == t.subrange(
                                lo as int,
                                j as int,
                            ));
                        }
                        while hi > lo && template.get_char(hi - 1) == ' '
                            invariant
                                lo <= hi <= j,
                                j <= n,
                                n == t.len(),
                                t == template@,
                                spec_trim_end(t.subrange(lo as int, j as int)) == spec_trim_end(
                                    t.subrange(lo as int, hi as int),
                                ),
                            decreases hi - lo,
                        {
                            proof {
                                assert(t.subrange(lo as int, hi as int).drop_last() =~= t.subrange(
                                    lo as int,
                                    hi as int - 1,
                                ));
                            }
                            hi = hi - 1;
                        }
                        proof {
                            assert(spec_trim_end(t.subrange(lo as int, hi as int)) == t.subrange(
                                lo as int,
                                hi as int,
                            ));
                            assert(spec_key(t, i as int, j as int) == t.subrange(
                                lo as int,
                                hi as int,
                            ));
                        }
                        let key = template.substring_char(lo, hi).to_owned();
                        let val = lookup_field(fields, &key);
                        out.append(val.as_str());
                        proof {
                            assert(out@ =~= out0 + t.subrange(pos as int, i as int) + spec_lookup(
                                fv,
                                spec_key(t, i as int, j as int),
                            ));
                        }
                        let ghost pos0 = pos as int;
                        pos = j + 2;
                        proof {
                            assert(spec_fill_from(t, fv, pos0) == t.subrange(pos0, i as int)
                                + spec_lookup(fv, spec_key(t, i as int, j as int))
                                + spec_fill_from(t, fv, j as int + 2));
                            assert(out@ + spec_fill_from(t, fv, pos as int) =~= out0 + (t.subrange(
                                pos0,
                                i as int,
                            ) + spec_lookup(fv, spec_key(t, i as int, j as int)) + spec_fill_from(
                                t,
                                fv,
                                j as int + 2,
                            )));
                        }
                    },
                }
            },
        }
    }
}

} // verus!
