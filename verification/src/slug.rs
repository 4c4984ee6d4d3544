use vstd::prelude::*;
use crate::numbers::{decimal, lemma_natural_digits, push_natural_digits};
use crate::text::{no_ascii_upper, is_ascii_upper, all_ascii, alphanumeric, ascii_lower, chars_of, is_alphanumeric, is_ascii_alnum, is_ascii_char, lowercase, string_from_chars, to_lowercase};

verus! {

/// The slug character that stands for `c`: itself when alphanumeric, else `_`.
pub open spec fn slug_char(c: char) -> char {
    if is_alphanumeric(c) {
        c
    } else {
        '_'
    }
}

/// `s` with every character replaced by its slug character.
pub open spec fn slug_chars(s: Seq<char>) -> Seq<char> {
    Seq::new(s.len(), |i: int| slug_char(s[i]))
}

/// `s` with leading `_` removed.
pub open spec fn strip_leading_underscores(s: Seq<char>) -> Seq<char>
    decreases s.len(),
{
    if s.len() > 0 && s[0] == '_' {
        strip_leading_underscores(s.drop_first())
    } else {
        s
    }
}

/// `s` with trailing `_` removed.
pub open spec fn strip_trailing_underscores(s: Seq<char>) -> Seq<char>
    decreases s.len(),
{
    if s.len() > 0 && s.last() == '_' {
        strip_trailing_underscores(s.drop_last())
    } else {
        s
    }
}

/// `str::trim_matches('_')`.
pub open spec fn trim_underscores(s: Seq<char>) -> Seq<char> {
    strip_trailing_underscores(strip_leading_underscores(s))
}

/// `str::replace("__", "_")`: every `__`, scanning left to right without
/// overlap, becomes a single `_`.
pub open spec fn collapse_double_underscores(s: Seq<char>) -> Seq<char>
    decreases s.len(),
{
    if s.len() >= 2 && s[0] == '_' && s[1] == '_' {
        seq!['_'] + collapse_double_underscores(s.subrange(2, s.len() as int))
    } else if s.len() == 0 {
        s
    } else {
        seq![s[0]] + collapse_double_underscores(s.drop_first())
    }
}

/// The slug of a workflow status name: lower-cased, non-alphanumerics made `_`,
/// `_` trimmed at both ends, `__` collapsed once; `status` when nothing is left.
pub open spec fn slugify(name: Seq<char>) -> Seq<char> {
    let t = collapse_double_underscores(trim_underscores(slug_chars(lowercase(name))));
    if t.len() == 0 {
        "status"@
    } else {
        t
    }
}

proof fn lemma_strip_leading_shape(s: Seq<char>)
    ensures
        strip_leading_underscores(s).len() > 0 ==> strip_leading_underscores(s)[0] != '_',
    decreases s.len(),
{
    if s.len() > 0 && s[0] == '_' {
        lemma_strip_leading_shape(s.drop_first());
    }
}

proof fn lemma_strip_trailing_shape(s: Seq<char>)
    ensures
        strip_trailing_underscores(s).len() <= s.len(),
        strip_trailing_underscores(s) == s.subrange(0, strip_trailing_underscores(s).len() as int),
        strip_trailing_underscores(s).len() > 0 ==> strip_trailing_underscores(s).last() != '_',
    decreases s.len(),
{
    if s.len() > 0 && s.last() == '_' {
        lemma_strip_trailing_shape(s.drop_last());
        let r = strip_trailing_underscores(s);
        assert(s.drop_last().subrange(0, r.len() as int) =~= s.subrange(0, r.len() as int));
    } else {
        assert(s.subrange(0, s.len() as int) =~= s);
    }
}

proof fn lemma_collapse_ends(s: Seq<char>)
    ensures
        s.len() > 0 ==> collapse_double_underscores(s).len() > 0,
        s.len() > 0 && s[0] != '_' ==> collapse_double_underscores(s)[0] == s[0],
        s.len() > 0 && s.last() != '_' ==> collapse_double_underscores(s).last() == s.last(),
    decreases s.len(),
{
    if s.len() >= 2 && s[0] == '_' && s[1] == '_' {
        let rest = s.subrange(2, s.len() as int);
        lemma_collapse_ends(rest);
        let c = collapse_double_underscores(s);
        assert(c == seq!['_'] + collapse_double_underscores(rest));
        if s.len() > 2 {
            assert(rest.last() == s.last());
            assert(c.last() == collapse_double_underscores(rest).last());
        }
    } else if s.len() > 0 {
        let rest = s.drop_first();
        lemma_collapse_ends(rest);
        let c = collapse_double_underscores(s);
        assert(c == seq![s[0]] + collapse_double_underscores(rest));
        if s.len() > 1 {
            assert(rest.last() == s.last());
            assert(c.last() == collapse_double_underscores(rest).last());
        } else {
            assert(rest.len() == 0);
            assert(collapse_double_underscores(rest).len() == 0);
            assert(c.len() == 1);
        }
    }
}

/// A slug is never empty, and neither starts nor ends with `_`.
pub proof fn lemma_slug_shape(name: Seq<char>)
    ensures
        slugify(name).len() > 0,
        slugify(name)[0] != '_',
        slugify(name).last() != '_',
{
    let u = strip_leading_underscores(slug_chars(lowercase(name)));
    let t = strip_trailing_underscores(u);
    lemma_strip_leading_shape(slug_chars(lowercase(name)));
    lemma_strip_trailing_shape(u);
    lemma_collapse_ends(t);
    if t.len() == 0 {
        reveal_strlit("status");
    } else {
        assert(t[0] == u[0]);
    }
}

proof fn lemma_strip_leading_skip(s: Seq<char>, i: int)
    requires
        0 <= i < s.len(),
        s[i] == '_',
    ensures
        strip_leading_underscores(s.subrange(i, s.len() as int)) == strip_leading_underscores(
            s.subrange(i + 1, s.len() as int),
        ),
{
    assert(s.subrange(i, s.len() as int).drop_first() =~= s.subrange(i + 1, s.len() as int));
}

proof fn lemma_strip_trailing_skip(s: Seq<char>, j: int)
    requires
        0 < j <= s.len(),
        s[j - 1] == '_',
    ensures
        strip_trailing_underscores(s.subrange(0, j)) == strip_trailing_underscores(s.subrange(0, j - 1)),
{
    assert(s.subrange(0, j).drop_last() =~= s.subrange(0, j - 1));
}

fn underscore_bounds(s: &Vec<char>) -> (r: (usize, usize))
    ensures
        r.0 <= r.1 <= s.len(),
        trim_underscores(s@) == s@.subrange(r.0 as int, r.1 as int),
{
    let n = s.len();
    let mut a: usize = 0;
    assert(s@.subrange(0, n as int) =~= s@);
    while a < n && s[a] == '_'
        invariant
            a <= n == s.len(),
            strip_leading_underscores(s@) == strip_leading_underscores(s@.subrange(a as int, n as int)),
        decreases n - a,
    {
        proof {
            lemma_strip_leading_skip(s@, a as int);
        }
        a = a + 1;
    }
    let ghost t = s@.subrange(a as int, n as int);
    assert(strip_leading_underscores(t) == t) by {
        if t.len() > 0 {
            assert(t[0] == s@[a as int]);
        }
    }
    let mut b: usize = n;
    while b > a && s[b - 1] == '_'
        invariant
            a <= b <= n == s.len(),
            strip_trailing_underscores(s@.subrange(a as int, n as int)) == strip_trailing_underscores(
                s@.subrange(a as int, b as int),
            ),
        decreases b - a,
    {
        proof {
            let u = s@.subrange(a as int, n as int);
            lemma_strip_trailing_skip(u, (b - a) as int);
            assert(u.subrange(0, (b - a) as int) =~= s@.subrange(a as int, b as int));
            assert(u.subrange(0, (b - a - 1) as int) =~= s@.subrange(a as int, (b - 1) as int));
        }
        b = b - 1;
    }
    let ghost w = s@.subrange(a as int, b as int);
    assert(strip_trailing_underscores(w) == w) by {
        if w.len() > 0 {
            assert(w.last() == s@[b - 1]);
        }
    }
    (a, b)
}

proof fn lemma_collapse_step_pair(s: Seq<char>, i: int)
    requires
        0 <= i,
        i + 2 <= s.len(),
        s[i] == '_',
        s[i + 1] == '_',
    ensures
        collapse_double_underscores(s.subrange(i, s.len() as int)) == seq!['_'] + collapse_double_underscores(
            s.subrange(i + 2, s.len() as int),
        ),
{
    let t = s.subrange(i, s.len() as int);
    assert(t.subrange(2, t.len() as int) =~= s.subrange(i + 2, s.len() as int));
}

proof fn lemma_collapse_step_single(s: Seq<char>, i: int)
    requires
        0 <= i < s.len(),
        !(i + 2 <= s.len() && s[i] == '_' && s[i + 1] == '_'),
    ensures
        collapse_double_underscores(s.subrange(i, s.len() as int)) == seq![s[i]] + collapse_double_underscores(
            s.subrange(i + 1, s.len() as int),
        ),
{
    let t = s.subrange(i, s.len() as int);
    assert(t.drop_first() =~= s.subrange(i + 1, s.len() as int));
}

fn collapse(s: &Vec<char>, from: usize, to: usize) -> (r: Vec<char>)
    requires
        from <= to <= s.len(),
    ensures
        r@ == collapse_double_underscores(s@.subrange(from as int, to as int)),
{
    let ghost u = s@.subrange(from as int, to as int);
    let mut out: Vec<char> = Vec::new();
    let mut i = from;
    assert(u.subrange(0, u.len() as int) =~= u);
    while i < to
        invariant
            from <= i <= to <= s.len(),
            u == s@.subrange(from as int, to as int),
            collapse_double_underscores(u) == out@ + collapse_double_underscores(
                u.subrange(i - from, u.len() as int),
            ),
        decreases to - i,
    {
        let ghost k = (i - from) as int;
        if i + 1 < to && s[i] == '_' && s[i + 1] == '_' {
            proof {
                lemma_collapse_step_pair(u, k);
            }
            out.push('_');
            i = i + 2;
        } else {
            proof {
                lemma_collapse_step_single(u, k);
            }
            out.push(s[i]);
            i = i + 1;
        }
        assert(collapse_double_underscores(u) == out@ + collapse_double_underscores(
            u.subrange(i - from, u.len() as int),
        ));
    }
    assert(u.subrange(u.len() as int, u.len() as int).len() == 0);
    assert(out@ + collapse_double_underscores(u.subrange(u.len() as int, u.len() as int)) =~= out@);
    out
}

/// `c` may stand in a slug: a lower-case ASCII letter, a digit or `_`.
pub open spec fn is_slug_char(c: char) -> bool {
    ||| 97 <= (c as u32) <= 122
    ||| 48 <= (c as u32) <= 57
    ||| c == '_'
}

/// `s` is already a slug: not empty, made of slug characters, with no `_` at
/// either end and no `__`.
pub open spec fn is_clean_slug(s: Seq<char>) -> bool {
    &&& s.len() > 0
    &&& forall|i: int| 0 <= i < s.len() ==> is_slug_char(#[trigger] s[i])
    &&& s[0] != '_'
    &&& s.last() != '_'
    &&& forall|i: int| 0 <= i < s.len() - 1 ==> !(#[trigger] s[i] == '_' && s[i + 1] == '_')
}

proof fn lemma_collapse_without_pairs(s: Seq<char>)
    requires
        forall|i: int| 0 <= i < s.len() - 1 ==> !(#[trigger] s[i] == '_' && s[i + 1] == '_'),
    ensures
        collapse_double_underscores(s) == s,
    decreases s.len(),
{
    if s.len() > 0 {
        let rest = s.drop_first();
        assert forall|i: int| 0 <= i < rest.len() - 1 implies !(#[trigger] rest[i] == '_' && rest[i + 1] == '_') by {
            assert(rest[i] == s[i + 1] && rest[i + 1] == s[i + 2]);
        }
        lemma_collapse_without_pairs(rest);
        assert(seq![s[0]] + rest =~= s);
    }
}

proof fn lemma_collapse_keeps_lower(s: Seq<char>)
    requires
        no_ascii_upper(s),
    ensures
        no_ascii_upper(collapse_double_underscores(s)),
    decreases s.len(),
{
    if s.len() >= 2 && s[0] == '_' && s[1] == '_' {
        let rest = s.subrange(2, s.len() as int);
        assert(no_ascii_upper(rest)) by {
            assert forall|i: int| 0 <= i < rest.len() implies !is_ascii_upper(#[trigger] rest[i]) by {
                assert(rest[i] == s[i + 2]);
            }
        }
        lemma_collapse_keeps_lower(rest);
        let c = collapse_double_underscores(s);
        assert forall|i: int| 0 <= i < c.len() implies !is_ascii_upper(#[trigger] c[i]) by {
            if i > 0 {
                assert(c[i] == collapse_double_underscores(rest)[i - 1]);
            }
        }
    } else if s.len() > 0 {
        let rest = s.drop_first();
        assert(no_ascii_upper(rest)) by {
            assert forall|i: int| 0 <= i < rest.len() implies !is_ascii_upper(#[trigger] rest[i]) by {
                assert(rest[i] == s[i + 1]);
            }
        }
        lemma_collapse_keeps_lower(rest);
        let c = collapse_double_underscores(s);
        assert forall|i: int| 0 <= i < c.len() implies !is_ascii_upper(#[trigger] c[i]) by {
            if i > 0 {
                assert(c[i] == collapse_double_underscores(rest)[i - 1]);
            } else {
                assert(c[0] == s[0]);
            }
        }
    }
}

/// Turns a workflow status name (or requested slug) into a slug. A name that
/// already is a slug comes back unchanged, and no slug holds an ASCII
/// upper-case letter.
pub fn slugify_workflow_name(name: &str) -> (r: String)
    ensures
        r@ == slugify(name@),
        is_clean_slug(name@) ==> r@ == name@,
        no_ascii_upper(r@),
{
    let lower = to_lowercase(name);
    let lv = chars_of(lower.as_str());
    proof {
        if is_clean_slug(name@) {
            assert(all_ascii(name@));
            assert(ascii_lower(name@) =~= name@);
        }
    }
    let mut mapped: Vec<char> = Vec::new();
    let mut i: usize = 0;
    while i < lv.len()
        invariant
            i <= lv.len(),
            mapped@ =~= Seq::new(i as nat, |k: int| slug_char(lv@[k])),
            forall|k: int| 0 <= k < i && is_ascii_char(lv@[k]) ==> (is_alphanumeric(lv@[k]) <==> is_ascii_alnum(#[trigger] lv@[k])),
        decreases lv.len() - i,
    {
        let c = lv[i];
        if alphanumeric(c) {
            mapped.push(c);
        } else {
            mapped.push('_');
        }
        i = i + 1;
    }
    assert(mapped@ =~= slug_chars(lowercase(name@)));
    proof {
        if is_clean_slug(name@) {
            assert forall|k: int| 0 <= k < name@.len() implies slug_char(name@[k]) == name@[k] by {
                assert(lv@[k] == name@[k]);
                assert(is_slug_char(name@[k]));
            }
            assert(mapped@ =~= name@);
            assert(strip_leading_underscores(name@) == name@);
            assert(strip_trailing_underscores(name@) == name@);
            lemma_collapse_without_pairs(name@);
        }
    }
    assert(no_ascii_upper(mapped@)) by {
        assert forall|k: int| 0 <= k < mapped@.len() implies !is_ascii_upper(#[trigger] mapped@[k]) by {
            assert(mapped@[k] == slug_char(lv@[k]));
            assert(!is_ascii_upper(lv@[k]));
        }
    }
    let (a, b) = underscore_bounds(&mapped);
    proof {
        let sub = mapped@.subrange(a as int, b as int);
        assert forall|k: int| 0 <= k < sub.len() implies !is_ascii_upper(#[trigger] sub[k]) by {
            assert(sub[k] == mapped@[a + k]);
        }
        lemma_collapse_keeps_lower(sub);
    }
    let t = collapse(&mapped, a, b);
    if t.len() == 0 {
        proof {
            reveal_strlit("status");
        }
        "status".to_string()
    } else {
        string_from_chars(t.as_slice())
    }
}

/// The slug tried after `n` taken ones: the base slug itself, then `base_1`, `base_2`, …
pub open spec fn slug_candidate(base: Seq<char>, n: nat) -> Seq<char> {
    if n == 0 {
        base
    } else {
        base + seq!['_'] + decimal(n as int)
    }
}

/// The slugs tried for one base are all different: the `n`th candidate differs
/// from the `m`th whenever `n` and `m` differ.
pub proof fn lemma_slug_candidates_distinct(base: Seq<char>, n: nat, m: nat)
    requires
        n != m,
    ensures
        slug_candidate(base, n) != slug_candidate(base, m),
{
    let a = slug_candidate(base, n);
    let b = slug_candidate(base, m);
    if n > 0 && m > 0 && a == b {
        let k = base.len() + 1;
        assert(a.subrange(k as int, a.len() as int) =~= decimal(n as int));
        assert(b.subrange(k as int, b.len() as int) =~= decimal(m as int));
        lemma_natural_digits(n);
        lemma_natural_digits(m);
    }
}

/// Forms the slug tried after `n` taken ones.
pub fn candidate_slug(base: &str, n: u32) -> (r: String)
    ensures
        r@ == slug_candidate(base@, n as nat),
{
    if n == 0 {
        return base.to_string();
    }
    let mut v = chars_of(base);
    v.push('_');
    push_natural_digits(n, &mut v);
    string_from_chars(v.as_slice())
}

} // verus!
