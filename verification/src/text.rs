//! Verified string routines used by the URL templating and route parsing:
//! placeholder replacement, suffix tests, character substitution and
//! first-occurrence splitting.

use vstd::prelude::*;
use vstd::string::StrSliceExecFns;
use vstd::string::StringExecFns;

verus! {

/// Left-to-right, non-overlapping replacement of every occurrence of `pat`
/// by `sub`; for a non-empty pattern this is what `str::replace` computes.
/// An empty pattern replaces nothing.
pub open spec fn spec_replace(s: Seq<char>, pat: Seq<char>, sub: Seq<char>) -> Seq<char>
    decreases s.len(),
{
    if pat.len() == 0 || s.len() < pat.len() {
        s
    } else if s.subrange(0, pat.len() as int) == pat {
        sub + spec_replace(s.skip(pat.len() as int), pat, sub)
    } else {
        seq![s[0]] + spec_replace(s.skip(1), pat, sub)
    }
}

/// Whether `pat` occurs in `s` starting at position `i`.
pub open spec fn spec_matches_at(s: Seq<char>, pat: Seq<char>, i: int) -> bool {
    s.subrange(i, i + pat.len()) == pat
}

/// Compares the characters of `s` starting at `i` against all of `pat`.
pub fn matches_at(s: &str, pat: &str, i: usize) -> (r: bool)
    requires
        i + pat@.len() <= s@.len(),
    ensures
        r == spec_matches_at(s@, pat@, i as int),
{
    let n: usize = s.unicode_len();
    let m: usize = pat.unicode_len();
    let mut j: usize = 0;
    while j < m
        invariant
            j <= m,
            n == s@.len(),
            m == pat@.len(),
            i + m <= n,
            forall|k: int| 0 <= k < j ==> s@[i + k] == pat@[k],
        decreases m - j,
    {
        if s.get_char(i + j) != pat.get_char(j) {
            assert(s@.subrange(i as int, i + pat@.len())[j as int] != pat@[j as int]);
            return false;
        }
        j += 1;
    }
    assert(s@.subrange(i as int, i + pat@.len()) =~= pat@);
    true
}

/// Whether the character sequences of two string slices are equal.
pub fn str_eq(a: &str, b: &str) -> (r: bool)
    ensures
        r == (a@ == b@),
{
    let n: usize = a.unicode_len();
    let m: usize = b.unicode_len();
    if n != m {
        return false;
    }
    let r = matches_at(a, b, 0);
    proof {
        assert(a@.subrange(0, b@.len() as int) =~= a@);
    }
    r
}

/// Whether `suffix` ends `s`.
pub open spec fn spec_has_suffix(s: Seq<char>, suffix: Seq<char>) -> bool {
    s.len() >= suffix.len() && s.subrange(s.len() - suffix.len(), s.len() as int) == suffix
}

pub fn has_suffix(s: &str, suffix: &str) -> (r: bool)
    ensures
        r == spec_has_suffix(s@, suffix@),
{
    let n: usize = s.unicode_len();
    let m: usize = suffix.unicode_len();
    if n < m {
        return false;
    }
    matches_at(s, suffix, n - m)
}

/// Replaces every occurrence of `pat` in `s` by `sub`, left to right and
/// without overlap: how a URL template's placeholders are substituted.
pub fn replace(s: &str, pat: &str, sub: &str) -> (r: String)
    ensures
        r@ == spec_replace(s@, pat@, sub@),
{
    let n: usize = s.unicode_len();
    let m: usize = pat.unicode_len();
    if m == 0 {
        return s.to_owned();
    }
    let mut r = String::new();
    let mut i: usize = 0;
    proof {
        assert(s@.skip(0) =~= s@);
        assert(Seq::<char>::empty() + spec_replace(s@, pat@, sub@) =~= spec_replace(
            s@,
            pat@,
            sub@,
        ));
    }
    while i < n
        invariant
            0 < m == pat@.len(),
            n == s@.len(),
            i <= n,
            spec_replace(s@, pat@, sub@) == r@ + spec_replace(s@.skip(i as int), pat@, sub@),
        decreases n - i,
    {
        let ghost t = s@.skip(i as int);
        if n - i >= m && matches_at(s, pat, i) {
            proof {
                assert(t.subrange(0, m as int) =~= s@.subrange(i as int, i + m));
                assert(t.skip(m as int) =~= s@.skip(i + m));
                assert(spec_replace(t, pat@, sub@) == sub@ + spec_replace(
                    s@.skip(i + m),
                    pat@,
                    sub@,
                ));
                assert(r@ + (sub@ + spec_replace(s@.skip(i + m), pat@, sub@)) =~= (r@ + sub@)
                    + spec_replace(s@.skip(i + m), pat@, sub@));
            }
            r.append(sub);
            i += m;
        } else {
            let piece = s.substring_char(i, i + 1);
            proof {
                assert(piece@ =~= seq![t[0]]);
                if t.len() >= m {
                    assert(t.subrange(0, m as int) =~= s@.subrange(i as int, i + m));
                    assert(t.subrange(0, m as int) != pat@);
                    assert(spec_replace(t, pat@, sub@) == seq![t[0]] + spec_replace(
                        t.skip(1),
                        pat@,
                        sub@,
                    ));
                } else {
                    assert(t =~= seq![t[0]] + t.skip(1));
                    assert(t.skip(1).len() < m);
                    assert(spec_replace(t, pat@, sub@) == seq![t[0]] + spec_replace(
                        t.skip(1),
                        pat@,
                        sub@,
                    ));
                }
                assert(t.skip(1) =~= s@.skip(i + 1));
                assert(r@ + (seq![t[0]] + spec_replace(s@.skip(i + 1), pat@, sub@)) =~= (r@
                    + seq![t[0]]) + spec_replace(s@.skip(i + 1), pat@, sub@));
            }
            r.append(piece);
            i += 1;
        }
    }
    proof {
        assert(s@.skip(n as int) =~= Seq::<char>::empty());
        assert(r@ + Seq::<char>::empty() =~= r@);
    }
    r
}

/// Every character of `s`, with `'/'` replaced by `'-'`: how the combined
/// package-and-version segment of a mirror path is flattened.
pub open spec fn spec_dashed(s: Seq<char>) -> Seq<char> {
    s.map_values(
        |c: char|
            if c == '/' {
                '-'
            } else {
                c
            },
    )
}

/// Replaces every `'/'` in `s` by `'-'`.
pub fn replace_slash_dash(s: &str) -> (r: String)
    ensures
        r@ == spec_dashed(s@),
{
    let n: usize = s.unicode_len();
    let mut r = String::new();
    let mut i: usize = 0;
    proof {
        assert(r@ =~= spec_dashed(s@.subrange(0, 0)));
    }
    while i < n
        invariant
            i <= n,
            n == s@.len(),
            r@ == spec_dashed(s@.subrange(0, i as int)),
        decreases n - i,
    {
        let c = s.get_char(i);
        if c == '/' {
            proof {
                reveal_strlit("-");
                assert("-"@ =~= seq!['-']);
            }
            r.append("-");
        } else {
            let piece = s.substring_char(i, i + 1);
            proof {
                assert(piece@ =~= seq![s@[i as int]]);
            }
            r.append(piece);
        }
        proof {
            assert(spec_dashed(s@.subrange(0, i + 1)) =~= spec_dashed(s@.subrange(0, i as int))
                + seq![
                if s@[i as int] == '/' {
                    '-'
                } else {
                    s@[i as int]
                },
            ]);
        }
        i += 1;
    }
    proof {
        assert(s@.subrange(0, n as int) =~= s@);
    }
    r
}

/// The position of the first occurrence of `c` in `s`, if any.
pub open spec fn spec_find_char(s: Seq<char>, c: char) -> Option<int>
    decreases s.len(),
{
    if s.len() == 0 {
        None
    } else if s[0] == c {
        Some(0)
    } else {
        match spec_find_char(s.drop_first(), c) {
            Some(i) => Some(i + 1),
            None => None,
        }
    }
}

proof fn lemma_find_char_at(s: Seq<char>, c: char, i: int)
    requires
        0 <= i < s.len(),
        s[i] == c,
        forall|j: int| 0 <= j < i ==> s[j] != c,
    ensures
        spec_find_char(s, c) == Some(i),
    decreases i,
{
    if i == 0 {
    } else {
        assert(forall|j: int| 0 <= j < i - 1 ==> s.drop_first()[j] != c);
        assert(s.drop_first()[i - 1] == c);
        lemma_find_char_at(s.drop_first(), c, i - 1);
    }
}

proof fn lemma_find_char_none(s: Seq<char>, c: char)
    requires
        forall|j: int| 0 <= j < s.len() ==> s[j] != c,
    ensures
        spec_find_char(s, c) is None,
    decreases s.len(),
{
    if s.len() > 0 {
        assert(forall|j: int| 0 <= j < s.drop_first().len() ==> s.drop_first()[j] != c);
        lemma_find_char_none(s.drop_first(), c);
    }
}

/// The position of the first occurrence of `c` in `s`, scanning forward.
pub fn find_char(s: &str, c: char) -> (r: Option<usize>)
    ensures
        (r matches Some(i) ==> spec_find_char(s@, c) == Some(i as int) && i < s@.len()
            && s@.index(i as int) == c),
        r is None ==> spec_find_char(s@, c) is None,
{
    let n: usize = s.unicode_len();
    let mut i: usize = 0;
    while i < n
        invariant
            i <= n,
            n == s@.len(),
            forall|j: int| 0 <= j < i ==> s@[j] != c,
        decreases n - i,
    {
        if s.get_char(i) == c {
            proof {
                lemma_find_char_at(s@, c, i as int);
            }
            return Some(i);
        }
        i += 1;
    }
    proof {
        lemma_find_char_none(s@, c);
    }
    None
}

/// The characters of `s` up to (exclusive) position `to`, as an owned string.
pub fn substring_to(s: &str, to: usize) -> (r: String)
    requires
        to <= s@.len(),
    ensures
        r@ == s@.subrange(0, to as int),
{
    let sub = s.substring_char(0, to);
    sub.to_owned()
}

/// The characters of `s` from position `from` to the end, as an owned string.
pub fn substring_from(s: &str, from: usize) -> (r: String)
    requires
        from <= s@.len(),
    ensures
        r@ == s@.subrange(from as int, s@.len() as int),
{
    let n: usize = s.unicode_len();
    let sub = s.substring_char(from, n);
    sub.to_owned()
}

} // verus!

