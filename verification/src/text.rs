//! Executable helpers over strings, with exact character-level contracts.

use vstd::prelude::*;
use vstd::string::StrSliceExecFns;

verus! {

/// `s` starts with `p`.
pub open spec fn spec_starts_with(s: Seq<char>, p: Seq<char>) -> bool {
    s.len() >= p.len() && s.take(p.len() as int) == p
}

/// Index of the first occurrence of `sep` in `s`, or `s.len()` if absent.
pub open spec fn find_sep(s: Seq<char>, sep: char) -> int
    decreases s.len(),
{
    if s.len() == 0 {
        0
    } else if s[0] == sep {
        0
    } else {
        1 + find_sep(s.drop_first(), sep)
    }
}

/// `find_sep` returns the index characterized by "no earlier occurrence".
pub proof fn lemma_find_sep_is(s: Seq<char>, sep: char, i: int)
    requires
        0 <= i <= s.len(),
        forall|k: int| 0 <= k < i ==> s[k] != sep,
        i == s.len() || s[i] == sep,
    ensures
        find_sep(s, sep) == i,
    decreases i,
{
    if s.len() == 0 {
    } else if i == 0 {
        if s.len() > 0 && s[0] != sep {
            assert(i < s.len());
        }
    } else {
        assert(s[0] != sep);
        assert(forall|k: int| 0 <= k < i - 1 ==> s.drop_first()[k] == s[k + 1]);
        lemma_find_sep_is(s.drop_first(), sep, i - 1);
    }
}

/// `find_sep` stays in bounds, lands on `sep`, and skips no occurrence.
pub proof fn lemma_find_sep_bounds(s: Seq<char>, sep: char)
    ensures
        0 <= find_sep(s, sep) <= s.len(),
        find_sep(s, sep) < s.len() ==> s[find_sep(s, sep)] == sep,
        forall|k: int| 0 <= k < find_sep(s, sep) ==> s[k] != sep,
    decreases s.len(),
{
    if s.len() == 0 {
    } else if s[0] == sep {
    } else {
        lemma_find_sep_bounds(s.drop_first(), sep);
        assert(forall|k: int| 1 <= k < find_sep(s, sep) ==> s[k] == s.drop_first()[k - 1]);
    }
}

/// First index of `sep` in `v[start..end)`, or `end` if absent.
pub fn find_in(v: &Vec<char>, start: usize, end: usize, sep: char) -> (r: usize)
    requires
        start <= end <= v@.len(),
    ensures
        start <= r <= end,
        forall|k: int| start <= k < r ==> v@[k] != sep,
        r < end ==> v@[r as int] == sep,
        find_sep(v@.subrange(start as int, end as int), sep) == r - start,
{
    let mut i: usize = start;
    while i < end
        invariant
            start <= i <= end <= v@.len(),
            forall|k: int| start <= k < i ==> v@[k] != sep,
        decreases end - i,
    {
        if v[i] == sep {
            proof {
                let s = v@.subrange(start as int, end as int);
                assert(forall|k: int| 0 <= k < i - start ==> s[k] == v@[start + k]);
                lemma_find_sep_is(s, sep, i - start);
            }
            return i;
        }
        i = i + 1;
    }
    proof {
        let s = v@.subrange(start as int, end as int);
        assert(forall|k: int| 0 <= k < end - start ==> s[k] == v@[start + k]);
        lemma_find_sep_is(s, sep, end - start);
    }
    end
}

/// The characters of `s`, for index-based scanning.
pub fn chars_of(s: &str) -> (r: Vec<char>)
    ensures
        r@ == s@,
{
    let n: usize = s.unicode_len();
    let mut v: Vec<char> = Vec::new();
    let mut i: usize = 0;
    while i < n
        invariant
            i <= n,
            n == s@.len(),
            v@ == s@.take(i as int),
        decreases n - i,
    {
        let c: char = s.get_char(i);
        v.push(c);
        proof {
            assert(s@.take(i + 1) =~= s@.take(i as int).push(s@[i as int]));
        }
        i = i + 1;
    }
    proof {
        assert(s@.take(n as int) =~= s@);
    }
    v
}

/// Character-for-character equality of two string slices.
pub fn str_eq_str(a: &str, b: &str) -> (r: bool)
    ensures
        r == (a@ == b@),
{
    let n: usize = a.unicode_len();
    if n != b.unicode_len() {
        return false;
    }
    let mut i: usize = 0;
    while i < n
        invariant
            i <= n,
            n == a@.len(),
            n == b@.len(),
            forall|k: int| 0 <= k < i ==> a@[k] == b@[k],
        decreases n - i,
    {
        if a.get_char(i) != b.get_char(i) {
            return false;
        }
        i = i + 1;
    }
    proof {
        assert(a@ =~= b@);
    }
    true
}

/// Whether `s` starts with `prefix`.
pub fn str_starts_with(s: &str, prefix: &str) -> (r: bool)
    ensures
        r == spec_starts_with(s@, prefix@),
{
    let n: usize = s.unicode_len();
    let p: usize = prefix.unicode_len();
    if p > n {
        return false;
    }
    let mut i: usize = 0;
    while i < p
        invariant
            i <= p <= n,
            n == s@.len(),
            p == prefix@.len(),
            forall|k: int| 0 <= k < i ==> s@[k] == prefix@[k],
        decreases p - i,
    {
        if s.get_char(i) != prefix.get_char(i) {
            proof {
                assert(s@.take(p as int)[i as int] == s@[i as int]);
            }
            return false;
        }
        i = i + 1;
    }
    proof {
        assert(s@.take(p as int) =~= prefix@);
    }
    true
}

/// A copy of an optional string, equal to the original.
pub fn dup_opt_string(o: &Option<String>) -> (r: Option<String>)
    ensures
        r == *o,
{
    match o {
        Option::Some(s) => Option::Some(s.clone()),
        Option::None => Option::None,
    }
}


/// `needle` occurs in `s` starting at `i`.
pub open spec fn spec_contains_at(s: Seq<char>, needle: Seq<char>, i: int) -> bool {
    0 <= i && i + needle.len() <= s.len() && s.subrange(i, i + needle.len()) == needle
}

/// `needle` occurs somewhere in `s`.
pub open spec fn spec_contains(s: Seq<char>, needle: Seq<char>) -> bool {
    exists|i: int| spec_contains_at(s, needle, i)
}

/// Whether `needle` occurs in `s`.
pub fn str_contains(s: &str, needle: &str) -> (r: bool)
    ensures
        r == spec_contains(s@, needle@),
{
    let v: Vec<char> = chars_of(s);
    let w: Vec<char> = chars_of(needle);
    let n: usize = v.len();
    let m: usize = w.len();
    if m > n {
        proof {
            assert(forall|i: int| !spec_contains_at(s@, needle@, i));
        }
        return false;
    }
    if m == 0 {
        proof {
            assert(s@.subrange(0, 0) =~= needle@);
            assert(spec_contains_at(s@, needle@, 0));
        }
        return true;
    }
    let mut i: usize = 0;
    while i <= n - m
        invariant
            0 < m <= n,
            i <= n - m + 1,
            n == s@.len(),
            m == needle@.len(),
            v@ == s@,
            w@ == needle@,
            forall|k: int| 0 <= k < i ==> !spec_contains_at(s@, needle@, k),
        decreases n - i,
    {
        let mut j: usize = 0;
        let mut matched: bool = true;
        while j < m
            invariant
                j <= m,
                i + m <= n,
                n == s@.len(),
                m == needle@.len(),
                v@ == s@,
                w@ == needle@,
                matched ==> forall|k: int| 0 <= k < j ==> s@[i + k] == needle@[k],
                !matched ==> !spec_contains_at(s@, needle@, i as int),
            decreases m - j,
        {
            if v[i + j] != w[j] {
                proof {
                    if spec_contains_at(s@, needle@, i as int) {
                        assert(s@.subrange(i as int, i + m)[j as int] == s@[i + j]);
                        assert(false);
                    }
                }
                matched = false;
                j = m;
            } else {
                j = j + 1;
            }
        }
        if matched {
            proof {
                assert(s@.subrange(i as int, i + m) =~= needle@);
                assert(spec_contains_at(s@, needle@, i as int));
            }
            return true;
        }
        i = i + 1;
    }
    proof {
        assert forall|k: int| !spec_contains_at(s@, needle@, k) by {
            if spec_contains_at(s@, needle@, k) {
                assert(0 <= k && k + m <= n);
                assert(k < i);
            }
        }
    }
    false
}

} // verus!
