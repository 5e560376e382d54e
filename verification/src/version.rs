//! Parsing of interpreter version requirements.
//!
//! A requirement string such as `">=3.8,<4.0"` is a comma-separated list of
//! clauses.  Upper-bound clauses (starting with `<`) never contribute a
//! minimum; every other clause is stripped of leading operator characters and
//! read as a dotted version number.  The overall minimum is the numerically
//! highest lower bound among the clauses.

use vstd::prelude::*;
use crate::text::{chars_of, find_in, find_sep, lemma_find_sep_bounds};

verus! {

/// A decimal digit.
pub open spec fn is_digit(c: char) -> bool {
    '0' <= c && c <= '9'
}

/// Whitespace that clause trimming removes.
pub open spec fn is_space(c: char) -> bool {
    c == ' ' || c == '\t'
}

/// Operator characters stripped from the front of a clause.
pub open spec fn is_op_char(c: char) -> bool {
    c == '>' || c == '=' || c == '^' || c == '~' || c == '!'
}

/// Numeric value of a digit sequence, most significant digit first.
pub open spec fn digits_val(s: Seq<char>) -> int
    decreases s.len(),
{
    if s.len() == 0 {
        0
    } else {
        digits_val(s.drop_last()) * 10 + (s.last() as int - '0' as int)
    }
}

/// A clause piece parses as a `u32` when it is a non-empty run of digits
/// whose value fits.
pub open spec fn is_u32_digits(s: Seq<char>) -> bool {
    &&& s.len() > 0
    &&& forall|k: int| 0 <= k < s.len() ==> is_digit(s[k])
    &&& digits_val(s) <= u32::MAX
}

/// Leading whitespace removed.
pub open spec fn trim_front(s: Seq<char>) -> Seq<char>
    decreases s.len(),
{
    if s.len() > 0 && is_space(s[0]) {
        trim_front(s.drop_first())
    } else {
        s
    }
}

/// Trailing whitespace removed.
pub open spec fn trim_back(s: Seq<char>) -> Seq<char>
    decreases s.len(),
{
    if s.len() > 0 && is_space(s.last()) {
        trim_back(s.drop_last())
    } else {
        s
    }
}

/// Leading operator characters removed.
pub open spec fn strip_ops(s: Seq<char>) -> Seq<char>
    decreases s.len(),
{
    if s.len() > 0 && is_op_char(s[0]) {
        strip_ops(s.drop_first())
    } else {
        s
    }
}

proof fn lemma_trim_front_is(s: Seq<char>, a: int)
    requires
        0 <= a <= s.len(),
        forall|k: int| 0 <= k < a ==> is_space(s[k]),
        a == s.len() || !is_space(s[a]),
    ensures
        trim_front(s) == s.skip(a),
    decreases a,
{
    if a == 0 {
        assert(s.skip(0) =~= s);
    } else {
        assert(is_space(s[0]));
        assert(forall|k: int| 0 <= k < a - 1 ==> s.drop_first()[k] == s[k + 1]);
        lemma_trim_front_is(s.drop_first(), a - 1);
        assert(s.drop_first().skip(a - 1) =~= s.skip(a));
    }
}

proof fn lemma_trim_back_is(s: Seq<char>, b: int)
    requires
        0 <= b <= s.len(),
        forall|k: int| b <= k < s.len() ==> is_space(s[k]),
        b == 0 || !is_space(s[b - 1]),
    ensures
        trim_back(s) == s.take(b),
    decreases s.len() - b,
{
    if b == s.len() {
        assert(s.take(b) =~= s);
    } else {
        assert(is_space(s.last()));
        assert(forall|k: int| b <= k < s.len() - 1 ==> s.drop_last()[k] == s[k]);
        lemma_trim_back_is(s.drop_last(), b);
        assert(s.drop_last().take(b) =~= s.take(b));
    }
}

proof fn lemma_strip_ops_is(s: Seq<char>, a: int)
    requires
        0 <= a <= s.len(),
        forall|k: int| 0 <= k < a ==> is_op_char(s[k]),
        a == s.len() || !is_op_char(s[a]),
    ensures
        strip_ops(s) == s.skip(a),
    decreases a,
{
    if a == 0 {
        assert(s.skip(0) =~= s);
    } else {
        assert(is_op_char(s[0]));
        assert(forall|k: int| 0 <= k < a - 1 ==> s.drop_first()[k] == s[k + 1]);
        lemma_strip_ops_is(s.drop_first(), a - 1);
        assert(s.drop_first().skip(a - 1) =~= s.skip(a));
    }
}

/// The numbers read from the dot-separated pieces of a clause; pieces that
/// do not parse as a `u32` are dropped.
pub open spec fn number_parts(s: Seq<char>) -> Seq<u32>
    decreases s.len() via number_parts_decreases
{
    let i = find_sep(s, '.');
    let piece = s.take(i);
    let here: Seq<u32> = if is_u32_digits(piece) {
        seq![digits_val(piece) as u32]
    } else {
        Seq::empty()
    };
    if i >= s.len() {
        here
    } else {
        here + number_parts(s.skip(i + 1))
    }
}

#[via_fn]
proof fn number_parts_decreases(s: Seq<char>) {
    lemma_find_sep_bounds(s, '.');
}

/// The lower bound a single comma-separated clause contributes, if any.
///
/// Whitespace is trimmed; a clause starting with `<` is an upper bound and
/// contributes nothing; otherwise leading operator characters are stripped
/// and the clause must yield at least a major and a minor number.
pub open spec fn clause_min(c: Seq<char>) -> Option<(u32, u32)> {
    let t = trim_back(trim_front(c));
    if t.len() > 0 && t[0] == '<' {
        None
    } else {
        let ps = number_parts(strip_ops(t));
        if ps.len() >= 2 {
            Some((ps[0], ps[1]))
        } else {
            None
        }
    }
}

/// Ordering of `(major, minor)` versions.
pub open spec fn version_geq(a: (u32, u32), b: (u32, u32)) -> bool {
    a.0 > b.0 || (a.0 == b.0 && a.1 >= b.1)
}

/// Keep the numerically highest lower bound seen so far.
pub open spec fn combine_min(best: Option<(u32, u32)>, v: Option<(u32, u32)>) -> Option<
    (u32, u32),
> {
    match v {
        Option::None => best,
        Option::Some(nv) => match best {
            Option::Some(cur) => if version_geq(cur, nv) {
                Option::Some(cur)
            } else {
                Option::Some(nv)
            },
            Option::None => Option::Some(nv),
        },
    }
}

/// Fold of `clause_min` over the comma-separated clauses of `s`.
pub open spec fn min_required_from(s: Seq<char>, best: Option<(u32, u32)>) -> Option<(u32, u32)>
    decreases s.len() via min_required_from_decreases
{
    let i = find_sep(s, ',');
    let b2 = combine_min(best, clause_min(s.take(i)));
    if i >= s.len() {
        b2
    } else {
        min_required_from(s.skip(i + 1), b2)
    }
}

#[via_fn]
proof fn min_required_from_decreases(s: Seq<char>, best: Option<(u32, u32)>) {
    lemma_find_sep_bounds(s, ',');
}

/// The minimum `(major, minor)` version a requirement string demands, or
/// `None` when no clause yields a lower bound.
pub open spec fn spec_min_required(s: Seq<char>) -> Option<(u32, u32)> {
    min_required_from(s, Option::None)
}

proof fn lemma_digits_val_bounds(s: Seq<char>)
    requires
        forall|k: int| 0 <= k < s.len() ==> is_digit(s[k]),
    ensures
        digits_val(s) >= 0,
    decreases s.len(),
{
    if s.len() > 0 {
        assert(forall|k: int| 0 <= k < s.len() - 1 ==> s.drop_last()[k] == s[k]);
        lemma_digits_val_bounds(s.drop_last());
        assert(is_digit(s.last()));
    }
}

proof fn lemma_digits_val_mono(s: Seq<char>, j: int)
    requires
        0 <= j <= s.len(),
        forall|k: int| 0 <= k < s.len() ==> is_digit(s[k]),
    ensures
        digits_val(s.take(j)) <= digits_val(s),
    decreases s.len() - j,
{
    if j == s.len() {
        assert(s.take(j) =~= s);
    } else {
        assert(s.take(j + 1).drop_last() =~= s.take(j));
        assert(s.take(j + 1).last() == s[j]);
        assert(forall|k: int| 0 <= k < j ==> s.take(j)[k] == s[k]);
        lemma_digits_val_bounds(s.take(j));
        assert(digits_val(s.take(j + 1)) == digits_val(s.take(j)) * 10 + (s[j] as int
            - '0' as int));
        assert(digits_val(s.take(j)) * 10 >= digits_val(s.take(j)));
        assert(is_digit(s[j]));
        lemma_digits_val_mono(s, j + 1);
    }
}

/// Parse `v[start..end)` as a `u32` of plain digits.
fn parse_u32_piece(v: &Vec<char>, start: usize, end: usize) -> (r: Option<u32>)
    requires
        start <= end <= v@.len(),
    ensures
        ({
            let s = v@.subrange(start as int, end as int);
            match r {
                Option::Some(x) => is_u32_digits(s) && x == digits_val(s),
                Option::None => !is_u32_digits(s),
            }
        }),
{
    let ghost s = v@.subrange(start as int, end as int);
    if start == end {
        return Option::None;
    }
    let mut acc: u32 = 0;
    let mut i: usize = start;
    while i < end
        invariant
            start <= i <= end <= v@.len(),
            s == v@.subrange(start as int, end as int),
            forall|k: int| 0 <= k < i - start ==> is_digit(s[k]),
            acc == digits_val(s.take(i - start)),
        decreases end - i,
    {
        let c: char = v[i];
        proof {
            assert(s[i - start] == v@[i as int]);
        }
        if c < '0' || c > '9' {
            proof {
                assert(!is_digit(s[i - start]));
            }
            return Option::None;
        }
        let d: u32 = (c as u32) - 48;
        proof {
            assert(s.take(i - start + 1).drop_last() =~= s.take(i - start));
            assert(s.take(i - start + 1).last() == s[i - start]);
            assert(is_digit(c));
            assert(48 <= c as int <= 57);
            assert(c as u32 == c as int);
            assert(c as int - '0' as int == d);
            lemma_digits_val_bounds(s.take(i - start));
        }
        let wide: u64 = (acc as u64) * 10 + (d as u64);
        if wide > 0xffff_ffffu64 {
            proof {
                if forall|k: int| 0 <= k < s.len() ==> is_digit(s[k]) {
                    lemma_digits_val_mono(s, i - start + 1);
                }
            }
            return Option::None;
        }
        acc = wide as u32;
        i = i + 1;
    }
    proof {
        assert(s.take(end - start) =~= s);
    }
    Option::Some(acc)
}

/// Append the numbers of the dot-separated pieces of `v[start..end)`.
fn collect_parts(v: &Vec<char>, start: usize, end: usize, out: &mut Vec<u32>)
    requires
        start <= end <= v@.len(),
    ensures
        final(out)@ == old(out)@ + number_parts(v@.subrange(start as int, end as int)),
    decreases end - start,
{
    let ghost s = v@.subrange(start as int, end as int);
    let dot: usize = find_in(v, start, end, '.');
    proof {
        assert(s.take(dot - start) =~= v@.subrange(start as int, dot as int));
    }
    match parse_u32_piece(v, start, dot) {
        Option::Some(x) => {
            out.push(x);
        },
        Option::None => {
        },
    }
    if dot < end {
        proof {
            assert(s.skip(dot - start + 1) =~= v@.subrange(dot + 1, end as int));
        }
        collect_parts(v, dot + 1, end, out);
    }
}

/// The lower bound contributed by the clause `v[start..end)`.
fn clause_min_exec(v: &Vec<char>, start: usize, end: usize) -> (r: Option<(u32, u32)>)
    requires
        start <= end <= v@.len(),
    ensures
        r == clause_min(v@.subrange(start as int, end as int)),
{
    let ghost c = v@.subrange(start as int, end as int);
    let mut a: usize = start;
    while a < end && (v[a] == ' ' || v[a] == '\t')
        invariant
            start <= a <= end <= v@.len(),
            forall|k: int| start <= k < a ==> is_space(v@[k]),
        decreases end - a,
    {
        a = a + 1;
    }
    let mut b: usize = end;
    while b > a && (v[b - 1] == ' ' || v[b - 1] == '\t')
        invariant
            a <= b <= end,
            a <= end <= v@.len(),
            forall|k: int| b <= k < end ==> is_space(v@[k]),
        decreases b,
    {
        b = b - 1;
    }
    proof {
        assert(forall|k: int| 0 <= k < a - start ==> c[k] == v@[start + k]);
        assert(a < end ==> c[a - start] == v@[a as int]);
        lemma_trim_front_is(c, a - start);
        let f = c.skip(a - start);
        assert(forall|k: int| 0 <= k < f.len() ==> f[k] == v@[a + k]);
        lemma_trim_back_is(f, b - a);
        assert(trim_back(trim_front(c)) =~= v@.subrange(a as int, b as int));
    }
    let ghost t = trim_back(trim_front(c));
    if a < b && v[a] == '<' {
        return Option::None;
    }
    let mut a2: usize = a;
    while a2 < b && (v[a2] == '>' || v[a2] == '=' || v[a2] == '^' || v[a2] == '~' || v[a2] == '!')
        invariant
            a <= a2 <= b <= v@.len(),
            forall|k: int| a <= k < a2 ==> is_op_char(v@[k]),
        decreases b - a2,
    {
        a2 = a2 + 1;
    }
    proof {
        assert(forall|k: int| 0 <= k < a2 - a ==> t[k] == v@[a + k]);
        assert(a2 < b ==> t[a2 - a] == v@[a2 as int]);
        lemma_strip_ops_is(t, a2 - a);
        assert(strip_ops(t) =~= v@.subrange(a2 as int, b as int));
    }
    let mut parts: Vec<u32> = Vec::new();
    collect_parts(v, a2, b, &mut parts);
    if parts.len() >= 2 {
        Option::Some((parts[0], parts[1]))
    } else {
        Option::None
    }
}

/// Fold the clauses of `v[start..)` into the strongest lower bound.
fn min_required_scan(v: &Vec<char>, start: usize, best: Option<(u32, u32)>) -> (r: Option<
    (u32, u32),
>)
    requires
        start <= v@.len(),
    ensures
        r == min_required_from(v@.skip(start as int), best),
    decreases v@.len() - start,
{
    let ghost s = v@.skip(start as int);
    let end: usize = v.len();
    proof {
        assert(s =~= v@.subrange(start as int, end as int));
    }
    let comma: usize = find_in(v, start, end, ',');
    proof {
        assert(s.take(comma - start) =~= v@.subrange(start as int, comma as int));
    }
    let cm: Option<(u32, u32)> = clause_min_exec(v, start, comma);
    let b2: Option<(u32, u32)> = match cm {
        Option::None => best,
        Option::Some(nv) => match best {
            Option::Some(cur) => if cur.0 > nv.0 || (cur.0 == nv.0 && cur.1 >= nv.1) {
                Option::Some(cur)
            } else {
                Option::Some(nv)
            },
            Option::None => Option::Some(nv),
        },
    };
    proof {
        assert(b2 == combine_min(best, clause_min(s.take(comma - start))));
    }
    if comma == end {
        b2
    } else {
        proof {
            assert(s.skip(comma - start + 1) =~= v@.subrange(comma + 1, end as int));
        }
        min_required_scan(v, comma + 1, b2)
    }
}

/// The minimum `(major, minor)` interpreter version demanded by a
/// requirement string such as `">=3.8"`, `"^3.9"`, `"~3.8"`, `"3.8"` or
/// `">=3.8,<4.0"`; upper-bound clauses are ignored and the highest lower
/// bound wins.  `None` when no clause yields one.
pub fn min_required_python(spec: &str) -> (r: Option<(u32, u32)>)
    ensures
        r == spec_min_required(spec@),
{
    let v: Vec<char> = chars_of(spec);
    proof {
        assert(v@.skip(0) =~= spec@);
    }
    min_required_scan(&v, 0, Option::None)
}


/// The numbers of the dot-separated pieces of `s`.
pub fn number_parts_of(s: &str) -> (r: Vec<u32>)
    ensures
        r@ == number_parts(s@),
{
    let v: Vec<char> = chars_of(s);
    let mut out: Vec<u32> = Vec::new();
    proof {
        assert(v@.subrange(0, v@.len() as int) =~= s@);
    }
    collect_parts(&v, 0, v.len(), &mut out);
    proof {
        assert(Seq::<u32>::empty() + number_parts(s@) =~= number_parts(s@));
    }
    out
}

} // verus!
