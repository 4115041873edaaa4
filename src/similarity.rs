//! String similarity primitives for the linker: edit distance, in-order
//! character matching, abbreviation-tolerant subset matching, and token-bag overlap.

use vstd::prelude::*;
use crate::strings::chars_of;
use crate::tokenize::views;

verus! {

pub open spec fn min3(a: nat, b: nat, c: nat) -> nat {
    if a <= b && a <= c {
        a
    } else if b <= c {
        b
    } else {
        c
    }
}

/// Levenshtein distance: the fewest single-character insertions, deletions
/// and substitutions that turn `a` into `b`.
pub open spec fn lev(a: Seq<char>, b: Seq<char>) -> nat
    decreases a.len() + b.len(),
{
    if a.len() == 0 {
        b.len()
    } else if b.len() == 0 {
        a.len()
    } else {
        min3(
            lev(a.drop_last(), b) + 1,
            lev(a, b.drop_last()) + 1,
            lev(a.drop_last(), b.drop_last()) + (if a.last() == b.last() { 0nat } else { 1nat }),
        )
    }
}

pub proof fn lemma_lev_bound(a: Seq<char>, b: Seq<char>)
    ensures
        lev(a, b) <= a.len() + b.len(),
    decreases a.len() + b.len(),
{
    if a.len() > 0 && b.len() > 0 {
        lemma_lev_bound(a.drop_last(), b);
    }
}

/// The Levenshtein distance between two character sequences.
pub fn distance(a: &Vec<char>, b: &Vec<char>) -> (r: u64)
    requires
        a@.len() < 0x1000_0000,
        b@.len() < 0x1000_0000,
    ensures
        r as nat == lev(a@, b@),
{
    let m = b.len();
    let mut prev: Vec<u64> = Vec::new();
    let mut j: usize = 0;
    while j <= m
        invariant
            m == b@.len(),
            m < 0x1000_0000,
            j <= m + 1,
            prev@.len() == j,
            forall|q: int| 0 <= q < j ==> prev@[q] as nat == lev(a@.take(0), b@.take(q)),
        decreases m + 1 - j,
    {
        assert(a@.take(0).len() == 0);
        prev.push(j as u64);
        j = j + 1;
    }
    let mut i: usize = 0;
    while i < a.len()
        invariant
            m == b@.len(),
            m < 0x1000_0000,
            a@.len() < 0x1000_0000,
            i <= a@.len(),
            prev@.len() == m + 1,
            forall|q: int| 0 <= q <= m ==> (#[trigger] prev@[q]) as nat == lev(a@.take(i as int), b@.take(q)),
        decreases a@.len() - i,
    {
        let ghost ai = a@.take(i as int);
        let ghost ai1 = a@.take(i + 1);
        assert(ai1.drop_last() =~= ai);
        assert(ai1.last() == a@[i as int]);
        let mut cur: Vec<u64> = Vec::new();
        assert(b@.take(0).len() == 0);
        cur.push((i + 1) as u64);
        let mut q: usize = 0;
        while q < m
            invariant
                m == b@.len(),
                m < 0x1000_0000,
                i < a@.len(),
                a@.len() < 0x1000_0000,
                q <= m,
                prev@.len() == m + 1,
                cur@.len() == q + 1,
                ai == a@.take(i as int),
                ai1 == a@.take(i + 1),
                ai1.drop_last() == ai,
                ai1.last() == a@[i as int],
                forall|x: int| 0 <= x <= m ==> (#[trigger] prev@[x]) as nat == lev(ai, b@.take(x)),
                forall|x: int| 0 <= x <= q ==> (#[trigger] cur@[x]) as nat == lev(ai1, b@.take(x)),
            decreases m - q,
        {
            let ghost bq1 = b@.take(q + 1);
            assert(bq1.drop_last() =~= b@.take(q as int));
            assert(bq1.last() == b@[q as int]);
            proof {
                lemma_lev_bound(ai, bq1);
                lemma_lev_bound(ai1, b@.take(q as int));
                lemma_lev_bound(ai, b@.take(q as int));
            }
            let del = prev[q + 1] + 1;
            let ins = cur[q] + 1;
            let sub = prev[q] + if a[i] == b[q] { 0 } else { 1 };
            let best = if del <= ins && del <= sub {
                del
            } else if ins <= sub {
                ins
            } else {
                sub
            };
            cur.push(best);
            q = q + 1;
        }
        prev = cur;
        i = i + 1;
    }
    assert(a@.take(i as int) =~= a@);
    assert(b@.take(m as int) =~= b@);
    prev[m]
}

/// Whether the characters of `p` occur in `f` in order (not necessarily adjacent).
pub open spec fn in_order(p: Seq<char>, f: Seq<char>) -> bool
    decreases p.len() + f.len(),
{
    if p.len() == 0 {
        true
    } else if f.len() == 0 {
        false
    } else if p[0] == f[0] {
        in_order(p.drop_first(), f.drop_first())
    } else {
        in_order(p, f.drop_first())
    }
}

/// Whether the characters of `pattern` occur in `full` in order; `"ntra"` does in `"nuestra"`.
pub fn pattern_match(pattern: &str, full: &str) -> (r: bool)
    ensures
        r == in_order(pattern@, full@),
{
    let p = chars_of(pattern);
    let f = chars_of(full);
    let mut i: usize = 0;
    let mut j: usize = 0;
    assert(p@.skip(0) =~= p@);
    assert(f@.skip(0) =~= f@);
    while i < p.len()
        invariant
            i <= p@.len(),
            j <= f@.len(),
            p@ == pattern@,
            f@ == full@,
            in_order(p@, f@) == in_order(p@.skip(i as int), f@.skip(j as int)),
        decreases p@.len() - i + f@.len() - j,
    {
        if j == f.len() {
            assert(f@.skip(j as int).len() == 0);
            assert(p@.skip(i as int).len() > 0);
            assert(!in_order(p@.skip(i as int), f@.skip(j as int)));
            return false;
        }
        assert(p@.skip(i as int).drop_first() =~= p@.skip(i + 1));
        assert(f@.skip(j as int).drop_first() =~= f@.skip(j + 1));
        if p[i] == f[j] {
            i = i + 1;
        }
        j = j + 1;
    }
    assert(p@.skip(i as int).len() == 0);
    true
}

/// Whether `a` and `b` start with the same character.
pub open spec fn same_first(a: Seq<char>, b: Seq<char>) -> bool {
    a.len() > 0 && b.len() > 0 && a[0] == b[0]
}

/// Whether `token` and `x` abbreviate one another: same first character, and
/// the characters of one occur in order in the other.
pub open spec fn abbrev_hit(token: Seq<char>, x: Seq<char>) -> bool {
    same_first(token, x) && (in_order(x, token) || in_order(token, x))
}

/// The first index at or after `i` where `list` holds an abbreviation partner
/// of `token`, or `list.len()`.
pub open spec fn abbrev_index(token: Seq<char>, list: Seq<Seq<char>>, i: int) -> int
    decreases list.len() - i,
{
    if i < 0 || i >= list.len() {
        list.len() as int
    } else if abbrev_hit(token, list[i]) {
        i
    } else {
        abbrev_index(token, list, i + 1)
    }
}

/// The first index at or after `i` where `s` holds `w`, or `s.len()`.
pub open spec fn find_tok(s: Seq<Seq<char>>, w: Seq<char>, i: int) -> int
    decreases s.len() - i,
{
    if i < 0 || i >= s.len() {
        s.len() as int
    } else if s[i] == w {
        i
    } else {
        find_tok(s, w, i + 1)
    }
}

proof fn lemma_find_tok_bound(s: Seq<Seq<char>>, w: Seq<char>, i: int)
    requires
        0 <= i,
    ensures
        i <= find_tok(s, w, i) <= s.len() || (i > s.len() && find_tok(s, w, i) == s.len()),
        find_tok(s, w, i) < s.len() ==> s[find_tok(s, w, i)] == w,
    decreases s.len() - i,
{
    if i < s.len() && s[i] != w {
        lemma_find_tok_bound(s, w, i + 1);
    }
}

/// Whether every token of `one` can be matched, in order, against `two`: an
/// equal token is consumed; otherwise (while `two` is not empty) the first
/// abbreviation partner is found and every token up to it is consumed.
pub open spec fn subset_from(one: Seq<Seq<char>>, two: Seq<Seq<char>>) -> bool
    decreases one.len(),
{
    if one.len() == 0 {
        true
    } else {
        let w = one[0];
        let k = find_tok(two, w, 0);
        if k < two.len() {
            subset_from(one.drop_first(), two.remove(k))
        } else if two.len() == 0 {
            subset_from(one.drop_first(), two)
        } else {
            let a = abbrev_index(w, two, 0);
            if a < two.len() {
                subset_from(one.drop_first(), two.skip(a + 1))
            } else {
                false
            }
        }
    }
}

fn same_first_exec(a: &Vec<char>, b: &Vec<char>) -> (r: bool)
    ensures
        r == same_first(a@, b@),
{
    a.len() > 0 && b.len() > 0 && a[0] == b[0]
}

fn vec_tail(v: &Vec<String>, from: usize) -> (r: Vec<String>)
    requires
        from <= v@.len(),
    ensures
        r@ == v@.skip(from as int),
{
    let mut out: Vec<String> = Vec::new();
    let mut i: usize = from;
    while i < v.len()
        invariant
            from <= i <= v@.len(),
            out@ == v@.subrange(from as int, i as int),
        decreases v@.len() - i,
    {
        out.push(v[i].clone());
        assert(out@ =~= v@.subrange(from as int, i + 1));
        i = i + 1;
    }
    assert(v@.subrange(from as int, i as int) =~= v@.skip(from as int));
    out
}

/// Finds the first token of `token_list` that `token` abbreviates or is
/// abbreviated by (same first character, characters in order); on a hit the
/// tokens after it are returned, otherwise the list unchanged.
pub fn is_abbrev(token: &String, token_list: &Vec<String>) -> (r: (bool, Vec<String>))
    ensures
        ({
            let a = abbrev_index(token@, views(token_list@), 0);
            &&& r.0 == (a < token_list@.len())
            &&& r.0 ==> views(r.1@) == views(token_list@).skip(a + 1)
            &&& !r.0 ==> r.1@ == token_list@
        }),
{
    let tc = chars_of(token.as_str());
    let mut i: usize = 0;
    while i < token_list.len()
        invariant
            i <= token_list@.len(),
            tc@ == token@,
            abbrev_index(token@, views(token_list@), 0) == abbrev_index(token@, views(token_list@), i as int),
        decreases token_list@.len() - i,
    {
        let xc = chars_of(token_list[i].as_str());
        if same_first_exec(&tc, &xc) {
            if pattern_match(token_list[i].as_str(), token.as_str()) || pattern_match(token.as_str(), token_list[i].as_str()) {
                let rest = vec_tail(token_list, i + 1);
                assert(views(rest@) =~= views(token_list@).skip(i + 1));
                return (true, rest);
            }
        }
        i = i + 1;
    }
    (false, vec_tail(token_list, 0))
}

fn find_string(s: &Vec<String>, w: &String) -> (r: usize)
    ensures
        r as int == find_tok(views(s@), w@, 0),
{
    let mut i: usize = 0;
    while i < s.len()
        invariant
            i <= s@.len(),
            find_tok(views(s@), w@, 0) == find_tok(views(s@), w@, i as int),
        decreases s@.len() - i,
    {
        if s[i] == *w {
            return i;
        }
        i = i + 1;
    }
    i
}

/// Whether every token of `token_list_one` is found in `token_list_two`,
/// either equal (consumed) or as an abbreviation partner (consuming every
/// token up to it).
pub fn check_substring(token_list_one: Vec<String>, token_list_two: Vec<String>) -> (r: bool)
    ensures
        r == subset_from(views(token_list_one@), views(token_list_two@)),
{
    let mut two = token_list_two;
    let mut i: usize = 0;
    assert(views(token_list_one@).skip(0) =~= views(token_list_one@));
    while i < token_list_one.len()
        invariant
            i <= token_list_one@.len(),
            subset_from(views(token_list_one@), views(token_list_two@)) == subset_from(
                views(token_list_one@).skip(i as int),
                views(two@),
            ),
        decreases token_list_one@.len() - i,
    {
        let ghost one_rest = views(token_list_one@).skip(i as int);
        assert(one_rest.drop_first() =~= views(token_list_one@).skip(i + 1));
        assert(one_rest[0] == token_list_one@[i as int]@);
        let word = &token_list_one[i];
        let k = find_string(&two, word);
        proof {
            lemma_find_tok_bound(views(two@), word@, 0);
        }
        if k < two.len() {
            let ghost before = views(two@);
            two.remove(k);
            assert(views(two@) =~= before.remove(k as int));
        } else if two.len() > 0 {
            let (hit, rest) = is_abbrev(word, &two);
            if !hit {
                return false;
            }
            two = rest;
        }
        i = i + 1;
    }
    assert(views(token_list_one@).skip(i as int).len() == 0);
    true
}

/// How many tokens of `a` find a not yet matched equal token in `n`.
pub open spec fn bag_count(a: Seq<Seq<char>>, n: Seq<Seq<char>>) -> nat
    decreases a.len(),
{
    if a.len() == 0 {
        0
    } else {
        let k = find_tok(n, a[0], 0);
        if k < n.len() {
            1 + bag_count(a.drop_first(), n.remove(k))
        } else {
            bag_count(a.drop_first(), n)
        }
    }
}

pub proof fn lemma_bag_count_bound(a: Seq<Seq<char>>, n: Seq<Seq<char>>)
    ensures
        bag_count(a, n) <= a.len(),
        bag_count(a, n) <= n.len(),
    decreases a.len(),
{
    if a.len() > 0 {
        let k = find_tok(n, a[0], 0);
        lemma_find_tok_bound(n, a[0], 0);
        if k < n.len() {
            lemma_bag_count_bound(a.drop_first(), n.remove(k));
        } else {
            lemma_bag_count_bound(a.drop_first(), n);
        }
    }
}

/// The size of the multiset intersection of two token lists, matching each
/// token of `a` against the first unmatched equal token of `n`.
pub fn bag_overlap(a: &Vec<String>, n: Vec<String>) -> (r: u64)
    requires
        a@.len() < 0x1_0000_0000,
    ensures
        r as nat == bag_count(views(a@), views(n@)),
{
    let mut rest = n;
    let mut m: u64 = 0;
    let mut i: usize = 0;
    assert(views(a@).skip(0) =~= views(a@));
    while i < a.len()
        invariant
            i <= a@.len(),
            a@.len() < 0x1_0000_0000,
            m <= i,
            bag_count(views(a@), views(n@)) == m + bag_count(views(a@).skip(i as int), views(rest@)),
        decreases a@.len() - i,
    {
        let ghost ar = views(a@).skip(i as int);
        assert(ar.drop_first() =~= views(a@).skip(i + 1));
        assert(ar[0] == a@[i as int]@);
        let k = find_string(&rest, &a[i]);
        proof {
            lemma_find_tok_bound(views(rest@), a@[i as int]@, 0);
        }
        if k < rest.len() {
            let ghost before = views(rest@);
            rest.remove(k);
            assert(views(rest@) =~= before.remove(k as int));
            m = m + 1;
        }
        i = i + 1;
    }
    assert(views(a@).skip(i as int).len() == 0);
    m
}

} // verus!
