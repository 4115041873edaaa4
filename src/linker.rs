//! The linker: decides which of several candidate name sets, if any, names
//! the same thoroughfare as a primary name set, and how well.
//!
//! Scores are exact fractions `(num, den)` with `den > 0`, read as
//! `num / den` percent; results carry the best score rounded to hundredths.

use vstd::prelude::*;
use crate::name::{tok_texts, has_type_spec, join, keep_toks, not_kind, toks, tokenized_str, tokenless_str, without_type_str, Name, Names};
use crate::similarity::{bag_count, bag_overlap, check_substring, distance, lemma_lev_bound, lev, subset_from};
use crate::strings::{byte_len, chars_eq, utf8_len};
use crate::tokenize::views;
use crate::tokens::{TokenType, Tokenized};

verus! {

/// A candidate (or the primary) of one linker call: an id and its names.
pub struct Link<'a> {
    pub id: i64,
    pub names: &'a Names,
}

impl<'a> Link<'a> {
    pub fn new(id: i64, names: &'a Names) -> (r: Link<'a>)
        ensures
            r.id == id,
            r.names == names,
    {
        Link { id, names }
    }
}

/// The outcome of a link: the matched candidate's id and its score in
/// hundredths of a percent (`10000` is a perfect match).
#[derive(Debug, Clone, Copy, PartialEq, Eq, Structural)]
pub struct LinkResult {
    pub id: i64,
    pub score: u64,
}

impl LinkResult {
    pub fn new(id: i64, score: u64) -> (r: LinkResult)
        ensures
            r.id == id,
            r.score == score,
    {
        LinkResult { id, score }
    }
}

/// Whether a token is a numeric ordinal: digits followed by `st`, `nd`, `rd` or `th`.
pub open spec fn is_ordinal(t: Seq<char>) -> bool {
    &&& t.len() >= 3
    &&& forall|i: int| 0 <= i < t.len() - 2 ==> '0' <= #[trigger] t[i] && t[i] <= '9'
    &&& {
        let s = t.subrange(t.len() - 2, t.len() as int);
        s == seq!['s', 't'] || s == seq!['n', 'd'] || s == seq!['r', 'd'] || s == seq!['t', 'h']
    }
}

/// Whether a token is a number: one or more digits.
pub open spec fn is_number(t: Seq<char>) -> bool {
    t.len() >= 1 && forall|i: int| 0 <= i < t.len() ==> '0' <= #[trigger] t[i] && t[i] <= '9'
}

/// The first token of `ts` (from `i` on) that `pred` accepts.
pub open spec fn first_such(ts: Seq<Seq<char>>, pred: spec_fn(Seq<char>) -> bool, i: int) -> Option<Seq<char>>
    decreases ts.len() - i,
{
    if i < 0 || i >= ts.len() {
        None
    } else if pred(ts[i]) {
        Some(ts[i])
    } else {
        first_such(ts, pred, i + 1)
    }
}

/// The ordinal a numbered street carries: its first ordinal token.
pub open spec fn numbered(n: Name) -> Option<Seq<char>> {
    first_such(toks(n), |t: Seq<char>| is_ordinal(t), 0)
}

/// The route number a name carries: its first all-digit token.
pub open spec fn routish(n: Name) -> Option<Seq<char>> {
    first_such(toks(n), |t: Seq<char>| is_number(t), 0)
}

/// Whether the two names match outright: equal token texts, or (outside
/// strict mode) a primary with cardinals that equals a candidate without
/// any once its cardinals are dropped.
pub open spec fn exact_pair(p: Name, c: Name, strict: bool) -> bool {
    toks(p) == toks(c) || (!strict && has_type_spec(p, Some(TokenType::Cardinal))
        && !has_type_spec(c, Some(TokenType::Cardinal))
        && without_type_str(p, Some(TokenType::Cardinal)) == tokenized_str(c))
}

/// Whether `p` has a token of kind `tt` that `c`, which has tokens of that
/// kind, lacks.
pub open spec fn kind_conflict(p: Name, c: Name, tt: TokenType) -> bool {
    exists|k: int|
        0 <= k < p.tokenized@.len() && (#[trigger] p.tokenized@[k]).token_type == Some(tt)
            && has_type_spec(c, Some(tt)) && !toks(c).contains(p.tokenized@[k].token@)
}

/// Whether the pair is left out of scoring.
pub open spec fn skipped(p: Name, c: Name, strict: bool) -> bool {
    (strict && (kind_conflict(p, c, TokenType::Cardinal) || kind_conflict(p, c, TokenType::Way)))
        || (numbered(p).is_some() && numbered(p) != numbered(c))
        || (routish(p).is_some() && routish(p) != routish(c))
        || utf8_len(tokenized_str(p)) + utf8_len(tokenized_str(c)) == 0
}

/// The weighted distance of a pair, as a fraction `(num, den)`.
pub open spec fn pair_distance(p: Name, c: Name) -> (int, int) {
    let tp = tokenized_str(p);
    let tc = tokenized_str(c);
    let lp = tokenless_str(p);
    let lc = tokenless_str(c);
    if lp.len() > 0 && lc.len() > 0 {
        ((lev(tp, tc) + 3 * lev(lp, lc)) as int, 4)
    } else if lp.len() > 0 || lc.len() > 0 {
        (lev(tp, tc) as int, 1)
    } else {
        let m = bag_count(toks(p), toks(c));
        let n = toks(c).len();
        if 100 * m > 66 * n {
            (m as int, n as int)
        } else {
            (lev(tp, tc) as int, 1)
        }
    }
}

/// `100 - 100 * 2d / (|Tp| + |Tc|)` for a distance `d = dn / dd`, as a fraction.
pub open spec fn score_of(dn: int, dd: int, total: int) -> (int, int) {
    (100 * dd * total - 200 * dn, dd * total)
}

/// Whether the fraction `a` exceeds `b` (both with positive denominators).
pub open spec fn gt(a: (int, int), b: (int, int)) -> bool {
    a.0 * b.1 > b.0 * a.1
}

/// The score of a pair that is scored: the similarity, raised to 70.01 when
/// it is at most 70 and the smaller token list is an abbreviation-tolerant
/// subset of the larger.
pub open spec fn pair_score(p: Name, c: Name, strict: bool) -> Option<(int, int)> {
    if skipped(p, c, strict) {
        None
    } else {
        if raised(p, c) {
            Some((7001, 100))
        } else {
            Some(similarity_score(p, c))
        }
    }
}

/// The similarity of a pair before the subset rule.
pub open spec fn similarity_score(p: Name, c: Name) -> (int, int) {
    let d = pair_distance(p, c);
    score_of(d.0, d.1, (utf8_len(tokenized_str(p)) + utf8_len(tokenized_str(c))) as int)
}

/// Whether the subset rule raises the pair to 70.01: its similarity is at
/// most 70, both tokenized forms are at least 2 bytes, the candidate's
/// tokenless form is not empty, and the smaller token list is an
/// abbreviation-tolerant subset of the larger.
pub open spec fn raised(p: Name, c: Name) -> bool {
    !gt(similarity_score(p, c), (70, 1)) && utf8_len(tokenized_str(p)) >= 2 && utf8_len(tokenized_str(c)) >= 2
        && tokenless_str(c).len() >= 1 && (if toks(c).len() > toks(p).len() {
        subset_from(toks(p), toks(c))
    } else {
        subset_from(toks(c), toks(p))
    })
}

/// The larger of a running best and an optional score; ties keep the running best.
pub open spec fn raise(m: (int, int), s: Option<(int, int)>) -> (int, int) {
    match s {
        Some(x) => if gt(x, m) {
            x
        } else {
            m
        },
        None => m,
    }
}

/// The best of `m` and the scores of `p` against the first `k` names of `cs`.
pub open spec fn best_names(p: Name, cs: Seq<Name>, strict: bool, k: int, m: (int, int)) -> (int, int)
    decreases k,
{
    if k <= 0 {
        m
    } else {
        raise(best_names(p, cs, strict, k - 1, m), pair_score(p, cs[k - 1], strict))
    }
}

/// The best score of a candidate's names against the first `i` primary
/// names, starting from 0.
pub open spec fn best_over(ps: Seq<Name>, cs: Seq<Name>, strict: bool, i: int) -> (int, int)
    decreases i,
{
    if i <= 0 {
        (0, 1)
    } else {
        best_names(ps[i - 1], cs, strict, cs.len() as int, best_over(ps, cs, strict, i - 1))
    }
}

/// Whether `p` matches some name of `cs` outright.
pub open spec fn any_exact(p: Name, cs: Seq<Name>, strict: bool) -> bool {
    exists|k: int| 0 <= k < cs.len() && exact_pair(p, #[trigger] cs[k], strict)
}

/// The first candidate at or after `j` with a name matching `p` outright, or `ls.len()`.
pub open spec fn first_exact_cand(p: Name, ls: Seq<Link>, strict: bool, j: int) -> int
    decreases ls.len() - j,
{
    if j < 0 || j >= ls.len() {
        ls.len() as int
    } else if any_exact(p, ls[j].names.names@, strict) {
        j
    } else {
        first_exact_cand(p, ls, strict, j + 1)
    }
}

/// The candidate matched outright first, primary names taken in order and,
/// for each, candidates in order.
pub open spec fn first_exact(ps: Seq<Name>, ls: Seq<Link>, strict: bool, i: int) -> Option<int>
    decreases ps.len() - i,
{
    if i < 0 || i >= ps.len() {
        None
    } else {
        let j = first_exact_cand(ps[i], ls, strict, 0);
        if j < ls.len() {
            Some(j)
        } else {
            first_exact(ps, ls, strict, i + 1)
        }
    }
}

/// The best score of each candidate.
pub open spec fn bests(ps: Seq<Name>, ls: Seq<Link>, strict: bool) -> Seq<(int, int)> {
    Seq::new(ls.len(), |j: int| best_over(ps, ls[j].names.names@, strict, ps.len() as int))
}

/// The first index holding the greatest fraction.
pub open spec fn pick(b: Seq<(int, int)>) -> int
    decreases b.len(),
{
    if b.len() <= 1 {
        0
    } else {
        let k = pick(b.drop_last());
        if gt(b.last(), b[k]) {
            b.len() - 1
        } else {
            k
        }
    }
}

/// A positive fraction in hundredths, rounded half up.
pub open spec fn hundredths(s: (int, int)) -> int {
    (200 * s.0 + s.1) / (2 * s.1)
}

/// What the linker returns: the first outright match with a perfect score;
/// otherwise the first candidate with the best score, when that exceeds 70.
pub open spec fn link_spec(ps: Seq<Name>, ls: Seq<Link>, strict: bool) -> Option<(i64, int)> {
    match first_exact(ps, ls, strict, 0) {
        Some(j) => Some((ls[j].id, 10000)),
        None => if ls.len() == 0 {
            None
        } else {
            let b = bests(ps, ls, strict);
            let j = pick(b);
            if gt(b[j], (70, 1)) {
                Some((ls[j].id, hundredths(b[j])))
            } else {
                None
            }
        },
    }
}

/// The size bound a name must meet to be linked.
pub open spec fn name_fits(n: Name) -> bool {
    &&& n.tokenized@.len() < 0x10000
    &&& tokenized_str(n).len() < 0x10000
    &&& tokenless_str(n).len() < 0x10000
}

pub open spec fn names_fit(ns: Seq<Name>) -> bool {
    forall|k: int| 0 <= k < ns.len() ==> name_fits(#[trigger] ns[k])
}

fn token_strings(ts: &Vec<Tokenized>) -> (r: Vec<String>)
    ensures
        views(r@) == tok_texts(ts@),
{
    let mut out: Vec<String> = Vec::new();
    let mut i: usize = 0;
    while i < ts.len()
        invariant
            i <= ts@.len(),
            views(out@) == tok_texts(ts@.take(i as int)),
        decreases ts@.len() - i,
    {
        let ghost before = views(out@);
        out.push(ts[i].token.clone());
        assert(views(out@) =~= before.push(ts@[i as int].token@));
        assert(tok_texts(ts@.take(i + 1)) =~= tok_texts(ts@.take(i as int)).push(ts@[i as int].token@));
        i = i + 1;
    }
    assert(ts@.take(i as int) =~= ts@);
    out
}

fn toks_equal(a: &Name, b: &Name) -> (r: bool)
    ensures
        r == (toks(*a) == toks(*b)),
{
    if a.tokenized.len() != b.tokenized.len() {
        assert(toks(*a).len() != toks(*b).len());
        return false;
    }
    let mut i: usize = 0;
    while i < a.tokenized.len()
        invariant
            a.tokenized@.len() == b.tokenized@.len(),
            i <= a.tokenized@.len(),
            forall|k: int| 0 <= k < i ==> (#[trigger] toks(*a)[k]) == toks(*b)[k],
        decreases a.tokenized@.len() - i,
    {
        if a.tokenized[i].token != b.tokenized[i].token {
            assert(toks(*a)[i as int] != toks(*b)[i as int]);
            return false;
        }
        i = i + 1;
    }
    assert(toks(*a) =~= toks(*b));
    true
}

fn exact_pair_exec(p: &Name, c: &Name, strict: bool) -> (r: bool)
    ensures
        r == exact_pair(*p, *c, strict),
{
    if toks_equal(p, c) {
        return true;
    }
    if strict {
        return false;
    }
    if p.has_type(Some(TokenType::Cardinal)) && !c.has_type(Some(TokenType::Cardinal)) {
        let stripped = p.remove_type_string(Some(TokenType::Cardinal));
        let whole = c.tokenized_string();
        stripped == whole
    } else {
        false
    }
}

fn contains_token(ts: &Vec<Tokenized>, w: &String) -> (r: bool)
    ensures
        r == tok_texts(ts@).contains(w@),
{
    let mut i: usize = 0;
    while i < ts.len()
        invariant
            i <= ts@.len(),
            forall|k: int| 0 <= k < i ==> (#[trigger] ts@[k]).token@ != w@,
        decreases ts@.len() - i,
    {
        if ts[i].token == *w {
            assert(tok_texts(ts@)[i as int] == w@);
            return true;
        }
        i = i + 1;
    }
    proof {
        let tv = tok_texts(ts@);
        if tv.contains(w@) {
            let k = choose|k: int| 0 <= k < tv.len() && #[trigger] tv[k] == w@;
            assert(ts@[k].token@ == w@);
        }
    }
    false
}

fn kind_conflict_exec(p: &Name, c: &Name, tt: TokenType) -> (r: bool)
    ensures
        r == kind_conflict(*p, *c, tt),
{
    if !c.has_type(Some(tt)) {
        return false;
    }
    let mut i: usize = 0;
    while i < p.tokenized.len()
        invariant
            i <= p.tokenized@.len(),
            has_type_spec(*c, Some(tt)),
            forall|k: int|
                0 <= k < i ==> !((#[trigger] p.tokenized@[k]).token_type == Some(tt) && !toks(*c).contains(
                    p.tokenized@[k].token@,
                )),
        decreases p.tokenized@.len() - i,
    {
        if p.tokenized[i].token_type == Some(tt) && !contains_token(&c.tokenized, &p.tokenized[i].token) {
            return true;
        }
        i = i + 1;
    }
    false
}

fn is_digit(c: char) -> (r: bool)
    ensures
        r == ('0' <= c && c <= '9'),
{
    '0' <= c && c <= '9'
}

fn is_ordinal_exec(t: &String) -> (r: bool)
    ensures
        r == is_ordinal(t@),
{
    let cs = crate::strings::chars_of(t.as_str());
    let n = cs.len();
    if n < 3 {
        return false;
    }
    let mut i: usize = 0;
    while i < n - 2
        invariant
            n == cs@.len(),
            n >= 3,
            cs@ == t@,
            i <= n - 2,
            forall|k: int| 0 <= k < i ==> '0' <= #[trigger] cs@[k] && cs@[k] <= '9',
        decreases n - 2 - i,
    {
        if !is_digit(cs[i]) {
            return false;
        }
        i = i + 1;
    }
    let a = cs[n - 2];
    let b = cs[n - 1];
    let ghost s = cs@.subrange(n - 2, n as int);
    assert(s =~= seq![a, b]);
    (a == 's' && b == 't') || (a == 'n' && b == 'd') || (a == 'r' && b == 'd') || (a == 't' && b == 'h')
}

fn is_number_exec(t: &String) -> (r: bool)
    ensures
        r == is_number(t@),
{
    let cs = crate::strings::chars_of(t.as_str());
    if cs.len() == 0 {
        return false;
    }
    let mut i: usize = 0;
    while i < cs.len()
        invariant
            cs@ == t@,
            i <= cs@.len(),
            forall|k: int| 0 <= k < i ==> '0' <= #[trigger] cs@[k] && cs@[k] <= '9',
        decreases cs@.len() - i,
    {
        if !is_digit(cs[i]) {
            return false;
        }
        i = i + 1;
    }
    true
}

/// The ordinal of a numbered street name (`1st`, `11th`, ...): its first
/// ordinal token, if any.
pub fn is_numbered(name: &Name) -> (r: Option<String>)
    ensures
        match r {
            Some(s) => numbered(*name) == Some(s@),
            None => numbered(*name).is_none(),
        },
{
    let mut i: usize = 0;
    while i < name.tokenized.len()
        invariant
            i <= name.tokenized@.len(),
            numbered(*name) == first_such(toks(*name), |t: Seq<char>| is_ordinal(t), i as int),
        decreases name.tokenized@.len() - i,
    {
        if is_ordinal_exec(&name.tokenized[i].token) {
            return Some(name.tokenized[i].token.clone());
        }
        i = i + 1;
    }
    None
}

/// The route number of a name (`rt 1`, `us route 50`): its first all-digit
/// token, if any.
pub fn is_routish(name: &Name) -> (r: Option<String>)
    ensures
        match r {
            Some(s) => routish(*name) == Some(s@),
            None => routish(*name).is_none(),
        },
{
    let mut i: usize = 0;
    while i < name.tokenized.len()
        invariant
            i <= name.tokenized@.len(),
            routish(*name) == first_such(toks(*name), |t: Seq<char>| is_number(t), i as int),
        decreases name.tokenized@.len() - i,
    {
        if is_number_exec(&name.tokenized[i].token) {
            return Some(name.tokenized[i].token.clone());
        }
        i = i + 1;
    }
    None
}

fn opt_string_eq(a: &Option<String>, b: &Option<String>) -> (r: bool)
    ensures
        r == (match a {
            Some(x) => Some(x@),
            None => None::<Seq<char>>,
        } == match b {
            Some(x) => Some(x@),
            None => None::<Seq<char>>,
        }),
{
    match (a, b) {
        (Some(x), Some(y)) => *x == *y,
        (None, None) => true,
        _ => false,
    }
}

/// The bound every score fraction keeps: `|num| <= 2^50`, `0 < den <= 2^50`,
/// and at most 100 percent.
pub open spec fn bounded(x: (int, int)) -> bool {
    -0x4_0000_0000_0000 <= x.0 <= 0x4_0000_0000_0000 && 0 < x.1 <= 0x4_0000_0000_0000 && x.0 <= 100 * x.1
}

fn pair_score_exec(p: &Name, c: &Name, strict: bool) -> (r: Option<(i128, i128)>)
    requires
        name_fits(*p),
        name_fits(*c),
    ensures
        match r {
            Some(x) => pair_score(*p, *c, strict) == Some((x.0 as int, x.1 as int)) && bounded((x.0 as int, x.1 as int)),
            None => pair_score(*p, *c, strict).is_none(),
        },
{
    if strict && (kind_conflict_exec(p, c, TokenType::Cardinal) || kind_conflict_exec(p, c, TokenType::Way)) {
        return None;
    }
    let np = is_numbered(p);
    if np.is_some() && !opt_string_eq(&np, &is_numbered(c)) {
        return None;
    }
    let rp = is_routish(p);
    if rp.is_some() && !opt_string_eq(&rp, &is_routish(c)) {
        return None;
    }
    let tp = p.tokenized_chars();
    let tc = c.tokenized_chars();
    let lp = p.tokenless_chars();
    let lc = c.tokenless_chars();
    let bp = byte_len(&tp);
    let bc = byte_len(&tc);
    if bp + bc == 0 {
        return None;
    }
    proof {
        lemma_lev_bound(tp@, tc@);
        lemma_lev_bound(lp@, lc@);
    }
    let ghost d = pair_distance(*p, *c);
    let dn: i128;
    let dd: i128;
    if lp.len() > 0 && lc.len() > 0 {
        dn = distance(&tp, &tc) as i128 + 3 * (distance(&lp, &lc) as i128);
        dd = 4;
    } else if lp.len() > 0 || lc.len() > 0 {
        dn = distance(&tp, &tc) as i128;
        dd = 1;
    } else {
        let atoks = token_strings(&p.tokenized);
        let ntoks = token_strings(&c.tokenized);
        let m = bag_overlap(&atoks, ntoks);
        proof {
            crate::similarity::lemma_bag_count_bound(toks(*p), toks(*c));
        }
        let n = c.tokenized.len() as u64;
        assert(toks(*c).len() == n);
        if 100 * m > 66 * n {
            dn = m as i128;
            dd = n as i128;
        } else {
            dn = distance(&tp, &tc) as i128;
            dd = 1;
        }
    }
    assert(d == (dn as int, dd as int));
    let total = (bp + bc) as i128;
    assert(0 <= dn <= 0x100000);
    assert(0 < dd * total <= 0x8_0000_0000) by (nonlinear_arith)
        requires
            0 < dd <= 0x10000,
            0 < total <= 0x80000,
    ;
    assert(0 <= 100 * dd * total <= 0x400_0000_0000) by (nonlinear_arith)
        requires
            0 < dd <= 0x10000,
            0 < total <= 0x80000,
    ;
    let den = dd * total;
    let num = 100 * den - 200 * dn;
    assert(score_of(dn as int, dd as int, total as int) == (num as int, den as int)) by (nonlinear_arith)
        requires
            den == dd * total,
            num == 100 * den - 200 * dn,
    ;
    assert(utf8_len(tokenized_str(*p)) + utf8_len(tokenized_str(*c)) == total);
    assert(similarity_score(*p, *c) == (num as int, den as int));
    assert((num as int) * 1 == num as int);
    assert(gt(similarity_score(*p, *c), (70, 1)) == (num > 70 * den));
    if num <= 70 * den && bp >= 2 && bc >= 2 && lc.len() >= 1 {
        let atoks = token_strings(&p.tokenized);
        let ntoks = token_strings(&c.tokenized);
        let subset = if ntoks.len() > atoks.len() {
            check_substring(atoks, ntoks)
        } else {
            check_substring(ntoks, atoks)
        };
        assert(views(atoks@).len() == atoks@.len());
        assert(views(ntoks@).len() == ntoks@.len());
        if subset {
            assert(raised(*p, *c));
            assert(!skipped(*p, *c, strict));
            return Some((7001, 100));
        }
        assert(!raised(*p, *c));
    }
    assert(!raised(*p, *c));
    assert(!skipped(*p, *c, strict));
    assert(bounded((num as int, den as int)));
    Some((num, den))
}

fn raise_exec(m: (i128, i128), s: Option<(i128, i128)>) -> (r: (i128, i128))
    requires
        bounded((m.0 as int, m.1 as int)),
        s matches Some(x) ==> bounded((x.0 as int, x.1 as int)),
    ensures
        (r.0 as int, r.1 as int) == raise(
            (m.0 as int, m.1 as int),
            match s {
                Some(x) => Some((x.0 as int, x.1 as int)),
                None => None,
            },
        ),
        bounded((r.0 as int, r.1 as int)),
{
    match s {
        Some(x) => {
            assert(-0x10_0000_0000_0000_0000_0000_0000 <= x.0 * m.1 <= 0x10_0000_0000_0000_0000_0000_0000) by (nonlinear_arith)
                requires
                    -0x4_0000_0000_0000 <= x.0 <= 0x4_0000_0000_0000,
                    0 < m.1 <= 0x4_0000_0000_0000,
            ;
            assert(-0x10_0000_0000_0000_0000_0000_0000 <= m.0 * x.1 <= 0x10_0000_0000_0000_0000_0000_0000) by (nonlinear_arith)
                requires
                    -0x4_0000_0000_0000 <= m.0 <= 0x4_0000_0000_0000,
                    0 < x.1 <= 0x4_0000_0000_0000,
            ;
            if x.0 * m.1 > m.0 * x.1 {
                x
            } else {
                m
            }
        },
        None => m,
    }
}

fn candidate_best(ps: &Vec<Name>, cs: &Vec<Name>, strict: bool) -> (r: (i128, i128))
    requires
        names_fit(ps@),
        names_fit(cs@),
    ensures
        (r.0 as int, r.1 as int) == best_over(ps@, cs@, strict, ps@.len() as int),
        bounded((r.0 as int, r.1 as int)),
{
    let mut m: (i128, i128) = (0, 1);
    let mut i: usize = 0;
    while i < ps.len()
        invariant
            i <= ps@.len(),
            names_fit(ps@),
            names_fit(cs@),
            (m.0 as int, m.1 as int) == best_over(ps@, cs@, strict, i as int),
            bounded((m.0 as int, m.1 as int)),
        decreases ps@.len() - i,
    {
        let ghost start = best_over(ps@, cs@, strict, i as int);
        let mut k: usize = 0;
        while k < cs.len()
            invariant
                i < ps@.len(),
                k <= cs@.len(),
                names_fit(ps@),
                names_fit(cs@),
                (m.0 as int, m.1 as int) == best_names(ps@[i as int], cs@, strict, k as int, start),
                bounded((m.0 as int, m.1 as int)),
            decreases cs@.len() - k,
        {
            assert(name_fits(ps@[i as int]));
            assert(name_fits(cs@[k as int]));
            let sc = pair_score_exec(&ps[i], &cs[k], strict);
            m = raise_exec(m, sc);
            k = k + 1;
        }
        i = i + 1;
    }
    m
}

/// Compares a primary name set with candidate name sets (nearest first) and
/// returns the candidate they match best, or none.
///
/// A pair of names whose token texts are equal, or (outside strict mode) a
/// primary name with cardinals that equals a candidate name without any once
/// its cardinals are dropped, is an outright match: the first one, primary
/// names taken in order and for each the candidates in order, is returned
/// with a perfect score. Otherwise every pair that passes the strict-mode
/// kind check and the ordinal and route-number checks is scored, each
/// candidate keeps its best score (starting at 0), and the first candidate
/// with the highest score is returned when that score exceeds 70.
pub fn linker(primary: Link, potentials: Vec<Link>, strict: bool) -> (r: Option<LinkResult>)
    requires
        names_fit(primary.names.names@),
        forall|j: int| 0 <= j < potentials@.len() ==> names_fit((#[trigger] potentials@[j]).names.names@),
    ensures
        match r {
            Some(x) => link_spec(primary.names.names@, potentials@, strict) == Some((x.id, x.score as int)),
            None => link_spec(primary.names.names@, potentials@, strict).is_none(),
        },
{
    let ps = &primary.names.names;
    let ghost pv = ps@;
    let ghost lv = potentials@;
    let mut i: usize = 0;
    while i < ps.len()
        invariant
            i <= pv.len(),
            pv == ps@,
                pv == primary.names.names@,
            lv == potentials@,
            first_exact(pv, lv, strict, 0) == first_exact(pv, lv, strict, i as int),
        decreases pv.len() - i,
    {
        let mut j: usize = 0;
        while j < potentials.len()
            invariant
                i < pv.len(),
                j <= lv.len(),
                pv == ps@,
                pv == primary.names.names@,
                lv == potentials@,
                first_exact(pv, lv, strict, 0) == first_exact(pv, lv, strict, i as int),
                first_exact_cand(pv[i as int], lv, strict, 0) == first_exact_cand(pv[i as int], lv, strict, j as int),
            decreases lv.len() - j,
        {
            let cs = &potentials[j].names.names;
            let mut k: usize = 0;
            while k < cs.len()
                invariant
                    i < pv.len(),
                    j < lv.len(),
                    k <= cs@.len(),
                    pv == ps@,
                pv == primary.names.names@,
                    lv == potentials@,
                    cs@ == lv[j as int].names.names@,
                    first_exact(pv, lv, strict, 0) == first_exact(pv, lv, strict, i as int),
                    first_exact_cand(pv[i as int], lv, strict, 0) == first_exact_cand(pv[i as int], lv, strict, j as int),
                    forall|q: int| 0 <= q < k ==> !exact_pair(pv[i as int], #[trigger] cs@[q], strict),
                decreases cs@.len() - k,
            {
                if exact_pair_exec(&ps[i], &cs[k], strict) {
                    assert(any_exact(pv[i as int], cs@, strict));
                    assert(first_exact_cand(pv[i as int], lv, strict, j as int) == j);
                    return Some(LinkResult { id: potentials[j].id, score: 10000 });
                }
                k = k + 1;
            }
            j = j + 1;
        }
        i = i + 1;
    }
    assert(first_exact(pv, lv, strict, i as int).is_none());
    if potentials.len() == 0 {
        return None;
    }
    let ghost b = bests(pv, lv, strict);
    let mut best_idx: usize = 0;
    let mut best: (i128, i128) = candidate_best(ps, &potentials[0].names.names, strict);
    let mut j: usize = 1;
    while j < potentials.len()
        invariant
            1 <= j <= lv.len(),
            pv == ps@,
                pv == primary.names.names@,
            lv == potentials@,
            names_fit(pv),
            forall|q: int| 0 <= q < lv.len() ==> names_fit((#[trigger] lv[q]).names.names@),
            b == bests(pv, lv, strict),
            best_idx as int == pick(b.take(j as int)),
            best_idx < j,
            (best.0 as int, best.1 as int) == b[best_idx as int],
            bounded((best.0 as int, best.1 as int)),
        decreases lv.len() - j,
    {
        let cand = candidate_best(ps, &potentials[j].names.names, strict);
        assert(b.take(j + 1).drop_last() =~= b.take(j as int));
        assert(b.take(j as int)[best_idx as int] == b[best_idx as int]);
        assert(-0x10_0000_0000_0000_0000_0000_0000 <= cand.0 * best.1 <= 0x10_0000_0000_0000_0000_0000_0000) by (nonlinear_arith)
            requires
                -0x4_0000_0000_0000 <= cand.0 <= 0x4_0000_0000_0000,
                0 < best.1 <= 0x4_0000_0000_0000,
        ;
        assert(-0x10_0000_0000_0000_0000_0000_0000 <= best.0 * cand.1 <= 0x10_0000_0000_0000_0000_0000_0000) by (nonlinear_arith)
            requires
                -0x4_0000_0000_0000 <= best.0 <= 0x4_0000_0000_0000,
                0 < cand.1 <= 0x4_0000_0000_0000,
        ;
        if cand.0 * best.1 > best.0 * cand.1 {
            best = cand;
            best_idx = j;
        }
        j = j + 1;
    }
    assert(b.take(j as int) =~= b);
    assert(pick(b) == best_idx);
    assert(b[best_idx as int].0 * 1 == b[best_idx as int].0);
    if best.0 > 70 * best.1 {
        let h = (200 * best.0 + best.1) / (2 * best.1);
        assert(0 <= h <= 0x10_0000_0000_0000_0000) by (nonlinear_arith)
            requires
                0 < best.0 <= 0x4_0000_0000_0000,
                0 < best.1,
                h == (200 * best.0 + best.1) / (2 * best.1),
        ;
        Some(LinkResult { id: potentials[best_idx].id, score: h as u64 })
    } else {
        None
    }
}

/// With no candidates nothing matches outright.
pub proof fn lemma_first_exact_empty(ps: Seq<Name>, ls: Seq<Link>, strict: bool, i: int)
    requires
        ls.len() == 0,
    ensures
        first_exact(ps, ls, strict, i).is_none(),
    decreases ps.len() - i,
{
    if 0 <= i < ps.len() {
        lemma_first_exact_empty(ps, ls, strict, i + 1);
    }
}

proof fn lemma_first_exact_cand_found(p: Name, ls: Seq<Link>, strict: bool, j0: int, j: int)
    requires
        0 <= j0 <= j < ls.len(),
        any_exact(p, ls[j].names.names@, strict),
    ensures
        first_exact_cand(p, ls, strict, j0) < ls.len(),
    decreases j - j0,
{
    if !any_exact(p, ls[j0].names.names@, strict) {
        lemma_first_exact_cand_found(p, ls, strict, j0 + 1, j);
    }
}

proof fn lemma_first_exact_found(ps: Seq<Name>, ls: Seq<Link>, strict: bool, i0: int, i: int, j: int)
    requires
        0 <= i0 <= i < ps.len(),
        0 <= j < ls.len(),
        any_exact(ps[i], ls[j].names.names@, strict),
    ensures
        first_exact(ps, ls, strict, i0).is_some(),
    decreases i - i0,
{
    if i0 == i {
        lemma_first_exact_cand_found(ps[i], ls, strict, 0, j);
    } else if first_exact_cand(ps[i0], ls, strict, 0) >= ls.len() {
        lemma_first_exact_found(ps, ls, strict, i0 + 1, i, j);
    }
}

/// An exact match scores 100: when some primary name and some name of some
/// candidate have equal token texts, the linker returns an outright match
/// with a perfect score.
pub proof fn lemma_equal_tokens_score_perfect(ps: Seq<Name>, ls: Seq<Link>, strict: bool, i: int, j: int, k: int)
    requires
        0 <= i < ps.len(),
        0 <= j < ls.len(),
        0 <= k < ls[j].names.names@.len(),
        toks(ps[i]) == toks(ls[j].names.names@[k]),
    ensures
        link_spec(ps, ls, strict) matches Some(r) && r.1 == 10000,
{
    assert(exact_pair(ps[i], ls[j].names.names@[k], strict));
    assert(any_exact(ps[i], ls[j].names.names@, strict));
    lemma_first_exact_found(ps, ls, strict, 0, i, j);
}

/// Moving a candidate closer never lowers its score: for the same weights and
/// lengths, a smaller distance gives a score at least as high.
pub proof fn lemma_closer_scores_higher(dn1: int, dn2: int, dd: int, total: int)
    requires
        0 <= dn1 <= dn2,
        dd > 0,
        total > 0,
    ensures
        !gt(score_of(dn2, dd, total), score_of(dn1, dd, total)),
        dn1 < dn2 ==> gt(score_of(dn1, dd, total), score_of(dn2, dd, total)),
{
    let den = dd * total;
    assert(den > 0) by (nonlinear_arith)
        requires
            dd > 0,
            total > 0,
            den == dd * total,
    ;
    let a = 100 * dd * total - 200 * dn1;
    let b = 100 * dd * total - 200 * dn2;
    assert(b * den <= a * den) by (nonlinear_arith)
        requires
            b <= a,
            den > 0,
    ;
    if dn1 < dn2 {
        assert(a * den > b * den) by (nonlinear_arith)
            requires
                b < a,
                den > 0,
        ;
    }
}

/// Moving a candidate name closer never lowers its score: for a primary name
/// `p` and two scored candidate names whose tokenized forms have the same
/// length and whose weighted distances share a denominator, the one at the
/// smaller distance scores at least as high, unless the subset rule raises
/// the farther one to 70.01.
pub proof fn lemma_closer_name_scores_higher(p: Name, near: Name, far: Name, strict: bool)
    requires
        !skipped(p, near, strict),
        !skipped(p, far, strict),
        utf8_len(tokenized_str(near)) == utf8_len(tokenized_str(far)),
        pair_distance(p, near).1 == pair_distance(p, far).1,
        pair_distance(p, near).0 <= pair_distance(p, far).0,
        !raised(p, far),
    ensures
        pair_score(p, near, strict) matches Some(a) && pair_score(p, far, strict) matches Some(b) && !gt(b, a),
{
    let dn = pair_distance(p, near);
    let df = pair_distance(p, far);
    let total = (utf8_len(tokenized_str(p)) + utf8_len(tokenized_str(near))) as int;
    lemma_pair_score_den(p, near, strict);
    lemma_pair_score_den(p, far, strict);
    let sn = similarity_score(p, near);
    let sf = similarity_score(p, far);
    if tokenless_str(p).len() == 0 && tokenless_str(near).len() == 0 {
        crate::similarity::lemma_bag_count_bound(toks(p), toks(near));
    }
    if tokenless_str(p).len() == 0 && tokenless_str(far).len() == 0 {
        crate::similarity::lemma_bag_count_bound(toks(p), toks(far));
    }
    assert(dn.1 > 0);
    assert(total > 0);
    lemma_closer_scores_higher(dn.0, df.0, dn.1, total);
    if raised(p, near) {
        assert(sn.1 > 0 && sf.1 > 0) by (nonlinear_arith)
            requires
                sn.1 == dn.1 * total,
                sf.1 == dn.1 * total,
                dn.1 > 0,
                total > 0,
        ;
        assert(sf.0 * 100 <= 7001 * sf.1) by (nonlinear_arith)
            requires
                sf.0 * sn.1 <= sn.0 * sf.1,
                sn.0 * 1 <= 70 * sn.1,
                sn.1 == sf.1,
                sf.1 > 0,
        ;
    }
}

/// The linker never returns a score of at most 70: an outright match scores
/// 100, and otherwise the returned candidate's best score exceeds 70 (so
/// its rounded score is at least 70.00).
pub proof fn lemma_link_above_seventy(ps: Seq<Name>, ls: Seq<Link>, strict: bool)
    ensures
        link_spec(ps, ls, strict) matches Some(r) ==> r.1 >= 7000,
        link_spec(ps, ls, strict) matches Some(r) ==> (first_exact(ps, ls, strict, 0).is_some() || gt(
            bests(ps, ls, strict)[pick(bests(ps, ls, strict))],
            (70, 1),
        )),
{
    if first_exact(ps, ls, strict, 0).is_none() && ls.len() > 0 {
        let b = bests(ps, ls, strict);
        let j = pick(b);
        if gt(b[j], (70, 1)) {
            lemma_pick_bound(b);
            lemma_best_over_den(ps, ls[j].names.names@, strict, ps.len() as int);
            let x = b[j];
            assert(hundredths(x) >= 7000) by (nonlinear_arith)
                requires
                    x.0 * 1 > 70 * x.1,
                    x.1 > 0,
            {
                assert(200 * x.0 + x.1 >= 14000 * x.1 + x.1);
                assert(200 * x.0 + x.1 >= 7000 * (2 * x.1));
            }
        }
    }
}

proof fn lemma_pick_bound(b: Seq<(int, int)>)
    requires
        b.len() > 0,
    ensures
        0 <= pick(b) < b.len(),
    decreases b.len(),
{
    if b.len() > 1 {
        lemma_pick_bound(b.drop_last());
    }
}

proof fn lemma_pair_score_den(p: Name, c: Name, strict: bool)
    ensures
        pair_score(p, c, strict) matches Some(x) ==> x.1 > 0,
{
    if !skipped(p, c, strict) {
        let tp = utf8_len(tokenized_str(p)) as int;
        let tc = utf8_len(tokenized_str(c)) as int;
        let d = pair_distance(p, c);
        if tokenless_str(p).len() == 0 && tokenless_str(c).len() == 0 {
            let m = bag_count(toks(p), toks(c));
            crate::similarity::lemma_bag_count_bound(toks(p), toks(c));
        }
        assert(d.1 > 0);
        assert(d.1 * (tp + tc) > 0) by (nonlinear_arith)
            requires
                d.1 > 0,
                tp + tc > 0,
        ;
    }
}

proof fn lemma_best_names_den(p: Name, cs: Seq<Name>, strict: bool, k: int, m: (int, int))
    requires
        m.1 > 0,
    ensures
        best_names(p, cs, strict, k, m).1 > 0,
    decreases k,
{
    if k > 0 {
        lemma_best_names_den(p, cs, strict, k - 1, m);
        lemma_pair_score_den(p, cs[k - 1], strict);
    }
}

proof fn lemma_best_over_den(ps: Seq<Name>, cs: Seq<Name>, strict: bool, i: int)
    ensures
        best_over(ps, cs, strict, i).1 > 0,
    decreases i,
{
    if i > 0 {
        lemma_best_over_den(ps, cs, strict, i - 1);
        lemma_best_names_den(ps[i - 1], cs, strict, cs.len() as int, best_over(ps, cs, strict, i - 1));
    }
}

} // verus!
