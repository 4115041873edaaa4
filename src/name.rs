//! Names: a display string with its priority, origin and canonical tokens,
//! and ordered sets of them.

use vstd::prelude::*;
use crate::context::Context;
use crate::strings::{chars_of, string_of};
use crate::tokens::{TokenType, Tokenized};

verus! {

/// Where a name came from.
#[derive(Clone, Copy, Debug, PartialEq, Eq, Structural)]
pub enum Source {
    Address,
    Network,
    Generated,
}

/// A display name, its priority (larger wins), origin, canonical tokens and frequency.
#[derive(Debug, Clone, PartialEq)]
pub struct Name {
    pub display: String,
    pub priority: i8,
    pub source: Option<Source>,
    pub tokenized: Vec<Tokenized>,
    pub freq: i64,
}

/// An ordered sequence of names.
#[derive(Debug, Clone, PartialEq)]
pub struct Names {
    pub names: Vec<Name>,
}

/// The token texts of a name.
pub open spec fn toks(n: Name) -> Seq<Seq<char>> {
    tok_texts(n.tokenized@)
}

/// The texts of a token sequence.
pub open spec fn tok_texts(ts: Seq<Tokenized>) -> Seq<Seq<char>> {
    ts.map_values(|t: Tokenized| t.token@)
}

/// Tokens joined by single spaces.
pub open spec fn join(ts: Seq<Seq<char>>) -> Seq<char>
    decreases ts.len(),
{
    if ts.len() == 0 {
        Seq::empty()
    } else if ts.len() == 1 {
        ts[0]
    } else {
        join(ts.drop_last()) + seq![' '] + ts.last()
    }
}

/// Whether a token kind is one the tokenless form leaves out.
pub open spec fn is_structural(t: Option<TokenType>) -> bool {
    t == Some(TokenType::Way) || t == Some(TokenType::Cardinal) || t == Some(TokenType::Determiner)
        || t == Some(TokenType::Number)
}

/// The token texts of `ts` whose kind is kept by `keep`.
pub open spec fn keep_toks(ts: Seq<Tokenized>, keep: spec_fn(Option<TokenType>) -> bool) -> Seq<Seq<char>>
    decreases ts.len(),
{
    if ts.len() == 0 {
        Seq::empty()
    } else if keep(ts.last().token_type) {
        keep_toks(ts.drop_last(), keep).push(ts.last().token@)
    } else {
        keep_toks(ts.drop_last(), keep)
    }
}

/// The tokenized form of a name: its tokens joined by spaces.
pub open spec fn tokenized_str(n: Name) -> Seq<char> {
    join(toks(n))
}

/// The tokenless form: the tokens that are neither way, cardinal, determiner
/// nor number, joined by spaces.
pub open spec fn tokenless_str(n: Name) -> Seq<char> {
    join(keep_toks(n.tokenized@, |t: Option<TokenType>| !is_structural(t)))
}

/// The name's tokens without those of kind `tt`, joined by spaces.
pub open spec fn without_type_str(n: Name, tt: Option<TokenType>) -> Seq<char> {
    join(keep_toks(n.tokenized@, not_kind(tt)))
}

/// Keeps the kinds other than `tt`.
pub open spec fn not_kind(tt: Option<TokenType>) -> spec_fn(Option<TokenType>) -> bool {
    |t: Option<TokenType>| t != tt
}

/// Whether some token of the name has kind `tt`.
pub open spec fn has_type_spec(n: Name, tt: Option<TokenType>) -> bool {
    exists|k: int| 0 <= k < n.tokenized@.len() && (#[trigger] n.tokenized@[k]).token_type == tt
}

pub(crate) fn push_joined(out: &mut Vec<char>, first: bool, w: &String)
    ensures
        final(out)@ == (if first { old(out)@ + w@ } else { old(out)@ + seq![' '] + w@ }),
{
    let cs = chars_of(w.as_str());
    if !first {
        out.push(' ');
    }
    let ghost base = out@;
    let mut i: usize = 0;
    while i < cs.len()
        invariant
            i <= cs@.len(),
            out@ == base + cs@.take(i as int),
        decreases cs@.len() - i,
    {
        out.push(cs[i]);
        assert(out@ =~= base + cs@.take(i + 1));
        i = i + 1;
    }
    assert(cs@.take(i as int) =~= cs@);
    assert(final(out)@ =~= (if first { old(out)@ + w@ } else { old(out)@ + seq![' '] + w@ }));
}

/// The texts of the tokens whose kind `keep_kind` accepts (all when `mode` is
/// 0; those not structural when 1; those not of kind `tt` when 2), joined.
fn join_kept(ts: &Vec<Tokenized>, mode: u8, tt: Option<TokenType>) -> (r: Vec<char>)
    requires
        mode <= 2,
    ensures
        mode == 0 ==> r@ == join(tok_texts(ts@)),
        mode == 1 ==> r@ == join(keep_toks(ts@, |t: Option<TokenType>| !is_structural(t))),
        mode == 2 ==> r@ == join(keep_toks(ts@, not_kind(tt))),
{
    let ghost keep = if mode == 0 {
        |t: Option<TokenType>| true
    } else if mode == 1 {
        |t: Option<TokenType>| !is_structural(t)
    } else {
        not_kind(tt)
    };
    let mut out: Vec<char> = Vec::new();
    let mut count: usize = 0;
    let mut i: usize = 0;
    proof {
        lemma_keep_all(ts@.take(0));
    }
    while i < ts.len()
        invariant
            i <= ts@.len(),
            mode <= 2,
            keep == (if mode == 0 {
                |t: Option<TokenType>| true
            } else if mode == 1 {
                |t: Option<TokenType>| !is_structural(t)
            } else {
                not_kind(tt)
            }),
            out@ == join(keep_toks(ts@.take(i as int), keep)),
            count as int == keep_toks(ts@.take(i as int), keep).len(),
            count <= i,
        decreases ts@.len() - i,
    {
        let ghost pre = ts@.take(i as int);
        assert(ts@.take(i + 1).drop_last() =~= pre);
        let tt_i = ts[i].token_type;
        let kept = if mode == 0 {
            true
        } else if mode == 1 {
            !(tt_i == Some(TokenType::Way) || tt_i == Some(TokenType::Cardinal)
                || tt_i == Some(TokenType::Determiner) || tt_i == Some(TokenType::Number))
        } else {
            tt_i != tt
        };
        assert(kept == keep(tt_i));
        if kept {
            let ghost ks = keep_toks(pre, keep);
            push_joined(&mut out, count == 0, &ts[i].token);
            assert(keep_toks(ts@.take(i + 1), keep) == ks.push(ts@[i as int].token@));
            assert(ks.push(ts@[i as int].token@).drop_last() =~= ks);
            if count == 0 {
                assert(ks.len() == 0);
                assert(out@ =~= join(ks.push(ts@[i as int].token@)));
            }
            count = count + 1;
        }
        i = i + 1;
    }
    assert(ts@.take(i as int) =~= ts@);
    proof {
        lemma_keep_all(ts@);
    }
    out
}

proof fn lemma_keep_all(ts: Seq<Tokenized>)
    ensures
        keep_toks(ts, |t: Option<TokenType>| true) == tok_texts(ts),
    decreases ts.len(),
{
    if ts.len() > 0 {
        lemma_keep_all(ts.drop_last());
        assert(tok_texts(ts.drop_last()).push(ts.last().token@) =~= tok_texts(ts));
    } else {
        assert(tok_texts(ts) =~= Seq::<Seq<char>>::empty());
    }
}

impl Name {
    /// A name whose tokens are the canonical tokens of `display` under `context`.
    pub fn new(display: &str, priority: i8, source: Option<Source>, context: &Context) -> (r: Name)
        ensures
            r.display@ == display@,
            r.priority == priority,
            r.source == source,
            r.freq == 1,
            r.tokenized@.map_values(|t: Tokenized| (t.token@, t.token_type)) == context.tokens.process_spec(
                display@,
                context.country@,
            ),
    {
        let d = string_of(&chars_of(display));
        let tokenized = context.tokens.process(&d, &context.country);
        Name { display: d, priority, source, tokenized, freq: 1 }
    }

    /// The tokens joined by spaces, as characters.
    pub fn tokenized_chars(&self) -> (r: Vec<char>)
        ensures
            r@ == tokenized_str(*self),
    {
        join_kept(&self.tokenized, 0, None)
    }

    /// The tokenless form, as characters.
    pub fn tokenless_chars(&self) -> (r: Vec<char>)
        ensures
            r@ == tokenless_str(*self),
    {
        join_kept(&self.tokenized, 1, None)
    }

    /// The tokens joined by spaces.
    pub fn tokenized_string(&self) -> (r: String)
        ensures
            r@ == tokenized_str(*self),
    {
        string_of(&self.tokenized_chars())
    }

    /// The tokens that are neither way, cardinal, determiner nor number, joined by spaces.
    pub fn tokenless_string(&self) -> (r: String)
        ensures
            r@ == tokenless_str(*self),
    {
        string_of(&self.tokenless_chars())
    }

    /// The tokens not of kind `tt`, joined by spaces.
    pub fn remove_type_string(&self, tt: Option<TokenType>) -> (r: String)
        ensures
            r@ == without_type_str(*self, tt),
    {
        string_of(&join_kept(&self.tokenized, 2, tt))
    }

    /// Whether some token has kind `tt`.
    pub fn has_type(&self, tt: Option<TokenType>) -> (r: bool)
        ensures
            r == has_type_spec(*self, tt),
    {
        let mut i: usize = 0;
        while i < self.tokenized.len()
            invariant
                i <= self.tokenized@.len(),
                forall|k: int| 0 <= k < i ==> (#[trigger] self.tokenized@[k]).token_type != tt,
            decreases self.tokenized@.len() - i,
        {
            if self.tokenized[i].token_type == tt {
                return true;
            }
            i = i + 1;
        }
        false
    }
}

/// Lexicographic order on character sequences (the order of `String`).
pub open spec fn lex_lt(a: Seq<char>, b: Seq<char>) -> bool
    decreases a.len(),
{
    if a.len() == 0 {
        b.len() > 0
    } else if b.len() == 0 {
        false
    } else if a[0] != b[0] {
        a[0] < b[0]
    } else {
        lex_lt(a.drop_first(), b.drop_first())
    }
}

/// Whether `a` sorts strictly before `b`: higher priority first, then display ascending.
pub open spec fn precedes(a: Name, b: Name) -> bool {
    a.priority > b.priority || (a.priority == b.priority && lex_lt(a.display@, b.display@))
}

/// The names whose token sequence is not empty, in order.
pub open spec fn drop_empty(s: Seq<Name>) -> Seq<Name>
    decreases s.len(),
{
    if s.len() == 0 {
        s
    } else if s.last().tokenized@.len() == 0 {
        drop_empty(s.drop_last())
    } else {
        drop_empty(s.drop_last()).push(s.last())
    }
}

/// Where `x` goes in `s`: after every name it does not sort before, scanning from the end.
pub open spec fn ins_pos(s: Seq<Name>, x: Name) -> int
    decreases s.len(),
{
    if s.len() == 0 {
        0
    } else if precedes(x, s.last()) {
        ins_pos(s.drop_last(), x)
    } else {
        s.len() as int
    }
}

/// Stable insertion sort by `precedes`.
pub open spec fn sorted_names(s: Seq<Name>) -> Seq<Name>
    decreases s.len(),
{
    if s.len() == 0 {
        s
    } else {
        let t = sorted_names(s.drop_last());
        t.insert(ins_pos(t, s.last()), s.last())
    }
}

/// The names whose token texts differ from every earlier kept name's.
pub open spec fn deduped(s: Seq<Name>) -> Seq<Name>
    decreases s.len(),
{
    if s.len() == 0 {
        s
    } else {
        let d = deduped(s.drop_last());
        if contains_toks(d, s.last()) {
            d
        } else {
            d.push(s.last())
        }
    }
}

/// Whether some token sequence of `other` is absent from `s`.
pub open spec fn differs(s: Seq<Name>, other: Seq<Name>) -> bool {
    exists|j: int| 0 <= j < other.len() && !contains_toks(s, #[trigger] other[j])
}

/// Whether some name of `s` has the token texts of `x`.
pub open spec fn contains_toks(s: Seq<Name>, x: Name) -> bool {
    exists|k: int| 0 <= k < s.len() && toks(#[trigger] s[k]) == toks(x)
}

fn lex_lt_exec(a: &String, b: &String) -> (r: bool)
    ensures
        r == lex_lt(a@, b@),
{
    let x = chars_of(a.as_str());
    let y = chars_of(b.as_str());
    let mut i: usize = 0;
    assert(x@.skip(0) =~= x@);
    assert(y@.skip(0) =~= y@);
    while i < x.len() && i < y.len()
        invariant
            x@ == a@,
            y@ == b@,
            i <= x@.len(),
            i <= y@.len(),
            lex_lt(a@, b@) == lex_lt(x@.skip(i as int), y@.skip(i as int)),
        decreases x@.len() - i,
    {
        if x[i] != y[i] {
            return x[i] < y[i];
        }
        assert(x@.skip(i as int).drop_first() =~= x@.skip(i + 1));
        assert(y@.skip(i as int).drop_first() =~= y@.skip(i + 1));
        i = i + 1;
    }
    i == x.len() && i < y.len()
}

fn precedes_exec(a: &Name, b: &Name) -> (r: bool)
    ensures
        r == precedes(*a, *b),
{
    a.priority > b.priority || (a.priority == b.priority && lex_lt_exec(&a.display, &b.display))
}

fn same_toks(a: &Name, b: &Name) -> (r: bool)
    ensures
        r == (toks(*a) == toks(*b)),
{
    if a.tokenized.len() != b.tokenized.len() {
        assert(toks(*a).len() != toks(*b).len());
        return false;
    }
    let mut i: usize = 0;
    while i < a.tokenized.len()
        invariant
            a.tokenized@.len() == b.tokenized@.len(),
            i <= a.tokenized@.len(),
            forall|k: int| 0 <= k < i ==> (#[trigger] toks(*a)[k]) == toks(*b)[k],
        decreases a.tokenized@.len() - i,
    {
        if a.tokenized[i].token != b.tokenized[i].token {
            assert(toks(*a)[i as int] != toks(*b)[i as int]);
            return false;
        }
        i = i + 1;
    }
    assert(toks(*a) =~= toks(*b));
    true
}

fn has_toks(s: &Vec<Name>, x: &Name) -> (r: bool)
    ensures
        r == contains_toks(s@, *x),
{
    let mut i: usize = 0;
    while i < s.len()
        invariant
            i <= s@.len(),
            forall|k: int| 0 <= k < i ==> toks(#[trigger] s@[k]) != toks(*x),
        decreases s@.len() - i,
    {
        if same_toks(&s[i], x) {
            return true;
        }
        i = i + 1;
    }
    false
}

impl Names {
    /// A name set holding `names` in order.
    pub fn new(names: Vec<Name>, _context: &Context) -> (r: Names)
        ensures
            r.names@ == names@,
    {
        Names { names }
    }

    /// Appends the names of `other`.
    pub fn concat(&mut self, other: Names)
        ensures
            final(self).names@ == old(self).names@ + other.names@,
    {
        let mut o = other.names;
        self.names.append(&mut o);
    }

    /// Drops the names whose token sequence is empty.
    pub fn empty(&mut self)
        ensures
            final(self).names@ == drop_empty(old(self).names@),
    {
        let mut src: Vec<Name> = Vec::new();
        std::mem::swap(&mut self.names, &mut src);
        let ghost orig = src@;
        let n0 = src.len();
        let mut out: Vec<Name> = Vec::new();
        let mut i: usize = 0;
        while src.len() > 0
            invariant
                n0 == orig.len(),
                i + src@.len() == orig.len(),
                src@ == orig.skip(i as int),
                out@ == drop_empty(orig.take(i as int)),
            decreases src@.len(),
        {
            let n = src.remove(0);
            assert(orig.take(i + 1).drop_last() =~= orig.take(i as int));
            assert(orig.skip(i as int)[0] == orig[i as int]);
            assert(src@ =~= orig.skip(i + 1));
            if n.tokenized.len() > 0 {
                out.push(n);
            }
            i = i + 1;
        }
        assert(orig.take(i as int) =~= orig);
        self.names = out;
    }

    /// Sorts by priority, highest first, then by display ascending; names that
    /// tie keep their order.
    pub fn sort(&mut self)
        ensures
            final(self).names@ == sorted_names(old(self).names@),
    {
        let mut src: Vec<Name> = Vec::new();
        std::mem::swap(&mut self.names, &mut src);
        let ghost orig = src@;
        let n0 = src.len();
        let mut out: Vec<Name> = Vec::new();
        let mut i: usize = 0;
        while src.len() > 0
            invariant
                n0 == orig.len(),
                i + src@.len() == orig.len(),
                src@ == orig.skip(i as int),
                out@ == sorted_names(orig.take(i as int)),
            decreases src@.len(),
        {
            let x = src.remove(0);
            assert(orig.take(i + 1).drop_last() =~= orig.take(i as int));
            assert(orig.skip(i as int)[0] == orig[i as int]);
            assert(src@ =~= orig.skip(i + 1));
            let mut q: usize = out.len();
            assert(out@.take(q as int) =~= out@);
            while q > 0 && precedes_exec(&x, &out[q - 1])
                invariant
                    q <= out@.len(),
                    ins_pos(out@, x) == ins_pos(out@.take(q as int), x),
                decreases q,
            {
                assert(out@.take(q as int).drop_last() =~= out@.take(q - 1));
                q = q - 1;
            }
            out.insert(q, x);
            i = i + 1;
        }
        assert(orig.take(i as int) =~= orig);
        self.names = out;
    }

    /// Keeps only the first name of each token sequence.
    pub fn dedupe(&mut self)
        ensures
            final(self).names@ == deduped(old(self).names@),
    {
        let mut src: Vec<Name> = Vec::new();
        std::mem::swap(&mut self.names, &mut src);
        let ghost orig = src@;
        let n0 = src.len();
        let mut out: Vec<Name> = Vec::new();
        let mut i: usize = 0;
        while src.len() > 0
            invariant
                n0 == orig.len(),
                i + src@.len() == orig.len(),
                src@ == orig.skip(i as int),
                out@ == deduped(orig.take(i as int)),
            decreases src@.len(),
        {
            let n = src.remove(0);
            assert(orig.take(i + 1).drop_last() =~= orig.take(i as int));
            assert(orig.skip(i as int)[0] == orig[i as int]);
            assert(src@ =~= orig.skip(i + 1));
            if !has_toks(&out, &n) {
                out.push(n);
            }
            i = i + 1;
        }
        assert(orig.take(i as int) =~= orig);
        self.names = out;
    }

    /// Whether some token sequence of `other` is absent from this set.
    pub fn has_diff(&self, other: &Names) -> (r: bool)
        ensures
            r == differs(self.names@, other.names@),
    {
        let mut j: usize = 0;
        while j < other.names.len()
            invariant
                j <= other.names@.len(),
                forall|q: int| 0 <= q < j ==> contains_toks(self.names@, #[trigger] other.names@[q]),
            decreases other.names@.len() - j,
        {
            if !has_toks(&self.names, &other.names[j]) {
                return true;
            }
            j = j + 1;
        }
        false
    }
}

/// `empty`, then `sort`, then `dedupe`.
pub open spec fn normalized(s: Seq<Name>) -> Seq<Name> {
    deduped(sorted_names(drop_empty(s)))
}

/// Whether no name of `s` sorts before an earlier one.
pub open spec fn is_sorted(s: Seq<Name>) -> bool {
    forall|i: int, j: int| 0 <= i < j < s.len() ==> !precedes(#[trigger] s[j], #[trigger] s[i])
}

/// Whether `t` holds only names that `s` holds.
pub open spec fn within(t: Seq<Name>, s: Seq<Name>) -> bool {
    forall|i: int| 0 <= i < t.len() ==> s.contains(#[trigger] t[i])
}

proof fn lemma_lex_asym(a: Seq<char>, b: Seq<char>)
    ensures
        lex_lt(a, b) ==> !lex_lt(b, a),
    decreases a.len(),
{
    if a.len() > 0 && b.len() > 0 && a[0] == b[0] {
        lemma_lex_asym(a.drop_first(), b.drop_first());
    }
}

proof fn lemma_lex_neg_trans(a: Seq<char>, b: Seq<char>, c: Seq<char>)
    requires
        !lex_lt(a, b),
        !lex_lt(b, c),
    ensures
        !lex_lt(a, c),
    decreases a.len(),
{
    if a.len() > 0 && b.len() > 0 && c.len() > 0 && a[0] == b[0] && b[0] == c[0] {
        lemma_lex_neg_trans(a.drop_first(), b.drop_first(), c.drop_first());
    }
}

proof fn lemma_precedes_asym(a: Name, b: Name)
    ensures
        precedes(a, b) ==> !precedes(b, a),
{
    lemma_lex_asym(a.display@, b.display@);
}

proof fn lemma_precedes_neg_trans(a: Name, b: Name, c: Name)
    requires
        !precedes(a, b),
        !precedes(b, c),
    ensures
        !precedes(a, c),
{
    if a.priority == b.priority && b.priority == c.priority {
        lemma_lex_neg_trans(a.display@, b.display@, c.display@);
    }
}

proof fn lemma_drop_empty(s: Seq<Name>)
    ensures
        within(drop_empty(s), s),
        forall|i: int| 0 <= i < drop_empty(s).len() ==> (#[trigger] drop_empty(s)[i]).tokenized@.len() > 0,
        (forall|i: int| 0 <= i < s.len() ==> (#[trigger] s[i]).tokenized@.len() > 0) ==> drop_empty(s) == s,
    decreases s.len(),
{
    if s.len() > 0 {
        lemma_drop_empty(s.drop_last());
        let d = drop_empty(s.drop_last());
        assert forall|i: int| 0 <= i < d.len() implies s.contains(#[trigger] d[i]) by {
            let k = choose|k: int| 0 <= k < s.drop_last().len() && s.drop_last()[k] == d[i];
            assert(s[k] == d[i]);
        }
        if s.last().tokenized@.len() > 0 {
            assert(s[s.len() - 1] == s.last());
            assert forall|i: int| 0 <= i < d.push(s.last()).len() implies s.contains(#[trigger] d.push(s.last())[i]) by {
                if i < d.len() {
                    assert(d.push(s.last())[i] == d[i]);
                } else {
                    assert(s[s.len() - 1] == s.last());
                }
            }
        }
        if forall|i: int| 0 <= i < s.len() ==> (#[trigger] s[i]).tokenized@.len() > 0 {
            assert forall|i: int| 0 <= i < s.drop_last().len() implies (#[trigger] s.drop_last()[i]).tokenized@.len() > 0 by {
                assert(s.drop_last()[i] == s[i]);
            }
            assert(s[s.len() - 1].tokenized@.len() > 0);
            assert(s.drop_last().push(s.last()) =~= s);
        }
    }
}

proof fn lemma_ins_pos(t: Seq<Name>, x: Name)
    ensures
        0 <= ins_pos(t, x) <= t.len(),
        forall|j: int| ins_pos(t, x) <= j < t.len() ==> precedes(x, #[trigger] t[j]),
        ins_pos(t, x) > 0 ==> !precedes(x, t[ins_pos(t, x) - 1]),
    decreases t.len(),
{
    if t.len() > 0 && precedes(x, t.last()) {
        lemma_ins_pos(t.drop_last(), x);
        assert forall|j: int| ins_pos(t, x) <= j < t.len() implies precedes(x, #[trigger] t[j]) by {
            if j < t.len() - 1 {
                assert(t.drop_last()[j] == t[j]);
            }
        }
        if ins_pos(t, x) > 0 {
            assert(t.drop_last()[ins_pos(t, x) - 1] == t[ins_pos(t, x) - 1]);
        }
    }
}

proof fn lemma_sorted_names(s: Seq<Name>)
    ensures
        is_sorted(sorted_names(s)),
        within(sorted_names(s), s),
        is_sorted(s) ==> sorted_names(s) == s,
    decreases s.len(),
{
    if s.len() > 0 {
        let x = s.last();
        let t = sorted_names(s.drop_last());
        lemma_sorted_names(s.drop_last());
        lemma_ins_pos(t, x);
        let p = ins_pos(t, x);
        let r = t.insert(p, x);
        assert(r.len() == t.len() + 1);
        assert forall|i: int| 0 <= i < r.len() implies (i < p ==> r[i] == t[i]) && (i == p ==> r[i] == x) && (i > p
            ==> r[i] == t[i - 1]) by {}
        assert forall|i: int, j: int| 0 <= i < j < r.len() implies !precedes(#[trigger] r[j], #[trigger] r[i]) by {
            if j < p {
            } else if j == p {
                if i < p - 1 {
                    lemma_precedes_neg_trans(x, t[p - 1], t[i]);
                }
            } else if i == p {
                lemma_precedes_asym(x, t[j - 1]);
            } else if i < p {
            } else {
            }
        }
        assert forall|i: int| 0 <= i < r.len() implies s.contains(#[trigger] r[i]) by {
            if i == p {
                assert(s[s.len() - 1] == x);
            } else {
                let ti = if i < p { i } else { i - 1 };
                let k = choose|k: int| 0 <= k < s.drop_last().len() && s.drop_last()[k] == t[ti];
                assert(s[k] == t[ti]);
            }
        }
        if is_sorted(s) {
            assert forall|i: int, j: int| 0 <= i < j < s.drop_last().len() implies !precedes(
                #[trigger] s.drop_last()[j],
                #[trigger] s.drop_last()[i],
            ) by {
                assert(s.drop_last()[j] == s[j] && s.drop_last()[i] == s[i]);
            }
            assert(t == s.drop_last());
            if t.len() > 0 {
                assert(!precedes(x, t.last()));
            }
            assert(p == t.len());
            assert(r =~= s);
        }
    }
}

proof fn lemma_deduped(s: Seq<Name>)
    ensures
        within(deduped(s), s),
        forall|i: int, j: int| 0 <= i < j < deduped(s).len() ==> toks(#[trigger] deduped(s)[i]) != toks(#[trigger] deduped(s)[j]),
        is_sorted(s) ==> is_sorted(deduped(s)),
        (forall|i: int, j: int| 0 <= i < j < s.len() ==> toks(#[trigger] s[i]) != toks(#[trigger] s[j])) ==> deduped(s) == s,
    decreases s.len(),
{
    if s.len() > 0 {
        let x = s.last();
        let sd = s.drop_last();
        let d = deduped(sd);
        lemma_deduped(sd);
        assert forall|i: int| 0 <= i < d.len() implies s.contains(#[trigger] d[i]) by {
            let k = choose|k: int| 0 <= k < sd.len() && sd[k] == d[i];
            assert(s[k] == d[i]);
        }
        if !contains_toks(d, x) {
            let r = d.push(x);
            assert forall|i: int| 0 <= i < r.len() implies s.contains(#[trigger] r[i]) by {
                if i < d.len() {
                    assert(r[i] == d[i]);
                } else {
                    assert(s[s.len() - 1] == x);
                }
            }
            assert forall|i: int, j: int| 0 <= i < j < r.len() implies toks(#[trigger] r[i]) != toks(#[trigger] r[j]) by {
                if j == d.len() {
                    assert(r[i] == d[i]);
                    assert(r[j] == x);
                } else {
                    assert(r[i] == d[i] && r[j] == d[j]);
                }
            }
            if is_sorted(s) {
                assert forall|i: int, j: int| 0 <= i < j < sd.len() implies !precedes(#[trigger] sd[j], #[trigger] sd[i]) by {
                    assert(sd[j] == s[j] && sd[i] == s[i]);
                }
                assert forall|i: int, j: int| 0 <= i < j < r.len() implies !precedes(#[trigger] r[j], #[trigger] r[i]) by {
                    if j == d.len() {
                        assert(r[i] == d[i]);
                        let k = choose|k: int| 0 <= k < sd.len() && sd[k] == d[i];
                        assert(s[k] == d[i]);
                        assert(s[s.len() - 1] == x);
                    } else {
                        assert(r[i] == d[i] && r[j] == d[j]);
                    }
                }
            }
        } else {
            if is_sorted(s) {
                assert forall|i: int, j: int| 0 <= i < j < sd.len() implies !precedes(#[trigger] sd[j], #[trigger] sd[i]) by {
                    assert(sd[j] == s[j] && sd[i] == s[i]);
                }
            }
        }
        if forall|i: int, j: int| 0 <= i < j < s.len() ==> toks(#[trigger] s[i]) != toks(#[trigger] s[j]) {
            assert forall|i: int, j: int| 0 <= i < j < sd.len() implies toks(#[trigger] sd[i]) != toks(#[trigger] sd[j]) by {
                assert(sd[i] == s[i] && sd[j] == s[j]);
            }
            assert(d == sd);
            if contains_toks(d, x) {
                let k = choose|k: int| 0 <= k < d.len() && toks(#[trigger] d[k]) == toks(x);
                assert(s[k] == d[k]);
                assert(s[s.len() - 1] == x);
            }
            assert(sd.push(x) =~= s);
        }
    }
}

/// Normalising a name set twice changes nothing: dropping empty names,
/// sorting and removing duplicates leave a set that they map to itself.
pub proof fn lemma_normalized_idempotent(s: Seq<Name>)
    ensures
        normalized(normalized(s)) == normalized(s),
{
    let e = drop_empty(s);
    let t = sorted_names(e);
    let n = deduped(t);
    lemma_drop_empty(s);
    lemma_sorted_names(e);
    lemma_deduped(t);
    assert forall|i: int| 0 <= i < n.len() implies (#[trigger] n[i]).tokenized@.len() > 0 by {
        let k = choose|k: int| 0 <= k < t.len() && t[k] == n[i];
        let q = choose|q: int| 0 <= q < e.len() && e[q] == t[k];
    }
    lemma_drop_empty(n);
    assert(drop_empty(n) == n);
    lemma_sorted_names(n);
    assert(sorted_names(n) == n);
    lemma_deduped(n);
}

} // verus!
