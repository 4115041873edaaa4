//! Token types, the synonym tables, and turning a display name into its
//! canonical token sequence.

use vstd::prelude::*;
use crate::diacritics::{diacritics, fold};
use crate::patterns::{regex_is_match, regex_match_of, regex_replace_all, regex_replace_of, regex_valid};
use crate::strings::{chars_of, lower_of, lowercase, string_of};
use crate::tokenize::{fold_chars, tokenize_chars, tokenize_lower, views};

verus! {

/// The kind of a canonical token.
#[derive(Clone, Copy, Debug, PartialEq, Eq, Structural)]
pub enum TokenType {
    PostalBox,
    Cardinal,
    Number,
    Ordinal,
    Unit,
    Way,
    Determiner,
}

/// A synonym table entry's value: the canonical token and its kind.
#[derive(Debug, Clone, PartialEq)]
pub struct ParsedToken {
    pub canonical: String,
    pub token_type: Option<TokenType>,
}

impl ParsedToken {
    pub fn new(canonical: String, token_type: Option<TokenType>) -> (r: ParsedToken)
        ensures
            r.canonical == canonical,
            r.token_type == token_type,
    {
        ParsedToken { canonical, token_type }
    }
}

/// One token of a tokenized name.
#[derive(Debug, Clone, PartialEq)]
pub struct Tokenized {
    pub token: String,
    pub token_type: Option<TokenType>,
}

impl Tokenized {
    pub fn new(token: String, token_type: Option<TokenType>) -> (r: Tokenized)
        ensures
            r.token == token,
            r.token_type == token_type,
    {
        Tokenized { token, token_type }
    }
}

/// A token as a value: its text and its kind.
pub type TokView = (Seq<char>, Option<TokenType>);

pub open spec fn tok_view(t: Tokenized) -> TokView {
    (t.token@, t.token_type)
}

pub open spec fn tok_views(v: Seq<Tokenized>) -> Seq<TokView> {
    v.map_values(|t: Tokenized| tok_view(t))
}

/// The synonym tables: single surface tokens, regular-expression patterns, and
/// multi-word phrases, each mapped to a canonical token.
#[derive(Debug, Clone, PartialEq)]
pub struct Tokens {
    pub tokens: Vec<(String, ParsedToken)>,
    pub regex_tokens: Vec<(String, ParsedToken)>,
    pub multi_tokens: Vec<(String, ParsedToken)>,
}

/// Index of the first entry of `tbl` at or after `i` whose key is `key`, or `tbl.len()`.
pub open spec fn find_key(tbl: Seq<(String, ParsedToken)>, key: Seq<char>, i: int) -> int
    decreases tbl.len() - i,
{
    if i < 0 || i >= tbl.len() {
        tbl.len() as int
    } else if tbl[i].0@ == key {
        i
    } else {
        find_key(tbl, key, i + 1)
    }
}

/// Whether `needle` occurs in `hay` as a contiguous run.
pub open spec fn contains_seq(hay: Seq<char>, needle: Seq<char>) -> bool {
    exists|i: int| 0 <= i && i + needle.len() <= hay.len() && #[trigger] hay.subrange(i, i + needle.len()) == needle
}

/// The value of a table entry, as a token.
pub open spec fn entry_tok(e: (String, ParsedToken)) -> TokView {
    (e.1.canonical@, e.1.token_type)
}

/// Applies the regular-expression entries from `i` on to the surface token `w`:
/// every entry whose pattern matches replaces the result, so the last one wins.
pub open spec fn regex_from(tbl: Seq<(String, ParsedToken)>, w: Seq<char>, i: int, acc: TokView) -> TokView
    decreases tbl.len() - i,
{
    if i < 0 || i >= tbl.len() {
        acc
    } else {
        let p = tbl[i].0@;
        let next = if regex_valid(p) && regex_match_of(p, w) {
            (regex_replace_of(p, w, tbl[i].1.canonical@), tbl[i].1.token_type)
        } else {
            acc
        };
        regex_from(tbl, w, i + 1, next)
    }
}

/// The canonical tokens of every entry from `i` on whose key contains `w` and
/// occurs in the folded full text `full`.
pub open spec fn phrase_from(tbl: Seq<(String, ParsedToken)>, w: Seq<char>, full: Seq<char>, i: int) -> Seq<TokView>
    decreases tbl.len() - i,
{
    if i < 0 || i >= tbl.len() {
        Seq::empty()
    } else if contains_seq(tbl[i].0@, w) && contains_seq(full, tbl[i].0@) {
        seq![entry_tok(tbl[i])] + phrase_from(tbl, w, full, i + 1)
    } else {
        phrase_from(tbl, w, full, i + 1)
    }
}

impl Tokens {
    /// What one surface token `w` becomes: its synonym if it has one; otherwise,
    /// under regex replacement, the result of the pattern entries, and without it,
    /// the canonical forms of the phrases that contain it and occur in `full`,
    /// or `w` itself.
    pub open spec fn token_out(&self, w: Seq<char>, full: Seq<char>, regex: bool) -> Seq<TokView> {
        let k = find_key(self.tokens@, w, 0);
        if k < self.tokens@.len() {
            seq![entry_tok(self.tokens@[k])]
        } else if regex {
            seq![regex_from(self.regex_tokens@, w, 0, (w, None))]
        } else {
            let m = phrase_from(self.multi_tokens@, w, full, 0);
            if m.len() > 0 {
                m
            } else {
                seq![(w, None::<TokenType>)]
            }
        }
    }

    pub open spec fn map_tokens(&self, surface: Seq<Seq<char>>, full: Seq<char>, regex: bool) -> Seq<TokView>
        decreases surface.len(),
    {
        if surface.len() == 0 {
            Seq::empty()
        } else {
            self.map_tokens(surface.drop_last(), full, regex) + self.token_out(surface.last(), full, regex)
        }
    }

    /// The canonical tokens of `text` for a country.
    pub open spec fn process_spec(&self, text: Seq<char>, country: Seq<char>) -> Seq<TokView> {
        let lower = lower_of(text);
        let surface = tokenize_lower(lower);
        let d = dedup_adjacent(self.map_tokens(surface, fold(lower), country == seq!['D', 'E']));
        if country == seq!['U', 'S'] {
            st_rule(surface, d)
        } else {
            d
        }
    }
}

/// Drops every token whose text equals the one kept just before it.
pub open spec fn dedup_adjacent(s: Seq<TokView>) -> Seq<TokView>
    decreases s.len(),
{
    if s.len() == 0 {
        s
    } else {
        let d = dedup_adjacent(s.drop_last());
        if d.len() > 0 && d.last().0 == s.last().0 {
            d
        } else {
            d.push(s.last())
        }
    }
}

pub open spec fn st() -> Seq<char> {
    seq!['s', 't']
}

/// Whether some token other than `st` is a way.
pub open spec fn has_other_way(t: Seq<TokView>) -> bool {
    exists|j: int| 0 <= j < t.len() && t[j].0 != st() && t[j].1 == Some(TokenType::Way)
}

/// Index of the last `st` token, or -1.
pub open spec fn last_st(t: Seq<TokView>) -> int
    decreases t.len(),
{
    if t.len() == 0 {
        -1
    } else if t.last().0 == st() {
        t.len() - 1
    } else {
        last_st(t.drop_last())
    }
}

proof fn lemma_last_st_bound(t: Seq<TokView>)
    ensures
        -1 <= last_st(t) < t.len(),
        last_st(t) >= 0 ==> t[last_st(t)].0 == st(),
    decreases t.len(),
{
    if t.len() > 0 && t.last().0 != st() {
        lemma_last_st_bound(t.drop_last());
    }
}

/// The `st` rule: when the surface held `st`, every `st` token means saint
/// (no kind) except the last one, which means street (a way) unless another
/// way token is present.
pub open spec fn st_rule(surface: Seq<Seq<char>>, t: Seq<TokView>) -> Seq<TokView> {
    if surface.contains(st()) && last_st(t) >= 0 {
        Seq::new(
            t.len(),
            |i: int|
                if t[i].0 == st() {
                    if !has_other_way(t) && i == last_st(t) {
                        (st(), Some(TokenType::Way))
                    } else {
                        (st(), None)
                    }
                } else {
                    t[i]
                },
        )
    } else {
        t
    }
}

/// Tokenizing ignores case: texts with the same lowercase form get the same tokens.
pub proof fn lemma_process_case_insensitive(t: Tokens, a: Seq<char>, b: Seq<char>, country: Seq<char>)
    requires
        lower_of(a) == lower_of(b),
    ensures
        t.process_spec(a, country) == t.process_spec(b, country),
{
}

fn push_tok(out: &mut Vec<Tokenized>, token: String, token_type: Option<TokenType>)
    ensures
        tok_views(final(out)@) == tok_views(old(out)@).push((token@, token_type)),
{
    let ghost before = tok_views(out@);
    out.push(Tokenized { token, token_type });
    assert(tok_views(out@) =~= before.push((token@, token_type)));
}

/// Whether `needle` occurs in `hay`.
pub fn has_substring(hay: &Vec<char>, needle: &Vec<char>) -> (r: bool)
    ensures
        r == contains_seq(hay@, needle@),
{
    if needle.len() > hay.len() {
        return false;
    }
    let n = needle.len();
    let hl = hay.len();
    let mut i: usize = 0;
    while i <= hay.len() - n
        invariant
            n == needle@.len(),
            n <= hay@.len(),
            hl == hay@.len(),
            i <= hay@.len() - n + 1,
            forall|k: int| 0 <= k < i ==> #[trigger] hay@.subrange(k, k + n) != needle@,
        decreases hay@.len() - n + 1 - i,
    {
        let mut j: usize = 0;
        let mut ok = true;
        while j < n
            invariant
                n == needle@.len(),
                i + n <= hay@.len(),
                hl == hay@.len(),
                j <= n,
                ok == (forall|q: int| 0 <= q < j ==> hay@[i + q] == needle@[q]),
            decreases n - j,
        {
            assert(i + j < hay@.len());
            if hay[i + j] != needle[j] {
                ok = false;
            }
            j = j + 1;
        }
        if ok {
            assert(hay@.subrange(i as int, i + n) =~= needle@);
            return true;
        }
        assert(!(forall|q: int| 0 <= q < n ==> hay@[i + q] == needle@[q]));
        assert(hay@.subrange(i as int, i + n) != needle@) by {
            if hay@.subrange(i as int, i + n) == needle@ {
                assert forall|q: int| 0 <= q < n implies hay@[i + q] == needle@[q] by {
                    assert(hay@.subrange(i as int, i + n)[q] == hay@[i + q]);
                }
            }
        }
        i = i + 1;
    }
    false
}

pub(crate) fn str_eq_lit2(s: &String, a: char, b: char) -> (r: bool)
    ensures
        r == (s@ == seq![a, b]),
{
    let cs = chars_of(s.as_str());
    if cs.len() == 2 && cs[0] == a && cs[1] == b {
        assert(cs@ =~= seq![a, b]);
        true
    } else {
        false
    }
}

impl Tokens {
    /// Tables from explicit entries.
    pub fn new(
        tokens: Vec<(String, ParsedToken)>,
        regex_tokens: Vec<(String, ParsedToken)>,
        multi_tokens: Vec<(String, ParsedToken)>,
    ) -> (r: Tokens)
        ensures
            r.tokens == tokens,
            r.regex_tokens == regex_tokens,
            r.multi_tokens == multi_tokens,
    {
        Tokens { tokens, regex_tokens, multi_tokens }
    }

    fn find_single(&self, w: &String) -> (r: usize)
        ensures
            r as int == find_key(self.tokens@, w@, 0),
    {
        let mut i: usize = 0;
        while i < self.tokens.len()
            invariant
                i <= self.tokens@.len(),
                find_key(self.tokens@, w@, 0) == find_key(self.tokens@, w@, i as int),
            decreases self.tokens@.len() - i,
        {
            if self.tokens[i].0 == *w {
                return i;
            }
            i = i + 1;
        }
        i
    }

    fn apply_regex(&self, w: &String) -> (r: Tokenized)
        ensures
            tok_view(r) == regex_from(self.regex_tokens@, w@, 0, (w@, None)),
    {
        let mut acc = Tokenized { token: w.clone(), token_type: None };
        let mut i: usize = 0;
        while i < self.regex_tokens.len()
            invariant
                i <= self.regex_tokens@.len(),
                regex_from(self.regex_tokens@, w@, 0, (w@, None)) == regex_from(
                    self.regex_tokens@,
                    w@,
                    i as int,
                    tok_view(acc),
                ),
            decreases self.regex_tokens@.len() - i,
        {
            let entry = &self.regex_tokens[i];
            let m = regex_is_match(entry.0.as_str(), w.as_str());
            if let Some(true) = m {
                let rep = regex_replace_all(entry.0.as_str(), w.as_str(), entry.1.canonical.as_str());
                if let Some(t) = rep {
                    acc = Tokenized { token: t, token_type: entry.1.token_type };
                }
            }
            i = i + 1;
        }
        acc
    }

    fn push_phrases(
        tbl: &Vec<(String, ParsedToken)>,
        out: &mut Vec<Tokenized>,
        w: &Vec<char>,
        full: &Vec<char>,
    )
        ensures
            tok_views(final(out)@) == tok_views(old(out)@) + phrase_from(tbl@, w@, full@, 0),
    {
        let ghost start = tok_views(out@);
        let mut i: usize = 0;
        while i < tbl.len()
            invariant
                i <= tbl@.len(),
                start + phrase_from(tbl@, w@, full@, 0) == tok_views(out@) + phrase_from(
                    tbl@,
                    w@,
                    full@,
                    i as int,
                ),
            decreases tbl@.len() - i,
        {
            let key = chars_of(tbl[i].0.as_str());
            if has_substring(&key, w) && has_substring(full, &key) {
                let ghost before = tok_views(out@);
                push_tok(out, tbl[i].1.canonical.clone(), tbl[i].1.token_type);
                assert(before + (seq![entry_tok(tbl@[i as int])] + phrase_from(tbl@, w@, full@, i + 1))
                    =~= tok_views(out@) + phrase_from(tbl@, w@, full@, i + 1));
            }
            i = i + 1;
        }
        assert(tok_views(out@) + phrase_from(tbl@, w@, full@, i as int) =~= tok_views(out@));
    }

    fn push_token_out(&self, out: &mut Vec<Tokenized>, w: &String, full: &Vec<char>, regex: bool)
        ensures
            tok_views(final(out)@) == tok_views(old(out)@) + self.token_out(w@, full@, regex),
    {
        let ghost before = tok_views(out@);
        let start_len = out.len();
        let k = self.find_single(w);
        if k < self.tokens.len() {
            push_tok(out, self.tokens[k].1.canonical.clone(), self.tokens[k].1.token_type);
            assert(tok_views(out@) =~= before + self.token_out(w@, full@, regex));
        } else if regex {
            let t = self.apply_regex(w);
            let ghost tv = tok_view(t);
            push_tok(out, t.token, t.token_type);
            assert(tok_views(out@) =~= before + self.token_out(w@, full@, regex));
        } else {
            let wc = chars_of(w.as_str());
            Self::push_phrases(&self.multi_tokens, out, &wc, full);
            let ghost m = phrase_from(self.multi_tokens@, w@, full@, 0);
            assert(tok_views(out@) =~= before + m);
            if out.len() == start_len {
                assert(m.len() == 0);
                push_tok(out, w.clone(), None);
                assert(tok_views(out@) =~= before + self.token_out(w@, full@, regex));
            } else {
                assert(m.len() > 0) by {
                    assert(tok_views(out@).len() == before.len() + m.len());
                }
            }
        }
    }

    /// Tokenizes `text` and canonicalises each token through the tables. Under
    /// country `DE` unmatched tokens go through the regular-expression entries;
    /// elsewhere through the phrase entries. Adjacent duplicate tokens are
    /// dropped, and under country `US` the `st` rule settles street versus saint.
    pub fn process(&self, text: &String, country: &String) -> (r: Vec<Tokenized>)
        ensures
            tok_views(r@) == self.process_spec(text@, country@),
    {
        let lower = lowercase(text.as_str());
        let lower_cs = chars_of(lower.as_str());
        let surface = tokenize_chars(&lower_cs);
        let full = fold_chars(&lower_cs);
        let regex = str_eq_lit2(country, 'D', 'E');
        let mut mapped: Vec<Tokenized> = Vec::new();
        let mut i: usize = 0;
        while i < surface.len()
            invariant
                i <= surface@.len(),
                tok_views(mapped@) == self.map_tokens(views(surface@).take(i as int), full@, regex),
            decreases surface@.len() - i,
        {
            assert(views(surface@).take(i + 1).drop_last() =~= views(surface@).take(i as int));
            self.push_token_out(&mut mapped, &surface[i], &full, regex);
            i = i + 1;
        }
        assert(views(surface@).take(i as int) =~= views(surface@));
        let deduped = dedup_tokens(mapped);
        if str_eq_lit2(country, 'U', 'S') {
            type_us_st(&surface, deduped)
        } else {
            deduped
        }
    }
}

/// One group of the abbreviation data: its surface tokens, their canonical
/// form, the name of its kind, and whether the tokens are patterns.
pub struct AbbrevGroup {
    pub tokens: Vec<String>,
    pub canonical: String,
    pub kind: Option<String>,
    pub regex: bool,
}

pub type GroupView = (Seq<Seq<char>>, Seq<char>, Option<Seq<char>>, bool);

pub open spec fn group_view(g: AbbrevGroup) -> GroupView {
    (
        views(g.tokens@),
        g.canonical@,
        match g.kind {
            Some(k) => Some(k@),
            None => None,
        },
        g.regex,
    )
}

pub open spec fn group_views(gs: Seq<AbbrevGroup>) -> Seq<GroupView> {
    gs.map_values(|g: AbbrevGroup| group_view(g))
}

/// The abbreviation groups that the bundled data holds for a language code,
/// or none where the code is not supported.
pub uninterp spec fn abbreviations_of(language: Seq<char>) -> Option<Seq<GroupView>>;

/// Relies on `geocoder_abbreviations::config` for one language: its token
/// groups, in the data's order, each kind given by its variant name.
#[verifier::external_body]
fn abbreviation_groups(language: &String) -> (r: Option<Vec<AbbrevGroup>>)
    ensures
        match r {
            Some(v) => abbreviations_of(language@) == Some(group_views(v@)),
            None => abbreviations_of(language@).is_none(),
        },
{
    let mut m = geocoder_abbreviations::config(vec![language.clone()]).ok()?;
    let groups = m.remove(language)?;
    Some(groups.into_iter().map(|g| AbbrevGroup {
        tokens: g.tokens,
        canonical: g.canonical,
        kind: g.token_type.map(|t| format!("{:?}", t)),
        regex: g.regex,
    }).collect())
}

/// The groups of several languages, one language after the other.
pub open spec fn language_groups(langs: Seq<Seq<char>>) -> Seq<GroupView>
    decreases langs.len(),
{
    if langs.len() == 0 {
        Seq::empty()
    } else {
        language_groups(langs.drop_last()) + match abbreviations_of(langs.last()) {
            Some(gs) => gs,
            None => Seq::empty(),
        }
    }
}

/// The token kind of a kind name.
pub open spec fn kind_of(name: Option<Seq<char>>) -> Option<TokenType> {
    match name {
        Some(n) => if n == seq!['P', 'o', 's', 't', 'a', 'l', 'B', 'o', 'x'] {
            Some(TokenType::PostalBox)
        } else if n == seq!['C', 'a', 'r', 'd', 'i', 'n', 'a', 'l'] {
            Some(TokenType::Cardinal)
        } else if n == seq!['N', 'u', 'm', 'b', 'e', 'r'] {
            Some(TokenType::Number)
        } else if n == seq!['O', 'r', 'd', 'i', 'n', 'a', 'l'] {
            Some(TokenType::Ordinal)
        } else if n == seq!['U', 'n', 'i', 't'] {
            Some(TokenType::Unit)
        } else if n == seq!['W', 'a', 'y'] {
            Some(TokenType::Way)
        } else if n == seq!['D', 'e', 't', 'e', 'r', 'm', 'i', 'n', 'e', 'r'] {
            Some(TokenType::Determiner)
        } else {
            None
        },
        None => None,
    }
}

fn kind_from_name(name: &Option<String>) -> (r: Option<TokenType>)
    ensures
        r == kind_of(match name {
            Some(k) => Some(k@),
            None => None,
        }),
{
    match name {
        None => None,
        Some(n) => {
            let cs = chars_of(n.as_str());
            if crate::strings::chars_eq(&cs, &vec!['P', 'o', 's', 't', 'a', 'l', 'B', 'o', 'x']) {
                Some(TokenType::PostalBox)
            } else if crate::strings::chars_eq(&cs, &vec!['C', 'a', 'r', 'd', 'i', 'n', 'a', 'l']) {
                Some(TokenType::Cardinal)
            } else if crate::strings::chars_eq(&cs, &vec!['N', 'u', 'm', 'b', 'e', 'r']) {
                Some(TokenType::Number)
            } else if crate::strings::chars_eq(&cs, &vec!['O', 'r', 'd', 'i', 'n', 'a', 'l']) {
                Some(TokenType::Ordinal)
            } else if crate::strings::chars_eq(&cs, &vec!['U', 'n', 'i', 't']) {
                Some(TokenType::Unit)
            } else if crate::strings::chars_eq(&cs, &vec!['W', 'a', 'y']) {
                Some(TokenType::Way)
            } else if crate::strings::chars_eq(&cs, &vec!['D', 'e', 't', 'e', 'r', 'm', 'i', 'n', 'e', 'r']) {
                Some(TokenType::Determiner)
            } else {
                None
            }
        },
    }
}

/// A table entry as a value.
pub type EntryView = (Seq<char>, TokView);

pub open spec fn table_view(tbl: Seq<(String, ParsedToken)>) -> Seq<EntryView> {
    tbl.map_values(|e: (String, ParsedToken)| (e.0@, entry_tok(e)))
}

/// Index of the first entry of `tbl` with key `key`, or `tbl.len()`.
pub open spec fn find_view(tbl: Seq<EntryView>, key: Seq<char>, i: int) -> int
    decreases tbl.len() - i,
{
    if i < 0 || i >= tbl.len() {
        tbl.len() as int
    } else if tbl[i].0 == key {
        i
    } else {
        find_view(tbl, key, i + 1)
    }
}

/// Map insertion on a table: an entry with the same key is replaced in place,
/// otherwise the entry is appended.
pub open spec fn insert_entry(tbl: Seq<EntryView>, e: EntryView) -> Seq<EntryView> {
    let k = find_view(tbl, e.0, 0);
    if k < tbl.len() {
        tbl.update(k, e)
    } else {
        tbl.push(e)
    }
}

/// Which table an entry goes to.
pub enum Table {
    Single,
    Pattern,
    Phrase,
}

/// The entries of one group: for plain groups keys and canonical forms are
/// lowercased and folded, and go to the phrase table when the key holds a
/// space, to the single-token table otherwise; pattern groups are only
/// lowercased.
pub open spec fn group_entries(g: GroupView) -> Seq<(EntryView, Table)> {
    g.0.map_values(
        |tk: Seq<char>|
            if g.3 {
                ((lower_of(tk), (lower_of(g.1), kind_of(g.2))), Table::Pattern)
            } else if fold(lower_of(tk)).contains(' ') {
                ((fold(lower_of(tk)), (fold(lower_of(g.1)), kind_of(g.2))), Table::Phrase)
            } else {
                ((fold(lower_of(tk)), (fold(lower_of(g.1)), kind_of(g.2))), Table::Single)
            },
    )
}

pub open spec fn all_entries(gs: Seq<GroupView>) -> Seq<(EntryView, Table)>
    decreases gs.len(),
{
    if gs.len() == 0 {
        Seq::empty()
    } else {
        all_entries(gs.drop_last()) + group_entries(gs.last())
    }
}

/// The table `t` built by inserting, in order, the entries that go to it.
pub open spec fn build_table(es: Seq<(EntryView, Table)>, t: Table) -> Seq<EntryView>
    decreases es.len(),
{
    if es.len() == 0 {
        Seq::empty()
    } else if es.last().1 == t {
        insert_entry(build_table(es.drop_last(), t), es.last().0)
    } else {
        build_table(es.drop_last(), t)
    }
}

fn has_space(s: &String) -> (r: bool)
    ensures
        r == s@.contains(' '),
{
    let cs = chars_of(s.as_str());
    let mut i: usize = 0;
    while i < cs.len()
        invariant
            cs@ == s@,
            i <= cs@.len(),
            forall|k: int| 0 <= k < i ==> cs@[k] != ' ',
        decreases cs@.len() - i,
    {
        if cs[i] == ' ' {
            return true;
        }
        i = i + 1;
    }
    false
}

fn insert_into(tbl: &mut Vec<(String, ParsedToken)>, key: String, value: ParsedToken)
    ensures
        table_view(final(tbl)@) == insert_entry(table_view(old(tbl)@), (key@, (value.canonical@, value.token_type))),
{
    let ghost tv = table_view(tbl@);
    let ghost e = (key@, (value.canonical@, value.token_type));
    let mut i: usize = 0;
    let mut found = false;
    while i < tbl.len() && !found
        invariant
            i <= tbl@.len(),
            tv == table_view(tbl@),
            find_view(tv, key@, 0) == find_view(tv, key@, i as int),
            found ==> i < tbl@.len() && tv[i as int].0 == key@,
        decreases tbl@.len() - i + (if found { 0int } else { 1int }),
    {
        if tbl[i].0 == key {
            found = true;
        } else {
            i = i + 1;
        }
    }
    if found {
        assert(tv[i as int].0 == key@);
        assert(find_view(tv, key@, i as int) == i);
        tbl[i] = (key, value);
        assert(table_view(tbl@) =~= tv.update(i as int, e));
    } else {
        tbl.push((key, value));
        assert(table_view(tbl@) =~= tv.push(e));
    }
}

impl Tokens {
    /// Tables from abbreviation groups, inserted in order: plain tokens into
    /// the single-token table or, when they hold a space, the phrase table;
    /// pattern groups into the pattern table.
    pub fn from_groups(groups: &Vec<AbbrevGroup>) -> (r: Tokens)
        ensures
            table_view(r.tokens@) == build_table(all_entries(group_views(groups@)), Table::Single),
            table_view(r.regex_tokens@) == build_table(all_entries(group_views(groups@)), Table::Pattern),
            table_view(r.multi_tokens@) == build_table(all_entries(group_views(groups@)), Table::Phrase),
    {
        let ghost gv = group_views(groups@);
        let mut single: Vec<(String, ParsedToken)> = Vec::new();
        let mut regex: Vec<(String, ParsedToken)> = Vec::new();
        let mut multi: Vec<(String, ParsedToken)> = Vec::new();
        let mut g: usize = 0;
        while g < groups.len()
            invariant
                g <= groups@.len(),
                gv == group_views(groups@),
                table_view(single@) == build_table(all_entries(gv.take(g as int)), Table::Single),
                table_view(regex@) == build_table(all_entries(gv.take(g as int)), Table::Pattern),
                table_view(multi@) == build_table(all_entries(gv.take(g as int)), Table::Phrase),
            decreases groups@.len() - g,
        {
            let group = &groups[g];
            let ghost prefix = all_entries(gv.take(g as int));
            let ghost ge = group_entries(gv[g as int]);
            let kind = kind_from_name(&group.kind);
            let lower_canon = lowercase(group.canonical.as_str());
            let mut t: usize = 0;
            while t < group.tokens.len()
                invariant
                    t <= group.tokens@.len(),
                    gv == group_views(groups@),
                    g < groups@.len(),
                    *group == groups@[g as int],
                    ge == group_entries(gv[g as int]),
                    ge.len() == group.tokens@.len(),
                    lower_canon@ == lower_of(group.canonical@),
                    kind == kind_of(gv[g as int].2),
                    table_view(single@) == build_table(prefix + ge.take(t as int), Table::Single),
                    table_view(regex@) == build_table(prefix + ge.take(t as int), Table::Pattern),
                    table_view(multi@) == build_table(prefix + ge.take(t as int), Table::Phrase),
                decreases group.tokens@.len() - t,
            {
                let lower_tk = lowercase(group.tokens[t].as_str());
                assert((prefix + ge.take(t + 1)).drop_last() =~= prefix + ge.take(t as int));
                assert((prefix + ge.take(t + 1)).last() == ge[t as int]);
                if group.regex {
                    insert_into(&mut regex, lower_tk, ParsedToken { canonical: lower_canon.clone(), token_type: kind });
                } else {
                    let key = diacritics(&lower_tk);
                    let canon = diacritics(&lower_canon);
                    if has_space(&key) {
                        insert_into(&mut multi, key, ParsedToken { canonical: canon, token_type: kind });
                    } else {
                        insert_into(&mut single, key, ParsedToken { canonical: canon, token_type: kind });
                    }
                }
                t = t + 1;
            }
            assert(ge.take(t as int) =~= ge);
            assert(gv.take(g + 1).drop_last() =~= gv.take(g as int));
            assert(gv.take(g + 1).last() == gv[g as int]);
            g = g + 1;
        }
        assert(gv.take(g as int) =~= gv);
        Tokens { tokens: single, regex_tokens: regex, multi_tokens: multi }
    }

    /// The tables of the bundled abbreviation data for the given languages, in
    /// order; none where a language is not supported or its data does not
    /// load (the abbreviation data checks its own patterns as it loads).
    /// Pattern entries that use features the replacement engine lacks, such as
    /// look-around, are kept and never match.
    pub fn generate(languages: Vec<String>) -> (r: Option<Tokens>)
        ensures
            r.is_some() <==> (forall|i: int| 0 <= i < languages@.len() ==> (#[trigger] abbreviations_of(languages@[i]@)).is_some()),
            r matches Some(t) ==> {
                &&& table_view(t.tokens@) == build_table(all_entries(language_groups(views(languages@))), Table::Single)
                &&& table_view(t.regex_tokens@) == build_table(all_entries(language_groups(views(languages@))), Table::Pattern)
                &&& table_view(t.multi_tokens@) == build_table(all_entries(language_groups(views(languages@))), Table::Phrase)
            },
    {
        let mut all: Vec<AbbrevGroup> = Vec::new();
        let mut i: usize = 0;
        while i < languages.len()
            invariant
                i <= languages@.len(),
                forall|k: int| 0 <= k < i ==> (#[trigger] abbreviations_of(languages@[k]@)).is_some(),
                group_views(all@) == language_groups(views(languages@).take(i as int)),
            decreases languages@.len() - i,
        {
            assert(views(languages@).take(i + 1).drop_last() =~= views(languages@).take(i as int));
            assert(views(languages@).take(i + 1).last() == languages@[i as int]@);
            match abbreviation_groups(&languages[i]) {
                None => {
                    return None;
                },
                Some(mut groups) => {
                    let ghost before = group_views(all@);
                    let ghost added = group_views(groups@);
                    all.append(&mut groups);
                    assert(group_views(all@) =~= before + added);
                },
            }
            i = i + 1;
        }
        assert(views(languages@).take(i as int) =~= views(languages@));
        Some(Tokens::from_groups(&all))
    }
}

fn dedup_tokens(v: Vec<Tokenized>) -> (r: Vec<Tokenized>)
    ensures
        tok_views(r@) == dedup_adjacent(tok_views(v@)),
{
    let mut out: Vec<Tokenized> = Vec::new();
    let mut i: usize = 0;
    while i < v.len()
        invariant
            i <= v@.len(),
            tok_views(out@) == dedup_adjacent(tok_views(v@).take(i as int)),
        decreases v@.len() - i,
    {
        assert(tok_views(v@).take(i + 1).drop_last() =~= tok_views(v@).take(i as int));
        assert(tok_views(v@).take(i + 1).last() == tok_view(v@[i as int]));
        let n = out.len();
        if n > 0 && out[n - 1].token == v[i].token {
        } else {
            push_tok(&mut out, v[i].token.clone(), v[i].token_type);
        }
        i = i + 1;
    }
    assert(tok_views(v@).take(i as int) =~= tok_views(v@));
    out
}

/// Settles whether each `st` token means street or saint: when `tokens` (the
/// surface tokens) hold `st`, every `st` of `tokenized` loses its kind except
/// the last, which becomes a way unless some other token is already a way.
pub fn type_us_st(tokens: &Vec<String>, tokenized: Vec<Tokenized>) -> (r: Vec<Tokenized>)
    ensures
        tok_views(r@) == st_rule(views(tokens@), tok_views(tokenized@)),
{
    let ghost t = tok_views(tokenized@);
    let mut has_st = false;
    let mut i: usize = 0;
    while i < tokens.len()
        invariant
            i <= tokens@.len(),
            has_st == views(tokens@).take(i as int).contains(st()),
        decreases tokens@.len() - i,
    {
        assert(views(tokens@).take(i + 1) =~= views(tokens@).take(i as int).push(tokens@[i as int]@));
        if str_eq_lit2(&tokens[i], 's', 't') {
            has_st = true;
            assert(views(tokens@).take(i + 1)[i as int] == st());
        } else {
            proof {
                if views(tokens@).take(i + 1).contains(st()) {
                    let k = choose|k: int| 0 <= k < i + 1 && #[trigger] views(tokens@).take(i + 1)[k] == st();
                    assert(views(tokens@).take(i as int)[k] == st());
                }
            }
        }
        i = i + 1;
    }
    assert(views(tokens@).take(i as int) =~= views(tokens@));
    // the last `st`, and whether another way token is present
    let mut last: usize = tokenized.len();
    let mut way = false;
    let mut j: usize = 0;
    while j < tokenized.len()
        invariant
            j <= tokenized@.len(),
            t == tok_views(tokenized@),
            last == (if last_st(t.take(j as int)) >= 0 { last_st(t.take(j as int)) } else { tokenized@.len() as int }),
            way == has_other_way(t.take(j as int)),
        decreases tokenized@.len() - j,
    {
        let ghost pre = t.take(j as int);
        let ghost ext = t.take(j + 1);
        assert(ext.drop_last() =~= pre);
        assert(ext.last() == tok_view(tokenized@[j as int]));
        let is_st = str_eq_lit2(&tokenized[j].token, 's', 't');
        if is_st {
            last = j;
        } else if tokenized[j].token_type == Some(TokenType::Way) {
            way = true;
            assert(ext[j as int].0 != st() && ext[j as int].1 == Some(TokenType::Way));
        }
        proof {
            if has_other_way(ext) && !has_other_way(pre) {
                let q = choose|q: int| 0 <= q < ext.len() && ext[q].0 != st() && ext[q].1 == Some(TokenType::Way);
                if q < j {
                    assert(pre[q] == ext[q]);
                }
            }
            if has_other_way(pre) {
                let q = choose|q: int| 0 <= q < pre.len() && pre[q].0 != st() && pre[q].1 == Some(TokenType::Way);
                assert(ext[q] == pre[q]);
            }
        }
        j = j + 1;
    }
    assert(t.take(j as int) =~= t);
    proof {
        lemma_last_st_bound(t);
    }
    if !has_st || last == tokenized.len() {
        return tokenized;
    }
    let mut out: Vec<Tokenized> = Vec::new();
    let mut k: usize = 0;
    let ghost target = st_rule(views(tokens@), t);
    while k < tokenized.len()
        invariant
            k <= tokenized@.len(),
            t == tok_views(tokenized@),
            target == st_rule(views(tokens@), t),
            target.len() == t.len(),
            last as int == last_st(t),
            last_st(t) >= 0,
            way == has_other_way(t),
            views(tokens@).contains(st()),
            tok_views(out@) == target.take(k as int),
        decreases tokenized@.len() - k,
    {
        let ghost before = tok_views(out@);
        if str_eq_lit2(&tokenized[k].token, 's', 't') {
            if !way && k == last {
                push_tok(&mut out, tokenized[k].token.clone(), Some(TokenType::Way));
            } else {
                push_tok(&mut out, tokenized[k].token.clone(), None);
            }
        } else {
            push_tok(&mut out, tokenized[k].token.clone(), tokenized[k].token_type);
        }
        assert(tok_views(out@) =~= target.take(k + 1));
        k = k + 1;
    }
    assert(target.take(k as int) =~= target);
    out
}

} // verus!
