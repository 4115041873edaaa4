//! Splitting a lowercased name into surface tokens: diacritics are folded,
//! marks and apostrophes dropped (with the Romance elision split), every other
//! punctuation character and whitespace separates tokens.

use vstd::prelude::*;
use crate::diacritics::fold;
use crate::fold_table::{fold_char, push_folded};
use crate::strings::string_of;

verus! {

/// Characters that vanish from a name: carets, periods and the apostrophe-like marks
/// other than the ASCII apostrophe.
pub open spec fn is_mark(c: char) -> bool {
    c == '^' || c == '.' || c == '\u{2018}' || c == '\u{2019}' || c == '\u{02bc}'
        || c == '\u{02bb}' || c == '\u{ff07}'
}

/// The vowels (and `h`, `y`) after which `l'` and `d'` are split off.
pub open spec fn is_elision_vowel(c: char) -> bool {
    c == 'a' || c == 'e' || c == 'i' || c == 'o' || c == 'u' || c == 'h' || c == 'y'
}

/// Unicode white space.
pub open spec fn is_ws(c: char) -> bool {
    ('\u{9}' <= c && c <= '\u{d}') || c == ' ' || c == '\u{85}' || c == '\u{a0}'
        || c == '\u{1680}' || ('\u{2000}' <= c && c <= '\u{200a}') || c == '\u{2028}'
        || c == '\u{2029}' || c == '\u{202f}' || c == '\u{205f}' || c == '\u{3000}'
}

/// ASCII punctuation, and the General Punctuation and Supplemental Punctuation blocks.
pub open spec fn is_punct(c: char) -> bool {
    ('!' <= c && c <= '/') || (':' <= c && c <= '@') || ('[' <= c && c <= '`')
        || ('{' <= c && c <= '~') || ('\u{2000}' <= c && c <= '\u{206f}')
        || ('\u{2e00}' <= c && c <= '\u{2e7f}')
}

/// `s` without its marks.
pub open spec fn strip_marks(s: Seq<char>) -> Seq<char>
    decreases s.len(),
{
    if s.len() == 0 {
        s
    } else if is_mark(s.last()) {
        strip_marks(s.drop_last())
    } else {
        strip_marks(s.drop_last()).push(s.last())
    }
}

/// Whether an elision (`l'` or `d'`, an elision vowel, then at least one more
/// character that is not a space) starts at `i`.
pub open spec fn starts_elision(s: Seq<char>, i: int) -> bool {
    0 <= i && i + 3 < s.len() && (s[i] == 'l' || s[i] == 'd') && s[i + 1] == '\''
        && is_elision_vowel(s[i + 2]) && s[i + 3] != ' '
}

/// Apostrophe handling from position `i` on: an elision is split by a space in
/// place of its apostrophe and runs to the next space; every other ASCII
/// apostrophe is dropped.
pub open spec fn elide_from(s: Seq<char>, i: int, in_elision: bool) -> Seq<char>
    decreases s.len() - i,
{
    if i >= s.len() || i < 0 {
        Seq::empty()
    } else if in_elision {
        if s[i] == ' ' {
            seq![' '] + elide_from(s, i + 1, false)
        } else if s[i] == '\'' {
            elide_from(s, i + 1, true)
        } else {
            seq![s[i]] + elide_from(s, i + 1, true)
        }
    } else if starts_elision(s, i) {
        seq![s[i], ' '] + elide_from(s, i + 2, true)
    } else if s[i] == '\'' {
        elide_from(s, i + 1, false)
    } else {
        seq![s[i]] + elide_from(s, i + 1, false)
    }
}

/// What a character becomes before splitting: separators turn into a space.
pub open spec fn spaced(c: char) -> char {
    if is_ws(c) || is_punct(c) {
        ' '
    } else {
        c
    }
}

/// The words of `s` from position `i` on, `cur` being the word read so far:
/// maximal runs of characters other than a space.
pub open spec fn words_from(s: Seq<char>, i: int, cur: Seq<char>) -> Seq<Seq<char>>
    decreases s.len() - i,
{
    if i >= s.len() || i < 0 {
        if cur.len() > 0 {
            seq![cur]
        } else {
            Seq::empty()
        }
    } else if s[i] == ' ' {
        if cur.len() > 0 {
            seq![cur] + words_from(s, i + 1, Seq::empty())
        } else {
            words_from(s, i + 1, Seq::empty())
        }
    } else {
        words_from(s, i + 1, cur.push(s[i]))
    }
}

/// The surface tokens of an already lowercased name.
pub open spec fn tokenize_lower(lower: Seq<char>) -> Seq<Seq<char>> {
    words_from(elide_from(strip_marks(fold(lower)), 0, false).map_values(|c: char| spaced(c)), 0, Seq::empty())
}

/// The string views of a sequence of strings.
pub open spec fn views(v: Seq<String>) -> Seq<Seq<char>> {
    v.map_values(|w: String| w@)
}

/// Folds the diacritics of a character sequence.
pub fn fold_chars(cs: &Vec<char>) -> (r: Vec<char>)
    ensures
        r@ == fold(cs@),
{
    let mut out: Vec<char> = Vec::new();
    let mut j: usize = 0;
    while j < cs.len()
        invariant
            j <= cs@.len(),
            out@ == fold(cs@.subrange(0, j as int)),
        decreases cs@.len() - j,
    {
        assert(cs@.subrange(0, j + 1).drop_last() =~= cs@.subrange(0, j as int));
        push_folded(&mut out, cs[j]);
        j = j + 1;
    }
    assert(cs@.subrange(0, j as int) =~= cs@);
    out
}

fn is_mark_char(c: char) -> (r: bool)
    ensures
        r == is_mark(c),
{
    c == '^' || c == '.' || c == '\u{2018}' || c == '\u{2019}' || c == '\u{02bc}'
        || c == '\u{02bb}' || c == '\u{ff07}'
}

fn is_elision_vowel_char(c: char) -> (r: bool)
    ensures
        r == is_elision_vowel(c),
{
    c == 'a' || c == 'e' || c == 'i' || c == 'o' || c == 'u' || c == 'h' || c == 'y'
}

/// Whether `c` is Unicode white space.
pub fn is_ws_char(c: char) -> (r: bool)
    ensures
        r == is_ws(c),
{
    ('\u{9}' <= c && c <= '\u{d}') || c == ' ' || c == '\u{85}' || c == '\u{a0}'
        || c == '\u{1680}' || ('\u{2000}' <= c && c <= '\u{200a}') || c == '\u{2028}'
        || c == '\u{2029}' || c == '\u{202f}' || c == '\u{205f}' || c == '\u{3000}'
}

/// Whether `c` is punctuation that separates tokens.
pub fn is_punct_char(c: char) -> (r: bool)
    ensures
        r == is_punct(c),
{
    ('!' <= c && c <= '/') || (':' <= c && c <= '@') || ('[' <= c && c <= '`')
        || ('{' <= c && c <= '~') || ('\u{2000}' <= c && c <= '\u{206f}')
        || ('\u{2e00}' <= c && c <= '\u{2e7f}')
}

fn strip_marks_chars(s: &Vec<char>) -> (r: Vec<char>)
    ensures
        r@ == strip_marks(s@),
{
    let mut out: Vec<char> = Vec::new();
    let mut i: usize = 0;
    while i < s.len()
        invariant
            i <= s@.len(),
            out@ == strip_marks(s@.subrange(0, i as int)),
        decreases s@.len() - i,
    {
        let ghost pre = s@.subrange(0, i as int);
        assert(s@.subrange(0, i + 1).drop_last() =~= pre);
        if !is_mark_char(s[i]) {
            out.push(s[i]);
        }
        i = i + 1;
    }
    assert(s@.subrange(0, i as int) =~= s@);
    out
}

fn starts_elision_at(s: &Vec<char>, i: usize) -> (r: bool)
    requires
        i < s@.len(),
    ensures
        r == starts_elision(s@, i as int),
{
    s.len() > 3 && i < s.len() - 3 && (s[i] == 'l' || s[i] == 'd') && s[i + 1] == '\''
        && is_elision_vowel_char(s[i + 2]) && s[i + 3] != ' '
}

fn elide_chars(s: &Vec<char>) -> (r: Vec<char>)
    ensures
        r@ == elide_from(s@, 0, false),
{
    let mut out: Vec<char> = Vec::new();
    let mut i: usize = 0;
    let mut in_elision = false;
    while i < s.len()
        invariant
            i <= s@.len(),
            out@ + elide_from(s@, i as int, in_elision) == elide_from(s@, 0, false),
        decreases s@.len() - i,
    {
        let c = s[i];
        if in_elision {
            if c == ' ' {
                assert(out@.push(' ') + elide_from(s@, i + 1, false) =~= out@ + (seq![' '] + elide_from(s@, i + 1, false)));
                out.push(' ');
                in_elision = false;
            } else if c != '\'' {
                assert(out@.push(c) + elide_from(s@, i + 1, true) =~= out@ + (seq![c] + elide_from(s@, i + 1, true)));
                out.push(c);
            }
            i = i + 1;
        } else if starts_elision_at(s, i) {
            assert(out@.push(c).push(' ') + elide_from(s@, i + 2, true) =~= out@ + (seq![c, ' '] + elide_from(s@, i + 2, true)));
            out.push(c);
            out.push(' ');
            in_elision = true;
            i = i + 2;
        } else {
            if c != '\'' {
                assert(out@.push(c) + elide_from(s@, i + 1, false) =~= out@ + (seq![c] + elide_from(s@, i + 1, false)));
                out.push(c);
            }
            i = i + 1;
        }
    }
    assert(out@ + elide_from(s@, i as int, in_elision) =~= out@);
    out
}

fn spaced_chars(s: &Vec<char>) -> (r: Vec<char>)
    ensures
        r@ == s@.map_values(|c: char| spaced(c)),
{
    let mut out: Vec<char> = Vec::new();
    let mut i: usize = 0;
    while i < s.len()
        invariant
            i <= s@.len(),
            out@ =~= s@.subrange(0, i as int).map_values(|c: char| spaced(c)),
        decreases s@.len() - i,
    {
        let c = s[i];
        if is_ws_char(c) || is_punct_char(c) {
            out.push(' ');
        } else {
            out.push(c);
        }
        i = i + 1;
    }
    assert(s@.subrange(0, i as int) =~= s@);
    out
}

pub(crate) fn split_words(s: &Vec<char>) -> (r: Vec<String>)
    ensures
        views(r@) == words_from(s@, 0, Seq::empty()),
{
    let mut out: Vec<String> = Vec::new();
    let mut cur: Vec<char> = Vec::new();
    let mut i: usize = 0;
    while i < s.len()
        invariant
            i <= s@.len(),
            views(out@) + words_from(s@, i as int, cur@) == words_from(s@, 0, Seq::empty()),
        decreases s@.len() - i,
    {
        let c = s[i];
        if c == ' ' {
            if cur.len() > 0 {
                let w = string_of(&cur);
                let ghost before = views(out@);
                out.push(w);
                assert(views(out@) =~= before.push(w@));
                assert(views(out@) + words_from(s@, i + 1, Seq::empty()) =~= before + (seq![cur@] + words_from(s@, i + 1, Seq::empty())));
            }
            cur = Vec::new();
        } else {
            cur.push(c);
        }
        i = i + 1;
    }
    if cur.len() > 0 {
        let w = string_of(&cur);
        let ghost before = views(out@);
        out.push(w);
        assert(views(out@) =~= before.push(w@));
        assert(views(out@) =~= before + seq![cur@]);
    } else {
        assert(views(out@) + words_from(s@, i as int, cur@) =~= views(out@));
    }
    out
}

/// The surface tokens of an already lowercased name.
pub fn tokenize_chars(lower: &Vec<char>) -> (r: Vec<String>)
    ensures
        views(r@) == tokenize_lower(lower@),
{
    let folded = fold_chars(lower);
    let stripped = strip_marks_chars(&folded);
    let elided = elide_chars(&stripped);
    let sp = spaced_chars(&elided);
    split_words(&sp)
}

} // verus!
