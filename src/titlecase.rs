//! Title casing of display names, with locale-aware minor words and
//! upper-case compass directions.

use vstd::prelude::*;
use crate::context::Context;
use crate::name::{join, push_joined};
use crate::strings::{chars_eq, chars_of, lower_of, lowercase, string_of, upper_of, uppercase};
use crate::tokenize::{is_ws, is_ws_char, split_words, views, words_from};
use crate::tokens::str_eq_lit2;

verus! {

/// Whether the country uses the English rules (`US` or `CA`).
pub open spec fn english(country: Seq<char>) -> bool {
    country == seq!['U', 'S'] || country == seq!['C', 'A']
}

/// English minor words, kept lowercase after the first word.
pub open spec fn minor_en(w: Seq<char>) -> bool {
    w == "a"@ || w == "an"@ || w == "and"@ || w == "as"@ || w == "at"@ || w == "but"@ || w == "by"@
        || w == "en"@ || w == "for"@ || w == "from"@ || w == "how"@ || w == "if"@ || w == "in"@
        || w == "neither"@ || w == "nor"@ || w == "of"@ || w == "on"@ || w == "only"@ || w == "onto"@
        || w == "out"@ || w == "or"@ || w == "per"@ || w == "so"@ || w == "than"@ || w == "that"@
        || w == "the"@ || w == "to"@ || w == "until"@ || w == "up"@ || w == "upon"@ || w == "v"@
        || w == "v."@ || w == "versus"@ || w == "vs"@ || w == "vs."@ || w == "via"@ || w == "when"@
        || w == "with"@ || w == "without"@ || w == "yet"@
}

/// English words written all upper case.
pub open spec fn major_en(w: Seq<char>) -> bool {
    w == "us"@ || w == "dc"@
}

/// How a word is written: `us` and `dc` upper case under the English rules;
/// after the first word, minor words (English rules) and `du` (country `DE`)
/// as they are; otherwise the first character upper-cased.
pub open spec fn capitalized(w: Seq<char>, count: int, country: Seq<char>) -> Seq<char> {
    if english(country) && major_en(w) {
        upper_of(w)
    } else if count > 1 && ((english(country) && minor_en(w)) || (country == seq!['D', 'E'] && w
        == "du"@)) {
        w
    } else if w.len() == 0 {
        w
    } else {
        upper_of(seq![w[0]]) + w.drop_first()
    }
}

/// Characters that separate words when title casing.
pub open spec fn is_boundary(c: char) -> bool {
    is_ws(c) || ('\u{2000}' <= c && c <= '\u{206f}') || ('\u{2e00}' <= c && c <= '\u{2e7f}') || c
        == '\\' || c == '!' || c == '#' || c == '$' || c == '%' || c == '&' || c == '(' || c == ')'
        || c == '"' || c == '*' || c == '+' || c == ',' || c == '-' || c == '.' || c == '/' || c
        == ':' || c == ';' || c == '<' || c == '=' || c == '>' || c == '?' || c == '@' || c == '['
        || c == ']' || c == '^' || c == '_' || c == '{' || c == '|' || c == '}' || c == '~'
}

/// Title casing from position `i` on: `word` is the word read so far and `n`
/// the number of words already written.
pub open spec fn titled_from(s: Seq<char>, i: int, word: Seq<char>, n: int, country: Seq<char>) -> Seq<char>
    decreases s.len() - i,
{
    if i < 0 || i >= s.len() {
        if word.len() > 0 {
            capitalized(word, n + 1, country)
        } else {
            Seq::empty()
        }
    } else if is_boundary(s[i]) {
        if word.len() > 0 {
            capitalized(word, n + 1, country) + seq![s[i]] + titled_from(s, i + 1, Seq::empty(), n + 1, country)
        } else {
            seq![s[i]] + titled_from(s, i + 1, Seq::empty(), n, country)
        }
    } else {
        titled_from(s, i + 1, word.push(s[i]), n, country)
    }
}

/// `c` upper-cased when it is one of the letters of a compass direction.
pub open spec fn upper_dir(c: char) -> char {
    if c == 'n' {
        'N'
    } else if c == 'e' {
        'E'
    } else if c == 's' {
        'S'
    } else if c == 'w' {
        'W'
    } else {
        c
    }
}

/// Whether `w` equals the lowercase pattern `p` ignoring the case of its letters.
pub open spec fn ci_eq(w: Seq<char>, p: Seq<char>) -> bool {
    w.len() == p.len() && forall|i: int| 0 <= i < p.len() ==> #[trigger] w[i] == p[i] || w[i] == upper_dir(p[i])
}

/// A word written as a compass direction: `nw`, `n.w.`, `ne`, `n.e.`, `sw`,
/// `s.w.`, `se`, `s.e.` in any case become `NW`, `NE`, `SW`, `SE`.
pub open spec fn direction_word(w: Seq<char>) -> Seq<char> {
    if ci_eq(w, "nw"@) || ci_eq(w, "n.w."@) {
        "NW"@
    } else if ci_eq(w, "ne"@) || ci_eq(w, "n.e."@) {
        "NE"@
    } else if ci_eq(w, "sw"@) || ci_eq(w, "s.w."@) {
        "SW"@
    } else if ci_eq(w, "se"@) || ci_eq(w, "s.e."@) {
        "SE"@
    } else {
        w
    }
}

/// Every space-separated word of `s` (from `i` on, `seg` read so far) that is a
/// compass direction written in capitals.
pub open spec fn directions_from(s: Seq<char>, i: int, seg: Seq<char>) -> Seq<char>
    decreases s.len() - i,
{
    if i < 0 || i >= s.len() {
        direction_word(seg)
    } else if s[i] == ' ' {
        direction_word(seg) + seq![' '] + directions_from(s, i + 1, Seq::empty())
    } else {
        directions_from(s, i + 1, seg.push(s[i]))
    }
}

/// `s` trimmed, with every run of white space made a single space.
pub open spec fn collapsed(s: Seq<char>) -> Seq<char> {
    join(words_from(s.map_values(|c: char| if is_ws(c) { ' ' } else { c }), 0, Seq::empty()))
}

/// The title-cased form of `text` in a country.
pub open spec fn titlecase_spec(text: Seq<char>, country: Seq<char>) -> Seq<char> {
    let t = titled_from(collapsed(lower_of(text)), 0, Seq::empty(), 0, country);
    if english(country) {
        directions_from(t, 0, Seq::empty())
    } else {
        t
    }
}

fn is_lit(w: &Vec<char>, lit: &str) -> (r: bool)
    ensures
        r == (w@ == lit@),
{
    chars_eq(w, &chars_of(lit))
}

fn is_minor_en(w: &Vec<char>) -> (r: bool)
    ensures
        r == minor_en(w@),
{
    is_lit(w, "a") || is_lit(w, "an") || is_lit(w, "and") || is_lit(w, "as") || is_lit(w, "at")
        || is_lit(w, "but") || is_lit(w, "by") || is_lit(w, "en") || is_lit(w, "for") || is_lit(w, "from")
        || is_lit(w, "how") || is_lit(w, "if") || is_lit(w, "in") || is_lit(w, "neither") || is_lit(w, "nor")
        || is_lit(w, "of") || is_lit(w, "on") || is_lit(w, "only") || is_lit(w, "onto") || is_lit(w, "out")
        || is_lit(w, "or") || is_lit(w, "per") || is_lit(w, "so") || is_lit(w, "than") || is_lit(w, "that")
        || is_lit(w, "the") || is_lit(w, "to") || is_lit(w, "until") || is_lit(w, "up") || is_lit(w, "upon")
        || is_lit(w, "v") || is_lit(w, "v.") || is_lit(w, "versus") || is_lit(w, "vs") || is_lit(w, "vs.")
        || is_lit(w, "via") || is_lit(w, "when") || is_lit(w, "with") || is_lit(w, "without") || is_lit(w, "yet")
}

fn is_english(country: &String) -> (r: bool)
    ensures
        r == english(country@),
{
    str_eq_lit2(country, 'U', 'S') || str_eq_lit2(country, 'C', 'A')
}

fn capitalize_chars(w: &Vec<char>, word_count: usize, context: &Context) -> (r: Vec<char>)
    ensures
        r@ == capitalized(w@, word_count as int, context.country@),
{
    let en = is_english(&context.country);
    if en && (is_lit(w, "us") || is_lit(w, "dc")) {
        return chars_of(uppercase(string_of(w).as_str()).as_str());
    }
    if word_count > 1 {
        if en && is_minor_en(w) {
            return vec_copy(w);
        } else if str_eq_lit2(&context.country, 'D', 'E') && is_lit(w, "du") {
            return vec_copy(w);
        }
    }
    if w.len() == 0 {
        return Vec::new();
    }
    let mut first: Vec<char> = Vec::new();
    first.push(w[0]);
    let mut out = chars_of(uppercase(string_of(&first).as_str()).as_str());
    let mut i: usize = 1;
    let ghost up = out@;
    while i < w.len()
        invariant
            1 <= i <= w@.len(),
            out@ == up + w@.subrange(1, i as int),
        decreases w@.len() - i,
    {
        out.push(w[i]);
        assert(out@ =~= up + w@.subrange(1, i + 1));
        i = i + 1;
    }
    assert(first@ =~= seq![w@[0]]);
    assert(w@.subrange(1, i as int) =~= w@.drop_first());
    out
}

fn vec_copy(w: &Vec<char>) -> (r: Vec<char>)
    ensures
        r@ == w@,
{
    let mut out: Vec<char> = Vec::new();
    let mut i: usize = 0;
    while i < w.len()
        invariant
            i <= w@.len(),
            out@ == w@.take(i as int),
        decreases w@.len() - i,
    {
        out.push(w[i]);
        assert(out@ =~= w@.take(i + 1));
        i = i + 1;
    }
    assert(w@.take(i as int) =~= w@);
    out
}

/// Writes a word as title casing does: `us` and `dc` upper case in the US and
/// Canada; after the first word, English minor words there and `du` in
/// Germany as they are; otherwise with its first character upper-cased.
pub fn capitalize(text: &str, word_count: usize, context: &Context) -> (r: String)
    ensures
        r@ == capitalized(text@, word_count as int, context.country@),
{
    string_of(&capitalize_chars(&chars_of(text), word_count, context))
}

fn append_chars(out: &mut Vec<char>, more: &Vec<char>)
    ensures
        final(out)@ == old(out)@ + more@,
{
    let ghost base = out@;
    let mut i: usize = 0;
    while i < more.len()
        invariant
            i <= more@.len(),
            out@ == base + more@.take(i as int),
        decreases more@.len() - i,
    {
        out.push(more[i]);
        assert(out@ =~= base + more@.take(i + 1));
        i = i + 1;
    }
    assert(more@.take(i as int) =~= more@);
}

fn is_boundary_char(c: char) -> (r: bool)
    ensures
        r == is_boundary(c),
{
    is_ws_char(c) || ('\u{2000}' <= c && c <= '\u{206f}') || ('\u{2e00}' <= c && c <= '\u{2e7f}') || c
        == '\\' || c == '!' || c == '#' || c == '$' || c == '%' || c == '&' || c == '(' || c == ')'
        || c == '"' || c == '*' || c == '+' || c == ',' || c == '-' || c == '.' || c == '/' || c
        == ':' || c == ';' || c == '<' || c == '=' || c == '>' || c == '?' || c == '@' || c == '['
        || c == ']' || c == '^' || c == '_' || c == '{' || c == '|' || c == '}' || c == '~'
}

fn collapse_chars(s: &Vec<char>) -> (r: Vec<char>)
    ensures
        r@ == collapsed(s@),
{
    let mut sp: Vec<char> = Vec::new();
    let mut i: usize = 0;
    while i < s.len()
        invariant
            i <= s@.len(),
            sp@ =~= s@.take(i as int).map_values(|c: char| if is_ws(c) { ' ' } else { c }),
        decreases s@.len() - i,
    {
        if is_ws_char(s[i]) {
            sp.push(' ');
        } else {
            sp.push(s[i]);
        }
        i = i + 1;
    }
    assert(s@.take(i as int) =~= s@);
    let words = split_words(&sp);
    let mut out: Vec<char> = Vec::new();
    let mut k: usize = 0;
    while k < words.len()
        invariant
            k <= words@.len(),
            out@ == join(views(words@).take(k as int)),
        decreases words@.len() - k,
    {
        let ghost w = views(words@).take(k + 1);
        assert(w.drop_last() =~= views(words@).take(k as int));
        push_joined(&mut out, k == 0, &words[k]);
        if k == 0 {
            assert(w =~= seq![words@[0]@]);
        }
        k = k + 1;
    }
    assert(views(words@).take(k as int) =~= views(words@));
    out
}

fn direction_chars(w: &Vec<char>) -> (r: Vec<char>)
    ensures
        r@ == direction_word(w@),
{
    if ci_match(w, &chars_of("nw")) || ci_match(w, &chars_of("n.w.")) {
        chars_of("NW")
    } else if ci_match(w, &chars_of("ne")) || ci_match(w, &chars_of("n.e.")) {
        chars_of("NE")
    } else if ci_match(w, &chars_of("sw")) || ci_match(w, &chars_of("s.w.")) {
        chars_of("SW")
    } else if ci_match(w, &chars_of("se")) || ci_match(w, &chars_of("s.e.")) {
        chars_of("SE")
    } else {
        vec_copy(w)
    }
}

fn ci_match(w: &Vec<char>, p: &Vec<char>) -> (r: bool)
    ensures
        r == ci_eq(w@, p@),
{
    if w.len() != p.len() {
        return false;
    }
    let mut i: usize = 0;
    while i < p.len()
        invariant
            w@.len() == p@.len(),
            i <= p@.len(),
            forall|k: int| 0 <= k < i ==> #[trigger] w@[k] == p@[k] || w@[k] == upper_dir(p@[k]),
        decreases p@.len() - i,
    {
        let c = p[i];
        let u = if c == 'n' {
            'N'
        } else if c == 'e' {
            'E'
        } else if c == 's' {
            'S'
        } else if c == 'w' {
            'W'
        } else {
            c
        };
        if w[i] != c && w[i] != u {
            return false;
        }
        i = i + 1;
    }
    true
}

/// Title-cases `text`: trimmed, lowercased, white space collapsed, each word
/// written by `capitalize` (counting words from 1), separators kept; in the US
/// and Canada compass-direction words are then written in capitals.
pub fn titlecase(text: &String, context: &Context) -> (r: String)
    ensures
        r@ == titlecase_spec(text@, context.country@),
{
    let lower = chars_of(lowercase(text.as_str()).as_str());
    let s = collapse_chars(&lower);
    let ghost country = context.country@;
    let mut out: Vec<char> = Vec::new();
    let mut word: Vec<char> = Vec::new();
    let mut n: usize = 0;
    let mut i: usize = 0;
    while i < s.len()
        invariant
            i <= s@.len(),
            n + word@.len() <= i,
            country == context.country@,
            out@ + titled_from(s@, i as int, word@, n as int, country) == titled_from(s@, 0, Seq::empty(), 0, country),
        decreases s@.len() - i,
    {
        let c = s[i];
        if is_boundary_char(c) {
            if word.len() > 0 {
                let cap = capitalize_chars(&word, n + 1, context);
                let ghost before = out@;
                append_chars(&mut out, &cap);
                out.push(c);
                assert(out@ + titled_from(s@, i + 1, Seq::empty(), n + 1, country) =~= before + (cap@ + seq![c] + titled_from(s@, i + 1, Seq::empty(), n + 1, country)));
                n = n + 1;
            } else {
                assert(out@.push(c) + titled_from(s@, i + 1, Seq::empty(), n as int, country) =~= out@ + (seq![c] + titled_from(s@, i + 1, Seq::empty(), n as int, country)));
                out.push(c);
            }
            word = Vec::new();
        } else {
            word.push(c);
        }
        i = i + 1;
    }
    if word.len() > 0 {
        let cap = capitalize_chars(&word, n + 1, context);
        append_chars(&mut out, &cap);
    } else {
        assert(out@ + titled_from(s@, i as int, word@, n as int, country) =~= out@);
    }
    let titled = string_of(&out);
    if is_english(&context.country) {
        normalize_cardinals(&titled)
    } else {
        titled
    }
}

/// Writes every space-separated compass-direction word (`nw`, `n.w.`, `ne`,
/// `n.e.`, `sw`, `s.w.`, `se`, `s.e.`, in any case) in capitals without periods.
pub fn normalize_cardinals(text: &String) -> (r: String)
    ensures
        r@ == directions_from(text@, 0, Seq::empty()),
{
    let t = chars_of(text.as_str());
    let mut res: Vec<char> = Vec::new();
    let mut seg: Vec<char> = Vec::new();
    let mut j: usize = 0;
    while j < t.len()
        invariant
            j <= t@.len(),
            t@ == text@,
            res@ + directions_from(t@, j as int, seg@) == directions_from(t@, 0, Seq::empty()),
        decreases t@.len() - j,
    {
        if t[j] == ' ' {
            let d = direction_chars(&seg);
            let ghost before = res@;
            append_chars(&mut res, &d);
            res.push(' ');
            assert(res@ + directions_from(t@, j + 1, Seq::empty()) =~= before + (d@ + seq![' '] + directions_from(t@, j + 1, Seq::empty())));
            seg = Vec::new();
        } else {
            seg.push(t[j]);
        }
        j = j + 1;
    }
    let d = direction_chars(&seg);
    append_chars(&mut res, &d);
    string_of(&res)
}

} // verus!
