//! Diacritic folding: replaces decorated letters with their plain forms.

use vstd::prelude::*;
use crate::fold_table::{fold_char, push_folded};
use crate::strings::{chars_of, string_of};

verus! {

/// The fold of a whole string: each character replaced by its fold, in order.
pub open spec fn fold(s: Seq<char>) -> Seq<char>
    decreases s.len(),
{
    if s.len() == 0 {
        Seq::empty()
    } else {
        fold(s.drop_last()) + fold_char(s.last())
    }
}

/// Whether every character of `s` is in U+0000..=U+007E.
pub open spec fn is_plain(s: Seq<char>) -> bool {
    forall|i: int| 0 <= i < s.len() ==> s[i] <= '\u{7e}'
}

/// Removes diacritics and decorations from `text`, character by character.
/// Characters without a plain form are kept as they are.
pub fn diacritics(text: &String) -> (r: String)
    ensures
        r@ == fold(text@),
{
    let cs = chars_of(text.as_str());
    let mut plain = true;
    let mut i: usize = 0;
    while i < cs.len()
        invariant
            i <= cs@.len(),
            plain <==> (forall|k: int| 0 <= k < i ==> cs@[k] <= '\u{7e}'),
        decreases cs@.len() - i,
    {
        if cs[i] > '\u{7e}' {
            plain = false;
        }
        i = i + 1;
    }
    if plain {
        proof {
            lemma_fold_plain(cs@);
        }
        return text.clone();
    }
    let mut out: Vec<char> = Vec::new();
    let mut j: usize = 0;
    while j < cs.len()
        invariant
            j <= cs@.len(),
            out@ == fold(cs@.subrange(0, j as int)),
        decreases cs@.len() - j,
    {
        assert(cs@.subrange(0, j + 1).drop_last() =~= cs@.subrange(0, j as int));
        push_folded(&mut out, cs[j]);
        j = j + 1;
    }
    assert(cs@.subrange(0, j as int) =~= cs@);
    string_of(&out)
}

/// A character in U+0000..=U+007E folds to itself.
pub proof fn lemma_fold_char_plain(c: char)
    requires
        c <= '\u{7e}',
    ensures
        fold_char(c) == seq![c],
{
}

/// A string of characters in U+0000..=U+007E folds to itself.
pub proof fn lemma_fold_plain(s: Seq<char>)
    requires
        is_plain(s),
    ensures
        fold(s) == s,
    decreases s.len(),
{
    if s.len() > 0 {
        lemma_fold_plain(s.drop_last());
        lemma_fold_char_plain(s.last());
        assert(s.drop_last().push(s.last()) =~= s);
        assert(fold(s) =~= s);
    }
}

/// Folding distributes over concatenation.
pub proof fn lemma_fold_concat(a: Seq<char>, b: Seq<char>)
    ensures
        fold(a + b) == fold(a) + fold(b),
    decreases b.len(),
{
    if b.len() == 0 {
        assert(a + b =~= a);
        assert(fold(a) + fold(b) =~= fold(a));
    } else {
        lemma_fold_concat(a, b.drop_last());
        assert((a + b).drop_last() =~= a + b.drop_last());
        assert(fold(a + b) =~= fold(a) + fold(b));
    }
}

/// What a character folds to is left unchanged by folding again.
pub proof fn lemma_fold_char_stable(c: char)
    ensures
        fold(fold_char(c)) == fold_char(c),
{
    let f = fold_char(c);
    if f == seq![c] {
        assert(f.drop_last() =~= Seq::<char>::empty());
        assert(fold(f) == fold(f.drop_last()) + fold_char(f.last()));
        assert(fold(f) =~= f);
    } else {
        assert(is_plain(f));
        lemma_fold_plain(f);
    }
}

/// Folding is idempotent: a folded string folds to itself.
pub proof fn lemma_fold_idempotent(s: Seq<char>)
    ensures
        fold(fold(s)) == fold(s),
    decreases s.len(),
{
    if s.len() > 0 {
        lemma_fold_idempotent(s.drop_last());
        lemma_fold_concat(fold(s.drop_last()), fold_char(s.last()));
        lemma_fold_char_stable(s.last());
    }
}

} // verus!
