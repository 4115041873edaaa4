//! Regular-expression replacement tokens, through the `regex` crate.

use vstd::prelude::*;

verus! {

/// Whether `pattern` compiles as a regular expression.
pub uninterp spec fn regex_valid(pattern: Seq<char>) -> bool;

/// Whether the compiled `pattern` matches somewhere in `hay`.
pub uninterp spec fn regex_match_of(pattern: Seq<char>, hay: Seq<char>) -> bool;

/// `hay` with every non-overlapping match of `pattern` replaced by `rep`
/// (with `$name` group references expanded).
pub uninterp spec fn regex_replace_of(pattern: Seq<char>, hay: Seq<char>, rep: Seq<char>) -> Seq<char>;

/// Relies on `regex::Regex::new` (whether the pattern compiles) and
/// `regex::Regex::is_match`.
#[verifier::external_body]
pub(crate) fn regex_is_match(pattern: &str, hay: &str) -> (r: Option<bool>)
    ensures
        r == (if regex_valid(pattern@) {
            Some(regex_match_of(pattern@, hay@))
        } else {
            None::<bool>
        }),
{
    regex::Regex::new(pattern).ok().map(|re| re.is_match(hay))
}

/// Relies on `regex::Regex::new` (whether the pattern compiles) and
/// `regex::Regex::replace_all`.
#[verifier::external_body]
pub(crate) fn regex_replace_all(pattern: &str, hay: &str, rep: &str) -> (r: Option<String>)
    ensures
        regex_valid(pattern@) <==> r.is_some(),
        r matches Some(s) ==> s@ == regex_replace_of(pattern@, hay@, rep@),
{
    regex::Regex::new(pattern).ok().map(|re| re.replace_all(hay, rep).into_owned())
}

} // verus!
