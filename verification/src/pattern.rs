//! Matching a text against a regular expression, which the `regex` crate
//! does. Nothing here is proved of what it answers: the answers have names,
//! and the rest of the library speaks of them by those names.

use vstd::prelude::*;

verus! {

#[verifier::external_type_specification]
#[verifier::external_body]
pub struct ExRegexError(regex::Error);

/// Whether `regex::Regex::new` compiles `pattern`, that is, returns a regex
/// and no error.
pub uninterp spec fn regex_compiles(pattern: Seq<char>) -> bool;

/// What `regex::Regex::is_match` answers on `haystack` for the regex that
/// `regex::Regex::new` compiles of `pattern`: whether the regex matches
/// anywhere in the haystack.
pub uninterp spec fn regex_is_match(pattern: Seq<char>, haystack: Seq<char>) -> bool;

/// Compiles `pattern` with `regex::Regex::new` and asks the regex, with
/// `regex::Regex::is_match`, whether it matches anywhere in `haystack`.
///
/// Taken on trust: that the call gives an error exactly where
/// `regex_compiles` is false of the pattern, and that the answer it gives
/// otherwise is `regex_is_match` of the pattern and the haystack. Both are
/// the crate's own verdicts under these names; nothing is claimed of which
/// patterns compile or which texts match.
#[verifier::external_body]
fn search(pattern: &str, haystack: &str) -> (found: Result<bool, regex::Error>)
    ensures
        found is Ok <==> regex_compiles(pattern@),
        found matches Ok(b) ==> b == regex_is_match(pattern@, haystack@),
{
    match regex::Regex::new(pattern) {
        Ok(re) => Ok(re.is_match(haystack)),
        Err(e) => Err(e),
    }
}

/// A pattern accepts a text when it compiles and matches in the text.
pub open spec fn accepts(pattern: Seq<char>, text: Seq<char>) -> bool {
    regex_compiles(pattern) && regex_is_match(pattern, text)
}

/// Tells whether `pattern` accepts `text`. A pattern that does not compile
/// accepts nothing.
pub fn pattern_accepts(pattern: &str, text: &str) -> (r: bool)
    ensures
        r == accepts(pattern@, text@),
{
    match search(pattern, text) {
        Ok(found) => found,
        Err(_) => false,
    }
}

} // verus!
