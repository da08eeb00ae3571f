//! Regular expressions, as provided by the `regex` crate.
//!
//! Patterns travel through the library as plain strings. What the regex
//! engine decides about a pattern is named by the functions below; the
//! engine itself is not modelled.

use vstd::prelude::*;
use vstd::string::*;

verus! {

/// Whether `Regex::new` accepts `pattern`.
pub uninterp spec fn regex_compiles(pattern: Seq<char>) -> bool;

/// Whether the regex compiled from `pattern` matches anywhere in `text`.
/// Meaningful only where `regex_compiles(pattern)`.
pub uninterp spec fn regex_is_match(pattern: Seq<char>, text: Seq<char>) -> bool;

/// `text` with every non-overlapping match of the regex compiled from
/// `pattern` replaced by the literal `replacement`.
/// Meaningful only where `regex_compiles(pattern)`.
pub uninterp spec fn regex_replace_all(
    pattern: Seq<char>,
    text: Seq<char>,
    replacement: Seq<char>,
) -> Seq<char>;

/// The characters that carry a meaning in a pattern and are escaped to match
/// themselves.
pub open spec fn is_meta_character(c: char) -> bool {
    c == '\\' || c == '.' || c == '+' || c == '*' || c == '?' || c == '(' || c == ')' || c == '|'
        || c == '[' || c == ']' || c == '{' || c == '}' || c == '^' || c == '$' || c == '#' || c
        == '&' || c == '-' || c == '~'
}

/// `text` with a backslash put before each meta character.
pub open spec fn escaped(text: Seq<char>) -> Seq<char>
    decreases text.len(),
{
    if text.len() == 0 {
        Seq::<char>::empty()
    } else if is_meta_character(text.last()) {
        escaped(text.drop_last()).push('\\').push(text.last())
    } else {
        escaped(text.drop_last()).push(text.last())
    }
}

/// Whether `pattern` is a valid regular expression.
///
/// Trusted: `regex::Regex::new`, which returns an error for an invalid
/// pattern and for one whose compiled form exceeds the default size limit.
/// The contract only names that outcome.
#[verifier::external_body]
pub(crate) fn compiles(pattern: &str) -> (ok: bool)
    ensures
        ok == regex_compiles(pattern@),
{
    regex::Regex::new(pattern).is_ok()
}

/// Whether `pattern` matches somewhere in `text`; `None` if `pattern` is not
/// a valid regular expression.
///
/// Trusted: `regex::Regex::is_match` on the regex that `regex::Regex::new`
/// builds from `pattern`. It returns true if and only if there is a match
/// anywhere in the haystack. The contract names that answer.
#[verifier::external_body]
pub(crate) fn is_match(pattern: &str, text: &str) -> (found: Option<bool>)
    ensures
        found is Some <==> regex_compiles(pattern@),
        found matches Some(b) ==> b == regex_is_match(pattern@, text@),
{
    match regex::Regex::new(pattern) {
        Ok(re) => Some(re.is_match(text)),
        Err(_) => None,
    }
}

/// `text` with every match of `pattern` replaced by `replacement`, taken
/// literally; `None` if `pattern` is not a valid regular expression.
///
/// Trusted: `regex::Regex::replace_all` with a `regex::NoExpand` replacement,
/// on the regex that `regex::Regex::new` builds from `pattern`. It replaces
/// all non-overlapping matches and returns the haystack unchanged when there
/// is none. The contract names the resulting text and claims the second
/// half: without a match the text comes back as it went in.
#[verifier::external_body]
pub(crate) fn replace_all(pattern: &str, text: &str, replacement: &str) -> (out: Option<String>)
    ensures
        out is Some <==> regex_compiles(pattern@),
        out matches Some(s) ==> s@ == regex_replace_all(pattern@, text@, replacement@),
        out matches Some(s) ==> !regex_is_match(pattern@, text@) ==> s@ == text@,
{
    match regex::Regex::new(pattern) {
        Ok(re) => Some(re.replace_all(text, regex::NoExpand(replacement)).into_owned()),
        Err(_) => None,
    }
}

/// `text` as a pattern that matches exactly `text`.
///
/// Trusted: `regex::escape`, which copies the text and puts a backslash
/// before each character for which `regex_syntax::is_meta_character` holds.
#[verifier::external_body]
pub(crate) fn escape(text: &str) -> (out: String)
    ensures
        out@ == escaped(text@),
{
    regex::escape(text)
}

} // verus!
