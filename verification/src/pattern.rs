//! The interface to the `regex` crate. Everything that the verifier is told
//! about that crate, and does not prove, stands in this file.

use vstd::prelude::*;
use regex::Regex;
use crate::text::contains;

verus! {

/// `regex::Regex`, a compiled regular expression. The verifier sees nothing
/// inside a value of it.
#[verifier::external_type_specification]
#[verifier::external_body]
pub struct ExRegex(regex::Regex);

/// `regex::Error`, the reason for which a pattern was not compiled. The
/// verifier sees nothing inside a value of it.
#[verifier::external_type_specification]
#[verifier::external_body]
pub struct ExRegexError(regex::Error);

/// The pattern text that a compiled expression holds: what
/// `regex::Regex::as_str` returns, the text that the expression was compiled
/// from.
pub uninterp spec fn pattern_text(pattern: Regex) -> Seq<char>;

/// `regex::Regex::new` compiles a pattern, or refuses it where its syntax is
/// wrong or the compiled expression would be too large. It returns on every
/// input. Nothing is claimed of which patterns it accepts; of an expression
/// that it returns, only that it holds the text it was given.
pub assume_specification[ regex::Regex::new ](re: &str) -> (compiled: Result<
    regex::Regex,
    regex::Error,
>)
    ensures
        compiled matches Ok(pattern) ==> pattern_text(pattern) == re@,
;

/// The text that `pattern` matches first in `text`, if it matches any: what
/// `regex::Regex::captures` reports as group 0, the whole of its leftmost
/// match.
pub uninterp spec fn leftmost_match(pattern: Regex, text: Seq<char>) -> Option<Seq<char>>;

/// The text that an optional string holds.
pub open spec fn text_of(found: Option<String>) -> Option<Seq<char>> {
    match found {
        Some(text) => Some(text@),
        None => None,
    }
}

/// Calls `regex::Regex::captures` and copies the text of group 0, which is
/// present in every match. The contract names that text and claims of it
/// what the crate documents of every match: it is a part of the text that
/// was searched.
#[verifier::external_body]
pub(crate) fn search(pattern: &Regex, text: &str) -> (found: Option<String>)
    ensures
        text_of(found) == leftmost_match(*pattern, text@),
        found matches Some(matched) ==> contains(text@, matched@),
{
    match pattern.captures(text) {
        Some(groups) => match groups.get(0) {
            Some(whole) => Some(whole.as_str().to_owned()),
            None => None,
        },
        None => None,
    }
}

} // verus!
