//! Regular expressions, as the `regex` crate evaluates them.
//!
//! Matching is not modelled here: what the engine answers for a pattern and
//! a text is given a name, and the functions of this library state their
//! results over those names.

use vstd::prelude::*;
use crate::text::views;

verus! {

/// Whether the expression `pattern` finds a match anywhere in `haystack`,
/// letters compared without regard to case where `case_insensitive` is set.
/// `None` where `pattern` is not an expression the engine accepts.
pub uninterp spec fn pattern_found(
    pattern: Seq<char>,
    case_insensitive: bool,
    haystack: Seq<char>,
) -> Option<bool>;

/// The successive non-overlapping matches of `pattern` in `haystack`, each
/// as the text it covers, in the order found. `None` where `pattern` is not
/// an expression the engine accepts.
pub uninterp spec fn pattern_matches(pattern: Seq<char>, haystack: Seq<char>) -> Option<
    Seq<Seq<char>>,
>;

/// `haystack` with every non-overlapping match of `pattern` replaced by
/// `replacement`. `None` where `pattern` is not an expression the engine
/// accepts.
pub uninterp spec fn pattern_replaced(
    pattern: Seq<char>,
    case_insensitive: bool,
    haystack: Seq<char>,
    replacement: Seq<char>,
) -> Option<Seq<char>>;

/// Whether `c` has a meaning of its own in an expression.
pub open spec fn is_meta(c: char) -> bool {
    c == '\\' || c == '.' || c == '+' || c == '*' || c == '?' || c == '(' || c == ')' || c == '|'
        || c == '[' || c == ']' || c == '{' || c == '}' || c == '^' || c == '$' || c == '#' || c
        == '&' || c == '-' || c == '~'
}

/// `text` with a backslash put before each character that has a meaning of
/// its own in an expression.
pub open spec fn escaped(text: Seq<char>) -> Seq<char>
    decreases text.len(),
{
    if text.len() == 0 {
        Seq::empty()
    } else if is_meta(text.last()) {
        escaped(text.drop_last()).push('\\').push(text.last())
    } else {
        escaped(text.drop_last()).push(text.last())
    }
}

/// Builds `pattern` with `regex::RegexBuilder` and asks `Regex::is_match`
/// for `haystack`. The contract only names the answer; a pattern that the
/// builder rejects gives `None`.
#[verifier::external_body]
pub(crate) fn search(pattern: &str, case_insensitive: bool, haystack: &str) -> (found: Option<bool>)
    ensures
        found == pattern_found(pattern@, case_insensitive, haystack@),
{
    match regex::RegexBuilder::new(pattern).case_insensitive(case_insensitive).build() {
        Ok(re) => Some(re.is_match(haystack)),
        Err(_) => None,
    }
}

/// Compiles `pattern` with `regex::Regex::new` and collects what
/// `Regex::find_iter` yields for `haystack`, each match as an owned string.
/// The contract only names that list.
#[verifier::external_body]
pub(crate) fn find_all(pattern: &str, haystack: &str) -> (found: Option<Vec<String>>)
    ensures
        found matches Some(v) ==> pattern_matches(pattern@, haystack@) == Some(views(v@)),
        found is None ==> pattern_matches(pattern@, haystack@) is None,
{
    match regex::Regex::new(pattern) {
        Ok(re) => {
            let mut found = Vec::new();
            for m in re.find_iter(haystack) {
                found.push(m.as_str().to_string());
            }
            Some(found)
        },
        Err(_) => None,
    }
}

/// Builds `pattern` with `regex::RegexBuilder` and hands back what
/// `Regex::replace_all` makes of `haystack`. The contract only names the
/// outcome. In `replacement` a `$` starts a reference to a capture group, as
/// the engine documents.
#[verifier::external_body]
pub(crate) fn replace_all(
    pattern: &str,
    case_insensitive: bool,
    haystack: &str,
    replacement: &str,
) -> (out: Option<String>)
    ensures
        out matches Some(s) ==> pattern_replaced(
            pattern@,
            case_insensitive,
            haystack@,
            replacement@,
        ) == Some(s@),
        out is None ==> pattern_replaced(pattern@, case_insensitive, haystack@, replacement@)
            is None,
{
    match regex::RegexBuilder::new(pattern).case_insensitive(case_insensitive).build() {
        Ok(re) => Some(re.replace_all(haystack, replacement).into_owned()),
        Err(_) => None,
    }
}

/// `regex::escape`: every character that has a meaning of its own in an
/// expression gets a backslash before it; the others are kept as they are.
#[verifier::external_body]
pub(crate) fn escape(text: &str) -> (out: String)
    ensures
        out@ == escaped(text@),
{
    regex::escape(text)
}

/// Whether `pattern` matches somewhere in `haystack`. A pattern that is no
/// valid expression matches nothing.
pub fn is_match(pattern: &str, case_insensitive: bool, haystack: &str) -> (found: bool)
    ensures
        found == (pattern_found(pattern@, case_insensitive, haystack@) == Some(true)),
{
    match search(pattern, case_insensitive, haystack) {
        Some(answer) => answer,
        None => false,
    }
}

} // verus!
