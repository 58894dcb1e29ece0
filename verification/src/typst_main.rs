//! Recognising math by its delimiters: a message that holds the opening
//! and the closing delimiter with something between them is math, and is
//! typeset with each delimiter turned into a dollar sign.

use vstd::prelude::*;
use vstd::string::*;
use crate::config::{TYPST_CLOSE_DELIM, TYPST_OPEN_DELIM};
use crate::discord::opt_view;
use crate::pattern::{escape, escaped, pattern_found, search};
use crate::text::{replace, replaced};

verus! {

/// The expression that matches a message with delimited math in it: the
/// opening delimiter, at least one character that is no white space, and
/// the closing delimiter, wherever they stand.
pub open spec fn delimiter_pattern() -> Seq<char> {
    "(?s).*"@ + escaped(TYPST_OPEN_DELIM@) + ".*\\S+.*"@ + escaped(TYPST_CLOSE_DELIM@) + ".*"@
}

/// `msg` with each delimiter turned into a dollar sign, the opening ones
/// first.
pub open spec fn undelimited(msg: Seq<char>) -> Seq<char> {
    replaced(replaced(msg, TYPST_OPEN_DELIM@, "$"@), TYPST_CLOSE_DELIM@, "$"@)
}

/// What is typeset for `msg`, given what the delimiter pattern found in
/// it.
pub open spec fn caught(msg: Seq<char>, found: Option<bool>) -> Option<Seq<char>> {
    if found == Some(true) {
        Some(undelimited(msg))
    } else {
        None
    }
}

/// The expression that matches a message with delimited math in it.
pub fn pattern() -> (text: String)
    ensures
        text@ == delimiter_pattern(),
{
    let mut text = String::from_str("(?s).*");
    text.append(escape(TYPST_OPEN_DELIM).as_str());
    text.append(".*\\S+.*");
    text.append(escape(TYPST_CLOSE_DELIM).as_str());
    text.append(".*");
    text
}

/// What is typeset for `msg` once the delimiter pattern has been tried on
/// it.
pub fn typst_message_from(msg: &str, found: Option<bool>) -> (source: Option<String>)
    ensures
        opt_view(source) == caught(msg@, found),
{
    match found {
        Some(true) => {
            proof {
                reveal_strlit("<.");
                reveal_strlit(".>");
            }
            let opened = replace(msg, TYPST_OPEN_DELIM, "$");
            Some(replace(opened.as_str(), TYPST_CLOSE_DELIM, "$"))
        },
        _ => None,
    }
}

/// Returns `None` if a message is not identifiable as math. If it is, the
/// cleaned message suitable for rendering is returned instead.
pub fn catch_typst_message(msg: &str) -> (source: Option<String>)
    ensures
        opt_view(source) == caught(msg@, pattern_found(delimiter_pattern(), false, msg@)),
{
    let expression = pattern();
    let found = search(expression.as_str(), false, msg);
    typst_message_from(msg, found)
}

} // verus!
