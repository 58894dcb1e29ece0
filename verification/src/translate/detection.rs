//! Language detection, with an eye towards identifying non-English text
//! while avoiding spurious answers to slang, links and numbers.
//!
//! The detector itself works on confidences that are not whole numbers and
//! runs outside this library. It is given the text that
//! [`filter_for_language_detection`] leaves, and what it finds is judged by
//! [`detect_language`].

use vstd::prelude::*;
use vstd::string::*;
use vstd::utf8::encode_utf8;
use crate::pattern::{pattern_replaced, replace_all};
use crate::text::chars_of;
use crate::translate::available_langs::Language;

verus! {

/// Matches web addresses.
pub const URL_PATTERN: &'static str =
    "((https?|ftp|smtp):\\/\\/)?(www.)?[a-z0-9]+\\.[a-z]+(\\/[a-zA-Z0-9#?=]+\\/?)*";

/// Matches custom emojis as the platform writes them.
pub const EMOJI_PATTERN: &'static str = "<a?:\\w+:\\d+>";

/// A detection is only trusted on text longer than this many bytes.
pub const MIN_LENGTH: usize = 30;

/// Whether `c` is a numeric character, as `char::is_numeric` tells.
pub uninterp spec fn is_numeric(c: char) -> bool;

/// `char::is_numeric`, which tells whether a character belongs to one of
/// the numeric categories of Unicode. The contract only names the answer.
#[verifier::external_body]
fn numeric(c: char) -> (answer: bool)
    ensures
        answer == is_numeric(c),
{
    c.is_numeric()
}

/// `text` without what `pattern` matches in it, letters compared without
/// regard to case; `text` itself where the pattern is no valid expression.
pub open spec fn without(pattern: Seq<char>, text: Seq<char>) -> Seq<char> {
    match pattern_replaced(pattern, true, text, Seq::empty()) {
        Some(rest) => rest,
        None => text,
    }
}

/// `msg` without web addresses and, after that, without custom emojis.
pub open spec fn filtered(msg: Seq<char>) -> Seq<char> {
    without(EMOJI_PATTERN@, without(URL_PATTERN@, msg))
}

/// How many characters of `text` are numeric.
pub open spec fn numeric_count(text: Seq<char>) -> nat
    decreases text.len(),
{
    if text.len() == 0 {
        0
    } else if is_numeric(text.last()) {
        numeric_count(text.drop_last()) + 1
    } else {
        numeric_count(text.drop_last())
    }
}

/// Whether at least three in ten of `total` characters are numeric.
pub open spec fn mostly_numeric(numeric: nat, total: nat) -> bool {
    total > 0 && 10 * numeric >= 3 * total
}

/// The verdict on a detection: the best language is accepted unless the
/// text is heavily numeric, English is about as likely, or the text is
/// short.
pub open spec fn verdict(
    numeric: nat,
    total: nat,
    bytes: nat,
    best: Language,
    english_is_weak: bool,
) -> Option<Language> {
    if mostly_numeric(numeric, total) {
        None
    } else if english_is_weak && bytes > MIN_LENGTH {
        Some(best)
    } else {
        None
    }
}

/// Removes from `text` what `pattern` matches, without regard to case.
pub fn strip(pattern: &str, text: &str) -> (rest: String)
    ensures
        rest@ == without(pattern@, text@),
{
    proof {
        reveal_strlit("");
        assert(""@ =~= Seq::<char>::empty());
    }
    match replace_all(pattern, true, text, "") {
        Some(rest) => rest,
        None => String::from_str(text),
    }
}

/// Filters out web addresses and emojis from text to make it easier to
/// detect language.
pub fn filter_for_language_detection(msg: &str) -> (rest: String)
    ensures
        rest@ == filtered(msg@),
{
    let without_urls = strip(URL_PATTERN, msg);
    strip(EMOJI_PATTERN, without_urls.as_str())
}

/// Counts the numeric characters of `text`.
pub fn count_numeric(text: &str) -> (count: usize)
    ensures
        count == numeric_count(text@),
{
    let chars = chars_of(text);
    let mut count: usize = 0;
    let mut i: usize = 0;
    while i < chars.len()
        invariant
            i <= chars.len(),
            count <= i,
            count == numeric_count(chars@.take(i as int)),
        decreases chars.len() - i,
    {
        assert(chars@.take(i + 1).drop_last() == chars@.take(i as int));
        if numeric(chars[i]) {
            count += 1;
        }
        i += 1;
    }
    assert(chars@.take(chars.len() as int) == chars@);
    count
}

/// The verdict on a detection, from the counts of the text it ran on:
/// `numeric` of its `total` characters are numeric, and it takes `bytes`
/// bytes.
pub fn language_verdict(
    numeric: usize,
    total: usize,
    bytes: usize,
    best: Language,
    english_is_weak: bool,
) -> (lang: Option<Language>)
    ensures
        lang == verdict(numeric as nat, total as nat, bytes as nat, best, english_is_weak),
{
    let share: u128 = 10 * (numeric as u128);
    let bound: u128 = 3 * (total as u128);
    if total > 0 && share >= bound {
        None
    } else if english_is_weak && bytes > MIN_LENGTH {
        Some(best)
    } else {
        None
    }
}

/// Given the filtered text of a message and what the detector made of it,
/// says whether a language was detected with sufficient certainty and, if
/// so, which. `best` is the language that the detector ranks first, and
/// `english_is_weak` tells whether five times the confidence in English
/// is still no more than the confidence in `best`.
pub fn detect_language(text: &str, best: Language, english_is_weak: bool) -> (lang: Option<
    Language,
>)
    ensures
        lang == verdict(
            numeric_count(text@),
            text@.len(),
            encode_utf8(text@).len(),
            best,
            english_is_weak,
        ),
{
    let numeric = count_numeric(text);
    let total = text.unicode_len();
    let bytes = text.as_bytes().len();
    language_verdict(numeric, total, bytes, best, english_is_weak)
}

/// Nothing is detected in an empty text, and nothing where English is
/// about as likely as the best language.
pub proof fn lemma_no_verdict_without_evidence(
    numeric: nat,
    total: nat,
    bytes: nat,
    best: Language,
    english_is_weak: bool,
)
    ensures
        bytes <= MIN_LENGTH ==> verdict(numeric, total, bytes, best, english_is_weak) is None,
        !english_is_weak ==> verdict(numeric, total, bytes, best, english_is_weak) is None,
        verdict(numeric, total, bytes, best, english_is_weak) matches Some(lang) ==> lang == best,
{
}

} // verus!
