//! Recognising math in a message and preparing it for the typesetter.

use vstd::prelude::*;
use vstd::string::*;
use crate::discord::opt_view;
use crate::math_markup::preferred_markup::MathMarkup;
use crate::pattern::{pattern_found, search};
use crate::text::{contains, has_substring};

verus! {

/// Matches a message in which two dollar signs enclose at least one
/// character.
pub const MATH_PATTERN: &'static str = "(?s).*\\$.+\\$.*";

/// Matches a message in which two dollar signs enclose a backslash followed
/// by a capital S.
pub const LATEX_PATTERN: &'static str = "(?s).*\\$.*\\\\S.*\\$.*";

/// The name of the file under which a rendered picture is attached.
pub const RENDERED_FILE: &'static str = "Rendered.png";

/// What is typeset for `msg`, given what the math pattern found in it: the
/// whole message if it holds the chemistry command or the pattern matched,
/// else nothing.
pub open spec fn caught(msg: Seq<char>, found: Option<bool>) -> Option<Seq<char>> {
    if contains(msg, "#ce"@) || found == Some(true) {
        Some(msg)
    } else {
        None
    }
}

/// `msg` wrapped into the typesetter's command that reads LaTeX.
pub open spec fn latex_wrapped(msg: Seq<char>) -> Seq<char> {
    "#mitext(`\n"@ + msg + "\n`)"@
}

/// The markup that a message is taken to be in, given what the LaTeX
/// pattern found in it.
pub open spec fn guessed_markup(found: Option<bool>) -> MathMarkup {
    if found == Some(true) {
        MathMarkup::Latex
    } else {
        MathMarkup::Typst
    }
}

/// The markup in which `msg` is read: the stored preference, or a guess.
pub open spec fn markup_in_effect(stored: Option<MathMarkup>, found: Option<bool>) -> MathMarkup {
    match stored {
        Some(m) => m,
        None => guessed_markup(found),
    }
}

/// What is handed to the typesetter for `msg` read as `markup`.
pub open spec fn typeset_source(msg: Seq<char>, markup: MathMarkup) -> Seq<char> {
    match markup {
        MathMarkup::Typst => msg,
        MathMarkup::Latex => latex_wrapped(msg),
    }
}

/// The math rendering mode of an equation.
#[derive(Debug, Clone, Copy, Hash, Eq, PartialEq, Structural)]
pub enum RenderMode {
    Display,
    Inline,
}

impl Default for RenderMode {
    fn default() -> (mode: Self)
        ensures
            mode == RenderMode::Display,
    {
        RenderMode::Display
    }
}

/// `code` between dollar signs: set apart by spaces for display, tight for
/// inline; display where no mode is given.
pub open spec fn equation_source(display: Option<RenderMode>, code: Seq<char>) -> Seq<char> {
    match display {
        Some(RenderMode::Inline) => "$"@ + code + "$"@,
        _ => "$ "@ + code + " $"@,
    }
}

/// `code` between backticks.
pub open spec fn quoted_code(code: Seq<char>) -> Seq<char> {
    "`"@ + code + "`"@
}

/// What is typeset for `msg` once the math pattern has been tried on it.
pub fn typst_message_from(msg: &str, found: Option<bool>) -> (source: Option<String>)
    ensures
        opt_view(source) == caught(msg@, found),
{
    if has_substring(msg, "#ce") {
        return Some(String::from_str(msg));
    }
    match found {
        Some(true) => Some(String::from_str(msg)),
        _ => None,
    }
}

/// Returns `None` if a message is not identifiable as math. If it is, the
/// message is returned as the text to typeset.
pub fn catch_typst_message(msg: &str) -> (source: Option<String>)
    ensures
        opt_view(source) == caught(msg@, pattern_found(MATH_PATTERN@, false, msg@)),
{
    let found = search(MATH_PATTERN, false, msg);
    typst_message_from(msg, found)
}

/// Wraps LaTeX into the typesetter's command that reads it.
pub fn latex2typst(msg: &str) -> (source: String)
    ensures
        source@ == latex_wrapped(msg@),
{
    let mut source = String::from_str("#mitext(`\n");
    source.append(msg);
    source.append("\n`)");
    source
}

/// The markup guessed once the LaTeX pattern has been tried on a message.
pub fn markup_from(found: Option<bool>) -> (markup: MathMarkup)
    ensures
        markup == guessed_markup(found),
{
    match found {
        Some(true) => MathMarkup::Latex,
        _ => MathMarkup::Typst,
    }
}

/// Guesses whether a message is LaTeX or not.
pub fn latex_or_typst(msg: &str) -> (markup: MathMarkup)
    ensures
        markup == guessed_markup(pattern_found(LATEX_PATTERN@, false, msg@)),
{
    markup_from(search(LATEX_PATTERN, false, msg))
}

/// What is handed to the typesetter for `msg` read as `markup`.
pub fn source_for(msg: &str, markup: MathMarkup) -> (source: String)
    ensures
        source@ == typeset_source(msg@, markup),
{
    match markup {
        MathMarkup::Typst => String::from_str(msg),
        MathMarkup::Latex => latex2typst(msg),
    }
}

/// What is handed to the typesetter for `msg`, written by a user whose
/// stored preference is `stored`.
pub fn render_math(msg: &str, stored: Option<MathMarkup>) -> (source: String)
    ensures
        source@ == typeset_source(
            msg@,
            markup_in_effect(stored, pattern_found(LATEX_PATTERN@, false, msg@)),
        ),
{
    let markup = match stored {
        Some(m) => m,
        None => latex_or_typst(msg),
    };
    source_for(msg, markup)
}

/// The text that accompanies the picture of rendered `code`.
pub fn render(code: &str) -> (content: String)
    ensures
        content@ == quoted_code(code@),
{
    let mut content = String::from_str("`");
    content.append(code);
    content.append("`");
    content
}

/// The source of an equation: `code` between dollar signs.
pub fn equation(display: Option<RenderMode>, code: &str) -> (source: String)
    ensures
        source@ == equation_source(display, code@),
{
    let mode = match display {
        Some(m) => m,
        None => RenderMode::default(),
    };
    match mode {
        RenderMode::Display => {
            let mut source = String::from_str("$ ");
            source.append(code);
            source.append(" $");
            source
        },
        RenderMode::Inline => {
            let mut source = String::from_str("$");
            source.append(code);
            source.append("$");
            source
        },
    }
}

} // verus!
