//! The markup that a user wants text between dollar signs to be read as.

use vstd::prelude::*;
use vstd::string::*;
use crate::text::same_text;

verus! {

/// The preferred math markup to use inside dollar signs.
#[derive(Debug, Clone, Copy, Hash, Eq, PartialEq, Structural)]
pub enum MathMarkup {
    Latex,
    Typst,
}

impl Default for MathMarkup {
    fn default() -> (markup: Self)
        ensures
            markup == MathMarkup::Latex,
    {
        MathMarkup::Latex
    }
}

/// The name of the store's table of preferences.
pub const MATH_MARKUP: &'static str = "math_markup";

/// What is reported with a stored value that names no markup.
pub const INVALID_MARKUP: &'static str = "Not valid math markup lang";

/// The word under which `markup` is stored.
pub open spec fn stored_name(markup: MathMarkup) -> Seq<char> {
    match markup {
        MathMarkup::Latex => "latex"@,
        MathMarkup::Typst => "typst"@,
    }
}

/// The markup that the stored word `name` stands for, if any.
pub open spec fn markup_named(name: Seq<char>) -> Option<MathMarkup> {
    if name == "latex"@ {
        Some(MathMarkup::Latex)
    } else if name == "typst"@ {
        Some(MathMarkup::Typst)
    } else {
        None
    }
}

/// The name of `markup` as it is shown to users.
pub open spec fn shown_name(markup: MathMarkup) -> Seq<char> {
    match markup {
        MathMarkup::Latex => "Latex"@,
        MathMarkup::Typst => "Typst"@,
    }
}

/// The reply to a change of preference: a confirmation that names the new
/// preference, or a report of the error that kept it from being stored.
pub open spec fn preference_reply(outcome: Result<(), Seq<char>>, preference: MathMarkup) -> Seq<
    char,
> {
    match outcome {
        Ok(_) => "Success! Your preferred math markup is now "@ + shown_name(preference)
            + ".\nIf you want to disable TeXit's LaTeX rendering, do\nso with `,config latex_level CODEBLOCK.`"@,
        Err(e) => "An error occurred! <-<\nError: "@ + e,
    }
}

impl MathMarkup {
    /// Reads a preference from the word that the store holds. A word that
    /// names no markup is handed back as the error.
    pub fn from_redis_value(v: &str) -> (read: Result<MathMarkup, String>)
        ensures
            match read {
                Ok(markup) => markup_named(v@) == Some(markup),
                Err(given) => markup_named(v@) is None && given@ == v@,
            },
    {
        if same_text(v, "latex") {
            Ok(MathMarkup::Latex)
        } else if same_text(v, "typst") {
            Ok(MathMarkup::Typst)
        } else {
            Err(String::from_str(v))
        }
    }

    /// The word under which the preference is stored.
    pub fn write_redis_args(&self) -> (word: &'static str)
        ensures
            word@ == stored_name(*self),
    {
        match self {
            MathMarkup::Latex => "latex",
            MathMarkup::Typst => "typst",
        }
    }

    /// The name shown to users.
    pub fn display_name(&self) -> (name: &'static str)
        ensures
            name@ == shown_name(*self),
    {
        match self {
            MathMarkup::Latex => "Latex",
            MathMarkup::Typst => "Typst",
        }
    }
}

/// What is read back from the store is what was written.
pub proof fn lemma_stored_name_reads_back(markup: MathMarkup)
    ensures
        markup_named(stored_name(markup)) == Some(markup),
{
    reveal_strlit("latex");
    reveal_strlit("typst");
    assert("latex"@[0] != "typst"@[0]);
}

/// The preference of a user: the stored one, or LaTeX where none is stored.
pub fn get_preferred_markup(stored: Option<MathMarkup>) -> (markup: MathMarkup)
    ensures
        markup == match stored {
            Some(m) => m,
            None => MathMarkup::Latex,
        },
{
    match stored {
        Some(m) => m,
        None => MathMarkup::default(),
    }
}

/// The reply to a user who asked for `preference`, given how storing it
/// went: `Err` carries the store's error as text.
pub fn set_default_math_markup(outcome: Result<(), &str>, preference: MathMarkup) -> (reply:
    String)
    ensures
        reply@ == preference_reply(
            match outcome {
                Ok(_) => Ok(()),
                Err(e) => Err(e@),
            },
            preference,
        ),
{
    match outcome {
        Ok(_) => {
            let mut reply = String::from_str("Success! Your preferred math markup is now ");
            reply.append(preference.display_name());
            reply.append(
                ".\nIf you want to disable TeXit's LaTeX rendering, do\nso with `,config latex_level CODEBLOCK.`",
            );
            reply
        },
        Err(e) => {
            let mut reply = String::from_str("An error occurred! <-<\nError: ");
            reply.append(e);
            reply
        },
    }
}

} // verus!
