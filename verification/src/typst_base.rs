//! The look of typeset pictures, choice by choice: each choice
//! contributes its lines to the preamble.

use vstd::prelude::*;
use vstd::string::*;
use crate::text::{flattened, views};

verus! {

/// The lines that set the page size.
pub const AUTO_PAGE: &'static str = "#set page(width: auto, height: auto, margin: 10pt)\n";

/// The lines that set the colours of the dark theme.
pub const DARK_THEME: &'static str = "\n#let fg = rgb(219, 222, 225)\n#let bg = rgb(49, 51, 56)";

/// The lines that every preamble ends with: the fonts, the colours in
/// use, and shorthands for math.
pub const COMMON: &'static str = "\n#set text(\n  font: (\n    \"EB Garamond 12\",\n    \"DejaVu Sans Mono\"\n  ),\n  size: 18pt,\n  number-type: \"lining\",\n  number-width: \"tabular\",\n  weight: \"regular\",\n);\n// set a size that more closely approximates the zoom-in on Discord\n\n\n// Preamble starts here\n\n#set page(\n  fill: bg\n)\n#set text(\n  fill: fg,\n)\n\n#let infty = [#sym.infinity];\n\n#let dx = [#math.dif x];\n#let dy = [#math.dif y];\n#let dz = [#math.dif z];\n\n#let int = [#sym.integral]\n#let infty = [#sym.infinity]\n\n#let mathbox(content) = {\n  style(styles => {\n    let size = measure(content, styles);\n      block(\n        radius: 0.2em,\n        stroke: fg,\n        inset: size.height / 1.5,\n        content)})\n};";

/// What is shown before the findings of the typesetter.
pub const SYNTAX_ERRORS: &'static str = "Syntax error(s):\n";

/// Something that contributes lines to the preamble.
pub trait Preamble {
    /// The lines contributed.
    spec fn preamble_text(&self) -> Seq<char>;

    /// The lines contributed.
    fn preamble(&self) -> (text: String)
        ensures
            text@ == self.preamble_text(),
    ;
}

/// The size of the page.
#[derive(Debug, Clone, Copy, PartialEq, Eq)]
pub enum PageSize {
    /// As large as what is on the page.
    Auto,
}

impl Preamble for PageSize {
    open spec fn preamble_text(&self) -> Seq<char> {
        AUTO_PAGE@
    }

    fn preamble(&self) -> (text: String) {
        match self {
            PageSize::Auto => String::from_str(AUTO_PAGE),
        }
    }
}

/// The colours of the page.
#[derive(Debug, Clone, Copy, PartialEq, Eq)]
pub enum Theme {
    /// Light text on a dark ground.
    Dark,
}

impl Preamble for Theme {
    open spec fn preamble_text(&self) -> Seq<char> {
        DARK_THEME@
    }

    fn preamble(&self) -> (text: String) {
        match self {
            Theme::Dark => String::from_str(DARK_THEME),
        }
    }
}

/// The choices that make up the look of a page.
#[derive(Debug, Clone, Copy, PartialEq, Eq)]
pub struct CustomisePage {
    pub page_size: PageSize,
    pub theme: Theme,
}

impl Preamble for CustomisePage {
    open spec fn preamble_text(&self) -> Seq<char> {
        self.page_size.preamble_text() + self.theme.preamble_text()
    }

    fn preamble(&self) -> (text: String) {
        let mut text = self.page_size.preamble();
        text.append(self.theme.preamble().as_str());
        text
    }
}

/// What every rendering shares.
#[derive(Debug, Clone, Copy, PartialEq, Eq)]
pub struct TypstEssentials {
    choices: CustomisePage,
}

impl TypstEssentials {
    /// The choices in effect.
    pub closed spec fn choices(&self) -> CustomisePage {
        self.choices
    }

    /// The essentials with an automatic page size and the dark theme.
    pub fn new() -> (made: Self)
        ensures
            made.preamble_text() == AUTO_PAGE@ + DARK_THEME@ + COMMON@,
    {
        TypstEssentials { choices: CustomisePage { page_size: PageSize::Auto, theme: Theme::Dark } }
    }
}

impl Preamble for TypstEssentials {
    open spec fn preamble_text(&self) -> Seq<char> {
        self.choices().preamble_text() + COMMON@
    }

    fn preamble(&self) -> (text: String) {
        let mut text = self.choices.preamble();
        text.append(COMMON);
        text
    }
}

/// A source for the typesetter: a text and the path under which it is
/// known.
#[derive(Debug, Clone, PartialEq, Eq)]
pub struct Source {
    pub path: String,
    pub text: String,
}

/// The source that holds the text `source`, known under the root path.
pub fn string2source(source: String) -> (made: Source)
    ensures
        made.path@ == "/"@,
        made.text@ == source@,
{
    Source { path: String::from_str("/"), text: source }
}

/// The hours by which the date is shifted from UTC: `offset`, or 0 where
/// none is given. `None` where the hours do not fit into a signed byte.
pub open spec fn offset_hours(offset: Option<i64>) -> Option<i8> {
    let hours: i64 = match offset {
        Some(h) => h,
        None => 0,
    };
    if -128 <= hours <= 127 {
        Some(hours as i8)
    } else {
        None
    }
}

/// The hours by which the date that the typesetter asks for is shifted
/// from UTC.
pub fn today_offset(offset: Option<i64>) -> (hours: Option<i8>)
    ensures
        hours == offset_hours(offset),
{
    let given: i64 = match offset {
        Some(h) => h,
        None => 0,
    };
    if -128 <= given && given <= 127 {
        Some(given as i8)
    } else {
        None
    }
}

/// Why a source could not be rendered.
#[derive(Debug, Clone, PartialEq, Eq)]
pub enum RenderErrors {
    /// The typesetter found fault with the source; each finding is given
    /// by its message.
    SourceError(Vec<String>),
    /// The typesetter made no page.
    NoPageError,
    /// The page is too big to be made into a picture.
    PageSizeTooBig,
}

/// What a [`RenderErrors`] holds, as mathematical values.
pub enum RenderErrorsView {
    SourceError(Seq<Seq<char>>),
    NoPageError,
    PageSizeTooBig,
}

impl View for RenderErrors {
    type V = RenderErrorsView;

    open spec fn view(&self) -> RenderErrorsView {
        match self {
            RenderErrors::SourceError(found) => RenderErrorsView::SourceError(views(found@)),
            RenderErrors::NoPageError => RenderErrorsView::NoPageError,
            RenderErrors::PageSizeTooBig => RenderErrorsView::PageSizeTooBig,
        }
    }
}

/// Each of `messages` on a line of its own.
pub open spec fn lines_of(messages: Seq<Seq<char>>) -> Seq<char> {
    flattened(messages.map_values(|m: Seq<char>| m + "\n"@))
}

/// The error in words.
pub open spec fn error_text(error: RenderErrorsView) -> Seq<char> {
    match error {
        RenderErrorsView::SourceError(found) => SYNTAX_ERRORS@ + lines_of(found),
        RenderErrorsView::NoPageError => "No pages found..."@,
        RenderErrorsView::PageSizeTooBig => "Page too big..."@,
    }
}

impl RenderErrors {
    /// The error in words, as it is shown to the user.
    pub fn message(&self) -> (text: String)
        ensures
            text@ == error_text(self@),
    {
        match self {
            RenderErrors::NoPageError => String::from_str("No pages found..."),
            RenderErrors::PageSizeTooBig => String::from_str("Page too big..."),
            RenderErrors::SourceError(found) => {
                let mut text = String::from_str(SYNTAX_ERRORS);
                let mut i: usize = 0;
                assert(views(found@).take(0).map_values(|m: Seq<char>| m + "\n"@) =~= Seq::empty());
                while i < found.len()
                    invariant
                        i <= found.len(),
                        text@ == SYNTAX_ERRORS@ + lines_of(views(found@).take(i as int)),
                    decreases found.len() - i,
                {
                    proof {
                        let seen = views(found@).take(i + 1).map_values(|m: Seq<char>| m + "\n"@);
                        let before = views(found@).take(i as int).map_values(
                            |m: Seq<char>| m + "\n"@,
                        );
                        assert(seen.drop_last() =~= before);
                        assert(seen.last() == found@[i as int]@ + "\n"@);
                    }
                    text.append(found[i].as_str());
                    text.append("\n");
                    i += 1;
                }
                assert(views(found@).take(found.len() as int) == views(found@));
                text
            },
        }
    }
}

} // verus!
