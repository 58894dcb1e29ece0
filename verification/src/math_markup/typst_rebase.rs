//! A leaner preamble, for typesetting with the chemistry package alone.
//!
//! Files are held and looked up as in [`crate::math_markup::typst_base`].

use vstd::prelude::*;
use vstd::string::*;
use crate::math_markup::typst_base::{PAGE_SIZE, TEXT_OPTIONS, THEME};

verus! {

/// The package that every message may use.
pub const IMPORTS: &'static str = "\n            #import \"@preview/whalogen:0.1.0\": *\n        ";

/// Shorthands for math.
pub const MATH_REMAINING: &'static str = "\n            #let infty = [#sym.infinity];\n\n            #let di = [#math.dif i];\n            #let du = [#math.dif u];\n            #let dr = [#math.dif r];\n            #let ds = [#math.dif s];\n            #let dt = [#math.dif t];\n            #let dx = [#math.dif x];\n            #let dx = [#math.dif x];\n            #let dy = [#math.dif y];\n            #let dz = [#math.dif z];\n\n            #let int = [#sym.integral]\n            #let iint = [#sym.integral.double]\n            #let infty = [#sym.infinity]\n\n            #let mathbox(content) = {\n              style(styles => {\n                let size = measure(content, styles);\n                block(\n                    radius: 0.2em,\n                    stroke: fg,\n                    inset: size.height / 1.5,\n                    content)})\n            };\n        ";

/// The preamble: imports, theme, page size, text options and shorthands,
/// in this order.
pub open spec fn preamble_text() -> Seq<char> {
    IMPORTS@ + THEME@ + PAGE_SIZE@ + TEXT_OPTIONS@ + MATH_REMAINING@
}

/// What the typesetter needs apart from the source.
pub struct WithoutSource {}

impl WithoutSource {
    /// The preamble that is put before every source.
    pub fn preamble() -> (text: String)
        ensures
            text@ == preamble_text(),
    {
        let mut text = String::from_str(IMPORTS);
        text.append(THEME);
        text.append(PAGE_SIZE);
        text.append(TEXT_OPTIONS);
        text.append(MATH_REMAINING);
        text
    }
}

/// The text that is typeset for `source`: the preamble followed by the
/// source.
pub fn with_source(source: &str) -> (text: String)
    ensures
        text@ == preamble_text() + source@,
{
    let mut text = WithoutSource::preamble();
    text.append(source);
    text
}

} // verus!
