//! Math markup inside messages: which markup a user prefers, how a message
//! is recognised as math, and what is handed to the typesetter.

pub mod preferred_markup;
pub mod typst_base;
pub mod typst_main;
pub mod typst_rebase;
