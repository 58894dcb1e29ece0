//! Translation: the languages on offer, the detection of a message's
//! language, and the wording of replies.

pub mod available_langs;
pub mod detection;
pub mod translate;
pub mod translation;
