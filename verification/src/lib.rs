//! Reply logic of a chat bot: message classification, reputation
//! bookkeeping, and the formatting of dictionary, weather, translation,
//! encyclopedia and math-rendering replies.

pub mod ask;
pub mod command_responder;
pub mod config;
pub mod dictionary;
pub mod discord;
pub mod geolocation;
pub mod math_markup;
pub mod message_filter;
pub mod message_handler;
pub mod pattern;
pub mod poetry;
pub mod rep;
pub mod request;
pub mod say;
pub mod set;
pub mod text;
pub mod trace_moe;
pub mod translate;
pub mod typst_base;
pub mod typst_eqtn;
pub mod typst_main;
pub mod weather;
pub mod wiki;
