//! Settings shared by the whole bot.

use vstd::prelude::*;

verus! {

/// The number of seconds that must pass between two thanks of one user.
pub const THANK_COOLDOWN: usize = 30;

/// The address of the key-value store.
pub const REDIS_URL: &'static str = "redis://127.0.0.1:1234/";

/// The opening delimiter of math markup inside a message.
pub const TYPST_OPEN_DELIM: &'static str = "<.";

/// The closing delimiter of math markup inside a message.
pub const TYPST_CLOSE_DELIM: &'static str = ".>";

} // verus!
