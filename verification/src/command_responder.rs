//! Replies that a command hands back.

use vstd::prelude::*;
use vstd::string::*;

verus! {

/// A reply that is one piece of text.
#[derive(Debug, Clone, Default)]
pub struct StringContent {
    content: String,
}

impl View for StringContent {
    type V = Seq<char>;

    closed spec fn view(&self) -> Seq<char> {
        self.content@
    }
}

impl StringContent {
    /// The reply whose text is `content`.
    pub fn new(content: &str) -> (made: Self)
        ensures
            made@ == content@,
    {
        Self { content: String::from_str(content) }
    }

    /// The text to put into the message that answers the command.
    pub fn response(&self) -> (text: &str)
        ensures
            text@ == self@,
    {
        self.content.as_str()
    }
}

} // verus!
