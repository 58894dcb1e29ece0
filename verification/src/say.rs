//! Echoing text, plainly or in mocking case.

use vstd::prelude::*;
use vstd::string::*;
use crate::text::{ascii_upper, chars_of, push_char, to_ascii_upper};

verus! {

/// `message` with every second character, counting from the second, in
/// upper case.
pub open spec fn mocked(message: Seq<char>) -> Seq<char> {
    Seq::new(
        message.len(),
        |i: int|
            if i % 2 == 0 {
                message[i]
            } else {
                ascii_upper(message[i])
            },
    )
}

/// Puts `message` into mocking case.
pub fn mocking_case(message: &str) -> (out: String)
    ensures
        out@ == mocked(message@),
{
    let chars = chars_of(message);
    let mut out = String::new();
    let mut i: usize = 0;
    while i < chars.len()
        invariant
            i <= chars.len(),
            chars@ == message@,
            out@ == mocked(message@).take(i as int),
        decreases chars.len() - i,
    {
        let c = if i % 2 == 0 {
            chars[i]
        } else {
            to_ascii_upper(chars[i])
        };
        push_char(&mut out, c);
        assert(out@ =~= mocked(message@).take(i + 1));
        i += 1;
    }
    assert(mocked(message@).take(chars.len() as int) =~= mocked(message@));
    out
}

/// Mocking case keeps the length, and leaves text without lower-case ASCII
/// letters as it is.
pub proof fn lemma_mocked_length(message: Seq<char>)
    ensures
        mocked(message).len() == message.len(),
        (forall|i: int| 0 <= i < message.len() ==> !('a' <= #[trigger] message[i] <= 'z'))
            ==> mocked(message) == message,
{
    if forall|i: int| 0 <= i < message.len() ==> !('a' <= #[trigger] message[i] <= 'z') {
        assert(mocked(message) =~= message);
    }
}

} // verus!
