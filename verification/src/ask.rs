//! Gives very real, totally-not-random responses to any yes-or-no question
//! your heart desires.

use rand::Rng;
use vstd::prelude::*;
use vstd::string::*;
use crate::text::{replace, replaced, same_text};

verus! {

/// The answers, from the most to the least encouraging.
pub const CHOICES: [&'static str; 20] = [
    "It is certain.",
    "It is decidedly so.",
    "Without a doubt.",
    "Yes, definitely.",
    "You may rely on it.",
    "As I see it, yes.",
    "Most likely.",
    "Outlook good.",
    "Yes.",
    "Signs point to yes.",
    "Reply hazy, try again...",
    "Ask again later...",
    "Better not tell you now!",
    "Cannot predict now...",
    "Concentrate and ask again.",
    "Don't count on it.",
    "My reply is no.",
    "My sources say no.",
    "Outlook not so good.",
    "Very doubtful.",
];

/// The response to `question` with the answer `choice`. Where the command
/// came with the prefix `/`, the question is not on screen, so it is
/// quoted above the answer.
pub open spec fn response(prefix: Seq<char>, question: Seq<char>, choice: Seq<char>) -> Seq<char> {
    if prefix == "/"@ {
        "> "@ + replaced(question, "\n"@, "\n>"@) + "\n\n"@ + choice
    } else {
        choice
    }
}

/// `gen_range` of `rand`'s thread-local generator on `0..bound`: some
/// number below `bound`. Which one is not stated. The generator is seeded
/// by the system on first use.
#[verifier::external_body]
fn pick(bound: usize) -> (index: usize)
    requires
        bound > 0,
    ensures
        index < bound,
{
    rand::thread_rng().gen_range(0..bound)
}

/// The response to `question` with the answer numbered `index`.
pub fn respond(prefix: &str, question: &str, index: usize) -> (reply: String)
    requires
        index < 20,
    ensures
        reply@ == response(prefix@, question@, CHOICES[index as int]@),
{
    let choice: &str = CHOICES[index];
    if same_text(prefix, "/") {
        proof {
            reveal_strlit("\n");
        }
        let mut reply = String::from_str("> ");
        reply.append(replace(question, "\n", "\n>").as_str());
        reply.append("\n\n");
        reply.append(choice);
        reply
    } else {
        String::from_str(choice)
    }
}

/// Answers `question` with one of the answers, chosen at random.
pub fn ask(prefix: &str, question: &str) -> (reply: String)
    ensures
        exists|index: int|
            0 <= index < 20 && reply@ == response(prefix@, question@, #[trigger] CHOICES[index]@),
{
    let index = pick(20);
    let reply = respond(prefix, question, index);
    assert(reply@ == response(prefix@, question@, CHOICES[index as int]@));
    reply
}

} // verus!
