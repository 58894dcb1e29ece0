//! Message filtering logic: which kind of answer, if any, a message calls
//! for.
//!
//! Two things that a verdict may depend on cannot be read off the message:
//! whether it mentions the bot itself, and which language it is written in.
//! [`get_message_type`] asks for each only when the verdict hangs on it; the
//! caller finds it out, records it in [`Findings`] and asks again.

use vstd::prelude::*;
use crate::math_markup::typst_main::{catch_typst_message, caught, MATH_PATTERN};
use crate::pattern::{is_match, pattern_found};
use crate::translate::available_langs::Language;

verus! {

/// Matches a word of thanks standing on its own.
pub const THANK_RE_PATTERN: &'static str = "(?:^|\\b)(?:than(?:k|x|ks)|tysm|ty)(?:$|\\b)";

/// Matches praise.
pub const GOOD_RE_PATTERN: &'static str = "(?:good|nice|awesome) (?:bot|job|work)";

/// Matches blame.
pub const BAD_RE_PATTERN: &'static str = "bad\\b";

/// The kinds of message that prompt a response, and the two that do not.
#[derive(Debug, Clone, PartialEq, Eq)]
pub enum MessageType {
    BotMessage,
    Thank,
    GoodNano,
    BadNano,
    /// Math to typeset, with the text to hand to the typesetter.
    Typst(String),
    /// Text in a language other than English, to be translated.
    Translate(Language),
    Normal,
}

/// What a [`MessageType`] holds, as mathematical values.
pub enum MessageKind {
    BotMessage,
    Thank,
    GoodNano,
    BadNano,
    Typst(Seq<char>),
    Translate(Language),
    Normal,
}

impl View for MessageType {
    type V = MessageKind;

    open spec fn view(&self) -> MessageKind {
        match self {
            MessageType::BotMessage => MessageKind::BotMessage,
            MessageType::Thank => MessageKind::Thank,
            MessageType::GoodNano => MessageKind::GoodNano,
            MessageType::BadNano => MessageKind::BadNano,
            MessageType::Typst(source) => MessageKind::Typst(source@),
            MessageType::Translate(lang) => MessageKind::Translate(*lang),
            MessageType::Normal => MessageKind::Normal,
        }
    }
}

/// What is read off a message when it arrives.
#[derive(Debug, Clone, PartialEq, Eq)]
pub struct Message {
    /// Whether a program wrote it.
    pub author_is_bot: bool,
    /// Whether it mentions any user.
    pub has_mentions: bool,
    /// Its text.
    pub content: String,
}

/// What a [`Message`] holds, as mathematical values.
pub struct MessageView {
    pub author_is_bot: bool,
    pub has_mentions: bool,
    pub content: Seq<char>,
}

impl View for Message {
    type V = MessageView;

    open spec fn view(&self) -> MessageView {
        MessageView {
            author_is_bot: self.author_is_bot,
            has_mentions: self.has_mentions,
            content: self.content@,
        }
    }
}

/// What the caller has found out about a message so far.
#[derive(Debug, Clone, Copy, PartialEq, Eq)]
pub struct Findings {
    /// Whether the message mentions the bot, once that is known.
    pub mentions_me: Option<bool>,
    /// The language detected in the message, once detection has run; the
    /// inner `None` says that no language could be told with confidence.
    pub language: Option<Option<Language>>,
}

/// What the patterns find in a message's text.
#[derive(Debug, Clone, PartialEq, Eq)]
pub struct Matches {
    pub thank: bool,
    pub bad: bool,
    pub good: bool,
    /// The text to typeset, if the message is math.
    pub typst: Option<String>,
}

/// What a [`Matches`] holds, as mathematical values.
pub struct MatchesView {
    pub thank: bool,
    pub bad: bool,
    pub good: bool,
    pub typst: Option<Seq<char>>,
}

impl View for Matches {
    type V = MatchesView;

    open spec fn view(&self) -> MatchesView {
        MatchesView {
            thank: self.thank,
            bad: self.bad,
            good: self.good,
            typst: match self.typst {
                Some(source) => Some(source@),
                None => None,
            },
        }
    }
}

/// The answer of the filter: a verdict, or what must be found out first.
#[derive(Debug, Clone, PartialEq, Eq)]
pub enum Verdict {
    Decided(MessageType),
    AskMentionsMe,
    AskLanguage,
}

/// What a [`Verdict`] holds, as mathematical values.
pub enum VerdictView {
    Decided(MessageKind),
    AskMentionsMe,
    AskLanguage,
}

impl View for Verdict {
    type V = VerdictView;

    open spec fn view(&self) -> VerdictView {
        match self {
            Verdict::Decided(kind) => VerdictView::Decided(kind@),
            Verdict::AskMentionsMe => VerdictView::AskMentionsMe,
            Verdict::AskLanguage => VerdictView::AskLanguage,
        }
    }
}

/// What the patterns find in `content`. Thanks, praise and blame are sought
/// without regard to case.
pub open spec fn matches_in(content: Seq<char>) -> MatchesView {
    MatchesView {
        thank: pattern_found(THANK_RE_PATTERN@, true, content) == Some(true),
        bad: pattern_found(BAD_RE_PATTERN@, true, content) == Some(true),
        good: pattern_found(GOOD_RE_PATTERN@, true, content) == Some(true),
        typst: caught(content, pattern_found(MATH_PATTERN@, false, content)),
    }
}

/// The filter's rules, first match wins:
/// a program's message is never answered; a message that mentions someone
/// and holds thanks is a thank; one that mentions the bot is blame or
/// praise if it holds either, blame first; math is typeset; and text in a
/// language other than English is translated.
pub open spec fn verdict_of(msg: MessageView, found: MatchesView, known: Findings) -> VerdictView {
    if msg.author_is_bot {
        VerdictView::Decided(MessageKind::BotMessage)
    } else if msg.has_mentions && found.thank {
        VerdictView::Decided(MessageKind::Thank)
    } else if msg.has_mentions && known.mentions_me is None {
        VerdictView::AskMentionsMe
    } else if msg.has_mentions && known.mentions_me == Some(true) && found.bad {
        VerdictView::Decided(MessageKind::BadNano)
    } else if msg.has_mentions && known.mentions_me == Some(true) && found.good {
        VerdictView::Decided(MessageKind::GoodNano)
    } else if found.typst is Some {
        VerdictView::Decided(MessageKind::Typst(found.typst->0))
    } else {
        match known.language {
            None => VerdictView::AskLanguage,
            Some(None) => VerdictView::Decided(MessageKind::Normal),
            Some(Some(Language::English)) => VerdictView::Decided(MessageKind::Normal),
            Some(Some(other)) => VerdictView::Decided(MessageKind::Translate(other)),
        }
    }
}

/// Tries the patterns on `content`.
pub fn find_matches(content: &str) -> (found: Matches)
    ensures
        found@ == matches_in(content@),
{
    Matches {
        thank: is_match(THANK_RE_PATTERN, true, content),
        bad: is_match(BAD_RE_PATTERN, true, content),
        good: is_match(GOOD_RE_PATTERN, true, content),
        typst: catch_typst_message(content),
    }
}

/// Applies the filter's rules to what was found in a message.
pub fn decide(msg: &Message, found: Matches, known: Findings) -> (verdict: Verdict)
    ensures
        verdict@ == verdict_of(msg@, found@, known),
{
    if msg.author_is_bot {
        return Verdict::Decided(MessageType::BotMessage);
    }
    if msg.has_mentions {
        if found.thank {
            return Verdict::Decided(MessageType::Thank);
        }
        match known.mentions_me {
            None => {
                return Verdict::AskMentionsMe;
            },
            Some(true) => {
                if found.bad {
                    return Verdict::Decided(MessageType::BadNano);
                }
                if found.good {
                    return Verdict::Decided(MessageType::GoodNano);
                }
            },
            Some(false) => {},
        }
    }
    if let Some(source) = found.typst {
        return Verdict::Decided(MessageType::Typst(source));
    }
    match known.language {
        None => Verdict::AskLanguage,
        Some(None) => Verdict::Decided(MessageType::Normal),
        Some(Some(Language::English)) => Verdict::Decided(MessageType::Normal),
        Some(Some(other)) => Verdict::Decided(MessageType::Translate(other)),
    }
}

/// Determines if the message matches any of the categories that prompt a
/// response, as far as `known` allows, and says what to find out otherwise.
pub fn get_message_type(msg: &Message, known: Findings) -> (verdict: Verdict)
    ensures
        verdict@ == verdict_of(msg@, matches_in(msg@.content), known),
{
    let found = find_matches(msg.content.as_str());
    decide(msg, found, known)
}

/// Once both findings are known, the filter decides.
pub proof fn lemma_known_findings_decide(msg: MessageView, found: MatchesView, known: Findings)
    requires
        known.mentions_me is Some,
        known.language is Some,
    ensures
        verdict_of(msg, found, known) is Decided,
{
}

/// The filter asks whether the bot is mentioned only of a message that
/// mentions someone, and never of one that a program wrote or that thanks.
pub proof fn lemma_asks_mention_only_when_needed(
    msg: MessageView,
    found: MatchesView,
    known: Findings,
)
    requires
        verdict_of(msg, found, known) is AskMentionsMe,
    ensures
        msg.has_mentions,
        !msg.author_is_bot,
        !found.thank,
        known.mentions_me is None,
{
}

/// Finding out more never changes a verdict already given.
pub proof fn lemma_findings_keep_verdict(
    msg: MessageView,
    found: MatchesView,
    before: Findings,
    after: Findings,
)
    requires
        verdict_of(msg, found, before) is Decided,
        before.mentions_me is Some ==> after.mentions_me == before.mentions_me,
        before.language is Some ==> after.language == before.language,
    ensures
        verdict_of(msg, found, after) == verdict_of(msg, found, before),
{
}

} // verus!
