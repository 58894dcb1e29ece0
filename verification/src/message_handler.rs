//! Message handler functionality.
//!
//! Handling a message takes turns with the outside world: a translation is
//! fetched, math is typeset, replies are sent, edits are awaited. The
//! decisions in between are [`handle_message`]: from where the handling
//! stands and what just happened, it gives what to do next. The caller
//! carries out the action and reports back with the next event.

use vstd::prelude::*;
use vstd::string::*;
use crate::math_markup::typst_main::{catch_typst_message, caught, MATH_PATTERN};
use crate::message_filter::{MessageKind, MessageType};
use crate::pattern::pattern_found;
use crate::translate::available_langs::Language;

verus! {

/// What is sent in answer to praise.
pub const GOOD_REPLY: &'static str = "https://i.imgur.com/bgiANhm.gif";

/// What is sent in answer to blame.
pub const BAD_REPLY: &'static str = "https://c.tenor.com/8QjR5hC91b0AAAAC/nichijou-nano.gif";

/// A translation is only sent if it differs from the message by at least
/// this many single-character changes.
pub const MIN_EDIT_DISTANCE: usize = 6;

/// For how many seconds edits of a typeset message are followed.
pub const EDIT_WINDOW_SECS: u64 = 180;

/// The least of three numbers.
pub open spec fn min3(a: nat, b: nat, c: nat) -> nat {
    if a <= b && a <= c {
        a
    } else if b <= c {
        b
    } else {
        c
    }
}

/// The Levenshtein distance: the least number of insertions, deletions and
/// substitutions of single characters that turn `a` into `b`.
pub open spec fn levenshtein(a: Seq<char>, b: Seq<char>) -> nat
    decreases a.len() + b.len(),
{
    if a.len() == 0 {
        b.len()
    } else if b.len() == 0 {
        a.len()
    } else {
        let change: nat = if a.last() == b.last() {
            0
        } else {
            1
        };
        min3(
            levenshtein(a.drop_last(), b) + 1,
            levenshtein(a, b.drop_last()) + 1,
            levenshtein(a.drop_last(), b.drop_last()) + change,
        )
    }
}

/// `edit_distance::edit_distance`, which the crate documents as the
/// Levenshtein distance between its two arguments, counted in characters.
#[verifier::external_body]
fn distance(a: &str, b: &str) -> (d: usize)
    ensures
        d == levenshtein(a@, b@),
{
    edit_distance::edit_distance(a, b)
}

/// Where the handling of one message stands.
#[derive(Debug, Clone, PartialEq, Eq)]
pub enum HandlerState {
    /// The message has arrived and nothing was done yet.
    Start,
    /// A translation of `content` from `language` was asked for.
    Translating { content: String, language: Language },
    /// `source` was handed to the typesetter for the first time.
    Rendering { source: String },
    /// The reply with the picture, or with the error, is being sent.
    Posting,
    /// Edits of the message are awaited; `previous` is the number of the
    /// picture attached to the reply, 0 if there is none.
    Listening { previous: u64 },
    /// An edit gave `source`, which was handed to the typesetter.
    Rerendering { source: String, previous: u64 },
    /// The reply is being replaced.
    Editing,
    /// Nothing is left to do.
    Finished,
}

/// What a [`HandlerState`] holds, as mathematical values.
pub enum StateView {
    Start,
    Translating { content: Seq<char>, language: Language },
    Rendering { source: Seq<char> },
    Posting,
    Listening { previous: u64 },
    Rerendering { source: Seq<char>, previous: u64 },
    Editing,
    Finished,
}

impl View for HandlerState {
    type V = StateView;

    open spec fn view(&self) -> StateView {
        match self {
            HandlerState::Start => StateView::Start,
            HandlerState::Translating { content, language } => StateView::Translating {
                content: content@,
                language: *language,
            },
            HandlerState::Rendering { source } => StateView::Rendering { source: source@ },
            HandlerState::Posting => StateView::Posting,
            HandlerState::Listening { previous } => StateView::Listening { previous: *previous },
            HandlerState::Rerendering { source, previous } => StateView::Rerendering {
                source: source@,
                previous: *previous,
            },
            HandlerState::Editing => StateView::Editing,
            HandlerState::Finished => StateView::Finished,
        }
    }
}

/// What happened since the last action.
#[derive(Debug, Clone, PartialEq, Eq)]
pub enum HandlerEvent {
    /// The filter has classified the message, whose text is `content`.
    Classified { kind: MessageType, content: String },
    /// The translation service answered with `text`.
    Translated { text: String },
    /// The typesetter gave the picture `image`.
    Rendered { image: Vec<u8> },
    /// The typesetter failed; `error` is its report as text.
    RenderFailed { error: String },
    /// The reply was sent or replaced; `attachment` is the number of its
    /// first attachment, if it has one.
    Posted { attachment: Option<u64> },
    /// The message was edited and now reads `content`.
    Updated { content: String },
    /// No edit came in time.
    Silence,
}

/// What a [`HandlerEvent`] holds, as mathematical values.
pub enum EventView {
    Classified { kind: MessageKind, content: Seq<char> },
    Translated { text: Seq<char> },
    Rendered { image: Seq<u8> },
    RenderFailed { error: Seq<char> },
    Posted { attachment: Option<u64> },
    Updated { content: Seq<char> },
    Silence,
}

impl View for HandlerEvent {
    type V = EventView;

    open spec fn view(&self) -> EventView {
        match self {
            HandlerEvent::Classified { kind, content } => EventView::Classified {
                kind: kind@,
                content: content@,
            },
            HandlerEvent::Translated { text } => EventView::Translated { text: text@ },
            HandlerEvent::Rendered { image } => EventView::Rendered { image: image@ },
            HandlerEvent::RenderFailed { error } => EventView::RenderFailed { error: error@ },
            HandlerEvent::Posted { attachment } => EventView::Posted { attachment: *attachment },
            HandlerEvent::Updated { content } => EventView::Updated { content: content@ },
            HandlerEvent::Silence => EventView::Silence,
        }
    }
}

/// What the caller is to do next.
#[derive(Debug, Clone, PartialEq, Eq)]
pub enum HandlerAction {
    /// Nothing: the handling is over.
    Stop,
    /// Thank the users that the message mentions.
    Thank,
    /// Reply to the message with `text`.
    Reply { text: String },
    /// Ask the service to render `content`, written in `from`, in `to`.
    Translate { content: String, from: Language, to: Language },
    /// Note that the rendering `translation` of `message`, written in
    /// `language`, was too close to the message to be sent.
    NoteTooClose { message: String, language: Language, translation: String },
    /// Typeset the message `source`, written by the message's author.
    Render { source: String },
    /// Send the picture `image` to the channel, attached under the name
    /// of a rendered file.
    SendImage { image: Vec<u8> },
    /// Send `content` to the channel.
    SendText { content: String },
    /// Wait for the next edit of the message, for the length of the edit
    /// window at most.
    Listen,
    /// Replace the reply: drop the attachment `remove`, clear the text and
    /// attach `image`.
    EditImage { remove: u64, image: Vec<u8> },
    /// Replace the reply: drop the attachment `remove` and set the text to
    /// `content`.
    EditText { remove: u64, content: String },
}

/// What a [`HandlerAction`] holds, as mathematical values.
pub enum ActionView {
    Stop,
    Thank,
    Reply { text: Seq<char> },
    Translate { content: Seq<char>, from: Language, to: Language },
    NoteTooClose { message: Seq<char>, language: Language, translation: Seq<char> },
    Render { source: Seq<char> },
    SendImage { image: Seq<u8> },
    SendText { content: Seq<char> },
    Listen,
    EditImage { remove: u64, image: Seq<u8> },
    EditText { remove: u64, content: Seq<char> },
}

impl View for HandlerAction {
    type V = ActionView;

    open spec fn view(&self) -> ActionView {
        match self {
            HandlerAction::Stop => ActionView::Stop,
            HandlerAction::Thank => ActionView::Thank,
            HandlerAction::Reply { text } => ActionView::Reply { text: text@ },
            HandlerAction::Translate { content, from, to } => ActionView::Translate {
                content: content@,
                from: *from,
                to: *to,
            },
            HandlerAction::NoteTooClose {
                message,
                language,
                translation,
            } => ActionView::NoteTooClose {
                message: message@,
                language: *language,
                translation: translation@,
            },
            HandlerAction::Render { source } => ActionView::Render { source: source@ },
            HandlerAction::SendImage { image } => ActionView::SendImage { image: image@ },
            HandlerAction::SendText { content } => ActionView::SendText { content: content@ },
            HandlerAction::Listen => ActionView::Listen,
            HandlerAction::EditImage { remove, image } => ActionView::EditImage {
                remove: *remove,
                image: image@,
            },
            HandlerAction::EditText { remove, content } => ActionView::EditText {
                remove: *remove,
                content: content@,
            },
        }
    }
}

/// What is shown in place of a picture when `source` could not be typeset.
pub open spec fn failure_text(source: Seq<char>, error: Seq<char>) -> Seq<char> {
    "`n"@ + source + "n`\n"@ + error
}

/// The number under which the reply's picture is remembered.
pub open spec fn remembered(attachment: Option<u64>) -> u64 {
    match attachment {
        Some(id) => id,
        None => 0,
    }
}

/// The first step: what a freshly classified message calls for.
pub open spec fn after_classified(kind: MessageKind, content: Seq<char>) -> (StateView, ActionView) {
    match kind {
        MessageKind::Normal => (StateView::Finished, ActionView::Stop),
        MessageKind::BotMessage => (StateView::Finished, ActionView::Stop),
        MessageKind::Thank => (StateView::Finished, ActionView::Thank),
        MessageKind::GoodNano => (StateView::Finished, ActionView::Reply { text: GOOD_REPLY@ }),
        MessageKind::BadNano => (StateView::Finished, ActionView::Reply { text: BAD_REPLY@ }),
        MessageKind::Translate(language) => (
            StateView::Translating { content, language },
            ActionView::Translate { content, from: language, to: Language::English },
        ),
        MessageKind::Typst(source) => (
            StateView::Rendering { source },
            ActionView::Render { source },
        ),
    }
}

/// A translation is sent unless it is too close to the message.
pub open spec fn after_translated(content: Seq<char>, language: Language, text: Seq<char>) -> (
    StateView,
    ActionView,
) {
    if levenshtein(content, text) >= MIN_EDIT_DISTANCE {
        (StateView::Finished, ActionView::Reply { text })
    } else {
        (
            StateView::Finished,
            ActionView::NoteTooClose { message: content, language, translation: text },
        )
    }
}

/// An edit that is math is typeset again; any other edit is passed over.
pub open spec fn after_update(previous: u64, source: Option<Seq<char>>) -> (StateView, ActionView) {
    match source {
        Some(source) => (
            StateView::Rerendering { source, previous },
            ActionView::Render { source },
        ),
        None => (StateView::Listening { previous }, ActionView::Listen),
    }
}

/// The handler's rules. An event that does not belong to the state ends the
/// handling.
pub open spec fn next(state: StateView, event: EventView) -> (StateView, ActionView) {
    match (state, event) {
        (StateView::Start, EventView::Classified { kind, content }) => after_classified(
            kind,
            content,
        ),
        (
            StateView::Translating { content, language },
            EventView::Translated { text },
        ) => after_translated(content, language, text),
        (StateView::Rendering { source }, EventView::Rendered { image }) => (
            StateView::Posting,
            ActionView::SendImage { image },
        ),
        (StateView::Rendering { source }, EventView::RenderFailed { error }) => (
            StateView::Posting,
            ActionView::SendText { content: failure_text(source, error) },
        ),
        (StateView::Posting, EventView::Posted { attachment }) => (
            StateView::Listening { previous: remembered(attachment) },
            ActionView::Listen,
        ),
        (StateView::Editing, EventView::Posted { attachment }) => (
            StateView::Listening { previous: remembered(attachment) },
            ActionView::Listen,
        ),
        (StateView::Listening { previous }, EventView::Updated { content }) => after_update(
            previous,
            caught(content, pattern_found(MATH_PATTERN@, false, content)),
        ),
        (StateView::Rerendering { source, previous }, EventView::Rendered { image }) => (
            StateView::Editing,
            ActionView::EditImage { remove: previous, image },
        ),
        (StateView::Rerendering { source, previous }, EventView::RenderFailed { error }) => (
            StateView::Editing,
            ActionView::EditText { remove: previous, content: failure_text(source, error) },
        ),
        _ => (StateView::Finished, ActionView::Stop),
    }
}

/// The text shown in place of a picture when `source` could not be
/// typeset.
pub fn failure_message(source: &str, error: &str) -> (content: String)
    ensures
        content@ == failure_text(source@, error@),
{
    let mut content = String::from_str("`n");
    content.append(source);
    content.append("n`\n");
    content.append(error);
    content
}

/// What a freshly classified message calls for.
pub fn on_classified(kind: MessageType, content: String) -> (out: (HandlerState, HandlerAction))
    ensures
        (out.0@, out.1@) == after_classified(kind@, content@),
{
    match kind {
        MessageType::Normal => (HandlerState::Finished, HandlerAction::Stop),
        MessageType::BotMessage => (HandlerState::Finished, HandlerAction::Stop),
        MessageType::Thank => (HandlerState::Finished, HandlerAction::Thank),
        MessageType::GoodNano => (
            HandlerState::Finished,
            HandlerAction::Reply { text: String::from_str(GOOD_REPLY) },
        ),
        MessageType::BadNano => (
            HandlerState::Finished,
            HandlerAction::Reply { text: String::from_str(BAD_REPLY) },
        ),
        MessageType::Translate(language) => {
            let asked = content.clone();
            (
                HandlerState::Translating { content, language },
                HandlerAction::Translate { content: asked, from: language, to: Language::English },
            )
        },
        MessageType::Typst(source) => {
            let handed = source.clone();
            (HandlerState::Rendering { source }, HandlerAction::Render { source: handed })
        },
    }
}

/// What the translation `text` of `content` calls for.
pub fn on_translated(content: String, language: Language, text: String) -> (out: (
    HandlerState,
    HandlerAction,
))
    ensures
        (out.0@, out.1@) == after_translated(content@, language, text@),
{
    if distance(content.as_str(), text.as_str()) >= MIN_EDIT_DISTANCE {
        (HandlerState::Finished, HandlerAction::Reply { text })
    } else {
        (
            HandlerState::Finished,
            HandlerAction::NoteTooClose { message: content, language, translation: text },
        )
    }
}

/// What an edit calls for, once it has been tried for math: `source` is
/// what it gives to typeset, if anything.
pub fn on_update(previous: u64, source: Option<String>) -> (out: (HandlerState, HandlerAction))
    ensures
        (out.0@, out.1@) == after_update(
            previous,
            match source {
                Some(s) => Some(s@),
                None => None,
            },
        ),
{
    match source {
        Some(source) => {
            let handed = source.clone();
            (
                HandlerState::Rerendering { source, previous },
                HandlerAction::Render { source: handed },
            )
        },
        None => (HandlerState::Listening { previous }, HandlerAction::Listen),
    }
}

/// Appropriately deals with the different potential message types: gives
/// the state that follows `state` on `event`, and what to do next.
pub fn handle_message(state: HandlerState, event: HandlerEvent) -> (out: (
    HandlerState,
    HandlerAction,
))
    ensures
        (out.0@, out.1@) == next(state@, event@),
{
    match (state, event) {
        (HandlerState::Start, HandlerEvent::Classified { kind, content }) => on_classified(
            kind,
            content,
        ),
        (
            HandlerState::Translating { content, language },
            HandlerEvent::Translated { text },
        ) => on_translated(content, language, text),
        (HandlerState::Rendering { source }, HandlerEvent::Rendered { image }) => (
            HandlerState::Posting,
            HandlerAction::SendImage { image },
        ),
        (HandlerState::Rendering { source }, HandlerEvent::RenderFailed { error }) => (
            HandlerState::Posting,
            HandlerAction::SendText { content: failure_message(source.as_str(), error.as_str()) },
        ),
        (HandlerState::Posting, HandlerEvent::Posted { attachment }) => (
            HandlerState::Listening { previous: first_attachment(attachment) },
            HandlerAction::Listen,
        ),
        (HandlerState::Editing, HandlerEvent::Posted { attachment }) => (
            HandlerState::Listening { previous: first_attachment(attachment) },
            HandlerAction::Listen,
        ),
        (HandlerState::Listening { previous }, HandlerEvent::Updated { content }) => on_update(
            previous,
            catch_typst_message(content.as_str()),
        ),
        (HandlerState::Rerendering { source, previous }, HandlerEvent::Rendered { image }) => (
            HandlerState::Editing,
            HandlerAction::EditImage { remove: previous, image },
        ),
        (
            HandlerState::Rerendering { source, previous },
            HandlerEvent::RenderFailed { error },
        ) => (
            HandlerState::Editing,
            HandlerAction::EditText {
                remove: previous,
                content: failure_message(source.as_str(), error.as_str()),
            },
        ),
        _ => (HandlerState::Finished, HandlerAction::Stop),
    }
}

/// The number under which the reply's picture is remembered: that of its
/// first attachment, or 0 where it has none.
pub fn first_attachment(attachment: Option<u64>) -> (previous: u64)
    ensures
        previous == remembered(attachment),
{
    match attachment {
        Some(id) => id,
        None => 0,
    }
}

/// Once the handling is over, it stays over: nothing more is done.
pub proof fn lemma_finished_stays(event: EventView)
    ensures
        next(StateView::Finished, event) == (StateView::Finished, ActionView::Stop),
{
}

/// The handling stops exactly when it reaches its end.
pub proof fn lemma_stop_means_finished(state: StateView, event: EventView)
    ensures
        next(state, event).0 is Finished <==> (next(state, event).1 is Stop || next(
            state,
            event,
        ).1 is Thank || next(state, event).1 is Reply || next(state, event).1 is NoteTooClose),
{
}

/// A program's message and an ordinary message are never answered.
pub proof fn lemma_quiet_kinds(content: Seq<char>)
    ensures
        after_classified(MessageKind::BotMessage, content).1 is Stop,
        after_classified(MessageKind::Normal, content).1 is Stop,
{
}

/// A message is at distance 0 from itself, so a translation that repeats
/// the message is never sent.
pub proof fn lemma_same_text_not_sent(content: Seq<char>, language: Language)
    ensures
        levenshtein(content, content) == 0,
        after_translated(content, language, content).1 is NoteTooClose,
    decreases content.len(),
{
    if content.len() > 0 {
        lemma_same_text_not_sent(content.drop_last(), language);
    }
}

} // verus!
