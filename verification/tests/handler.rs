use nano::message_filter::MessageType;
use nano::message_handler::{
    failure_message, first_attachment, handle_message, on_classified, on_translated, on_update,
    HandlerAction, HandlerEvent, HandlerState, BAD_REPLY, EDIT_WINDOW_SECS, GOOD_REPLY,
    MIN_EDIT_DISTANCE,
};
use nano::translate::available_langs::Language;

fn classified(kind: MessageType, content: &str) -> HandlerEvent {
    HandlerEvent::Classified { kind, content: content.to_string() }
}

#[test]
fn quiet_kinds_end_the_handling() {
    for kind in [MessageType::Normal, MessageType::BotMessage] {
        assert_eq!(
            handle_message(HandlerState::Start, classified(kind, "hi")),
            (HandlerState::Finished, HandlerAction::Stop)
        );
    }
}

#[test]
fn thanks_praise_and_blame_are_answered_at_once() {
    assert_eq!(
        handle_message(HandlerState::Start, classified(MessageType::Thank, "ty")),
        (HandlerState::Finished, HandlerAction::Thank)
    );
    assert_eq!(
        handle_message(HandlerState::Start, classified(MessageType::GoodNano, "good bot")),
        (
            HandlerState::Finished,
            HandlerAction::Reply { text: "https://i.imgur.com/bgiANhm.gif".to_string() }
        )
    );
    assert_eq!(
        handle_message(HandlerState::Start, classified(MessageType::BadNano, "bad bot")),
        (
            HandlerState::Finished,
            HandlerAction::Reply {
                text: "https://c.tenor.com/8QjR5hC91b0AAAAC/nichijou-nano.gif".to_string()
            }
        )
    );
    assert_eq!(GOOD_REPLY, "https://i.imgur.com/bgiANhm.gif");
    assert_eq!(BAD_REPLY, "https://c.tenor.com/8QjR5hC91b0AAAAC/nichijou-nano.gif");
}

#[test]
fn foreign_text_is_sent_to_be_put_into_english() {
    assert_eq!(
        on_classified(MessageType::Translate(Language::Spanish), "hola mundo".to_string()),
        (
            HandlerState::Translating {
                content: "hola mundo".to_string(),
                language: Language::Spanish
            },
            HandlerAction::Translate {
                content: "hola mundo".to_string(),
                from: Language::Spanish,
                to: Language::English
            }
        )
    );
}

#[test]
fn a_translation_is_sent_from_six_changes_on() {
    assert_eq!(MIN_EDIT_DISTANCE, 6);
    let state = |content: &str| HandlerState::Translating {
        content: content.to_string(),
        language: Language::Spanish,
    };
    let translated = |text: &str| HandlerEvent::Translated { text: text.to_string() };
    assert_eq!(
        handle_message(state("abcdef"), translated("uvwxyz")),
        (HandlerState::Finished, HandlerAction::Reply { text: "uvwxyz".to_string() })
    );
    assert_eq!(
        handle_message(state("abcdef"), translated("")),
        (HandlerState::Finished, HandlerAction::Reply { text: String::new() })
    );
    assert_eq!(
        handle_message(state("abcdef"), translated("abcdeX")),
        (
            HandlerState::Finished,
            HandlerAction::NoteTooClose {
                message: "abcdef".to_string(),
                language: Language::Spanish,
                translation: "abcdeX".to_string()
            }
        )
    );
    assert_eq!(
        on_translated("kitten".to_string(), Language::German, "sitting".to_string()).1,
        HandlerAction::NoteTooClose {
            message: "kitten".to_string(),
            language: Language::German,
            translation: "sitting".to_string()
        }
    );
    assert_eq!(
        on_translated("abcde".to_string(), Language::German, "vwxyz".to_string()).1,
        HandlerAction::NoteTooClose {
            message: "abcde".to_string(),
            language: Language::German,
            translation: "vwxyz".to_string()
        }
    );
}

#[test]
fn distance_is_counted_in_characters_not_bytes() {
    let out = on_translated("äöü".to_string(), Language::German, "aou".to_string());
    assert_eq!(
        out.1,
        HandlerAction::NoteTooClose {
            message: "äöü".to_string(),
            language: Language::German,
            translation: "aou".to_string()
        }
    );
    let far = on_translated("ääääää".to_string(), Language::German, "oooooo".to_string());
    assert_eq!(far.1, HandlerAction::Reply { text: "oooooo".to_string() });
}

#[test]
fn math_is_rendered_then_posted_then_watched() {
    let (state, action) =
        handle_message(HandlerState::Start, classified(MessageType::Typst("$x$".to_string()), "$x$"));
    assert_eq!(state, HandlerState::Rendering { source: "$x$".to_string() });
    assert_eq!(action, HandlerAction::Render { source: "$x$".to_string() });

    let (state, action) = handle_message(state, HandlerEvent::Rendered { image: vec![1, 2, 3] });
    assert_eq!(state, HandlerState::Posting);
    assert_eq!(action, HandlerAction::SendImage { image: vec![1, 2, 3] });

    let (state, action) = handle_message(state, HandlerEvent::Posted { attachment: Some(77) });
    assert_eq!(state, HandlerState::Listening { previous: 77 });
    assert_eq!(action, HandlerAction::Listen);
    assert_eq!(EDIT_WINDOW_SECS, 180);

    let (state, action) = handle_message(state, HandlerEvent::Silence);
    assert_eq!(state, HandlerState::Finished);
    assert_eq!(action, HandlerAction::Stop);
}

#[test]
fn a_failed_rendering_is_posted_as_text() {
    let state = HandlerState::Rendering { source: "$x".to_string() };
    assert_eq!(
        handle_message(state, HandlerEvent::RenderFailed { error: "Error: unclosed".to_string() }),
        (
            HandlerState::Posting,
            HandlerAction::SendText { content: "`n$xn`\nError: unclosed".to_string() }
        )
    );
    assert_eq!(failure_message("a", "b"), "`nan`\nb");
    assert_eq!(
        handle_message(HandlerState::Posting, HandlerEvent::Posted { attachment: None }),
        (HandlerState::Listening { previous: 0 }, HandlerAction::Listen)
    );
    assert_eq!(first_attachment(None), 0);
    assert_eq!(first_attachment(Some(5)), 5);
}

#[test]
fn an_edit_that_is_math_is_rendered_again() {
    let listening = HandlerState::Listening { previous: 77 };
    let (state, action) = handle_message(
        listening.clone(),
        HandlerEvent::Updated { content: "now $y$".to_string() },
    );
    assert_eq!(
        state,
        HandlerState::Rerendering { source: "now $y$".to_string(), previous: 77 }
    );
    assert_eq!(action, HandlerAction::Render { source: "now $y$".to_string() });

    let (state, action) = handle_message(state, HandlerEvent::Rendered { image: vec![9] });
    assert_eq!(state, HandlerState::Editing);
    assert_eq!(action, HandlerAction::EditImage { remove: 77, image: vec![9] });

    let (state, action) = handle_message(state, HandlerEvent::Posted { attachment: Some(78) });
    assert_eq!(state, HandlerState::Listening { previous: 78 });
    assert_eq!(action, HandlerAction::Listen);
}

#[test]
fn an_edit_that_is_no_math_is_passed_over() {
    let listening = HandlerState::Listening { previous: 77 };
    assert_eq!(
        handle_message(listening.clone(), HandlerEvent::Updated { content: "never mind".to_string() }),
        (listening.clone(), HandlerAction::Listen)
    );
    assert_eq!(on_update(3, None), (HandlerState::Listening { previous: 3 }, HandlerAction::Listen));
    assert_eq!(
        on_update(3, Some("s".to_string())),
        (
            HandlerState::Rerendering { source: "s".to_string(), previous: 3 },
            HandlerAction::Render { source: "s".to_string() }
        )
    );
}

#[test]
fn a_failed_second_rendering_replaces_the_reply_with_text() {
    let state = HandlerState::Rerendering { source: "$y".to_string(), previous: 77 };
    assert_eq!(
        handle_message(state, HandlerEvent::RenderFailed { error: "oops".to_string() }),
        (
            HandlerState::Editing,
            HandlerAction::EditText { remove: 77, content: "`n$yn`\noops".to_string() }
        )
    );
}

#[test]
fn events_out_of_turn_end_the_handling() {
    let stop = (HandlerState::Finished, HandlerAction::Stop);
    assert_eq!(handle_message(HandlerState::Start, HandlerEvent::Silence), stop);
    assert_eq!(
        handle_message(HandlerState::Posting, HandlerEvent::Rendered { image: vec![] }),
        stop
    );
    assert_eq!(
        handle_message(HandlerState::Finished, classified(MessageType::Thank, "ty")),
        stop
    );
    assert_eq!(
        handle_message(
            HandlerState::Listening { previous: 1 },
            HandlerEvent::Posted { attachment: None }
        ),
        stop
    );
}
