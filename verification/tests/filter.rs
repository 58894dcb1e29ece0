use nano::message_filter::{
    decide, find_matches, get_message_type, Findings, Matches, Message, MessageType, Verdict,
};
use nano::translate::available_langs::Language;

fn message(bot: bool, mentions: bool, content: &str) -> Message {
    Message { author_is_bot: bot, has_mentions: mentions, content: content.to_string() }
}

const UNKNOWN: Findings = Findings { mentions_me: None, language: None };

fn known(mentions_me: bool, language: Option<Language>) -> Findings {
    Findings { mentions_me: Some(mentions_me), language: Some(language) }
}

#[test]
fn thanks_are_found_as_whole_words_without_regard_to_case() {
    for text in ["thanks @bob", "Thank you", "THANKS!", "thanx a lot", "tysm", "ok ty", "TY!"] {
        assert!(find_matches(text).thank, "{}", text);
    }
    for text in ["thankful", "party", "thx", "type", "than", "style"] {
        assert!(!find_matches(text).thank, "{}", text);
    }
}

#[test]
fn praise_and_blame_are_found() {
    for text in ["good bot", "Nice Work", "what an AWESOME JOB", "verygood botany"] {
        assert!(find_matches(text).good, "{}", text);
    }
    for text in ["good  bot", "goodbot", "great job", "nice"] {
        assert!(!find_matches(text).good, "{}", text);
    }
    for text in ["bad bot", "that was BAD", "notbad", "bad"] {
        assert!(find_matches(text).bad, "{}", text);
    }
    for text in ["badly done", "badge", "ba d"] {
        assert!(!find_matches(text).bad, "{}", text);
    }
}

#[test]
fn math_is_found_with_its_text() {
    assert_eq!(find_matches("look: $x$").typst, Some("look: $x$".to_string()));
    assert_eq!(find_matches("no math").typst, None);
}

#[test]
fn a_program_is_never_answered() {
    let msg = message(true, true, "thanks $x$ bad bot");
    assert_eq!(get_message_type(&msg, UNKNOWN), Verdict::Decided(MessageType::BotMessage));
    assert_eq!(
        get_message_type(&msg, known(true, Some(Language::French))),
        Verdict::Decided(MessageType::BotMessage)
    );
}

#[test]
fn thanks_need_a_mention() {
    assert_eq!(
        get_message_type(&message(false, true, "thanks!"), UNKNOWN),
        Verdict::Decided(MessageType::Thank)
    );
    assert_eq!(
        get_message_type(&message(false, false, "thanks!"), UNKNOWN),
        Verdict::AskLanguage
    );
}

#[test]
fn a_mention_without_thanks_asks_whether_the_bot_is_meant() {
    let msg = message(false, true, "bad bot");
    assert_eq!(get_message_type(&msg, UNKNOWN), Verdict::AskMentionsMe);
    assert_eq!(
        get_message_type(&msg, Findings { mentions_me: Some(true), language: None }),
        Verdict::Decided(MessageType::BadNano)
    );
    assert_eq!(
        get_message_type(&msg, Findings { mentions_me: Some(false), language: None }),
        Verdict::AskLanguage
    );
}

#[test]
fn blame_comes_before_praise() {
    let msg = message(false, true, "good bot, bad timing");
    assert_eq!(
        get_message_type(&msg, known(true, None)),
        Verdict::Decided(MessageType::BadNano)
    );
    let praise = message(false, true, "nice job");
    assert_eq!(
        get_message_type(&praise, known(true, None)),
        Verdict::Decided(MessageType::GoodNano)
    );
    assert_eq!(
        get_message_type(&praise, known(false, None)),
        Verdict::Decided(MessageType::Normal)
    );
}

#[test]
fn math_comes_before_language() {
    let msg = message(false, false, "voici $x$");
    assert_eq!(
        get_message_type(&msg, UNKNOWN),
        Verdict::Decided(MessageType::Typst("voici $x$".to_string()))
    );
    assert_eq!(
        get_message_type(&msg, known(false, Some(Language::French))),
        Verdict::Decided(MessageType::Typst("voici $x$".to_string()))
    );
}

#[test]
fn other_languages_are_translated_and_english_is_not() {
    let msg = message(false, false, "bonjour tout le monde");
    assert_eq!(get_message_type(&msg, UNKNOWN), Verdict::AskLanguage);
    let detected = |l| Findings { mentions_me: None, language: Some(l) };
    assert_eq!(
        get_message_type(&msg, detected(Some(Language::French))),
        Verdict::Decided(MessageType::Translate(Language::French))
    );
    assert_eq!(
        get_message_type(&msg, detected(Some(Language::English))),
        Verdict::Decided(MessageType::Normal)
    );
    assert_eq!(
        get_message_type(&msg, detected(None)),
        Verdict::Decided(MessageType::Normal)
    );
}

#[test]
fn decide_goes_by_what_it_is_given() {
    let msg = message(false, true, "anything");
    let found = |thank, bad, good, typst: Option<&str>| Matches {
        thank,
        bad,
        good,
        typst: typst.map(|t| t.to_string()),
    };
    assert_eq!(
        decide(&msg, found(true, true, true, Some("t")), UNKNOWN),
        Verdict::Decided(MessageType::Thank)
    );
    assert_eq!(
        decide(&msg, found(false, true, true, Some("t")), known(true, None)),
        Verdict::Decided(MessageType::BadNano)
    );
    assert_eq!(
        decide(&msg, found(false, false, true, Some("t")), known(true, None)),
        Verdict::Decided(MessageType::GoodNano)
    );
    assert_eq!(
        decide(&msg, found(false, true, true, Some("t")), known(false, None)),
        Verdict::Decided(MessageType::Typst("t".to_string()))
    );
    assert_eq!(
        decide(&msg, found(false, false, false, None), known(true, Some(Language::German))),
        Verdict::Decided(MessageType::Translate(Language::German))
    );
}
