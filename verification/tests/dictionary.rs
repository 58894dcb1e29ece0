use nano::dictionary::{
    define, get_dictionary_definition, DefineReply, Definition, DictionaryDefinition, Meaning,
    Pronunciation, API_URL, NOT_FOUND, NO_PHONETIC,
};
use nano::discord::EmbedField;

fn sense(definition: &str, example: Option<&str>) -> Definition {
    Definition {
        definition: definition.to_string(),
        example: example.map(|e| e.to_string()),
        synonyms: vec![],
        antonyms: vec![],
    }
}

fn serenity() -> DictionaryDefinition {
    DictionaryDefinition {
        word: "serenity".to_string(),
        phonetic: Some("/səˈɹɛnɪti/".to_string()),
        phonetics: vec![Pronunciation {
            text: "/səˈɹɛnɪti/".to_string(),
            audio: "https://api.dictionaryapi.dev/media/pronunciations/en/serenity-us.mp3"
                .to_string(),
            source_url: "https://commons.wikimedia.org/w/index.php?curid=1171246".to_string(),
        }],
        meanings: vec![Meaning {
            part_of_speech: "noun".to_string(),
            definitions: vec![
                sense("The state of being serene; calmness; peacefulness.", None),
                sense("A lack of agitation or disturbance.", None),
                sense("A title given to a reigning prince or similar dignitary.", None),
            ],
            synonyms: vec![
                "harmony".to_string(),
                "peace".to_string(),
                "sereneness".to_string(),
                "tranquility".to_string(),
                "tranquillity".to_string(),
            ],
            antonyms: vec![],
        }],
        source_urls: vec!["https://en.wiktionary.org/wiki/serenity".to_string()],
    }
}

fn field(name: &str, value: &str) -> EmbedField {
    EmbedField { name: name.to_string(), value: value.to_string(), inline: false }
}

#[test]
fn write_message_shows_the_entry_for_serenity() {
    let card = serenity().write_message();
    assert_eq!(card.title, "serenity");
    assert_eq!(card.description, Some("/səˈɹɛnɪti/".to_string()));
    assert_eq!(card.url, Some("https://en.wiktionary.org/wiki/serenity".to_string()));
    assert_eq!(card.image, None);
    assert_eq!(card.color, None);
    assert_eq!(card.footer, None);
    assert_eq!(
        card.fields,
        vec![
            field("Pronunciations", "/səˈɹɛnɪti/"),
            field(
                "Audios",
                "https://api.dictionaryapi.dev/media/pronunciations/en/serenity-us.mp3"
            ),
            field(
                "*noun*",
                "1. The state of being serene; calmness; peacefulness.\n2. A lack of agitation or disturbance.\n3. A title given to a reigning prince or similar dignitary.\n"
            ),
        ]
    );
}

#[test]
fn write_message_quotes_examples_and_joins_pronunciations() {
    let entry = DictionaryDefinition {
        word: "set".to_string(),
        phonetic: None,
        phonetics: vec![
            Pronunciation { text: "/sɛt/".to_string(), audio: "a.mp3".to_string(), source_url: String::new() },
            Pronunciation { text: String::new(), audio: String::new(), source_url: String::new() },
            Pronunciation { text: "/set/".to_string(), audio: "b.mp3".to_string(), source_url: String::new() },
        ],
        meanings: vec![
            Meaning {
                part_of_speech: "verb".to_string(),
                definitions: vec![
                    sense("To put.", Some("Set it down.")),
                    sense("To fix.", None),
                ],
                synonyms: vec![],
                antonyms: vec![],
            },
            Meaning {
                part_of_speech: "noun".to_string(),
                definitions: vec![],
                synonyms: vec![],
                antonyms: vec![],
            },
        ],
        source_urls: vec![],
    };
    let card = entry.write_message();
    assert_eq!(card.description, Some("No single pronunciation".to_string()));
    assert_eq!(card.description, Some(NO_PHONETIC.to_string()));
    assert_eq!(card.url, None);
    assert_eq!(
        card.fields,
        vec![
            field("Pronunciations", "/sɛt/, , /set/"),
            field("Audios", "a.mp3\n\nb.mp3"),
            field("*verb*", "1. To put.\n*\"Set it down.\"*\n2. To fix.\n"),
            field("*noun*", ""),
        ]
    );
}

#[test]
fn write_message_numbers_senses_beyond_nine() {
    let entry = DictionaryDefinition {
        word: "run".to_string(),
        phonetic: None,
        phonetics: vec![],
        meanings: vec![Meaning {
            part_of_speech: "verb".to_string(),
            definitions: (0..11).map(|_| sense("x", None)).collect(),
            synonyms: vec![],
            antonyms: vec![],
        }],
        source_urls: vec!["first".to_string(), "second".to_string()],
    };
    let card = entry.write_message();
    assert_eq!(card.url, Some("first".to_string()));
    assert!(card.fields[2].value.ends_with("9. x\n10. x\n11. x\n"));
    assert_eq!(card.fields[0].value, "");
    assert_eq!(card.fields[1].value, "");
}

#[test]
fn write_page_is_the_same_card() {
    assert_eq!(serenity().write_page(), serenity().write_message());
}

#[test]
fn define_picks_menu_card_or_text() {
    assert_eq!(define(None), DefineReply::Text { content: NOT_FOUND.to_string() });
    assert_eq!(
        define(Some(vec![])),
        DefineReply::Text {
            content: "No definitions found. Try the word's root: for example, \"serene\" instead of \"serenely.\" ".to_string()
        }
    );
    assert_eq!(
        define(Some(vec![serenity()])),
        DefineReply::Card { card: serenity().write_message() }
    );
    let mut other = serenity();
    other.word = "calm".to_string();
    match define(Some(vec![serenity(), other])) {
        DefineReply::Menu { pages } => {
            assert_eq!(pages.len(), 2);
            assert_eq!(pages[0].title, "serenity");
            assert_eq!(pages[1].title, "calm");
        }
        _ => panic!("expected a menu"),
    }
}

#[test]
fn definition_url_ends_in_the_word() {
    assert_eq!(
        get_dictionary_definition("serenity"),
        "https://api.dictionaryapi.dev/api/v2/entries/en/serenity"
    );
    assert_eq!(get_dictionary_definition(""), format!("{}/", API_URL));
}
