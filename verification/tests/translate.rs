use nano::translate::available_langs::{
    lingua_to_deepl_source, lingua_to_deepl_target, Language, SourceLanguage, TargetLanguage,
    AVAILABLE_LANGS,
};
use nano::translate::detection::{
    count_numeric, detect_language, filter_for_language_detection, language_verdict, strip,
    EMOJI_PATTERN, MIN_LENGTH,
};
use nano::translate::translate::translate as word_answer;
use nano::translate::translation::{
    answer_text, target_or_english, translate, translate_content, translation_job,
    TranslateError, Translation, BASE_PATH, FALLBACK_KEY, KEY_PREFIX, USER_AGENT,
};

fn answer(detected: Option<&str>, text: Option<&str>) -> Translation {
    Translation {
        detected_source_language: detected.map(|s| s.to_string()),
        text: text.map(|s| s.to_string()),
    }
}

#[test]
fn twenty_five_languages_are_on_offer() {
    assert_eq!(AVAILABLE_LANGS.len(), 25);
    assert_eq!(AVAILABLE_LANGS[0], Language::Bulgarian);
    assert_eq!(AVAILABLE_LANGS[5], Language::English);
    assert_eq!(AVAILABLE_LANGS[24], Language::Chinese);
    assert!(!AVAILABLE_LANGS.contains(&Language::Ukrainian));
}

#[test]
fn languages_map_to_the_service_s_codes() {
    assert_eq!(lingua_to_deepl_source(Language::Bulgarian), SourceLanguage::Bg);
    assert_eq!(lingua_to_deepl_source(Language::Chinese), SourceLanguage::Zh);
    assert_eq!(lingua_to_deepl_source(Language::German), SourceLanguage::De);
    assert_eq!(lingua_to_deepl_source(Language::Greek), SourceLanguage::El);
    assert_eq!(lingua_to_deepl_source(Language::Ukrainian), SourceLanguage::Uk);
    assert_eq!(lingua_to_deepl_target(Language::Spanish), TargetLanguage::Es);
    assert_eq!(lingua_to_deepl_target(Language::Slovene), TargetLanguage::Sl);
    assert_eq!(lingua_to_deepl_target(Language::Dutch), TargetLanguage::Nl);
    assert_eq!(lingua_to_deepl_target(Language::Japanese), TargetLanguage::Ja);
}

#[test]
fn languages_unknown_to_the_service_stand_as_english() {
    for lang in [Language::Korean, Language::Turkish, Language::Latin, Language::Zulu] {
        assert_eq!(lingua_to_deepl_source(lang), SourceLanguage::En);
        assert_eq!(lingua_to_deepl_target(lang), TargetLanguage::En);
    }
    assert_eq!(lingua_to_deepl_source(Language::English), SourceLanguage::En);
}

#[test]
fn every_offered_language_has_a_code_of_its_own() {
    for lang in AVAILABLE_LANGS {
        if lang != Language::English {
            assert_ne!(lingua_to_deepl_source(lang), SourceLanguage::En);
            assert_ne!(lingua_to_deepl_target(lang), TargetLanguage::En);
        }
        assert_eq!(
            format!("{:?}", lingua_to_deepl_source(lang)),
            format!("{:?}", lingua_to_deepl_target(lang))
        );
    }
}

#[test]
fn language_names_are_the_variant_names() {
    assert_eq!(Language::English.name(), "English");
    assert_eq!(Language::Bokmal.name(), "Bokmal");
    assert_eq!(Language::Zulu.name(), "Zulu");
    for lang in AVAILABLE_LANGS {
        assert_eq!(lang.name(), format!("{:?}", lang));
    }
}

#[test]
fn job_carries_the_service_s_settings() {
    let job = translation_job("hello world", Some(Language::English), Language::Spanish, Some("k"));
    assert_eq!(job.base_path, "https://api-free.deepl.com/v2");
    assert_eq!(job.user_agent, "OpenAPI-Generator/2.7.0/rust");
    assert_eq!(job.key_prefix, "DeepL-Auth-Key");
    assert_eq!(job.key, "k");
    assert_eq!(job.text, "hello world");
    assert_eq!(job.target, TargetLanguage::Es);
    assert_eq!(job.source, Some(SourceLanguage::En));
    assert_eq!((BASE_PATH, USER_AGENT, KEY_PREFIX), (
        "https://api-free.deepl.com/v2",
        "OpenAPI-Generator/2.7.0/rust",
        "DeepL-Auth-Key"
    ));
}

#[test]
fn job_without_key_or_source() {
    let job = translation_job("hej", None, Language::Korean, None);
    assert_eq!(job.key, "bad");
    assert_eq!(job.key, FALLBACK_KEY);
    assert_eq!(job.source, None);
    assert_eq!(job.target, TargetLanguage::En);
}

#[test]
fn content_is_the_first_answer() {
    assert_eq!(translate_content(None), Err(TranslateError::NoTranslations));
    assert_eq!(translate_content(Some(vec![])), Err(TranslateError::EmptyList));
    assert_eq!(
        translate_content(Some(vec![
            answer(Some("EN"), Some("hola mundo")),
            answer(Some("FR"), Some("other")),
        ])),
        Ok(("None".to_string(), "hola mundo".to_string()))
    );
    assert_eq!(
        translate_content(Some(vec![answer(None, Some("hola"))])),
        Ok(("None".to_string(), "hola".to_string()))
    );
    assert_eq!(
        translate_content(Some(vec![answer(Some("EN"), None)])),
        Ok(("None".to_string(), String::new()))
    );
}

#[test]
fn the_source_is_shown_only_where_the_text_repeats_its_code() {
    assert_eq!(
        translate_content(Some(vec![answer(Some("EN"), Some("EN"))])),
        Ok(("EN".to_string(), "EN".to_string()))
    );
}

#[test]
fn errors_are_worded() {
    assert_eq!(TranslateError::NoTranslations.message(), "No translations available");
    assert_eq!(TranslateError::EmptyList.message(), "Translation list empty");
}

#[test]
fn answer_text_is_empty_where_there_is_none() {
    assert_eq!(answer_text(&answer(None, None)), "");
    assert_eq!(answer_text(&answer(None, Some("x"))), "x");
}

#[test]
fn target_defaults_to_english() {
    assert_eq!(target_or_english(None), Language::English);
    assert_eq!(target_or_english(Some(Language::Latvian)), Language::Latvian);
}

#[test]
fn reply_shows_source_and_translation() {
    assert_eq!(
        translate("None", Language::Spanish, "hello world", "hola mundo"),
        "Translated to Spanish\n## Source:\nhello world\n## Translation:\nhola mundo"
    );
    assert_eq!(
        translate("EN", Language::English, "a", "b"),
        format!("Translated{}", " from EN  to English\n## Source:\na\n## Translation:\nb")
    );
    assert_eq!(
        translate("", Language::English, "a", "b"),
        format!("Translated{}", " from   to English\n## Source:\na\n## Translation:\nb")
    );
}

#[test]
fn short_wording_names_the_detected_language_only_if_none_was_given() {
    let answers = || Some(vec![answer(Some("EN"), Some("hola mundo"))]);
    assert_eq!(word_answer(answers(), true), Some("hola mundo".to_string()));
    assert_eq!(
        word_answer(answers(), false),
        Some(format!("Translated{}", " from EN:\nhola mundo"))
    );
    assert_eq!(
        word_answer(Some(vec![answer(None, Some("hola"))]), false),
        Some("hola".to_string())
    );
    assert_eq!(
        word_answer(Some(vec![answer(Some("EN"), None)]), false),
        Some(format!("Translated{}", " from EN:\n"))
    );
    assert_eq!(word_answer(Some(vec![]), false), None);
    assert_eq!(word_answer(None, true), None);
}

#[test]
fn links_and_emojis_are_filtered_out() {
    assert_eq!(filter_for_language_detection("hello world"), "hello world");
    assert_eq!(
        filter_for_language_detection("see https://example.com/page now"),
        "see  now"
    );
    assert_eq!(
        filter_for_language_detection("see https://example.com/a/b now"),
        "see b now"
    );
    assert_eq!(filter_for_language_detection("Visit WWW.Example.COM"), "Visit ");
    assert_eq!(filter_for_language_detection("hi <:smile:123> there <a:wave:9>"), "hi  there ");
    assert_eq!(
        filter_for_language_detection("hi <:smile:123> https://a.bc/x"),
        "hi  "
    );
    assert_eq!(filter_for_language_detection(""), "");
}

#[test]
fn strip_removes_matches_without_regard_to_case() {
    assert_eq!(strip(EMOJI_PATTERN, "<A:Wave:1>x"), "x");
    assert_eq!(strip("b+", "aBbBc"), "ac");
    assert_eq!(strip("(", "a(b"), "a(b");
}

#[test]
fn numeric_characters_are_counted() {
    assert_eq!(count_numeric(""), 0);
    assert_eq!(count_numeric("abc"), 0);
    assert_eq!(count_numeric("a1b22"), 3);
    assert_eq!(count_numeric("٣½x"), 2);
}

#[test]
fn verdict_needs_weak_english_enough_text_and_few_numbers() {
    assert_eq!(MIN_LENGTH, 30);
    assert_eq!(language_verdict(2, 10, 31, Language::French, true), Some(Language::French));
    assert_eq!(language_verdict(3, 10, 31, Language::French, true), None);
    assert_eq!(language_verdict(29, 100, 31, Language::French, true), Some(Language::French));
    assert_eq!(language_verdict(30, 100, 31, Language::French, true), None);
    assert_eq!(language_verdict(2, 10, 30, Language::French, true), None);
    assert_eq!(language_verdict(2, 10, 31, Language::French, false), None);
    assert_eq!(language_verdict(0, 0, 31, Language::French, true), Some(Language::French));
    assert_eq!(
        language_verdict(usize::MAX, usize::MAX, usize::MAX, Language::French, true),
        None
    );
}

#[test]
fn detection_counts_length_in_bytes() {
    let thirty = "a".repeat(30);
    let thirty_one = "a".repeat(31);
    assert_eq!(detect_language(&thirty, Language::German, true), None);
    assert_eq!(detect_language(&thirty_one, Language::German, true), Some(Language::German));
    assert_eq!(detect_language(&thirty_one, Language::German, false), None);
    let sixteen_wide = "é".repeat(16);
    assert_eq!(detect_language(&sixteen_wide, Language::French, true), Some(Language::French));
    assert_eq!(detect_language("", Language::French, true), None);
}

#[test]
fn detection_gives_up_on_numbers() {
    let text = format!("{}{}", "7".repeat(12), "a".repeat(28));
    assert_eq!(detect_language(&text, Language::German, true), None);
    let fewer = format!("{}{}", "7".repeat(11), "a".repeat(29));
    assert_eq!(detect_language(&fewer, Language::German, true), Some(Language::German));
}
