//! Talking to the translation service: what is asked of it, and how its
//! answer is worded.

use vstd::prelude::*;
use vstd::string::*;
use crate::discord::opt_view;
use crate::text::same_text;
use crate::translate::available_langs::{
    deepl_source,
    deepl_target,
    language_name,
    lingua_to_deepl_source,
    lingua_to_deepl_target,
    Language,
    SourceLanguage,
    TargetLanguage,
};

verus! {

/// Where the translation service is reached.
pub const BASE_PATH: &'static str = "https://api-free.deepl.com/v2";

/// How requests to the service sign.
pub const USER_AGENT: &'static str = "OpenAPI-Generator/2.7.0/rust";

/// What comes before the key in a request.
pub const KEY_PREFIX: &'static str = "DeepL-Auth-Key";

/// The key used where none is set; the service turns it down, so that a
/// missing key shows as a failed request.
pub const FALLBACK_KEY: &'static str = "bad";

/// What stands for the source language where the service named none that
/// can be shown.
pub const NO_SOURCE: &'static str = "None";

/// One answer of the translation service.
#[derive(Debug, Clone, PartialEq, Eq)]
pub struct Translation {
    /// The code of the language that the service took the text to be in.
    pub detected_source_language: Option<String>,
    /// The text in the target language.
    pub text: Option<String>,
}

/// What a [`Translation`] holds, as mathematical values.
pub struct TranslationView {
    pub detected_source_language: Option<Seq<char>>,
    pub text: Option<Seq<char>>,
}

impl View for Translation {
    type V = TranslationView;

    open spec fn view(&self) -> TranslationView {
        TranslationView {
            detected_source_language: opt_view(self.detected_source_language),
            text: opt_view(self.text),
        }
    }
}

/// The views of a list of answers.
pub open spec fn translation_views(answers: Seq<Translation>) -> Seq<TranslationView> {
    answers.map_values(|t: Translation| t@)
}

/// What is asked of the translation service.
#[derive(Debug, Clone, PartialEq, Eq)]
pub struct TranslationJob {
    pub base_path: String,
    pub user_agent: String,
    pub key_prefix: String,
    pub key: String,
    /// The text to put into the target language.
    pub text: String,
    pub target: TargetLanguage,
    /// The language of the text, where it is known.
    pub source: Option<SourceLanguage>,
}

/// What a [`TranslationJob`] holds, as mathematical values.
pub struct JobView {
    pub base_path: Seq<char>,
    pub user_agent: Seq<char>,
    pub key_prefix: Seq<char>,
    pub key: Seq<char>,
    pub text: Seq<char>,
    pub target: TargetLanguage,
    pub source: Option<SourceLanguage>,
}

impl View for TranslationJob {
    type V = JobView;

    open spec fn view(&self) -> JobView {
        JobView {
            base_path: self.base_path@,
            user_agent: self.user_agent@,
            key_prefix: self.key_prefix@,
            key: self.key@,
            text: self.text@,
            target: self.target,
            source: self.source,
        }
    }
}

/// Why the service's answer holds no translation.
#[derive(Debug, Clone, Copy, PartialEq, Eq, Structural)]
pub enum TranslateError {
    /// The answer has no list of translations.
    NoTranslations,
    /// The list of translations is empty.
    EmptyList,
}

/// The job that puts `msg` from `source` into `target` with the key
/// `api_key`.
pub open spec fn job_for(
    msg: Seq<char>,
    source: Option<Language>,
    target: Language,
    api_key: Option<Seq<char>>,
) -> JobView {
    JobView {
        base_path: BASE_PATH@,
        user_agent: USER_AGENT@,
        key_prefix: KEY_PREFIX@,
        key: match api_key {
            Some(key) => key,
            None => FALLBACK_KEY@,
        },
        text: msg,
        target: deepl_target(target),
        source: match source {
            Some(lang) => Some(deepl_source(lang)),
            None => None,
        },
    }
}

/// The text of an answer, empty where it has none.
pub open spec fn text_of(answer: TranslationView) -> Seq<char> {
    match answer.text {
        Some(text) => text,
        None => Seq::empty(),
    }
}

/// The source shown with an answer, and the answer's text. The source is
/// the detected one only where the text repeats its code.
pub open spec fn shown_pair(answer: TranslationView) -> (Seq<char>, Seq<char>) {
    match answer.detected_source_language {
        Some(code) => if answer.text == Some(code) {
            (code, text_of(answer))
        } else {
            (NO_SOURCE@, text_of(answer))
        },
        None => (NO_SOURCE@, text_of(answer)),
    }
}

/// What the service's answer comes to: the shown pair of its first
/// translation, or the reason why there is none.
pub open spec fn content_of(answers: Option<Seq<TranslationView>>) -> Result<
    (Seq<char>, Seq<char>),
    TranslateError,
> {
    match answers {
        None => Err(TranslateError::NoTranslations),
        Some(list) => if list.len() == 0 {
            Err(TranslateError::EmptyList)
        } else {
            Ok(shown_pair(list[0]))
        },
    }
}

/// How the source is mentioned in a reply.
pub open spec fn source_note(source: Seq<char>) -> Seq<char> {
    if source == NO_SOURCE@ {
        Seq::empty()
    } else {
        " from "@ + source + " "@
    }
}

/// The reply that shows a message and its rendering in `target`.
pub open spec fn reply_text(
    source: Seq<char>,
    target: Language,
    message: Seq<char>,
    translation: Seq<char>,
) -> Seq<char> {
    "Translated"@ + source_note(source) + " to "@ + language_name(target) + "\n## Source:\n"@
        + message + "\n## Translation:\n"@ + translation
}

impl TranslateError {
    /// The error in words.
    pub fn message(&self) -> (words: &'static str)
        ensures
            words@ == match self {
                TranslateError::NoTranslations => "No translations available"@,
                TranslateError::EmptyList => "Translation list empty"@,
            },
    {
        match self {
            TranslateError::NoTranslations => "No translations available",
            TranslateError::EmptyList => "Translation list empty",
        }
    }
}

/// What to ask of the service in order to put `msg` from `source` (or
/// from whatever language the service detects) into `target`;
/// `api_key` is the key that is set, if one is.
pub fn translation_job(msg: &str, source: Option<Language>, target: Language, api_key: Option<&str>)
    -> (job: TranslationJob)
    ensures
        job@ == job_for(
            msg@,
            source,
            target,
            match api_key {
                Some(key) => Some(key@),
                None => None,
            },
        ),
{
    TranslationJob {
        base_path: String::from_str(BASE_PATH),
        user_agent: String::from_str(USER_AGENT),
        key_prefix: String::from_str(KEY_PREFIX),
        key: match api_key {
            Some(key) => String::from_str(key),
            None => String::from_str(FALLBACK_KEY),
        },
        text: String::from_str(msg),
        target: lingua_to_deepl_target(target),
        source: match source {
            Some(lang) => Some(lingua_to_deepl_source(lang)),
            None => None,
        },
    }
}

/// The text of an answer, empty where it has none.
pub fn answer_text(answer: &Translation) -> (text: String)
    ensures
        text@ == text_of(answer@),
{
    match &answer.text {
        Some(text) => text.clone(),
        None => String::new(),
    }
}

/// Reads the service's answer: gives the source to show and the
/// translated text, or says why the answer holds no translation.
pub fn translate_content(answers: Option<Vec<Translation>>) -> (content: Result<
    (String, String),
    TranslateError,
>)
    ensures
        match content {
            Ok(pair) => content_of(
                match answers {
                    Some(list) => Some(translation_views(list@)),
                    None => None,
                },
            ) == Ok::<(Seq<char>, Seq<char>), TranslateError>((pair.0@, pair.1@)),
            Err(e) => content_of(
                match answers {
                    Some(list) => Some(translation_views(list@)),
                    None => None,
                },
            ) == Err::<(Seq<char>, Seq<char>), TranslateError>(e),
        },
{
    match answers {
        None => Err(TranslateError::NoTranslations),
        Some(list) => {
            if list.len() == 0 {
                return Err(TranslateError::EmptyList);
            }
            let first = &list[0];
            assert(translation_views(list@)[0] == first@);
            let text = answer_text(first);
            match (&first.detected_source_language, &first.text) {
                (Some(code), Some(given)) => {
                    if same_text(code.as_str(), given.as_str()) {
                        Ok((code.clone(), text))
                    } else {
                        Ok((String::from_str(NO_SOURCE), text))
                    }
                },
                _ => Ok((String::from_str(NO_SOURCE), text)),
            }
        },
    }
}

/// The language in effect as target: the one asked for, or English.
pub fn target_or_english(target: Option<Language>) -> (chosen: Language)
    ensures
        chosen == match target {
            Some(lang) => lang,
            None => Language::English,
        },
{
    match target {
        Some(lang) => lang,
        None => Language::English,
    }
}

/// The reply to a request to put `message` into `target`, given the
/// source to show and the translated text.
pub fn translate(source: &str, target: Language, message: &str, translation: &str) -> (reply:
    String)
    ensures
        reply@ == reply_text(source@, target, message@, translation@),
{
    let mut reply = String::from_str("Translated");
    if !same_text(source, NO_SOURCE) {
        reply.append(" from ");
        reply.append(source);
        reply.append(" ");
    }
    reply.append(" to ");
    reply.append(target.name());
    reply.append("\n## Source:\n");
    reply.append(message);
    reply.append("\n## Translation:\n");
    reply.append(translation);
    proof {
        if source@ == NO_SOURCE@ {
            assert("Translated"@ + Seq::<char>::empty() == "Translated"@);
        }
    }
    reply
}

} // verus!
