//! The languages that can be detected, and those that can be translated
//! from and into.
//!
//! The platform offers at most 25 choices for a command option, which is why
//! only 25 languages are offered for translation.

use vstd::prelude::*;

verus! {

/// A natural language that the detector can tell apart.
#[derive(Debug, Clone, Copy, PartialEq, Eq, Structural, Hash)]
pub enum Language {
    Afrikaans,
    Albanian,
    Arabic,
    Armenian,
    Azerbaijani,
    Basque,
    Belarusian,
    Bengali,
    Bokmal,
    Bosnian,
    Bulgarian,
    Catalan,
    Chinese,
    Croatian,
    Czech,
    Danish,
    Dutch,
    English,
    Esperanto,
    Estonian,
    Finnish,
    French,
    Ganda,
    Georgian,
    German,
    Greek,
    Gujarati,
    Hebrew,
    Hindi,
    Hungarian,
    Icelandic,
    Indonesian,
    Irish,
    Italian,
    Japanese,
    Kazakh,
    Korean,
    Latin,
    Latvian,
    Lithuanian,
    Macedonian,
    Malay,
    Maori,
    Marathi,
    Mongolian,
    Nynorsk,
    Persian,
    Polish,
    Portuguese,
    Punjabi,
    Romanian,
    Russian,
    Serbian,
    Shona,
    Slovak,
    Slovene,
    Somali,
    Sotho,
    Spanish,
    Swahili,
    Swedish,
    Tagalog,
    Tamil,
    Telugu,
    Thai,
    Tsonga,
    Tswana,
    Turkish,
    Ukrainian,
    Urdu,
    Vietnamese,
    Welsh,
    Xhosa,
    Yoruba,
    Zulu,
}

/// A language that the translation service reads.
#[derive(Debug, Clone, Copy, PartialEq, Eq, Structural, Hash)]
pub enum SourceLanguage {
    Bg,
    Cs,
    Da,
    De,
    El,
    En,
    Es,
    Et,
    Fi,
    Fr,
    Hu,
    Id,
    It,
    Ja,
    Lt,
    Lv,
    Nl,
    Pl,
    Pt,
    Ro,
    Ru,
    Sk,
    Sl,
    Sv,
    Uk,
    Zh,
}

/// A language that the translation service writes.
#[derive(Debug, Clone, Copy, PartialEq, Eq, Structural, Hash)]
pub enum TargetLanguage {
    Bg,
    Cs,
    Da,
    De,
    El,
    En,
    Es,
    Et,
    Fi,
    Fr,
    Hu,
    Id,
    It,
    Ja,
    Lt,
    Lv,
    Nl,
    Pl,
    Pt,
    Ro,
    Ru,
    Sk,
    Sl,
    Sv,
    Uk,
    Zh,
}

/// The languages offered for translation, in the order in which they are
/// listed to the user.
pub const AVAILABLE_LANGS: [Language; 25] = [
    Language::Bulgarian,
    Language::Czech,
    Language::Danish,
    Language::German,
    Language::Greek,
    Language::English,
    Language::Spanish,
    Language::Estonian,
    Language::Finnish,
    Language::French,
    Language::Hungarian,
    Language::Indonesian,
    Language::Italian,
    Language::Japanese,
    Language::Lithuanian,
    Language::Latvian,
    Language::Dutch,
    Language::Polish,
    Language::Portuguese,
    Language::Romanian,
    Language::Russian,
    Language::Slovak,
    Language::Slovene,
    Language::Swedish,
    Language::Chinese,
];

/// The languages offered for translation, as a sequence.
pub open spec fn available_langs() -> Seq<Language> {
    AVAILABLE_LANGS@
}

/// The English name of `lang`.
pub open spec fn language_name(lang: Language) -> Seq<char> {
    match lang {
        Language::Afrikaans => "Afrikaans"@,
        Language::Albanian => "Albanian"@,
        Language::Arabic => "Arabic"@,
        Language::Armenian => "Armenian"@,
        Language::Azerbaijani => "Azerbaijani"@,
        Language::Basque => "Basque"@,
        Language::Belarusian => "Belarusian"@,
        Language::Bengali => "Bengali"@,
        Language::Bokmal => "Bokmal"@,
        Language::Bosnian => "Bosnian"@,
        Language::Bulgarian => "Bulgarian"@,
        Language::Catalan => "Catalan"@,
        Language::Chinese => "Chinese"@,
        Language::Croatian => "Croatian"@,
        Language::Czech => "Czech"@,
        Language::Danish => "Danish"@,
        Language::Dutch => "Dutch"@,
        Language::English => "English"@,
        Language::Esperanto => "Esperanto"@,
        Language::Estonian => "Estonian"@,
        Language::Finnish => "Finnish"@,
        Language::French => "French"@,
        Language::Ganda => "Ganda"@,
        Language::Georgian => "Georgian"@,
        Language::German => "German"@,
        Language::Greek => "Greek"@,
        Language::Gujarati => "Gujarati"@,
        Language::Hebrew => "Hebrew"@,
        Language::Hindi => "Hindi"@,
        Language::Hungarian => "Hungarian"@,
        Language::Icelandic => "Icelandic"@,
        Language::Indonesian => "Indonesian"@,
        Language::Irish => "Irish"@,
        Language::Italian => "Italian"@,
        Language::Japanese => "Japanese"@,
        Language::Kazakh => "Kazakh"@,
        Language::Korean => "Korean"@,
        Language::Latin => "Latin"@,
        Language::Latvian => "Latvian"@,
        Language::Lithuanian => "Lithuanian"@,
        Language::Macedonian => "Macedonian"@,
        Language::Malay => "Malay"@,
        Language::Maori => "Maori"@,
        Language::Marathi => "Marathi"@,
        Language::Mongolian => "Mongolian"@,
        Language::Nynorsk => "Nynorsk"@,
        Language::Persian => "Persian"@,
        Language::Polish => "Polish"@,
        Language::Portuguese => "Portuguese"@,
        Language::Punjabi => "Punjabi"@,
        Language::Romanian => "Romanian"@,
        Language::Russian => "Russian"@,
        Language::Serbian => "Serbian"@,
        Language::Shona => "Shona"@,
        Language::Slovak => "Slovak"@,
        Language::Slovene => "Slovene"@,
        Language::Somali => "Somali"@,
        Language::Sotho => "Sotho"@,
        Language::Spanish => "Spanish"@,
        Language::Swahili => "Swahili"@,
        Language::Swedish => "Swedish"@,
        Language::Tagalog => "Tagalog"@,
        Language::Tamil => "Tamil"@,
        Language::Telugu => "Telugu"@,
        Language::Thai => "Thai"@,
        Language::Tsonga => "Tsonga"@,
        Language::Tswana => "Tswana"@,
        Language::Turkish => "Turkish"@,
        Language::Ukrainian => "Ukrainian"@,
        Language::Urdu => "Urdu"@,
        Language::Vietnamese => "Vietnamese"@,
        Language::Welsh => "Welsh"@,
        Language::Xhosa => "Xhosa"@,
        Language::Yoruba => "Yoruba"@,
        Language::Zulu => "Zulu"@,
    }
}

/// The service's source language for `lang`; English stands in for every
/// language that the service does not read.
pub open spec fn deepl_source(lang: Language) -> SourceLanguage {
    match lang {
        Language::Bulgarian => SourceLanguage::Bg,
        Language::Chinese => SourceLanguage::Zh,
        Language::Czech => SourceLanguage::Cs,
        Language::Danish => SourceLanguage::Da,
        Language::Dutch => SourceLanguage::Nl,
        Language::English => SourceLanguage::En,
        Language::Estonian => SourceLanguage::Et,
        Language::Finnish => SourceLanguage::Fi,
        Language::French => SourceLanguage::Fr,
        Language::German => SourceLanguage::De,
        Language::Greek => SourceLanguage::El,
        Language::Hungarian => SourceLanguage::Hu,
        Language::Indonesian => SourceLanguage::Id,
        Language::Italian => SourceLanguage::It,
        Language::Japanese => SourceLanguage::Ja,
        Language::Latvian => SourceLanguage::Lv,
        Language::Lithuanian => SourceLanguage::Lt,
        Language::Polish => SourceLanguage::Pl,
        Language::Portuguese => SourceLanguage::Pt,
        Language::Romanian => SourceLanguage::Ro,
        Language::Russian => SourceLanguage::Ru,
        Language::Slovak => SourceLanguage::Sk,
        Language::Slovene => SourceLanguage::Sl,
        Language::Spanish => SourceLanguage::Es,
        Language::Swedish => SourceLanguage::Sv,
        Language::Ukrainian => SourceLanguage::Uk,
        _ => SourceLanguage::En,
    }
}

/// The service's target language for `lang`; English stands in for every
/// language that the service does not write.
pub open spec fn deepl_target(lang: Language) -> TargetLanguage {
    match lang {
        Language::Bulgarian => TargetLanguage::Bg,
        Language::Chinese => TargetLanguage::Zh,
        Language::Czech => TargetLanguage::Cs,
        Language::Danish => TargetLanguage::Da,
        Language::Dutch => TargetLanguage::Nl,
        Language::English => TargetLanguage::En,
        Language::Estonian => TargetLanguage::Et,
        Language::Finnish => TargetLanguage::Fi,
        Language::French => TargetLanguage::Fr,
        Language::German => TargetLanguage::De,
        Language::Greek => TargetLanguage::El,
        Language::Hungarian => TargetLanguage::Hu,
        Language::Indonesian => TargetLanguage::Id,
        Language::Italian => TargetLanguage::It,
        Language::Japanese => TargetLanguage::Ja,
        Language::Latvian => TargetLanguage::Lv,
        Language::Lithuanian => TargetLanguage::Lt,
        Language::Polish => TargetLanguage::Pl,
        Language::Portuguese => TargetLanguage::Pt,
        Language::Romanian => TargetLanguage::Ro,
        Language::Russian => TargetLanguage::Ru,
        Language::Slovak => TargetLanguage::Sk,
        Language::Slovene => TargetLanguage::Sl,
        Language::Spanish => TargetLanguage::Es,
        Language::Swedish => TargetLanguage::Sv,
        Language::Ukrainian => TargetLanguage::Uk,
        _ => TargetLanguage::En,
    }
}

impl Language {
    /// The English name of the language.
    pub fn name(&self) -> (name: &'static str)
        ensures
            name@ == language_name(*self),
    {
        match self {
            Language::Afrikaans => "Afrikaans",
            Language::Albanian => "Albanian",
            Language::Arabic => "Arabic",
            Language::Armenian => "Armenian",
            Language::Azerbaijani => "Azerbaijani",
            Language::Basque => "Basque",
            Language::Belarusian => "Belarusian",
            Language::Bengali => "Bengali",
            Language::Bokmal => "Bokmal",
            Language::Bosnian => "Bosnian",
            Language::Bulgarian => "Bulgarian",
            Language::Catalan => "Catalan",
            Language::Chinese => "Chinese",
            Language::Croatian => "Croatian",
            Language::Czech => "Czech",
            Language::Danish => "Danish",
            Language::Dutch => "Dutch",
            Language::English => "English",
            Language::Esperanto => "Esperanto",
            Language::Estonian => "Estonian",
            Language::Finnish => "Finnish",
            Language::French => "French",
            Language::Ganda => "Ganda",
            Language::Georgian => "Georgian",
            Language::German => "German",
            Language::Greek => "Greek",
            Language::Gujarati => "Gujarati",
            Language::Hebrew => "Hebrew",
            Language::Hindi => "Hindi",
            Language::Hungarian => "Hungarian",
            Language::Icelandic => "Icelandic",
            Language::Indonesian => "Indonesian",
            Language::Irish => "Irish",
            Language::Italian => "Italian",
            Language::Japanese => "Japanese",
            Language::Kazakh => "Kazakh",
            Language::Korean => "Korean",
            Language::Latin => "Latin",
            Language::Latvian => "Latvian",
            Language::Lithuanian => "Lithuanian",
            Language::Macedonian => "Macedonian",
            Language::Malay => "Malay",
            Language::Maori => "Maori",
            Language::Marathi => "Marathi",
            Language::Mongolian => "Mongolian",
            Language::Nynorsk => "Nynorsk",
            Language::Persian => "Persian",
            Language::Polish => "Polish",
            Language::Portuguese => "Portuguese",
            Language::Punjabi => "Punjabi",
            Language::Romanian => "Romanian",
            Language::Russian => "Russian",
            Language::Serbian => "Serbian",
            Language::Shona => "Shona",
            Language::Slovak => "Slovak",
            Language::Slovene => "Slovene",
            Language::Somali => "Somali",
            Language::Sotho => "Sotho",
            Language::Spanish => "Spanish",
            Language::Swahili => "Swahili",
            Language::Swedish => "Swedish",
            Language::Tagalog => "Tagalog",
            Language::Tamil => "Tamil",
            Language::Telugu => "Telugu",
            Language::Thai => "Thai",
            Language::Tsonga => "Tsonga",
            Language::Tswana => "Tswana",
            Language::Turkish => "Turkish",
            Language::Ukrainian => "Ukrainian",
            Language::Urdu => "Urdu",
            Language::Vietnamese => "Vietnamese",
            Language::Welsh => "Welsh",
            Language::Xhosa => "Xhosa",
            Language::Yoruba => "Yoruba",
            Language::Zulu => "Zulu",
        }
    }
}

/// Converts to the translation service's source language.
pub fn lingua_to_deepl_source(lang: Language) -> (code: SourceLanguage)
    ensures
        code == deepl_source(lang),
{
    match lang {
        Language::Bulgarian => SourceLanguage::Bg,
        Language::Chinese => SourceLanguage::Zh,
        Language::Czech => SourceLanguage::Cs,
        Language::Danish => SourceLanguage::Da,
        Language::Dutch => SourceLanguage::Nl,
        Language::English => SourceLanguage::En,
        Language::Estonian => SourceLanguage::Et,
        Language::Finnish => SourceLanguage::Fi,
        Language::French => SourceLanguage::Fr,
        Language::German => SourceLanguage::De,
        Language::Greek => SourceLanguage::El,
        Language::Hungarian => SourceLanguage::Hu,
        Language::Indonesian => SourceLanguage::Id,
        Language::Italian => SourceLanguage::It,
        Language::Japanese => SourceLanguage::Ja,
        Language::Latvian => SourceLanguage::Lv,
        Language::Lithuanian => SourceLanguage::Lt,
        Language::Polish => SourceLanguage::Pl,
        Language::Portuguese => SourceLanguage::Pt,
        Language::Romanian => SourceLanguage::Ro,
        Language::Russian => SourceLanguage::Ru,
        Language::Slovak => SourceLanguage::Sk,
        Language::Slovene => SourceLanguage::Sl,
        Language::Spanish => SourceLanguage::Es,
        Language::Swedish => SourceLanguage::Sv,
        Language::Ukrainian => SourceLanguage::Uk,
        _ => SourceLanguage::En,
    }
}

/// Converts to the translation service's target language.
pub fn lingua_to_deepl_target(lang: Language) -> (code: TargetLanguage)
    ensures
        code == deepl_target(lang),
{
    match lang {
        Language::Bulgarian => TargetLanguage::Bg,
        Language::Chinese => TargetLanguage::Zh,
        Language::Czech => TargetLanguage::Cs,
        Language::Danish => TargetLanguage::Da,
        Language::Dutch => TargetLanguage::Nl,
        Language::English => TargetLanguage::En,
        Language::Estonian => TargetLanguage::Et,
        Language::Finnish => TargetLanguage::Fi,
        Language::French => TargetLanguage::Fr,
        Language::German => TargetLanguage::De,
        Language::Greek => TargetLanguage::El,
        Language::Hungarian => TargetLanguage::Hu,
        Language::Indonesian => TargetLanguage::Id,
        Language::Italian => TargetLanguage::It,
        Language::Japanese => TargetLanguage::Ja,
        Language::Latvian => TargetLanguage::Lv,
        Language::Lithuanian => TargetLanguage::Lt,
        Language::Polish => TargetLanguage::Pl,
        Language::Portuguese => TargetLanguage::Pt,
        Language::Romanian => TargetLanguage::Ro,
        Language::Russian => TargetLanguage::Ru,
        Language::Slovak => TargetLanguage::Sk,
        Language::Slovene => TargetLanguage::Sl,
        Language::Spanish => TargetLanguage::Es,
        Language::Swedish => TargetLanguage::Sv,
        Language::Ukrainian => TargetLanguage::Uk,
        _ => TargetLanguage::En,
    }
}

/// Every language offered for translation is one that the service reads
/// and writes under a code of its own: only English maps to English.
pub proof fn lemma_available_have_codes(i: int)
    requires
        0 <= i < available_langs().len(),
    ensures
        available_langs()[i] != Language::English ==> deepl_source(available_langs()[i])
            != SourceLanguage::En,
        available_langs()[i] != Language::English ==> deepl_target(available_langs()[i])
            != TargetLanguage::En,
{
}

/// The source and the target code of a language are written alike.
pub open spec fn same_code(source: SourceLanguage, target: TargetLanguage) -> bool {
    match (source, target) {
        (SourceLanguage::Bg, TargetLanguage::Bg) => true,
        (SourceLanguage::Cs, TargetLanguage::Cs) => true,
        (SourceLanguage::Da, TargetLanguage::Da) => true,
        (SourceLanguage::De, TargetLanguage::De) => true,
        (SourceLanguage::El, TargetLanguage::El) => true,
        (SourceLanguage::En, TargetLanguage::En) => true,
        (SourceLanguage::Es, TargetLanguage::Es) => true,
        (SourceLanguage::Et, TargetLanguage::Et) => true,
        (SourceLanguage::Fi, TargetLanguage::Fi) => true,
        (SourceLanguage::Fr, TargetLanguage::Fr) => true,
        (SourceLanguage::Hu, TargetLanguage::Hu) => true,
        (SourceLanguage::Id, TargetLanguage::Id) => true,
        (SourceLanguage::It, TargetLanguage::It) => true,
        (SourceLanguage::Ja, TargetLanguage::Ja) => true,
        (SourceLanguage::Lt, TargetLanguage::Lt) => true,
        (SourceLanguage::Lv, TargetLanguage::Lv) => true,
        (SourceLanguage::Nl, TargetLanguage::Nl) => true,
        (SourceLanguage::Pl, TargetLanguage::Pl) => true,
        (SourceLanguage::Pt, TargetLanguage::Pt) => true,
        (SourceLanguage::Ro, TargetLanguage::Ro) => true,
        (SourceLanguage::Ru, TargetLanguage::Ru) => true,
        (SourceLanguage::Sk, TargetLanguage::Sk) => true,
        (SourceLanguage::Sl, TargetLanguage::Sl) => true,
        (SourceLanguage::Sv, TargetLanguage::Sv) => true,
        (SourceLanguage::Uk, TargetLanguage::Uk) => true,
        (SourceLanguage::Zh, TargetLanguage::Zh) => true,
        _ => false,
    }
}

/// A language is read and written under the same code.
pub proof fn lemma_source_and_target_agree(lang: Language)
    ensures
        same_code(deepl_source(lang), deepl_target(lang)),
{
}

} // verus!
