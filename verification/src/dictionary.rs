//! Dictionary entries and the cards that show them.

use vstd::prelude::*;
use vstd::string::*;
use crate::discord::{embed_views, opt_view, Embed, EmbedField, EmbedFieldView, EmbedView};
use crate::text::{decimal, decimal_string, join, joined, views};

verus! {

/// Base URL of the dictionary service.
pub const API_URL: &'static str = "https://api.dictionaryapi.dev/api/v2/entries/en";

/// What is shown for an entry without a pronunciation of its own.
pub const NO_PHONETIC: &'static str = "No single pronunciation";

/// What is replied when no entry was found.
pub const NOT_FOUND: &'static str =
    "No definitions found. Try the word's root: for example, \"serene\" instead of \"serenely.\" ";

/// One way of saying a word.
#[derive(Clone, Debug, Eq, PartialEq, Hash)]
pub struct Pronunciation {
    pub text: String,
    pub audio: String,
    pub source_url: String,
}

/// What a [`Pronunciation`] holds, as mathematical values.
pub struct PronunciationView {
    pub text: Seq<char>,
    pub audio: Seq<char>,
    pub source_url: Seq<char>,
}

impl View for Pronunciation {
    type V = PronunciationView;

    open spec fn view(&self) -> PronunciationView {
        PronunciationView { text: self.text@, audio: self.audio@, source_url: self.source_url@ }
    }
}

/// One sense of a word.
#[derive(Clone, Debug, Eq, PartialEq, Hash)]
pub struct Definition {
    pub definition: String,
    pub example: Option<String>,
    pub synonyms: Vec<String>,
    pub antonyms: Vec<String>,
}

/// What a [`Definition`] holds, as mathematical values.
pub struct DefinitionView {
    pub definition: Seq<char>,
    pub example: Option<Seq<char>>,
    pub synonyms: Seq<Seq<char>>,
    pub antonyms: Seq<Seq<char>>,
}

impl View for Definition {
    type V = DefinitionView;

    open spec fn view(&self) -> DefinitionView {
        DefinitionView {
            definition: self.definition@,
            example: opt_view(self.example),
            synonyms: views(self.synonyms@),
            antonyms: views(self.antonyms@),
        }
    }
}

/// The senses of a word as one part of speech.
#[derive(Clone, Debug, Eq, PartialEq, Hash)]
pub struct Meaning {
    pub part_of_speech: String,
    pub definitions: Vec<Definition>,
    pub synonyms: Vec<String>,
    pub antonyms: Vec<String>,
}

/// What a [`Meaning`] holds, as mathematical values.
pub struct MeaningView {
    pub part_of_speech: Seq<char>,
    pub definitions: Seq<DefinitionView>,
    pub synonyms: Seq<Seq<char>>,
    pub antonyms: Seq<Seq<char>>,
}

impl View for Meaning {
    type V = MeaningView;

    open spec fn view(&self) -> MeaningView {
        MeaningView {
            part_of_speech: self.part_of_speech@,
            definitions: self.definitions@.map_values(|d: Definition| d@),
            synonyms: views(self.synonyms@),
            antonyms: views(self.antonyms@),
        }
    }
}

/// A dictionary definition.
#[derive(Clone, Debug, Eq, PartialEq, Hash)]
pub struct DictionaryDefinition {
    pub word: String,
    pub phonetic: Option<String>,
    pub phonetics: Vec<Pronunciation>,
    pub meanings: Vec<Meaning>,
    pub source_urls: Vec<String>,
}

/// What a [`DictionaryDefinition`] holds, as mathematical values.
pub struct EntryView {
    pub word: Seq<char>,
    pub phonetic: Option<Seq<char>>,
    pub phonetics: Seq<PronunciationView>,
    pub meanings: Seq<MeaningView>,
    pub source_urls: Seq<Seq<char>>,
}

impl View for DictionaryDefinition {
    type V = EntryView;

    open spec fn view(&self) -> EntryView {
        EntryView {
            word: self.word@,
            phonetic: opt_view(self.phonetic),
            phonetics: self.phonetics@.map_values(|p: Pronunciation| p@),
            meanings: self.meanings@.map_values(|m: Meaning| m@),
            source_urls: views(self.source_urls@),
        }
    }
}

/// The views of a list of entries.
pub open spec fn entry_views(entries: Seq<DictionaryDefinition>) -> Seq<EntryView> {
    entries.map_values(|e: DictionaryDefinition| e@)
}

/// The lines for the sense numbered `number`: the sense itself, and its
/// example in quotes if it has one.
pub open spec fn sense_text(number: nat, sense: DefinitionView) -> Seq<char> {
    decimal(number) + ". "@ + sense.definition + "\n"@ + match sense.example {
        Some(example) => "*\""@ + example + "\"*\n"@,
        None => Seq::empty(),
    }
}

/// The lines for the first `count` senses, numbered from 1.
pub open spec fn senses_text(senses: Seq<DefinitionView>, count: nat) -> Seq<char>
    decreases count,
{
    if count == 0 {
        Seq::empty()
    } else {
        senses_text(senses, (count - 1) as nat) + sense_text(count, senses[count - 1])
    }
}

/// The card entry for one part of speech.
pub open spec fn meaning_field(meaning: MeaningView) -> EmbedFieldView {
    EmbedFieldView {
        name: "*"@ + meaning.part_of_speech + "*"@,
        value: senses_text(meaning.definitions, meaning.definitions.len()),
        inline: false,
    }
}

/// The card that shows an entry: the word, its pronunciation, a link to
/// the first source, the pronunciations and their recordings, and one
/// entry for each part of speech.
pub open spec fn entry_card(entry: EntryView) -> EmbedView {
    EmbedView {
        title: entry.word,
        description: Some(
            match entry.phonetic {
                Some(phonetic) => phonetic,
                None => NO_PHONETIC@,
            },
        ),
        url: if entry.source_urls.len() > 0 {
            Some(entry.source_urls[0])
        } else {
            None
        },
        image: None,
        color: None,
        fields: seq![
            EmbedFieldView {
                name: "Pronunciations"@,
                value: joined(entry.phonetics.map_values(|p: PronunciationView| p.text), ", "@),
                inline: false,
            },
            EmbedFieldView {
                name: "Audios"@,
                value: joined(entry.phonetics.map_values(|p: PronunciationView| p.audio), "\n"@),
                inline: false,
            },
        ] + entry.meanings.map_values(|m: MeaningView| meaning_field(m)),
        footer: None,
    }
}

/// The address at which the entries for `word` are found.
pub open spec fn entry_url(word: Seq<char>) -> Seq<char> {
    API_URL@ + "/"@ + word
}

/// How the entries found for a word are shown.
#[derive(Debug, Clone, PartialEq, Eq)]
pub enum DefineReply {
    /// Several entries: a menu with one page for each.
    Menu { pages: Vec<Embed> },
    /// One entry: a single card.
    Card { card: Embed },
    /// No entry: a plain text.
    Text { content: String },
}

/// What a [`DefineReply`] holds, as mathematical values.
pub enum DefineReplyView {
    Menu { pages: Seq<EmbedView> },
    Card { card: EmbedView },
    Text { content: Seq<char> },
}

impl View for DefineReply {
    type V = DefineReplyView;

    open spec fn view(&self) -> DefineReplyView {
        match self {
            DefineReply::Menu { pages } => DefineReplyView::Menu { pages: embed_views(pages@) },
            DefineReply::Card { card } => DefineReplyView::Card { card: card@ },
            DefineReply::Text { content } => DefineReplyView::Text { content: content@ },
        }
    }
}

/// The reply to a request to define a word, given the entries found.
pub open spec fn define_reply(found: Option<Seq<EntryView>>) -> DefineReplyView {
    match found {
        Some(entries) => if entries.len() > 1 {
            DefineReplyView::Menu { pages: entries.map_values(|e: EntryView| entry_card(e)) }
        } else if entries.len() == 1 {
            DefineReplyView::Card { card: entry_card(entries[0]) }
        } else {
            DefineReplyView::Text { content: NOT_FOUND@ }
        },
        None => DefineReplyView::Text { content: NOT_FOUND@ },
    }
}

fn senses(definitions: &Vec<Definition>) -> (text: String)
    ensures
        text@ == senses_text(definitions@.map_values(|d: Definition| d@), definitions@.len()),
{
    let mut text = String::new();
    let mut i: usize = 0;
    while i < definitions.len()
        invariant
            i <= definitions.len(),
            text@ == senses_text(definitions@.map_values(|d: Definition| d@), i as nat),
        decreases definitions.len() - i,
    {
        let sense = &definitions[i];
        text.append(decimal_string((i + 1) as u64).as_str());
        text.append(". ");
        text.append(sense.definition.as_str());
        text.append("\n");
        match &sense.example {
            Some(example) => {
                text.append("*\"");
                text.append(example.as_str());
                text.append("\"*\n");
            },
            None => {},
        }
        proof {
            let all = definitions@.map_values(|d: Definition| d@);
            assert(all[i as int] == sense@);
            assert(text@ == senses_text(all, i as nat) + sense_text((i + 1) as nat, sense@));
        }
        i += 1;
    }
    text
}

impl DictionaryDefinition {
    /// The card that shows the entry.
    pub fn write_message(&self) -> (card: Embed)
        ensures
            card@ == entry_card(self@),
    {
        let description = match &self.phonetic {
            Some(phonetic) => phonetic.clone(),
            None => String::from_str(NO_PHONETIC),
        };
        let url = if self.source_urls.len() > 0 {
            Some(self.source_urls[0].clone())
        } else {
            None
        };
        let mut texts: Vec<String> = Vec::new();
        let mut audios: Vec<String> = Vec::new();
        let mut i: usize = 0;
        while i < self.phonetics.len()
            invariant
                i <= self.phonetics.len(),
                views(texts@) == self@.phonetics.take(i as int).map_values(
                    |p: PronunciationView| p.text,
                ),
                views(audios@) == self@.phonetics.take(i as int).map_values(
                    |p: PronunciationView| p.audio,
                ),
            decreases self.phonetics.len() - i,
        {
            let ghost texts_before = views(texts@);
            let ghost audios_before = views(audios@);
            let text = self.phonetics[i].text.clone();
            let audio = self.phonetics[i].audio.clone();
            texts.push(text);
            audios.push(audio);
            assert(views(texts@) =~= texts_before.push(text@));
            assert(views(audios@) =~= audios_before.push(audio@));
            assert(self@.phonetics[i as int] == self.phonetics@[i as int]@);
            assert(views(texts@) =~= self@.phonetics.take(i + 1).map_values(
                |p: PronunciationView| p.text,
            ));
            assert(views(audios@) =~= self@.phonetics.take(i + 1).map_values(
                |p: PronunciationView| p.audio,
            ));
            i += 1;
        }
        assert(self@.phonetics.take(self.phonetics.len() as int) == self@.phonetics);
        let mut fields: Vec<EmbedField> = Vec::new();
        fields.push(
            EmbedField {
                name: String::from_str("Pronunciations"),
                value: join(&texts, ", "),
                inline: false,
            },
        );
        fields.push(
            EmbedField { name: String::from_str("Audios"), value: join(&audios, "\n"), inline: false },
        );
        let ghost head = crate::discord::field_views(fields@);
        let mut k: usize = 0;
        while k < self.meanings.len()
            invariant
                k <= self.meanings.len(),
                head.len() == 2,
                crate::discord::field_views(fields@) == head + self@.meanings.take(
                    k as int,
                ).map_values(|m: MeaningView| meaning_field(m)),
            decreases self.meanings.len() - k,
        {
            let meaning = &self.meanings[k];
            let mut name = String::from_str("*");
            name.append(meaning.part_of_speech.as_str());
            name.append("*");
            let field = EmbedField { name, value: senses(&meaning.definitions), inline: false };
            assert(field@ == meaning_field(meaning@));
            assert(self@.meanings[k as int] == meaning@);
            let ghost fields_before = crate::discord::field_views(fields@);
            fields.push(field);
            assert(crate::discord::field_views(fields@) =~= fields_before.push(field@));
            assert(crate::discord::field_views(fields@) =~= head + self@.meanings.take(
                k + 1,
            ).map_values(|m: MeaningView| meaning_field(m)));
            k += 1;
        }
        assert(self@.meanings.take(self.meanings.len() as int) == self@.meanings);
        let card = Embed {
            title: self.word.clone(),
            description: Some(description),
            url,
            image: None,
            color: None,
            fields,
            footer: None,
        };
        assert(head =~= entry_card(self@).fields.take(2));
        assert(card@.fields =~= entry_card(self@).fields);
        card
    }

    /// The page of a menu that shows the entry.
    pub fn write_page(&self) -> (page: Embed)
        ensures
            page@ == entry_card(self@),
    {
        self.write_message()
    }
}

/// The address at which the entries for `word` are fetched.
pub fn get_dictionary_definition(word: &str) -> (url: String)
    ensures
        url@ == entry_url(word@),
{
    let mut url = String::from_str(API_URL);
    url.append("/");
    url.append(word);
    url
}

/// Defines a word, given the entries that the dictionary service found
/// for it; `None` where the service gave no usable answer.
pub fn define(found: Option<Vec<DictionaryDefinition>>) -> (reply: DefineReply)
    ensures
        reply@ == define_reply(
            match found {
                Some(entries) => Some(entry_views(entries@)),
                None => None,
            },
        ),
{
    match found {
        Some(entries) => {
            if entries.len() > 1 {
                let mut pages: Vec<Embed> = Vec::new();
                let mut i: usize = 0;
                while i < entries.len()
                    invariant
                        i <= entries.len(),
                        embed_views(pages@) == entry_views(entries@).take(i as int).map_values(
                            |e: EntryView| entry_card(e),
                        ),
                    decreases entries.len() - i,
                {
                    let page = entries[i].write_page();
                    let ghost pages_before = embed_views(pages@);
                    pages.push(page);
                    assert(embed_views(pages@) =~= pages_before.push(page@));
                    assert(entry_views(entries@)[i as int] == entries@[i as int]@);
                    assert(embed_views(pages@) =~= entry_views(entries@).take(i + 1).map_values(
                        |e: EntryView| entry_card(e),
                    ));
                    i += 1;
                }
                assert(entry_views(entries@).take(entries.len() as int) == entry_views(entries@));
                DefineReply::Menu { pages }
            } else if entries.len() == 1 {
                DefineReply::Card { card: entries[0].write_message() }
            } else {
                DefineReply::Text { content: String::from_str(NOT_FOUND) }
            }
        },
        None => DefineReply::Text { content: String::from_str(NOT_FOUND) },
    }
}

/// A card has two entries for the pronunciations, and one more for each
/// part of speech.
pub proof fn lemma_card_fields(entry: EntryView)
    ensures
        entry_card(entry).fields.len() == 2 + entry.meanings.len(),
        entry_card(entry).title == entry.word,
        entry_card(entry).description is Some,
{
}

} // verus!
