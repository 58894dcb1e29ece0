//! Reporting the findings of the typesetter against the source: where in
//! the text, counted in characters, each finding points.
//!
//! The typesetter counts in bytes of UTF-8; the report is laid out in
//! characters. This module converts between the two and prepares, for each
//! finding, the label that the report shows.

use vstd::prelude::*;
use vstd::string::*;
use crate::text::chars_of;

verus! {

/// The name under which the user's text is shown in reports.
pub const FILE_NAME: &'static str = "<user input>";

/// A report is only laid out for a source of fewer characters than this.
pub const MAX_SOURCE: usize = 1_000_000_000;

/// The report of one finding as the `ariadne` crate lays it out: an
/// error with the message `message`, placed at character `start` of
/// `source`, which is shown under the name of the user's text with the
/// characters from `start` to `end` underlined; tabs are two columns wide
/// and nothing is coloured.
pub uninterp spec fn report_text(source: Seq<char>, message: Seq<char>, start: nat, end: nat)
    -> Seq<char>;

/// Builds an error report with `ariadne::Report::build`, gives it the
/// message and one label over the span, and has `Report::write` lay it
/// out against the source. The contract only names the outcome. The crate
/// panics on an empty source, on a span that ends before it begins, and on
/// a source of a billion lines or more, so these are left out.
#[verifier::external_body]
fn report(source: &str, message: &str, start: usize, end: usize) -> (text: String)
    requires
        0 < source@.len() < MAX_SOURCE,
        start <= end <= source@.len(),
    ensures
        text@ == report_text(source@, message@, start as nat, end as nat),
{
    let mut bytes = Vec::new();
    let cache = (FILE_NAME, ariadne::Source::from(source));
    let config = ariadne::Config::default().with_tab_width(2).with_color(false);
    ariadne::Report::build(ariadne::ReportKind::Error, FILE_NAME, start)
        .with_config(config)
        .with_message(message)
        .with_label(ariadne::Label::new((FILE_NAME, start..end)))
        .finish()
        .write(cache, &mut bytes)
        .unwrap();
    String::from_utf8(bytes).unwrap()
}

/// The number of bytes that `c` takes in UTF-8.
pub open spec fn utf8_len(c: char) -> nat {
    if (c as u32) < 0x80 {
        1
    } else if (c as u32) < 0x800 {
        2
    } else if (c as u32) < 0x10000 {
        3
    } else {
        4
    }
}

/// The character that the byte at `byte_index` belongs to: a pair of the
/// byte at which that character begins and of its number, both counted
/// from 0. Past the end of `source` it is the end of `source`.
pub open spec fn index_at(source: Seq<char>, byte_index: nat) -> (nat, nat)
    decreases source.len(),
{
    if source.len() == 0 || byte_index < utf8_len(source[0]) {
        (0, 0)
    } else {
        let rest = index_at(source.skip(1), (byte_index - utf8_len(source[0])) as nat);
        (rest.0 + utf8_len(source[0]), rest.1 + 1)
    }
}

/// The span in characters of the bytes from `start` to `end`; `None`
/// where `start` lies behind `end`.
pub open spec fn char_span(source: Seq<char>, start: nat, end: nat) -> Option<(nat, nat)> {
    if start > end {
        None
    } else {
        let first = index_at(source, start);
        let length = index_at(source.skip(first.1 as int), (end - start) as nat);
        Some((first.1, first.1 + length.1))
    }
}

/// A character's number and the byte at which it begins.
#[derive(Debug, Clone, Copy, PartialEq, Eq, Structural)]
pub struct CharIndex {
    pub first_byte: usize,
    pub char_index: usize,
}

impl CharIndex {
    /// The index that lies `other` behind this one.
    pub fn add(self, other: CharIndex) -> (sum: CharIndex)
        requires
            self.first_byte + other.first_byte <= usize::MAX,
            self.char_index + other.char_index <= usize::MAX,
        ensures
            sum.first_byte == self.first_byte + other.first_byte,
            sum.char_index == self.char_index + other.char_index,
    {
        CharIndex {
            first_byte: self.first_byte + other.first_byte,
            char_index: self.char_index + other.char_index,
        }
    }
}

/// The number of bytes that `c` takes in UTF-8.
pub fn utf8_length(c: char) -> (bytes: usize)
    ensures
        bytes == utf8_len(c),
        1 <= bytes <= 4,
{
    let code: u32 = c as u32;
    if code < 0x80 {
        1
    } else if code < 0x800 {
        2
    } else if code < 0x10000 {
        3
    } else {
        4
    }
}

/// No character is counted beyond the end of the text, and no character
/// begins behind the byte that is asked for.
pub proof fn lemma_index_bounds(source: Seq<char>, byte_index: nat)
    ensures
        index_at(source, byte_index).1 <= source.len(),
        index_at(source, byte_index).1 <= index_at(source, byte_index).0,
        index_at(source, byte_index).0 <= byte_index,
    decreases source.len(),
{
    if source.len() > 0 && byte_index >= utf8_len(source[0]) {
        lemma_index_bounds(source.skip(1), (byte_index - utf8_len(source[0])) as nat);
    }
}

fn index_from(chars: &Vec<char>, from: usize, byte_index: usize) -> (found: CharIndex)
    requires
        from <= chars.len(),
    ensures
        (found.first_byte as nat, found.char_index as nat) == index_at(
            chars@.skip(from as int),
            byte_index as nat,
        ),
        found.char_index <= chars.len() - from,
        found.first_byte <= byte_index,
{
    let mut found = CharIndex { first_byte: 0, char_index: 0 };
    let mut i: usize = from;
    let ghost whole = index_at(chars@.skip(from as int), byte_index as nat);
    while i < chars.len()
        invariant
            from <= i <= chars.len(),
            found.first_byte <= byte_index,
            found.char_index == i - from,
            found.char_index <= found.first_byte,
            whole == index_at(chars@.skip(from as int), byte_index as nat),
            whole.0 == found.first_byte + index_at(
                chars@.skip(i as int),
                (byte_index - found.first_byte) as nat,
            ).0,
            whole.1 == found.char_index + index_at(
                chars@.skip(i as int),
                (byte_index - found.first_byte) as nat,
            ).1,
        ensures
            whole.0 == found.first_byte,
            whole.1 == found.char_index,
            found.char_index <= chars.len() - from,
            found.first_byte <= byte_index,
        decreases chars.len() - i,
    {
        let width = utf8_length(chars[i]);
        assert(chars@.skip(i as int)[0] == chars@[i as int]);
        if byte_index - found.first_byte < width {
            break;
        }
        assert(chars@.skip(i as int).skip(1) == chars@.skip(i + 1));
        found.first_byte += width;
        found.char_index += 1;
        i += 1;
    }
    found
}

/// Finds the character that the byte at `byte_index` of `source` belongs
/// to.
pub fn byte_index_to_char_index(source: &str, byte_index: usize) -> (found: CharIndex)
    ensures
        (found.first_byte as nat, found.char_index as nat) == index_at(source@, byte_index as nat),
{
    let chars = chars_of(source);
    assert(chars@.skip(0) == chars@);
    index_from(&chars, 0, byte_index)
}

/// Converts a span counted in bytes of `source` into one counted in
/// characters; `None` where the span ends before it begins.
pub fn byte_span_to_char_span(source: &str, start: usize, end: usize) -> (span: Option<
    (usize, usize),
>)
    ensures
        match span {
            Some(s) => char_span(source@, start as nat, end as nat) == Some(
                (s.0 as nat, s.1 as nat),
            ) && s.0 <= s.1 <= source@.len(),
            None => char_span(source@, start as nat, end as nat) is None,
        },
{
    if start > end {
        return None;
    }
    let chars = chars_of(source);
    assert(chars@.skip(0) == chars@);
    let first = index_from(&chars, 0, start);
    let length = index_from(&chars, first.char_index, end - start);
    Some((first.char_index, length.char_index + first.char_index))
}

/// Which part of its span a finding points at.
#[derive(Debug, Clone, Copy, PartialEq, Eq, Structural)]
pub enum ErrorPos {
    /// The whole span.
    Full,
    /// The point at which the span starts.
    Start,
    /// The point at which the span ends.
    End,
}

/// A finding of the typesetter.
#[derive(Debug, Clone, PartialEq, Eq)]
pub struct SourceError {
    /// The bytes of the source that the finding is about; `None` where it
    /// is about another source.
    pub range: Option<(usize, usize)>,
    pub pos: ErrorPos,
    pub message: String,
}

/// What a [`SourceError`] holds, as mathematical values.
pub struct SourceErrorView {
    pub range: Option<(usize, usize)>,
    pub pos: ErrorPos,
    pub message: Seq<char>,
}

impl View for SourceError {
    type V = SourceErrorView;

    open spec fn view(&self) -> SourceErrorView {
        SourceErrorView { range: self.range, pos: self.pos, message: self.message@ }
    }
}

/// What the report shows for one finding: its message, and the span in
/// characters that it underlines. The report is placed at the start of the
/// span.
#[derive(Debug, Clone, PartialEq, Eq)]
pub struct Label {
    pub message: String,
    pub start: usize,
    pub end: usize,
}

/// What a [`Label`] holds, as mathematical values.
pub struct LabelView {
    pub message: Seq<char>,
    pub start: nat,
    pub end: nat,
}

impl View for Label {
    type V = LabelView;

    open spec fn view(&self) -> LabelView {
        LabelView { message: self.message@, start: self.start as nat, end: self.end as nat }
    }
}

/// The views of a list of labels.
pub open spec fn label_views(labels: Seq<Label>) -> Seq<LabelView> {
    labels.map_values(|l: Label| l@)
}

/// The bytes that a finding points at.
pub open spec fn pointed(range: (usize, usize), pos: ErrorPos) -> (nat, nat) {
    match pos {
        ErrorPos::Full => (range.0 as nat, range.1 as nat),
        ErrorPos::Start => (range.0 as nat, range.0 as nat),
        ErrorPos::End => (range.1 as nat, range.1 as nat),
    }
}

/// The labels for `errors`, in order: one for each finding about this
/// source. `None` as soon as a finding points at a span that ends before
/// it begins.
pub open spec fn labels_of(source: Seq<char>, errors: Seq<SourceErrorView>) -> Option<
    Seq<LabelView>,
>
    decreases errors.len(),
{
    if errors.len() == 0 {
        Some(Seq::empty())
    } else {
        match labels_of(source, errors.drop_last()) {
            None => None,
            Some(before) => match errors.last().range {
                None => Some(before),
                Some(range) => {
                    let bytes = pointed(range, errors.last().pos);
                    match char_span(source, bytes.0, bytes.1) {
                        None => None,
                        Some(span) => Some(
                            before.push(
                                LabelView {
                                    message: errors.last().message,
                                    start: span.0,
                                    end: span.1,
                                },
                            ),
                        ),
                    }
                },
            },
        }
    }
}

/// The reports of `labels` against `source`, one after the other.
pub open spec fn reports_text(source: Seq<char>, labels: Seq<LabelView>) -> Seq<char>
    decreases labels.len(),
{
    if labels.len() == 0 {
        Seq::empty()
    } else {
        reports_text(source, labels.drop_last()) + report_text(
            source,
            labels.last().message,
            labels.last().start,
            labels.last().end,
        )
    }
}

/// Every label lies inside a source of `length` characters.
pub open spec fn labels_inside(labels: Seq<LabelView>, length: nat) -> bool {
    forall|i: int| 0 <= i < labels.len() ==> (#[trigger] labels[i]).start <= labels[i].end <= length
}

/// How many pages follow the first of `pages`, if any do.
pub open spec fn pages_after_first(pages: nat) -> Option<nat> {
    if pages >= 2 {
        Some((pages - 1) as nat)
    } else {
        None
    }
}

/// A source and what the typesetter found in it.
#[derive(Debug, Clone, PartialEq, Eq)]
pub struct SourceErrorsWithSource {
    pub source: String,
    pub errors: Vec<SourceError>,
}

impl SourceErrorsWithSource {
    /// The labels of the report: one for each finding about this source,
    /// with its span counted in characters. `None` where a finding points
    /// at a span that ends before it begins, which cannot be shown.
    pub fn labels(&self) -> (labels: Option<Vec<Label>>)
        ensures
            match labels {
                Some(list) => labels_of(
                    self.source@,
                    self.errors@.map_values(|e: SourceError| e@),
                ) == Some(label_views(list@)) && labels_inside(
                    label_views(list@),
                    self.source@.len(),
                ),
                None => labels_of(self.source@, self.errors@.map_values(|e: SourceError| e@))
                    is None,
            },
    {
        let ghost all = self.errors@.map_values(|e: SourceError| e@);
        let mut list: Vec<Label> = Vec::new();
        let mut i: usize = 0;
        assert(label_views(list@) =~= Seq::empty());
        while i < self.errors.len()
            invariant
                i <= self.errors.len(),
                all == self.errors@.map_values(|e: SourceError| e@),
                labels_of(self.source@, all.take(i as int)) == Some(label_views(list@)),
                labels_inside(label_views(list@), self.source@.len()),
            decreases self.errors.len() - i,
        {
            proof {
                let seen = all.take(i + 1);
                assert(seen.drop_last() == all.take(i as int));
                assert(seen.last() == self.errors@[i as int]@);
            }
            let error = &self.errors[i];
            if let Some(range) = error.range {
                let bytes = match error.pos {
                    ErrorPos::Full => range,
                    ErrorPos::Start => (range.0, range.0),
                    ErrorPos::End => (range.1, range.1),
                };
                match byte_span_to_char_span(self.source.as_str(), bytes.0, bytes.1) {
                    None => {
                        proof {
                            lemma_unshown_stays(self.source@, all, i + 1);
                        }
                        return None;
                    },
                    Some(span) => {
                        let label = Label {
                            message: error.message.clone(),
                            start: span.0,
                            end: span.1,
                        };
                        let ghost before = label_views(list@);
                        list.push(label);
                        assert(label_views(list@) =~= before.push(label@));
                    },
                }
            }
            i += 1;
        }
        assert(all.take(self.errors.len() as int) == all);
        Some(list)
    }

    /// The report of the findings about the source, one block for each
    /// finding, in order; `None` where a finding cannot be shown. With no
    /// finding about this source the report is empty.
    pub fn message(&self) -> (text: Option<String>)
        requires
            labels_of(self.source@, self.errors@.map_values(|e: SourceError| e@)) matches Some(
                labels,
            ) && labels.len() > 0 ==> 0 < self.source@.len() < MAX_SOURCE,
        ensures
            match text {
                Some(t) => labels_of(
                    self.source@,
                    self.errors@.map_values(|e: SourceError| e@),
                ) matches Some(labels) && t@ == reports_text(self.source@, labels),
                None => labels_of(self.source@, self.errors@.map_values(|e: SourceError| e@))
                    is None,
            },
    {
        match self.labels() {
            None => None,
            Some(list) => {
                let mut text = String::new();
                let mut i: usize = 0;
                while i < list.len()
                    invariant
                        i <= list.len(),
                        list.len() > 0 ==> 0 < self.source@.len() < MAX_SOURCE,
                        labels_inside(label_views(list@), self.source@.len()),
                        text@ == reports_text(self.source@, label_views(list@).take(i as int)),
                    decreases list.len() - i,
                {
                    proof {
                        let seen = label_views(list@).take(i + 1);
                        assert(seen.drop_last() == label_views(list@).take(i as int));
                        assert(seen.last() == list@[i as int]@);
                        assert(label_views(list@)[i as int] == list@[i as int]@);
                    }
                    let label = &list[i];
                    let block = report(
                        self.source.as_str(),
                        label.message.as_str(),
                        label.start,
                        label.end,
                    );
                    text.append(block.as_str());
                    i += 1;
                }
                assert(label_views(list@).take(list.len() as int) == label_views(list@));
                Some(text)
            },
        }
    }

    /// Whether the report can be laid out: a report with at least one
    /// block needs a source that is neither empty nor too long.
    pub fn can_report(&self) -> (fine: bool)
        ensures
            fine == (labels_of(self.source@, self.errors@.map_values(|e: SourceError| e@))
                matches Some(labels) && labels.len() > 0 ==> 0 < self.source@.len()
                < MAX_SOURCE),
    {
        match self.labels() {
            None => true,
            Some(list) => {
                if list.len() == 0 {
                    assert(label_views(list@).len() == 0);
                    true
                } else {
                    assert(label_views(list@).len() > 0);
                    let length = self.source.as_str().unicode_len();
                    0 < length && length < MAX_SOURCE
                }
            },
        }
    }
}

/// Once a finding cannot be shown, no report is made, whatever follows.
pub proof fn lemma_unshown_stays(source: Seq<char>, errors: Seq<SourceErrorView>, seen: int)
    requires
        0 <= seen <= errors.len(),
        labels_of(source, errors.take(seen)) is None,
    ensures
        labels_of(source, errors) is None,
    decreases errors.len() - seen,
{
    if seen < errors.len() {
        assert(errors.take(seen + 1).drop_last() == errors.take(seen));
        lemma_unshown_stays(source, errors, seen + 1);
    } else {
        assert(errors.take(seen) == errors);
    }
}

/// A source for the typesetter: a text and the name under which it is
/// shown.
#[derive(Debug, Clone, PartialEq, Eq)]
pub struct Source {
    pub name: String,
    pub text: String,
}

/// The source that holds the user's text `source`.
pub fn make_source(source: String) -> (made: Source)
    ensures
        made.name@ == FILE_NAME@,
        made.text@ == source@,
{
    Source { name: String::from_str(FILE_NAME), text: source }
}

/// How many pages follow the first page of a document of `pages` pages;
/// `None` where none does.
pub fn more_pages(pages: usize) -> (more: Option<usize>)
    ensures
        match more {
            Some(n) => pages_after_first(pages as nat) == Some(n as nat),
            None => pages_after_first(pages as nat) is None,
        },
{
    if pages >= 2 {
        Some(pages - 1)
    } else {
        None
    }
}

} // verus!
