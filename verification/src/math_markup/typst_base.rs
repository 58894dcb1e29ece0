//! What the typesetter is given besides the message: the preamble that
//! sets the look of every picture, and the files of the packages that the
//! preamble imports.
//!
//! Packages lie on disk, one folder each, named by the package's name and
//! version:
//!
//! ```text
//! packages/
//!     {name}-{version}/
//!         typst.toml      names the entry point
//!         ...             the package's files
//! ```
//!
//! Reading them is the caller's part. [`TypstRendered::file_entry`] says
//! whether a file is already held, cannot exist, or is to be read from
//! which folder, and [`TypstRendered::new_entry`] takes what was read.

use vstd::prelude::*;
use vstd::string::*;
use vstd::utf8::{decode_utf8, valid_utf8};
use crate::text::{
    blank,
    chars_of,
    decimal,
    decimal_string,
    is_blank,
    push_char,
    same_text,
    views,
};

verus! {

/// The packages that every message may use.
pub const IMPORTS: &'static str = "\n            #import \"@preview/whalogen:0.1.0\": *\n            #import \"@preview/mitex:0.2.1\": *        \n            ";

/// The colours of the picture.
pub const THEME: &'static str = "\n            #let fg = rgb(219, 222, 225)\n            #let bg = rgb(49, 51, 56)\n        ";

/// The page grows with what is on it.
pub const PAGE_SIZE: &'static str = "#set page(width: auto, height: auto, margin: 10pt)\n";

/// The fonts and the size of text.
pub const TEXT_OPTIONS: &'static str = "\n            #set text(\n                font: (\n                    \"EB Garamond 12\",\n                    \"DejaVu Sans Mono\"\n                      ),\n                size: 18pt,\n                number-type: \"lining\",\n                number-width: \"tabular\",\n                weight: \"regular\",\n            );\n            // set a size that more closely approximates the zoom-in on Discord\n\n\n            // Preamble starts here\n            #set page(\n              fill: bg\n            )\n            #set text(\n              fill: fg,\n            )\n        ";

/// Shorthands for math.
pub const MATH_REMAINING: &'static str = "\n            #let infty = [#sym.infinity];\n\n            #let di = [#math.dif i];\n            #let du = [#math.dif u];\n            #let dv = [#math.dif v];\n            #let dr = [#math.dif r];\n            #let ds = [#math.dif s];\n            #let dt = [#math.dif t];\n            #let dx = [#math.dif x];\n            #let dv = [#math.dif v];\n            #let dy = [#math.dif y];\n            #let dz = [#math.dif z];\n            #let ddt = [#math.frac([#math.dif], dt)];\n            #let ddx = [#math.frac([#math.dif], dx)];\n            #let ddy = [#math.frac([#math.dif], dy)];\n            #let ddz = [#math.frac([#math.dif], dz)];\n            #let ddu = [#math.frac([#math.dif], du)];\n            #let ddv = [#math.frac([#math.dif], dv)];\n            \n            \n            #let int = [#sym.integral]\n            #let iint = [#sym.integral.double]\n            #let infty = [#sym.infinity]\n            #let to = [#sym.arrow]\n\n            #let mathbox(content) = {\n              style(styles => {\n                let size = measure(content, styles);\n                block(\n                    radius: 0.2em,\n                    stroke: fg,\n                    inset: size.height / 1.5,\n                    content)})\n            };\n        ";

/// The folder that holds the packages.
pub const PACKAGES_DIR: &'static str = "packages";

/// The byte order mark.
pub const BOM: char = '\u{feff}';

/// The preamble: imports, theme, page size, text options and shorthands,
/// in this order.
pub open spec fn preamble_text() -> Seq<char> {
    IMPORTS@ + THEME@ + PAGE_SIZE@ + TEXT_OPTIONS@ + MATH_REMAINING@
}

/// `text` without the byte order marks that it begins with.
pub open spec fn without_bom(text: Seq<char>) -> Seq<char>
    decreases text.len(),
{
    if text.len() > 0 && text[0] == BOM {
        without_bom(text.skip(1))
    } else {
        text
    }
}

/// The name of the folder of the package called `name` in version
/// `major.minor.patch`.
pub open spec fn folder_name(name: Seq<char>, version: PackageVersion) -> Seq<char> {
    name + "-"@ + version_text(version)
}

/// Why a file cannot be had.
#[derive(Debug, Clone, PartialEq, Eq)]
pub enum FileError {
    /// No file lies at the path.
    NotFound(String),
    /// The file is not text.
    InvalidUtf8,
}

/// What a [`FileError`] holds, as mathematical values.
pub enum FileErrorView {
    NotFound(Seq<char>),
    InvalidUtf8,
}

impl View for FileError {
    type V = FileErrorView;

    open spec fn view(&self) -> FileErrorView {
        match self {
            FileError::NotFound(path) => FileErrorView::NotFound(path@),
            FileError::InvalidUtf8 => FileErrorView::InvalidUtf8,
        }
    }
}

/// The version of a package.
#[derive(Debug, Clone, Copy, PartialEq, Eq, Structural, Hash)]
pub struct PackageVersion {
    pub major: u32,
    pub minor: u32,
    pub patch: u32,
}

/// The version as it is written: the three numbers with dots between
/// them.
pub open spec fn version_text(version: PackageVersion) -> Seq<char> {
    decimal(version.major as nat) + "."@ + decimal(version.minor as nat) + "."@ + decimal(
        version.patch as nat,
    )
}

impl PackageVersion {
    /// The version as it is written.
    pub fn version_string(&self) -> (text: String)
        ensures
            text@ == version_text(*self),
    {
        let mut text = decimal_string(self.major as u64);
        text.append(".");
        text.append(decimal_string(self.minor as u64).as_str());
        text.append(".");
        text.append(decimal_string(self.patch as u64).as_str());
        text
    }
}

/// What names a package.
#[derive(Debug, Clone, PartialEq, Eq)]
pub struct PackageSpec {
    pub namespace: String,
    pub name: String,
    pub version: PackageVersion,
}

/// What a [`PackageSpec`] holds, as mathematical values.
pub struct PackageSpecView {
    pub namespace: Seq<char>,
    pub name: Seq<char>,
    pub version: PackageVersion,
}

impl View for PackageSpec {
    type V = PackageSpecView;

    open spec fn view(&self) -> PackageSpecView {
        PackageSpecView { namespace: self.namespace@, name: self.name@, version: self.version }
    }
}

/// What names a file: the package it belongs to, if it belongs to one, and
/// its path inside the package or the project.
#[derive(Debug, Clone, PartialEq, Eq)]
pub struct FileId {
    pub package: Option<PackageSpec>,
    pub path: String,
}

/// What a [`FileId`] holds, as mathematical values.
pub struct FileIdView {
    pub package: Option<PackageSpecView>,
    pub path: Seq<char>,
}

impl View for FileId {
    type V = FileIdView;

    open spec fn view(&self) -> FileIdView {
        FileIdView {
            package: match self.package {
                Some(spec) => Some(spec@),
                None => None,
            },
            path: self.path@,
        }
    }
}

/// `std::str::from_utf8`, which accepts exactly the byte sequences that
/// are valid UTF-8 and reads them as the text that they encode.
#[verifier::external_body]
fn decode(bytes: &Vec<u8>) -> (text: Option<String>)
    ensures
        text is Some <==> valid_utf8(bytes@),
        text matches Some(s) ==> s@ == decode_utf8(bytes@),
{
    match std::str::from_utf8(bytes) {
        Ok(text) => Some(text.to_string()),
        Err(_) => None,
    }
}

/// A file held in memory: its bytes and, once it was asked for as text,
/// its text.
#[derive(Debug, Clone, PartialEq, Eq)]
pub struct FileEntry {
    bytes: Vec<u8>,
    source: Option<String>,
}

impl FileEntry {
    /// The bytes of the file.
    pub closed spec fn bytes(&self) -> Seq<u8> {
        self.bytes@
    }

    /// The text kept for the file, if any is kept.
    pub closed spec fn cached(&self) -> Option<Seq<char>> {
        match self.source {
            Some(text) => Some(text@),
            None => None,
        }
    }

    /// The text that is kept is the text that the bytes encode, without
    /// byte order marks at its start.
    pub open spec fn well_formed(&self) -> bool {
        self.cached() matches Some(text) ==> valid_utf8(self.bytes()) && text == without_bom(
            decode_utf8(self.bytes()),
        )
    }

    /// The file that holds `bytes`.
    pub fn new(bytes: Vec<u8>) -> (entry: FileEntry)
        ensures
            entry.bytes() == bytes@,
            entry.cached() is None,
            entry.well_formed(),
    {
        FileEntry { bytes, source: None }
    }

    /// The bytes of the file.
    pub fn contents(&self) -> (bytes: &Vec<u8>)
        ensures
            bytes@ == self.bytes(),
    {
        &self.bytes
    }

    /// The file as text, without byte order marks at its start. The text is
    /// kept for the next time. A file that is not valid UTF-8 is no text.
    pub fn source(&mut self) -> (text: Result<String, FileError>)
        requires
            old(self).well_formed(),
        ensures
            final(self).well_formed(),
            final(self).bytes() == old(self).bytes(),
            valid_utf8(old(self).bytes()) ==> (text matches Ok(s) && s@ == without_bom(
                decode_utf8(old(self).bytes()),
            ) && final(self).cached() == Some(s@)),
            !valid_utf8(old(self).bytes()) ==> (text matches Err(e) && e@
                == FileErrorView::InvalidUtf8 && final(self).cached() is None),
    {
        if let Some(kept) = &self.source {
            return Ok(kept.clone());
        }
        match decode(&self.bytes) {
            None => Err(FileError::InvalidUtf8),
            Some(contents) => {
                let text = strip_bom(contents.as_str());
                self.source = Some(text.clone());
                Ok(text)
            },
        }
    }
}

/// Removes the byte order marks that `text` begins with.
pub fn strip_bom(text: &str) -> (rest: String)
    ensures
        rest@ == without_bom(text@),
{
    let chars = chars_of(text);
    let mut start: usize = 0;
    assert(chars@.skip(0) == chars@);
    while start < chars.len() && chars[start] == BOM
        invariant
            start <= chars.len(),
            without_bom(chars@) == without_bom(chars@.skip(start as int)),
        decreases chars.len() - start,
    {
        assert(chars@.skip(start as int).skip(1) == chars@.skip(start + 1));
        start += 1;
    }
    let mut rest = String::new();
    let mut i: usize = start;
    while i < chars.len()
        invariant
            start <= i <= chars.len(),
            rest@ == chars@.subrange(start as int, i as int),
        decreases chars.len() - i,
    {
        push_char(&mut rest, chars[i]);
        i += 1;
    }
    assert(chars@.subrange(start as int, chars.len() as int) == chars@.skip(start as int));
    rest
}

/// Whether two files are named alike.
pub fn same_id(a: &FileId, b: &FileId) -> (same: bool)
    ensures
        same == (a@ == b@),
{
    if !same_text(a.path.as_str(), b.path.as_str()) {
        return false;
    }
    match (&a.package, &b.package) {
        (None, None) => true,
        (Some(x), Some(y)) => {
            same_text(x.namespace.as_str(), y.namespace.as_str()) && same_text(
                x.name.as_str(),
                y.name.as_str(),
            ) && x.version.major == y.version.major && x.version.minor == y.version.minor
                && x.version.patch == y.version.patch
        },
        _ => false,
    }
}

/// The name of the folder of the package `spec`.
pub fn package_folder(spec: &PackageSpec) -> (folder: String)
    ensures
        folder@ == folder_name(spec@.name, spec@.version),
{
    let mut folder = spec.name.clone();
    folder.append("-");
    folder.append(spec.version.version_string().as_str());
    folder
}

/// What is known of a file that the typesetter asks for.
#[derive(Debug, Clone, PartialEq, Eq)]
pub enum Lookup {
    /// The file is held, at position `index`.
    Found { index: usize },
    /// The file cannot be had.
    Missing { error: FileError },
    /// The file belongs to the package whose folder is `folder`, and is to
    /// be read from there.
    Read { folder: String },
}

/// What a [`Lookup`] holds, as mathematical values.
pub enum LookupView {
    Found { index: usize },
    Missing { error: FileErrorView },
    Read { folder: Seq<char> },
}

impl View for Lookup {
    type V = LookupView;

    open spec fn view(&self) -> LookupView {
        match self {
            Lookup::Found { index } => LookupView::Found { index: *index },
            Lookup::Missing { error } => LookupView::Missing { error: error@ },
            Lookup::Read { folder } => LookupView::Read { folder: folder@ },
        }
    }
}

/// The files that the typesetter has asked for so far. There are a
/// handful at most, so they are kept in a list.
pub struct TypstRendered {
    files: Vec<(FileId, FileEntry)>,
}

impl TypstRendered {
    /// The names of the files held, in the order in which they came.
    pub closed spec fn ids(&self) -> Seq<FileIdView> {
        self.files@.map_values(|f: (FileId, FileEntry)| f.0@)
    }

    /// The contents of the files held, in the order in which they came.
    pub closed spec fn contents(&self) -> Seq<Seq<u8>> {
        self.files@.map_values(|f: (FileId, FileEntry)| f.1.bytes())
    }

    /// Every file held is well formed.
    pub closed spec fn well_formed(&self) -> bool {
        forall|i: int| 0 <= i < self.files@.len() ==> (#[trigger] self.files@[i]).1.well_formed()
    }

    /// The position of the first file named `id` among `ids`, if there is
    /// one.
    pub open spec fn position(ids: Seq<FileIdView>, id: FileIdView) -> Option<int>
        decreases ids.len(),
    {
        if ids.len() == 0 {
            None
        } else {
            match Self::position(ids.drop_last(), id) {
                Some(i) => Some(i),
                None => if ids.last() == id {
                    Some(ids.len() - 1)
                } else {
                    None
                },
            }
        }
    }

    /// What is known of the file named `id` where the files named `ids`
    /// are held.
    pub open spec fn lookup(ids: Seq<FileIdView>, id: FileIdView) -> LookupView {
        match Self::position(ids, id) {
            Some(i) => LookupView::Found { index: i as usize },
            None => match id.package {
                None => LookupView::Missing { error: FileErrorView::NotFound(id.path) },
                Some(spec) => LookupView::Read { folder: folder_name(spec.name, spec.version) },
            },
        }
    }

    /// An empty set of files.
    pub fn new() -> (made: TypstRendered)
        ensures
            made.ids() == Seq::<FileIdView>::empty(),
            made.contents() == Seq::<Seq<u8>>::empty(),
            made.well_formed(),
    {
        let made = TypstRendered { files: Vec::new() };
        assert(made.ids() =~= Seq::<FileIdView>::empty());
        assert(made.contents() =~= Seq::<Seq<u8>>::empty());
        made
    }

    /// How many files are held.
    pub fn len(&self) -> (count: usize)
        ensures
            count == self.ids().len(),
    {
        self.files.len()
    }

    /// The position of the first file named `id`, if one is held.
    pub fn file_id(&self, id: &FileId) -> (found: Option<usize>)
        ensures
            match found {
                Some(i) => Self::position(self.ids(), id@) == Some(i as int) && i
                    < self.ids().len(),
                None => Self::position(self.ids(), id@) is None,
            },
    {
        let mut i: usize = 0;
        while i < self.files.len()
            invariant
                i <= self.files.len(),
                Self::position(self.ids().take(i as int), id@) is None,
            decreases self.files.len() - i,
        {
            proof {
                let seen = self.ids().take(i + 1);
                assert(seen.drop_last() == self.ids().take(i as int));
                assert(seen.last() == self.files@[i as int].0@);
            }
            if same_id(&self.files[i].0, id) {
                proof {
                    Self::lemma_position_stays(self.ids(), id@, i + 1);
                }
                return Some(i);
            }
            i += 1;
        }
        assert(self.ids().take(self.files.len() as int) == self.ids());
        None
    }

    /// A file found among the first `seen` names is found at the same
    /// position among all of them.
    pub proof fn lemma_position_stays(ids: Seq<FileIdView>, id: FileIdView, seen: int)
        requires
            0 <= seen <= ids.len(),
            Self::position(ids.take(seen), id) is Some,
        ensures
            Self::position(ids, id) == Self::position(ids.take(seen), id),
        decreases ids.len() - seen,
    {
        if seen < ids.len() {
            assert(ids.take(seen + 1).drop_last() == ids.take(seen));
            Self::lemma_position_stays(ids, id, seen + 1);
        } else {
            assert(ids.take(seen) == ids);
        }
    }

    /// The file at position `index`.
    pub fn entry(&self, index: usize) -> (entry: &FileEntry)
        requires
            index < self.ids().len(),
        ensures
            entry.bytes() == self.contents()[index as int],
            self.well_formed() ==> entry.well_formed(),
    {
        &self.files[index].1
    }

    /// The file at position `index` as text, kept for the next time it is
    /// asked for.
    pub fn source(&mut self, index: usize) -> (text: Result<String, FileError>)
        requires
            old(self).well_formed(),
            index < old(self).ids().len(),
        ensures
            final(self).well_formed(),
            final(self).ids() == old(self).ids(),
            final(self).contents() == old(self).contents(),
            valid_utf8(old(self).contents()[index as int]) ==> (text matches Ok(s) && s@
                == without_bom(decode_utf8(old(self).contents()[index as int]))),
            !valid_utf8(old(self).contents()[index as int]) ==> (text matches Err(e) && e@
                == FileErrorView::InvalidUtf8),
    {
        let mut entry = self.files.remove(index);
        let ghost before = old(self).files@;
        let text = entry.1.source();
        self.files.insert(index, entry);
        assert(self.files@.len() == before.len());
        assert(forall|i: int|
            0 <= i < before.len() ==> (#[trigger] self.files@[i]).0 == before[i].0 && self.files@[i].1.bytes()
                == before[i].1.bytes());
        assert(self.ids() =~= old(self).ids());
        assert(self.contents() =~= old(self).contents());
        text
    }

    /// Says what is known of the file named `id`: it is held, it cannot
    /// exist because it belongs to no package, or it is to be read from
    /// its package's folder.
    pub fn file_entry(&self, id: &FileId) -> (known: Lookup)
        ensures
            known@ == Self::lookup(self.ids(), id@),
    {
        if let Some(index) = self.file_id(id) {
            return Lookup::Found { index };
        }
        match &id.package {
            None => Lookup::Missing { error: FileError::NotFound(id.path.clone()) },
            Some(spec) => Lookup::Read { folder: package_folder(spec) },
        }
    }

    /// Takes the file named `id`, read as `bytes`, and gives the position
    /// at which it is found from now on.
    pub fn new_entry(&mut self, id: FileId, bytes: Vec<u8>) -> (index: usize)
        requires
            old(self).well_formed(),
        ensures
            final(self).well_formed(),
            final(self).ids() == old(self).ids().push(id@),
            final(self).contents() == old(self).contents().push(bytes@),
            index == old(self).ids().len(),
            Self::position(old(self).ids(), id@) is None ==> Self::position(
                final(self).ids(),
                id@,
            ) == Some(index as int),
    {
        let index = self.files.len();
        let ghost name = id@;
        self.files.push((id, FileEntry::new(bytes)));
        assert(self.ids() =~= old(self).ids().push(name));
        assert(self.contents() =~= old(self).contents().push(bytes@));
        assert(self.ids().drop_last() == old(self).ids());
        index
    }

    /// The preamble that is put before every message.
    pub fn preamble() -> (text: String)
        ensures
            text@ == preamble_text(),
    {
        let mut text = String::from_str(IMPORTS);
        text.append(THEME);
        text.append(PAGE_SIZE);
        text.append(TEXT_OPTIONS);
        text.append(MATH_REMAINING);
        text
    }

    /// The source that is typeset for the message `src`: the preamble
    /// followed by the message.
    pub fn add_source(src: &str) -> (text: String)
        ensures
            text@ == preamble_text() + src@,
    {
        let mut text = Self::preamble();
        text.append(src);
        text
    }
}

/// How grave a finding of the typesetter is.
#[derive(Debug, Clone, Copy, PartialEq, Eq, Structural)]
pub enum Severity {
    Error,
    Warning,
}

/// A finding of the typesetter.
#[derive(Debug, Clone, PartialEq, Eq)]
pub struct SourceDiagnostic {
    pub severity: Severity,
    pub message: String,
    pub hints: Vec<String>,
}

/// What a [`SourceDiagnostic`] holds, as mathematical values.
pub struct DiagnosticView {
    pub severity: Severity,
    pub message: Seq<char>,
    pub hints: Seq<Seq<char>>,
}

impl View for SourceDiagnostic {
    type V = DiagnosticView;

    open spec fn view(&self) -> DiagnosticView {
        DiagnosticView { severity: self.severity, message: self.message@, hints: views(self.hints@) }
    }
}

/// The views of a list of findings.
pub open spec fn diagnostic_views(found: Seq<SourceDiagnostic>) -> Seq<DiagnosticView> {
    found.map_values(|d: SourceDiagnostic| d@)
}

/// Why a message could not be rendered.
#[derive(Debug, Clone, PartialEq, Eq)]
pub enum RenderErrors {
    /// The typesetter found fault with the source.
    SourceError(Vec<SourceDiagnostic>),
    /// The typesetter made no page.
    NoPageError,
    /// The page is too big to be made into a picture.
    PageSizeTooBig,
}

/// What a [`RenderErrors`] holds, as mathematical values.
pub enum RenderErrorsView {
    SourceError(Seq<DiagnosticView>),
    NoPageError,
    PageSizeTooBig,
}

impl View for RenderErrors {
    type V = RenderErrorsView;

    open spec fn view(&self) -> RenderErrorsView {
        match self {
            RenderErrors::SourceError(found) => RenderErrorsView::SourceError(
                diagnostic_views(found@),
            ),
            RenderErrors::NoPageError => RenderErrorsView::NoPageError,
            RenderErrors::PageSizeTooBig => RenderErrorsView::PageSizeTooBig,
        }
    }
}

/// The hints that say something, each on a line of its own.
pub open spec fn hint_lines(hints: Seq<Seq<char>>) -> Seq<char>
    decreases hints.len(),
{
    if hints.len() == 0 {
        Seq::empty()
    } else if blank(hints.last()) {
        hint_lines(hints.drop_last())
    } else {
        hint_lines(hints.drop_last()) + hints.last() + "\n"@
    }
}

/// How a severity is written.
pub open spec fn severity_word(severity: Severity) -> Seq<char> {
    match severity {
        Severity::Error => "Error:"@,
        Severity::Warning => "Warning:"@,
    }
}

/// One finding in words: the severity, the message and, under a heading,
/// the hints that say something.
pub open spec fn diagnostic_text(found: DiagnosticView) -> Seq<char> {
    severity_word(found.severity) + " "@ + found.message + if hint_lines(found.hints).len() > 0 {
        "\nHints:"@
    } else {
        Seq::empty()
    } + hint_lines(found.hints)
}

/// The findings in words, one after the other.
pub open spec fn diagnostics_text(found: Seq<DiagnosticView>) -> Seq<char>
    decreases found.len(),
{
    if found.len() == 0 {
        Seq::empty()
    } else {
        diagnostics_text(found.drop_last()) + diagnostic_text(found.last())
    }
}

/// The error in words.
pub open spec fn error_text(error: RenderErrorsView) -> Seq<char> {
    match error {
        RenderErrorsView::SourceError(found) => diagnostics_text(found),
        RenderErrorsView::NoPageError => "No pages found..."@,
        RenderErrorsView::PageSizeTooBig => "Page too big..."@,
    }
}

fn hints_of(hints: &Vec<String>) -> (lines: String)
    ensures
        lines@ == hint_lines(views(hints@)),
{
    let mut lines = String::new();
    let mut i: usize = 0;
    while i < hints.len()
        invariant
            i <= hints.len(),
            lines@ == hint_lines(views(hints@).take(i as int)),
        decreases hints.len() - i,
    {
        proof {
            let seen = views(hints@).take(i + 1);
            assert(seen.drop_last() == views(hints@).take(i as int));
            assert(seen.last() == hints@[i as int]@);
        }
        if !is_blank(hints[i].as_str()) {
            lines.append(hints[i].as_str());
            lines.append("\n");
        }
        i += 1;
    }
    assert(views(hints@).take(hints.len() as int) == views(hints@));
    lines
}

impl SourceDiagnostic {
    /// The finding in words.
    pub fn message(&self) -> (text: String)
        ensures
            text@ == diagnostic_text(self@),
    {
        let lines = hints_of(&self.hints);
        let mut text = String::from_str(
            match self.severity {
                Severity::Error => "Error:",
                Severity::Warning => "Warning:",
            },
        );
        text.append(" ");
        text.append(self.message.as_str());
        if lines.as_str().unicode_len() > 0 {
            text.append("\nHints:");
        } else {
            assert(text@ + Seq::<char>::empty() == text@);
        }
        text.append(lines.as_str());
        text
    }
}

impl RenderErrors {
    /// The error in words, as it is shown to the user.
    pub fn message(&self) -> (text: String)
        ensures
            text@ == error_text(self@),
    {
        match self {
            RenderErrors::SourceError(found) => {
                let mut text = String::new();
                let mut i: usize = 0;
                while i < found.len()
                    invariant
                        i <= found.len(),
                        text@ == diagnostics_text(diagnostic_views(found@).take(i as int)),
                    decreases found.len() - i,
                {
                    proof {
                        let seen = diagnostic_views(found@).take(i + 1);
                        assert(seen.drop_last() == diagnostic_views(found@).take(i as int));
                        assert(seen.last() == found@[i as int]@);
                    }
                    text.append(found[i].message().as_str());
                    i += 1;
                }
                assert(diagnostic_views(found@).take(found.len() as int) == diagnostic_views(
                    found@,
                ));
                text
            },
            RenderErrors::NoPageError => String::from_str("No pages found..."),
            RenderErrors::PageSizeTooBig => String::from_str("Page too big..."),
        }
    }
}

} // verus!
