//! The manifest of a package, as far as its version goes.

use crate::identifier::is_version_text;
use crate::io::{read_version, trimmed};
use crate::version::{lemma_text_is_version_text, read, ParseError, Version};
use vstd::prelude::*;

verus! {

/// A TOML document, `toml_edit::Document`. What the library knows of one, it
/// knows by the names below.
#[verifier::external_type_specification]
#[verifier::external_body]
pub struct ExDocument(toml_edit::Document);

/// The error of the TOML parser, `toml_edit::TomlError`. What the library
/// knows of one is what it says.
#[verifier::external_type_specification]
#[verifier::external_body]
pub struct ExTomlError(toml_edit::TomlError);

/// What `toml_edit` makes of `text`: the document that it parses the text
/// as, or the error that it reports.
pub uninterp spec fn toml_document(text: Seq<char>) -> Result<
    toml_edit::Document,
    toml_edit::TomlError,
>;

/// What an error of the TOML parser says.
pub uninterp spec fn toml_error_text(err: toml_edit::TomlError) -> Seq<char>;

/// The string that a document holds as the value of `version` in `package`,
/// if it holds a string there.
pub uninterp spec fn package_version(doc: toml_edit::Document) -> Option<Seq<char>>;

/// Whether a document has nothing under `package`.
pub uninterp spec fn package_missing(doc: toml_edit::Document) -> bool;

/// Whether what a document has under `package` is a table or an inline table.
pub uninterp spec fn package_table_like(doc: toml_edit::Document) -> bool;

/// The text that a document is written as.
pub uninterp spec fn document_text(doc: toml_edit::Document) -> Seq<char>;

/// The document that comes of assigning the string `version` to `version` in
/// `package`.
pub uninterp spec fn document_with_version(
    doc: toml_edit::Document,
    version: Seq<char>,
) -> toml_edit::Document;

/// Calls `Document::from_str`. The parser is a function of the text; which
/// texts it accepts, and what it makes of them, is left to it.
#[verifier::external_body]
fn parse_document(text: &str) -> (r: Result<toml_edit::Document, toml_edit::TomlError>)
    ensures
        r == toml_document(text@),
{
    text.parse::<toml_edit::Document>()
}

/// Calls `to_string` on the error, which writes the message that the error
/// holds.
#[verifier::external_body]
fn toml_error_message(err: &toml_edit::TomlError) -> (r: String)
    ensures
        r@ == toml_error_text(*err),
{
    err.to_string()
}

/// Indexes the document by `package` and then by `version`, and calls
/// `Item::as_str` on what is there: the string, where there is one.
#[verifier::external_body]
fn document_package_version(doc: &toml_edit::Document) -> (r: Option<String>)
    ensures
        match package_version(*doc) {
            Some(text) => r matches Some(s) && s@ == text,
            None => r is None,
        },
{
    doc["package"]["version"].as_str().map(str::to_owned)
}

/// Indexes the document by `package` and calls `Item::is_none`.
#[verifier::external_body]
fn document_package_missing(doc: &toml_edit::Document) -> (r: bool)
    ensures
        r == package_missing(*doc),
{
    doc["package"].is_none()
}

/// Indexes the document by `package` and calls `Item::is_table_like`.
#[verifier::external_body]
fn document_package_table_like(doc: &toml_edit::Document) -> (r: bool)
    ensures
        r == package_table_like(*doc),
{
    doc["package"].is_table_like()
}

/// Assigns `toml_edit::value(version)` to the document indexed by `package`
/// and then by `version`. Indexing for assignment makes the entries that are
/// missing and panics on a `package` that is neither missing nor like a
/// table, which `requires` leaves out. `value` reads a string that starts with
/// a quote as TOML and takes any other as it stands, quoted; text of letters,
/// digits, dots, hyphens and plus signs is of the second kind, so the string
/// that is then found there is `version` itself.
#[verifier::external_body]
fn document_set_package_version(doc: &mut toml_edit::Document, version: &str)
    requires
        package_missing(*old(doc)) || package_table_like(*old(doc)),
        is_version_text(version@),
    ensures
        *final(doc) == document_with_version(*old(doc), version@),
        package_version(*final(doc)) == Some(version@),
{
    doc["package"]["version"] = toml_edit::value(version);
}

/// Calls `to_string` on the document.
#[verifier::external_body]
fn document_to_string(doc: &toml_edit::Document) -> (r: String)
    ensures
        r@ == document_text(*doc),
{
    doc.to_string()
}

/// Text that is no manifest.
#[derive(Debug, Clone)]
pub struct ManifestSyntaxError {
    /// What the TOML parser says of the text: where it stopped, and why.
    pub message: String,
}

impl View for ManifestSyntaxError {
    type V = Seq<char>;

    open spec fn view(&self) -> Seq<char> {
        self.message@
    }
}

/// The manifest of a package: a TOML document, with its version under
/// `version` in the table `package`.
#[derive(Debug)]
pub struct Manifest {
    doc: toml_edit::Document,
}

impl Manifest {
    /// The string that the manifest holds where its version stands, as it is
    /// written there, if it holds one.
    pub closed spec fn version_text(&self) -> Option<Seq<char>> {
        package_version(self.doc)
    }

    /// Whether the manifest can be given a version: it has a table `package`,
    /// or nothing of that name.
    pub closed spec fn takes_version(&self) -> bool {
        package_missing(self.doc) || package_table_like(self.doc)
    }

    /// The text that the manifest is written as.
    pub closed spec fn text(&self) -> Seq<char> {
        document_text(self.doc)
    }

    /// The manifest that `text` is read as, or what the TOML parser says of
    /// a text that is none.
    pub closed spec fn parsed(text: Seq<char>) -> Result<Manifest, Seq<char>> {
        match toml_document(text) {
            Ok(doc) => Ok(Manifest { doc }),
            Err(err) => Err(toml_error_text(err)),
        }
    }

    /// The manifest with `version` as the text of its version.
    pub closed spec fn with_version(&self, version: Seq<char>) -> Manifest {
        Manifest { doc: document_with_version(self.doc, version) }
    }

    /// Reads `s` as a manifest.
    pub fn from_str(s: &str) -> (r: Result<Manifest, ManifestSyntaxError>)
        ensures
            match Manifest::parsed(s@) {
                Ok(manifest) => r == Ok::<Manifest, ManifestSyntaxError>(manifest),
                Err(message) => r matches Err(e) && e@ == message,
            },
    {
        match parse_document(s) {
            Ok(doc) => Ok(Manifest { doc }),
            Err(err) => Err(ManifestSyntaxError { message: toml_error_message(&err) }),
        }
    }

    /// Whether the manifest holds the text of a version.
    pub fn has_version(&self) -> (yes: bool)
        ensures
            yes == self.version_text() is Some,
    {
        document_package_version(&self.doc).is_some()
    }

    /// The version of the manifest: the text it holds, without the white
    /// space around it, read as a version.
    pub fn version(&self) -> (r: Result<Version, ParseError>)
        requires
            self.version_text() is Some,
        ensures
            match read(trimmed(self.version_text()->0)) {
                Some(m) => r matches Ok(v) && v@ == m,
                None => r matches Err(e) && e@ == trimmed(self.version_text()->0),
            },
    {
        match document_package_version(&self.doc) {
            Some(text) => read_version(text.as_str()),
            None => vstd::pervasive::unreached(),
        }
    }

    /// The version of the manifest, where it holds the text of one.
    pub fn find_version(&self) -> (r: Option<Result<Version, ParseError>>)
        ensures
            match self.version_text() {
                None => r is None,
                Some(text) => match read(trimmed(text)) {
                    Some(m) => r matches Some(Ok(v)) && v@ == m,
                    None => r matches Some(Err(e)) && e@ == trimmed(text),
                },
            },
    {
        if self.has_version() {
            Some(self.version())
        } else {
            None
        }
    }

    /// Whether the manifest can be given a version.
    pub fn can_take_version(&self) -> (yes: bool)
        ensures
            yes == self.takes_version(),
    {
        document_package_missing(&self.doc) || document_package_table_like(&self.doc)
    }

    /// Gives the manifest the canonical text of `version` as its version.
    pub fn set_version(&mut self, version: &Version)
        requires
            old(self).takes_version(),
            version@.well_formed(),
        ensures
            *final(self) == old(self).with_version(version@.text()),
            final(self).version_text() == Some(version@.text()),
    {
        proof {
            lemma_text_is_version_text(version@);
        }
        let text = version.to_string();
        document_set_package_version(&mut self.doc, text.as_str());
    }

    /// Gives the manifest the canonical text of `version` as its version,
    /// where the manifest can take one and `version` is well formed, and says
    /// whether it did. Otherwise the manifest stays as it is.
    pub fn try_set_version(&mut self, version: &Version) -> (done: bool)
        ensures
            done == (old(self).takes_version() && version@.well_formed()),
            done ==> *final(self) == old(self).with_version(version@.text()),
            done ==> final(self).version_text() == Some(version@.text()),
            !done ==> *final(self) == *old(self),
    {
        if self.can_take_version() && version.is_well_formed() {
            self.set_version(version);
            true
        } else {
            false
        }
    }

    /// The manifest as text.
    pub fn to_string(&self) -> (text: String)
        ensures
            text@ == self.text(),
    {
        document_to_string(&self.doc)
    }
}

} // verus!
