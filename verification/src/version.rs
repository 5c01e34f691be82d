//! Versions: their fields, their text, and how text is read as a version.

use crate::decimal::{decimal, push_decimal};
use crate::identifier::{
    all_well_formed, identifier_views, identifiers_well_formed, is_version_text, joined,
    lemma_decimal_is_version_text, lemma_joined_is_version_text, push_joined, same_identifiers,
    Identifier, IdentifierView,
};
use crate::parser::{parse_with_semver, semver_parse};
use vstd::prelude::*;

verus! {

/// A semantic version: three numbers, a pre-release label and a build label.
/// A label is a list of identifiers; the empty list means there is none.
#[derive(Debug, Clone, Hash)]
pub struct Version {
    pub major: u64,
    pub minor: u64,
    pub patch: u64,
    pub pre: Vec<Identifier>,
    pub build: Vec<Identifier>,
}

/// What a [`Version`] stands for.
pub struct VersionView {
    pub major: nat,
    pub minor: nat,
    pub patch: nat,
    pub pre: Seq<IdentifierView>,
    pub build: Seq<IdentifierView>,
}

impl View for Version {
    type V = VersionView;

    open spec fn view(&self) -> VersionView {
        VersionView {
            major: self.major as nat,
            minor: self.minor as nat,
            patch: self.patch as nat,
            pre: identifier_views(self.pre@),
            build: identifier_views(self.build@),
        }
    }
}

/// A label as it follows the numbers: nothing for the empty label, else the
/// mark and the identifiers joined by dots.
pub open spec fn label_text(mark: char, ids: Seq<IdentifierView>) -> Seq<char> {
    if ids.len() == 0 {
        Seq::empty()
    } else {
        seq![mark] + joined(ids)
    }
}

impl VersionView {
    /// The canonical text `MAJOR.MINOR.PATCH[-PRE][+BUILD]`.
    pub open spec fn text(self) -> Seq<char> {
        decimal(self.major) + seq!['.'] + decimal(self.minor) + seq!['.'] + decimal(self.patch)
            + label_text('-', self.pre) + label_text('+', self.build)
    }

    /// The numbers fit in a `u64` and every identifier is well formed.
    pub open spec fn well_formed(self) -> bool {
        &&& self.major <= u64::MAX
        &&& self.minor <= u64::MAX
        &&& self.patch <= u64::MAX
        &&& all_well_formed(self.pre)
        &&& all_well_formed(self.build)
    }
}

/// The canonical text of a well-formed version holds nothing but ASCII
/// letters, digits, dots, hyphens and plus signs.
pub proof fn lemma_text_is_version_text(v: VersionView)
    requires
        v.well_formed(),
    ensures
        is_version_text(v.text()),
{
    lemma_decimal_is_version_text(v.major);
    lemma_decimal_is_version_text(v.minor);
    lemma_decimal_is_version_text(v.patch);
    lemma_joined_is_version_text(v.pre);
    lemma_joined_is_version_text(v.build);
}

/// Text that could not be read as a version or as a label.
#[derive(Debug, Clone)]
pub struct ParseError {
    /// The text that was refused.
    pub input: String,
}

impl View for ParseError {
    type V = Seq<char>;

    open spec fn view(&self) -> Seq<char> {
        self.input@
    }
}

/// The reading of `text` that is accepted, given what the outside parser made
/// of it: the parser's version where it is well formed and `text` is exactly
/// its canonical text, and none otherwise. So surrounding white space, an
/// empty identifier and any other spelling that the canonical text would not
/// give back are refused, whatever the parser thinks of them.
pub open spec fn accepted(text: Seq<char>, parsed: Option<VersionView>) -> Option<VersionView> {
    match parsed {
        Some(v) => if v.well_formed() && v.text() == text {
            Some(v)
        } else {
            None
        },
        None => None,
    }
}

/// How `text` is read: the accepted reading of what the outside parser makes
/// of it.
pub open spec fn read(text: Seq<char>) -> Option<VersionView> {
    accepted(text, semver_parse(text))
}

fn push_label(out: &mut String, mark: &str, ids: &Vec<Identifier>)
    requires
        mark@.len() == 1,
    ensures
        final(out)@ == old(out)@ + label_text(mark@[0], identifier_views(ids@)),
{
    if ids.len() > 0 {
        out.append(mark);
        push_joined(out, ids);
        assert(mark@ =~= seq![mark@[0]]);
        assert(out@ =~= old(out)@ + label_text(mark@[0], identifier_views(ids@)));
    } else {
        assert(out@ =~= old(out)@ + label_text(mark@[0], identifier_views(ids@)));
    }
}

impl Version {
    /// Reads `s` as a version. The outside parser proposes a reading, and it
    /// is taken only where [`Version::confirm`] takes it: an accepted version
    /// is well formed and `s` is its canonical text.
    pub fn from_str(s: &str) -> (r: Result<Version, ParseError>)
        ensures
            match read(s@) {
                Some(m) => r matches Ok(v) && v@ == m,
                None => r matches Err(e) && e@ == s@,
            },
            r matches Ok(v) ==> v@.well_formed() && v@.text() == s@,
    {
        match parse_with_semver(s) {
            Ok(candidate) => Version::confirm(s, candidate),
            Err(_) => Err(ParseError { input: s.to_owned() }),
        }
    }

    /// Takes `candidate` as the reading of `text` where it is well formed and
    /// `text` is its canonical text, and refuses `text` otherwise.
    pub fn confirm(text: &str, candidate: Version) -> (r: Result<Version, ParseError>)
        ensures
            match accepted(text@, Some(candidate@)) {
                Some(m) => r matches Ok(v) && v@ == m,
                None => r matches Err(e) && e@ == text@,
            },
    {
        let given = text.to_owned();
        if candidate.is_well_formed() && candidate.to_string() == given {
            Ok(candidate)
        } else {
            Err(ParseError { input: given })
        }
    }

    /// Whether the version is well formed.
    pub fn is_well_formed(&self) -> (ok: bool)
        ensures
            ok == self@.well_formed(),
    {
        identifiers_well_formed(&self.pre) && identifiers_well_formed(&self.build)
    }

    /// The canonical text of the version.
    pub fn to_string(&self) -> (text: String)
        ensures
            text@ == self@.text(),
    {
        proof {
            reveal_strlit(".");
            reveal_strlit("-");
            reveal_strlit("+");
        }
        let mut out = String::new();
        push_decimal(&mut out, self.major);
        out.append(".");
        push_decimal(&mut out, self.minor);
        out.append(".");
        push_decimal(&mut out, self.patch);
        push_label(&mut out, "-", &self.pre);
        push_label(&mut out, "+", &self.build);
        assert("."@ =~= seq!['.']);
        assert(out@ =~= self@.text());
        out
    }
}

impl PartialEq for Version {
    /// Two versions are equal where all their fields are: the numbers and
    /// both labels, identifier by identifier.
    fn eq(&self, other: &Version) -> (same: bool) {
        let same = self.major == other.major && self.minor == other.minor && self.patch
            == other.patch && same_identifiers(&self.pre, &other.pre) && same_identifiers(
            &self.build,
            &other.build,
        );
        same
    }
}

impl vstd::std_specs::cmp::PartialEqSpecImpl for Version {
    open spec fn obeys_eq_spec() -> bool {
        true
    }

    open spec fn eq_spec(&self, other: &Version) -> bool {
        self@ == other@
    }
}

impl Eq for Version {

}

} // verus!
