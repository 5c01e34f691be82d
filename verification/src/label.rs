//! Pre-release and build labels that are given on their own.

use crate::decimal::{decimal, is_digit, lemma_decimal_canonical};
use crate::identifier::{all_well_formed, identifier_views, Identifier, IdentifierView};
use crate::version::{label_text, read, ParseError, Version, VersionView};
use vstd::prelude::*;

verus! {

/// A pre-release label: the identifiers that follow `-` in a version.
#[derive(Debug, Clone)]
pub struct PreRelease(pub Vec<Identifier>);

/// A build label: the identifiers that follow `+` in a version.
#[derive(Debug, Clone)]
pub struct BuildMetadata(pub Vec<Identifier>);

impl View for PreRelease {
    type V = Seq<IdentifierView>;

    open spec fn view(&self) -> Seq<IdentifierView> {
        identifier_views(self.0@)
    }
}

impl View for BuildMetadata {
    type V = Seq<IdentifierView>;

    open spec fn view(&self) -> Seq<IdentifierView> {
        identifier_views(self.0@)
    }
}

/// The text in which a label is read: the label after the numbers of the
/// zero version and its mark, `-` for a pre-release and `+` for a build label.
pub open spec fn probe(mark: char, label: Seq<char>) -> Seq<char> {
    seq!['0', '.', '0', '.', '0', mark] + label
}

/// A version whose canonical text is the probe of a pre-release label has a
/// pre-release label; one whose text is the probe of a build label has a
/// build label and no pre-release label.
pub proof fn lemma_probe_label(v: VersionView, mark: char, label: Seq<char>)
    requires
        v.text() == probe(mark, label),
        mark == '-' || mark == '+',
    ensures
        mark == '-' ==> v.pre.len() > 0,
        mark == '+' ==> v.pre.len() == 0 && v.build.len() > 0,
{
    let t = v.text();
    let a = decimal(v.major);
    let b = decimal(v.minor);
    let c = decimal(v.patch);
    let lp = label_text('-', v.pre);
    let lb = label_text('+', v.build);
    lemma_decimal_canonical(v.major);
    lemma_decimal_canonical(v.minor);
    lemma_decimal_canonical(v.patch);
    assert(t == a + seq!['.'] + b + seq!['.'] + c + lp + lb);
    assert(t[1] == '.' && t[3] == '.' && t[5] == mark);
    assert(a.len() == 1) by {
        if a.len() > 1 {
            assert(t[1] == a[1]);
            assert(is_digit(a[1]));
        }
    }
    assert(b.len() == 1) by {
        if b.len() > 1 {
            assert(t[3] == b[1]);
            assert(is_digit(b[1]));
        }
    }
    assert(c.len() == 1) by {
        if c.len() > 1 {
            assert(t[5] == c[1]);
            assert(is_digit(c[1]));
        }
    }
    assert(t.len() >= 6);
    assert(t.len() == 5 + lp.len() + lb.len());
    if v.pre.len() > 0 {
        assert(t[5] == lp[0]);
        assert(lp[0] == '-');
    } else {
        assert(lp.len() == 0);
        assert(lb.len() > 0);
        assert(t[5] == lb[0]);
        assert(lb[0] == '+');
    }
}

fn probe_text(mark: &str, label: &str) -> (text: String)
    requires
        mark@.len() == 1,
    ensures
        text@ == probe(mark@[0], label@),
{
    proof {
        reveal_strlit("0.0.0");
    }
    let mut text = "0.0.0".to_owned();
    text.append(mark);
    text.append(label);
    assert(text@ =~= probe(mark@[0], label@));
    text
}

impl PreRelease {
    /// Reads `s` as a pre-release label: as the pre-release label of the
    /// version that the text `0.0.0-` followed by `s` is read as. A label that
    /// is read holds at least one identifier, and its identifiers are well
    /// formed.
    pub fn from_str(s: &str) -> (r: Result<PreRelease, ParseError>)
        ensures
            match read(probe('-', s@)) {
                Some(m) => r matches Ok(p) && p@ == m.pre,
                None => r matches Err(e) && e@ == s@,
            },
            r matches Ok(p) ==> p@.len() > 0 && all_well_formed(p@),
    {
        proof {
            reveal_strlit("-");
        }
        let text = probe_text("-", s);
        match Version::from_str(text.as_str()) {
            Ok(version) => {
                proof {
                    lemma_probe_label(version@, '-', s@);
                }
                Ok(PreRelease(version.pre))
            },
            Err(_) => Err(ParseError { input: s.to_owned() }),
        }
    }
}

impl BuildMetadata {
    /// Reads `s` as a build label: as the build label of the version that the
    /// text `0.0.0+` followed by `s` is read as. A label that is read holds at
    /// least one identifier, and its identifiers are well formed.
    pub fn from_str(s: &str) -> (r: Result<BuildMetadata, ParseError>)
        ensures
            match read(probe('+', s@)) {
                Some(m) => r matches Ok(b) && b@ == m.build,
                None => r matches Err(e) && e@ == s@,
            },
            r matches Ok(b) ==> b@.len() > 0 && all_well_formed(b@),
    {
        proof {
            reveal_strlit("+");
        }
        let text = probe_text("+", s);
        match Version::from_str(text.as_str()) {
            Ok(version) => {
                proof {
                    lemma_probe_label(version@, '+', s@);
                }
                Ok(BuildMetadata(version.build))
            },
            Err(_) => Err(ParseError { input: s.to_owned() }),
        }
    }
}

} // verus!
