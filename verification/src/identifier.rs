//! The identifiers that make up a pre-release or build label.

use crate::decimal::{decimal, is_numeral, lemma_decimal_canonical, numeral_value, push_decimal};
use vstd::prelude::*;

verus! {

/// One dot-separated part of a pre-release or build label.
#[derive(Debug, Clone, Hash)]
pub enum Identifier {
    /// A part that is a decimal numeral.
    Numeric(u64),
    /// Any other part, kept as it was written.
    AlphaNumeric(String),
}

/// What an [`Identifier`] stands for: a number, or the characters of a name.
pub enum IdentifierView {
    Numeric(nat),
    AlphaNumeric(Seq<char>),
}

impl View for Identifier {
    type V = IdentifierView;

    open spec fn view(&self) -> IdentifierView {
        match self {
            Identifier::Numeric(n) => IdentifierView::Numeric(*n as nat),
            Identifier::AlphaNumeric(s) => IdentifierView::AlphaNumeric(s@),
        }
    }
}

/// The characters an identifier may be made of: ASCII letters, digits and
/// the hyphen.
pub open spec fn is_identifier_char(c: char) -> bool {
    ('0' <= c <= '9') || ('a' <= c <= 'z') || ('A' <= c <= 'Z') || c == '-'
}

impl IdentifierView {
    /// How the identifier is written.
    pub open spec fn text(self) -> Seq<char> {
        match self {
            IdentifierView::Numeric(n) => decimal(n),
            IdentifierView::AlphaNumeric(s) => s,
        }
    }

    /// A number fits in a `u64`. A name is not empty, holds identifier
    /// characters only, and is not the numeral of such a number: what is
    /// written as a number is a number.
    pub open spec fn well_formed(self) -> bool {
        match self {
            IdentifierView::Numeric(n) => n <= u64::MAX,
            IdentifierView::AlphaNumeric(s) => {
                &&& s.len() > 0
                &&& forall|i: int| 0 <= i < s.len() ==> is_identifier_char(#[trigger] s[i])
                &&& !is_numeral(s)
            },
        }
    }
}

/// What each identifier of a list stands for, in order.
pub open spec fn identifier_views(ids: Seq<Identifier>) -> Seq<IdentifierView> {
    ids.map_values(|id: Identifier| id@)
}

/// Whether every identifier of the list is well formed.
pub open spec fn all_well_formed(ids: Seq<IdentifierView>) -> bool {
    forall|i: int| 0 <= i < ids.len() ==> (#[trigger] ids[i]).well_formed()
}

/// The identifiers as they are written in a version: in order, with a dot
/// between neighbours. The empty list is written as nothing.
pub open spec fn joined(ids: Seq<IdentifierView>) -> Seq<char>
    decreases ids.len(),
{
    if ids.len() == 0 {
        Seq::empty()
    } else if ids.len() == 1 {
        ids[0].text()
    } else {
        joined(ids.drop_last()) + seq!['.'] + ids.last().text()
    }
}

/// The characters that the text of a version may hold: those of identifiers,
/// the dot and the plus sign.
pub open spec fn is_version_char(c: char) -> bool {
    is_identifier_char(c) || c == '.' || c == '+'
}

/// Whether `s` holds nothing but characters of version text.
pub open spec fn is_version_text(s: Seq<char>) -> bool {
    forall|i: int| 0 <= i < s.len() ==> is_version_char(#[trigger] s[i])
}

/// A decimal numeral holds nothing but characters of version text.
pub proof fn lemma_decimal_is_version_text(n: nat)
    ensures
        is_version_text(decimal(n)),
{
    lemma_decimal_canonical(n);
}

/// Well-formed identifiers, joined, hold nothing but characters of version
/// text.
pub proof fn lemma_joined_is_version_text(ids: Seq<IdentifierView>)
    requires
        all_well_formed(ids),
    ensures
        is_version_text(joined(ids)),
    decreases ids.len(),
{
    if ids.len() > 0 {
        let last = ids.last();
        assert(last.well_formed());
        assert(is_version_text(last.text())) by {
            match last {
                IdentifierView::Numeric(n) => lemma_decimal_is_version_text(n),
                IdentifierView::AlphaNumeric(s) => {},
            }
        }
        if ids.len() > 1 {
            let front = ids.drop_last();
            assert(all_well_formed(front)) by {
                assert forall|i: int| 0 <= i < front.len() implies (#[trigger] front[i]).well_formed() by {
                    assert(front[i] == ids[i]);
                }
            }
            lemma_joined_is_version_text(front);
        }
    }
}

fn all_identifier_chars(s: &str) -> (r: bool)
    ensures
        r == (forall|i: int| 0 <= i < s@.len() ==> is_identifier_char(#[trigger] s@[i])),
{
    if !s.is_ascii() {
        return false;
    }
    let bytes = s.as_bytes();
    proof {
        vstd::string::is_ascii_spec_bytes(s);
    }
    let mut i: usize = 0;
    while i < bytes.len()
        invariant
            i <= bytes@.len(),
            bytes@.len() == s@.len(),
            forall|k: int| 0 <= k < s@.len() ==> #[trigger] bytes@[k] == s@[k] as u8,
            forall|k: int| 0 <= k < s@.len() ==> '\0' <= #[trigger] s@[k] <= '\u{7f}',
            forall|k: int| 0 <= k < i ==> is_identifier_char(#[trigger] s@[k]),
        decreases bytes@.len() - i,
    {
        let b = bytes[i];
        assert(s@[i as int] as u8 == b);
        let ok = (48 <= b && b <= 57) || (97 <= b && b <= 122) || (65 <= b && b <= 90) || b == 45;
        if !ok {
            assert(!is_identifier_char(s@[i as int]));
            return false;
        }
        i += 1;
    }
    true
}

impl Identifier {
    /// The identifier as it is written.
    pub fn to_string(&self) -> (text: String)
        ensures
            text@ == self@.text(),
    {
        match self {
            Identifier::Numeric(n) => {
                let mut out = String::new();
                push_decimal(&mut out, *n);
                assert(out@ =~= decimal(*n as nat));
                out
            },
            Identifier::AlphaNumeric(s) => s.clone(),
        }
    }

    /// Whether the identifier is well formed.
    pub fn is_well_formed(&self) -> (ok: bool)
        ensures
            ok == self@.well_formed(),
    {
        match self {
            Identifier::Numeric(_) => true,
            Identifier::AlphaNumeric(s) => {
                s.as_str().unicode_len() > 0 && all_identifier_chars(s.as_str()) && numeral_value(
                    s.as_str(),
                ).is_none()
            },
        }
    }
}

impl Eq for Identifier {

}

impl PartialEq for Identifier {
    fn eq(&self, other: &Identifier) -> (same: bool) {
        match self {
            Identifier::Numeric(a) => match other {
                Identifier::Numeric(b) => *a == *b,
                Identifier::AlphaNumeric(_) => false,
            },
            Identifier::AlphaNumeric(a) => match other {
                Identifier::Numeric(_) => false,
                Identifier::AlphaNumeric(b) => *a == *b,
            },
        }
    }
}

impl vstd::std_specs::cmp::PartialEqSpecImpl for Identifier {
    open spec fn obeys_eq_spec() -> bool {
        true
    }

    open spec fn eq_spec(&self, other: &Identifier) -> bool {
        self@ == other@
    }
}

/// Whether every identifier of `ids` is well formed.
pub fn identifiers_well_formed(ids: &Vec<Identifier>) -> (ok: bool)
    ensures
        ok == all_well_formed(identifier_views(ids@)),
{
    let mut i: usize = 0;
    while i < ids.len()
        invariant
            i <= ids@.len(),
            forall|k: int| 0 <= k < i ==> (#[trigger] identifier_views(ids@)[k]).well_formed(),
        decreases ids@.len() - i,
    {
        if !ids[i].is_well_formed() {
            assert(identifier_views(ids@)[i as int] == ids@[i as int]@);
            return false;
        }
        assert(identifier_views(ids@)[i as int] == ids@[i as int]@);
        i += 1;
    }
    true
}

/// Whether two lists hold the same identifiers in the same order.
pub fn same_identifiers(a: &Vec<Identifier>, b: &Vec<Identifier>) -> (same: bool)
    ensures
        same == (identifier_views(a@) == identifier_views(b@)),
{
    if a.len() != b.len() {
        assert(identifier_views(a@).len() != identifier_views(b@).len());
        return false;
    }
    let mut i: usize = 0;
    while i < a.len()
        invariant
            i <= a@.len(),
            a@.len() == b@.len(),
            forall|k: int| 0 <= k < i ==> a@[k]@ == b@[k]@,
        decreases a@.len() - i,
    {
        if !(a[i] == b[i]) {
            assert(identifier_views(a@)[i as int] == a@[i as int]@);
            assert(identifier_views(b@)[i as int] == b@[i as int]@);
            return false;
        }
        i += 1;
    }
    assert(identifier_views(a@) =~= identifier_views(b@));
    true
}

/// Appends the identifiers to `out` as they are written in a version.
pub fn push_joined(out: &mut String, ids: &Vec<Identifier>)
    ensures
        final(out)@ == old(out)@ + joined(identifier_views(ids@)),
{
    let ghost views = identifier_views(ids@);
    let mut i: usize = 0;
    assert(out@ =~= old(out)@ + joined(views.take(0)));
    while i < ids.len()
        invariant
            i <= ids@.len(),
            views == identifier_views(ids@),
            out@ == old(out)@ + joined(views.take(i as int)),
        decreases ids@.len() - i,
    {
        let ghost before = out@;
        if i > 0 {
            out.append(".");
            proof {
                reveal_strlit(".");
            }
        }
        let text = ids[i].to_string();
        out.append(text.as_str());
        proof {
            let next = views.take(i + 1);
            assert(next.drop_last() =~= views.take(i as int));
            assert(next.last() == ids@[i as int]@);
            if i == 0 {
                assert(out@ =~= old(out)@ + joined(next));
            } else {
                assert("."@ =~= seq!['.']);
                assert(out@ =~= old(out)@ + joined(next));
            }
        }
        i += 1;
    }
    assert(views.take(ids@.len() as int) =~= views);
}

} // verus!
