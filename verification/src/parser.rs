//! The outside parser of version text.

use crate::identifier::Identifier;
use crate::version::{Version, VersionView};
use vstd::prelude::*;

verus! {

/// The error of the outside parser, `semver::SemVerError`. Nothing is read
/// from it.
#[verifier::external_type_specification]
#[verifier::external_body]
pub struct ExSemVerError(semver::SemVerError);

/// What `semver::Version::parse` makes of `text`: the version it reads, or
/// nothing where it reports an error.
pub uninterp spec fn semver_parse(text: Seq<char>) -> Option<VersionView>;

/// Calls `semver::Version::parse` and copies the fields of what it returns,
/// one for one, into a [`Version`]. The contract only names the outcome: the
/// parser is a function of the text, and nothing is claimed about which texts
/// it accepts or how it reads them.
#[verifier::external_body]
pub(crate) fn parse_with_semver(text: &str) -> (r: Result<Version, semver::SemVerError>)
    ensures
        r is Ok <==> semver_parse(text@) is Some,
        r matches Ok(v) ==> semver_parse(text@) == Some(v@),
{
    let v = semver::Version::parse(text)?;
    let own = |id: semver::Identifier| match id {
        semver::Identifier::Numeric(n) => Identifier::Numeric(n),
        semver::Identifier::AlphaNumeric(s) => Identifier::AlphaNumeric(s),
    };
    Ok(Version {
        major: v.major,
        minor: v.minor,
        patch: v.patch,
        pre: v.pre.into_iter().map(own).collect(),
        build: v.build.into_iter().map(own).collect(),
    })
}

} // verus!
