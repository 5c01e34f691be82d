//! Semantic version numbers and the rules for bumping them.
//!
//! A [`version::Version`] is read from text and written as text. A
//! [`bumper::VersionBumper`] takes a version through the changes that are
//! asked for: numbers set, a number incremented, labels given or cleared. The
//! module [`cli`] holds the requests that a command line makes, and
//! [`cli::bump`] says what each makes of the version at hand, be it found in
//! plain text ([`io`]) or in the manifest of a package ([`cargo`]). What holds
//! of all of this, whatever the version, is stated in [`laws`].
//!
//! Text is first read by the parser of the `semver` crate, and manifests are
//! handled by `toml_edit`. Neither is part of what is proved here: the
//! functions that call them say what they take on trust.

use crate::bumper::Overflow;
use crate::cli::bump::{request_outcome, resolve};
use crate::cli::Request;
use crate::io::{read_version, trimmed};
use crate::version::{read, ParseError, Version};
use vstd::prelude::*;

pub mod bumper;
pub mod cargo;
pub mod cli;
pub mod decimal;
pub mod identifier;
pub mod io;
pub mod label;
pub mod laws;
pub mod parser;
pub mod version;

verus! {

/// Why a request could not be met.
#[derive(Debug)]
pub enum Error {
    /// The source holds no version: what it holds cannot be read as one.
    Parse(ParseError),
    /// The number to increment is the largest there is.
    Overflow(Overflow),
    /// The manifest has no string where its version should stand.
    MissingVersion,
    /// The manifest cannot be given the version that results.
    Unwritable,
}

/// Meets a request on the text of a source: reads the version that the text
/// holds, white space around it aside, and gives the version that the
/// request makes of it. A text that holds no version is an error whatever
/// the request; so is a bump of a number that cannot grow.
pub fn try_main(request: Request, input: &str) -> (r: Result<Version, Error>)
    ensures
        match read(trimmed(input@)) {
            None => r matches Err(Error::Parse(e)) && e@ == trimmed(input@),
            Some(at_hand) => match request_outcome(at_hand, request@) {
                Ok(m) => r matches Ok(v) && v@ == m,
                Err(overflow) => r matches Err(Error::Overflow(e)) && e == overflow,
            },
        },
{
    let at_hand = match read_version(input) {
        Ok(version) => version,
        Err(e) => {
            return Err(Error::Parse(e));
        },
    };
    match resolve(at_hand, request) {
        Ok(version) => Ok(version),
        Err(e) => Err(Error::Overflow(e)),
    }
}

} // verus!
