//! Requests on the version of a manifest.

use crate::cargo::Manifest;
use crate::cli::bump::{request_outcome, resolve};
use crate::cli::Request;
use crate::io::trimmed;
use crate::version::{read, Version};
use crate::Error;
use vstd::prelude::*;

verus! {

/// Meets a request on a manifest: reads the version that the manifest holds,
/// white space around it aside, and gives the manifest the version that the request makes of it, which is
/// also returned. Where that cannot be done the manifest stays as it is, and
/// the error says why: the manifest holds no version, what it holds cannot be
/// read as one, the number to bump cannot grow, or the new version cannot be
/// written, because it is not well formed or the manifest cannot take one.
pub fn run(manifest: &mut Manifest, request: Request) -> (r: Result<Version, Error>)
    ensures
        match old(manifest).version_text() {
            None => r matches Err(Error::MissingVersion) && *final(manifest) == *old(manifest),
            Some(text) => match read(trimmed(text)) {
                None => r matches Err(Error::Parse(e)) && e@ == trimmed(text) && *final(manifest)
                    == *old(manifest),
                Some(at_hand) => match request_outcome(at_hand, request@) {
                    Err(overflow) => r matches Err(Error::Overflow(e)) && e == overflow
                        && *final(manifest) == *old(manifest),
                    Ok(m) => if old(manifest).takes_version() && m.well_formed() {
                        r matches Ok(v) && v@ == m && *final(manifest) == old(
                            manifest,
                        ).with_version(m.text()) && final(manifest).version_text() == Some(
                            m.text(),
                        )
                    } else {
                        r matches Err(Error::Unwritable) && *final(manifest) == *old(manifest)
                    },
                },
            },
        },
{
    let at_hand = match manifest.find_version() {
        None => {
            return Err(Error::MissingVersion);
        },
        Some(Err(e)) => {
            return Err(Error::Parse(e));
        },
        Some(Ok(version)) => version,
    };
    let version = match resolve(at_hand, request) {
        Ok(version) => version,
        Err(e) => {
            return Err(Error::Overflow(e));
        },
    };
    if manifest.try_set_version(&version) {
        Ok(version)
    } else {
        Err(Error::Unwritable)
    }
}

} // verus!
