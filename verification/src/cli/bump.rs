//! From a request and the version at hand to the version that results.

use crate::bumper::{Overflow, VersionBumper, VersionBumperView};
use crate::cli::{
    build_view, pre_view, Request, RequestView, SetBuildMetadata, SetLabelView, SetPreRelease,
    SetVersion, SetVersionView,
};
use crate::identifier::IdentifierView;
use crate::label::{BuildMetadata, PreRelease};
use crate::version::{Version, VersionView};
use vstd::prelude::*;

pub mod cargo;

verus! {

/// The number of a version that a bump increments.
#[derive(Debug, Clone, Copy, PartialEq, Eq, Structural)]
pub enum Component {
    Major,
    Minor,
    Patch,
}

/// The number that results: the one that is given, else the one at hand.
pub open spec fn number_set(given: Option<nat>, at_hand: nat) -> nat {
    match given {
        Some(n) => n,
        None => at_hand,
    }
}

/// The label that results: the one that is given, none where it is cleared,
/// else the one at hand.
pub open spec fn label_set(request: SetLabelView, at_hand: Seq<IdentifierView>) -> Seq<
    IdentifierView,
> {
    match request {
        SetLabelView::Replace(label) => label,
        SetLabelView::Clear => Seq::empty(),
        SetLabelView::Keep => at_hand,
    }
}

/// The version that results from a request to set: the whole version that is
/// given, or the version at hand with each part that is given in place of its
/// own. No number is incremented and none is reset.
pub open spec fn version_set(at_hand: VersionView, request: SetVersionView) -> VersionView {
    match request {
        SetVersionView::Version(version) => version,
        SetVersionView::Parts { major, minor, patch, pre, build } => VersionView {
            major: number_set(major, at_hand.major),
            minor: number_set(minor, at_hand.minor),
            patch: number_set(patch, at_hand.patch),
            pre: label_set(pre, at_hand.pre),
            build: label_set(build, at_hand.build),
        },
    }
}

/// The bumper for a bump: it starts from the version that was read, with the
/// labels that were given kept aside. Where no version could be read, the
/// error of the reading is handed on.
pub fn prepare_version<E>(
    version: Result<Version, E>,
    pre: Option<PreRelease>,
    build: Option<BuildMetadata>,
) -> (r: Result<VersionBumper, E>)
    ensures
        match version {
            Ok(v) => r matches Ok(bumper) && bumper@ == (VersionBumperView {
                version: v@,
                pre: pre_view(pre),
                build: build_view(build),
            }),
            Err(e) => r matches Err(same) && same == e,
        },
{
    match version {
        Ok(v) => Ok(VersionBumper::new(v).maybe_pre(pre).maybe_build(build)),
        Err(e) => Err(e),
    }
}

/// What a bump of `component` gives, from the version at hand and the labels
/// given with the request: the bumped version, with the labels given and no
/// others, or the number that cannot grow.
pub open spec fn version_bumped(
    at_hand: VersionView,
    component: Component,
    pre: Option<Seq<IdentifierView>>,
    build: Option<Seq<IdentifierView>>,
) -> Result<VersionView, Overflow> {
    let bumper = VersionBumperView { version: at_hand, pre, build };
    match component {
        Component::Major => if at_hand.major < u64::MAX {
            Ok(bumper.bumped_major())
        } else {
            Err(Overflow::Major)
        },
        Component::Minor => if at_hand.minor < u64::MAX {
            Ok(bumper.bumped_minor())
        } else {
            Err(Overflow::Minor)
        },
        Component::Patch => if at_hand.patch < u64::MAX {
            Ok(bumper.bumped_patch())
        } else {
            Err(Overflow::Patch)
        },
    }
}

/// Bumps `component` of the version at hand, with the labels given.
pub fn bump_version(
    at_hand: Version,
    component: Component,
    pre: Option<PreRelease>,
    build: Option<BuildMetadata>,
) -> (r: Result<Version, Overflow>)
    ensures
        match version_bumped(at_hand@, component, pre_view(pre), build_view(build)) {
            Ok(m) => r matches Ok(v) && v@ == m,
            Err(overflow) => r matches Err(e) && e == overflow,
        },
{
    let bumper = VersionBumper::new(at_hand).maybe_pre(pre).maybe_build(build);
    match component {
        Component::Major => bumper.bump_major(),
        Component::Minor => bumper.bump_minor(),
        Component::Patch => bumper.bump_patch(),
    }
}

/// The version that a request to set gives, from the version at hand.
pub fn set_version(initial_version: Version, set: SetVersion) -> (version: Version)
    ensures
        version@ == version_set(initial_version@, set@),
{
    match set {
        SetVersion::Version(version) => version,
        SetVersion::Parts { major, minor, patch, pre, build } => {
            let mut bumper = VersionBumper::new(initial_version);

            if let Some(major) = major {
                bumper = bumper.major(major);
            }
            if let Some(minor) = minor {
                bumper = bumper.minor(minor);
            }
            if let Some(patch) = patch {
                bumper = bumper.patch(patch);
            }
            match pre {
                SetPreRelease::Replace(pre) => bumper = bumper.pre(pre),
                SetPreRelease::Clear => bumper = bumper.clear_pre(),
                SetPreRelease::Keep => {},
            }
            match build {
                SetBuildMetadata::Replace(build) => bumper = bumper.build(build),
                SetBuildMetadata::Clear => bumper = bumper.clear_build(),
                SetBuildMetadata::Keep => {},
            }

            bumper.no_bump()
        },
    }
}

/// What a request makes of the version at hand.
pub open spec fn request_outcome(at_hand: VersionView, request: RequestView) -> Result<
    VersionView,
    Overflow,
> {
    match request {
        RequestView::Bump { component, pre, build } => version_bumped(
            at_hand,
            component,
            pre,
            build,
        ),
        RequestView::SetTo(set) => Ok(version_set(at_hand, set)),
    }
}

/// Meets a request on the version at hand.
pub fn resolve(at_hand: Version, request: Request) -> (r: Result<Version, Overflow>)
    ensures
        match request_outcome(at_hand@, request@) {
            Ok(m) => r matches Ok(v) && v@ == m,
            Err(overflow) => r matches Err(e) && e == overflow,
        },
{
    match request {
        Request::Bump { component, pre, build } => bump_version(at_hand, component, pre, build),
        Request::SetTo(set) => Ok(set_version(at_hand, set)),
    }
}

} // verus!
