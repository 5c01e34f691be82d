//! What a request to set a version asks for.

use crate::identifier::IdentifierView;
use crate::label::{BuildMetadata, PreRelease};
use crate::version::{Version, VersionView};
use vstd::prelude::*;

use crate::cli::bump::Component;

pub mod bump;

verus! {

/// The labels that may be given with any request.
#[derive(Debug)]
pub struct BumpCommonArgs {
    pub pre_release: Option<PreRelease>,
    pub build_metadata: Option<BuildMetadata>,
}

/// What may be given with a request to set a version.
#[derive(Debug)]
pub struct BumpSetArgs {
    pub major: Option<u64>,
    pub minor: Option<u64>,
    pub patch: Option<u64>,
    pub version: Option<Version>,
    pub no_pre_release: bool,
    pub no_build_metadata: bool,
}

/// What is to become of the pre-release label.
#[derive(Debug)]
pub enum SetPreRelease {
    /// It is replaced by this one.
    Replace(PreRelease),
    /// It is removed.
    Clear,
    /// It stays as it is.
    Keep,
}

/// What is to become of the build label.
#[derive(Debug)]
pub enum SetBuildMetadata {
    /// It is replaced by this one.
    Replace(BuildMetadata),
    /// It is removed.
    Clear,
    /// It stays as it is.
    Keep,
}

/// A request to set a version: to a whole version, or part by part.
#[derive(Debug)]
pub enum SetVersion {
    /// The version becomes this one.
    Version(Version),
    /// Each part that is given replaces the version's.
    Parts {
        major: Option<u64>,
        minor: Option<u64>,
        patch: Option<u64>,
        pre: SetPreRelease,
        build: SetBuildMetadata,
    },
}

/// What is asked of the version at hand.
#[derive(Debug)]
pub enum Request {
    /// One number is incremented, and the labels are those given here.
    Bump { component: Component, pre: Option<PreRelease>, build: Option<BuildMetadata> },
    /// The version, or parts of it, are set as given.
    SetTo(SetVersion),
}

/// What a [`Request`] stands for.
pub enum RequestView {
    Bump {
        component: Component,
        pre: Option<Seq<IdentifierView>>,
        build: Option<Seq<IdentifierView>>,
    },
    SetTo(SetVersionView),
}

/// What [`SetPreRelease`] and [`SetBuildMetadata`] stand for.
pub enum SetLabelView {
    Replace(Seq<IdentifierView>),
    Clear,
    Keep,
}

/// What a [`SetVersion`] stands for.
pub enum SetVersionView {
    Version(VersionView),
    Parts {
        major: Option<nat>,
        minor: Option<nat>,
        patch: Option<nat>,
        pre: SetLabelView,
        build: SetLabelView,
    },
}

impl View for SetPreRelease {
    type V = SetLabelView;

    open spec fn view(&self) -> SetLabelView {
        match self {
            SetPreRelease::Replace(pre) => SetLabelView::Replace(pre@),
            SetPreRelease::Clear => SetLabelView::Clear,
            SetPreRelease::Keep => SetLabelView::Keep,
        }
    }
}

impl View for SetBuildMetadata {
    type V = SetLabelView;

    open spec fn view(&self) -> SetLabelView {
        match self {
            SetBuildMetadata::Replace(build) => SetLabelView::Replace(build@),
            SetBuildMetadata::Clear => SetLabelView::Clear,
            SetBuildMetadata::Keep => SetLabelView::Keep,
        }
    }
}

/// The number that an optional `u64` stands for, if any.
pub open spec fn number_view(n: Option<u64>) -> Option<nat> {
    match n {
        Some(n) => Some(n as nat),
        None => None,
    }
}

impl View for SetVersion {
    type V = SetVersionView;

    open spec fn view(&self) -> SetVersionView {
        match self {
            SetVersion::Version(version) => SetVersionView::Version(version@),
            SetVersion::Parts { major, minor, patch, pre, build } => SetVersionView::Parts {
                major: number_view(*major),
                minor: number_view(*minor),
                patch: number_view(*patch),
                pre: pre@,
                build: build@,
            },
        }
    }
}

/// What is asked of a label: removed where the flag says so, whatever else is
/// given; else replaced by the label that is given; else left as it is.
pub open spec fn label_request(clear: bool, given: Option<Seq<IdentifierView>>) -> SetLabelView {
    if clear {
        SetLabelView::Clear
    } else {
        match given {
            Some(label) => SetLabelView::Replace(label),
            None => SetLabelView::Keep,
        }
    }
}

/// The pre-release label that is given, if any.
pub open spec fn pre_view(pre: Option<PreRelease>) -> Option<Seq<IdentifierView>> {
    match pre {
        Some(pre) => Some(pre@),
        None => None,
    }
}

/// The build label that is given, if any.
pub open spec fn build_view(build: Option<BuildMetadata>) -> Option<Seq<IdentifierView>> {
    match build {
        Some(build) => Some(build@),
        None => None,
    }
}

impl View for Request {
    type V = RequestView;

    open spec fn view(&self) -> RequestView {
        match self {
            Request::Bump { component, pre, build } => RequestView::Bump {
                component: *component,
                pre: pre_view(*pre),
                build: build_view(*build),
            },
            Request::SetTo(set) => RequestView::SetTo(set@),
        }
    }
}

/// The release of this tool.
pub struct BuildInfo;

/// The text of this tool's release.
pub open spec fn release_text() -> Seq<char> {
    seq!['0', '.', '1', '.', '0']
}

/// What follows the release in its long form: a blank line, then the name of
/// the binary and the release, each on a line of its own.
pub open spec fn release_details() -> Seq<char> {
    seq!['\n', '\n', 'b', 'i', 'n', 'a', 'r', 'y', ':', ' ', 'v', 'e', 'r', 's', 'i', 'o', '\n']
        + seq!['r', 'e', 'l', 'e', 'a', 's', 'e', ':', ' '] + release_text()
}

impl BuildInfo {
    /// The release, as the tool prints it after its name.
    pub fn version_short() -> (text: &'static str)
        ensures
            text@ == release_text(),
    {
        let text = "0.1.0";
        proof {
            reveal_strlit("0.1.0");
            assert(text@ =~= release_text());
        }
        text
    }

    /// The release in its long form: the release, then its details.
    pub fn version_long() -> (text: &'static str)
        ensures
            text@ == release_text() + release_details(),
    {
        let text = "0.1.0\n\nbinary: versio\nrelease: 0.1.0";
        proof {
            reveal_strlit("0.1.0\n\nbinary: versio\nrelease: 0.1.0");
            assert(text@ =~= release_text() + release_details());
        }
        text
    }
}

impl SetVersion {
    /// The request that the arguments make. A whole version, where one is
    /// given, is the request, and the other arguments are not looked at.
    /// Otherwise the request goes part by part, with the numbers as they are
    /// given and each label as [`label_request`] says.
    pub fn from_args(common: BumpCommonArgs, set: BumpSetArgs) -> (request: SetVersion)
        ensures
            request@ == match set.version {
                Some(version) => SetVersionView::Version(version@),
                None => SetVersionView::Parts {
                    major: number_view(set.major),
                    minor: number_view(set.minor),
                    patch: number_view(set.patch),
                    pre: label_request(set.no_pre_release, pre_view(common.pre_release)),
                    build: label_request(set.no_build_metadata, build_view(common.build_metadata)),
                },
            },
    {
        match set.version {
            Some(version) => SetVersion::Version(version),
            None => SetVersion::Parts {
                major: set.major,
                minor: set.minor,
                patch: set.patch,
                pre: if set.no_pre_release {
                    SetPreRelease::Clear
                } else {
                    match common.pre_release {
                        Some(pre) => SetPreRelease::Replace(pre),
                        None => SetPreRelease::Keep,
                    }
                },
                build: if set.no_build_metadata {
                    SetBuildMetadata::Clear
                } else {
                    match common.build_metadata {
                        Some(build) => SetBuildMetadata::Replace(build),
                        None => SetBuildMetadata::Keep,
                    }
                },
            },
        }
    }
}

} // verus!
