//! The bumper: a version and the changes that are to be made to it.

use crate::identifier::{all_well_formed, IdentifierView};
use crate::label::{BuildMetadata, PreRelease};
use crate::version::{Version, VersionView};
use vstd::prelude::*;

verus! {

/// The number that could not be incremented: it is the largest `u64`.
#[derive(Debug, Clone, Copy, PartialEq, Eq, Structural)]
pub enum Overflow {
    Major,
    Minor,
    Patch,
}

/// Builds a version from a starting version. Numbers that are set and labels
/// that are cleared change the version at once; a label that is given is kept
/// aside and replaces the version's label when the bumper is finished.
#[derive(Debug)]
pub struct VersionBumper {
    version: Version,
    pre: Option<PreRelease>,
    build: Option<BuildMetadata>,
}

/// What a [`VersionBumper`] stands for: the version as it is now, and the
/// labels that are kept aside.
pub struct VersionBumperView {
    pub version: VersionView,
    pub pre: Option<Seq<IdentifierView>>,
    pub build: Option<Seq<IdentifierView>>,
}

impl VersionBumperView {
    /// The bumper that starts from `version`, with nothing kept aside.
    pub open spec fn start(version: VersionView) -> VersionBumperView {
        VersionBumperView { version, pre: None, build: None }
    }

    /// Keeps `pre` aside, in place of any pre-release label kept before.
    pub open spec fn with_pre(self, pre: Seq<IdentifierView>) -> VersionBumperView {
        VersionBumperView { pre: Some(pre), ..self }
    }

    /// Removes the pre-release label: the version's and the one kept aside.
    pub open spec fn without_pre(self) -> VersionBumperView {
        VersionBumperView {
            version: VersionView { pre: Seq::empty(), ..self.version },
            pre: None,
            ..self
        }
    }

    /// Keeps `build` aside, in place of any build label kept before.
    pub open spec fn with_build(self, build: Seq<IdentifierView>) -> VersionBumperView {
        VersionBumperView { build: Some(build), ..self }
    }

    /// Removes the build label: the version's and the one kept aside.
    pub open spec fn without_build(self) -> VersionBumperView {
        VersionBumperView {
            version: VersionView { build: Seq::empty(), ..self.version },
            build: None,
            ..self
        }
    }

    /// Sets the major number.
    pub open spec fn with_major(self, major: nat) -> VersionBumperView {
        VersionBumperView { version: VersionView { major, ..self.version }, ..self }
    }

    /// Sets the minor number.
    pub open spec fn with_minor(self, minor: nat) -> VersionBumperView {
        VersionBumperView { version: VersionView { minor, ..self.version }, ..self }
    }

    /// Sets the patch number.
    pub open spec fn with_patch(self, patch: nat) -> VersionBumperView {
        VersionBumperView { version: VersionView { patch, ..self.version }, ..self }
    }

    /// The version that the bumper ends in: each label that is kept aside
    /// replaces the version's label of its kind, and all else stays.
    pub open spec fn finished(self) -> VersionView {
        VersionView {
            pre: match self.pre {
                Some(pre) => pre,
                None => self.version.pre,
            },
            build: match self.build {
                Some(build) => build,
                None => self.version.build,
            },
            ..self.version
        }
    }

    /// The next major version: the major number plus one, minor and patch
    /// zero, and no labels but those kept aside.
    pub open spec fn bumped_major(self) -> VersionView {
        VersionView {
            major: self.version.major + 1,
            minor: 0,
            patch: 0,
            pre: self.staged_pre(),
            build: self.staged_build(),
        }
    }

    /// The next minor version: the minor number plus one, patch zero, the
    /// major number as it is, and no labels but those kept aside.
    pub open spec fn bumped_minor(self) -> VersionView {
        VersionView {
            major: self.version.major,
            minor: self.version.minor + 1,
            patch: 0,
            pre: self.staged_pre(),
            build: self.staged_build(),
        }
    }

    /// The next patch version: the patch number plus one, major and minor as
    /// they are, and no labels but those kept aside.
    pub open spec fn bumped_patch(self) -> VersionView {
        VersionView {
            major: self.version.major,
            minor: self.version.minor,
            patch: self.version.patch + 1,
            pre: self.staged_pre(),
            build: self.staged_build(),
        }
    }

    /// The pre-release label kept aside, or the empty label.
    pub open spec fn staged_pre(self) -> Seq<IdentifierView> {
        match self.pre {
            Some(pre) => pre,
            None => Seq::empty(),
        }
    }

    /// The build label kept aside, or the empty label.
    pub open spec fn staged_build(self) -> Seq<IdentifierView> {
        match self.build {
            Some(build) => build,
            None => Seq::empty(),
        }
    }

    /// The version is well formed, and so are the identifiers kept aside.
    pub open spec fn well_formed(self) -> bool {
        &&& self.version.well_formed()
        &&& all_well_formed(self.staged_pre())
        &&& all_well_formed(self.staged_build())
    }
}

impl View for VersionBumper {
    type V = VersionBumperView;

    closed spec fn view(&self) -> VersionBumperView {
        VersionBumperView {
            version: self.version@,
            pre: match self.pre {
                Some(pre) => Some(pre@),
                None => None,
            },
            build: match self.build {
                Some(build) => Some(build@),
                None => None,
            },
        }
    }
}

impl VersionBumper {
    /// Starts from `version`, with nothing kept aside.
    pub fn new(version: Version) -> (bumper: VersionBumper)
        ensures
            bumper@ == VersionBumperView::start(version@),
    {
        VersionBumper { version, pre: None, build: None }
    }

    /// Keeps `pre` aside where one is given, and changes nothing otherwise.
    pub fn maybe_pre(self, pre: Option<PreRelease>) -> (bumper: VersionBumper)
        ensures
            bumper@ == match pre {
                Some(p) => self@.with_pre(p@),
                None => self@,
            },
    {
        match pre {
            Some(pre) => self.pre(pre),
            None => self,
        }
    }

    /// Keeps `pre` aside: it becomes the pre-release label when the bumper is
    /// finished, unless it is replaced or cleared before.
    pub fn pre(self, pre: PreRelease) -> (bumper: VersionBumper)
        ensures
            bumper@ == self@.with_pre(pre@),
    {
        let mut bumper = self;
        bumper.pre = Some(pre);
        bumper
    }

    /// Removes the version's pre-release label and the one kept aside.
    pub fn clear_pre(self) -> (bumper: VersionBumper)
        ensures
            bumper@ == self@.without_pre(),
    {
        let mut bumper = self;
        bumper.version.pre = Vec::new();
        bumper.pre = None;
        assert(bumper@.version.pre =~= Seq::empty());
        bumper
    }

    /// Keeps `build` aside where one is given, and changes nothing otherwise.
    pub fn maybe_build(self, build: Option<BuildMetadata>) -> (bumper: VersionBumper)
        ensures
            bumper@ == match build {
                Some(b) => self@.with_build(b@),
                None => self@,
            },
    {
        match build {
            Some(build) => self.build(build),
            None => self,
        }
    }

    /// Keeps `build` aside: it becomes the build label when the bumper is
    /// finished, unless it is replaced or cleared before.
    pub fn build(self, build: BuildMetadata) -> (bumper: VersionBumper)
        ensures
            bumper@ == self@.with_build(build@),
    {
        let mut bumper = self;
        bumper.build = Some(build);
        bumper
    }

    /// Removes the version's build label and the one kept aside.
    pub fn clear_build(self) -> (bumper: VersionBumper)
        ensures
            bumper@ == self@.without_build(),
    {
        let mut bumper = self;
        bumper.version.build = Vec::new();
        bumper.build = None;
        assert(bumper@.version.build =~= Seq::empty());
        bumper
    }

    /// Sets the major number.
    pub fn major(self, major: u64) -> (bumper: VersionBumper)
        ensures
            bumper@ == self@.with_major(major as nat),
    {
        let mut bumper = self;
        bumper.version.major = major;
        bumper
    }

    /// Finishes with the next major version, or reports that the major number
    /// cannot grow.
    pub fn bump_major(self) -> (r: Result<Version, Overflow>)
        ensures
            match r {
                Ok(v) => self@.version.major < u64::MAX && v@ == self@.bumped_major(),
                Err(e) => self@.version.major == u64::MAX && e == Overflow::Major,
            },
    {
        if self.version.major == u64::MAX {
            return Err(Overflow::Major);
        }
        let mut bumper = self;
        bumper.version.major = bumper.version.major + 1;
        bumper.version.minor = 0;
        bumper.version.patch = 0;
        bumper.version.pre = Vec::new();
        bumper.version.build = Vec::new();
        assert(bumper@.version.pre =~= Seq::empty());
        assert(bumper@.version.build =~= Seq::empty());
        let version = bumper.consume();
        Ok(version)
    }

    /// Sets the minor number.
    pub fn minor(self, minor: u64) -> (bumper: VersionBumper)
        ensures
            bumper@ == self@.with_minor(minor as nat),
    {
        let mut bumper = self;
        bumper.version.minor = minor;
        bumper
    }

    /// Finishes with the next minor version, or reports that the minor number
    /// cannot grow.
    pub fn bump_minor(self) -> (r: Result<Version, Overflow>)
        ensures
            match r {
                Ok(v) => self@.version.minor < u64::MAX && v@ == self@.bumped_minor(),
                Err(e) => self@.version.minor == u64::MAX && e == Overflow::Minor,
            },
    {
        if self.version.minor == u64::MAX {
            return Err(Overflow::Minor);
        }
        let mut bumper = self;
        bumper.version.minor = bumper.version.minor + 1;
        bumper.version.patch = 0;
        bumper.version.pre = Vec::new();
        bumper.version.build = Vec::new();
        assert(bumper@.version.pre =~= Seq::empty());
        assert(bumper@.version.build =~= Seq::empty());
        let version = bumper.consume();
        Ok(version)
    }

    /// Finishes with the next patch version, or reports that the patch number
    /// cannot grow.
    pub fn bump_patch(self) -> (r: Result<Version, Overflow>)
        ensures
            match r {
                Ok(v) => self@.version.patch < u64::MAX && v@ == self@.bumped_patch(),
                Err(e) => self@.version.patch == u64::MAX && e == Overflow::Patch,
            },
    {
        if self.version.patch == u64::MAX {
            return Err(Overflow::Patch);
        }
        let mut bumper = self;
        bumper.version.patch = bumper.version.patch + 1;
        bumper.version.pre = Vec::new();
        bumper.version.build = Vec::new();
        assert(bumper@.version.pre =~= Seq::empty());
        assert(bumper@.version.build =~= Seq::empty());
        let version = bumper.consume();
        Ok(version)
    }

    /// Sets the patch number.
    pub fn patch(self, patch: u64) -> (bumper: VersionBumper)
        ensures
            bumper@ == self@.with_patch(patch as nat),
    {
        let mut bumper = self;
        bumper.version.patch = patch;
        bumper
    }

    /// Finishes without changing a number.
    pub fn no_bump(self) -> (version: Version)
        ensures
            version@ == self@.finished(),
    {
        self.consume()
    }

    fn consume(self) -> (version: Version)
        ensures
            version@ == self@.finished(),
    {
        let mut version = self.version;
        if let Some(pre) = self.pre {
            version.pre = pre.0;
        }
        if let Some(build) = self.build {
            version.build = build.0;
        }
        version
    }
}

} // verus!
