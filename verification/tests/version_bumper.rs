use versio::bumper::VersionBumper;
use versio::label::{BuildMetadata, PreRelease};
use versio::version::Version;

fn version(version_str: &str) -> Version {
    Version::from_str(version_str).expect("version str should parse")
}

fn pre(pre_str: &str) -> PreRelease {
    PreRelease::from_str(pre_str).expect("pre str should parse")
}

fn build(build_str: &str) -> BuildMetadata {
    BuildMetadata::from_str(build_str).expect("build str should parse")
}

fn bumper(version_str: &str) -> VersionBumper {
    VersionBumper::new(version(version_str))
}

#[test]
fn major() {
    assert_eq!(bumper("1.2.3").bump_major().unwrap().to_string(), "2.0.0");
}

#[test]
fn major_zero() {
    assert_eq!(bumper("0.0.0").bump_major().unwrap().to_string(), "1.0.0");
}

#[test]
fn major_nine_to_ten() {
    assert_eq!(bumper("9.0.0").bump_major().unwrap().to_string(), "10.0.0");
}

#[test]
fn major_ninety_nine_to_one_hundred() {
    assert_eq!(bumper("99.0.0").bump_major().unwrap().to_string(), "100.0.0");
}

#[test]
fn major_exisiting_pre() {
    assert_eq!(bumper("1.2.3-alpha").bump_major().unwrap().to_string(), "2.0.0");
}

#[test]
fn major_exisiting_build() {
    assert_eq!(bumper("1.2.3+build1").bump_major().unwrap().to_string(), "2.0.0");
}

#[test]
fn major_exisiting_pre_and_build() {
    assert_eq!(
        bumper("1.2.3-alpha+build1").bump_major().unwrap().to_string(),
        "2.0.0"
    );
}

#[test]
fn major_and_pre() {
    assert_eq!(
        bumper("1.2.3").pre(pre("rc1")).bump_major().unwrap().to_string(),
        "2.0.0-rc1"
    );
}

#[test]
fn major_and_pre_and_clear() {
    assert_eq!(
        bumper("1.2.3")
            .pre(pre("rc1"))
            .clear_pre()
            .bump_major().unwrap()
            .to_string(),
        "2.0.0"
    );
}

#[test]
fn major_and_maybe_pre_some() {
    assert_eq!(
        bumper("1.2.3")
            .maybe_pre(Some(pre("rc1")))
            .bump_major().unwrap()
            .to_string(),
        "2.0.0-rc1"
    );
}

#[test]
fn major_and_maybe_pre_none() {
    assert_eq!(
        bumper("1.2.3").maybe_pre(None).bump_major().unwrap().to_string(),
        "2.0.0"
    );
}

#[test]
fn major_exisiting_pre_and_pre() {
    assert_eq!(
        bumper("1.2.3-alpha")
            .pre(pre("beta"))
            .bump_major().unwrap()
            .to_string(),
        "2.0.0-beta"
    );
}

#[test]
fn major_and_build() {
    assert_eq!(
        bumper("1.2.3")
            .build(build("build7"))
            .bump_major().unwrap()
            .to_string(),
        "2.0.0+build7"
    );
}

#[test]
fn major_and_build_and_clear() {
    assert_eq!(
        bumper("1.2.3")
            .build(build("build7"))
            .clear_build()
            .bump_major().unwrap()
            .to_string(),
        "2.0.0"
    );
}

#[test]
fn major_and_maybe_build_some() {
    assert_eq!(
        bumper("1.2.3")
            .maybe_build(Some(build("build7")))
            .bump_major().unwrap()
            .to_string(),
        "2.0.0+build7"
    );
}

#[test]
fn major_and_maybe_build_none() {
    assert_eq!(
        bumper("1.2.3").maybe_build(None).bump_major().unwrap().to_string(),
        "2.0.0"
    );
}

#[test]
fn major_exisiting_build_and_build() {
    assert_eq!(
        bumper("1.2.3+build1")
            .build(build("yep"))
            .bump_major().unwrap()
            .to_string(),
        "2.0.0+yep"
    );
}

#[test]
fn major_and_pre_build() {
    assert_eq!(
        bumper("1.2.3")
            .build(build("build7"))
            .pre(pre("beta3"))
            .bump_major().unwrap()
            .to_string(),
        "2.0.0-beta3+build7"
    );
}

#[test]
fn major_exisiting_pre_and_build_and_pre_and_build() {
    assert_eq!(
        bumper("1.2.3-alpha+build1")
            .build(build("yep"))
            .pre(pre("beta1"))
            .bump_major().unwrap()
            .to_string(),
        "2.0.0-beta1+yep"
    );
}

#[test]
fn major_set_major() {
    assert_eq!(bumper("1.2.3").major(2).bump_major().unwrap().to_string(), "3.0.0");
}

#[test]
fn major_set_minor() {
    assert_eq!(bumper("1.2.3").minor(3).bump_major().unwrap().to_string(), "2.0.0");
}

#[test]
fn major_set_patch() {
    assert_eq!(bumper("1.2.3").patch(4).bump_major().unwrap().to_string(), "2.0.0");
}

#[test]
fn minor() {
    assert_eq!(bumper("1.2.3").bump_minor().unwrap().to_string(), "1.3.0");
}

#[test]
fn minor_zero() {
    assert_eq!(bumper("0.0.0").bump_minor().unwrap().to_string(), "0.1.0");
}

#[test]
fn minor_nine_to_ten() {
    assert_eq!(bumper("0.9.0").bump_minor().unwrap().to_string(), "0.10.0");
}

#[test]
fn minor_ninety_nine_to_one_hundred() {
    assert_eq!(bumper("0.99.0").bump_minor().unwrap().to_string(), "0.100.0");
}

#[test]
fn minor_exisiting_pre() {
    assert_eq!(bumper("1.2.3-alpha").bump_minor().unwrap().to_string(), "1.3.0");
}

#[test]
fn minor_exisiting_build() {
    assert_eq!(bumper("1.2.3+build1").bump_minor().unwrap().to_string(), "1.3.0");
}

#[test]
fn minor_exisiting_pre_and_build() {
    assert_eq!(
        bumper("1.2.3-alpha+build1").bump_minor().unwrap().to_string(),
        "1.3.0"
    );
}

#[test]
fn minor_and_pre() {
    assert_eq!(
        bumper("1.2.3").pre(pre("rc1")).bump_minor().unwrap().to_string(),
        "1.3.0-rc1"
    );
}

#[test]
fn minor_and_pre_and_clear() {
    assert_eq!(
        bumper("1.2.3")
            .pre(pre("rc1"))
            .clear_pre()
            .bump_minor().unwrap()
            .to_string(),
        "1.3.0"
    );
}

#[test]
fn minor_and_maybe_pre_some() {
    assert_eq!(
        bumper("1.2.3")
            .maybe_pre(Some(pre("rc1")))
            .bump_minor().unwrap()
            .to_string(),
        "1.3.0-rc1"
    );
}

#[test]
fn minor_and_maybe_pre_none() {
    assert_eq!(
        bumper("1.2.3").maybe_pre(None).bump_minor().unwrap().to_string(),
        "1.3.0"
    );
}

#[test]
fn minor_exisiting_pre_and_pre() {
    assert_eq!(
        bumper("1.2.3-alpha")
            .pre(pre("beta"))
            .bump_minor().unwrap()
            .to_string(),
        "1.3.0-beta"
    );
}

#[test]
fn minor_and_build() {
    assert_eq!(
        bumper("1.2.3")
            .build(build("build7"))
            .bump_minor().unwrap()
            .to_string(),
        "1.3.0+build7"
    );
}

#[test]
fn minor_and_build_and_clear() {
    assert_eq!(
        bumper("1.2.3")
            .build(build("build7"))
            .clear_build()
            .bump_minor().unwrap()
            .to_string(),
        "1.3.0"
    );
}

#[test]
fn minor_and_maybe_build_some() {
    assert_eq!(
        bumper("1.2.3")
            .maybe_build(Some(build("build7")))
            .bump_minor().unwrap()
            .to_string(),
        "1.3.0+build7"
    );
}

#[test]
fn minor_and_maybe_build_none() {
    assert_eq!(
        bumper("1.2.3").maybe_build(None).bump_minor().unwrap().to_string(),
        "1.3.0"
    );
}

#[test]
fn minor_exisiting_build_and_build() {
    assert_eq!(
        bumper("1.2.3+build1")
            .build(build("yep"))
            .bump_minor().unwrap()
            .to_string(),
        "1.3.0+yep"
    );
}

#[test]
fn minor_and_pre_build() {
    assert_eq!(
        bumper("1.2.3")
            .build(build("build7"))
            .pre(pre("beta3"))
            .bump_minor().unwrap()
            .to_string(),
        "1.3.0-beta3+build7"
    );
}

#[test]
fn minor_exisiting_pre_and_build_and_pre_and_build() {
    assert_eq!(
        bumper("1.2.3-alpha+build1")
            .build(build("yep"))
            .pre(pre("beta1"))
            .bump_minor().unwrap()
            .to_string(),
        "1.3.0-beta1+yep"
    );
}

#[test]
fn minor_set_major() {
    assert_eq!(bumper("1.2.3").major(2).bump_minor().unwrap().to_string(), "2.3.0");
}

#[test]
fn minor_set_minor() {
    assert_eq!(bumper("1.2.3").minor(3).bump_minor().unwrap().to_string(), "1.4.0");
}

#[test]
fn minor_set_patch() {
    assert_eq!(bumper("1.2.3").patch(4).bump_minor().unwrap().to_string(), "1.3.0");
}

#[test]
fn patch() {
    assert_eq!(bumper("1.2.3").bump_patch().unwrap().to_string(), "1.2.4");
}

#[test]
fn patch_zero() {
    assert_eq!(bumper("0.0.0").bump_patch().unwrap().to_string(), "0.0.1");
}

#[test]
fn patch_nine_to_ten() {
    assert_eq!(bumper("0.0.9").bump_patch().unwrap().to_string(), "0.0.10");
}

#[test]
fn patch_ninety_nine_to_one_hundred() {
    assert_eq!(bumper("0.0.99").bump_patch().unwrap().to_string(), "0.0.100");
}

#[test]
fn patch_exisiting_pre() {
    assert_eq!(bumper("1.2.3-alpha").bump_patch().unwrap().to_string(), "1.2.4");
}

#[test]
fn patch_exisiting_build() {
    assert_eq!(bumper("1.2.3+build1").bump_patch().unwrap().to_string(), "1.2.4");
}

#[test]
fn patch_exisiting_pre_and_build() {
    assert_eq!(
        bumper("1.2.3-alpha+build1").bump_patch().unwrap().to_string(),
        "1.2.4"
    );
}

#[test]
fn patch_and_pre() {
    assert_eq!(
        bumper("1.2.3").pre(pre("rc1")).bump_patch().unwrap().to_string(),
        "1.2.4-rc1"
    );
}

#[test]
fn patch_and_pre_and_clear() {
    assert_eq!(
        bumper("1.2.3")
            .pre(pre("rc1"))
            .clear_pre()
            .bump_patch().unwrap()
            .to_string(),
        "1.2.4"
    );
}

#[test]
fn patch_and_maybe_pre_some() {
    assert_eq!(
        bumper("1.2.3")
            .maybe_pre(Some(pre("rc1")))
            .bump_patch().unwrap()
            .to_string(),
        "1.2.4-rc1"
    );
}

#[test]
fn patch_and_maybe_pre_none() {
    assert_eq!(
        bumper("1.2.3").maybe_pre(None).bump_patch().unwrap().to_string(),
        "1.2.4"
    );
}

#[test]
fn patch_exisiting_pre_and_pre() {
    assert_eq!(
        bumper("1.2.3-alpha")
            .pre(pre("beta"))
            .bump_patch().unwrap()
            .to_string(),
        "1.2.4-beta"
    );
}

#[test]
fn patch_and_build() {
    assert_eq!(
        bumper("1.2.3")
            .build(build("build7"))
            .bump_patch().unwrap()
            .to_string(),
        "1.2.4+build7"
    );
}

#[test]
fn patch_and_build_and_clear() {
    assert_eq!(
        bumper("1.2.3")
            .build(build("build7"))
            .clear_build()
            .bump_patch().unwrap()
            .to_string(),
        "1.2.4"
    );
}

#[test]
fn patch_and_maybe_build_some() {
    assert_eq!(
        bumper("1.2.3")
            .maybe_build(Some(build("build7")))
            .bump_patch().unwrap()
            .to_string(),
        "1.2.4+build7"
    );
}

#[test]
fn patch_and_maybe_build_none() {
    assert_eq!(
        bumper("1.2.3").maybe_build(None).bump_patch().unwrap().to_string(),
        "1.2.4"
    );
}

#[test]
fn patch_exisiting_build_and_build() {
    assert_eq!(
        bumper("1.2.3+build1")
            .build(build("yep"))
            .bump_patch().unwrap()
            .to_string(),
        "1.2.4+yep"
    );
}

#[test]
fn patch_and_pre_build() {
    assert_eq!(
        bumper("1.2.3")
            .build(build("build7"))
            .pre(pre("beta3"))
            .bump_patch().unwrap()
            .to_string(),
        "1.2.4-beta3+build7"
    );
}

#[test]
fn patch_exisiting_pre_and_build_and_pre_and_build() {
    assert_eq!(
        bumper("1.2.3-alpha+build1")
            .build(build("yep"))
            .pre(pre("beta1"))
            .bump_patch().unwrap()
            .to_string(),
        "1.2.4-beta1+yep"
    );
}

#[test]
fn patch_set_major() {
    assert_eq!(bumper("1.2.3").major(2).bump_patch().unwrap().to_string(), "2.2.4");
}

#[test]
fn patch_set_minor() {
    assert_eq!(bumper("1.2.3").minor(3).bump_patch().unwrap().to_string(), "1.3.4");
}

#[test]
fn patch_set_patch() {
    assert_eq!(bumper("1.2.3").patch(4).bump_patch().unwrap().to_string(), "1.2.5");
}

#[test]
fn no_bump() {
    assert_eq!(bumper("1.2.3").no_bump().to_string(), "1.2.3");
}

#[test]
fn no_bump_zero() {
    assert_eq!(bumper("0.0.0").no_bump().to_string(), "0.0.0");
}

#[test]
fn no_bump_exisiting_pre() {
    assert_eq!(bumper("1.2.3-alpha").no_bump().to_string(), "1.2.3-alpha");
}

#[test]
fn no_bump_exisiting_build() {
    assert_eq!(bumper("1.2.3+build1").no_bump().to_string(), "1.2.3+build1");
}

#[test]
fn no_bump_exisiting_pre_and_build() {
    assert_eq!(
        bumper("1.2.3-alpha+build1").no_bump().to_string(),
        "1.2.3-alpha+build1"
    );
}

#[test]
fn no_bump_and_pre() {
    assert_eq!(
        bumper("1.2.3").pre(pre("rc1")).no_bump().to_string(),
        "1.2.3-rc1"
    );
}

#[test]
fn no_bump_and_pre_and_clear() {
    assert_eq!(
        bumper("1.2.3")
            .pre(pre("rc1"))
            .clear_pre()
            .no_bump()
            .to_string(),
        "1.2.3"
    );
}

#[test]
fn no_bump_and_maybe_pre_some() {
    assert_eq!(
        bumper("1.2.3")
            .maybe_pre(Some(pre("rc1")))
            .no_bump()
            .to_string(),
        "1.2.3-rc1"
    );
}

#[test]
fn no_bump_and_maybe_pre_none() {
    assert_eq!(
        bumper("1.2.3").maybe_pre(None).no_bump().to_string(),
        "1.2.3"
    );
}

#[test]
fn no_bump_exisiting_pre_and_pre() {
    assert_eq!(
        bumper("1.2.3-alpha").pre(pre("beta")).no_bump().to_string(),
        "1.2.3-beta"
    );
}

#[test]
fn no_bump_and_build() {
    assert_eq!(
        bumper("1.2.3").build(build("build7")).no_bump().to_string(),
        "1.2.3+build7"
    );
}

#[test]
fn no_bump_and_build_and_clear() {
    assert_eq!(
        bumper("1.2.3")
            .build(build("build7"))
            .clear_build()
            .no_bump()
            .to_string(),
        "1.2.3"
    );
}

#[test]
fn no_bump_and_maybe_build_some() {
    assert_eq!(
        bumper("1.2.3")
            .maybe_build(Some(build("build7")))
            .no_bump()
            .to_string(),
        "1.2.3+build7"
    );
}

#[test]
fn no_bump_and_maybe_build_none() {
    assert_eq!(
        bumper("1.2.3").maybe_build(None).no_bump().to_string(),
        "1.2.3"
    );
}

#[test]
fn no_bump_exisiting_build_and_build() {
    assert_eq!(
        bumper("1.2.3+build1")
            .build(build("yep"))
            .no_bump()
            .to_string(),
        "1.2.3+yep"
    );
}

#[test]
fn no_bump_and_pre_build() {
    assert_eq!(
        bumper("1.2.3")
            .build(build("build7"))
            .pre(pre("beta3"))
            .no_bump()
            .to_string(),
        "1.2.3-beta3+build7"
    );
}

#[test]
fn no_bump_exisiting_pre_and_build_and_pre_and_build() {
    assert_eq!(
        bumper("1.2.3-alpha+build1")
            .build(build("yep"))
            .pre(pre("beta1"))
            .no_bump()
            .to_string(),
        "1.2.3-beta1+yep"
    );
}

#[test]
fn no_bump_set_major() {
    assert_eq!(bumper("1.2.3").major(2).no_bump().to_string(), "2.2.3");
}

#[test]
fn no_bump_set_minor() {
    assert_eq!(bumper("1.2.3").minor(3).no_bump().to_string(), "1.3.3");
}

#[test]
fn no_bump_set_patch() {
    assert_eq!(bumper("1.2.3").patch(4).no_bump().to_string(), "1.2.4");
}
