use versio::decimal::{numeral_value, push_decimal};
use versio::identifier::{identifiers_well_formed, push_joined, same_identifiers, Identifier};
use versio::version::Version;

fn name(s: &str) -> Identifier {
    Identifier::AlphaNumeric(s.to_string())
}

#[test]
fn push_decimal_appends_the_numeral() {
    let mut out = String::from("v");
    push_decimal(&mut out, 0);
    push_decimal(&mut out, 7);
    push_decimal(&mut out, 10);
    push_decimal(&mut out, 1090);
    push_decimal(&mut out, u64::MAX);

    assert_eq!(out, "v0710109018446744073709551615");
}

#[test]
fn numeral_value_reads_numerals_only() {
    assert_eq!(numeral_value("0"), Some(0));
    assert_eq!(numeral_value("7"), Some(7));
    assert_eq!(numeral_value("1090"), Some(1090));
    assert_eq!(numeral_value("18446744073709551615"), Some(u64::MAX));
    assert_eq!(numeral_value("18446744073709551616"), None);
    assert_eq!(numeral_value("99999999999999999999999"), None);
    assert_eq!(numeral_value(""), None);
    assert_eq!(numeral_value("00"), None);
    assert_eq!(numeral_value("01"), None);
    assert_eq!(numeral_value("12a"), None);
    assert_eq!(numeral_value("-1"), None);
    assert_eq!(numeral_value("+1"), None);
    assert_eq!(numeral_value(" 1"), None);
    assert_eq!(numeral_value("\u{661}\u{662}"), None);
}

#[test]
fn identifier_to_string() {
    assert_eq!(Identifier::Numeric(0).to_string(), "0");
    assert_eq!(Identifier::Numeric(120).to_string(), "120");
    assert_eq!(name("alpha-1").to_string(), "alpha-1");
}

#[test]
fn identifier_is_well_formed() {
    assert!(Identifier::Numeric(0).is_well_formed());
    assert!(Identifier::Numeric(u64::MAX).is_well_formed());
    assert!(name("alpha").is_well_formed());
    assert!(name("a-B-9").is_well_formed());
    assert!(name("-").is_well_formed());
    assert!(name("00").is_well_formed());
    assert!(name("012").is_well_formed());
    assert!(name("18446744073709551616").is_well_formed());

    assert!(!name("").is_well_formed());
    assert!(!name("0").is_well_formed());
    assert!(!name("12").is_well_formed());
    assert!(!name("18446744073709551615").is_well_formed());
    assert!(!name("a.b").is_well_formed());
    assert!(!name("a+b").is_well_formed());
    assert!(!name("a b").is_well_formed());
    assert!(!name("a_b").is_well_formed());
    assert!(!name("\u{e9}").is_well_formed());
}

#[test]
fn identifiers_well_formed_looks_at_each() {
    assert!(identifiers_well_formed(&vec![]));
    assert!(identifiers_well_formed(&vec![name("a"), Identifier::Numeric(1)]));
    assert!(!identifiers_well_formed(&vec![name("a"), name("1")]));
    assert!(!identifiers_well_formed(&vec![name(""), name("a")]));
}

#[test]
fn identifier_equality() {
    assert_eq!(Identifier::Numeric(1), Identifier::Numeric(1));
    assert_ne!(Identifier::Numeric(1), Identifier::Numeric(2));
    assert_eq!(name("a"), name("a"));
    assert_ne!(name("a"), name("b"));
    assert_ne!(name("1"), Identifier::Numeric(1));
    assert_ne!(Identifier::Numeric(1), name("1"));
}

#[test]
fn same_identifiers_compares_in_order() {
    let a = vec![name("a"), Identifier::Numeric(1)];

    assert!(same_identifiers(&a, &vec![name("a"), Identifier::Numeric(1)]));
    assert!(!same_identifiers(&a, &vec![Identifier::Numeric(1), name("a")]));
    assert!(!same_identifiers(&a, &vec![name("a")]));
    assert!(!same_identifiers(&a, &vec![name("a"), Identifier::Numeric(2)]));
    assert!(same_identifiers(&vec![], &vec![]));
}

#[test]
fn push_joined_puts_dots_between() {
    let mut out = String::from("-");
    push_joined(&mut out, &vec![]);
    assert_eq!(out, "-");

    push_joined(&mut out, &vec![name("rc")]);
    assert_eq!(out, "-rc");

    let mut out = String::new();
    push_joined(&mut out, &vec![name("rc"), Identifier::Numeric(10), name("x")]);
    assert_eq!(out, "rc.10.x");
}

#[test]
fn versions_that_differ_are_written_differently() {
    let texts = [
        "1.2.3",
        "12.3.0",
        "1.23.0",
        "1.2.30",
        "1.2.3-0",
        "1.2.3+0",
        "1.2.3-a.b",
        "1.2.3-a+b",
        "1.2.3-a-b",
        "1.2.3-00",
        "1.2.3-0.0",
    ];
    for (i, s) in texts.iter().enumerate() {
        for (j, t) in texts.iter().enumerate() {
            let a = Version::from_str(s).unwrap();
            let b = Version::from_str(t).unwrap();
            assert_eq!(a == b, i == j);
            assert_eq!(a.to_string() == b.to_string(), i == j);
        }
    }
}
