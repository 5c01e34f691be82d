//! What holds of reading, writing and bumping, whatever the version.

use crate::bumper::VersionBumperView;
use crate::decimal::{decimal, is_digit, is_numeral, lemma_decimal_canonical, lemma_decimal_injective};
use crate::identifier::{all_well_formed, joined, IdentifierView};
use crate::version::{label_text, read, VersionView};
use vstd::prelude::*;

verus! {

/// A text that is read as a version is the canonical text of that version.
/// So writing what was read and reading it again gives the same version, and
/// writing that gives the same text.
pub proof fn law_read_write_round_trip(text: Seq<char>)
    requires
        read(text) is Some,
    ensures
        read(text)->0.text() == text,
        read(read(text)->0.text()) == read(text),
        read(read(text)->0.text())->0.text() == read(text)->0.text(),
{
}

/// The next major version has the major number plus one, and zero for the
/// minor and the patch number, whatever was set or kept aside before.
pub proof fn law_bump_major_numbers(bumper: VersionBumperView)
    ensures
        bumper.bumped_major().major == bumper.version.major + 1,
        bumper.bumped_major().minor == 0,
        bumper.bumped_major().patch == 0,
{
}

/// The next minor version has the minor number plus one, zero for the patch
/// number, and the major number unchanged.
pub proof fn law_bump_minor_numbers(bumper: VersionBumperView)
    ensures
        bumper.bumped_minor().major == bumper.version.major,
        bumper.bumped_minor().minor == bumper.version.minor + 1,
        bumper.bumped_minor().patch == 0,
{
}

/// The next patch version has the patch number plus one, and the major and
/// the minor number unchanged.
pub proof fn law_bump_patch_numbers(bumper: VersionBumperView)
    ensures
        bumper.bumped_patch().major == bumper.version.major,
        bumper.bumped_patch().minor == bumper.version.minor,
        bumper.bumped_patch().patch == bumper.version.patch + 1,
{
}

/// Bumping a version with nothing kept aside leaves it without labels,
/// whatever labels it had.
pub proof fn law_bump_drops_labels(version: VersionView)
    ensures
        VersionBumperView::start(version).bumped_major().pre.len() == 0,
        VersionBumperView::start(version).bumped_major().build.len() == 0,
        VersionBumperView::start(version).bumped_minor().pre.len() == 0,
        VersionBumperView::start(version).bumped_minor().build.len() == 0,
        VersionBumperView::start(version).bumped_patch().pre.len() == 0,
        VersionBumperView::start(version).bumped_patch().build.len() == 0,
{
}

/// Of giving and clearing a pre-release label, the later one decides: cleared
/// after it was given, the bumped version has none; given after it was
/// cleared, the bumped version has the one given.
pub proof fn law_last_pre_wins(version: VersionView, pre: Seq<IdentifierView>)
    ensures
        VersionBumperView::start(version).with_pre(pre).without_pre().bumped_major().pre.len()
            == 0,
        VersionBumperView::start(version).without_pre().with_pre(pre).bumped_major().pre == pre,
        VersionBumperView::start(version).with_pre(pre).without_pre().finished().pre.len() == 0,
        VersionBumperView::start(version).without_pre().with_pre(pre).finished().pre == pre,
{
}

/// Of giving and clearing a build label, the later one decides.
pub proof fn law_last_build_wins(version: VersionView, build: Seq<IdentifierView>)
    ensures
        VersionBumperView::start(version).with_build(build).without_build().bumped_major().build.len()
            == 0,
        VersionBumperView::start(version).without_build().with_build(build).bumped_major().build
            == build,
        VersionBumperView::start(version).with_build(build).without_build().finished().build.len()
            == 0,
        VersionBumperView::start(version).without_build().with_build(build).finished().build
            == build,
{
}

/// Finishing a bumper to which nothing was done gives back the version it
/// started from.
pub proof fn law_no_bump_identity(version: VersionView)
    ensures
        VersionBumperView::start(version).finished() == version,
{
}

/// A well-formed bumper ends in a well-formed version, bumped or not, as long
/// as the number that is bumped can grow.
pub proof fn law_bumper_keeps_well_formed(bumper: VersionBumperView)
    requires
        bumper.well_formed(),
    ensures
        bumper.finished().well_formed(),
        bumper.version.major < u64::MAX ==> bumper.bumped_major().well_formed(),
        bumper.version.minor < u64::MAX ==> bumper.bumped_minor().well_formed(),
        bumper.version.patch < u64::MAX ==> bumper.bumped_patch().well_formed(),
{
}

/// Where two texts are each a run of characters of one kind followed by a
/// rest that does not start with a character of that kind, and the texts are
/// the same, the runs are the same and the rests are the same.
proof fn lemma_same_run_and_rest(
    run_a: Seq<char>,
    rest_a: Seq<char>,
    run_b: Seq<char>,
    rest_b: Seq<char>,
    kind: spec_fn(char) -> bool,
)
    requires
        run_a + rest_a == run_b + rest_b,
        forall|i: int| 0 <= i < run_a.len() ==> kind(#[trigger] run_a[i]),
        forall|i: int| 0 <= i < run_b.len() ==> kind(#[trigger] run_b[i]),
        rest_a.len() > 0 ==> !kind(rest_a[0]),
        rest_b.len() > 0 ==> !kind(rest_b[0]),
    ensures
        run_a == run_b,
        rest_a == rest_b,
{
    let text = run_a + rest_a;
    assert(text.len() == run_a.len() + rest_a.len());
    assert(text.len() == run_b.len() + rest_b.len());
    if run_a.len() < run_b.len() {
        let k = run_a.len() as int;
        assert((run_a + rest_a)[k] == rest_a[0]);
        assert((run_b + rest_b)[k] == run_b[k]);
        assert(false);
    }
    if run_b.len() < run_a.len() {
        let k = run_b.len() as int;
        assert((run_b + rest_b)[k] == rest_b[0]);
        assert((run_a + rest_a)[k] == run_a[k]);
        assert(false);
    }
    assert(run_a =~= text.subrange(0, run_a.len() as int));
    assert(run_b =~= text.subrange(0, run_a.len() as int));
    assert(rest_a =~= text.subrange(run_a.len() as int, text.len() as int));
    assert(rest_b =~= text.subrange(run_a.len() as int, text.len() as int));
}

/// Where two texts each end in a run of characters of one kind, after a front
/// that does not end with a character of that kind, and the texts are the
/// same, the fronts are the same and the runs are the same.
proof fn lemma_same_front_and_run(
    front_a: Seq<char>,
    run_a: Seq<char>,
    front_b: Seq<char>,
    run_b: Seq<char>,
    kind: spec_fn(char) -> bool,
)
    requires
        front_a + run_a == front_b + run_b,
        forall|i: int| 0 <= i < run_a.len() ==> kind(#[trigger] run_a[i]),
        forall|i: int| 0 <= i < run_b.len() ==> kind(#[trigger] run_b[i]),
        front_a.len() > 0 ==> !kind(front_a.last()),
        front_b.len() > 0 ==> !kind(front_b.last()),
    ensures
        front_a == front_b,
        run_a == run_b,
{
    let text = front_a + run_a;
    assert(text.len() == front_a.len() + run_a.len());
    assert(text.len() == front_b.len() + run_b.len());
    if front_a.len() < front_b.len() {
        let k = front_b.len() - 1;
        assert((front_b + run_b)[k] == front_b.last());
        assert((front_a + run_a)[k] == run_a[k - front_a.len()]);
        assert(false);
    }
    if front_b.len() < front_a.len() {
        let k = front_a.len() - 1;
        assert((front_a + run_a)[k] == front_a.last());
        assert((front_b + run_b)[k] == run_b[k - front_b.len()]);
        assert(false);
    }
    assert(front_a =~= text.subrange(0, front_a.len() as int));
    assert(front_b =~= text.subrange(0, front_a.len() as int));
    assert(run_a =~= text.subrange(front_a.len() as int, text.len() as int));
    assert(run_b =~= text.subrange(front_a.len() as int, text.len() as int));
}

/// Whether `c` is no dot.
spec fn no_dot(c: char) -> bool {
    c != '.'
}

/// Whether `c` is no plus sign.
spec fn no_plus(c: char) -> bool {
    c != '+'
}

/// The text of a well-formed identifier is not empty and holds neither a dot
/// nor a plus sign.
proof fn lemma_identifier_text(id: IdentifierView)
    requires
        id.well_formed(),
    ensures
        id.text().len() > 0,
        forall|i: int| 0 <= i < id.text().len() ==> no_dot(#[trigger] id.text()[i]),
        forall|i: int| 0 <= i < id.text().len() ==> no_plus(#[trigger] id.text()[i]),
{
    match id {
        IdentifierView::Numeric(n) => {
            lemma_decimal_canonical(n);
        },
        IdentifierView::AlphaNumeric(s) => {},
    }
}

/// Two well-formed identifiers that are written the same are the same.
pub proof fn law_text_determines_identifier(a: IdentifierView, b: IdentifierView)
    requires
        a.well_formed(),
        b.well_formed(),
        a.text() == b.text(),
    ensures
        a == b,
{
    match (a, b) {
        (IdentifierView::Numeric(m), IdentifierView::Numeric(n)) => {
            lemma_decimal_injective(m, n);
        },
        (IdentifierView::Numeric(m), IdentifierView::AlphaNumeric(s)) => {
            assert(m <= u64::MAX && decimal(m) == s);
            assert(is_numeral(s));
        },
        (IdentifierView::AlphaNumeric(s), IdentifierView::Numeric(n)) => {
            assert(n <= u64::MAX && decimal(n) == s);
            assert(is_numeral(s));
        },
        (IdentifierView::AlphaNumeric(s), IdentifierView::AlphaNumeric(t)) => {},
    }
}

/// Well-formed identifiers, joined, hold no plus sign, and some character
/// where there is an identifier.
proof fn lemma_joined_text(ids: Seq<IdentifierView>)
    requires
        all_well_formed(ids),
    ensures
        ids.len() > 0 ==> joined(ids).len() > 0,
        forall|i: int| 0 <= i < joined(ids).len() ==> no_plus(#[trigger] joined(ids)[i]),
    decreases ids.len(),
{
    if ids.len() > 0 {
        lemma_identifier_text(ids.last());
        if ids.len() > 1 {
            lemma_front_well_formed(ids);
            lemma_joined_text(ids.drop_last());
        }
    }
}

proof fn lemma_front_well_formed(ids: Seq<IdentifierView>)
    requires
        all_well_formed(ids),
        ids.len() > 0,
    ensures
        all_well_formed(ids.drop_last()),
        ids.last().well_formed(),
{
    let front = ids.drop_last();
    assert forall|i: int| 0 <= i < front.len() implies (#[trigger] front[i]).well_formed() by {
        assert(front[i] == ids[i]);
    }
}

/// The front of a joined list and its last identifier: what stands before
/// the last identifier, the dot included, and the text of the last one.
proof fn lemma_joined_parts(ids: Seq<IdentifierView>) -> (front: Seq<char>)
    requires
        all_well_formed(ids),
        ids.len() > 0,
    ensures
        joined(ids) == front + ids.last().text(),
        ids.len() == 1 <==> front.len() == 0,
        ids.len() > 1 ==> front == joined(ids.drop_last()) + seq!['.'],
        front.len() > 0 ==> !no_dot(front.last()),
{
    if ids.len() == 1 {
        let front = Seq::<char>::empty();
        assert(joined(ids) =~= front + ids.last().text());
        front
    } else {
        let front = joined(ids.drop_last()) + seq!['.'];
        assert(joined(ids) =~= front + ids.last().text());
        assert(front.last() == '.');
        front
    }
}

/// Two lists of well-formed identifiers that are written the same when joined
/// hold the same identifiers.
pub proof fn law_text_determines_identifiers(a: Seq<IdentifierView>, b: Seq<IdentifierView>)
    requires
        all_well_formed(a),
        all_well_formed(b),
        joined(a) == joined(b),
    ensures
        a == b,
    decreases a.len(),
{
    lemma_joined_text(a);
    lemma_joined_text(b);
    if a.len() == 0 || b.len() == 0 {
        assert(joined(a).len() == 0 || joined(b).len() == 0);
        assert(a.len() == 0 && b.len() == 0);
        assert(a =~= b);
    } else {
        lemma_front_well_formed(a);
        lemma_front_well_formed(b);
        lemma_identifier_text(a.last());
        lemma_identifier_text(b.last());
        let front_a = lemma_joined_parts(a);
        let front_b = lemma_joined_parts(b);
        lemma_same_front_and_run(
            front_a,
            a.last().text(),
            front_b,
            b.last().text(),
            |c: char| no_dot(c),
        );
        law_text_determines_identifier(a.last(), b.last());
        if a.len() > 1 {
            let ja = joined(a.drop_last());
            let jb = joined(b.drop_last());
            assert(ja =~= front_a.drop_last());
            assert(jb =~= front_b.drop_last());
            law_text_determines_identifiers(a.drop_last(), b.drop_last());
        } else {
            assert(a.drop_last() =~= b.drop_last());
        }
        assert(a =~= a.drop_last().push(a.last()));
        assert(b =~= b.drop_last().push(b.last()));
    }
}

/// A label after its mark holds no plus sign unless the mark is one, and
/// starts with the mark where there is a label.
proof fn lemma_label_text(mark: char, ids: Seq<IdentifierView>)
    requires
        all_well_formed(ids),
    ensures
        ids.len() > 0 <==> label_text(mark, ids).len() > 0,
        ids.len() > 0 ==> label_text(mark, ids)[0] == mark,
        ids.len() > 0 ==> label_text(mark, ids).drop_first() == joined(ids),
        mark != '+' ==> forall|i: int|
            0 <= i < label_text(mark, ids).len() ==> no_plus(#[trigger] label_text(mark, ids)[i]),
{
    lemma_joined_text(ids);
    if ids.len() > 0 {
        assert(label_text(mark, ids).drop_first() =~= joined(ids));
    }
}

/// Two labels of well-formed identifiers that are written the same after the
/// same mark hold the same identifiers.
proof fn lemma_text_determines_label(mark: char, a: Seq<IdentifierView>, b: Seq<IdentifierView>)
    requires
        all_well_formed(a),
        all_well_formed(b),
        label_text(mark, a) == label_text(mark, b),
    ensures
        a == b,
{
    lemma_label_text(mark, a);
    lemma_label_text(mark, b);
    if a.len() > 0 {
        law_text_determines_identifiers(a, b);
    } else {
        assert(a =~= b);
    }
}

/// Where two texts are each a decimal numeral followed by a rest that does
/// not start with a digit, and the texts are the same, the numbers are the
/// same and the rests are the same.
proof fn lemma_same_number_and_rest(m: nat, rest_a: Seq<char>, n: nat, rest_b: Seq<char>)
    requires
        decimal(m) + rest_a == decimal(n) + rest_b,
        rest_a.len() > 0 ==> !is_digit(rest_a[0]),
        rest_b.len() > 0 ==> !is_digit(rest_b[0]),
    ensures
        m == n,
        rest_a == rest_b,
{
    lemma_decimal_canonical(m);
    lemma_decimal_canonical(n);
    lemma_same_run_and_rest(decimal(m), rest_a, decimal(n), rest_b, |c: char| is_digit(c));
    lemma_decimal_injective(m, n);
}

/// Where two texts are each a dot, a decimal numeral and a rest that does
/// not start with a digit, and the texts are the same, the numbers are the
/// same and the rests are the same.
proof fn lemma_same_dotted_number_and_rest(
    m: nat,
    rest_a: Seq<char>,
    n: nat,
    rest_b: Seq<char>,
)
    requires
        seq!['.'] + (decimal(m) + rest_a) == seq!['.'] + (decimal(n) + rest_b),
        rest_a.len() > 0 ==> !is_digit(rest_a[0]),
        rest_b.len() > 0 ==> !is_digit(rest_b[0]),
    ensures
        m == n,
        rest_a == rest_b,
{
    let a = decimal(m) + rest_a;
    let b = decimal(n) + rest_b;
    assert(a =~= (seq!['.'] + a).drop_first());
    assert(b =~= (seq!['.'] + b).drop_first());
    lemma_same_number_and_rest(m, rest_a, n, rest_b);
}

/// The labels of a version as they follow the numbers.
spec fn labels_text(v: VersionView) -> Seq<char> {
    label_text('-', v.pre) + label_text('+', v.build)
}

/// The labels of a well-formed version do not start with a digit.
proof fn lemma_labels_start(v: VersionView)
    requires
        v.well_formed(),
    ensures
        labels_text(v).len() > 0 ==> !is_digit(labels_text(v)[0]),
{
    lemma_label_text('-', v.pre);
    lemma_label_text('+', v.build);
    if v.pre.len() > 0 {
        assert(labels_text(v)[0] == label_text('-', v.pre)[0]);
    } else if v.build.len() > 0 {
        assert(labels_text(v)[0] == label_text('+', v.build)[0]);
    }
}

/// Two well-formed versions whose labels are written the same have the same
/// labels.
proof fn lemma_text_determines_labels(a: VersionView, b: VersionView)
    requires
        a.well_formed(),
        b.well_formed(),
        labels_text(a) == labels_text(b),
    ensures
        a.pre == b.pre,
        a.build == b.build,
{
    lemma_label_text('-', a.pre);
    lemma_label_text('-', b.pre);
    lemma_label_text('+', a.build);
    lemma_label_text('+', b.build);
    lemma_same_run_and_rest(
        label_text('-', a.pre),
        label_text('+', a.build),
        label_text('-', b.pre),
        label_text('+', b.build),
        |c: char| no_plus(c),
    );
    lemma_text_determines_label('-', a.pre, b.pre);
    lemma_text_determines_label('+', a.build, b.build);
}

/// What follows the major number in the text of a version, and what follows
/// the minor number.
spec fn after_minor(v: VersionView) -> Seq<char> {
    seq!['.'] + (decimal(v.patch) + labels_text(v))
}

spec fn after_major(v: VersionView) -> Seq<char> {
    seq!['.'] + (decimal(v.minor) + after_minor(v))
}

proof fn lemma_text_parts(v: VersionView)
    ensures
        v.text() == decimal(v.major) + after_major(v),
        after_major(v)[0] == '.',
        after_minor(v)[0] == '.',
{
    assert(v.text() =~= decimal(v.major) + after_major(v));
}

/// No two well-formed versions are written the same: the canonical text
/// determines the numbers and both labels.
pub proof fn law_text_determines_version(a: VersionView, b: VersionView)
    requires
        a.well_formed(),
        b.well_formed(),
        a.text() == b.text(),
    ensures
        a == b,
{
    lemma_text_parts(a);
    lemma_text_parts(b);
    lemma_labels_start(a);
    lemma_labels_start(b);
    lemma_same_number_and_rest(a.major, after_major(a), b.major, after_major(b));
    lemma_same_dotted_number_and_rest(a.minor, after_minor(a), b.minor, after_minor(b));
    lemma_same_dotted_number_and_rest(a.patch, labels_text(a), b.patch, labels_text(b));
    lemma_text_determines_labels(a, b);
}

/// A text has one well-formed reading at most: where a text is read as a
/// version, every well-formed version that is written as the text is that
/// version.
pub proof fn law_reading_is_unique(text: Seq<char>, version: VersionView)
    requires
        read(text) is Some,
        version.well_formed(),
        version.text() == text,
    ensures
        read(text) == Some(version),
{
    law_text_determines_version(read(text)->0, version);
}

} // verus!
