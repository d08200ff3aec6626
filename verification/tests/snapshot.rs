use assert_or_bless::store::SnapshotStore;
use assert_or_bless::{
    assert_eq_or_bless_if, assert_eq_or_bless_with_env_var, bless_requested, compare_snapshot,
    SnapshotOutcome,
};

fn test_assert_eq(first: &str, second: &str) {
    let mut store = SnapshotStore::new();
    let blessed = assert_eq_or_bless_if(&mut store, first, "test-snapshot.txt", true);
    assert!(matches!(blessed, SnapshotOutcome::Blessed));
    match assert_eq_or_bless_if(&mut store, second, "test-snapshot.txt", false) {
        SnapshotOutcome::Matched => {}
        SnapshotOutcome::Mismatch { diff, .. } => panic!("{}", diff),
        SnapshotOutcome::ReadFailure { path } => {
            panic!("Reading `{}`: no snapshot recorded there", path)
        }
        SnapshotOutcome::Blessed => panic!("an assertion-mode call never blesses"),
    }
}

#[test]
fn assert_eq_succeeds() {
    test_assert_eq(
        "this is the\ncorrect snapshot contents",
        "this is the\ncorrect snapshot contents",
    );
}

#[test]
#[should_panic]
fn assert_eq_panics() {
    test_assert_eq(
        "this is the\ncorrect snapshot contents",
        "this is the\nWRONG snapshot contents",
    );
}

#[test]
fn env_trigger_resolution() {
    assert!(!bless_requested(None));
    assert!(bless_requested(Some("1")));
    assert!(bless_requested(Some("yes")));
    assert!(bless_requested(Some("true")));
    assert!(!bless_requested(Some("0")));
    assert!(!bless_requested(Some("TRUE")));
    assert!(!bless_requested(Some("")));
    assert!(!bless_requested(Some("bless")));
    assert!(!bless_requested(Some("yes ")));
}

#[test]
fn bless_then_assert_same_value_matches() {
    let mut store = SnapshotStore::new();
    assert_eq_or_bless_if(&mut store, "a computed value", "round-trip.txt", true);
    let outcome = assert_eq_or_bless_if(&mut store, "a computed value", "round-trip.txt", false);
    assert!(matches!(outcome, SnapshotOutcome::Matched));
}

#[test]
fn bless_then_assert_different_value_mismatches() {
    let mut store = SnapshotStore::new();
    assert_eq_or_bless_if(
        &mut store,
        "this is the\ncorrect snapshot contents",
        "scenario.txt",
        true,
    );
    let same = assert_eq_or_bless_if(
        &mut store,
        "this is the\ncorrect snapshot contents",
        "scenario.txt",
        false,
    );
    assert!(matches!(same, SnapshotOutcome::Matched));
    match assert_eq_or_bless_if(
        &mut store,
        "this is the\nWRONG snapshot contents",
        "scenario.txt",
        false,
    ) {
        SnapshotOutcome::Mismatch { actual, expected, diff } => {
            assert_eq!(actual, "this is the\nWRONG snapshot contents");
            assert_eq!(expected, "this is the\ncorrect snapshot contents");
            assert!(!diff.is_empty());
        }
        other => panic!("expected a mismatch, got {:?}", other),
    }
}

#[test]
fn assert_against_missing_path_is_read_failure() {
    let mut store = SnapshotStore::new();
    match assert_eq_or_bless_if(&mut store, "anything at all", "never-written.txt", false) {
        SnapshotOutcome::ReadFailure { path } => assert_eq!(path, "never-written.txt"),
        other => panic!("expected a read failure, got {:?}", other),
    }
}

#[test]
fn bless_twice_same_value_is_idempotent() {
    let mut store = SnapshotStore::new();
    assert_eq_or_bless_if(&mut store, "stable contents", "idempotent.txt", true);
    let after_first = store.read("idempotent.txt");
    assert_eq_or_bless_if(&mut store, "stable contents", "idempotent.txt", true);
    let after_second = store.read("idempotent.txt");
    assert_eq!(after_first, Some(String::from("stable contents")));
    assert_eq!(after_first, after_second);
    let outcome = assert_eq_or_bless_if(&mut store, "stable contents", "idempotent.txt", false);
    assert!(matches!(outcome, SnapshotOutcome::Matched));
}

#[test]
fn bless_overwrites_previous_snapshot() {
    let mut store = SnapshotStore::new();
    assert_eq_or_bless_if(&mut store, "first version", "overwrite.txt", true);
    assert_eq_or_bless_if(&mut store, "second version", "overwrite.txt", true);
    let outcome = assert_eq_or_bless_if(&mut store, "second version", "overwrite.txt", false);
    assert!(matches!(outcome, SnapshotOutcome::Matched));
    match assert_eq_or_bless_if(&mut store, "first version", "overwrite.txt", false) {
        SnapshotOutcome::Mismatch { expected, .. } => assert_eq!(expected, "second version"),
        other => panic!("expected a mismatch, got {:?}", other),
    }
}

#[test]
fn env_var_set_blesses_and_unset_asserts() {
    let mut store = SnapshotStore::new();
    let blessed =
        assert_eq_or_bless_with_env_var(&mut store, "contents", "env-driven.txt", Some("yes"));
    assert!(matches!(blessed, SnapshotOutcome::Blessed));
    let checked = assert_eq_or_bless_with_env_var(&mut store, "contents", "env-driven.txt", None);
    assert!(matches!(checked, SnapshotOutcome::Matched));
    let falsy =
        assert_eq_or_bless_with_env_var(&mut store, "other contents", "untouched.txt", Some("0"));
    assert!(matches!(falsy, SnapshotOutcome::ReadFailure { .. }));
}

#[test]
fn compare_equal_strings_matches() {
    let outcome = compare_snapshot("the same text", "the same text");
    assert!(matches!(outcome, SnapshotOutcome::Matched));
}

#[test]
fn comparison_is_exact_not_normalised() {
    assert!(matches!(
        compare_snapshot("line\n", "line"),
        SnapshotOutcome::Mismatch { .. }
    ));
    assert!(matches!(
        compare_snapshot("trailing space \n", "trailing space\n"),
        SnapshotOutcome::Mismatch { .. }
    ));
    assert!(matches!(
        compare_snapshot("crlf\r\n", "crlf\n"),
        SnapshotOutcome::Mismatch { .. }
    ));
}

#[test]
fn mismatch_diff_is_a_rendering_not_an_input() {
    match compare_snapshot("alpha\nbeta", "alpha\ngamma") {
        SnapshotOutcome::Mismatch { actual, expected, diff } => {
            assert!(!diff.is_empty());
            assert_ne!(diff, actual);
            assert_ne!(diff, expected);
        }
        other => panic!("expected a mismatch, got {:?}", other),
    }
}

#[test]
fn store_read_returns_the_last_write() {
    let mut store = SnapshotStore::new();
    assert_eq!(store.read("somewhere.txt"), None);
    store.write("somewhere.txt", "recorded");
    assert_eq!(store.read("somewhere.txt"), Some(String::from("recorded")));
    assert_eq!(store.read("elsewhere.txt"), None);
}
