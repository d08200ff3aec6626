//! A snapshot-assertion primitive: a computed text value is either compared
//! against the snapshot stored at a location, failing with a rendered diff on
//! any difference, or written to that location ("blessed"), as selected by an
//! explicit flag or by the value of an environment variable.
//!
//! The oracle itself is pure: it works over a [`store::SnapshotStore`], the
//! verified model of the directory that holds the snapshot files. A caller
//! that keeps its snapshots on disk performs the reads and writes itself and
//! hands the oracle plain strings.

use vstd::prelude::*;

mod diff;
pub mod store;

use store::SnapshotStore;

verus! {

/// The outcome of one snapshot evaluation. Every outcome other than
/// [`SnapshotOutcome::Blessed`] and [`SnapshotOutcome::Matched`] is fatal to
/// the assertion that asked for it.
#[derive(Debug, PartialEq, Eq)]
pub enum SnapshotOutcome {
    /// The value was written to the location, accepted as the new snapshot.
    Blessed,
    /// The stored snapshot equals the computed value exactly.
    Matched,
    /// The stored snapshot differs from the computed value; `diff` carries a
    /// rendered, human-readable difference of the two.
    Mismatch { actual: String, expected: String, diff: String },
    /// No snapshot could be read at the location: nothing was ever stored
    /// there. This is the expected first-run signal telling the caller to
    /// bless.
    ReadFailure { path: String },
}

/// The outcome of one evaluation, stated over the mathematical values alone:
/// what every contract and law of the oracle speaks of.
pub enum SpecOutcome {
    Blessed,
    Matched,
    Mismatch { actual: Seq<char>, expected: Seq<char> },
    ReadFailure { path: Seq<char> },
}

/// How an executable outcome realises a mathematical one. A mismatch must
/// carry the two values exactly and a nonempty rendered diff.
pub open spec fn outcome_matches(r: SnapshotOutcome, s: SpecOutcome) -> bool {
    match s {
        SpecOutcome::Blessed => r == SnapshotOutcome::Blessed,
        SpecOutcome::Matched => r == SnapshotOutcome::Matched,
        SpecOutcome::Mismatch { actual, expected } => match r {
            SnapshotOutcome::Mismatch { actual: a, expected: e, diff: d } => a@ == actual
                && e@ == expected
                && d@.len() > 0,
            _ => false,
        },
        SpecOutcome::ReadFailure { path } => match r {
            SnapshotOutcome::ReadFailure { path: p } => p@ == path,
            _ => false,
        },
    }
}

/// The values recognised as asking for a bless: exactly `"1"`, `"yes"` and
/// `"true"`, case-sensitively. Every other value, and absence, declines.
pub open spec fn is_bless_value(s: Seq<char>) -> bool {
    s == "1"@ || s == "yes"@ || s == "true"@
}

/// Whether an environment variable's value, `None` where the variable is
/// unset, asks for a bless.
pub open spec fn env_blesses(env_value: Option<&str>) -> bool {
    match env_value {
        Some(s) => is_bless_value(s@),
        None => false,
    }
}

/// What the store holds after one evaluation: a bless overwrites the
/// location, an assertion never writes anything.
pub open spec fn spec_store_after(
    m: Map<Seq<char>, Seq<char>>,
    actual: Seq<char>,
    path: Seq<char>,
    bless: bool,
) -> Map<Seq<char>, Seq<char>> {
    if bless {
        m.insert(path, actual)
    } else {
        m
    }
}

/// What one comparison of a computed value against stored contents yields.
pub open spec fn spec_compare(actual: Seq<char>, expected: Seq<char>) -> SpecOutcome {
    if actual == expected {
        SpecOutcome::Matched
    } else {
        SpecOutcome::Mismatch { actual, expected }
    }
}

/// What one evaluation yields: a bless always succeeds against the store; an
/// assertion fails on a missing snapshot and otherwise compares exactly.
pub open spec fn spec_evaluate(
    m: Map<Seq<char>, Seq<char>>,
    actual: Seq<char>,
    path: Seq<char>,
    bless: bool,
) -> SpecOutcome {
    if bless {
        SpecOutcome::Blessed
    } else if !m.contains_key(path) {
        SpecOutcome::ReadFailure { path }
    } else {
        spec_compare(actual, m[path])
    }
}

/// Resolves a bless decision from the value of an environment variable, read
/// once at the call boundary by the caller: `None` where the variable is
/// unset. Only the exact strings `"1"`, `"yes"` and `"true"` decide to bless.
pub fn bless_requested(env_value: Option<&str>) -> (r: bool)
    ensures
        r == env_blesses(env_value),
{
    match env_value {
        None => false,
        Some(s) => {
            let v: String = s.to_owned();
            v == "1".to_owned() || v == "yes".to_owned() || v == "true".to_owned()
        },
    }
}

/// Compares a computed value against stored snapshot contents: exact
/// character-for-character equality, no normalisation, no trimming. On a
/// difference the mismatch carries both values and a rendered diff.
pub fn compare_snapshot(actual: &str, expected: &str) -> (r: SnapshotOutcome)
    ensures
        outcome_matches(r, spec_compare(actual@, expected@)),
{
    let actual_owned: String = actual.to_owned();
    let expected_owned: String = expected.to_owned();
    if actual_owned == expected_owned {
        SnapshotOutcome::Matched
    } else {
        let rendered = diff::render_diff(actual, expected);
        SnapshotOutcome::Mismatch { actual: actual_owned, expected: expected_owned, diff: rendered }
    }
}

/// Evaluates `actual` against the snapshot stored at `snapshot_path`.
///
/// If `bless` is true, `actual` is written at `snapshot_path` and becomes the
/// new snapshot. Otherwise the stored snapshot is read and compared with
/// `actual` for exact equality; a missing snapshot is a read failure, never a
/// mismatch, and the store is left untouched.
pub fn assert_eq_or_bless_if(
    store: &mut SnapshotStore,
    actual: &str,
    snapshot_path: &str,
    bless: bool,
) -> (r: SnapshotOutcome)
    ensures
        final(store)@ == spec_store_after(old(store)@, actual@, snapshot_path@, bless),
        outcome_matches(r, spec_evaluate(old(store)@, actual@, snapshot_path@, bless)),
{
    if bless {
        store.write(snapshot_path, actual);
        SnapshotOutcome::Blessed
    } else {
        match store.read(snapshot_path) {
            None => SnapshotOutcome::ReadFailure { path: snapshot_path.to_owned() },
            Some(expected) => compare_snapshot(actual, expected.as_str()),
        }
    }
}

/// Same as [`assert_eq_or_bless_if`], with the bless decision taken from the
/// value of an environment variable: the caller looks the variable up and
/// hands its value in, `None` where it is unset. The variable blesses exactly
/// when it is set to `"1"`, `"yes"` or `"true"`.
pub fn assert_eq_or_bless_with_env_var(
    store: &mut SnapshotStore,
    actual: &str,
    snapshot_path: &str,
    env_value: Option<&str>,
) -> (r: SnapshotOutcome)
    ensures
        final(store)@ == spec_store_after(
            old(store)@,
            actual@,
            snapshot_path@,
            env_blesses(env_value),
        ),
        outcome_matches(r, spec_evaluate(old(store)@, actual@, snapshot_path@, env_blesses(env_value))),
{
    let bless = bless_requested(env_value);
    assert_eq_or_bless_if(store, actual, snapshot_path, bless)
}

/// Round trip: blessing a value and then asserting the same value at the same
/// location always succeeds, and the assertion leaves the store as the bless
/// left it.
pub proof fn lemma_bless_then_assert_matches(
    m: Map<Seq<char>, Seq<char>>,
    v: Seq<char>,
    p: Seq<char>,
)
    ensures
        spec_evaluate(spec_store_after(m, v, p, true), v, p, false) == SpecOutcome::Matched,
        spec_store_after(spec_store_after(m, v, p, true), v, p, false) == spec_store_after(
            m,
            v,
            p,
            true,
        ),
{
}

/// Blessing one value and then asserting a different one at the same location
/// always fails with a mismatch that carries both values.
pub proof fn lemma_bless_then_assert_mismatch(
    m: Map<Seq<char>, Seq<char>>,
    v1: Seq<char>,
    v2: Seq<char>,
    p: Seq<char>,
)
    requires
        v1 != v2,
    ensures
        spec_evaluate(spec_store_after(m, v1, p, true), v2, p, false) == (SpecOutcome::Mismatch {
            actual: v2,
            expected: v1,
        }),
{
}

/// Asserting against a location that holds no snapshot is a read failure,
/// never a mismatch, whatever the value.
pub proof fn lemma_assert_missing_is_read_failure(
    m: Map<Seq<char>, Seq<char>>,
    v: Seq<char>,
    p: Seq<char>,
)
    requires
        !m.contains_key(p),
    ensures
        spec_evaluate(m, v, p, false) == (SpecOutcome::ReadFailure { path: p }),
{
}

/// Blessing is idempotent: blessing the same location twice with the same
/// value leaves the store exactly as one bless does, and a subsequent
/// assertion of that value still succeeds.
pub proof fn lemma_bless_idempotent(m: Map<Seq<char>, Seq<char>>, v: Seq<char>, p: Seq<char>)
    ensures
        spec_store_after(spec_store_after(m, v, p, true), v, p, true) == spec_store_after(
            m,
            v,
            p,
            true,
        ),
        spec_evaluate(spec_store_after(spec_store_after(m, v, p, true), v, p, true), v, p, false)
            == SpecOutcome::Matched,
{
    assert(m.insert(p, v).insert(p, v) =~= m.insert(p, v));
}

} // verus!
