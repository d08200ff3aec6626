use vstd::prelude::*;

verus! {

/// Relies on `similar_asserts::SimpleDiff`: `from_str` pairs the two strings
/// under the given labels and its `Display` renders a line-level diff of
/// them. Whenever the two strings differ the rendering starts with a header
/// line, so it is nonempty; colour and context size depend on the terminal
/// and the environment, so nothing more is promised of the text.
#[verifier::external_body]
pub(crate) fn render_diff(actual: &str, expected: &str) -> (r: String)
    ensures
        actual@ != expected@ ==> r@.len() > 0,
{
    similar_asserts::SimpleDiff::from_str(actual, expected, "actual", "expected").to_string()
}

} // verus!
