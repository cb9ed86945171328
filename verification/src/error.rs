use vstd::prelude::*;

verus! {

/// Why a filter gave up. Both are fatal: no line is judged after one of them.
#[derive(PartialEq, Eq, Debug, Clone, Copy, Structural)]
pub enum FilterError {
    /// One of the configured patterns is not a valid glob.
    InvalidPattern,
    /// A line starts with the marker escape, but no path follows it.
    MalformedDiagnostic,
}

} // verus!
