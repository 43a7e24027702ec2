//! How a run of the program ends.

use vstd::prelude::*;

verus! {

/// Why a run produced no report, or could not show it.
#[derive(Debug, Clone, Copy, PartialEq, Eq, Structural)]
pub enum Failure {
    /// There was nothing to read.
    Usage,
    /// The file or standard input could not be read as text.
    Io,
    /// The terminal could not be taken or given back.
    Terminal,
}

/// The status of a run that showed its report.
pub const EXIT_SUCCESS: i32 = 0;

/// The status of a run that failed.
pub const EXIT_FAILURE: i32 = 1;

/// The exit status of a run: zero when the report was shown, one for every
/// failure. No failure is recovered from and none yields part of a report.
pub fn exit_status(failure: Option<Failure>) -> (status: i32)
    ensures
        failure is None ==> status == EXIT_SUCCESS,
        failure is Some ==> status == EXIT_FAILURE,
{
    match failure {
        None => EXIT_SUCCESS,
        Some(_) => EXIT_FAILURE,
    }
}

} // verus!
