//! Where the text to measure comes from.

use vstd::prelude::*;

verus! {

/// The place the text is read from. `P` is whatever names a file.
#[derive(Debug, PartialEq, Eq)]
pub enum InputSource<P> {
    /// The file that was named.
    File(P),
    /// Standard input, read to its end.
    StandardInput,
    /// Nothing to read: no file was named and standard input is a terminal.
    Unavailable,
}

/// The source that is read: the file where one is named; else standard
/// input, unless a person sits at it.
pub open spec fn source_for<P>(file: Option<P>, stdin_is_terminal: bool) -> InputSource<P> {
    match file {
        Some(path) => InputSource::File(path),
        None => if stdin_is_terminal {
            InputSource::Unavailable
        } else {
            InputSource::StandardInput
        },
    }
}

/// What is said on the error stream when there is nothing to read.
pub const USAGE_MESSAGE: &'static str =
    "No input provided. Use --file <path> or pipe data into stdin.";

/// Picks the source, given whether standard input is a terminal.
pub fn select_source<P>(file: Option<P>, stdin_is_terminal: bool) -> (source: InputSource<P>)
    ensures
        source == source_for(file, stdin_is_terminal),
{
    match file {
        Some(path) => InputSource::File(path),
        None => if stdin_is_terminal {
            InputSource::Unavailable
        } else {
            InputSource::StandardInput
        },
    }
}

/// Asks `atty::is` about standard input. Whether a terminal is attached is a
/// fact of the process's surroundings, so nothing is claimed of the answer.
#[verifier::external_body]
fn stdin_is_terminal() -> bool {
    atty::is(atty::Stream::Stdin)
}

/// Picks the source for this process. A named file is taken without a look
/// at standard input; without one, standard input decides.
pub fn resolve_source<P>(file: Option<P>) -> (source: InputSource<P>)
    ensures
        file matches Some(path) ==> source == InputSource::File(path),
        file is None ==> source == source_for(file, true) || source == source_for(file, false),
{
    match file {
        Some(path) => InputSource::File(path),
        None => select_source(None, stdin_is_terminal()),
    }
}

} // verus!
