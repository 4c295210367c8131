//! The errors that end a run.
use crate::executer::Output;
use crate::step::Kind;
use vstd::prelude::*;

verus! {

/// An I/O error of std.
#[verifier::external_type_specification]
#[verifier::external_body]
pub struct ExIoError(std::io::Error);

/// Why a run ended early.
#[derive(Debug)]
pub enum Error {
    /// A phase of a step failed. `command_output` is what the command of that
    /// phase left behind.
    StepError { kind: Kind, description: String, command_output: Output },
    /// A command could not be started, or the file system refused something.
    IO(std::io::Error),
    /// A command wrote bytes that are not valid UTF-8.
    Utf8(std::str::Utf8Error),
    /// Any other failure, in words.
    Any(String),
}

} // verus!
