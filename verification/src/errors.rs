//! The error taxonomy shared by the update and remote-execution workflows.

use vstd::prelude::*;

verus! {

/// A typed failure, constructed at the failure site and propagated by value
/// up to CLI-level reporting.
#[derive(Debug)]
pub enum CodeError {
    /// The host could not be classified as a supported platform.
    UnsupportedPlatform(String),
    /// A named component's minimum requirements are unmet; `bullets` is a
    /// human-readable list of the missing requirements.
    PrerequisitesFailed { name: &'static str, bullets: String },
    /// A spawned process failed. `code` is -1 when the process could not
    /// even be launched, otherwise the OS exit status; `output` carries the
    /// captured stdout or the launch error text.
    CommandFailed { command: String, code: i32, output: String },
}

/// The error for a command that could not be launched at all: the exit code
/// is fixed at -1 and the output carries the OS error text.
pub fn launch_failure(command: String, os_error: String) -> (e: CodeError)
    ensures
        (e matches CodeError::CommandFailed { command: c, code, output } && c@ == command@
            && code == -1i32 && output@ == os_error@),
{
    CodeError::CommandFailed { command, code: -1, output: os_error }
}

} // verus!
