//! Plain values for what a helper program reports when it ends.

use vstd::prelude::*;

verus! {

/// How a program ended.
#[derive(Clone, Copy, Debug, PartialEq, Eq, Structural)]
pub struct ExitStatus {
    /// Whether the system counts the run as successful.
    pub success: bool,
    /// The exit code, where the program ended with one.
    pub code: Option<i32>,
}

/// What a program left behind: how it ended and what it printed.
#[derive(Debug)]
pub struct ProcessOutput {
    pub status: ExitStatus,
    /// The bytes written to standard output.
    pub stdout: Vec<u8>,
    /// The bytes written to standard error.
    pub stderr: Vec<u8>,
}

} // verus!
