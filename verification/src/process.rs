//! What the caller reports back after it has run an external program.

use vstd::prelude::*;

verus! {

/// How one run of an external program ended.
#[derive(Debug, Clone, PartialEq, Eq)]
pub enum ProcessReport {
    /// The program could not be started.
    SpawnFailed {
        /// The operating system's reason.
        cause: String,
    },
    /// The program ran and exited.
    Exited {
        /// Whether the exit status was zero.
        success: bool,
        /// Everything the program wrote to its standard output.
        stdout: String,
        /// Everything the program wrote to its standard error.
        stderr: String,
    },
}

impl ProcessReport {
    /// The program was started, whatever its exit status.
    pub open spec fn started(self) -> bool {
        self is Exited
    }

    /// The program was started and exited with status zero.
    pub open spec fn succeeded(self) -> bool {
        self matches ProcessReport::Exited { success, .. } && success
    }

    /// Whether the program was started, whatever its exit status.
    pub fn was_started(&self) -> (r: bool)
        ensures
            r == self.started(),
    {
        match self {
            ProcessReport::SpawnFailed { .. } => false,
            ProcessReport::Exited { .. } => true,
        }
    }

    /// Whether the program was started and exited with status zero.
    pub fn has_succeeded(&self) -> (r: bool)
        ensures
            r == self.succeeded(),
    {
        match self {
            ProcessReport::SpawnFailed { .. } => false,
            ProcessReport::Exited { success, .. } => *success,
        }
    }
}

/// An external program to run: the binary and its arguments, in order.
#[derive(Debug, Clone, PartialEq, Eq)]
pub struct Invocation {
    /// Path or name of the binary.
    pub binary: String,
    /// The argument vector, without the binary itself.
    pub args: Vec<String>,
}

} // verus!
