//! The error kinds a pipeline run can stop with.
//!
//! Every kind is terminal for the run: no component retries, and the
//! orchestrator does not continue past a failed stage.

use vstd::prelude::*;

verus! {

/// Why a pipeline run failed.
#[derive(Clone, Copy, Debug, PartialEq, Eq, Structural)]
pub enum Error {
    /// The external fetch executable could not be located or started.
    SpawnError,
    /// The external process's output streams could not be captured.
    NoOutputHandle,
    /// The external process terminated with the given non-zero status.
    NonZeroExit(i32),
    /// A file that a stage must patch does not exist.
    FileNotFound,
    /// A read, write or rename failed (including non-UTF-8 content).
    IoError,
    /// Strict-mode patching found none of the query's patterns.
    NoMatchFound,
    /// The destination of a rename already exists.
    PathConflict,
}

impl Error {
    /// A short human-readable description of the error kind.
    pub fn describe(&self) -> (r: &'static str)
        ensures
            r@ == self.describe_spec(),
    {
        match self {
            Error::SpawnError => "failed to spawn the external fetch command",
            Error::NoOutputHandle => "failed to capture the external process's output streams",
            Error::NonZeroExit(_) => "the external process exited with a non-zero status",
            Error::FileNotFound => "a required file does not exist",
            Error::IoError => "a file could not be read, written or renamed",
            Error::NoMatchFound => "a required pattern was not found in the file",
            Error::PathConflict => "the rename destination already exists",
        }
    }

    /// What `describe` returns for each error kind.
    pub open spec fn describe_spec(&self) -> Seq<char> {
        match self {
            Error::SpawnError => "failed to spawn the external fetch command"@,
            Error::NoOutputHandle => "failed to capture the external process's output streams"@,
            Error::NonZeroExit(_) => "the external process exited with a non-zero status"@,
            Error::FileNotFound => "a required file does not exist"@,
            Error::IoError => "a file could not be read, written or renamed"@,
            Error::NoMatchFound => "a required pattern was not found in the file"@,
            Error::PathConflict => "the rename destination already exists"@,
        }
    }
}

} // verus!
