//! The ways in which a run can fail.

use vstd::prelude::*;
use crate::publisher::VcsOperation;

verus! {

/// Why a run stopped before its note was published. Every failure stops the
/// run where it happens: nothing is tried again.
#[derive(Clone, Copy, Debug, PartialEq, Eq, Structural)]
pub enum PipelineError {
    /// A file or a folder could not be read, listed or written.
    IoError,
    /// The editor left no content.
    EmptyInput,
    /// A version-control command did not succeed.
    VersionControlFailure(VcsOperation),
    /// The folder already holds the highest number that two digits can show.
    CapacityExceeded,
}

/// The line that tells the user of `error`.
pub open spec fn error_line(error: PipelineError) -> Seq<char> {
    match error {
        PipelineError::IoError => "A file or folder could not be read or written"@,
        PipelineError::EmptyInput => "You can't save an empty til!"@,
        PipelineError::VersionControlFailure(VcsOperation::Add) => "Failed to add git"@,
        PipelineError::VersionControlFailure(VcsOperation::Commit) => "Failed to commit"@,
        PipelineError::VersionControlFailure(VcsOperation::Push) => "Failed to push"@,
        PipelineError::CapacityExceeded => "The notes folder holds no free two-digit number"@,
    }
}

impl PipelineError {
    /// The line that tells the user of this error.
    pub fn message(&self) -> (line: String)
        ensures
            line@ == error_line(*self),
    {
        match self {
            PipelineError::IoError => String::from_str(
                "A file or folder could not be read or written",
            ),
            PipelineError::EmptyInput => String::from_str("You can't save an empty til!"),
            PipelineError::VersionControlFailure(VcsOperation::Add) => String::from_str(
                "Failed to add git",
            ),
            PipelineError::VersionControlFailure(VcsOperation::Commit) => String::from_str(
                "Failed to commit",
            ),
            PipelineError::VersionControlFailure(VcsOperation::Push) => String::from_str(
                "Failed to push",
            ),
            PipelineError::CapacityExceeded => String::from_str(
                "The notes folder holds no free two-digit number",
            ),
        }
    }
}

} // verus!
