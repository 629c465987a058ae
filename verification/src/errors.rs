//! The failures a block reports to its scheduler.

use vstd::prelude::*;

verus! {

/// Why a poll failed.
#[derive(Clone, Copy, Debug, PartialEq, Eq, Structural)]
pub enum ErrorKind {
    /// The command could not be run.
    CommandLaunchFailure,
    /// The command's output is not text.
    OutputDecodeFailure,
}

/// A failure, tagged with the block it comes from.
#[derive(Clone, Debug)]
pub struct BlockError {
    pub kind: ErrorKind,
    /// The name of the block that failed.
    pub block: String,
    /// The cause, for a human reader.
    pub message: String,
}

impl ErrorKind {
    /// The cause, for a human reader.
    pub open spec fn message(self) -> Seq<char> {
        match self {
            ErrorKind::CommandLaunchFailure => "There was a problem running the pamac command"@,
            ErrorKind::OutputDecodeFailure => "there was a problem parsing the output"@,
        }
    }
}

impl BlockError {
    /// Whether the failure is of `kind`, comes from `block` and gives the
    /// cause that goes with the kind.
    pub open spec fn reports(&self, block: Seq<char>, kind: ErrorKind) -> bool {
        self.kind == kind && self.block@ == block && self.message@ == kind.message()
    }

    /// The failure of `kind` in `block`.
    pub fn new(block: &str, kind: ErrorKind) -> (error: BlockError)
        ensures
            error.reports(block@, kind),
    {
        let message = match kind {
            ErrorKind::CommandLaunchFailure => "There was a problem running the pamac command",
            ErrorKind::OutputDecodeFailure => "there was a problem parsing the output",
        };
        BlockError { kind, block: String::from_str(block), message: String::from_str(message) }
    }
}

} // verus!
