//! The commands a block has run for it, and what comes back.

use vstd::prelude::*;

verus! {

/// A command line for `sh -c`, and the locale to run it in.
#[derive(Clone, Debug)]
pub struct ShellCommand {
    /// The command line.
    pub script: String,
    /// The value of `LC_ALL` for the command; `None` leaves the locale as it is.
    pub lc_all: Option<String>,
}

/// What running a command gave.
#[derive(Clone, Debug)]
pub enum CommandResult {
    /// The command ran; these bytes are its standard output.
    Output(Vec<u8>),
    /// The command could not be run.
    Failure,
}

impl ShellCommand {
    /// Whether the command line is `script`, to be run in the locale `lc_all`.
    pub open spec fn runs(&self, script: Seq<char>, lc_all: Option<Seq<char>>) -> bool {
        &&& self.script@ == script
        &&& match (self.lc_all, lc_all) {
            (Some(have), Some(want)) => have@ == want,
            (None, None) => true,
            _ => false,
        }
    }
}

} // verus!
