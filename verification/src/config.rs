//! The description of one unit of work: shell text plus an optional timeout.

use vstd::prelude::*;

verus! {

/// One command to run: the shell text and, optionally, a timeout in seconds.
/// Immutable once constructed; its position in the ordered command list is
/// its identity for labeling.
#[derive(Debug)]
pub struct CommandSpec {
    pub command: String,
    pub timeout: Option<u64>,
}

impl CommandSpec {
    /// A well-formed spec has non-empty shell text and, when a timeout is
    /// given, a positive number of seconds.
    pub open spec fn is_wf(&self) -> bool {
        &&& self.command@.len() > 0
        &&& (self.timeout matches Some(t) ==> t > 0)
    }

    pub fn new(command: String, timeout: Option<u64>) -> (r: CommandSpec)
        ensures
            r.command@ == command@,
            r.timeout == timeout,
    {
        CommandSpec { command, timeout }
    }

    /// Checks the interface contract on one command: non-empty shell text,
    /// and a positive timeout when one is given.
    pub fn is_valid(&self) -> (r: bool)
        ensures
            r == self.is_wf(),
    {
        if self.command.as_str().is_empty() {
            false
        } else {
            match self.timeout {
                Some(t) => t > 0,
                None => true,
            }
        }
    }
}

impl Clone for CommandSpec {
    fn clone(&self) -> (r: Self)
        ensures
            r.command@ == self.command@,
            r.timeout == self.timeout,
    {
        CommandSpec { command: self.command.clone(), timeout: self.timeout }
    }
}

} // verus!
