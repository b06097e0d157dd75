//! The one-shot cancellation signal.

use vstd::prelude::*;

verus! {

/// A one-way, many-observer stop condition: it moves from not-requested to
/// requested at most once per run and never resets. Requesting it again is
/// harmless. Every per-command wait observes it alongside the child's own
/// exit.
#[derive(Debug)]
pub struct CancelFlag {
    requested: bool,
}

impl CancelFlag {
    /// True once cancellation has been requested.
    pub closed spec fn spec_requested(&self) -> bool {
        self.requested
    }

    pub fn new() -> (r: CancelFlag)
        ensures
            !r.spec_requested(),
    {
        CancelFlag { requested: false }
    }

    /// Requests cancellation. Idempotent: the flag is set whether or not it
    /// already was, and nothing can clear it again.
    pub fn request(&mut self)
        ensures
            final(self).spec_requested(),
    {
        self.requested = true;
    }

    pub fn is_requested(&self) -> (r: bool)
        ensures
            r == self.spec_requested(),
    {
        self.requested
    }
}

} // verus!
