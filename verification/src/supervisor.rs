//! The supervisor: owns the batch of commands, collects exit codes in
//! completion order, and resolves the aggregate result.
//!
//! The aggregate policy is deliberately order-sensitive: if every command
//! exits 0 the batch reports 0; otherwise the code of the last command (by
//! completion order) that exited non-zero wins — not the first, not the
//! maximum. A negative code, standing for a command that could not be
//! waited on or whose code could not be read, is normalized to the generic
//! failure status 1.

use vstd::prelude::*;

use crate::cancel::CancelFlag;
use crate::config::CommandSpec;
use crate::monitor::CommandMonitor;
use crate::monitor::ExitOutcome;
use crate::monitor::ProcPhase;

verus! {

/// A whole-run usage error, raised before any process is launched.
#[derive(Clone, Copy, Debug, PartialEq, Eq, Structural)]
pub enum UsageError {
    /// The command list was empty: there is nothing to supervise.
    NoCommands,
}

/// The last non-zero code of `codes`, or 0 when every code is 0.
pub open spec fn spec_last_nonzero(codes: Seq<i32>) -> i32
    decreases codes.len(),
{
    if codes.len() == 0 {
        0
    } else if codes.last() != 0 {
        codes.last()
    } else {
        spec_last_nonzero(codes.drop_last())
    }
}

/// The aggregate exit status of a batch whose codes, in completion order,
/// are `codes`: 0 when all exited 0, otherwise the last non-zero code,
/// with negative codes normalized to 1.
pub open spec fn spec_aggregate(codes: Seq<i32>) -> i32 {
    let w = spec_last_nonzero(codes);
    if w < 0 {
        1
    } else {
        w
    }
}

/// Folds exit codes, ordered by completion, into the aggregate status,
/// exactly as [`spec_aggregate`] describes.
pub fn aggregate_codes(codes: &Vec<i32>) -> (r: i32)
    ensures
        r == spec_aggregate(codes@),
{
    let mut worst: i32 = 0;
    let mut i: usize = 0;
    while i < codes.len()
        invariant
            i <= codes@.len(),
            worst == spec_last_nonzero(codes@.subrange(0, i as int)),
        decreases codes@.len() - i,
    {
        let c = codes[i];
        if c != 0 {
            worst = c;
        }
        proof {
            let pre = codes@.subrange(0, i as int);
            let post = codes@.subrange(0, i + 1 as int);
            assert(post.drop_last() =~= pre);
            assert(post.last() == codes@[i as int]);
        }
        i = i + 1;
    }
    proof {
        assert(codes@.subrange(0, codes@.len() as int) =~= codes@);
    }
    if worst < 0 {
        1
    } else {
        worst
    }
}

/// Drives a batch of commands to completion: remembers how many were
/// launched, collects one exit code per command in the order they finish,
/// and carries the run's cancellation signal.
#[derive(Debug)]
pub struct Supervisor {
    /// How many commands the batch holds.
    pub total: usize,
    /// Exit codes of finished commands, in completion order.
    pub codes: Vec<i32>,
    /// The run's one-shot cancellation signal.
    pub cancel: CancelFlag,
}

impl Supervisor {
    /// No more codes are ever recorded than commands were accepted.
    pub open spec fn is_wf(&self) -> bool {
        self.codes@.len() <= self.total
    }

    /// Accepts the ordered command list. An empty list is a usage error,
    /// rejected here, before any process could be launched.
    pub fn new(commands: &Vec<CommandSpec>) -> (r: Result<Supervisor, UsageError>)
        ensures
            commands@.len() == 0 ==> r == Result::<Supervisor, UsageError>::Err(
                UsageError::NoCommands,
            ),
            commands@.len() > 0 ==> (r matches Ok(s) && s.is_wf() && s.total == commands@.len()
                && s.codes@.len() == 0 && !s.cancel.spec_requested()),
    {
        if commands.len() == 0 {
            Err(UsageError::NoCommands)
        } else {
            Ok(Supervisor { total: commands.len(), codes: Vec::new(), cancel: CancelFlag::new() })
        }
    }

    /// Records the terminal outcome of one more command, in completion
    /// order.
    pub fn record_outcome(&mut self, outcome: &ExitOutcome)
        requires
            old(self).is_wf(),
            old(self).codes@.len() < old(self).total,
        ensures
            final(self).is_wf(),
            final(self).codes@ == old(self).codes@.push(outcome.code),
            final(self).total == old(self).total,
            final(self).cancel == old(self).cancel,
    {
        self.codes.push(outcome.code);
    }

    /// True once every command has reported a terminal outcome.
    pub fn all_reported(&self) -> (r: bool)
        ensures
            r == (self.codes@.len() == self.total),
    {
        self.codes.len() == self.total
    }

    /// Requests cancellation of the whole batch. One-way and idempotent;
    /// outcomes already recorded are untouched, and the supervisor still
    /// waits for every outstanding command to report before aggregating.
    pub fn request_cancel(&mut self)
        ensures
            final(self).cancel.spec_requested(),
            final(self).codes == old(self).codes,
            final(self).total == old(self).total,
    {
        self.cancel.request();
    }

    /// The aggregate result, computed once, after every command reported.
    pub fn aggregate(&self) -> (r: i32)
        requires
            self.codes@.len() == self.total,
        ensures
            r == spec_aggregate(self.codes@),
    {
        aggregate_codes(&self.codes)
    }
}

/// One monitor per command, all started together: the monitor of the
/// command at position `i` carries index `i` (stable identity for
/// labeling) and that command's own timeout, and starts in `Running`.
pub fn make_monitors(commands: &Vec<CommandSpec>) -> (r: Vec<CommandMonitor>)
    ensures
        r@.len() == commands@.len(),
        forall|i: int|
            0 <= i < commands@.len() ==> {
                &&& (#[trigger] r@[i]).index == i
                &&& r@[i].timeout == commands@[i].timeout
                &&& r@[i].phase == ProcPhase::Running
            },
{
    let mut r: Vec<CommandMonitor> = Vec::new();
    let n = commands.len();
    let mut k: usize = 0;
    while k < n
        invariant
            k <= n,
            n == commands@.len(),
            r@.len() == k,
            forall|i: int|
                0 <= i < k ==> {
                    &&& (#[trigger] r@[i]).index == i
                    &&& r@[i].timeout == commands@[i].timeout
                    &&& r@[i].phase == ProcPhase::Running
                },
        decreases n - k,
    {
        r.push(CommandMonitor::new(k, commands[k].timeout));
        k = k + 1;
    }
    r
}

/// If every command exits 0, the aggregate result is 0 — and only then:
/// no non-zero exit is ever masked by the aggregation.
pub proof fn lemma_aggregate_zero_iff_all_zero(codes: Seq<i32>)
    ensures
        spec_aggregate(codes) == 0 <==> (forall|i: int| 0 <= i < codes.len() ==> codes[i] == 0),
    decreases codes.len(),
{
    if codes.len() > 0 {
        lemma_aggregate_zero_iff_all_zero(codes.drop_last());
        if spec_aggregate(codes) == 0 {
            assert(codes.last() == 0);
            assert(forall|i: int| 0 <= i < codes.len() - 1 ==> codes[i] == codes.drop_last()[i]);
        } else {
            if forall|i: int| 0 <= i < codes.len() ==> codes[i] == 0 {
                assert(forall|i: int|
                    0 <= i < codes.drop_last().len() ==> codes.drop_last()[i] == 0);
            }
        }
    }
}

/// The last-non-zero law: when the command finishing at position `i` of the
/// completion order exits with a non-zero code and every later finisher
/// exits 0, that code is the last non-zero one; if it is positive it is the
/// aggregate result itself.
pub proof fn lemma_last_nonzero_wins(codes: Seq<i32>, i: int)
    requires
        0 <= i < codes.len(),
        codes[i] != 0,
        forall|j: int| i < j < codes.len() ==> codes[j] == 0,
    ensures
        spec_last_nonzero(codes) == codes[i],
        codes[i] > 0 ==> spec_aggregate(codes) == codes[i],
    decreases codes.len(),
{
    if i == codes.len() - 1 {
    } else {
        assert(codes.last() == 0);
        lemma_last_nonzero_wins(codes.drop_last(), i);
    }
}

} // verus!
