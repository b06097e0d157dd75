//! Per-command lifecycle: the race between natural exit, the timeout
//! watchdog and cancellation, resolved as a state machine.
//!
//! A child process is observed through events gathered under its per-process
//! lock: `StillRunning` / `ExitObserved` from polling its status,
//! `TimerElapsed` from the watchdog, `CancelRequested` from the one-shot
//! cancellation signal. The machine decides, for each event, the next phase
//! and whether a termination request must be issued. Its laws: termination
//! is requested at most once per command, the terminal phase is absorbing,
//! a command whose timer elapsed reports the fixed sentinel code 124, and a
//! command that exits before its timer keeps its natural code.

use vstd::prelude::*;

verus! {

/// Exit code reported for a command terminated by its timeout watchdog,
/// matching common shell convention.
pub const TIMEOUT_EXIT_CODE: i32 = 124;

/// Sentinel for a command whose real exit code could not be read: spawn
/// failure, termination by a signal, or a failed status poll.
pub const SENTINEL_EXIT_CODE: i32 = -1;

/// Where a command stands between spawn and terminal outcome.
#[derive(Clone, Copy, Debug, PartialEq, Eq, Structural)]
pub enum ProcPhase {
    /// The child is (as far as observed) still running.
    Running,
    /// Termination was requested, by the watchdog (`timed_out`) or by
    /// cancellation; the machine now waits for the exit to be confirmed.
    KillRequested { timed_out: bool },
    /// Terminal: the command's outcome is fixed and never changes again.
    Exited { code: i32, timed_out: bool },
}

/// What was observed of the child, under its status lock.
#[derive(Clone, Copy, Debug, PartialEq, Eq, Structural)]
pub enum ProcEvent {
    /// The child has exited; `code` is `None` when the platform reports no
    /// exit code (terminated by a signal).
    ExitObserved { code: Option<i32> },
    /// A status poll found the child still running.
    StillRunning,
    /// The status of the child could not be read at all.
    WaitFailed,
    /// The command's timeout elapsed.
    TimerElapsed,
    /// The one-shot cancellation signal was observed.
    CancelRequested,
}

/// What the caller must do after feeding an event to the machine.
#[derive(Clone, Copy, Debug, PartialEq, Eq, Structural)]
pub enum ProcAction {
    /// Nothing: keep waiting, or the command is already done.
    Idle,
    /// Request termination of the child, then keep waiting for the exit to
    /// be confirmed.
    Kill,
}

/// The exit code a command reports: the timeout sentinel when its watchdog
/// fired, otherwise its natural code, with [`SENTINEL_EXIT_CODE`] standing
/// in when no code could be read.
pub open spec fn spec_resolve_exit_code(timed_out: bool, code: Option<i32>) -> i32 {
    if timed_out {
        TIMEOUT_EXIT_CODE
    } else {
        match code {
            Some(c) => c,
            None => SENTINEL_EXIT_CODE,
        }
    }
}

/// One transition of the lifecycle machine: next phase and required action.
pub open spec fn spec_step(p: ProcPhase, e: ProcEvent) -> (ProcPhase, ProcAction) {
    match p {
        ProcPhase::Running => match e {
            ProcEvent::ExitObserved { code } => (
                ProcPhase::Exited { code: spec_resolve_exit_code(false, code), timed_out: false },
                ProcAction::Idle,
            ),
            ProcEvent::StillRunning => (p, ProcAction::Idle),
            ProcEvent::WaitFailed => (
                ProcPhase::Exited { code: SENTINEL_EXIT_CODE, timed_out: false },
                ProcAction::Idle,
            ),
            ProcEvent::TimerElapsed => (
                ProcPhase::KillRequested { timed_out: true },
                ProcAction::Kill,
            ),
            ProcEvent::CancelRequested => (
                ProcPhase::KillRequested { timed_out: false },
                ProcAction::Kill,
            ),
        },
        ProcPhase::KillRequested { timed_out } => match e {
            ProcEvent::ExitObserved { code } => (
                ProcPhase::Exited { code: spec_resolve_exit_code(timed_out, code), timed_out },
                ProcAction::Idle,
            ),
            ProcEvent::WaitFailed => (
                ProcPhase::Exited { code: spec_resolve_exit_code(timed_out, None), timed_out },
                ProcAction::Idle,
            ),
            _ => (p, ProcAction::Idle),
        },
        ProcPhase::Exited { .. } => (p, ProcAction::Idle),
    }
}

/// The phase reached after feeding a whole sequence of events, oldest first.
pub open spec fn spec_run(p: ProcPhase, es: Seq<ProcEvent>) -> ProcPhase
    decreases es.len(),
{
    if es.len() == 0 {
        p
    } else {
        spec_run(spec_step(p, es.first()).0, es.drop_first())
    }
}

/// How many termination requests a sequence of events makes the machine issue.
pub open spec fn spec_kill_count(p: ProcPhase, es: Seq<ProcEvent>) -> nat
    decreases es.len(),
{
    if es.len() == 0 {
        0
    } else {
        (if spec_step(p, es.first()).1 is Kill {
            1nat
        } else {
            0nat
        }) + spec_kill_count(spec_step(p, es.first()).0, es.drop_first())
    }
}

/// One command's terminal report: its position in the input list, the exit
/// code it resolves to, and whether its timeout watchdog fired.
#[derive(Clone, Copy, Debug, PartialEq, Eq, Structural)]
pub struct ExitOutcome {
    pub index: usize,
    pub code: i32,
    pub timed_out: bool,
}

/// Supervises one command: identity, configured timeout, current phase.
#[derive(Debug)]
pub struct CommandMonitor {
    pub index: usize,
    pub timeout: Option<u64>,
    pub phase: ProcPhase,
}

impl CommandMonitor {
    /// A fresh monitor for the command at 0-based `index`, not yet observed
    /// to have exited.
    pub fn new(index: usize, timeout: Option<u64>) -> (r: CommandMonitor)
        ensures
            r.index == index,
            r.timeout == timeout,
            r.phase == ProcPhase::Running,
    {
        CommandMonitor { index, timeout, phase: ProcPhase::Running }
    }

    /// Feeds one observation to the machine and returns the action the
    /// caller must take. Identity and timeout never change.
    pub fn step(&mut self, e: ProcEvent) -> (a: ProcAction)
        ensures
            final(self).phase == spec_step(old(self).phase, e).0,
            a == spec_step(old(self).phase, e).1,
            final(self).index == old(self).index,
            final(self).timeout == old(self).timeout,
    {
        let (next, action) = match self.phase {
            ProcPhase::Running => match e {
                ProcEvent::ExitObserved { code } => (
                    ProcPhase::Exited { code: resolve_exit_code(false, code), timed_out: false },
                    ProcAction::Idle,
                ),
                ProcEvent::StillRunning => (self.phase, ProcAction::Idle),
                ProcEvent::WaitFailed => (
                    ProcPhase::Exited { code: SENTINEL_EXIT_CODE, timed_out: false },
                    ProcAction::Idle,
                ),
                ProcEvent::TimerElapsed => (
                    ProcPhase::KillRequested { timed_out: true },
                    ProcAction::Kill,
                ),
                ProcEvent::CancelRequested => (
                    ProcPhase::KillRequested { timed_out: false },
                    ProcAction::Kill,
                ),
            },
            ProcPhase::KillRequested { timed_out } => match e {
                ProcEvent::ExitObserved { code } => (
                    ProcPhase::Exited { code: resolve_exit_code(timed_out, code), timed_out },
                    ProcAction::Idle,
                ),
                ProcEvent::WaitFailed => (
                    ProcPhase::Exited { code: resolve_exit_code(timed_out, None), timed_out },
                    ProcAction::Idle,
                ),
                _ => (self.phase, ProcAction::Idle),
            },
            ProcPhase::Exited { .. } => (self.phase, ProcAction::Idle),
        };
        self.phase = next;
        action
    }

    /// True once the command's outcome is fixed.
    pub fn is_terminal(&self) -> (r: bool)
        ensures
            r == (self.phase is Exited),
    {
        match self.phase {
            ProcPhase::Exited { .. } => true,
            _ => false,
        }
    }

    /// The terminal report, once the machine has reached it.
    pub fn outcome(&self) -> (r: Option<ExitOutcome>)
        ensures
            match self.phase {
                ProcPhase::Exited { code, timed_out } => r == Some(
                    ExitOutcome { index: self.index, code, timed_out },
                ),
                _ => r is None,
            },
    {
        match self.phase {
            ProcPhase::Exited { code, timed_out } => Some(
                ExitOutcome { index: self.index, code, timed_out },
            ),
            _ => None,
        }
    }
}

/// The exit code a command reports, exactly as [`spec_resolve_exit_code`]
/// describes: a command whose watchdog fired reports 124 whatever its real
/// code was; a command that finished on its own keeps its natural code.
pub fn resolve_exit_code(timed_out: bool, code: Option<i32>) -> (r: i32)
    ensures
        r == spec_resolve_exit_code(timed_out, code),
        timed_out ==> r == TIMEOUT_EXIT_CODE,
        !timed_out ==> (code matches Some(c) ==> r == c),
        !timed_out && code is None ==> r == SENTINEL_EXIT_CODE,
{
    if timed_out {
        TIMEOUT_EXIT_CODE
    } else {
        match code {
            Some(c) => c,
            None => SENTINEL_EXIT_CODE,
        }
    }
}

/// The outcome recorded for a command whose child process could not be
/// spawned at all: the sentinel failure code, fatal to this command only.
pub fn outcome_for_spawn_failure(index: usize) -> (r: ExitOutcome)
    ensures
        r.index == index,
        r.code == SENTINEL_EXIT_CODE,
        !r.timed_out,
{
    ExitOutcome { index, code: SENTINEL_EXIT_CODE, timed_out: false }
}

/// The terminal phase is absorbing: once a command has exited, no further
/// event changes its outcome, and no further action is requested.
pub proof fn lemma_exited_is_absorbing(p: ProcPhase, es: Seq<ProcEvent>)
    requires
        p is Exited,
    ensures
        spec_run(p, es) == p,
        spec_kill_count(p, es) == 0,
    decreases es.len(),
{
    if es.len() > 0 {
        lemma_exited_is_absorbing(p, es.drop_first());
    }
}

/// A termination request is issued only while the command still runs, and
/// only by the watchdog or by cancellation.
pub proof fn lemma_kill_only_from_running(p: ProcPhase, e: ProcEvent)
    ensures
        spec_step(p, e).1 is Kill ==> p is Running && (e is TimerElapsed || e is CancelRequested),
{
}

/// Once the machine has left `Running`, it never returns there and never
/// issues another termination request.
pub proof fn lemma_no_kill_after_running_left(p: ProcPhase, es: Seq<ProcEvent>)
    requires
        !(p is Running),
    ensures
        spec_kill_count(p, es) == 0,
    decreases es.len(),
{
    if es.len() > 0 {
        lemma_no_kill_after_running_left(spec_step(p, es.first()).0, es.drop_first());
    }
}

/// Termination of one command is requested at most once, however its
/// watchdog, cancellation and status polls interleave: the watchdog and the
/// cancellation path cannot both deliver a kill.
pub proof fn lemma_at_most_one_kill(es: Seq<ProcEvent>)
    ensures
        spec_kill_count(ProcPhase::Running, es) <= 1,
    decreases es.len(),
{
    if es.len() > 0 {
        let next = spec_step(ProcPhase::Running, es.first()).0;
        if spec_step(ProcPhase::Running, es.first()).1 is Kill {
            lemma_no_kill_after_running_left(next, es.drop_first());
        } else if next is Running {
            lemma_at_most_one_kill(es.drop_first());
        } else {
            lemma_no_kill_after_running_left(next, es.drop_first());
        }
    }
}

/// After the watchdog fired, the command's outcome is locked to the timeout
/// sentinel: whatever is observed afterwards, if the machine reaches a
/// terminal phase it reports exit code 124 and `timed_out`.
pub proof fn lemma_timeout_outcome_is_124(es: Seq<ProcEvent>)
    ensures
        ({
            let p = spec_run(ProcPhase::KillRequested { timed_out: true }, es);
            p is Exited ==> p == (ProcPhase::Exited { code: TIMEOUT_EXIT_CODE, timed_out: true })
        }),
    decreases es.len(),
{
    if es.len() > 0 {
        let next = spec_step(ProcPhase::KillRequested { timed_out: true }, es.first()).0;
        if next is Exited {
            lemma_exited_is_absorbing(next, es.drop_first());
        } else {
            lemma_timeout_outcome_is_124(es.drop_first());
        }
    }
}

/// The timeout law: when the timer of a still-running command elapses, a
/// termination request is issued at once, and the command's eventual
/// outcome is exit code 124 with `timed_out` set.
pub proof fn lemma_timeout_law(es: Seq<ProcEvent>)
    ensures
        spec_step(ProcPhase::Running, ProcEvent::TimerElapsed) == (
            ProcPhase::KillRequested { timed_out: true },
            ProcAction::Kill,
        ),
        ({
            let p = spec_run(spec_step(ProcPhase::Running, ProcEvent::TimerElapsed).0, es);
            p is Exited ==> p == (ProcPhase::Exited { code: TIMEOUT_EXIT_CODE, timed_out: true })
        }),
{
    lemma_timeout_outcome_is_124(es);
}

/// A command that exits before its timer keeps its natural exit code: the
/// exit observed while still running is terminal, not timed out, and the
/// code is the process's own.
pub proof fn lemma_fast_exit_keeps_code(c: i32)
    ensures
        spec_step(ProcPhase::Running, ProcEvent::ExitObserved { code: Some(c) }) == (
            ProcPhase::Exited { code: c, timed_out: false },
            ProcAction::Idle,
        ),
{
}

/// The cancellation path: a cancellation observed while the command runs
/// requests termination at once, and as soon as the exit is then confirmed
/// the command reaches a terminal outcome — no command is left unresolved.
pub proof fn lemma_cancel_leads_to_outcome(code: Option<i32>)
    ensures
        spec_step(ProcPhase::Running, ProcEvent::CancelRequested) == (
            ProcPhase::KillRequested { timed_out: false },
            ProcAction::Kill,
        ),
        spec_step(
            ProcPhase::KillRequested { timed_out: false },
            ProcEvent::ExitObserved { code },
        ).0 == (ProcPhase::Exited {
            code: spec_resolve_exit_code(false, code),
            timed_out: false,
        }),
{
}

/// No command is left unresolved: from any phase, a run that ever observes
/// the child's exit (or a failed wait) ends in a terminal outcome. With
/// [`lemma_cancel_leads_to_outcome`], cancelling a batch of running
/// commands leaves each one terminated and reported, none orphaned, as
/// soon as its exit is confirmed.
pub proof fn lemma_confirmed_exit_reaches_outcome(p: ProcPhase, es: Seq<ProcEvent>)
    requires
        exists|i: int| 0 <= i < es.len() && ((es[i] is ExitObserved) || (es[i] is WaitFailed)),
    ensures
        spec_run(p, es) is Exited,
    decreases es.len(),
{
    let i = choose|i: int| 0 <= i < es.len() && ((es[i] is ExitObserved) || (es[i] is WaitFailed));
    let next = spec_step(p, es.first()).0;
    if i == 0 {
        if next is Exited {
            lemma_exited_is_absorbing(next, es.drop_first());
        }
    } else {
        assert(es.drop_first()[i - 1] == es[i]);
        lemma_confirmed_exit_reaches_outcome(next, es.drop_first());
    }
}

/// Phases that carry no timeout mark: the watchdog has not fired.
spec fn no_timeout_mark(p: ProcPhase) -> bool {
    match p {
        ProcPhase::Running => true,
        ProcPhase::KillRequested { timed_out } => !timed_out,
        ProcPhase::Exited { timed_out, .. } => !timed_out,
    }
}

proof fn lemma_timed_out_needs_timer(p: ProcPhase, es: Seq<ProcEvent>)
    requires
        no_timeout_mark(p),
    ensures
        ({
            let q = spec_run(p, es);
            q is Exited && q->Exited_timed_out ==> es.contains(ProcEvent::TimerElapsed)
        }),
    decreases es.len(),
{
    if es.len() > 0 {
        let e = es.first();
        let p1 = spec_step(p, e).0;
        if p is Running && e is TimerElapsed {
            assert(es[0] == ProcEvent::TimerElapsed);
        } else {
            lemma_timed_out_needs_timer(p1, es.drop_first());
            let q = spec_run(p1, es.drop_first());
            if q is Exited && q->Exited_timed_out {
                let i = choose|i: int|
                    0 <= i < es.drop_first().len() && es.drop_first()[i]
                        == ProcEvent::TimerElapsed;
                assert(es[i + 1] == ProcEvent::TimerElapsed);
            }
        }
    }
}

/// The converse of the timeout law: a command is reported as timed out
/// only when its watchdog actually fired. A run that never saw its timer
/// elapse — however exits, cancellations and polls interleave — never
/// produces a timed-out outcome.
pub proof fn lemma_timed_out_only_by_watchdog(es: Seq<ProcEvent>)
    ensures
        ({
            let q = spec_run(ProcPhase::Running, es);
            q is Exited && q->Exited_timed_out ==> es.contains(ProcEvent::TimerElapsed)
        }),
{
    lemma_timed_out_needs_timer(ProcPhase::Running, es);
}

/// Whatever phase a command is in, confirming an exit (or a failed wait)
/// makes it terminal: waiting for every outstanding command to report is
/// always answered once each child stops.
pub proof fn lemma_exit_confirmation_is_terminal(p: ProcPhase, e: ProcEvent)
    requires
        e is ExitObserved || e is WaitFailed,
    ensures
        spec_step(p, e).0 is Exited,
{
}

} // verus!
