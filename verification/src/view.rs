//! Pane state for an interactive presentation of the multiplexed stream.
//!
//! One scrollback buffer per command, a selected pane, and the retention
//! policy that keeps memory bounded under long-running, high-output
//! commands: once a pane holds more than [`LOG_CAP`] lines, the oldest
//! [`LOG_EVICT`] lines are dropped before the newest line is appended — the
//! newest line is never lost.

use vstd::prelude::*;
use vstd::string::StringExecFns;

use crate::mux::OutputEvent;
use crate::mux::StreamKind;
use crate::text::spec_decimal;
use crate::text::u64_to_decimal;

verus! {

/// A pane whose buffer grows beyond this many lines is trimmed.
pub const LOG_CAP: usize = 10000;

/// How many of the oldest lines a trim drops: the oldest half of the cap.
pub const LOG_EVICT: usize = 5000;

/// How many of the newest lines of the selected pane are shown.
pub const VISIBLE_CAP: usize = 1000;

/// How a line is stored in a pane: stderr lines carry an `[err] ` marker,
/// stdout lines are stored as they came. The command label is implicit in
/// which pane the line sits in.
pub open spec fn spec_pane_line(kind: StreamKind, text: Seq<char>) -> Seq<char> {
    match kind {
        StreamKind::Stdout => text,
        StreamKind::Stderr => seq!['[', 'e', 'r', 'r', ']', ' '] + text,
    }
}

/// The retention policy: over the cap, the oldest [`LOG_EVICT`] lines go.
pub open spec fn spec_evict(pane: Seq<Seq<char>>) -> Seq<Seq<char>> {
    if pane.len() > LOG_CAP {
        pane.subrange(LOG_EVICT as int, pane.len() as int)
    } else {
        pane
    }
}

/// The newest `cap` lines of a pane (all of it when it is shorter).
pub open spec fn spec_tail(pane: Seq<Seq<char>>, cap: nat) -> Seq<Seq<char>> {
    if pane.len() > cap {
        pane.subrange(pane.len() - cap, pane.len() as int)
    } else {
        pane
    }
}

/// A pane's tab title: the 1-based command number, then the command text.
pub open spec fn spec_pane_title(index1: nat, command: Seq<char>) -> Seq<char> {
    spec_decimal(index1) + seq![':', ' '] + command
}

/// Renders the tab title for the command at 0-based `index`:
/// `{index + 1}: {command}`.
pub fn pane_title(index: usize, command: &str) -> (r: String)
    requires
        index < usize::MAX,
    ensures
        r@ == spec_pane_title(index as nat + 1, command@),
{
    let mut s = u64_to_decimal(index as u64 + 1);
    s.append(": ");
    s.append(command);
    proof {
        reveal_strlit(": ");
        assert(s@ =~= spec_pane_title(index as nat + 1, command@));
    }
    s
}

/// Retention keeps memory bounded: a pane that respects the bound before
/// an append still respects it after eviction and append, and the appended
/// line is always the newest entry — the newest line is never dropped.
pub proof fn lemma_retention_bounded(pane: Seq<Seq<char>>, line: Seq<char>)
    requires
        pane.len() <= LOG_CAP + 1,
    ensures
        spec_evict(pane).push(line).len() <= LOG_CAP + 1,
        spec_evict(pane).push(line).last() == line,
{
}

/// Clones the lines of `pane` from position `start` on.
fn clone_from(pane: &Vec<String>, start: usize) -> (r: Vec<String>)
    requires
        start <= pane@.len(),
    ensures
        r.deep_view() == pane.deep_view().subrange(start as int, pane@.len() as int),
{
    let mut r: Vec<String> = Vec::new();
    let n = pane.len();
    let mut k = start;
    while k < n
        invariant
            start <= k <= n,
            n == pane@.len(),
            r@.len() == k - start,
            forall|i: int| 0 <= i < k - start ==> #[trigger] r@[i]@ == pane@[start + i]@,
        decreases n - k,
    {
        r.push(pane[k].clone());
        k = k + 1;
    }
    proof {
        assert(r.deep_view() =~= pane.deep_view().subrange(start as int, pane@.len() as int));
    }
    r
}

/// The interactive viewer's state: one scrollback buffer per command, and
/// which pane is selected.
#[derive(Debug)]
pub struct App {
    pub logs: Vec<Vec<String>>,
    pub selected: usize,
}

impl App {
    /// A viewer over `n` commands: `n` empty panes, the first selected.
    pub fn new(n: usize) -> (r: App)
        ensures
            r.logs@.len() == n,
            forall|i: int| 0 <= i < n ==> #[trigger] r.logs@[i].deep_view().len() == 0,
            r.selected == 0,
    {
        let mut logs: Vec<Vec<String>> = Vec::new();
        let mut k: usize = 0;
        while k < n
            invariant
                k <= n,
                logs@.len() == k,
                forall|i: int| 0 <= i < k ==> #[trigger] logs@[i].deep_view().len() == 0,
            decreases n - k,
        {
            logs.push(Vec::new());
            k = k + 1;
        }
        App { logs, selected: 0 }
    }

    /// Appends one output event to its command's pane, trimming first when
    /// the pane is over the cap. Only that pane changes; the newest line is
    /// always the event's own, stored as [`spec_pane_line`] describes.
    pub fn push(&mut self, msg: OutputEvent)
        requires
            msg.index < old(self).logs@.len(),
        ensures
            final(self).logs@.len() == old(self).logs@.len(),
            final(self).selected == old(self).selected,
            forall|i: int|
                0 <= i < old(self).logs@.len() && i != msg.index ==> final(self).logs@[i]
                    == old(self).logs@[i],
            final(self).logs@[msg.index as int].deep_view() == spec_evict(
                old(self).logs@[msg.index as int].deep_view(),
            ).push(spec_pane_line(msg.stream, msg.line@)),
    {
        let OutputEvent { index: idx, stream, line } = msg;
        let rendered: String = match stream {
            StreamKind::Stdout => line,
            StreamKind::Stderr => {
                let mut s = String::from_str("[err] ");
                s.append(line.as_str());
                proof {
                    reveal_strlit("[err] ");
                    assert(s@ =~= spec_pane_line(StreamKind::Stderr, line@));
                }
                s
            },
        };
        let n = self.logs[idx].len();
        let start: usize = if n > LOG_CAP {
            LOG_EVICT
        } else {
            0
        };
        let ghost orig: Seq<Seq<char>> = self.logs@[idx as int].deep_view();
        let mut new_pane = clone_from(&self.logs[idx], start);
        proof {
            if n > LOG_CAP {
                assert(new_pane.deep_view() =~= spec_evict(orig));
            } else {
                assert(orig.subrange(0, orig.len() as int) =~= orig);
            }
        }
        new_pane.push(rendered);
        proof {
            assert(new_pane.deep_view() =~= spec_evict(orig).push(
                spec_pane_line(msg.stream, msg.line@),
            ));
        }
        self.logs.as_mut_slice()[idx] = new_pane;
    }

    /// The number of panes, one per command.
    pub fn pane_count(&self) -> (r: usize)
        ensures
            r == self.logs@.len(),
    {
        self.logs.len()
    }

    /// Moves the selection one pane left, stopping at the first pane.
    pub fn select_prev(&mut self)
        ensures
            final(self).selected == if old(self).selected == 0 {
                0int
            } else {
                old(self).selected - 1
            },
            final(self).logs == old(self).logs,
    {
        if self.selected > 0 {
            self.selected = self.selected - 1;
        }
    }

    /// Moves the selection one pane right, stopping at the last pane.
    pub fn select_next(&mut self)
        requires
            old(self).selected < old(self).logs@.len(),
        ensures
            final(self).selected == if old(self).selected + 1 < old(self).logs@.len() {
                old(self).selected + 1
            } else {
                old(self).selected as int
            },
            final(self).logs == old(self).logs,
    {
        let n = self.logs.len();
        if self.selected + 1 < n {
            self.selected = self.selected + 1;
        }
    }

    /// Moves the selection to the next pane, wrapping past the last.
    pub fn select_tab_next(&mut self)
        requires
            old(self).logs@.len() > 0,
            old(self).selected < old(self).logs@.len(),
        ensures
            final(self).selected == (old(self).selected + 1) % (old(self).logs@.len() as int),
            final(self).logs == old(self).logs,
    {
        let n = self.logs.len();
        if self.selected + 1 < n {
            self.selected = self.selected + 1;
            proof {
                vstd::arithmetic::div_mod::lemma_small_mod(self.selected as nat, n as nat);
            }
        } else {
            self.selected = 0;
            proof {
                vstd::arithmetic::div_mod::lemma_mod_self_0(n as int);
            }
        }
    }

    /// Moves the selection to the previous pane, wrapping past the first.
    pub fn select_tab_prev(&mut self)
        requires
            old(self).logs@.len() > 0,
            old(self).selected < old(self).logs@.len(),
        ensures
            final(self).selected == if old(self).selected == 0 {
                old(self).logs@.len() - 1
            } else {
                old(self).selected - 1
            },
            final(self).logs == old(self).logs,
    {
        if self.selected == 0 {
            self.selected = self.logs.len() - 1;
        } else {
            self.selected = self.selected - 1;
        }
    }

    /// The newest [`VISIBLE_CAP`] lines of the selected pane, oldest first:
    /// what the viewer draws.
    pub fn visible_tail(&self) -> (r: Vec<String>)
        requires
            self.selected < self.logs@.len(),
        ensures
            r.deep_view() == spec_tail(
                self.logs@[self.selected as int].deep_view(),
                VISIBLE_CAP as nat,
            ),
    {
        let n = self.logs[self.selected].len();
        let start: usize = if n > VISIBLE_CAP {
            n - VISIBLE_CAP
        } else {
            0
        };
        let r = clone_from(&self.logs[self.selected], start);
        proof {
            assert(r.deep_view() =~= spec_tail(
                self.logs@[self.selected as int].deep_view(),
                VISIBLE_CAP as nat,
            ));
        }
        r
    }
}

} // verus!
