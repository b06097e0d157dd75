//! Labeling of multiplexed output lines.
//!
//! Every line a command writes is tagged with the command's 1-based position
//! in the input list: `[i] ` for stdout lines, `[i][err] ` for stderr lines.
//! The functions here produce exactly one complete labeled line per output
//! event; the caller serializes the writes so lines are never interleaved.

use vstd::prelude::*;
use vstd::string::StringExecFns;

use crate::text::spec_decimal;
use crate::text::u64_to_decimal;

verus! {

/// Which of a child's two output streams a line came from.
#[derive(Clone, Copy, Debug, PartialEq, Eq, Structural)]
pub enum StreamKind {
    Stdout,
    Stderr,
}

/// One line produced by one command on one stream. `index` is the command's
/// 0-based position in the input list; labels render it 1-based.
#[derive(Debug)]
pub struct OutputEvent {
    pub index: usize,
    pub stream: StreamKind,
    pub line: String,
}

/// `[i]` where `i` is the 1-based command number.
pub open spec fn spec_label(index1: nat) -> Seq<char> {
    seq!['['] + spec_decimal(index1) + seq![']']
}

/// The full line prefix: `[i] ` for stdout, `[i][err] ` for stderr.
pub open spec fn spec_line_prefix(index1: nat, stream: StreamKind) -> Seq<char> {
    match stream {
        StreamKind::Stdout => spec_label(index1) + seq![' '],
        StreamKind::Stderr => spec_label(index1) + seq!['[', 'e', 'r', 'r', ']', ' '],
    }
}

/// A labeled line: the prefix for this command and stream, then the line text.
pub open spec fn spec_rendered_line(index1: nat, stream: StreamKind, line: Seq<char>) -> Seq<char> {
    spec_line_prefix(index1, stream) + line
}

/// The diagnostic text reported when a command exceeds its timeout of
/// `secs` seconds: `command timed out after {secs}s`.
pub open spec fn spec_timeout_text(secs: nat) -> Seq<char> {
    seq![
        'c', 'o', 'm', 'm', 'a', 'n', 'd', ' ', 't', 'i', 'm', 'e', 'd', ' ', 'o', 'u', 't', ' ',
        'a', 'f', 't', 'e', 'r', ' ',
    ] + spec_decimal(secs) + seq!['s']
}

pub fn make_line_msg(idx: usize, kind: StreamKind, text: String) -> (r: OutputEvent)
    ensures
        r.index == idx,
        r.stream == kind,
        r.line@ == text@,
{
    OutputEvent { index: idx, stream: kind, line: text }
}

/// Builds the label prefix for the command at 0-based `index`.
pub fn render_prefix(index: usize, stream: StreamKind) -> (r: String)
    requires
        index < usize::MAX,
    ensures
        r@ == spec_line_prefix(index as nat + 1, stream),
{
    let mut s = String::from_str("[");
    let number = u64_to_decimal(index as u64 + 1);
    s.append(number.as_str());
    match stream {
        StreamKind::Stdout => {
            s.append("] ");
            proof {
                reveal_strlit("[");
                reveal_strlit("] ");
                assert(s@ =~= spec_line_prefix(index as nat + 1, StreamKind::Stdout));
            }
        },
        StreamKind::Stderr => {
            s.append("][err] ");
            proof {
                reveal_strlit("[");
                reveal_strlit("][err] ");
                assert(s@ =~= spec_line_prefix(index as nat + 1, StreamKind::Stderr));
            }
        },
    }
    s
}

/// Renders one output event as its complete labeled line (without a trailing
/// newline). Each event yields exactly this one line, so a serialized writer
/// never emits a partial or mislabeled line.
pub fn render_event(ev: &OutputEvent) -> (r: String)
    requires
        ev.index < usize::MAX,
    ensures
        r@ == spec_rendered_line(ev.index as nat + 1, ev.stream, ev.line@),
{
    let mut s = render_prefix(ev.index, ev.stream);
    s.append(ev.line.as_str());
    s
}

/// The fan-in point's contract over a whole run: given the events in the
/// order the serialization point received them, exactly one complete
/// labeled line comes out per event, in that same order — no event is
/// dropped, split or merged with another, whatever commands and streams
/// the events came from.
pub fn render_all(events: &Vec<OutputEvent>) -> (r: Vec<String>)
    requires
        forall|i: int| 0 <= i < events@.len() ==> (#[trigger] events@[i]).index < usize::MAX,
    ensures
        r@.len() == events@.len(),
        forall|i: int|
            0 <= i < events@.len() ==> (#[trigger] r@[i])@ == spec_rendered_line(
                events@[i].index as nat + 1,
                events@[i].stream,
                events@[i].line@,
            ),
{
    let mut r: Vec<String> = Vec::new();
    let n = events.len();
    let mut k: usize = 0;
    while k < n
        invariant
            k <= n,
            n == events@.len(),
            r@.len() == k,
            forall|i: int| 0 <= i < events@.len() ==> (#[trigger] events@[i]).index < usize::MAX,
            forall|i: int|
                0 <= i < k ==> (#[trigger] r@[i])@ == spec_rendered_line(
                    events@[i].index as nat + 1,
                    events@[i].stream,
                    events@[i].line@,
                ),
        decreases n - k,
    {
        r.push(render_event(&events[k]));
        k = k + 1;
    }
    r
}

/// Renders the stderr diagnostic for a command whose timeout of `secs`
/// seconds elapsed: `[i][err] command timed out after {secs}s`.
pub fn render_timeout_message(index: usize, secs: u64) -> (r: String)
    requires
        index < usize::MAX,
    ensures
        r@ == spec_rendered_line(index as nat + 1, StreamKind::Stderr, spec_timeout_text(secs as nat)),
{
    let mut s = render_prefix(index, StreamKind::Stderr);
    s.append("command timed out after ");
    let number = u64_to_decimal(secs);
    s.append(number.as_str());
    s.append("s");
    proof {
        reveal_strlit("command timed out after ");
        reveal_strlit("s");
        assert(s@ =~= spec_rendered_line(
            index as nat + 1,
            StreamKind::Stderr,
            spec_timeout_text(secs as nat),
        ));
    }
    s
}

} // verus!
