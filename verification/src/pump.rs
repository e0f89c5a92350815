//! Forwarding what the backend server prints to the diagnostic log.

use vstd::prelude::*;
use vstd::string::*;
use crate::text::{decimal, decode_lossy, push_decimal, utf8_lossy};

verus! {

/// How the backend server ended.
#[derive(Clone, Copy, Debug, PartialEq, Eq, Structural)]
pub struct TerminatedPayload {
    /// The exit code, where the process exited by itself.
    pub code: Option<i32>,
    /// The signal, where one ended the process.
    pub signal: Option<i32>,
}

/// One event of the backend server's output stream.
#[derive(Clone, Debug)]
pub enum OutputEvent {
    /// A line on standard output, as raw bytes.
    Stdout(Vec<u8>),
    /// A line on standard error, as raw bytes.
    Stderr(Vec<u8>),
    /// The stream itself reported an error.
    Error(String),
    /// The process ended.
    Terminated(TerminatedPayload),
    /// Any other kind of event.
    Other,
}

/// An event as a value: bytes and text as sequences.
pub enum OutputEventView {
    Stdout(Seq<u8>),
    Stderr(Seq<u8>),
    Error(Seq<char>),
    Terminated(TerminatedPayload),
    Other,
}

impl View for OutputEvent {
    type V = OutputEventView;

    open spec fn view(&self) -> OutputEventView {
        match *self {
            OutputEvent::Stdout(bytes) => OutputEventView::Stdout(bytes@),
            OutputEvent::Stderr(bytes) => OutputEventView::Stderr(bytes@),
            OutputEvent::Error(message) => OutputEventView::Error(message@),
            OutputEvent::Terminated(payload) => OutputEventView::Terminated(payload),
            OutputEvent::Other => OutputEventView::Other,
        }
    }
}

/// What the pump does on one event.
#[derive(Clone, Debug)]
pub struct PumpStep {
    /// The line to write to the log, if the event has one.
    pub line: Option<String>,
    /// Whether the pump stops consuming after this event.
    pub stop: bool,
}

/// A step as a value: the line as a sequence of characters.
pub struct PumpStepView {
    pub line: Option<Seq<char>>,
    pub stop: bool,
}

impl View for PumpStep {
    type V = PumpStepView;

    open spec fn view(&self) -> PumpStepView {
        PumpStepView {
            line: match self.line {
                Some(text) => Some(text@),
                None => None,
            },
            stop: self.stop,
        }
    }
}

/// A line of backend output as it goes to the log: marked as the server's.
pub open spec fn server_line(text: Seq<char>) -> Seq<char> {
    "[server] "@ + text
}

/// An optional number as the log shows it.
pub open spec fn option_text(value: Option<i32>) -> Seq<char> {
    match value {
        Some(number) => "Some("@ + decimal(number as int) + ")"@,
        None => "None"@,
    }
}

/// An exit status as the log shows it.
pub open spec fn payload_text(payload: TerminatedPayload) -> Seq<char> {
    "TerminatedPayload { code: "@ + option_text(payload.code) + ", signal: "@ + option_text(
        payload.signal,
    ) + " }"@
}

/// The log line that reports the end of the process.
pub open spec fn exit_line(payload: TerminatedPayload) -> Seq<char> {
    server_line("process exited with "@ + payload_text(payload))
}

/// The log line of an event: output lines are decoded and marked, the end
/// of the process is reported, nothing else is logged.
pub open spec fn line_of(event: OutputEventView) -> Option<Seq<char>> {
    match event {
        OutputEventView::Stdout(bytes) => Some(server_line(utf8_lossy(bytes))),
        OutputEventView::Stderr(bytes) => Some(server_line(utf8_lossy(bytes))),
        OutputEventView::Terminated(payload) => Some(exit_line(payload)),
        OutputEventView::Error(_) => None,
        OutputEventView::Other => None,
    }
}

/// Whether the pump stops after an event: only once the process has ended.
pub open spec fn ends_pump(event: OutputEventView) -> bool {
    event is Terminated
}

/// What the pump does on an event.
pub open spec fn step_of(event: OutputEventView) -> PumpStepView {
    PumpStepView { line: line_of(event), stop: ends_pump(event) }
}

/// A stream of events as values.
pub open spec fn stream_view(events: Seq<OutputEvent>) -> Seq<OutputEventView> {
    events.map_values(|event: OutputEvent| event@)
}

/// The texts of a run of lines.
pub open spec fn lines_text(lines: Seq<String>) -> Seq<Seq<char>> {
    lines.map_values(|line: String| line@)
}

/// Every line that a run of events has, in order, none left out.
pub open spec fn forwarded(events: Seq<OutputEventView>) -> Seq<Seq<char>>
    decreases events.len(),
{
    if events.len() == 0 {
        Seq::empty()
    } else {
        match line_of(events.last()) {
            Some(line) => forwarded(events.drop_last()).push(line),
            None => forwarded(events.drop_last()),
        }
    }
}

/// How many events of a stream the pump consumes: up to and including the
/// first that ends it, or all of them where none does.
pub open spec fn consumed(events: Seq<OutputEventView>) -> nat
    decreases events.len(),
{
    if events.len() == 0 {
        0
    } else if ends_pump(events.first()) {
        1
    } else {
        1 + consumed(events.drop_first())
    }
}

/// What the pump writes to the log for a stream of events: the lines of
/// the events it consumes.
pub open spec fn pumped(events: Seq<OutputEventView>) -> Seq<Seq<char>> {
    forwarded(events.take(consumed(events) as int))
}

/// Marks decoded output as the server's.
pub fn mark_server_line(text: &str) -> (line: String)
    ensures
        line@ == server_line(text@),
{
    let mut line = String::from_str("[server] ");
    line.append(text);
    line
}

/// Appends an optional number, as the log shows it, to `out`.
fn push_option(out: &mut String, value: Option<i32>)
    ensures
        final(out)@ == old(out)@ + option_text(value),
{
    match value {
        Some(number) => {
            out.append("Some(");
            push_decimal(out, number);
            out.append(")");
            assert(out@ =~= old(out)@ + option_text(value));
        },
        None => {
            out.append("None");
        },
    }
}

/// The log line that reports how the process ended.
pub fn exit_report(payload: &TerminatedPayload) -> (line: String)
    ensures
        line@ == exit_line(*payload),
{
    let mut line = String::from_str("[server] ");
    line.append("process exited with ");
    line.append("TerminatedPayload { code: ");
    push_option(&mut line, payload.code);
    line.append(", signal: ");
    push_option(&mut line, payload.signal);
    line.append(" }");
    assert(line@ =~= exit_line(*payload));
    line
}

/// Decides what the pump does on one event: which line goes to the log,
/// and whether the pump goes on.
pub fn pump_step(event: &OutputEvent) -> (step: PumpStep)
    ensures
        step@ == step_of(event@),
{
    match event {
        OutputEvent::Stdout(bytes) => {
            let text = decode_lossy(bytes);
            PumpStep { line: Some(mark_server_line(text.as_str())), stop: false }
        },
        OutputEvent::Stderr(bytes) => {
            let text = decode_lossy(bytes);
            PumpStep { line: Some(mark_server_line(text.as_str())), stop: false }
        },
        OutputEvent::Terminated(payload) => PumpStep {
            line: Some(exit_report(payload)),
            stop: true,
        },
        OutputEvent::Error(_) => PumpStep { line: None, stop: false },
        OutputEvent::Other => PumpStep { line: None, stop: false },
    }
}

/// Where no event among the first `k` ends the pump, the pump consumes all
/// of them and, if there are more, the next one too.
pub proof fn lemma_consumed_prefix(events: Seq<OutputEventView>, k: int)
    requires
        0 <= k <= events.len(),
        forall|j: int| 0 <= j < k ==> !ends_pump(#[trigger] events[j]),
        k < events.len() ==> ends_pump(events[k]),
    ensures
        consumed(events) == (if k < events.len() {
            k + 1
        } else {
            k
        }),
    decreases k,
{
    if k > 0 {
        let rest = events.drop_first();
        assert forall|j: int| 0 <= j < k - 1 implies !ends_pump(#[trigger] rest[j]) by {
            assert(rest[j] == events[j + 1]);
        }
        lemma_consumed_prefix(rest, k - 1);
    }
}

/// Runs the pump over a stream of events and returns what it writes to the
/// log, line by line: the line of each event in arrival order, up to and
/// including the report that the process ended; nothing of what follows.
pub fn pump_output(events: &Vec<OutputEvent>) -> (log: Vec<String>)
    ensures
        lines_text(log@) == pumped(stream_view(events@)),
{
    let ghost stream = stream_view(events@);
    let mut log: Vec<String> = Vec::new();
    let mut i: usize = 0;
    while i < events.len()
        invariant
            i <= events.len(),
            stream == stream_view(events@),
            forall|j: int| 0 <= j < i ==> !ends_pump(#[trigger] stream[j]),
            lines_text(log@) == forwarded(stream.take(i as int)),
        decreases events.len() - i,
    {
        let step = pump_step(&events[i]);
        proof {
            assert(stream.take(i + 1).drop_last() =~= stream.take(i as int));
            assert(stream.take(i + 1).last() == events@[i as int]@);
        }
        let ghost before = log@;
        match step.line {
            Some(line) => {
                log.push(line);
                assert(lines_text(log@) =~= lines_text(before).push(line@));
            },
            None => {},
        }
        if step.stop {
            proof {
                lemma_consumed_prefix(stream, i as int);
            }
            return log;
        }
        i = i + 1;
    }
    proof {
        lemma_consumed_prefix(stream, i as int);
        assert(stream.take(i as int) =~= stream);
    }
    log
}

/// Everything delivered before the end of the process is in the log, in
/// order, followed by the report of the end; what the stream delivers after
/// that adds nothing to the log.
pub proof fn lemma_pump_stops_at_exit(events: Seq<OutputEventView>, k: int)
    requires
        0 <= k < events.len(),
        ends_pump(events[k]),
        forall|j: int| 0 <= j < k ==> !ends_pump(#[trigger] events[j]),
    ensures
        pumped(events) == forwarded(events.take(k)).push(exit_line(events[k]->Terminated_0)),
        pumped(events) == pumped(events.take(k + 1)),
{
    lemma_consumed_prefix(events, k);
    let head = events.take(k + 1);
    assert(head.drop_last() =~= events.take(k));
    assert(head.last() == events[k]);
    assert forall|j: int| 0 <= j < k implies !ends_pump(#[trigger] head[j]) by {
        assert(head[j] == events[j]);
    }
    lemma_consumed_prefix(head, k);
    assert(head.take(k + 1) =~= head);
}

/// A stream in which the process never ends is forwarded whole.
pub proof fn lemma_pump_forwards_all(events: Seq<OutputEventView>)
    requires
        forall|j: int| 0 <= j < events.len() ==> !ends_pump(#[trigger] events[j]),
    ensures
        pumped(events) == forwarded(events),
{
    lemma_consumed_prefix(events, events.len() as int);
    assert(events.take(events.len() as int) =~= events);
}

} // verus!
