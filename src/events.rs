use vstd::prelude::*;
use vstd::string::*;

use crate::errors::{ZammError, ZammResult};

verus! {

/// One discrete event of a running worker's stream.
pub enum CommandEvent {
    /// A line the worker wrote to standard output.
    Stdout(String),
    /// A line the worker wrote to standard error.
    Stderr(String),
    /// An explicit error signalled by the worker.
    Error(String),
    /// The worker terminated.
    Terminated,
    /// An event of no recognised kind.
    Unrecognized,
}

/// The terminal state that a stream of events drains to.
pub enum DrainOutcome {
    /// The accumulated text, handed to the caller.
    Output(Seq<char>),
    /// The line of an explicit error signal.
    CommandErr(Seq<char>),
    /// An event of no recognised kind was seen.
    Unexpected,
}

/// Whether `e` is a line of output or of error output.
pub open spec fn is_line(e: CommandEvent) -> bool {
    e is Stdout || e is Stderr
}

/// The text that a line event contributes, before its newline.
pub open spec fn line_text(e: CommandEvent) -> Seq<char> {
    match e {
        CommandEvent::Stdout(l) => l@,
        CommandEvent::Stderr(l) => l@,
        _ => Seq::empty(),
    }
}

/// Each line of `events`, followed by a newline, in arrival order.
pub open spec fn lines_text(events: Seq<CommandEvent>) -> Seq<char>
    decreases events.len(),
{
    if events.len() == 0 {
        Seq::empty()
    } else {
        line_text(events[0]) + seq!['\n'] + lines_text(events.drop_first())
    }
}

/// The outcome of draining `events` with `acc` already accumulated. A stream
/// that closes without a terminal event yields what was accumulated.
pub open spec fn drain_from(acc: Seq<char>, events: Seq<CommandEvent>) -> DrainOutcome
    decreases events.len(),
{
    if events.len() == 0 {
        DrainOutcome::Output(acc)
    } else {
        match events[0] {
            CommandEvent::Stdout(l) => drain_from(acc + l@ + seq!['\n'], events.drop_first()),
            CommandEvent::Stderr(l) => drain_from(acc + l@ + seq!['\n'], events.drop_first()),
            CommandEvent::Error(l) => DrainOutcome::CommandErr(l@),
            CommandEvent::Terminated => DrainOutcome::Output(acc),
            CommandEvent::Unrecognized => DrainOutcome::Unexpected,
        }
    }
}

/// Whether the result `r` handed to a caller is the outcome `o`.
pub open spec fn outcome_matches(r: ZammResult<String>, o: DrainOutcome) -> bool {
    match o {
        DrainOutcome::Output(t) => r matches Ok(s) && s@ == t,
        DrainOutcome::CommandErr(l) => r matches Err(ZammError::SidecarCommandErr { line }) && line@ == l,
        DrainOutcome::Unexpected => r is Err && r->Err_0 is SidecarUnexpectedCommandEvent,
    }
}

/// The running state of a drain: the text accumulated so far.
pub struct EventDrain {
    output: String,
}

/// What a drain does with one event: keep running, or stop with a result.
pub enum DrainStep {
    Continue(EventDrain),
    Done(ZammResult<String>),
}

impl View for EventDrain {
    type V = Seq<char>;

    closed spec fn view(&self) -> Seq<char> {
        self.output@
    }
}

/// The transition of a drain in state `acc` on `event`.
pub open spec fn step_spec(acc: Seq<char>, event: CommandEvent, r: DrainStep) -> bool {
    match event {
        CommandEvent::Stdout(l) => r matches DrainStep::Continue(d) && d@ == acc + l@ + seq!['\n'],
        CommandEvent::Stderr(l) => r matches DrainStep::Continue(d) && d@ == acc + l@ + seq!['\n'],
        CommandEvent::Error(l) => r matches DrainStep::Done(res) && outcome_matches(res, DrainOutcome::CommandErr(l@)),
        CommandEvent::Terminated => r matches DrainStep::Done(res) && outcome_matches(res, DrainOutcome::Output(acc)),
        CommandEvent::Unrecognized => r matches DrainStep::Done(res) && outcome_matches(res, DrainOutcome::Unexpected),
    }
}

impl EventDrain {
    /// A drain that has seen nothing yet.
    pub fn new() -> (r: EventDrain)
        ensures
            r@ == Seq::<char>::empty(),
    {
        EventDrain { output: String::new() }
    }

    /// Takes one event, in arrival order. Lines are appended with a newline;
    /// an error signal wins over anything accumulated; termination hands the
    /// text over; any other event is a protocol violation.
    pub fn handle(self, event: CommandEvent) -> (r: DrainStep)
        ensures
            step_spec(self@, event, r),
    {
        let ghost acc = self@;
        let mut output = self.output;
        match event {
            CommandEvent::Stdout(line) => {
                output.append(line.as_str());
                output.append("\n");
                proof {
                    reveal_strlit("\n");
                    assert("\n"@ =~= seq!['\n']);
                    assert(output@ =~= acc + line@ + seq!['\n']);
                }
                DrainStep::Continue(EventDrain { output })
            },
            CommandEvent::Stderr(line) => {
                output.append(line.as_str());
                output.append("\n");
                proof {
                    reveal_strlit("\n");
                    assert("\n"@ =~= seq!['\n']);
                    assert(output@ =~= acc + line@ + seq!['\n']);
                }
                DrainStep::Continue(EventDrain { output })
            },
            CommandEvent::Error(line) => DrainStep::Done(Err(ZammError::SidecarCommandErr { line })),
            CommandEvent::Terminated => DrainStep::Done(Ok(output)),
            CommandEvent::Unrecognized => DrainStep::Done(Err(ZammError::SidecarUnexpectedCommandEvent)),
        }
    }

    /// The stream closed without a terminal event: what was accumulated.
    pub fn finish(self) -> (r: ZammResult<String>)
        ensures
            outcome_matches(r, DrainOutcome::Output(self@)),
    {
        Ok(self.output)
    }
}

fn copy_event(e: &CommandEvent) -> (r: CommandEvent)
    ensures
        r == *e,
{
    match e {
        CommandEvent::Stdout(l) => CommandEvent::Stdout(l.clone()),
        CommandEvent::Stderr(l) => CommandEvent::Stderr(l.clone()),
        CommandEvent::Error(l) => CommandEvent::Error(l.clone()),
        CommandEvent::Terminated => CommandEvent::Terminated,
        CommandEvent::Unrecognized => CommandEvent::Unrecognized,
    }
}

/// Drains a whole stream of events into the single result of one invocation.
pub fn drain_events(events: &Vec<CommandEvent>) -> (r: ZammResult<String>)
    ensures
        outcome_matches(r, drain_from(Seq::empty(), events@)),
{
    let mut drain = EventDrain::new();
    let mut i: usize = 0;
    proof {
        assert(events@.skip(0) =~= events@);
    }
    while i < events.len()
        invariant
            0 <= i <= events@.len(),
            drain_from(Seq::empty(), events@) == drain_from(drain@, events@.skip(i as int)),
        decreases events@.len() - i,
    {
        let event = copy_event(&events[i]);
        proof {
            assert(events@.skip(i as int)[0] == events@[i as int]);
            assert(events@.skip(i as int).drop_first() =~= events@.skip(i + 1));
        }
        match drain.handle(event) {
            DrainStep::Continue(d) => {
                drain = d;
            },
            DrainStep::Done(r) => {
                return r;
            },
        }
        i += 1;
    }
    proof {
        assert(events@.skip(i as int) =~= Seq::<CommandEvent>::empty());
    }
    drain.finish()
}

/// Lines of output or error output before any other event only accumulate:
/// the stream then drains as the rest would with their text appended.
pub proof fn lemma_lines_accumulate(acc: Seq<char>, lines: Seq<CommandEvent>, rest: Seq<CommandEvent>)
    requires
        forall|i: int| 0 <= i < lines.len() ==> is_line(#[trigger] lines[i]),
    ensures
        drain_from(acc, lines + rest) == drain_from(acc + lines_text(lines), rest),
    decreases lines.len(),
{
    if lines.len() == 0 {
        assert(lines + rest =~= rest);
        assert(acc + lines_text(lines) =~= acc);
    } else {
        let e = lines[0];
        assert(is_line(e));
        assert((lines + rest)[0] == e);
        assert((lines + rest).drop_first() =~= lines.drop_first() + rest);
        let next = acc + line_text(e) + seq!['\n'];
        assert forall|i: int| 0 <= i < lines.drop_first().len() implies is_line(#[trigger] lines.drop_first()[i]) by {
            assert(lines.drop_first()[i] == lines[i + 1]);
        }
        lemma_lines_accumulate(next, lines.drop_first(), rest);
        assert(next + lines_text(lines.drop_first()) =~= acc + lines_text(lines));
    }
}

/// An explicit error signal takes precedence over every line before it and
/// over whatever follows it: the drain fails with the signalled line.
pub proof fn lemma_error_signal_precedence(lines: Seq<CommandEvent>, line: String, rest: Seq<CommandEvent>)
    requires
        forall|i: int| 0 <= i < lines.len() ==> is_line(#[trigger] lines[i]),
    ensures
        drain_from(Seq::empty(), lines + seq![CommandEvent::Error(line)] + rest) == DrainOutcome::CommandErr(line@),
{
    let tail = seq![CommandEvent::Error(line)] + rest;
    assert(lines + seq![CommandEvent::Error(line)] + rest =~= lines + tail);
    lemma_lines_accumulate(Seq::empty(), lines, tail);
    assert(tail[0] == CommandEvent::Error(line));
}

/// On normal termination the result is every earlier line, each followed by a
/// newline, in arrival order; nothing after the termination counts.
pub proof fn lemma_normal_termination(lines: Seq<CommandEvent>, rest: Seq<CommandEvent>)
    requires
        forall|i: int| 0 <= i < lines.len() ==> is_line(#[trigger] lines[i]),
    ensures
        drain_from(Seq::empty(), lines + seq![CommandEvent::Terminated] + rest) == DrainOutcome::Output(lines_text(lines)),
{
    let tail = seq![CommandEvent::Terminated] + rest;
    assert(lines + seq![CommandEvent::Terminated] + rest =~= lines + tail);
    lemma_lines_accumulate(Seq::empty(), lines, tail);
    assert(tail[0] == CommandEvent::Terminated);
    assert(Seq::<char>::empty() + lines_text(lines) =~= lines_text(lines));
}

/// An event of no recognised kind after any lines fails the drain, whatever
/// follows it.
pub proof fn lemma_unrecognized_fails(lines: Seq<CommandEvent>, rest: Seq<CommandEvent>)
    requires
        forall|i: int| 0 <= i < lines.len() ==> is_line(#[trigger] lines[i]),
    ensures
        drain_from(Seq::empty(), lines + seq![CommandEvent::Unrecognized] + rest) == DrainOutcome::Unexpected,
{
    let tail = seq![CommandEvent::Unrecognized] + rest;
    assert(lines + seq![CommandEvent::Unrecognized] + rest =~= lines + tail);
    lemma_lines_accumulate(Seq::empty(), lines, tail);
    assert(tail[0] == CommandEvent::Unrecognized);
}

} // verus!
