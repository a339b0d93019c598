//! The decisions of the bridge loop.
//!
//! The loop waits on three sources: the input log's records, the chunks read
//! from the terminal, and the acknowledgments of the output log's appends.
//! Each thing that happens is an [`Event`]; [`Bridge::step`] answers it with
//! the one [`Action`] to perform. The caller performs it and reports a
//! failure back as an event of its own.

use vstd::prelude::*;
use crate::command::{decode, decode_spec, Command, CommandView, DecodeError, Record, RecordView};
use crate::output::{crash_notice, crash_text, out_record_spec, output_record, OutputRecord, OutputRecordView};

verus! {

/// Why the loop ended.
#[derive(PartialEq, Eq, Structural, Clone, Copy, Debug)]
pub enum StopReason {
    /// The terminal, the input log and the acknowledgments all ran out.
    Clean,
    /// Writing a keystroke to the terminal failed.
    WriteFailure,
    /// Resizing the terminal failed.
    ResizeFailure,
    /// A record of the input log is not a command.
    Decode(DecodeError),
    /// Reading the input log failed.
    CommandStreamFailure,
    /// A record could not be handed to the output log's append session.
    SubmitFailure,
    /// The output log's append session reported an error.
    AckFailure,
}

/// Something that happened to one of the loop's sources, or to an action.
#[derive(Clone, Debug)]
pub enum Event {
    /// One record of a batch read from the input log, in arrival order.
    Command(Record),
    /// The input log has no more records.
    CommandsEnded,
    /// Reading the input log failed.
    CommandsFailed,
    /// Bytes read from the terminal, and when they were read.
    Output { chunk: Vec<u8>, timestamp: u64 },
    /// The terminal will produce no more output.
    OutputClosed,
    /// An append to the output log was acknowledged.
    Acked,
    /// The output log's append session failed.
    AckFailed,
    /// No more acknowledgments will come.
    AcksEnded,
    /// The last `Write` action failed.
    WriteFailed,
    /// The last `Resize` action failed.
    ResizeFailed,
    /// The last `Append` action could not be submitted.
    SubmitFailed,
}

pub ghost enum EventView {
    Command(RecordView),
    CommandsEnded,
    CommandsFailed,
    Output { chunk: Seq<u8>, timestamp: u64 },
    OutputClosed,
    Acked,
    AckFailed,
    AcksEnded,
    WriteFailed,
    ResizeFailed,
    SubmitFailed,
}

impl View for Event {
    type V = EventView;

    open spec fn view(&self) -> EventView {
        match self {
            Event::Command(r) => EventView::Command(r@),
            Event::CommandsEnded => EventView::CommandsEnded,
            Event::CommandsFailed => EventView::CommandsFailed,
            Event::Output { chunk, timestamp } => EventView::Output {
                chunk: chunk@,
                timestamp: *timestamp,
            },
            Event::OutputClosed => EventView::OutputClosed,
            Event::Acked => EventView::Acked,
            Event::AckFailed => EventView::AckFailed,
            Event::AcksEnded => EventView::AcksEnded,
            Event::WriteFailed => EventView::WriteFailed,
            Event::ResizeFailed => EventView::ResizeFailed,
            Event::SubmitFailed => EventView::SubmitFailed,
        }
    }
}

/// What the loop does next.
#[derive(Clone, Debug)]
pub enum Action {
    /// Nothing to do: wait for the next event.
    Idle,
    /// Write these bytes to the terminal in one write, then flush.
    Write(Vec<u8>),
    /// Resize the terminal.
    Resize { rows: u16, cols: u16 },
    /// Submit this record to the output log's append session.
    Append(OutputRecord),
    /// Leave the loop.
    Stop(StopReason),
}

pub ghost enum ActionView {
    Idle,
    Write(Seq<u8>),
    Resize { rows: u16, cols: u16 },
    Append(OutputRecordView),
    Stop(StopReason),
}

impl View for Action {
    type V = ActionView;

    open spec fn view(&self) -> ActionView {
        match self {
            Action::Idle => ActionView::Idle,
            Action::Write(b) => ActionView::Write(b@),
            Action::Resize { rows, cols } => ActionView::Resize { rows: *rows, cols: *cols },
            Action::Append(r) => ActionView::Append(r@),
            Action::Stop(s) => ActionView::Stop(*s),
        }
    }
}

/// The state of the loop: which sources may still deliver, and whether it
/// has stopped.
#[derive(PartialEq, Eq, Structural, Clone, Copy, Debug)]
pub struct Bridge {
    pub commands_open: bool,
    pub output_open: bool,
    pub acks_open: bool,
    pub stopped: Option<StopReason>,
}

/// The state after `s` stops for `reason`, and the action that says so.
pub open spec fn stop_spec(s: Bridge, reason: StopReason) -> (Bridge, ActionView) {
    (Bridge { stopped: Some(reason), ..s }, ActionView::Stop(reason))
}

/// After a source closed: a clean stop once all three are closed.
pub open spec fn closed_spec(s: Bridge) -> (Bridge, ActionView) {
    if !s.commands_open && !s.output_open && !s.acks_open {
        stop_spec(s, StopReason::Clean)
    } else {
        (s, ActionView::Idle)
    }
}

/// How the loop in state `s` answers event `e`: its next state and action.
pub open spec fn step_spec(s: Bridge, e: EventView) -> (Bridge, ActionView) {
    if s.stopped.is_some() {
        (s, ActionView::Idle)
    } else {
        match e {
            EventView::Command(r) => match decode_spec(r) {
                Ok(CommandView::Keystroke(b)) => (s, ActionView::Write(b)),
                Ok(CommandView::WindowResize { rows, cols }) => (
                    s,
                    ActionView::Resize { rows, cols },
                ),
                Err(d) => stop_spec(s, StopReason::Decode(d)),
            },
            EventView::CommandsEnded => closed_spec(Bridge { commands_open: false, ..s }),
            EventView::CommandsFailed => stop_spec(s, StopReason::CommandStreamFailure),
            EventView::Output { chunk, timestamp } => (
                s,
                ActionView::Append(out_record_spec(chunk, timestamp)),
            ),
            EventView::OutputClosed => closed_spec(Bridge { output_open: false, ..s }),
            EventView::Acked => (s, ActionView::Idle),
            EventView::AckFailed => stop_spec(s, StopReason::AckFailure),
            EventView::AcksEnded => closed_spec(Bridge { acks_open: false, ..s }),
            EventView::WriteFailed => stop_spec(s, StopReason::WriteFailure),
            EventView::ResizeFailed => stop_spec(s, StopReason::ResizeFailure),
            EventView::SubmitFailed => stop_spec(s, StopReason::SubmitFailure),
        }
    }
}

/// The actions with which the loop, from state `s`, answers `events` in turn.
pub open spec fn run_spec(s: Bridge, events: Seq<EventView>) -> Seq<ActionView>
    decreases events.len(),
{
    if events.len() == 0 {
        seq![]
    } else {
        let (t, a) = step_spec(s, events[0]);
        seq![a] + run_spec(t, events.drop_first())
    }
}

impl Bridge {
    /// A loop that has just started: every source open.
    pub fn new() -> (r: Bridge)
        ensures
            r.commands_open && r.output_open && r.acks_open,
            r.stopped.is_none(),
    {
        Bridge { commands_open: true, output_open: true, acks_open: true, stopped: None }
    }

    fn stop(&mut self, reason: StopReason) -> (r: Action)
        ensures
            (*final(self), r@) == stop_spec(*old(self), reason),
    {
        self.stopped = Some(reason);
        Action::Stop(reason)
    }

    fn after_close(&mut self) -> (r: Action)
        ensures
            (*final(self), r@) == closed_spec(*old(self)),
    {
        if !self.commands_open && !self.output_open && !self.acks_open {
            self.stop(StopReason::Clean)
        } else {
            Action::Idle
        }
    }

    /// Answers one event. Once the loop has stopped, every event is answered
    /// with `Idle`.
    pub fn step(&mut self, event: Event) -> (r: Action)
        ensures
            (*final(self), r@) == step_spec(*old(self), event@),
    {
        if self.stopped.is_some() {
            return Action::Idle;
        }
        match event {
            Event::Command(record) => match decode(&record) {
                Ok(Command::Keystroke(b)) => Action::Write(b),
                Ok(Command::WindowResize { rows, cols }) => Action::Resize { rows, cols },
                Err(d) => self.stop(StopReason::Decode(d)),
            },
            Event::CommandsEnded => {
                self.commands_open = false;
                self.after_close()
            },
            Event::CommandsFailed => self.stop(StopReason::CommandStreamFailure),
            Event::Output { chunk, timestamp } => Action::Append(output_record(chunk, timestamp)),
            Event::OutputClosed => {
                self.output_open = false;
                self.after_close()
            },
            Event::Acked => Action::Idle,
            Event::AckFailed => self.stop(StopReason::AckFailure),
            Event::AcksEnded => {
                self.acks_open = false;
                self.after_close()
            },
            Event::WriteFailed => self.stop(StopReason::WriteFailure),
            Event::ResizeFailed => self.stop(StopReason::ResizeFailure),
            Event::SubmitFailed => self.stop(StopReason::SubmitFailure),
        }
    }

    /// Whether the process ends in success: after a clean shutdown, or after
    /// a failed terminal write (the child has gone, and the crash notice
    /// reports it); every other stop is an error.
    pub fn exits_ok(&self) -> (r: bool)
        ensures
            r == (self.stopped is None || self.stopped == Some(StopReason::Clean) || self.stopped
                == Some(StopReason::WriteFailure)),
    {
        match self.stopped {
            None => true,
            Some(StopReason::Clean) => true,
            Some(StopReason::WriteFailure) => true,
            Some(_) => false,
        }
    }

    /// The record to append on the way out: the crash notice where writing
    /// to the terminal failed, nothing on any other path.
    pub fn exit_notice(&self, timestamp: u64) -> (r: Option<OutputRecord>)
        ensures
            r.is_some() <==> self.stopped == Some(StopReason::WriteFailure),
            r.is_some() ==> r.unwrap()@ == out_record_spec(crash_text(), timestamp),
    {
        match self.stopped {
            Some(StopReason::WriteFailure) => Some(crash_notice(timestamp)),
            _ => None,
        }
    }
}

} // verus!
