//! The course of one conversion, as a machine that a driver runs.
//!
//! The driver owns the transcoder process and the event sink. It performs
//! the action that the machine answers with, and hands back what came of it
//! as the next event, until the machine answers with an outcome.

use crate::job::JobState;
use crate::outcome::{
    cancelled_outcome, exit_outcome, lemma_failure_shows_stderr, lossy_text, spawn_error_outcome,
    stream_error_outcome, wait_error_outcome, ConversionOutcome, OutcomeView,
};
use crate::progress::{time_field, time_field_of, time_token};
use crate::settings::{build_args, ConversionSettings};
use crate::text::occurs;
use vstd::prelude::*;

verus! {

/// Where a conversion stands.
#[derive(Debug, Clone, Copy, PartialEq, Eq, Structural)]
pub enum Phase {
    /// The transcoder is being launched.
    Launching,
    /// The next line of the progress stream is awaited.
    Reading,
    /// A line was read; the job flag is to be looked at.
    Reporting,
    /// The progress stream has closed; the transcoder's exit is awaited.
    Waiting,
    /// The conversion has ended.
    Finished,
}

/// What the driver reports to the machine.
#[derive(Debug, Clone, PartialEq, Eq)]
pub enum Event {
    /// The transcoder runs, and its standard output is open for reading.
    Started,
    /// The transcoder could not be launched, for the reason given.
    SpawnFailed(String),
    /// The transcoder runs, but its standard output could not be obtained.
    StreamUnavailable,
    /// A line of the progress stream, without its line end.
    Line(String),
    /// A line of the progress stream could not be read.
    LineUnreadable,
    /// The progress stream has closed.
    EndOfStream,
    /// The job flag as it was read after the last line: whether the
    /// conversion is still wanted.
    JobChecked(bool),
    /// The transcoder exited: whether its status was a success, and the
    /// bytes that it wrote to standard error.
    Exited { success: bool, stderr: Vec<u8> },
    /// The transcoder's exit could not be awaited, for the reason given.
    WaitFailed(String),
}

/// The mathematical value of an [`Event`].
pub ghost enum EventView {
    Started,
    SpawnFailed(Seq<char>),
    StreamUnavailable,
    Line(Seq<char>),
    LineUnreadable,
    EndOfStream,
    JobChecked(bool),
    Exited { success: bool, stderr: Seq<u8> },
    WaitFailed(Seq<char>),
}

impl View for Event {
    type V = EventView;

    open spec fn view(&self) -> EventView {
        match self {
            Event::Started => EventView::Started,
            Event::SpawnFailed(reason) => EventView::SpawnFailed(reason@),
            Event::StreamUnavailable => EventView::StreamUnavailable,
            Event::Line(line) => EventView::Line(line@),
            Event::LineUnreadable => EventView::LineUnreadable,
            Event::EndOfStream => EventView::EndOfStream,
            Event::JobChecked(active) => EventView::JobChecked(*active),
            Event::Exited { success, stderr } => EventView::Exited {
                success: *success,
                stderr: stderr@,
            },
            Event::WaitFailed(reason) => EventView::WaitFailed(reason@),
        }
    }
}

/// What the machine asks of the driver.
#[derive(Debug, Clone, PartialEq, Eq)]
pub enum Action {
    /// Launch the program with the arguments, with standard output and
    /// standard error captured; report `Started`, `SpawnFailed` or
    /// `StreamUnavailable`.
    Spawn { program: String, args: Vec<String> },
    /// Read the next line of the progress stream; report `Line`,
    /// `LineUnreadable` or `EndOfStream`.
    ReadLine,
    /// If there is a field and it reads as a number of microseconds, publish
    /// a progress update for it. Then read the job flag and report
    /// `JobChecked`.
    Report { field: Option<String> },
    /// Await the transcoder's exit; report `Exited` or `WaitFailed`.
    Wait,
    /// Kill the transcoder, ignoring any error, and end with the outcome.
    Abort(ConversionOutcome),
    /// End with the outcome.
    Finish(ConversionOutcome),
    /// Nothing: the event has no place where the conversion stands.
    Halt,
}

/// The mathematical value of an [`Action`].
pub ghost enum ActionView {
    Spawn { program: Seq<char>, args: Seq<Seq<char>> },
    ReadLine,
    Report { field: Option<Seq<char>> },
    Wait,
    Abort(OutcomeView),
    Finish(OutcomeView),
    Halt,
}

impl View for Action {
    type V = ActionView;

    open spec fn view(&self) -> ActionView {
        match self {
            Action::Spawn { program, args } => ActionView::Spawn {
                program: program@,
                args: args.deep_view(),
            },
            Action::ReadLine => ActionView::ReadLine,
            Action::Report { field } => ActionView::Report { field: field.deep_view() },
            Action::Wait => ActionView::Wait,
            Action::Abort(outcome) => ActionView::Abort(outcome@),
            Action::Finish(outcome) => ActionView::Finish(outcome@),
            Action::Halt => ActionView::Halt,
        }
    }
}

/// The name of the transcoder's program.
pub open spec fn transcoder_program() -> Seq<char> {
    "ffmpeg"@
}

/// The phase that follows `phase` on `event`, and the action asked for.
///
/// An event that has no place in the phase changes nothing and is answered
/// with `Halt`; so is every event once the conversion has ended.
pub open spec fn next(phase: Phase, event: EventView) -> (Phase, ActionView) {
    match (phase, event) {
        (Phase::Launching, EventView::Started) => (Phase::Reading, ActionView::ReadLine),
        (Phase::Launching, EventView::SpawnFailed(reason)) => (
            Phase::Finished,
            ActionView::Finish(spawn_error_outcome(reason)),
        ),
        (Phase::Launching, EventView::StreamUnavailable) => (
            Phase::Finished,
            ActionView::Finish(stream_error_outcome()),
        ),
        (Phase::Reading, EventView::Line(line)) => (
            Phase::Reporting,
            ActionView::Report { field: time_field_of(line) },
        ),
        (Phase::Reading, EventView::LineUnreadable) => (
            Phase::Reporting,
            ActionView::Report { field: None },
        ),
        (Phase::Reading, EventView::EndOfStream) => (Phase::Waiting, ActionView::Wait),
        (Phase::Reporting, EventView::JobChecked(active)) => if active {
            (Phase::Reading, ActionView::ReadLine)
        } else {
            (Phase::Finished, ActionView::Abort(cancelled_outcome()))
        },
        (Phase::Waiting, EventView::Exited { success, stderr }) => (
            Phase::Finished,
            ActionView::Finish(exit_outcome(success, lossy_text(stderr))),
        ),
        (Phase::Waiting, EventView::WaitFailed(reason)) => (
            Phase::Finished,
            ActionView::Finish(wait_error_outcome(reason)),
        ),
        _ => (phase, ActionView::Halt),
    }
}

/// One conversion under way.
#[derive(Debug)]
pub struct Conversion {
    phase: Phase,
}

impl Conversion {
    /// Where the conversion stands.
    pub closed spec fn phase(&self) -> Phase {
        self.phase
    }

    /// Starts a conversion: marks the job as active and asks for the
    /// transcoder to be launched with the arguments built from the settings.
    ///
    /// The flag is set whatever it held before: a job that is already
    /// running is neither waited for nor refused.
    pub fn begin(settings: &ConversionSettings, job: &mut JobState) -> (started: (
        Conversion,
        Action,
    ))
        ensures
            final(job).conversion_active,
            started.0.phase() == Phase::Launching,
            started.1@ == (ActionView::Spawn {
                program: transcoder_program(),
                args: settings@.args(),
            }),
    {
        job.activate();
        let args = build_args(settings);
        (
            Conversion { phase: Phase::Launching },
            Action::Spawn { program: "ffmpeg".to_string(), args },
        )
    }

    /// Tells where the conversion stands.
    pub fn current_phase(&self) -> (phase: Phase)
        ensures
            phase == self.phase(),
    {
        self.phase
    }

    /// Takes what the driver reports and answers with what it is to do next.
    pub fn step(&mut self, event: Event) -> (action: Action)
        ensures
            (final(self).phase(), action@) == next(old(self).phase(), event@),
    {
        match (self.phase, event) {
            (Phase::Launching, Event::Started) => {
                self.phase = Phase::Reading;
                Action::ReadLine
            },
            (Phase::Launching, Event::SpawnFailed(reason)) => {
                self.phase = Phase::Finished;
                Action::Finish(ConversionOutcome::spawn_failed(reason.as_str()))
            },
            (Phase::Launching, Event::StreamUnavailable) => {
                self.phase = Phase::Finished;
                Action::Finish(ConversionOutcome::stream_unavailable())
            },
            (Phase::Reading, Event::Line(line)) => {
                self.phase = Phase::Reporting;
                Action::Report { field: time_field(line.as_str()) }
            },
            (Phase::Reading, Event::LineUnreadable) => {
                self.phase = Phase::Reporting;
                Action::Report { field: None }
            },
            (Phase::Reading, Event::EndOfStream) => {
                self.phase = Phase::Waiting;
                Action::Wait
            },
            (Phase::Reporting, Event::JobChecked(active)) => {
                if active {
                    self.phase = Phase::Reading;
                    Action::ReadLine
                } else {
                    self.phase = Phase::Finished;
                    Action::Abort(ConversionOutcome::cancelled())
                }
            },
            (Phase::Waiting, Event::Exited { success, stderr }) => {
                self.phase = Phase::Finished;
                Action::Finish(ConversionOutcome::from_exit_bytes(success, stderr.as_slice()))
            },
            (Phase::Waiting, Event::WaitFailed(reason)) => {
                self.phase = Phase::Finished;
                Action::Finish(ConversionOutcome::wait_failed(reason.as_str()))
            },
            _ => Action::Halt,
        }
    }
}

/// The phase reached from `phase` once the events have been taken in turn.
pub open spec fn phase_after(phase: Phase, events: Seq<EventView>) -> Phase
    decreases events.len(),
{
    if events.len() == 0 {
        phase
    } else {
        next(phase_after(phase, events.drop_last()), events.last()).0
    }
}

/// The action that answers the event at index `i`, when the events are taken
/// in turn from `phase`.
pub open spec fn action_at(phase: Phase, events: Seq<EventView>, i: int) -> ActionView {
    next(phase_after(phase, events.take(i)), events[i]).1
}

/// A line without the token is answered with a report that has no field:
/// no progress update is published for it.
pub proof fn lemma_line_without_token_reports_nothing(line: Seq<char>)
    requires
        !occurs(line, time_token()),
    ensures
        next(Phase::Reading, EventView::Line(line)) == (
            Phase::Reporting,
            ActionView::Report { field: None },
        ),
{
}

/// A line with the token is answered with a report that has a field.
pub proof fn lemma_line_with_token_reports_field(line: Seq<char>)
    requires
        occurs(line, time_token()),
    ensures
        next(Phase::Reading, EventView::Line(line)).1 == (ActionView::Report {
            field: time_field_of(line),
        }),
        time_field_of(line) is Some,
{
}

/// The transcoder is killed on a cancelled job and on nothing else: the
/// answer is `Abort` exactly when the flag, read after a line, says that the
/// conversion is no longer wanted; the outcome is then the cancellation.
pub proof fn lemma_abort_only_on_cancel(phase: Phase, event: EventView)
    ensures
        next(phase, event).1 is Abort <==> phase == Phase::Reporting && event
            == EventView::JobChecked(false),
        next(phase, event).1 is Abort ==> next(phase, event) == (
            Phase::Finished,
            ActionView::Abort(cancelled_outcome()),
        ),
{
}

/// An outcome is given exactly when the conversion ends, and a line is asked
/// for only while the conversion is reading.
pub proof fn lemma_outcome_ends_conversion(phase: Phase, event: EventView)
    ensures
        (next(phase, event).1 is Finish || next(phase, event).1 is Abort) <==> (phase
            != Phase::Finished && next(phase, event).0 == Phase::Finished),
        next(phase, event).1 is ReadLine ==> next(phase, event).0 == Phase::Reading,
        phase == Phase::Finished ==> next(phase, event) == (Phase::Finished, ActionView::Halt),
{
}

/// An exit without success ends the conversion with a failure whose message
/// ends with the text of standard error.
pub proof fn lemma_failed_exit_shows_stderr(stderr: Seq<u8>)
    ensures
        next(Phase::Waiting, EventView::Exited { success: false, stderr }) == (
            Phase::Finished,
            ActionView::Finish(exit_outcome(false, lossy_text(stderr))),
        ),
        exit_outcome(false, lossy_text(stderr)) is Failure,
        lossy_text(stderr).is_suffix_of(exit_outcome(false, lossy_text(stderr)).message()),
{
    lemma_failure_shows_stderr(lossy_text(stderr));
}

/// Once the conversion has ended it stays ended, and every later event is
/// answered with `Halt`.
pub proof fn lemma_nothing_after_the_end(phase: Phase, events: Seq<EventView>, end: int, later: int)
    requires
        0 <= end <= later < events.len(),
        phase_after(phase, events.take(end)) == Phase::Finished,
    ensures
        phase_after(phase, events.take(later)) == Phase::Finished,
        action_at(phase, events, later) == ActionView::Halt,
    decreases later - end,
{
    if end < later {
        lemma_nothing_after_the_end(phase, events, end, later - 1);
        let upto = events.take(later);
        assert(upto.drop_last() =~= events.take(later - 1));
        assert(upto.last() == events[later - 1]);
    }
}

/// A cancellation that is seen after a line ends the reading: the answer is
/// to kill the transcoder and end with the cancellation, and no later event
/// is answered with a request for another line, nor with anything but `Halt`.
pub proof fn lemma_cancel_stops_reading(phase: Phase, events: Seq<EventView>, seen: int, later: int)
    requires
        0 <= seen < later < events.len(),
        phase_after(phase, events.take(seen)) == Phase::Reporting,
        events[seen] == EventView::JobChecked(false),
    ensures
        action_at(phase, events, seen) == ActionView::Abort(cancelled_outcome()),
        action_at(phase, events, later) == ActionView::Halt,
{
    let upto = events.take(seen + 1);
    assert(upto.drop_last() =~= events.take(seen));
    assert(upto.last() == events[seen]);
    lemma_nothing_after_the_end(phase, events, seen + 1, later);
}

} // verus!
