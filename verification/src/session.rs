//! The measurement cycle of the sensor session.
//!
//! Taking a reading is a short conversation with the sensor: trigger a
//! measurement, ask whether it is done, read the result. The session decides
//! what to ask next and when to give up; its caller does the asking. The caller
//! hands in what happened as an [`Event`] and gets back the next [`Action`];
//! a cycle starts with [`Event::Start`] and is over when the action is
//! [`Action::Deliver`] or [`Action::Fail`].
//!
//! A session is not reentrant: it follows one cycle at a time, and an event
//! that does not belong to the step it is waiting for fails the cycle.

use vstd::prelude::*;
use vstd::string::*;
use crate::channel::Channel;
use crate::config::{SamplingConfiguration, SensorMode};
use crate::error::{ErrorKind, Failure, SensorError};
use crate::reading::Reading;

verus! {

/// Where a session stands in its measurement cycle.
#[derive(Clone, Copy, Debug, PartialEq, Eq, Structural)]
pub enum Phase {
    /// No measurement is in progress.
    Idle,
    /// The trigger is being written to the sensor.
    Triggering,
    /// The sensor is measuring; the cycle times out at the `polls_left`th
    /// status poll from now that finds it busy.
    Triggered { polls_left: u32 },
    /// The sensor holds fresh data and the sample is being read.
    Ready,
}

/// What the caller reports to the session.
#[derive(Debug, PartialEq, Eq)]
pub enum Event {
    /// A reading was asked for.
    Start,
    /// The trigger was written.
    TriggerWritten,
    /// The status poll found the sensor still measuring.
    StillMeasuring,
    /// The status poll found the measurement complete.
    DataReady,
    /// The sample was read and compensated.
    SampleRead(Reading),
    /// The bus or the driver failed; the text is its own description.
    BusFailed(String),
}

/// What the session asks its caller to do next.
#[derive(Debug, PartialEq, Eq)]
pub enum Action {
    /// Write the trigger for one forced measurement; report `TriggerWritten`.
    Trigger,
    /// Poll the sensor's status; report `StillMeasuring` or `DataReady`.
    PollStatus,
    /// Read the sample; report `SampleRead`.
    ReadSample,
    /// The cycle is over and this is its reading.
    Deliver(Reading),
    /// The cycle is over and it failed.
    Fail(SensorError),
}

/// An event as contracts see it.
pub enum EventView {
    Start,
    TriggerWritten,
    StillMeasuring,
    DataReady,
    SampleRead(Map<Channel, Seq<char>>),
    BusFailed(Seq<char>),
}

/// An action as contracts see it.
pub enum ActionView {
    Trigger,
    PollStatus,
    ReadSample,
    Deliver(Map<Channel, Seq<char>>),
    Fail(Failure),
}

impl View for Event {
    type V = EventView;

    open spec fn view(&self) -> EventView {
        match self {
            Event::Start => EventView::Start,
            Event::TriggerWritten => EventView::TriggerWritten,
            Event::StillMeasuring => EventView::StillMeasuring,
            Event::DataReady => EventView::DataReady,
            Event::SampleRead(reading) => EventView::SampleRead(reading@),
            Event::BusFailed(detail) => EventView::BusFailed(detail@),
        }
    }
}

impl View for Action {
    type V = ActionView;

    open spec fn view(&self) -> ActionView {
        match self {
            Action::Trigger => ActionView::Trigger,
            Action::PollStatus => ActionView::PollStatus,
            Action::ReadSample => ActionView::ReadSample,
            Action::Deliver(reading) => ActionView::Deliver(reading@),
            Action::Fail(error) => ActionView::Fail(error@),
        }
    }
}

impl ActionView {
    /// Whether the action ends the cycle.
    pub open spec fn is_final(self) -> bool {
        self is Deliver || self is Fail
    }

    /// How the cycle ended, if the action ends it.
    pub open spec fn outcome(self) -> Option<Result<Map<Channel, Seq<char>>, Failure>> {
        match self {
            ActionView::Deliver(values) => Some(Ok(values)),
            ActionView::Fail(failure) => Some(Err(failure)),
            _ => None,
        }
    }
}

/// An outcome as contracts see it.
pub open spec fn outcome_view(outcome: Option<Result<Reading, SensorError>>) -> Option<
    Result<Map<Channel, Seq<char>>, Failure>,
> {
    match outcome {
        Some(Ok(reading)) => Some(Ok(reading@)),
        Some(Err(error)) => Some(Err(error@)),
        None => None,
    }
}

impl Action {
    /// How the cycle ended: the reading or the failure if the action ends the
    /// cycle, nothing if it asks for more.
    pub fn outcome(self) -> (outcome: Option<Result<Reading, SensorError>>)
        ensures
            outcome_view(outcome) == self@.outcome(),
    {
        match self {
            Action::Deliver(reading) => Some(Ok(reading)),
            Action::Fail(error) => Some(Err(error)),
            _ => None,
        }
    }
}

/// The failure of a cycle whose poll budget ran out.
pub open spec fn timed_out() -> Failure {
    Failure {
        kind: ErrorKind::MeasurementTimeout,
        detail: "sensor still measuring after the last poll"@,
    }
}

/// The failure of a cycle that was handed an event it was not waiting for.
pub open spec fn out_of_sequence() -> Failure {
    Failure { kind: ErrorKind::MeasurementFailed, detail: "sensor response out of sequence"@ }
}

/// The failure of a cycle whose bus or driver failed with the given description.
pub open spec fn bus_failure(detail: Seq<char>) -> Failure {
    Failure { kind: ErrorKind::MeasurementFailed, detail }
}

/// The measurement cycle: the phase and the action that follow from a phase
/// and an event, for a session in the given mode with the given poll budget.
///
/// In forced mode a cycle runs `Idle`, `Triggering`, `Triggered`, `Ready` and
/// back to `Idle`; in continuous mode it goes from `Idle` straight to `Ready`.
/// While `Triggered`, each poll that finds the sensor busy uses up one of
/// `poll_budget` polls, and the one that uses up the last ends the cycle with
/// a timeout. A failure of the bus ends the cycle in any phase, and so does
/// an event that the phase is not waiting for.
pub open spec fn transition(
    mode: SensorMode,
    poll_budget: u32,
    phase: Phase,
    event: EventView,
) -> (Phase, ActionView) {
    match (phase, event) {
        (_, EventView::BusFailed(detail)) => (Phase::Idle, ActionView::Fail(bus_failure(detail))),
        (Phase::Idle, EventView::Start) => match mode {
            SensorMode::Forced => (Phase::Triggering, ActionView::Trigger),
            SensorMode::Continuous => (Phase::Ready, ActionView::ReadSample),
        },
        (Phase::Triggering, EventView::TriggerWritten) => if poll_budget == 0 {
            (Phase::Idle, ActionView::Fail(timed_out()))
        } else {
            (Phase::Triggered { polls_left: poll_budget }, ActionView::PollStatus)
        },
        (Phase::Triggered { polls_left }, EventView::StillMeasuring) => if polls_left > 1 {
            (Phase::Triggered { polls_left: (polls_left - 1) as u32 }, ActionView::PollStatus)
        } else {
            (Phase::Idle, ActionView::Fail(timed_out()))
        },
        (Phase::Triggered { .. }, EventView::DataReady) => (Phase::Ready, ActionView::ReadSample),
        (Phase::Ready, EventView::SampleRead(values)) => (Phase::Idle, ActionView::Deliver(values)),
        _ => (Phase::Idle, ActionView::Fail(out_of_sequence())),
    }
}

/// A session as contracts see it.
pub struct SessionView {
    pub mode: SensorMode,
    pub poll_budget: u32,
    pub phase: Phase,
}

/// The state of the sensor session: the mode the sensor was configured with,
/// the poll budget of a measurement, and the phase of the cycle in progress.
#[derive(Debug)]
pub struct Session {
    mode: SensorMode,
    poll_budget: u32,
    phase: Phase,
}

impl View for Session {
    type V = SessionView;

    closed spec fn view(&self) -> SessionView {
        SessionView { mode: self.mode, poll_budget: self.poll_budget, phase: self.phase }
    }
}

fn timeout_error() -> (error: SensorError)
    ensures
        error@ == timed_out(),
{
    SensorError::new(
        ErrorKind::MeasurementTimeout,
        String::from_str("sensor still measuring after the last poll"),
    )
}

fn sequence_error() -> (error: SensorError)
    ensures
        error@ == out_of_sequence(),
{
    SensorError::new(
        ErrorKind::MeasurementFailed,
        String::from_str("sensor response out of sequence"),
    )
}

impl Session {
    /// An idle session for a sensor configured with `configuration`, which
    /// lets a measurement be polled for `poll_budget` times.
    pub fn new(configuration: &SamplingConfiguration, poll_budget: u32) -> (session: Session)
        ensures
            session@ == (SessionView {
                mode: configuration.mode,
                poll_budget,
                phase: Phase::Idle,
            }),
    {
        Session { mode: configuration.mode, poll_budget, phase: Phase::Idle }
    }

    /// The phase of the cycle in progress.
    pub fn phase(&self) -> (phase: Phase)
        ensures
            phase == self@.phase,
    {
        self.phase
    }

    /// The mode the sensor was configured with.
    pub fn mode(&self) -> (mode: SensorMode)
        ensures
            mode == self@.mode,
    {
        self.mode
    }

    /// How many times a measurement is polled before it is given up.
    pub fn poll_budget(&self) -> (poll_budget: u32)
        ensures
            poll_budget == self@.poll_budget,
    {
        self.poll_budget
    }

    /// Takes one event and answers with the next action, as `transition`
    /// lays down. Mode and poll budget never change.
    pub fn step(&mut self, event: Event) -> (action: Action)
        ensures
            final(self)@.mode == old(self)@.mode,
            final(self)@.poll_budget == old(self)@.poll_budget,
            (final(self)@.phase, action@) == transition(
                old(self)@.mode,
                old(self)@.poll_budget,
                old(self)@.phase,
                event@,
            ),
    {
        let phase = self.phase;
        self.phase = Phase::Idle;
        match event {
            Event::BusFailed(detail) => Action::Fail(
                SensorError::new(ErrorKind::MeasurementFailed, detail),
            ),
            Event::Start => match phase {
                Phase::Idle => match self.mode {
                    SensorMode::Forced => {
                        self.phase = Phase::Triggering;
                        Action::Trigger
                    },
                    SensorMode::Continuous => {
                        self.phase = Phase::Ready;
                        Action::ReadSample
                    },
                },
                _ => Action::Fail(sequence_error()),
            },
            Event::TriggerWritten => match phase {
                Phase::Triggering => if self.poll_budget == 0 {
                    Action::Fail(timeout_error())
                } else {
                    self.phase = Phase::Triggered { polls_left: self.poll_budget };
                    Action::PollStatus
                },
                _ => Action::Fail(sequence_error()),
            },
            Event::StillMeasuring => match phase {
                Phase::Triggered { polls_left } => if polls_left > 1 {
                    self.phase = Phase::Triggered { polls_left: polls_left - 1 };
                    Action::PollStatus
                } else {
                    Action::Fail(timeout_error())
                },
                _ => Action::Fail(sequence_error()),
            },
            Event::DataReady => match phase {
                Phase::Triggered { .. } => {
                    self.phase = Phase::Ready;
                    Action::ReadSample
                },
                _ => Action::Fail(sequence_error()),
            },
            Event::SampleRead(reading) => match phase {
                Phase::Ready => Action::Deliver(reading),
                _ => Action::Fail(sequence_error()),
            },
        }
    }
}

} // verus!
