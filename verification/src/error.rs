//! What can go wrong between the bus and the scrape endpoint.

use vstd::prelude::*;
use vstd::string::*;

verus! {

/// The kinds of failure. The first three can only happen while the sensor is
/// brought up and end the process; the last two fail one measurement and leave
/// the sensor ready for the next.
#[derive(Clone, Copy, Debug, PartialEq, Eq, Structural)]
pub enum ErrorKind {
    /// The bus device could not be opened.
    BusUnavailable,
    /// The sensor did not answer its reset and identification sequence.
    SensorInitFailed,
    /// The sampling configuration could not be written.
    SensorConfigFailed,
    /// Triggering a measurement or reading its result failed.
    MeasurementFailed,
    /// The sensor was still measuring when the poll budget was used up.
    MeasurementTimeout,
}

impl ErrorKind {
    /// Whether a failure of this kind ends the process.
    pub open spec fn is_fatal(self) -> bool {
        self is BusUnavailable || self is SensorInitFailed || self is SensorConfigFailed
    }

    /// The context under which a failure of this kind is reported.
    pub open spec fn label_text(self) -> Seq<char> {
        match self {
            ErrorKind::BusUnavailable => "bus unavailable"@,
            ErrorKind::SensorInitFailed => "sensor initialization failed"@,
            ErrorKind::SensorConfigFailed => "sensor configuration failed"@,
            ErrorKind::MeasurementFailed => "measurement failed"@,
            ErrorKind::MeasurementTimeout => "measurement timed out"@,
        }
    }

    /// Whether a failure of this kind ends the process: true of the three
    /// startup failures, false of the two measurement failures.
    pub fn fatal(self) -> (yes: bool)
        ensures
            yes == self.is_fatal(),
    {
        match self {
            ErrorKind::BusUnavailable => true,
            ErrorKind::SensorInitFailed => true,
            ErrorKind::SensorConfigFailed => true,
            ErrorKind::MeasurementFailed => false,
            ErrorKind::MeasurementTimeout => false,
        }
    }

    /// The context under which a failure of this kind is reported.
    pub fn label(self) -> (text: &'static str)
        ensures
            text@ == self.label_text(),
    {
        match self {
            ErrorKind::BusUnavailable => "bus unavailable",
            ErrorKind::SensorInitFailed => "sensor initialization failed",
            ErrorKind::SensorConfigFailed => "sensor configuration failed",
            ErrorKind::MeasurementFailed => "measurement failed",
            ErrorKind::MeasurementTimeout => "measurement timed out",
        }
    }
}

/// The steps that bring the sensor up, in the order they are taken. The
/// exporter serves nothing before the last has succeeded.
#[derive(Clone, Copy, Debug, PartialEq, Eq, Structural)]
pub enum StartupStep {
    /// Open the bus device.
    OpenBus,
    /// Reset the sensor and read its calibration.
    Initialize,
    /// Write the sampling configuration.
    Configure,
}

impl StartupStep {
    /// The kind of failure that a failure of this step is.
    pub open spec fn failure_kind(self) -> ErrorKind {
        match self {
            StartupStep::OpenBus => ErrorKind::BusUnavailable,
            StartupStep::Initialize => ErrorKind::SensorInitFailed,
            StartupStep::Configure => ErrorKind::SensorConfigFailed,
        }
    }

    /// The failure of this step with the given cause. It is fatal, whichever
    /// the step.
    pub fn failure(self, detail: String) -> (error: SensorError)
        ensures
            error@ == (Failure { kind: self.failure_kind(), detail: detail@ }),
            error@.kind.is_fatal(),
    {
        let kind = match self {
            StartupStep::OpenBus => ErrorKind::BusUnavailable,
            StartupStep::Initialize => ErrorKind::SensorInitFailed,
            StartupStep::Configure => ErrorKind::SensorConfigFailed,
        };
        SensorError::new(kind, detail)
    }
}

/// A failure as contracts see it: its kind and the text of its cause.
pub struct Failure {
    pub kind: ErrorKind,
    pub detail: Seq<char>,
}

impl Failure {
    /// The failure as it is shown: the context of its kind, a colon, and the
    /// cause word for word.
    pub open spec fn description(self) -> Seq<char> {
        self.kind.label_text() + ": "@ + self.detail
    }
}

/// A failure of the sensor or its bus: the kind, and the underlying cause as the
/// bus or the driver worded it.
#[derive(Debug, PartialEq, Eq)]
pub struct SensorError {
    pub kind: ErrorKind,
    pub detail: String,
}

impl View for SensorError {
    type V = Failure;

    open spec fn view(&self) -> Failure {
        Failure { kind: self.kind, detail: self.detail@ }
    }
}

impl Clone for SensorError {
    /// A second failure of the same kind with the same cause.
    fn clone(&self) -> (copy: SensorError)
        ensures
            copy@ == self@,
    {
        SensorError { kind: self.kind, detail: self.detail.clone() }
    }
}

impl SensorError {
    /// A failure of the given kind with the given cause.
    pub fn new(kind: ErrorKind, detail: String) -> (error: SensorError)
        ensures
            error@ == (Failure { kind, detail: detail@ }),
    {
        SensorError { kind, detail }
    }

    /// The failure as it is shown to whoever asked for the measurement.
    pub fn description(&self) -> (text: String)
        ensures
            text@ == self@.description(),
    {
        let mut text = String::from_str(self.kind.label());
        text.append(": ");
        text.append(self.detail.as_str());
        text
    }
}

} // verus!
