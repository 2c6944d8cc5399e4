//! The sampling configuration, chosen once at startup.

use vstd::prelude::*;
use crate::channel::Channel;

verus! {

/// The port the exporter listens on unless told otherwise.
pub const DEFAULT_PORT: u16 = 3000;

/// The address the exporter binds to unless told otherwise: the loopback
/// address.
pub const DEFAULT_HOST: [u8; 4] = [127, 0, 0, 1];

/// The path of the one route the exporter serves.
pub const METRICS_PATH: &'static str = "/metrics";

/// The bus address of the sensor.
pub const SENSOR_ADDRESS: u8 = 0x77;

/// How many times a measurement is polled before it is given up.
pub const DEFAULT_POLL_BUDGET: u32 = 10;

/// How long to wait, in milliseconds, after a poll that found the sensor busy.
pub const POLL_INTERVAL_MS: u32 = 10;

/// How many raw samples the sensor averages into one value of a channel.
#[derive(Clone, Copy, Debug, PartialEq, Eq, Structural)]
pub enum Oversampling {
    /// The channel is not measured at all.
    Skip,
    X1,
    X2,
    X4,
    X8,
    X16,
}

/// The coefficient of the sensor's noise filter.
#[derive(Clone, Copy, Debug, PartialEq, Eq, Structural)]
pub enum Filter {
    Off,
    X2,
    X4,
    X8,
    X16,
}

/// How the sensor decides when to measure.
#[derive(Clone, Copy, Debug, PartialEq, Eq, Structural)]
pub enum SensorMode {
    /// The sensor sleeps until a measurement is triggered, takes one, and
    /// goes back to sleep.
    Forced,
    /// The sensor measures on its own and its registers always hold the
    /// latest values.
    Continuous,
}

/// Oversampling per channel, noise filter and operating mode. A configuration
/// is a value: once built it does not change.
#[derive(Clone, Copy, Debug, PartialEq, Eq, Structural)]
pub struct SamplingConfiguration {
    pub temperature: Oversampling,
    pub pressure: Oversampling,
    pub humidity: Oversampling,
    pub filter: Filter,
    pub mode: SensorMode,
}

impl Oversampling {
    /// The number of raw samples averaged, 0 where the channel is skipped.
    pub open spec fn factor_of(self) -> int {
        match self {
            Oversampling::Skip => 0,
            Oversampling::X1 => 1,
            Oversampling::X2 => 2,
            Oversampling::X4 => 4,
            Oversampling::X8 => 8,
            Oversampling::X16 => 16,
        }
    }

    /// The number of raw samples averaged, 0 where the channel is skipped.
    pub fn factor(self) -> (n: u8)
        ensures
            n == self.factor_of(),
    {
        match self {
            Oversampling::Skip => 0,
            Oversampling::X1 => 1,
            Oversampling::X2 => 2,
            Oversampling::X4 => 4,
            Oversampling::X8 => 8,
            Oversampling::X16 => 16,
        }
    }
}

impl Filter {
    /// The filter coefficient, 0 where the filter is off.
    pub open spec fn coefficient_of(self) -> int {
        match self {
            Filter::Off => 0,
            Filter::X2 => 2,
            Filter::X4 => 4,
            Filter::X8 => 8,
            Filter::X16 => 16,
        }
    }

    /// The filter coefficient, 0 where the filter is off.
    pub fn coefficient(self) -> (n: u8)
        ensures
            n == self.coefficient_of(),
    {
        match self {
            Filter::Off => 0,
            Filter::X2 => 2,
            Filter::X4 => 4,
            Filter::X8 => 8,
            Filter::X16 => 16,
        }
    }
}

impl SamplingConfiguration {
    /// The configuration the exporter runs with: every channel oversampled
    /// eight times, filter coefficient 4, forced mode.
    pub fn standard() -> (configuration: SamplingConfiguration)
        ensures
            configuration == (SamplingConfiguration {
                temperature: Oversampling::X8,
                pressure: Oversampling::X8,
                humidity: Oversampling::X8,
                filter: Filter::X4,
                mode: SensorMode::Forced,
            }),
    {
        SamplingConfiguration {
            temperature: Oversampling::X8,
            pressure: Oversampling::X8,
            humidity: Oversampling::X8,
            filter: Filter::X4,
            mode: SensorMode::Forced,
        }
    }

    /// The oversampling of one channel.
    pub open spec fn oversampling_of(self, channel: Channel) -> Oversampling {
        match channel {
            Channel::Temperature => self.temperature,
            Channel::Pressure => self.pressure,
            Channel::Humidity => self.humidity,
        }
    }

    /// The oversampling of one channel.
    pub fn oversampling(&self, channel: Channel) -> (oversampling: Oversampling)
        ensures
            oversampling == self.oversampling_of(channel),
    {
        match channel {
            Channel::Temperature => self.temperature,
            Channel::Pressure => self.pressure,
            Channel::Humidity => self.humidity,
        }
    }
}

} // verus!
