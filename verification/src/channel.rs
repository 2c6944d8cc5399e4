//! The three channels of the sensor and the gauges they feed.

use vstd::prelude::*;

verus! {

/// A quantity the sensor measures. Each channel feeds one gauge, named after it.
#[derive(Clone, Copy, Debug, PartialEq, Eq, Structural)]
pub enum Channel {
    /// Air temperature, in degrees Celsius.
    Temperature,
    /// Air pressure, in the sensor's native unit.
    Pressure,
    /// Relative humidity, in percent.
    Humidity,
}

impl Channel {
    /// The name of the gauge, as it appears in the exporter's output.
    pub open spec fn name_text(self) -> Seq<char> {
        match self {
            Channel::Temperature => "temperature"@,
            Channel::Pressure => "pressure"@,
            Channel::Humidity => "humidity"@,
        }
    }

    /// The help text registered with the gauge.
    pub open spec fn description_text(self) -> Seq<char> {
        match self {
            Channel::Temperature => "Temperature in °C"@,
            Channel::Pressure => "Air pressure in mPa"@,
            Channel::Humidity => "Relative humidity in %"@,
        }
    }

    /// The name of the gauge this channel feeds.
    pub fn name(self) -> (text: &'static str)
        ensures
            text@ == self.name_text(),
    {
        match self {
            Channel::Temperature => "temperature",
            Channel::Pressure => "pressure",
            Channel::Humidity => "humidity",
        }
    }

    /// The help text of the gauge this channel feeds.
    pub fn description(self) -> (text: &'static str)
        ensures
            text@ == self.description_text(),
    {
        match self {
            Channel::Temperature => "Temperature in °C",
            Channel::Pressure => "Air pressure in mPa",
            Channel::Humidity => "Relative humidity in %",
        }
    }
}

} // verus!
