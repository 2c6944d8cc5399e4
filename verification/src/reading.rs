//! One sample cycle's worth of measurements.

use vstd::prelude::*;
use crate::channel::Channel;
use crate::sample::Sample;

verus! {

/// The text of a sample, if there is one.
pub open spec fn numeral_of(sample: Option<Sample>) -> Option<Seq<char>> {
    match sample {
        Some(s) => Some(s@),
        None => None,
    }
}

/// The value of one channel among three optional values.
pub open spec fn pick(
    channel: Channel,
    temperature: Option<Seq<char>>,
    pressure: Option<Seq<char>>,
    humidity: Option<Seq<char>>,
) -> Option<Seq<char>> {
    match channel {
        Channel::Temperature => temperature,
        Channel::Pressure => pressure,
        Channel::Humidity => humidity,
    }
}

/// The partial map from channels to values that three optional values make:
/// a channel is in it exactly if its value is there.
pub open spec fn channel_values(
    temperature: Option<Seq<char>>,
    pressure: Option<Seq<char>>,
    humidity: Option<Seq<char>>,
) -> Map<Channel, Seq<char>> {
    Map::new(
        |c: Channel| pick(c, temperature, pressure, humidity) is Some,
        |c: Channel| pick(c, temperature, pressure, humidity).unwrap(),
    )
}

/// What one sample cycle produced: a value for each channel the sensor
/// reported, nothing for a channel it did not.
#[derive(Debug, PartialEq, Eq)]
pub struct Reading {
    pub temperature: Option<Sample>,
    pub pressure: Option<Sample>,
    pub humidity: Option<Sample>,
}

impl View for Reading {
    type V = Map<Channel, Seq<char>>;

    open spec fn view(&self) -> Map<Channel, Seq<char>> {
        channel_values(
            numeral_of(self.temperature),
            numeral_of(self.pressure),
            numeral_of(self.humidity),
        )
    }
}

fn copy_of(sample: &Option<Sample>) -> (copy: Option<Sample>)
    ensures
        numeral_of(copy) == numeral_of(*sample),
{
    match sample {
        Some(s) => Some(s.clone()),
        None => None,
    }
}

impl Clone for Reading {
    /// A second reading with the same values.
    fn clone(&self) -> (copy: Reading)
        ensures
            copy@ == self@,
    {
        Reading {
            temperature: copy_of(&self.temperature),
            pressure: copy_of(&self.pressure),
            humidity: copy_of(&self.humidity),
        }
    }
}

impl Reading {
    /// The reading with the given values.
    pub fn new(
        temperature: Option<Sample>,
        pressure: Option<Sample>,
        humidity: Option<Sample>,
    ) -> (reading: Reading)
        ensures
            reading@ == channel_values(
                numeral_of(temperature),
                numeral_of(pressure),
                numeral_of(humidity),
            ),
    {
        Reading { temperature, pressure, humidity }
    }

    /// The value of one channel, if the sensor reported it.
    pub fn get(&self, channel: Channel) -> (sample: Option<&Sample>)
        ensures
            sample is Some <==> self@.contains_key(channel),
            sample is Some ==> sample.unwrap()@ == self@[channel],
    {
        match channel {
            Channel::Temperature => self.temperature.as_ref(),
            Channel::Pressure => self.pressure.as_ref(),
            Channel::Humidity => self.humidity.as_ref(),
        }
    }
}

} // verus!
