//! The registry: the last value each gauge was set to.

use vstd::prelude::*;
use vstd::string::*;
use crate::channel::Channel;
use crate::exposition::{exposition, sample_line, write_gauge};
use crate::reading::{channel_values, numeral_of, Reading};
use crate::lines::has_line;
use crate::rendering::{
    holds_numerals, is_exposition, lemma_exposition_is_well_formed, lemma_set_gauge_is_rendered,
};
use crate::sample::Sample;

verus! {

/// The last-set value of the three gauges. A gauge is unset until the first
/// reading that holds its channel, and from then on keeps the value of the
/// latest such reading.
#[derive(Debug)]
pub struct Registry {
    temperature: Option<Sample>,
    pressure: Option<Sample>,
    humidity: Option<Sample>,
}

impl View for Registry {
    type V = Map<Channel, Seq<char>>;

    closed spec fn view(&self) -> Map<Channel, Seq<char>> {
        channel_values(
            numeral_of(self.temperature),
            numeral_of(self.pressure),
            numeral_of(self.humidity),
        )
    }
}

impl Default for Registry {
    /// The registry with every gauge unset.
    fn default() -> (registry: Registry)
        ensures
            registry@ == Map::<Channel, Seq<char>>::empty(),
    {
        Registry::new()
    }
}

impl Registry {
    /// The registry with every gauge unset.
    pub fn new() -> (registry: Registry)
        ensures
            registry@ == Map::<Channel, Seq<char>>::empty(),
    {
        Registry { temperature: None, pressure: None, humidity: None }
    }

    /// Overwrites the gauge of every channel that `reading` holds and leaves
    /// the others as they are.
    pub fn apply(&mut self, reading: Reading)
        ensures
            final(self)@ == old(self)@.union_prefer_right(reading@),
    {
        let Reading { temperature, pressure, humidity } = reading;
        if temperature.is_some() {
            self.temperature = temperature;
        }
        if pressure.is_some() {
            self.pressure = pressure;
        }
        if humidity.is_some() {
            self.humidity = humidity;
        }
    }

    /// The value a gauge was last set to, if it was ever set.
    pub fn get(&self, channel: Channel) -> (sample: Option<&Sample>)
        ensures
            sample is Some <==> self@.contains_key(channel),
            sample is Some ==> sample.unwrap()@ == self@[channel],
    {
        match channel {
            Channel::Temperature => self.temperature.as_ref(),
            Channel::Pressure => self.pressure.as_ref(),
            Channel::Humidity => self.humidity.as_ref(),
        }
    }

    /// The current state of the gauges in the exporter's text format. This
    /// cannot fail, whatever has or has not been applied before. Every gauge
    /// that is set holds a numeral and has its sample line in the text, and
    /// the text is always well formed.
    pub fn render(&self) -> (text: String)
        ensures
            text@ == exposition(self@),
            holds_numerals(self@),
            is_exposition(text@),
            forall|channel: Channel| #[trigger]
                self@.contains_key(channel) ==> has_line(
                    text@,
                    sample_line(channel, self@[channel]),
                ),
    {
        proof {
            assert forall|channel: Channel| #[trigger] self@.contains_key(channel) implies has_line(
                exposition(self@),
                sample_line(channel, self@[channel]),
            ) by {
                lemma_set_gauge_is_rendered(self@, channel);
            }
            match &self.temperature {
                Some(sample) => use_type_invariant(sample),
                None => {},
            }
            match &self.pressure {
                Some(sample) => use_type_invariant(sample),
                None => {},
            }
            match &self.humidity {
                Some(sample) => use_type_invariant(sample),
                None => {},
            }
            lemma_exposition_is_well_formed(self@);
        }
        let mut text = String::new();
        write_gauge(&mut text, Channel::Temperature, self.temperature.as_ref());
        write_gauge(&mut text, Channel::Pressure, self.pressure.as_ref());
        write_gauge(&mut text, Channel::Humidity, self.humidity.as_ref());
        text
    }
}

} // verus!
