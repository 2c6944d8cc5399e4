//! The exporter's text format.
//!
//! A scrape is answered with one block per gauge, in the order temperature,
//! pressure, humidity. A block holds the gauge's help line and type line, the
//! sample line `<name> <value>` if the gauge has been set, and an empty line.
//! The lines themselves are written by the exporter crate's own line writers.

use vstd::prelude::*;
use vstd::string::*;
use metrics_exporter_prometheus::formatting::{write_help_line, write_metric_line, write_type_line};
use crate::channel::Channel;
use crate::sample::Sample;

verus! {

/// The value of a gauge, if it has been set.
pub open spec fn gauge_value(gauges: Map<Channel, Seq<char>>, channel: Channel) -> Option<
    Seq<char>,
> {
    if gauges.contains_key(channel) {
        Some(gauges[channel])
    } else {
        None
    }
}

/// The line that describes a gauge.
pub open spec fn help_line(channel: Channel) -> Seq<char> {
    "# HELP "@ + channel.name_text() + seq![' '] + channel.description_text() + seq!['\n']
}

/// The line that gives a gauge's type.
pub open spec fn type_line(channel: Channel) -> Seq<char> {
    "# TYPE "@ + channel.name_text() + seq![' '] + "gauge"@ + seq!['\n']
}

/// The line that gives a gauge's value.
pub open spec fn sample_line(channel: Channel, value: Seq<char>) -> Seq<char> {
    channel.name_text() + seq![' '] + value + seq!['\n']
}

/// The block of one gauge: help line, type line, the sample line if the gauge
/// is set, and an empty line.
pub open spec fn gauge_block(channel: Channel, value: Option<Seq<char>>) -> Seq<char> {
    help_line(channel) + type_line(channel) + match value {
        Some(v) => sample_line(channel, v),
        None => Seq::empty(),
    } + seq!['\n']
}

/// The whole output for the given gauge values.
pub open spec fn exposition(gauges: Map<Channel, Seq<char>>) -> Seq<char> {
    gauge_block(Channel::Temperature, gauge_value(gauges, Channel::Temperature)) + gauge_block(
        Channel::Pressure,
        gauge_value(gauges, Channel::Pressure),
    ) + gauge_block(Channel::Humidity, gauge_value(gauges, Channel::Humidity))
}

/// A text that the help line writer copies as it is: one without a line feed
/// or a backslash.
pub open spec fn is_plain(text: Seq<char>) -> bool {
    forall|i: int| 0 <= i < text.len() ==> #[trigger] text[i] != '\n' && text[i] != '\\'
}

/// `metrics_exporter_prometheus::formatting::write_help_line` appends
/// `# HELP `, the name, a space, the description and a line feed. It escapes
/// line feeds and backslashes in the description; this contract covers the
/// descriptions that hold neither, which it appends unchanged.
pub assume_specification[ metrics_exporter_prometheus::formatting::write_help_line ](
    buffer: &mut String,
    name: &str,
    desc: &str,
)
    requires
        is_plain(desc@),
    ensures
        final(buffer)@ == old(buffer)@ + "# HELP "@ + name@ + seq![' '] + desc@ + seq!['\n'],
;

/// `metrics_exporter_prometheus::formatting::write_type_line` appends
/// `# TYPE `, the name, a space, the type and a line feed.
pub assume_specification[ metrics_exporter_prometheus::formatting::write_type_line ](
    buffer: &mut String,
    name: &str,
    metric_type: &str,
)
    ensures
        final(buffer)@ == old(buffer)@ + "# TYPE "@ + name@ + seq![' '] + metric_type@
            + seq!['\n'],
;

/// Calls `metrics_exporter_prometheus::formatting::write_metric_line` without
/// suffix or labels, and with the value as text. In that case it appends the
/// name, a space, the value as its `Display` prints it (for a `&str`, the text
/// itself) and a line feed.
#[verifier::external_body]
fn write_sample_line(buffer: &mut String, name: &str, value: &str)
    ensures
        final(buffer)@ == old(buffer)@ + name@ + seq![' '] + value@ + seq!['\n'],
{
    write_metric_line::<&str, &str>(buffer, name, None, &[], None, value);
}

/// The help texts of the gauges hold no line feed and no backslash.
pub proof fn lemma_descriptions_are_plain(channel: Channel)
    ensures
        is_plain(channel.description_text()),
{
    reveal_strlit("Temperature in °C");
    reveal_strlit("Air pressure in mPa");
    reveal_strlit("Relative humidity in %");
}

/// Appends the block of one gauge to `text`.
pub(crate) fn write_gauge(text: &mut String, channel: Channel, value: Option<&Sample>)
    ensures
        final(text)@ == old(text)@ + gauge_block(
            channel,
            match value {
                Some(sample) => Some(sample@),
                None => None,
            },
        ),
{
    proof {
        lemma_descriptions_are_plain(channel);
        reveal_strlit("\n");
    }
    write_help_line(text, channel.name(), channel.description());
    write_type_line(text, channel.name(), "gauge");
    assert(text@ == old(text)@ + help_line(channel) + type_line(channel));
    if let Some(sample) = value {
        write_sample_line(text, channel.name(), sample.as_str());
    }
    text.append("\n");
}

} // verus!
