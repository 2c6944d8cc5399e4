//! What holds of everything the registry renders.

use vstd::prelude::*;
use vstd::string::*;
use crate::channel::Channel;
use crate::exposition::{
    exposition, gauge_block, gauge_value, help_line, lemma_descriptions_are_plain, sample_line,
    type_line,
};
use crate::lines::{
    all_lines, has_line, is_line, joined, lemma_joined_concat, lemma_line_of_joined_is_member,
    line_at, on_one_line,
};
use crate::sample::{digits_between, digits_start, is_decimal, is_numeral};

verus! {

/// Every value in `gauges` is a numeral.
pub open spec fn holds_numerals(gauges: Map<Channel, Seq<char>>) -> bool {
    forall|channel: Channel| #[trigger]
        gauges.contains_key(channel) ==> is_numeral(gauges[channel])
}

/// A line that gives a numeral as the value of one of the gauges.
pub open spec fn is_sample_line(line: Seq<char>) -> bool {
    exists|channel: Channel, value: Seq<char>|
        is_numeral(value) && line == #[trigger] sample_line(channel, value)
}

/// A line as the format allows it: empty, a comment that starts with `# `, or
/// a sample line.
pub open spec fn is_exposition_line(line: Seq<char>) -> bool {
    &&& is_line(line)
    &&& (line.len() == 1 || (line.len() >= 2 && line[0] == '#' && line[1] == ' ')
        || is_sample_line(line))
}

/// A well-formed output: a run of lines that the format allows.
pub open spec fn is_exposition(text: Seq<char>) -> bool {
    exists|lines: Seq<Seq<char>>|
        #[trigger] joined(lines) == text && forall|i: int|
            0 <= i < lines.len() ==> is_exposition_line(#[trigger] lines[i])
}

/// The lines of the block of one gauge.
pub open spec fn block_lines(channel: Channel, value: Option<Seq<char>>) -> Seq<Seq<char>> {
    seq![help_line(channel), type_line(channel)] + match value {
        Some(v) => seq![sample_line(channel, v)],
        None => Seq::empty(),
    } + seq![seq!['\n']]
}

/// The lines of the whole output.
pub open spec fn exposition_lines(gauges: Map<Channel, Seq<char>>) -> Seq<Seq<char>> {
    block_lines(Channel::Temperature, gauge_value(gauges, Channel::Temperature)) + block_lines(
        Channel::Pressure,
        gauge_value(gauges, Channel::Pressure),
    ) + block_lines(Channel::Humidity, gauge_value(gauges, Channel::Humidity))
}

/// `line` is one of the lines that the output for `gauges` is made of: the
/// help line or the type line of a gauge, the sample line of a gauge that is
/// set, with the value it is set to, or the empty line.
pub open spec fn is_line_of(gauges: Map<Channel, Seq<char>>, line: Seq<char>) -> bool {
    ||| line == seq!['\n']
    ||| exists|channel: Channel| line == #[trigger] help_line(channel)
    ||| exists|channel: Channel| line == #[trigger] type_line(channel)
    ||| exists|channel: Channel| #[trigger]
        gauges.contains_key(channel) && line == sample_line(channel, gauges[channel])
}

/// A gauge that is set has its sample line in the output, with the value it
/// was set to.
pub proof fn lemma_set_gauge_is_rendered(gauges: Map<Channel, Seq<char>>, channel: Channel)
    requires
        gauges.contains_key(channel),
    ensures
        has_line(exposition(gauges), sample_line(channel, gauges[channel])),
{
    let text = exposition(gauges);
    let line = sample_line(channel, gauges[channel]);
    let first = gauge_block(Channel::Temperature, gauge_value(gauges, Channel::Temperature));
    let second = gauge_block(Channel::Pressure, gauge_value(gauges, Channel::Pressure));
    let lead = help_line(channel) + type_line(channel);
    let at: int = match channel {
        Channel::Temperature => lead.len() as int,
        Channel::Pressure => (first.len() + lead.len()) as int,
        Channel::Humidity => (first.len() + second.len() + lead.len()) as int,
    };
    assert(text.subrange(at, at + line.len()) =~= line);
    assert(line_at(text, line, at));
}

/// After a reading is applied, the output holds the sample line of every
/// channel the reading holds, with exactly the value of the reading.
pub proof fn lemma_present_channel_is_rendered(
    gauges: Map<Channel, Seq<char>>,
    reading: Map<Channel, Seq<char>>,
    channel: Channel,
)
    requires
        reading.contains_key(channel),
    ensures
        gauge_value(gauges.union_prefer_right(reading), channel) == Some(reading[channel]),
        has_line(
            exposition(gauges.union_prefer_right(reading)),
            sample_line(channel, reading[channel]),
        ),
{
    lemma_set_gauge_is_rendered(gauges.union_prefer_right(reading), channel);
}

/// After a reading is applied, a gauge whose channel the reading does not hold
/// is as it was: if it was set, the output holds its sample line with the value
/// it had before; if it was unset, it is still unset.
pub proof fn lemma_absent_channel_is_kept(
    gauges: Map<Channel, Seq<char>>,
    reading: Map<Channel, Seq<char>>,
    channel: Channel,
)
    requires
        !reading.contains_key(channel),
    ensures
        gauge_value(gauges.union_prefer_right(reading), channel) == gauge_value(gauges, channel),
        gauges.contains_key(channel) ==> has_line(
            exposition(gauges.union_prefer_right(reading)),
            sample_line(channel, gauges[channel]),
        ),
{
    if gauges.contains_key(channel) {
        lemma_set_gauge_is_rendered(gauges.union_prefer_right(reading), channel);
    }
}

/// With no gauge set, the output is the help line and the type line of each
/// gauge, each pair followed by an empty line, and no sample line.
pub proof fn lemma_unset_gauges_render_metadata()
    ensures
        exposition(Map::<Channel, Seq<char>>::empty()) == help_line(Channel::Temperature)
            + type_line(Channel::Temperature) + seq!['\n'] + help_line(Channel::Pressure)
            + type_line(Channel::Pressure) + seq!['\n'] + help_line(Channel::Humidity)
            + type_line(Channel::Humidity) + seq!['\n'],
{
}

/// The names of the gauges stand on one line, and each begins with a letter of
/// its own.
proof fn lemma_names(channel: Channel)
    ensures
        on_one_line(channel.name_text()),
        channel.name_text().len() > 0,
        channel.name_text()[0] == match channel {
            Channel::Temperature => 't',
            Channel::Pressure => 'p',
            Channel::Humidity => 'h',
        },
{
    reveal_strlit("temperature");
    reveal_strlit("pressure");
    reveal_strlit("humidity");
}

/// A numeral stands on one line.
pub proof fn lemma_numeral_on_one_line(value: Seq<char>)
    requires
        is_numeral(value),
    ensures
        on_one_line(value),
{
    reveal_strlit("NaN");
    reveal_strlit("inf");
    reveal_strlit("-inf");
    if is_decimal(value) && !digits_between(value, digits_start(value), value.len() as int) {
        // Before the point and behind it stand digits, and before those at most
        // a minus sign.
        let dot = choose|dot: int|
            {
                &&& digits_between(value, digits_start(value), dot)
                &&& dot < value.len()
                &&& #[trigger] value[dot] == '.'
                &&& digits_between(value, dot + 1, value.len() as int)
            };
    }
}

/// The help line of a gauge is a comment line.
proof fn lemma_help_line_is_allowed(channel: Channel)
    ensures
        is_exposition_line(help_line(channel)),
{
    reveal_strlit("# HELP ");
    lemma_names(channel);
    lemma_descriptions_are_plain(channel);
}

/// The type line of a gauge is a comment line.
proof fn lemma_type_line_is_allowed(channel: Channel)
    ensures
        is_exposition_line(type_line(channel)),
{
    reveal_strlit("# TYPE ");
    reveal_strlit("gauge");
    lemma_names(channel);
}

/// The sample line of a gauge with a value that stands on one line is a line
/// that begins with the name of the gauge.
proof fn lemma_sample_line_is_a_line(channel: Channel, value: Seq<char>)
    requires
        on_one_line(value),
    ensures
        is_line(sample_line(channel, value)),
        sample_line(channel, value).len() >= 3,
        sample_line(channel, value)[0] == channel.name_text()[0],
{
    lemma_names(channel);
}

/// The output is made of its lines.
proof fn lemma_exposition_is_joined(gauges: Map<Channel, Seq<char>>)
    ensures
        joined(exposition_lines(gauges)) == exposition(gauges),
{
    let first = block_lines(Channel::Temperature, gauge_value(gauges, Channel::Temperature));
    let second = block_lines(Channel::Pressure, gauge_value(gauges, Channel::Pressure));
    let third = block_lines(Channel::Humidity, gauge_value(gauges, Channel::Humidity));
    lemma_block_is_joined(Channel::Temperature, gauge_value(gauges, Channel::Temperature));
    lemma_block_is_joined(Channel::Pressure, gauge_value(gauges, Channel::Pressure));
    lemma_block_is_joined(Channel::Humidity, gauge_value(gauges, Channel::Humidity));
    lemma_joined_concat(first, second);
    lemma_joined_concat(first + second, third);
}

/// The block of a gauge is made of its lines.
proof fn lemma_block_is_joined(channel: Channel, value: Option<Seq<char>>)
    ensures
        joined(block_lines(channel, value)) == gauge_block(channel, value),
{
    let head = seq![help_line(channel), type_line(channel)];
    let middle = match value {
        Some(v) => seq![sample_line(channel, v)],
        None => Seq::<Seq<char>>::empty(),
    };
    let tail = seq![seq!['\n']];
    lemma_joined_concat(head, middle);
    lemma_joined_concat(head + middle, tail);
    assert(joined(head) =~= help_line(channel) + type_line(channel)) by {
        reveal_with_fuel(joined, 3);
    }
    assert(joined(tail) =~= seq!['\n']) by {
        reveal_with_fuel(joined, 2);
    }
    if let Some(v) = value {
        assert(joined(middle) =~= sample_line(channel, v)) by {
            reveal_with_fuel(joined, 2);
        }
    }
}

/// The lines of the output are the help line and the type line of each
/// gauge, the sample line of each gauge that is set, and empty lines.
proof fn lemma_exposition_lines_are_known(gauges: Map<Channel, Seq<char>>)
    ensures
        forall|i: int|
            0 <= i < exposition_lines(gauges).len() ==> is_line_of(
                gauges,
                #[trigger] exposition_lines(gauges)[i],
            ),
{
}

/// A line of an output whose gauges hold numerals is a line that the format
/// allows.
proof fn lemma_known_line_is_allowed(gauges: Map<Channel, Seq<char>>, line: Seq<char>)
    requires
        holds_numerals(gauges),
        is_line_of(gauges, line),
    ensures
        is_exposition_line(line),
{
    if exists|channel: Channel| line == #[trigger] help_line(channel) {
        let channel = choose|channel: Channel| line == #[trigger] help_line(channel);
        lemma_help_line_is_allowed(channel);
    } else if exists|channel: Channel| line == #[trigger] type_line(channel) {
        let channel = choose|channel: Channel| line == #[trigger] type_line(channel);
        lemma_type_line_is_allowed(channel);
    } else if line != seq!['\n'] {
        let channel = choose|channel: Channel| #[trigger]
            gauges.contains_key(channel) && line == sample_line(channel, gauges[channel]);
        lemma_numeral_on_one_line(gauges[channel]);
        lemma_sample_line_is_a_line(channel, gauges[channel]);
    }
}

/// The output is always well formed: whichever gauges are set, to whatever
/// numerals, every line of it is empty, a comment or a sample line.
pub proof fn lemma_exposition_is_well_formed(gauges: Map<Channel, Seq<char>>)
    requires
        holds_numerals(gauges),
    ensures
        is_exposition(exposition(gauges)),
{
    let lines = exposition_lines(gauges);
    lemma_exposition_is_joined(gauges);
    lemma_exposition_lines_are_known(gauges);
    assert forall|i: int| 0 <= i < lines.len() implies is_exposition_line(#[trigger] lines[i]) by {
        lemma_known_line_is_allowed(gauges, lines[i]);
    }
}

/// The output says nothing of a gauge but what it is set to: if the output
/// holds the sample line of a gauge with some value (a text without a line
/// feed), the gauge is set, and to that value. So an unset gauge has no sample
/// line, and a set gauge has no second one.
pub proof fn lemma_rendered_sample_is_the_gauge(
    gauges: Map<Channel, Seq<char>>,
    channel: Channel,
    value: Seq<char>,
)
    requires
        holds_numerals(gauges),
        on_one_line(value),
        has_line(exposition(gauges), sample_line(channel, value)),
    ensures
        gauges.contains_key(channel),
        gauges[channel] == value,
{
    let lines = exposition_lines(gauges);
    let line = sample_line(channel, value);
    lemma_exposition_is_joined(gauges);
    lemma_exposition_lines_are_known(gauges);
    assert(all_lines(lines)) by {
        assert forall|i: int| 0 <= i < lines.len() implies is_line(#[trigger] lines[i]) by {
            lemma_known_line_is_allowed(gauges, lines[i]);
        }
    }
    lemma_sample_line_is_a_line(channel, value);
    lemma_line_of_joined_is_member(lines, line);
    // The line is one of the lines of the output. It begins with the first
    // letter of the gauge's name: it is no comment and not empty, and no
    // sample line of another gauge.
    let index = choose|index: int| 0 <= index < lines.len() && lines[index] == line;
    assert(is_line_of(gauges, lines[index]));
    lemma_names(channel);
    reveal_strlit("# HELP ");
    reveal_strlit("# TYPE ");
    if exists|other: Channel|
        #[trigger] gauges.contains_key(other) && line == sample_line(other, gauges[other]) {
        let other = choose|other: Channel| #[trigger]
            gauges.contains_key(other) && line == sample_line(other, gauges[other]);
        lemma_names(other);
        assert(other == channel);
        // It is the sample line of this gauge, so it holds the gauge's value.
        let name = channel.name_text();
        let kept = gauges[channel];
        assert forall|i: int| 0 <= i < value.len() implies value[i] == kept[i] by {
            assert(sample_line(channel, kept)[name.len() + 1 + i] == kept[i]);
        }
        assert(value =~= kept);
    }
}

} // verus!
