use vstd::prelude::*;
use crate::dict::str_equal;

verus! {

/// SPA's code for an audio channel whose position is not known.
pub const SPA_AUDIO_CHANNEL_UNKNOWN: u32 = 0;
/// SPA's code for the front left audio channel.
pub const SPA_AUDIO_CHANNEL_FL: u32 = 3;
/// SPA's code for the front right audio channel.
pub const SPA_AUDIO_CHANNEL_FR: u32 = 4;

/// SPA's raw code for the input direction of a port.
pub const SPA_DIRECTION_INPUT: u32 = 0;
/// SPA's raw code for the output direction of a port.
pub const SPA_DIRECTION_OUTPUT: u32 = 1;

/// The direction of a port. SPA encodes it as a raw number; codes other than
/// those of input and output are kept, unchanged, in `Other`.
#[derive(Clone, Copy, Debug, PartialEq, Eq, Structural)]
pub enum Direction {
    Input,
    Output,
    Other(u32),
}

/// The raw SPA code of a direction.
pub open spec fn direction_raw(d: Direction) -> u32 {
    match d {
        Direction::Input => SPA_DIRECTION_INPUT,
        Direction::Output => SPA_DIRECTION_OUTPUT,
        Direction::Other(raw) => raw,
    }
}

/// The direction opposite to `d`: input and output swap, any other code is kept.
pub open spec fn direction_reversed(d: Direction) -> Direction {
    match d {
        Direction::Input => Direction::Output,
        Direction::Output => Direction::Input,
        Direction::Other(raw) => Direction::Other(raw),
    }
}

impl Direction {
    /// The direction that the raw SPA code `raw` stands for.
    pub fn from_raw(raw: u32) -> (d: Direction)
        ensures
            raw == SPA_DIRECTION_INPUT ==> d == Direction::Input,
            raw == SPA_DIRECTION_OUTPUT ==> d == Direction::Output,
            raw != SPA_DIRECTION_INPUT && raw != SPA_DIRECTION_OUTPUT ==> d == Direction::Other(raw),
    {
        if raw == SPA_DIRECTION_INPUT {
            Direction::Input
        } else if raw == SPA_DIRECTION_OUTPUT {
            Direction::Output
        } else {
            Direction::Other(raw)
        }
    }

    /// The raw SPA code of this direction.
    pub fn as_raw(&self) -> (raw: u32)
        ensures
            raw == direction_raw(*self),
    {
        match *self {
            Direction::Input => SPA_DIRECTION_INPUT,
            Direction::Output => SPA_DIRECTION_OUTPUT,
            Direction::Other(raw) => raw,
        }
    }

    /// The opposite direction: input and output swap, an unknown code is unchanged.
    pub fn reverse(&self) -> (d: Direction)
        ensures
            d == direction_reversed(*self),
    {
        match *self {
            Direction::Input => Direction::Output,
            Direction::Output => Direction::Input,
            Direction::Other(raw) => Direction::Other(raw),
        }
    }
}

/// Input and output have SPA's raw codes 0 and 1, reversing swaps them, and
/// reversing twice gives any direction back.
pub proof fn lemma_direction_codes(d: Direction)
    ensures
        direction_raw(Direction::Input) == 0,
        direction_raw(Direction::Output) == 1,
        direction_reversed(Direction::Input) == Direction::Output,
        direction_reversed(Direction::Output) == Direction::Input,
        direction_reversed(direction_reversed(d)) == d,
        d is Other ==> direction_reversed(d) == d && direction_raw(d) == d->Other_0,
{
}

/// The SPA audio channel that a channel name (the `audio.channel` property) stands for.
pub open spec fn channel_of_name(name: Seq<char>) -> u32 {
    if name == "FL"@ {
        SPA_AUDIO_CHANNEL_FL
    } else if name == "FR"@ {
        SPA_AUDIO_CHANNEL_FR
    } else {
        SPA_AUDIO_CHANNEL_UNKNOWN
    }
}

/// Only the name `FL` stands for the front left channel, only `FR` for the
/// front right one, and every other name stands for the unknown channel.
pub proof fn lemma_channel_names(name: Seq<char>)
    ensures
        (channel_of_name(name) == SPA_AUDIO_CHANNEL_FL) <==> name == "FL"@,
        (channel_of_name(name) == SPA_AUDIO_CHANNEL_FR) <==> name == "FR"@,
        (name != "FL"@ && name != "FR"@) ==> channel_of_name(name) == SPA_AUDIO_CHANNEL_UNKNOWN,
{
    reveal_strlit("FL");
    reveal_strlit("FR");
    assert("FL"@[1] != "FR"@[1]);
}

/// Maps a channel name to its SPA audio channel; names other than front
/// left and front right map to the unknown channel.
pub fn channel_name_to_spa_audio_channel(name: &str) -> (channel: u32)
    ensures
        channel == channel_of_name(name@),
{
    if str_equal(name, "FL") {
        SPA_AUDIO_CHANNEL_FL
    } else if str_equal(name, "FR") {
        SPA_AUDIO_CHANNEL_FR
    } else {
        SPA_AUDIO_CHANNEL_UNKNOWN
    }
}

/// The direction that a `port.direction` property value names, if it names one.
pub open spec fn direction_of_name(name: Seq<char>) -> Option<Direction> {
    if name == "in"@ {
        Some(Direction::Input)
    } else if name == "out"@ {
        Some(Direction::Output)
    } else {
        None
    }
}

/// Only `in` names the input direction, only `out` the output direction, and
/// no other value names a direction.
pub proof fn lemma_direction_names(name: Seq<char>)
    ensures
        (direction_of_name(name) == Some(Direction::Input)) <==> name == "in"@,
        (direction_of_name(name) == Some(Direction::Output)) <==> name == "out"@,
        (name != "in"@ && name != "out"@) <==> direction_of_name(name) is None,
{
    reveal_strlit("in");
    reveal_strlit("out");
    assert("in"@.len() != "out"@.len());
}

/// Maps a `port.direction` property value ("in" or "out") to a direction;
/// any other value names none.
pub fn direction_name_to_spa_direction(name: &str) -> (d: Option<Direction>)
    ensures
        d == direction_of_name(name@),
{
    if str_equal(name, "in") {
        Some(Direction::Input)
    } else if str_equal(name, "out") {
        Some(Direction::Output)
    } else {
        None
    }
}

} // verus!
