//! Stream abstraction.
//!
//! A *stream* is one direction of audio flow on a device — a device
//! owns one input stream, one output stream, or both. Each stream
//! carries its own [`StreamFormat`] and occupies a contiguous range
//! of channels within the device.

use vstd::prelude::*;

use crate::format::StreamFormat;
use crate::fourcc::FourCharCode;
use crate::property::{PropertyScope, SCOPE_INPUT, SCOPE_OUTPUT};

verus! {

/// The direction a stream carries audio.
#[derive(Copy, Clone, PartialEq, Eq, Hash, Debug, Structural)]
pub enum StreamDirection {
    /// A capture stream — audio flows from the device into the
    /// system (a virtual microphone).
    Input,
    /// A playback stream — audio flows from the system into the
    /// device (a virtual speaker).
    Output,
}

/// The `kAudioStreamPropertyDirection` value of a direction: `1` for
/// input, `0` for output.
pub open spec fn direction_value(d: StreamDirection) -> u32 {
    match d {
        StreamDirection::Input => 1,
        StreamDirection::Output => 0,
    }
}

/// The direction a `kAudioStreamPropertyDirection` value denotes:
/// zero is output, any non-zero value is input.
pub open spec fn direction_of_value(value: u32) -> StreamDirection {
    if value == 0 {
        StreamDirection::Output
    } else {
        StreamDirection::Input
    }
}

/// The opposite direction.
pub open spec fn opposite_direction(d: StreamDirection) -> StreamDirection {
    match d {
        StreamDirection::Input => StreamDirection::Output,
        StreamDirection::Output => StreamDirection::Input,
    }
}

/// The scope code a direction is keyed to.
pub open spec fn direction_scope(d: StreamDirection) -> u32 {
    match d {
        StreamDirection::Input => SCOPE_INPUT,
        StreamDirection::Output => SCOPE_OUTPUT,
    }
}

impl StreamDirection {
    /// The `kAudioStreamPropertyDirection` value the HAL expects:
    /// `1` for input, `0` for output.
    pub fn as_property_value(self) -> (r: u32)
        ensures
            r == direction_value(self),
    {
        match self {
            StreamDirection::Input => 1,
            StreamDirection::Output => 0,
        }
    }

    /// Reconstruct a direction from a `kAudioStreamPropertyDirection`
    /// value. Any non-zero value is treated as input.
    pub fn from_property_value(value: u32) -> (r: Self)
        ensures
            r == direction_of_value(value),
    {
        if value == 0 {
            StreamDirection::Output
        } else {
            StreamDirection::Input
        }
    }

    /// The [`PropertyScope`] a property access on this stream's
    /// direction is keyed to.
    pub fn scope(self) -> (r: PropertyScope)
        ensures
            r.0.0 == direction_scope(self),
    {
        match self {
            StreamDirection::Input => PropertyScope::INPUT(),
            StreamDirection::Output => PropertyScope::OUTPUT(),
        }
    }

    /// The opposite direction.
    pub fn opposite(self) -> (r: Self)
        ensures
            r == opposite_direction(self),
    {
        match self {
            StreamDirection::Input => StreamDirection::Output,
            StreamDirection::Output => StreamDirection::Input,
        }
    }
}

/// Reading a direction back from its property value gives the same
/// direction, and taking the opposite twice is the identity.
pub proof fn lemma_direction_round_trips(d: StreamDirection)
    ensures
        direction_of_value(direction_value(d)) == d,
        opposite_direction(opposite_direction(d)) == d,
        opposite_direction(d) != d,
{
}

/// A declarative description of one stream on a device.
#[derive(Copy, Clone, PartialEq, Eq, Debug, Structural)]
pub struct StreamSpec {
    /// The direction the stream carries audio.
    pub direction: StreamDirection,
    /// The 1-based channel the stream's first channel maps to within
    /// the owning device.
    pub starting_channel: u32,
    /// The stream's format.
    pub format: StreamFormat,
}

impl StreamSpec {
    /// An input stream carrying `format`, starting at channel `1`.
    pub fn input(format: StreamFormat) -> (r: Self)
        ensures
            r == (StreamSpec { direction: StreamDirection::Input, starting_channel: 1, format }),
    {
        StreamSpec { direction: StreamDirection::Input, starting_channel: 1, format }
    }

    /// An output stream carrying `format`, starting at channel `1`.
    pub fn output(format: StreamFormat) -> (r: Self)
        ensures
            r == (StreamSpec { direction: StreamDirection::Output, starting_channel: 1, format }),
    {
        StreamSpec { direction: StreamDirection::Output, starting_channel: 1, format }
    }

    /// Builder-style: set the 1-based starting channel.
    pub fn with_starting_channel(self, channel: u32) -> (r: Self)
        ensures
            r == (StreamSpec { starting_channel: channel, ..self }),
    {
        StreamSpec { starting_channel: channel, ..self }
    }

    /// Builder-style: replace the stream format.
    pub fn with_format(self, format: StreamFormat) -> (r: Self)
        ensures
            r == (StreamSpec { format, ..self }),
    {
        StreamSpec { format, ..self }
    }

    /// The direction this stream carries audio.
    pub fn direction(&self) -> (r: StreamDirection)
        ensures
            r == self.direction,
    {
        self.direction
    }

    /// The 1-based starting channel
    /// (`kAudioStreamPropertyStartingChannel`).
    pub fn starting_channel(&self) -> (r: u32)
        ensures
            r == self.starting_channel,
    {
        self.starting_channel
    }

    /// The stream's format (`kAudioStreamPropertyVirtualFormat`).
    pub fn format(&self) -> (r: StreamFormat)
        ensures
            r == self.format,
    {
        self.format
    }

    /// The stream's channel count, taken from its format.
    pub fn channels(&self) -> (r: u32)
        ensures
            r == self.format.channels_per_frame,
    {
        self.format.channels()
    }
}

} // verus!
