//! Audio stream formats.
//!
//! [`StreamFormat`] mirrors the Core Audio
//! `AudioStreamBasicDescription` (ASBD) — the struct that describes
//! the sample rate, sample type, channel count, and byte layout of
//! one stream. The canonical interchange format is 32-bit IEEE
//! float, packed, native-endian, interleaved linear PCM;
//! [`StreamFormat::float32`] builds exactly that.

use vstd::prelude::*;

use crate::float_bits::F64Bits;

pub mod flags;

verus! {

/// `kAudioFormatLinearPCM` (`'lpcm'`) — uncompressed linear PCM.
pub const FORMAT_LINEAR_PCM: u32 = 0x6C70636D;

/// The on-the-wire size of a C `AudioStreamBasicDescription`: one
/// `Float64` plus seven `UInt32`s plus the trailing reserved
/// `UInt32` — `8 + 8 * 4 = 40` bytes.
pub const ASBD_SIZE: usize = 40;

/// The sample type and width of a linear-PCM stream.
#[derive(Copy, Clone, PartialEq, Eq, Hash, Debug, Structural)]
#[non_exhaustive]
pub enum SampleFormat {
    /// 16-bit signed integer samples.
    Int16,
    /// 24-bit signed integer samples packed into 3-byte words.
    Int24,
    /// 32-bit signed integer samples.
    Int32,
    /// 32-bit IEEE float samples — the canonical interchange format.
    Float32,
}

/// Bits per sample of each sample format.
pub open spec fn sample_bits(s: SampleFormat) -> u32 {
    match s {
        SampleFormat::Int16 => 16,
        SampleFormat::Int24 => 24,
        SampleFormat::Int32 => 32,
        SampleFormat::Float32 => 32,
    }
}

/// Bytes per packed sample of each sample format.
pub open spec fn sample_bytes(s: SampleFormat) -> u32 {
    match s {
        SampleFormat::Int16 => 2,
        SampleFormat::Int24 => 3,
        SampleFormat::Int32 => 4,
        SampleFormat::Float32 => 4,
    }
}

/// The `kAudioFormatFlag*` set of each sample format for a packed,
/// interleaved, native-endian stream.
pub open spec fn sample_flags(s: SampleFormat) -> u32 {
    match s {
        SampleFormat::Float32 => flags::IS_FLOAT | flags::IS_PACKED,
        _ => flags::IS_SIGNED_INTEGER | flags::IS_PACKED,
    }
}

impl SampleFormat {
    /// Bits per individual sample (one channel of one frame).
    pub fn bits_per_channel(self) -> (r: u32)
        ensures
            r == sample_bits(self),
    {
        match self {
            SampleFormat::Int16 => 16,
            SampleFormat::Int24 => 24,
            SampleFormat::Int32 => 32,
            SampleFormat::Float32 => 32,
        }
    }

    /// Bytes occupied by one sample in a packed stream.
    pub fn bytes_per_channel(self) -> (r: u32)
        ensures
            r == sample_bytes(self),
    {
        match self {
            SampleFormat::Int16 => 2,
            SampleFormat::Int24 => 3,
            SampleFormat::Int32 => 4,
            SampleFormat::Float32 => 4,
        }
    }

    /// The `kAudioFormatFlag*` bits this sample format implies for a
    /// packed, interleaved, native-endian stream.
    pub fn format_flags(self) -> (r: u32)
        ensures
            r == sample_flags(self),
    {
        match self {
            SampleFormat::Float32 => flags::IS_FLOAT | flags::IS_PACKED,
            SampleFormat::Int16 | SampleFormat::Int24 | SampleFormat::Int32 => flags::IS_SIGNED_INTEGER
                | flags::IS_PACKED,
        }
    }
}

/// A mirror of `AudioStreamBasicDescription`, with the sample rate
/// held as its `Float64` bit pattern.
#[derive(Copy, Clone, PartialEq, Eq, Debug, Structural)]
pub struct StreamFormat {
    /// `mSampleRate` — frames per second.
    pub sample_rate: F64Bits,
    /// `mFormatID` — the encoding identifier.
    pub format_id: u32,
    /// `mFormatFlags` — the `kAudioFormatFlag*` bit set.
    pub format_flags: u32,
    /// `mBytesPerPacket`.
    pub bytes_per_packet: u32,
    /// `mFramesPerPacket`.
    pub frames_per_packet: u32,
    /// `mBytesPerFrame`.
    pub bytes_per_frame: u32,
    /// `mChannelsPerFrame`.
    pub channels_per_frame: u32,
    /// `mBitsPerChannel`.
    pub bits_per_channel: u32,
}

/// The packed, interleaved, native-endian linear-PCM format of a
/// sample type, rate, and channel count.
pub open spec fn linear_pcm_format(sample: SampleFormat, sample_rate: F64Bits, channels: u32) -> StreamFormat {
    StreamFormat {
        sample_rate,
        format_id: FORMAT_LINEAR_PCM,
        format_flags: sample_flags(sample),
        bytes_per_packet: (sample_bytes(sample) * channels) as u32,
        frames_per_packet: 1,
        bytes_per_frame: (sample_bytes(sample) * channels) as u32,
        channels_per_frame: channels,
        bits_per_channel: sample_bits(sample),
    }
}

/// The standard sample format a format carries, if it is one of the
/// four packed interleaved layouts.
pub open spec fn format_sample_format(f: StreamFormat) -> Option<SampleFormat> {
    if f.format_id != FORMAT_LINEAR_PCM || f.format_flags & flags::IS_PACKED == 0 {
        None
    } else if f.bits_per_channel == 16 && f.format_flags == sample_flags(SampleFormat::Int16) {
        Some(SampleFormat::Int16)
    } else if f.bits_per_channel == 24 && f.format_flags == sample_flags(SampleFormat::Int24) {
        Some(SampleFormat::Int24)
    } else if f.bits_per_channel == 32 && f.format_flags == sample_flags(SampleFormat::Int32) {
        Some(SampleFormat::Int32)
    } else if f.bits_per_channel == 32 && f.format_flags == sample_flags(SampleFormat::Float32) {
        Some(SampleFormat::Float32)
    } else {
        None
    }
}

impl StreamFormat {
    /// Construct a format directly from the ASBD fields (`mReserved`
    /// excluded — it is always zero).
    #[allow(clippy::too_many_arguments)]
    pub fn from_raw(
        sample_rate: F64Bits,
        format_id: u32,
        format_flags: u32,
        bytes_per_packet: u32,
        frames_per_packet: u32,
        bytes_per_frame: u32,
        channels_per_frame: u32,
        bits_per_channel: u32,
    ) -> (r: Self)
        ensures
            r == (StreamFormat {
                sample_rate,
                format_id,
                format_flags,
                bytes_per_packet,
                frames_per_packet,
                bytes_per_frame,
                channels_per_frame,
                bits_per_channel,
            }),
    {
        StreamFormat {
            sample_rate,
            format_id,
            format_flags,
            bytes_per_packet,
            frames_per_packet,
            bytes_per_frame,
            channels_per_frame,
            bits_per_channel,
        }
    }

    /// Build a packed, interleaved, native-endian linear-PCM format
    /// from a [`SampleFormat`].
    pub fn linear_pcm(sample: SampleFormat, sample_rate: F64Bits, channels: u32) -> (r: Self)
        requires
            sample_bytes(sample) * channels <= u32::MAX,
        ensures
            r == linear_pcm_format(sample, sample_rate, channels),
    {
        let bytes_per_frame = sample.bytes_per_channel() * channels;
        StreamFormat {
            sample_rate,
            format_id: FORMAT_LINEAR_PCM,
            format_flags: sample.format_flags(),
            bytes_per_packet: bytes_per_frame,
            frames_per_packet: 1,
            bytes_per_frame,
            channels_per_frame: channels,
            bits_per_channel: sample.bits_per_channel(),
        }
    }

    /// 32-bit IEEE float interleaved linear PCM — the canonical
    /// interchange format.
    pub fn float32(sample_rate: F64Bits, channels: u32) -> (r: Self)
        requires
            4 * channels <= u32::MAX,
        ensures
            r == linear_pcm_format(SampleFormat::Float32, sample_rate, channels),
    {
        Self::linear_pcm(SampleFormat::Float32, sample_rate, channels)
    }

    /// 16-bit signed integer interleaved linear PCM.
    pub fn int16(sample_rate: F64Bits, channels: u32) -> (r: Self)
        requires
            2 * channels <= u32::MAX,
        ensures
            r == linear_pcm_format(SampleFormat::Int16, sample_rate, channels),
    {
        Self::linear_pcm(SampleFormat::Int16, sample_rate, channels)
    }

    /// 24-bit signed integer interleaved linear PCM.
    pub fn int24(sample_rate: F64Bits, channels: u32) -> (r: Self)
        requires
            3 * channels <= u32::MAX,
        ensures
            r == linear_pcm_format(SampleFormat::Int24, sample_rate, channels),
    {
        Self::linear_pcm(SampleFormat::Int24, sample_rate, channels)
    }

    /// 32-bit signed integer interleaved linear PCM.
    pub fn int32(sample_rate: F64Bits, channels: u32) -> (r: Self)
        requires
            4 * channels <= u32::MAX,
        ensures
            r == linear_pcm_format(SampleFormat::Int32, sample_rate, channels),
    {
        Self::linear_pcm(SampleFormat::Int32, sample_rate, channels)
    }

    /// `mSampleRate` — frames per second.
    pub fn sample_rate(&self) -> (r: F64Bits)
        ensures
            r == self.sample_rate,
    {
        self.sample_rate
    }

    /// `mFormatID` — the codec / encoding identifier.
    pub fn format_id(&self) -> (r: u32)
        ensures
            r == self.format_id,
    {
        self.format_id
    }

    /// `mFormatFlags` — the `kAudioFormatFlag*` bit set.
    pub fn format_flags(&self) -> (r: u32)
        ensures
            r == self.format_flags,
    {
        self.format_flags
    }

    /// `mBytesPerPacket`.
    pub fn bytes_per_packet(&self) -> (r: u32)
        ensures
            r == self.bytes_per_packet,
    {
        self.bytes_per_packet
    }

    /// `mFramesPerPacket`.
    pub fn frames_per_packet(&self) -> (r: u32)
        ensures
            r == self.frames_per_packet,
    {
        self.frames_per_packet
    }

    /// `mBytesPerFrame` — bytes for one frame across all channels.
    pub fn bytes_per_frame(&self) -> (r: u32)
        ensures
            r == self.bytes_per_frame,
    {
        self.bytes_per_frame
    }

    /// `mChannelsPerFrame` — the channel count.
    pub fn channels(&self) -> (r: u32)
        ensures
            r == self.channels_per_frame,
    {
        self.channels_per_frame
    }

    /// `mBitsPerChannel` — significant bits per sample.
    pub fn bits_per_channel(&self) -> (r: u32)
        ensures
            r == self.bits_per_channel,
    {
        self.bits_per_channel
    }

    /// `true` iff this is a linear-PCM stream.
    pub fn is_linear_pcm(&self) -> (r: bool)
        ensures
            r == (self.format_id == FORMAT_LINEAR_PCM),
    {
        self.format_id == FORMAT_LINEAR_PCM
    }

    /// `true` iff the samples are IEEE floating point.
    pub fn is_float(&self) -> (r: bool)
        ensures
            r == (self.format_flags & flags::IS_FLOAT != 0),
    {
        self.format_flags & flags::IS_FLOAT != 0
    }

    /// `true` iff every bit of the sample word is significant.
    pub fn is_packed(&self) -> (r: bool)
        ensures
            r == (self.format_flags & flags::IS_PACKED != 0),
    {
        self.format_flags & flags::IS_PACKED != 0
    }

    /// `true` iff each channel occupies its own buffer.
    pub fn is_non_interleaved(&self) -> (r: bool)
        ensures
            r == (self.format_flags & flags::IS_NON_INTERLEAVED != 0),
    {
        self.format_flags & flags::IS_NON_INTERLEAVED != 0
    }

    /// Identify the [`SampleFormat`] of this stream, or `None` if it
    /// is not one of the four standard packed layouts: the first of
    /// `Int16`, `Int24`, `Int32`, `Float32` whose bit width and flag
    /// set both match.
    pub fn sample_format(&self) -> (r: Option<SampleFormat>)
        ensures
            r == format_sample_format(*self),
    {
        if !self.is_linear_pcm() || !self.is_packed() {
            return None;
        }
        let candidates: [SampleFormat; 4] = [
            SampleFormat::Int16,
            SampleFormat::Int24,
            SampleFormat::Int32,
            SampleFormat::Float32,
        ];
        let mut i: usize = 0;
        while i < 4
            invariant
                i <= 4,
                candidates@ == seq![
                    SampleFormat::Int16,
                    SampleFormat::Int24,
                    SampleFormat::Int32,
                    SampleFormat::Float32,
                ],
                self.format_id == FORMAT_LINEAR_PCM,
                self.format_flags & flags::IS_PACKED != 0,
                forall|j: int|
                    0 <= j < i ==> !(sample_bits(#[trigger] candidates@[j]) == self.bits_per_channel
                        && sample_flags(candidates@[j]) == self.format_flags),
            decreases 4 - i,
        {
            let candidate = candidates[i];
            if candidate.bits_per_channel() == self.bits_per_channel
                && candidate.format_flags() == self.format_flags {
                return Some(candidate);
            }
            i += 1;
        }
        None
    }

    /// `true` iff this is the canonical interchange format: packed,
    /// interleaved 32-bit float linear PCM.
    pub fn is_canonical(&self) -> (r: bool)
        ensures
            r == (format_sample_format(*self) == Some(SampleFormat::Float32)
                && self.format_flags & flags::IS_NON_INTERLEAVED == 0),
    {
        match self.sample_format() {
            Some(SampleFormat::Float32) => !self.is_non_interleaved(),
            _ => false,
        }
    }
}

/// Every layout [`StreamFormat::linear_pcm`] builds is recognised as
/// the sample format it was built from, and it is the canonical
/// interchange format exactly when that sample format is `Float32`.
pub proof fn lemma_sample_format_round_trip(sample: SampleFormat, sample_rate: F64Bits, channels: u32)
    requires
        sample_bytes(sample) * channels <= u32::MAX,
    ensures
        format_sample_format(linear_pcm_format(sample, sample_rate, channels)) == Some(sample),
        (format_sample_format(linear_pcm_format(sample, sample_rate, channels)) == Some(SampleFormat::Float32)
            && linear_pcm_format(sample, sample_rate, channels).format_flags & flags::IS_NON_INTERLEAVED == 0)
            <==> sample == SampleFormat::Float32,
{
    assert((1u32 | 8u32) & 8u32 != 0 && (4u32 | 8u32) & 8u32 != 0) by (bit_vector);
    assert((1u32 | 8u32) & 32u32 == 0 && (4u32 | 8u32) & 32u32 == 0) by (bit_vector);
    assert((1u32 | 8u32) != (4u32 | 8u32)) by (bit_vector);
}

/// The outcome of a stream-format negotiation.
#[derive(Copy, Clone, PartialEq, Eq, Debug, Structural)]
pub enum FormatNegotiation {
    /// The proposed format is supported; adopt it unchanged.
    Accept,
    /// The proposed format is not supported; this alternative is.
    Suggest(StreamFormat),
    /// The proposed format is not supported and no alternative is
    /// offered.
    Reject,
}

} // verus!
