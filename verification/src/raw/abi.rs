//! Field-for-field mirrors of the AudioServerPlugin C structs.
//!
//! Type and field names follow the C declarations (`mSelector`,
//! `mSampleRate`, …) so the correspondence with
//! `<CoreAudio/AudioServerPlugIn.h>` and
//! `<CoreAudio/CoreAudioBaseTypes.h>` is mechanical. `Float64`
//! fields hold the value's bit pattern.

#![allow(non_snake_case)]
#![allow(non_camel_case_types)]

use vstd::prelude::*;

use crate::float_bits::F64Bits;

verus! {

/// C `UInt32`.
pub type UInt32 = u32;

/// C `UInt64`.
pub type UInt64 = u64;

/// C `SInt32`.
pub type SInt32 = i32;

/// C `Float64`, as its bit pattern.
pub type Float64 = F64Bits;

/// C `OSStatus`.
pub type OSStatus = i32;

/// C `Boolean` — one byte, `0` false, non-zero true.
pub type Boolean = u8;

/// POSIX `pid_t`.
pub type pid_t = i32;

/// C `AudioObjectID`.
pub type AudioObjectID = u32;

/// `AudioObjectPropertyAddress` — the `(selector, scope, element)`
/// triple that addresses one property of one object.
#[derive(Copy, Clone, PartialEq, Eq, Hash, Debug, Structural)]
pub struct AudioObjectPropertyAddress {
    /// `mSelector`.
    pub mSelector: UInt32,
    /// `mScope`.
    pub mScope: UInt32,
    /// `mElement`.
    pub mElement: UInt32,
}

/// `AudioValueRange` — an inclusive `(minimum, maximum)` pair.
#[derive(Copy, Clone, PartialEq, Eq, Debug, Structural)]
pub struct AudioValueRange {
    /// `mMinimum`.
    pub mMinimum: Float64,
    /// `mMaximum`.
    pub mMaximum: Float64,
}

/// `AudioStreamBasicDescription` — the full description of one
/// stream's sample format. `mReserved` is always zero.
#[derive(Copy, Clone, PartialEq, Eq, Debug, Structural)]
pub struct AudioStreamBasicDescription {
    /// `mSampleRate`.
    pub mSampleRate: Float64,
    /// `mFormatID`.
    pub mFormatID: UInt32,
    /// `mFormatFlags`.
    pub mFormatFlags: UInt32,
    /// `mBytesPerPacket`.
    pub mBytesPerPacket: UInt32,
    /// `mFramesPerPacket`.
    pub mFramesPerPacket: UInt32,
    /// `mBytesPerFrame`.
    pub mBytesPerFrame: UInt32,
    /// `mChannelsPerFrame`.
    pub mChannelsPerFrame: UInt32,
    /// `mBitsPerChannel`.
    pub mBitsPerChannel: UInt32,
    /// `mReserved`.
    pub mReserved: UInt32,
}

/// `SMPTETime` — an SMPTE timecode, embedded in [`AudioTimeStamp`].
#[derive(Copy, Clone, PartialEq, Eq, Hash, Debug, Default, Structural)]
pub struct SMPTETime {
    /// `mCounter`.
    pub mCounter: UInt64,
    /// `mType`.
    pub mType: UInt32,
    /// `mFlags`.
    pub mFlags: UInt32,
    /// `mHours`.
    pub mHours: i16,
    /// `mMinutes`.
    pub mMinutes: i16,
    /// `mSeconds`.
    pub mSeconds: i16,
    /// `mFrames`.
    pub mFrames: i16,
}

/// `AudioTimeStamp` — a point on Core Audio's several timelines.
#[derive(Copy, Clone, PartialEq, Eq, Debug, Structural)]
pub struct AudioTimeStamp {
    /// `mSampleTime`.
    pub mSampleTime: Float64,
    /// `mHostTime`.
    pub mHostTime: UInt64,
    /// `mRateScalar`.
    pub mRateScalar: Float64,
    /// `mWordClockTime`.
    pub mWordClockTime: UInt64,
    /// `mSMPTETime`.
    pub mSMPTETime: SMPTETime,
    /// `mFlags` — which of the above fields are valid.
    pub mFlags: UInt32,
    /// `mReserved`.
    pub mReserved: UInt32,
}

/// `AudioServerPlugInIOCycleInfo` — the timing context of one IO
/// cycle, passed to `BeginIOOperation` / `DoIOOperation` /
/// `EndIOOperation`.
#[derive(Copy, Clone, PartialEq, Eq, Debug, Structural)]
pub struct AudioServerPlugInIOCycleInfo {
    /// `mInputTime`.
    pub mInputTime: AudioTimeStamp,
    /// `mOutputTime`.
    pub mOutputTime: AudioTimeStamp,
}

/// `CFUUIDBytes` — the 16 raw bytes of a `CFUUID`.
#[derive(Copy, Clone, PartialEq, Eq, Hash, Debug, Default, Structural)]
pub struct CFUUIDBytes {
    /// Byte 0.
    pub byte0: u8,
    /// Byte 1.
    pub byte1: u8,
    /// Byte 2.
    pub byte2: u8,
    /// Byte 3.
    pub byte3: u8,
    /// Byte 4.
    pub byte4: u8,
    /// Byte 5.
    pub byte5: u8,
    /// Byte 6.
    pub byte6: u8,
    /// Byte 7.
    pub byte7: u8,
    /// Byte 8.
    pub byte8: u8,
    /// Byte 9.
    pub byte9: u8,
    /// Byte 10.
    pub byte10: u8,
    /// Byte 11.
    pub byte11: u8,
    /// Byte 12.
    pub byte12: u8,
    /// Byte 13.
    pub byte13: u8,
    /// Byte 14.
    pub byte14: u8,
    /// Byte 15.
    pub byte15: u8,
}

} // verus!
