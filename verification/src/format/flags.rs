//! Linear-PCM format flags, mirroring `kAudioFormatFlag*` from
//! `<CoreAudio/CoreAudioBaseTypes.h>`.

use vstd::prelude::*;

verus! {

/// `kAudioFormatFlagIsFloat` — samples are IEEE floating point.
pub const IS_FLOAT: u32 = 1;

/// `kAudioFormatFlagIsBigEndian` — samples are big-endian.
pub const IS_BIG_ENDIAN: u32 = 2;

/// `kAudioFormatFlagIsSignedInteger` — integer samples are signed.
pub const IS_SIGNED_INTEGER: u32 = 4;

/// `kAudioFormatFlagIsPacked` — every bit of the sample word is
/// significant.
pub const IS_PACKED: u32 = 8;

/// `kAudioFormatFlagIsAlignedHigh` — sample bits are aligned to the
/// high end of the sample word.
pub const IS_ALIGNED_HIGH: u32 = 16;

/// `kAudioFormatFlagIsNonInterleaved` — each channel occupies a
/// separate buffer.
pub const IS_NON_INTERLEAVED: u32 = 32;

/// `kAudioFormatFlagIsNonMixable` — the stream cannot be mixed.
pub const IS_NON_MIXABLE: u32 = 64;

} // verus!
