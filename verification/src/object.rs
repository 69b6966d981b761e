//! Audio object identifiers and the AudioServerPlugin object model.
//!
//! Every entity an AudioServerPlugin exposes — the plug-in itself,
//! its boxes, devices, streams, and controls — is an *audio object*
//! addressed by a 32-bit [`AudioObjectId`]. The HAL hands the
//! plug-in a single well-known id at startup
//! ([`AudioObjectId::PLUGIN`]) and the plug-in mints ids for every
//! object it creates.

use vstd::prelude::*;

use crate::fourcc::FourCharCode;

verus! {

/// A Core Audio object identifier (the C `AudioObjectID`).
///
/// `0` is the reserved "no object" sentinel; `1` is the fixed id the
/// HAL uses to address the plug-in object itself. Every other id is
/// minted by the plug-in as it creates boxes, devices, and streams.
#[derive(Copy, Clone, PartialEq, Eq, Hash, PartialOrd, Ord, Debug, Structural)]
pub struct AudioObjectId(pub u32);

impl AudioObjectId {
    /// `kAudioObjectUnknown` — the reserved "no object" id (`0`).
    #[allow(non_snake_case)]
    pub fn UNKNOWN() -> (r: Self)
        ensures
            r.0 == 0,
    {
        AudioObjectId(0)
    }

    /// `kAudioObjectPlugInObject` — the fixed id (`1`) by which the
    /// HAL addresses the plug-in object.
    #[allow(non_snake_case)]
    pub fn PLUGIN() -> (r: Self)
        ensures
            r.0 == 1,
    {
        AudioObjectId(1)
    }

    /// The first id (`2`) the plug-in is free to mint for its own
    /// objects; ids `0` and `1` are reserved.
    #[allow(non_snake_case)]
    pub fn FIRST_DYNAMIC() -> (r: Self)
        ensures
            r.0 == 2,
    {
        AudioObjectId(2)
    }

    /// Wrap a raw `AudioObjectID`.
    pub fn from_u32(value: u32) -> (r: Self)
        ensures
            r.0 == value,
    {
        AudioObjectId(value)
    }

    /// The raw `u32`, ready for the FFI boundary.
    pub fn as_u32(self) -> (r: u32)
        ensures
            r == self.0,
    {
        self.0
    }

    /// `true` iff this is the unknown id `0`.
    pub fn is_unknown(self) -> (r: bool)
        ensures
            r == (self.0 == 0),
    {
        self.0 == 0
    }

    /// `true` iff this is the plug-in id `1`.
    pub fn is_plugin(self) -> (r: bool)
        ensures
            r == (self.0 == 1),
    {
        self.0 == 1
    }
}

impl From<u32> for AudioObjectId {
    fn from(value: u32) -> (r: Self) {
        AudioObjectId(value)
    }
}

impl vstd::std_specs::convert::FromSpecImpl<u32> for AudioObjectId {
    open spec fn obeys_from_spec() -> bool {
        true
    }

    open spec fn from_spec(value: u32) -> Self {
        AudioObjectId(value)
    }
}

impl From<AudioObjectId> for u32 {
    fn from(value: AudioObjectId) -> (r: Self) {
        value.0
    }
}

impl vstd::std_specs::convert::FromSpecImpl<AudioObjectId> for u32 {
    open spec fn obeys_from_spec() -> bool {
        true
    }

    open spec fn from_spec(value: AudioObjectId) -> Self {
        value.0
    }
}

/// Which layer of the AudioServerPlugin object tree an id sits at.
///
/// The values mirror the `kAudio*ClassID` four-character codes.
#[derive(Copy, Clone, PartialEq, Eq, Hash, Debug, Structural)]
#[non_exhaustive]
pub enum ObjectKind {
    /// `kAudioPlugInClassID` (`'aplg'`) — the plug-in object.
    PlugIn,
    /// `kAudioBoxClassID` (`'abox'`) — a box grouping devices.
    Box,
    /// `kAudioDeviceClassID` (`'adev'`) — a device.
    Device,
    /// `kAudioStreamClassID` (`'astr'`) — one direction of audio
    /// flow on a device.
    Stream,
    /// `kAudioControlClassID` (`'actl'`) — a control.
    Control,
}

/// `kAudioObjectClassID` (`'aobj'`), the base of every class.
pub open spec fn audio_object_class() -> u32 {
    0x616F626A
}

/// The `kAudio*ClassID` code of each kind.
pub open spec fn class_code(kind: ObjectKind) -> u32 {
    match kind {
        ObjectKind::PlugIn => 0x61706C67,
        ObjectKind::Box => 0x61626F78,
        ObjectKind::Device => 0x61646576,
        ObjectKind::Stream => 0x61737472,
        ObjectKind::Control => 0x6163746C,
    }
}

impl ObjectKind {
    /// The `kAudio*ClassID` four-character code for this kind.
    pub fn class_id(self) -> (r: FourCharCode)
        ensures
            r.0 == class_code(self),
    {
        match self {
            ObjectKind::PlugIn => FourCharCode(0x61706C67),
            ObjectKind::Box => FourCharCode(0x61626F78),
            ObjectKind::Device => FourCharCode(0x61646576),
            ObjectKind::Stream => FourCharCode(0x61737472),
            ObjectKind::Control => FourCharCode(0x6163746C),
        }
    }

    /// The `kAudio*ClassID` of this kind's base class. Every class in
    /// this model bases directly on `kAudioObjectClassID` (`'aobj'`).
    pub fn base_class_id(self) -> (r: FourCharCode)
        ensures
            r.0 == audio_object_class(),
    {
        FourCharCode(0x616F626A)
    }
}

} // verus!
