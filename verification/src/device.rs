//! Device abstraction.
//!
//! A *device* is the audio endpoint an AudioServerPlugin exposes to
//! the system. A device owns one or more [`StreamSpec`]s (its input
//! and/or output) and carries the metadata the HAL surfaces through
//! the device property protocol: the UID, the human-readable name,
//! the nominal sample rate.

use vstd::prelude::*;

use crate::float_bits::F64Bits;
use crate::object::AudioObjectId;
use crate::stream::{StreamDirection, StreamSpec};

verus! {

/// A device's identifier within the plug-in's object tree.
#[derive(Copy, Clone, PartialEq, Eq, Hash, PartialOrd, Ord, Debug, Structural)]
pub struct DeviceId(pub AudioObjectId);

impl DeviceId {
    /// Wrap a raw `AudioObjectID`.
    pub fn from_u32(value: u32) -> (r: Self)
        ensures
            r.0.0 == value,
    {
        DeviceId(AudioObjectId::from_u32(value))
    }

    /// The underlying [`AudioObjectId`].
    pub fn object_id(self) -> (r: AudioObjectId)
        ensures
            r == self.0,
    {
        self.0
    }

    /// The raw `u32`, ready for the FFI boundary.
    pub fn as_u32(self) -> (r: u32)
        ensures
            r == self.0.0,
    {
        self.0.as_u32()
    }
}

impl From<AudioObjectId> for DeviceId {
    fn from(value: AudioObjectId) -> (r: Self) {
        DeviceId(value)
    }
}

impl vstd::std_specs::convert::FromSpecImpl<AudioObjectId> for DeviceId {
    open spec fn obeys_from_spec() -> bool {
        true
    }

    open spec fn from_spec(value: AudioObjectId) -> Self {
        DeviceId(value)
    }
}

/// The bit pattern of `48_000.0_f64`, the default nominal rate.
pub open spec fn default_sample_rate() -> u64 {
    0x40E7_7000_0000_0000
}

/// A declarative description of one device a driver exposes.
///
/// A device with only an output stream is a virtual speaker; with
/// only an input stream, a virtual microphone; with both, a loopback
/// device.
#[derive(Copy, Clone, PartialEq, Eq, Debug)]
pub struct DeviceSpec {
    /// The stable, globally-unique device identifier
    /// (`kAudioDevicePropertyDeviceUID`).
    pub uid: &'static str,
    /// The human-readable name (`kAudioObjectPropertyName`).
    pub name: &'static str,
    /// The manufacturer (`kAudioObjectPropertyManufacturer`).
    pub manufacturer: &'static str,
    /// The nominal sample rate
    /// (`kAudioDevicePropertyNominalSampleRate`).
    pub sample_rate: F64Bits,
    /// The input stream, if any.
    pub input: Option<StreamSpec>,
    /// The output stream, if any.
    pub output: Option<StreamSpec>,
}

/// The stream of a device for a direction.
pub open spec fn spec_stream(spec: DeviceSpec, direction: StreamDirection) -> Option<StreamSpec> {
    match direction {
        StreamDirection::Input => spec.input,
        StreamDirection::Output => spec.output,
    }
}

/// The number of streams a device has.
pub open spec fn spec_stream_count(spec: DeviceSpec) -> nat {
    (if spec.input is Some { 1nat } else { 0nat }) + (if spec.output is Some { 1nat } else { 0nat })
}

impl DeviceSpec {
    /// Begin a device description with the mandatory identity
    /// fields, no streams, and a nominal rate of 48 000 Hz.
    pub fn new(uid: &'static str, name: &'static str, manufacturer: &'static str) -> (r: Self)
        ensures
            r == (DeviceSpec {
                uid,
                name,
                manufacturer,
                sample_rate: F64Bits(default_sample_rate()),
                input: None,
                output: None,
            }),
    {
        DeviceSpec {
            uid,
            name,
            manufacturer,
            sample_rate: F64Bits(0x40E7_7000_0000_0000),
            input: None,
            output: None,
        }
    }

    /// Builder-style: set the nominal sample rate.
    pub fn with_sample_rate(self, sample_rate: F64Bits) -> (r: Self)
        ensures
            r == (DeviceSpec { sample_rate, ..self }),
    {
        DeviceSpec { sample_rate, ..self }
    }

    /// Builder-style: attach an input stream, replacing any previous
    /// one.
    pub fn with_input(self, stream: StreamSpec) -> (r: Self)
        ensures
            r == (DeviceSpec { input: Some(stream), ..self }),
    {
        DeviceSpec { input: Some(stream), ..self }
    }

    /// Builder-style: attach an output stream, replacing any previous
    /// one.
    pub fn with_output(self, stream: StreamSpec) -> (r: Self)
        ensures
            r == (DeviceSpec { output: Some(stream), ..self }),
    {
        DeviceSpec { output: Some(stream), ..self }
    }

    /// The stable device UID.
    pub fn uid(&self) -> (r: &'static str)
        ensures
            r == self.uid,
    {
        self.uid
    }

    /// The human-readable device name.
    pub fn name(&self) -> (r: &'static str)
        ensures
            r == self.name,
    {
        self.name
    }

    /// The manufacturer string.
    pub fn manufacturer(&self) -> (r: &'static str)
        ensures
            r == self.manufacturer,
    {
        self.manufacturer
    }

    /// The nominal sample rate.
    pub fn sample_rate(&self) -> (r: F64Bits)
        ensures
            r == self.sample_rate,
    {
        self.sample_rate
    }

    /// The input stream, if this device has one.
    pub fn input(&self) -> (r: Option<StreamSpec>)
        ensures
            r == self.input,
    {
        self.input
    }

    /// The output stream, if this device has one.
    pub fn output(&self) -> (r: Option<StreamSpec>)
        ensures
            r == self.output,
    {
        self.output
    }

    /// The stream for `direction`, if this device has one.
    pub fn stream(&self, direction: StreamDirection) -> (r: Option<StreamSpec>)
        ensures
            r == spec_stream(*self, direction),
    {
        match direction {
            StreamDirection::Input => self.input,
            StreamDirection::Output => self.output,
        }
    }

    /// Number of streams on this device (`0`, `1`, or `2`).
    pub fn stream_count(&self) -> (r: usize)
        ensures
            r == spec_stream_count(*self),
    {
        let mut n: usize = 0;
        if self.input.is_some() {
            n += 1;
        }
        if self.output.is_some() {
            n += 1;
        }
        n
    }

    /// `true` iff this device has both an input and an output
    /// stream — i.e. it is a loopback device.
    pub fn is_loopback(&self) -> (r: bool)
        ensures
            r == (self.input is Some && self.output is Some),
    {
        self.input.is_some() && self.output.is_some()
    }
}

/// A device the framework has admitted into the object tree: the
/// assigned [`DeviceId`] paired with the declared [`DeviceSpec`].
#[derive(Copy, Clone, PartialEq, Eq, Debug)]
pub struct Device {
    /// The framework-assigned device id.
    pub id: DeviceId,
    /// The declarative spec the driver supplied.
    pub spec: DeviceSpec,
}

impl Device {
    /// Pair an id with a spec.
    pub fn new(id: DeviceId, spec: DeviceSpec) -> (r: Self)
        ensures
            r == (Device { id, spec }),
    {
        Device { id, spec }
    }

    /// The framework-assigned device id.
    pub fn id(&self) -> (r: DeviceId)
        ensures
            r == self.id,
    {
        self.id
    }

    /// The declarative spec the driver supplied.
    pub fn spec(&self) -> (r: &DeviceSpec)
        ensures
            *r == self.spec,
    {
        &self.spec
    }
}

} // verus!
