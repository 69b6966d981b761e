//! Core Audio property dispatch.
//!
//! `coreaudiod` discovers and configures the plug-in almost entirely
//! by reading and writing properties on the objects in its
//! [`ObjectMap`]. Given the map, the driver's [`DriverInfo`], the
//! device's runtime [`DeviceState`], an object id, and a
//! [`PropertyAddress`], this module produces the typed
//! [`PropertyValue`] (or the [`OsStatus`] error the HAL expects).
//!
//! The dispatcher answers the standard properties the HAL needs to
//! enumerate and run a virtual device:
//!
//! - **Every object**: base class, class, owner, name, owned
//!   objects.
//! - **Plug-in**: manufacturer, device list, box list.
//! - **Device**: manufacturer, UID, model UID, transport type,
//!   alive / running flags, stream list, nominal and available
//!   sample rates, latency, safety offset, zero-timestamp period.
//! - **Stream**: direction, terminal type, starting channel,
//!   virtual and physical format.
//!
//! Any selector outside this set yields
//! `kAudioHardwareUnknownPropertyError`.

use vstd::prelude::*;

use crate::device::{spec_stream, DeviceSpec};
use crate::driver::DriverInfo;
use crate::error::OsStatus;
use crate::float_bits::{f64_as_u32, f64_equal, f64_to_unsigned, F64Bits};
use crate::object::{audio_object_class, class_code, AudioObjectId, ObjectKind};
use crate::objects::{object_kind, tree_device_id, tree_device_streams, tree_owned, tree_owner, tree_resolve, Object, ObjectMap};
use crate::property::{
    PropertyAddress, PropertyValue, ValueModel, ValueRange, value_byte_size, SEL_BASE_CLASS, SEL_CLASS, SEL_DEVICE_AVAILABLE_SAMPLE_RATES, SEL_DEVICE_IS_ALIVE, SEL_DEVICE_IS_RUNNING, SEL_DEVICE_LATENCY, SEL_DEVICE_MODEL_UID, SEL_DEVICE_NOMINAL_SAMPLE_RATE, SEL_DEVICE_SAFETY_OFFSET, SEL_DEVICE_STREAMS, SEL_DEVICE_TRANSPORT_TYPE, SEL_DEVICE_UID, SEL_DEVICE_ZERO_TIMESTAMP_PERIOD, SEL_MANUFACTURER, SEL_NAME, SEL_OWNED_OBJECTS, SEL_OWNER, SEL_PLUGIN_BOX_LIST, SEL_PLUGIN_DEVICE_LIST, SEL_STREAM_DIRECTION, SEL_STREAM_PHYSICAL_FORMAT, SEL_STREAM_STARTING_CHANNEL, SEL_STREAM_TERMINAL_TYPE, SEL_STREAM_VIRTUAL_FORMAT,
};
use crate::stream::{direction_value, StreamDirection};
use crate::text::push_str;

verus! {

/// `kAudioDeviceTransportTypeVirtual` (`'virt'`) — the transport
/// type every device the framework exposes reports.
pub const TRANSPORT_TYPE_VIRTUAL: u32 = 0x76697274;

/// `kAudioStreamTerminalTypeUnknown` (`0`) — the terminal type every
/// stream reports.
pub const TERMINAL_TYPE_UNKNOWN: u32 = 0;

/// `kAudioHardwareBadObjectError` (`'!obj'`).
pub open spec fn bad_object() -> OsStatus {
    OsStatus(0x216F626A)
}

/// `kAudioHardwareUnknownPropertyError` (`'who?'`).
pub open spec fn unknown_property() -> OsStatus {
    OsStatus(0x77686F3F)
}

/// `kAudioHardwareBadStreamError` (`'!str'`).
pub open spec fn bad_stream() -> OsStatus {
    OsStatus(0x21737472)
}

/// `kAudioHardwareIllegalOperationError` (`'nope'`).
pub open spec fn illegal_operation() -> OsStatus {
    OsStatus(0x6E6F7065)
}

/// `kAudioHardwareBadPropertySizeError` (`'!siz'`).
pub open spec fn bad_property_size() -> OsStatus {
    OsStatus(0x2173697A)
}

/// `kAudioDeviceUnsupportedFormatError` (`'!dat'`).
pub open spec fn unsupported_format() -> OsStatus {
    OsStatus(0x21646174)
}

/// The mutable runtime state of a device, distinct from the
/// immutable [`DeviceSpec`] the driver declared: the sample rate it
/// is running at (which the HAL can change) and whether its IO is
/// running.
#[derive(Copy, Clone, PartialEq, Eq, Debug, Structural)]
pub struct DeviceState {
    /// The sample rate the device is currently running at.
    pub sample_rate: F64Bits,
    /// `true` between the HAL's `StartIO` and `StopIO`.
    pub running: bool,
}

impl DeviceState {
    /// The initial runtime state for `spec`: its nominal sample
    /// rate, IO not yet running.
    pub fn from_spec(spec: &DeviceSpec) -> (r: Self)
        ensures
            r == (DeviceState { sample_rate: spec.sample_rate, running: false }),
    {
        DeviceState { sample_rate: spec.sample_rate(), running: false }
    }
}

/// `kAudioDevicePropertyZeroTimeStampPeriod`: the nominal sample rate
/// as a whole number of frames (`rate as u32`) — one second of
/// frames.
pub open spec fn zero_timestamp_period(spec: DeviceSpec) -> u32 {
    f64_to_unsigned(spec.sample_rate.0, u32::MAX as nat) as u32
}

/// The plug-in object's property table.
pub open spec fn plugin_value(spec: DeviceSpec, info: DriverInfo, address: PropertyAddress) -> Result<ValueModel, OsStatus> {
    let sel = address.selector.0.0;
    if sel == SEL_BASE_CLASS {
        Ok(ValueModel::U32(audio_object_class()))
    } else if sel == SEL_CLASS {
        Ok(ValueModel::U32(class_code(ObjectKind::PlugIn)))
    } else if sel == SEL_OWNER {
        Ok(ValueModel::ObjectId(AudioObjectId(0)))
    } else if sel == SEL_NAME {
        Ok(ValueModel::Text(info.name@))
    } else if sel == SEL_MANUFACTURER {
        Ok(ValueModel::Text(info.manufacturer@))
    } else if sel == SEL_OWNED_OBJECTS {
        Ok(ValueModel::ObjectList(tree_owned(spec, AudioObjectId(1), address.scope)))
    } else if sel == SEL_PLUGIN_DEVICE_LIST {
        Ok(ValueModel::ObjectList(seq![tree_device_id()]))
    } else if sel == SEL_PLUGIN_BOX_LIST {
        Ok(ValueModel::ObjectList(Seq::empty()))
    } else {
        Err(unknown_property())
    }
}

/// The device object's property table.
pub open spec fn device_value(spec: DeviceSpec, state: DeviceState, address: PropertyAddress) -> Result<ValueModel, OsStatus> {
    let sel = address.selector.0.0;
    if sel == SEL_BASE_CLASS {
        Ok(ValueModel::U32(audio_object_class()))
    } else if sel == SEL_CLASS {
        Ok(ValueModel::U32(class_code(ObjectKind::Device)))
    } else if sel == SEL_OWNER {
        Ok(ValueModel::ObjectId(AudioObjectId(1)))
    } else if sel == SEL_NAME {
        Ok(ValueModel::Text(spec.name@))
    } else if sel == SEL_MANUFACTURER {
        Ok(ValueModel::Text(spec.manufacturer@))
    } else if sel == SEL_OWNED_OBJECTS {
        Ok(ValueModel::ObjectList(tree_owned(spec, tree_device_id(), address.scope)))
    } else if sel == SEL_DEVICE_UID || sel == SEL_DEVICE_MODEL_UID {
        Ok(ValueModel::Text(spec.uid@))
    } else if sel == SEL_DEVICE_TRANSPORT_TYPE {
        Ok(ValueModel::U32(TRANSPORT_TYPE_VIRTUAL))
    } else if sel == SEL_DEVICE_IS_ALIVE {
        Ok(ValueModel::U32(1))
    } else if sel == SEL_DEVICE_IS_RUNNING {
        Ok(ValueModel::U32(if state.running { 1 } else { 0 }))
    } else if sel == SEL_DEVICE_STREAMS {
        Ok(ValueModel::ObjectList(tree_device_streams(spec, address.scope)))
    } else if sel == SEL_DEVICE_NOMINAL_SAMPLE_RATE {
        Ok(ValueModel::F64(state.sample_rate))
    } else if sel == SEL_DEVICE_AVAILABLE_SAMPLE_RATES {
        Ok(ValueModel::RangeList(seq![ValueRange { min: spec.sample_rate, max: spec.sample_rate }]))
    } else if sel == SEL_DEVICE_LATENCY || sel == SEL_DEVICE_SAFETY_OFFSET {
        Ok(ValueModel::U32(0))
    } else if sel == SEL_DEVICE_ZERO_TIMESTAMP_PERIOD {
        Ok(ValueModel::U32(zero_timestamp_period(spec)))
    } else {
        Err(unknown_property())
    }
}

/// A stream object's property table.
pub open spec fn stream_value(spec: DeviceSpec, direction: StreamDirection, address: PropertyAddress) -> Result<ValueModel, OsStatus> {
    let sel = address.selector.0.0;
    match spec_stream(spec, direction) {
        None => Err(bad_stream()),
        Some(stream) => if sel == SEL_BASE_CLASS {
            Ok(ValueModel::U32(audio_object_class()))
        } else if sel == SEL_CLASS {
            Ok(ValueModel::U32(class_code(ObjectKind::Stream)))
        } else if sel == SEL_OWNER {
            Ok(ValueModel::ObjectId(tree_device_id()))
        } else if sel == SEL_OWNED_OBJECTS {
            Ok(ValueModel::ObjectList(Seq::empty()))
        } else if sel == SEL_STREAM_DIRECTION {
            Ok(ValueModel::U32(direction_value(direction)))
        } else if sel == SEL_STREAM_TERMINAL_TYPE {
            Ok(ValueModel::U32(TERMINAL_TYPE_UNKNOWN))
        } else if sel == SEL_STREAM_STARTING_CHANNEL {
            Ok(ValueModel::U32(stream.starting_channel))
        } else if sel == SEL_STREAM_VIRTUAL_FORMAT || sel == SEL_STREAM_PHYSICAL_FORMAT {
            Ok(ValueModel::Format(stream.format))
        } else {
            Err(unknown_property())
        },
    }
}

/// The answer to a property read: `kAudioHardwareBadObjectError` for
/// an id outside the tree, otherwise the table of the object's kind.
/// The address's element is ignored; its scope matters only for the
/// owned-objects and stream-list properties.
pub open spec fn property_value(
    spec: DeviceSpec,
    info: DriverInfo,
    state: DeviceState,
    object_id: AudioObjectId,
    address: PropertyAddress,
) -> Result<ValueModel, OsStatus> {
    match tree_resolve(spec, object_id) {
        None => Err(bad_object()),
        Some(Object::PlugIn) => plugin_value(spec, info, address),
        Some(Object::Device) => device_value(spec, state, address),
        Some(Object::Stream(direction)) => stream_value(spec, direction, address),
    }
}

/// The mathematical content of a read's result.
pub open spec fn result_model(r: Result<PropertyValue, OsStatus>) -> Result<ValueModel, OsStatus> {
    match r {
        Ok(v) => Ok(v@),
        Err(e) => Err(e),
    }
}

/// The answer to a settability query: the read's error for an
/// unknown object or property, otherwise whether the property is
/// the device's nominal sample rate — the only writable one.
pub open spec fn settable_value(
    spec: DeviceSpec,
    info: DriverInfo,
    state: DeviceState,
    object_id: AudioObjectId,
    address: PropertyAddress,
) -> Result<bool, OsStatus> {
    match property_value(spec, info, state, object_id, address) {
        Err(e) => Err(e),
        Ok(_) => Ok(tree_resolve(spec, object_id) == Some(Object::Device) && address.selector.0.0
            == SEL_DEVICE_NOMINAL_SAMPLE_RATE),
    }
}

/// The `Float64` a property buffer carries in its first eight bytes
/// (little-endian, the byte order of every macOS target).
pub open spec fn buffer_f64(data: Seq<u8>) -> F64Bits {
    F64Bits(crate::le_bytes::le_u64(data.subrange(0, 8)))
}

/// The outcome of a property write: the settability query's error,
/// `kAudioHardwareIllegalOperationError` for a read-only property,
/// `kAudioHardwareBadPropertySizeError` for a buffer shorter than a
/// `Float64`, `kAudioDeviceUnsupportedFormatError` for a rate other
/// than the device's nominal one, and otherwise success with the
/// new rate.
pub open spec fn set_outcome(
    spec: DeviceSpec,
    info: DriverInfo,
    state: DeviceState,
    object_id: AudioObjectId,
    address: PropertyAddress,
    data: Seq<u8>,
) -> (Result<(), OsStatus>, DeviceState) {
    match settable_value(spec, info, state, object_id, address) {
        Err(e) => (Err(e), state),
        Ok(false) => (Err(illegal_operation()), state),
        Ok(true) => if data.len() < 8 {
            (Err(bad_property_size()), state)
        } else if !f64_equal(buffer_f64(data).0, spec.sample_rate.0) {
            (Err(unsupported_format()), state)
        } else {
            (Ok(()), DeviceState { sample_rate: buffer_f64(data), ..state })
        },
    }
}

fn text_value(s: &str) -> (r: PropertyValue)
    ensures
        r@ == ValueModel::Text(s@),
{
    let mut t = String::new();
    push_str(&mut t, s);
    PropertyValue::Text(t)
}

fn single_id(id: AudioObjectId) -> (r: Vec<AudioObjectId>)
    ensures
        r@ == seq![id],
{
    let mut v: Vec<AudioObjectId> = Vec::new();
    v.push(id);
    assert(v@ =~= seq![id]);
    v
}

fn no_ids() -> (r: Vec<AudioObjectId>)
    ensures
        r@ == Seq::<AudioObjectId>::empty(),
{
    let v: Vec<AudioObjectId> = Vec::new();
    assert(v@ =~= Seq::<AudioObjectId>::empty());
    v
}

fn plugin_property(map: &ObjectMap, info: &DriverInfo, address: &PropertyAddress) -> (r: Result<PropertyValue, OsStatus>)
    ensures
        result_model(r) == plugin_value(map@, *info, *address),
{
    let sel = address.selector.0.0;
    if sel == SEL_BASE_CLASS {
        Ok(PropertyValue::U32(ObjectKind::PlugIn.base_class_id().as_u32()))
    } else if sel == SEL_CLASS {
        Ok(PropertyValue::U32(ObjectKind::PlugIn.class_id().as_u32()))
    } else if sel == SEL_OWNER {
        Ok(PropertyValue::ObjectId(AudioObjectId::UNKNOWN()))
    } else if sel == SEL_NAME {
        Ok(text_value(info.name))
    } else if sel == SEL_MANUFACTURER {
        Ok(text_value(info.manufacturer))
    } else if sel == SEL_OWNED_OBJECTS {
        Ok(PropertyValue::ObjectList(map.owned_objects(map.plugin_id(), address.scope)))
    } else if sel == SEL_PLUGIN_DEVICE_LIST {
        Ok(PropertyValue::ObjectList(single_id(map.device_id())))
    } else if sel == SEL_PLUGIN_BOX_LIST {
        Ok(PropertyValue::ObjectList(no_ids()))
    } else {
        Err(OsStatus::UNKNOWN_PROPERTY())
    }
}

fn device_property(map: &ObjectMap, state: &DeviceState, address: &PropertyAddress) -> (r: Result<PropertyValue, OsStatus>)
    ensures
        result_model(r) == device_value(map@, *state, *address),
{
    let spec = map.spec();
    let sel = address.selector.0.0;
    if sel == SEL_BASE_CLASS {
        Ok(PropertyValue::U32(ObjectKind::Device.base_class_id().as_u32()))
    } else if sel == SEL_CLASS {
        Ok(PropertyValue::U32(ObjectKind::Device.class_id().as_u32()))
    } else if sel == SEL_OWNER {
        Ok(PropertyValue::ObjectId(map.plugin_id()))
    } else if sel == SEL_NAME {
        Ok(text_value(spec.name()))
    } else if sel == SEL_MANUFACTURER {
        Ok(text_value(spec.manufacturer()))
    } else if sel == SEL_OWNED_OBJECTS {
        Ok(PropertyValue::ObjectList(map.owned_objects(map.device_id(), address.scope)))
    } else if sel == SEL_DEVICE_UID || sel == SEL_DEVICE_MODEL_UID {
        Ok(text_value(spec.uid()))
    } else if sel == SEL_DEVICE_TRANSPORT_TYPE {
        Ok(PropertyValue::U32(TRANSPORT_TYPE_VIRTUAL))
    } else if sel == SEL_DEVICE_IS_ALIVE {
        Ok(PropertyValue::U32(1))
    } else if sel == SEL_DEVICE_IS_RUNNING {
        Ok(PropertyValue::U32(if state.running { 1 } else { 0 }))
    } else if sel == SEL_DEVICE_STREAMS {
        Ok(PropertyValue::ObjectList(map.device_streams(address.scope)))
    } else if sel == SEL_DEVICE_NOMINAL_SAMPLE_RATE {
        Ok(PropertyValue::F64(state.sample_rate))
    } else if sel == SEL_DEVICE_AVAILABLE_SAMPLE_RATES {
        let mut ranges: Vec<ValueRange> = Vec::new();
        ranges.push(ValueRange::point(spec.sample_rate()));
        assert(ranges@ =~= seq![ValueRange { min: map@.sample_rate, max: map@.sample_rate }]);
        Ok(PropertyValue::RangeList(ranges))
    } else if sel == SEL_DEVICE_LATENCY || sel == SEL_DEVICE_SAFETY_OFFSET {
        Ok(PropertyValue::U32(0))
    } else if sel == SEL_DEVICE_ZERO_TIMESTAMP_PERIOD {
        Ok(PropertyValue::U32(f64_as_u32(spec.sample_rate())))
    } else {
        Err(OsStatus::UNKNOWN_PROPERTY())
    }
}

fn stream_property(map: &ObjectMap, direction: StreamDirection, address: &PropertyAddress) -> (r: Result<PropertyValue, OsStatus>)
    ensures
        result_model(r) == stream_value(map@, direction, *address),
{
    let stream = match map.stream_spec(direction) {
        Some(s) => s,
        None => {
            return Err(OsStatus::BAD_STREAM());
        },
    };
    let sel = address.selector.0.0;
    if sel == SEL_BASE_CLASS {
        Ok(PropertyValue::U32(ObjectKind::Stream.base_class_id().as_u32()))
    } else if sel == SEL_CLASS {
        Ok(PropertyValue::U32(ObjectKind::Stream.class_id().as_u32()))
    } else if sel == SEL_OWNER {
        Ok(PropertyValue::ObjectId(map.device_id()))
    } else if sel == SEL_OWNED_OBJECTS {
        Ok(PropertyValue::ObjectList(no_ids()))
    } else if sel == SEL_STREAM_DIRECTION {
        Ok(PropertyValue::U32(direction.as_property_value()))
    } else if sel == SEL_STREAM_TERMINAL_TYPE {
        Ok(PropertyValue::U32(TERMINAL_TYPE_UNKNOWN))
    } else if sel == SEL_STREAM_STARTING_CHANNEL {
        Ok(PropertyValue::U32(stream.starting_channel()))
    } else if sel == SEL_STREAM_VIRTUAL_FORMAT || sel == SEL_STREAM_PHYSICAL_FORMAT {
        Ok(PropertyValue::Format(stream.format()))
    } else {
        Err(OsStatus::UNKNOWN_PROPERTY())
    }
}

/// Read a property's value: `kAudioHardwareBadObjectError` if
/// `object_id` is not in the tree, `kAudioHardwareUnknownPropertyError`
/// if the object does not have the addressed property, and the typed
/// value otherwise (see [`property_value`]).
pub fn get_property_data(
    map: &ObjectMap,
    info: &DriverInfo,
    state: &DeviceState,
    object_id: AudioObjectId,
    address: &PropertyAddress,
) -> (r: Result<PropertyValue, OsStatus>)
    ensures
        result_model(r) == property_value(map@, *info, *state, object_id, *address),
{
    match map.resolve(object_id) {
        None => Err(OsStatus::BAD_OBJECT()),
        Some(Object::PlugIn) => plugin_property(map, info, address),
        Some(Object::Device) => device_property(map, state, address),
        Some(Object::Stream(direction)) => stream_property(map, direction, address),
    }
}

/// Every value the dispatcher produces is small: its byte size fits
/// comfortably in a `usize` (and a `u32`).
pub proof fn lemma_value_size_small(
    spec: DeviceSpec,
    info: DriverInfo,
    state: DeviceState,
    object_id: AudioObjectId,
    address: PropertyAddress,
)
    ensures
        property_value(spec, info, state, object_id, address) matches Ok(v) ==> value_byte_size(v)
            <= 64,
{
    broadcast use vstd::layout::layout_of_primitives;

    assert(vstd::layout::size_of::<usize>() * 8 == usize::BITS);
}

/// The size, in bytes, a property's value occupies in the HAL's
/// buffer — the answer to a `GetPropertyDataSize` query. Fails with
/// the same errors as [`get_property_data`].
pub fn property_data_size(
    map: &ObjectMap,
    info: &DriverInfo,
    state: &DeviceState,
    object_id: AudioObjectId,
    address: &PropertyAddress,
) -> (r: Result<usize, OsStatus>)
    ensures
        match property_value(map@, *info, *state, object_id, *address) {
            Ok(v) => r == Ok::<usize, OsStatus>(value_byte_size(v) as usize),
            Err(e) => r == Err::<usize, OsStatus>(e),
        },
{
    proof {
        lemma_value_size_small(map@, *info, *state, object_id, *address);
    }
    match get_property_data(map, info, state, object_id, address) {
        Ok(value) => Ok(value.byte_size()),
        Err(e) => Err(e),
    }
}

/// Whether a property can be written with `SetPropertyData`: the
/// read's error for an unknown object or property, otherwise `true`
/// only for the device's nominal sample rate.
pub fn is_property_settable(
    map: &ObjectMap,
    info: &DriverInfo,
    state: &DeviceState,
    object_id: AudioObjectId,
    address: &PropertyAddress,
) -> (r: Result<bool, OsStatus>)
    ensures
        r == settable_value(map@, *info, *state, object_id, *address),
{
    match get_property_data(map, info, state, object_id, address) {
        Err(e) => Err(e),
        Ok(_) => {
            let object = map.resolve(object_id);
            let is_device = match object {
                Some(Object::Device) => true,
                _ => false,
            };
            Ok(is_device && address.selector.0.0 == SEL_DEVICE_NOMINAL_SAMPLE_RATE)
        },
    }
}

/// Read the `Float64` at the head of a HAL property buffer, or
/// `kAudioHardwareBadPropertySizeError` if the buffer is shorter
/// than eight bytes.
fn read_f64(data: &[u8]) -> (r: Result<F64Bits, OsStatus>)
    ensures
        data@.len() < 8 ==> r == Err::<F64Bits, OsStatus>(bad_property_size()),
        data@.len() >= 8 ==> r == Ok::<F64Bits, OsStatus>(buffer_f64(data@)),
{
    if data.len() < 8 {
        return Err(OsStatus::BAD_PROPERTY_SIZE());
    }
    Ok(F64Bits(crate::le_bytes::read_le_u64(data, 0)))
}

/// Write a property's value from the HAL's raw `SetPropertyData`
/// buffer. The only writable property is the device's nominal sample
/// rate, carried as a `Float64`; a fixed-rate virtual device accepts
/// only its nominal rate. On success the new rate is stored in
/// `state`; on any failure `state` is unchanged (see
/// [`set_outcome`]).
pub fn set_property_data(
    map: &ObjectMap,
    info: &DriverInfo,
    state: &mut DeviceState,
    object_id: AudioObjectId,
    address: &PropertyAddress,
    data: &[u8],
) -> (r: Result<(), OsStatus>)
    ensures
        (r, *final(state)) == set_outcome(map@, *info, *old(state), object_id, *address, data@),
{
    match is_property_settable(map, info, state, object_id, address) {
        Err(e) => {
            return Err(e);
        },
        Ok(false) => {
            return Err(OsStatus::ILLEGAL_OPERATION());
        },
        Ok(true) => {},
    }
    let rate = match read_f64(data) {
        Ok(rate) => rate,
        Err(e) => {
            return Err(e);
        },
    };
    if !rate.ieee_eq(map.spec().sample_rate()) {
        return Err(OsStatus::UNSUPPORTED_FORMAT());
    }
    state.sample_rate = rate;
    Ok(())
}

/// The read-after-write law: once a write of the nominal sample rate
/// succeeds, reading the rate back gives the value written, and the
/// running flag is untouched.
pub proof fn lemma_sample_rate_read_after_write(
    spec: DeviceSpec,
    info: DriverInfo,
    state: DeviceState,
    object_id: AudioObjectId,
    address: PropertyAddress,
    data: Seq<u8>,
    read_address: PropertyAddress,
)
    requires
        set_outcome(spec, info, state, object_id, address, data).0 is Ok,
        read_address.selector.0.0 == SEL_DEVICE_NOMINAL_SAMPLE_RATE,
    ensures
        property_value(
            spec,
            info,
            set_outcome(spec, info, state, object_id, address, data).1,
            tree_device_id(),
            read_address,
        ) == Ok::<ValueModel, OsStatus>(ValueModel::F64(buffer_f64(data))),
        set_outcome(spec, info, state, object_id, address, data).1.running == state.running,
{
}

/// A failed write changes nothing.
pub proof fn lemma_failed_write_changes_nothing(
    spec: DeviceSpec,
    info: DriverInfo,
    state: DeviceState,
    object_id: AudioObjectId,
    address: PropertyAddress,
    data: Seq<u8>,
)
    requires
        set_outcome(spec, info, state, object_id, address, data).0 is Err,
    ensures
        set_outcome(spec, info, state, object_id, address, data).1 == state,
{
}

/// The dispatcher agrees with the object tree: every object in the
/// tree reports its tree owner as `kAudioObjectPropertyOwner`, its
/// tree children as `kAudioObjectPropertyOwnedObjects`, and its
/// kind's class id as `kAudioObjectPropertyClass`; an id outside the
/// tree is a bad object for every property.
pub proof fn lemma_dispatch_agrees_with_tree(
    spec: DeviceSpec,
    info: DriverInfo,
    state: DeviceState,
    object_id: AudioObjectId,
    address: PropertyAddress,
)
    ensures
        tree_resolve(spec, object_id) is None ==> property_value(spec, info, state, object_id, address)
            == Err::<ValueModel, OsStatus>(bad_object()),
        tree_resolve(spec, object_id) matches Some(o) ==> (address.selector.0.0 == SEL_OWNER ==> property_value(
            spec,
            info,
            state,
            object_id,
            address,
        ) == Ok::<ValueModel, OsStatus>(ValueModel::ObjectId(tree_owner(spec, object_id)->0))),
        tree_resolve(spec, object_id) matches Some(o) ==> (address.selector.0.0 == SEL_CLASS ==> property_value(
            spec,
            info,
            state,
            object_id,
            address,
        ) == Ok::<ValueModel, OsStatus>(ValueModel::U32(class_code(object_kind(o))))),
        tree_resolve(spec, object_id) matches Some(o) ==> (address.selector.0.0 == SEL_OWNED_OBJECTS
            ==> property_value(spec, info, state, object_id, address) == Ok::<ValueModel, OsStatus>(
            ValueModel::ObjectList(tree_owned(spec, object_id, address.scope)),
        )),
{
    match tree_resolve(spec, object_id) {
        Some(Object::PlugIn) => {
            assert(object_id == AudioObjectId(1));
        },
        Some(Object::Device) => {},
        Some(Object::Stream(d)) => {
            assert(spec_stream(spec, d) is Some);
        },
        None => {},
    }
}

/// The size law: a `GetPropertyDataSize` answer is the byte size of
/// the value a `GetPropertyData` read returns, and only the device's
/// nominal sample rate is settable.
pub proof fn lemma_size_and_settable_follow_the_read(
    spec: DeviceSpec,
    info: DriverInfo,
    state: DeviceState,
    object_id: AudioObjectId,
    address: PropertyAddress,
)
    ensures
        settable_value(spec, info, state, object_id, address) == Ok::<bool, OsStatus>(true) ==> (
        object_id == tree_device_id() && address.selector.0.0 == SEL_DEVICE_NOMINAL_SAMPLE_RATE),
        settable_value(spec, info, state, object_id, address) is Err <==> property_value(
            spec,
            info,
            state,
            object_id,
            address,
        ) is Err,
{
}

} // verus!
