//! The Core Audio property protocol.
//!
//! Almost every interaction between `coreaudiod` and an
//! AudioServerPlugin is a property access, addressed by a
//! [`PropertyAddress`]: a `(selector, scope, element)` triple.
//!
//! - The [`PropertySelector`] names *what* is being asked for.
//! - The [`PropertyScope`] narrows it to a direction — global,
//!   input, or output.
//! - The [`PropertyElement`] narrows it further to a channel; `0`
//!   ([`PropertyElement::MAIN`]) addresses the object as a whole.

use vstd::prelude::*;

use crate::float_bits::{f64_le, F64Bits};
use crate::format::{StreamFormat, ASBD_SIZE};
use crate::fourcc::FourCharCode;
use crate::object::AudioObjectId;

verus! {

/// `kAudioObjectPropertyBaseClass` (`'bcls'`).
pub const SEL_BASE_CLASS: u32 = 0x62636C73;

/// `kAudioObjectPropertyClass` (`'clas'`).
pub const SEL_CLASS: u32 = 0x636C6173;

/// `kAudioObjectPropertyOwner` (`'stdv'`).
pub const SEL_OWNER: u32 = 0x73746476;

/// `kAudioObjectPropertyName` (`'lnam'`).
pub const SEL_NAME: u32 = 0x6C6E616D;

/// `kAudioObjectPropertyManufacturer` (`'lmak'`).
pub const SEL_MANUFACTURER: u32 = 0x6C6D616B;

/// `kAudioObjectPropertyOwnedObjects` (`'ownd'`).
pub const SEL_OWNED_OBJECTS: u32 = 0x6F776E64;

/// `kAudioPlugInPropertyBoxList` (`'box#'`).
pub const SEL_PLUGIN_BOX_LIST: u32 = 0x626F7823;

/// `kAudioPlugInPropertyDeviceList` (`'dev#'`).
pub const SEL_PLUGIN_DEVICE_LIST: u32 = 0x64657623;

/// `kAudioPlugInPropertyTranslateUIDToDevice` (`'uidd'`).
pub const SEL_PLUGIN_TRANSLATE_UID_TO_DEVICE: u32 = 0x75696464;

/// `kAudioPlugInPropertyResourceBundle` (`'rsrc'`).
pub const SEL_PLUGIN_RESOURCE_BUNDLE: u32 = 0x72737263;

/// `kAudioDevicePropertyDeviceUID` (`'uid '`).
pub const SEL_DEVICE_UID: u32 = 0x75696420;

/// `kAudioDevicePropertyModelUID` (`'muid'`).
pub const SEL_DEVICE_MODEL_UID: u32 = 0x6D756964;

/// `kAudioDevicePropertyTransportType` (`'tran'`).
pub const SEL_DEVICE_TRANSPORT_TYPE: u32 = 0x7472616E;

/// `kAudioDevicePropertyDeviceIsAlive` (`'livn'`).
pub const SEL_DEVICE_IS_ALIVE: u32 = 0x6C69766E;

/// `kAudioDevicePropertyDeviceIsRunning` (`'goin'`).
pub const SEL_DEVICE_IS_RUNNING: u32 = 0x676F696E;

/// `kAudioDevicePropertyStreams` (`'stm#'`).
pub const SEL_DEVICE_STREAMS: u32 = 0x73746D23;

/// `kAudioDevicePropertyNominalSampleRate` (`'nsrt'`).
pub const SEL_DEVICE_NOMINAL_SAMPLE_RATE: u32 = 0x6E737274;

/// `kAudioDevicePropertyAvailableNominalSampleRates` (`'nsr#'`).
pub const SEL_DEVICE_AVAILABLE_SAMPLE_RATES: u32 = 0x6E737223;

/// `kAudioDevicePropertyLatency` (`'ltnc'`).
pub const SEL_DEVICE_LATENCY: u32 = 0x6C746E63;

/// `kAudioDevicePropertySafetyOffset` (`'saft'`).
pub const SEL_DEVICE_SAFETY_OFFSET: u32 = 0x73616674;

/// `kAudioDevicePropertyZeroTimeStampPeriod` (`'ring'`).
pub const SEL_DEVICE_ZERO_TIMESTAMP_PERIOD: u32 = 0x72696E67;

/// `kAudioStreamPropertyDirection` (`'sdir'`).
pub const SEL_STREAM_DIRECTION: u32 = 0x73646972;

/// `kAudioStreamPropertyTerminalType` (`'term'`).
pub const SEL_STREAM_TERMINAL_TYPE: u32 = 0x7465726D;

/// `kAudioStreamPropertyStartingChannel` (`'schn'`).
pub const SEL_STREAM_STARTING_CHANNEL: u32 = 0x7363686E;

/// `kAudioStreamPropertyVirtualFormat` (`'sfmt'`).
pub const SEL_STREAM_VIRTUAL_FORMAT: u32 = 0x73666D74;

/// `kAudioStreamPropertyPhysicalFormat` (`'pft '`).
pub const SEL_STREAM_PHYSICAL_FORMAT: u32 = 0x70667420;

/// `kAudioStreamPropertyAvailableVirtualFormats` (`'sfma'`).
pub const SEL_STREAM_AVAILABLE_VIRTUAL_FORMATS: u32 = 0x73666D61;

/// `kAudioObjectPropertyScopeGlobal` (`'glob'`).
pub const SCOPE_GLOBAL: u32 = 0x676C6F62;

/// `kAudioObjectPropertyScopeInput` (`'inpt'`).
pub const SCOPE_INPUT: u32 = 0x696E7074;

/// `kAudioObjectPropertyScopeOutput` (`'outp'`).
pub const SCOPE_OUTPUT: u32 = 0x6F757470;

/// `kAudioObjectPropertyScopePlayThrough` (`'ptru'`).
pub const SCOPE_PLAY_THROUGH: u32 = 0x70747275;

/// What a property access is asking for: a four-character code.
///
/// Selectors not named here still round-trip — the dispatch simply
/// answers `kAudioHardwareUnknownPropertyError`.
#[derive(Copy, Clone, PartialEq, Eq, Hash, Debug, Structural)]
pub struct PropertySelector(pub FourCharCode);

impl PropertySelector {
    /// Build a selector from a four-character code literal.
    pub fn new(code: [u8; 4]) -> (r: Self)
        ensures
            r.0.0 == crate::fourcc::be_u32(code@),
    {
        PropertySelector(FourCharCode::new(code))
    }

    /// The underlying four-character code.
    pub fn code(self) -> (r: FourCharCode)
        ensures
            r == self.0,
    {
        self.0
    }

    /// `kAudioObjectPropertyBaseClass` (`'bcls'`).
    #[allow(non_snake_case)]
    pub fn BASE_CLASS() -> (r: Self)
        ensures
            r.0.0 == SEL_BASE_CLASS,
    {
        PropertySelector(FourCharCode(0x62636C73))
    }

    /// `kAudioObjectPropertyClass` (`'clas'`).
    #[allow(non_snake_case)]
    pub fn CLASS() -> (r: Self)
        ensures
            r.0.0 == SEL_CLASS,
    {
        PropertySelector(FourCharCode(0x636C6173))
    }

    /// `kAudioObjectPropertyOwner` (`'stdv'`).
    #[allow(non_snake_case)]
    pub fn OWNER() -> (r: Self)
        ensures
            r.0.0 == SEL_OWNER,
    {
        PropertySelector(FourCharCode(0x73746476))
    }

    /// `kAudioObjectPropertyName` (`'lnam'`).
    #[allow(non_snake_case)]
    pub fn NAME() -> (r: Self)
        ensures
            r.0.0 == SEL_NAME,
    {
        PropertySelector(FourCharCode(0x6C6E616D))
    }

    /// `kAudioObjectPropertyManufacturer` (`'lmak'`).
    #[allow(non_snake_case)]
    pub fn MANUFACTURER() -> (r: Self)
        ensures
            r.0.0 == SEL_MANUFACTURER,
    {
        PropertySelector(FourCharCode(0x6C6D616B))
    }

    /// `kAudioObjectPropertyOwnedObjects` (`'ownd'`).
    #[allow(non_snake_case)]
    pub fn OWNED_OBJECTS() -> (r: Self)
        ensures
            r.0.0 == SEL_OWNED_OBJECTS,
    {
        PropertySelector(FourCharCode(0x6F776E64))
    }

    /// `kAudioPlugInPropertyBoxList` (`'box#'`).
    #[allow(non_snake_case)]
    pub fn PLUGIN_BOX_LIST() -> (r: Self)
        ensures
            r.0.0 == SEL_PLUGIN_BOX_LIST,
    {
        PropertySelector(FourCharCode(0x626F7823))
    }

    /// `kAudioPlugInPropertyDeviceList` (`'dev#'`).
    #[allow(non_snake_case)]
    pub fn PLUGIN_DEVICE_LIST() -> (r: Self)
        ensures
            r.0.0 == SEL_PLUGIN_DEVICE_LIST,
    {
        PropertySelector(FourCharCode(0x64657623))
    }

    /// `kAudioPlugInPropertyTranslateUIDToDevice` (`'uidd'`).
    #[allow(non_snake_case)]
    pub fn PLUGIN_TRANSLATE_UID_TO_DEVICE() -> (r: Self)
        ensures
            r.0.0 == SEL_PLUGIN_TRANSLATE_UID_TO_DEVICE,
    {
        PropertySelector(FourCharCode(0x75696464))
    }

    /// `kAudioPlugInPropertyResourceBundle` (`'rsrc'`).
    #[allow(non_snake_case)]
    pub fn PLUGIN_RESOURCE_BUNDLE() -> (r: Self)
        ensures
            r.0.0 == SEL_PLUGIN_RESOURCE_BUNDLE,
    {
        PropertySelector(FourCharCode(0x72737263))
    }

    /// `kAudioDevicePropertyDeviceUID` (`'uid '`).
    #[allow(non_snake_case)]
    pub fn DEVICE_UID() -> (r: Self)
        ensures
            r.0.0 == SEL_DEVICE_UID,
    {
        PropertySelector(FourCharCode(0x75696420))
    }

    /// `kAudioDevicePropertyModelUID` (`'muid'`).
    #[allow(non_snake_case)]
    pub fn DEVICE_MODEL_UID() -> (r: Self)
        ensures
            r.0.0 == SEL_DEVICE_MODEL_UID,
    {
        PropertySelector(FourCharCode(0x6D756964))
    }

    /// `kAudioDevicePropertyTransportType` (`'tran'`).
    #[allow(non_snake_case)]
    pub fn DEVICE_TRANSPORT_TYPE() -> (r: Self)
        ensures
            r.0.0 == SEL_DEVICE_TRANSPORT_TYPE,
    {
        PropertySelector(FourCharCode(0x7472616E))
    }

    /// `kAudioDevicePropertyDeviceIsAlive` (`'livn'`).
    #[allow(non_snake_case)]
    pub fn DEVICE_IS_ALIVE() -> (r: Self)
        ensures
            r.0.0 == SEL_DEVICE_IS_ALIVE,
    {
        PropertySelector(FourCharCode(0x6C69766E))
    }

    /// `kAudioDevicePropertyDeviceIsRunning` (`'goin'`).
    #[allow(non_snake_case)]
    pub fn DEVICE_IS_RUNNING() -> (r: Self)
        ensures
            r.0.0 == SEL_DEVICE_IS_RUNNING,
    {
        PropertySelector(FourCharCode(0x676F696E))
    }

    /// `kAudioDevicePropertyStreams` (`'stm#'`).
    #[allow(non_snake_case)]
    pub fn DEVICE_STREAMS() -> (r: Self)
        ensures
            r.0.0 == SEL_DEVICE_STREAMS,
    {
        PropertySelector(FourCharCode(0x73746D23))
    }

    /// `kAudioDevicePropertyNominalSampleRate` (`'nsrt'`).
    #[allow(non_snake_case)]
    pub fn DEVICE_NOMINAL_SAMPLE_RATE() -> (r: Self)
        ensures
            r.0.0 == SEL_DEVICE_NOMINAL_SAMPLE_RATE,
    {
        PropertySelector(FourCharCode(0x6E737274))
    }

    /// `kAudioDevicePropertyAvailableNominalSampleRates` (`'nsr#'`).
    #[allow(non_snake_case)]
    pub fn DEVICE_AVAILABLE_SAMPLE_RATES() -> (r: Self)
        ensures
            r.0.0 == SEL_DEVICE_AVAILABLE_SAMPLE_RATES,
    {
        PropertySelector(FourCharCode(0x6E737223))
    }

    /// `kAudioDevicePropertyLatency` (`'ltnc'`).
    #[allow(non_snake_case)]
    pub fn DEVICE_LATENCY() -> (r: Self)
        ensures
            r.0.0 == SEL_DEVICE_LATENCY,
    {
        PropertySelector(FourCharCode(0x6C746E63))
    }

    /// `kAudioDevicePropertySafetyOffset` (`'saft'`).
    #[allow(non_snake_case)]
    pub fn DEVICE_SAFETY_OFFSET() -> (r: Self)
        ensures
            r.0.0 == SEL_DEVICE_SAFETY_OFFSET,
    {
        PropertySelector(FourCharCode(0x73616674))
    }

    /// `kAudioDevicePropertyZeroTimeStampPeriod` (`'ring'`).
    #[allow(non_snake_case)]
    pub fn DEVICE_ZERO_TIMESTAMP_PERIOD() -> (r: Self)
        ensures
            r.0.0 == SEL_DEVICE_ZERO_TIMESTAMP_PERIOD,
    {
        PropertySelector(FourCharCode(0x72696E67))
    }

    /// `kAudioStreamPropertyDirection` (`'sdir'`).
    #[allow(non_snake_case)]
    pub fn STREAM_DIRECTION() -> (r: Self)
        ensures
            r.0.0 == SEL_STREAM_DIRECTION,
    {
        PropertySelector(FourCharCode(0x73646972))
    }

    /// `kAudioStreamPropertyTerminalType` (`'term'`).
    #[allow(non_snake_case)]
    pub fn STREAM_TERMINAL_TYPE() -> (r: Self)
        ensures
            r.0.0 == SEL_STREAM_TERMINAL_TYPE,
    {
        PropertySelector(FourCharCode(0x7465726D))
    }

    /// `kAudioStreamPropertyStartingChannel` (`'schn'`).
    #[allow(non_snake_case)]
    pub fn STREAM_STARTING_CHANNEL() -> (r: Self)
        ensures
            r.0.0 == SEL_STREAM_STARTING_CHANNEL,
    {
        PropertySelector(FourCharCode(0x7363686E))
    }

    /// `kAudioStreamPropertyVirtualFormat` (`'sfmt'`).
    #[allow(non_snake_case)]
    pub fn STREAM_VIRTUAL_FORMAT() -> (r: Self)
        ensures
            r.0.0 == SEL_STREAM_VIRTUAL_FORMAT,
    {
        PropertySelector(FourCharCode(0x73666D74))
    }

    /// `kAudioStreamPropertyPhysicalFormat` (`'pft '`).
    #[allow(non_snake_case)]
    pub fn STREAM_PHYSICAL_FORMAT() -> (r: Self)
        ensures
            r.0.0 == SEL_STREAM_PHYSICAL_FORMAT,
    {
        PropertySelector(FourCharCode(0x70667420))
    }

    /// `kAudioStreamPropertyAvailableVirtualFormats` (`'sfma'`).
    #[allow(non_snake_case)]
    pub fn STREAM_AVAILABLE_VIRTUAL_FORMATS() -> (r: Self)
        ensures
            r.0.0 == SEL_STREAM_AVAILABLE_VIRTUAL_FORMATS,
    {
        PropertySelector(FourCharCode(0x73666D61))
    }
}

impl From<FourCharCode> for PropertySelector {
    fn from(code: FourCharCode) -> (r: Self) {
        PropertySelector(code)
    }
}

impl vstd::std_specs::convert::FromSpecImpl<FourCharCode> for PropertySelector {
    open spec fn obeys_from_spec() -> bool {
        true
    }

    open spec fn from_spec(code: FourCharCode) -> Self {
        PropertySelector(code)
    }
}

/// The direction a property access is scoped to: a four-character
/// code.
#[derive(Copy, Clone, PartialEq, Eq, Hash, Debug, Structural)]
pub struct PropertyScope(pub FourCharCode);

impl PropertyScope {
    /// `kAudioObjectPropertyScopeGlobal` (`'glob'`) — the property applies to the object as a whole.
    #[allow(non_snake_case)]
    pub fn GLOBAL() -> (r: Self)
        ensures
            r.0.0 == SCOPE_GLOBAL,
    {
        PropertyScope(FourCharCode(0x676C6F62))
    }

    /// `kAudioObjectPropertyScopeInput` (`'inpt'`) — the input (capture) side.
    #[allow(non_snake_case)]
    pub fn INPUT() -> (r: Self)
        ensures
            r.0.0 == SCOPE_INPUT,
    {
        PropertyScope(FourCharCode(0x696E7074))
    }

    /// `kAudioObjectPropertyScopeOutput` (`'outp'`) — the output (playback) side.
    #[allow(non_snake_case)]
    pub fn OUTPUT() -> (r: Self)
        ensures
            r.0.0 == SCOPE_OUTPUT,
    {
        PropertyScope(FourCharCode(0x6F757470))
    }

    /// `kAudioObjectPropertyScopePlayThrough` (`'ptru'`) — the play-through side.
    #[allow(non_snake_case)]
    pub fn PLAY_THROUGH() -> (r: Self)
        ensures
            r.0.0 == SCOPE_PLAY_THROUGH,
    {
        PropertyScope(FourCharCode(0x70747275))
    }

    /// The underlying four-character code.
    pub fn code(self) -> (r: FourCharCode)
        ensures
            r == self.0,
    {
        self.0
    }
}

impl From<FourCharCode> for PropertyScope {
    fn from(code: FourCharCode) -> (r: Self) {
        PropertyScope(code)
    }
}

impl vstd::std_specs::convert::FromSpecImpl<FourCharCode> for PropertyScope {
    open spec fn obeys_from_spec() -> bool {
        true
    }

    open spec fn from_spec(code: FourCharCode) -> Self {
        PropertyScope(code)
    }
}

/// The channel a property access is scoped to (the C
/// `AudioObjectPropertyElement`). Element `0` addresses the object
/// as a whole; `1`, `2`, … address individual channels.
#[derive(Copy, Clone, PartialEq, Eq, Hash, PartialOrd, Ord, Debug, Structural)]
pub struct PropertyElement(pub u32);

impl PropertyElement {
    /// `kAudioObjectPropertyElementMain` (`0`) — the whole object.
    #[allow(non_snake_case)]
    pub fn MAIN() -> (r: Self)
        ensures
            r.0 == 0,
    {
        PropertyElement(0)
    }

    /// Address channel `n` (1-based). Channel `0` is the main
    /// element.
    pub fn channel(n: u32) -> (r: Self)
        ensures
            r.0 == n,
    {
        PropertyElement(n)
    }

    /// The raw `u32`.
    pub fn as_u32(self) -> (r: u32)
        ensures
            r == self.0,
    {
        self.0
    }

    /// `true` iff this is the main element.
    pub fn is_main(self) -> (r: bool)
        ensures
            r == (self.0 == 0),
    {
        self.0 == 0
    }
}

impl From<u32> for PropertyElement {
    fn from(value: u32) -> (r: Self) {
        PropertyElement(value)
    }
}

impl vstd::std_specs::convert::FromSpecImpl<u32> for PropertyElement {
    open spec fn obeys_from_spec() -> bool {
        true
    }

    open spec fn from_spec(value: u32) -> Self {
        PropertyElement(value)
    }
}

/// A fully-qualified property address: `(selector, scope, element)`,
/// the mirror of the C `AudioObjectPropertyAddress`.
#[derive(Copy, Clone, PartialEq, Eq, Hash, Debug, Structural)]
pub struct PropertyAddress {
    /// What is being asked for.
    pub selector: PropertySelector,
    /// Which direction the access applies to.
    pub scope: PropertyScope,
    /// Which channel the access applies to.
    pub element: PropertyElement,
}

impl PropertyAddress {
    /// Construct an address from its three components.
    pub fn new(selector: PropertySelector, scope: PropertyScope, element: PropertyElement) -> (r: Self)
        ensures
            r == (PropertyAddress { selector, scope, element }),
    {
        PropertyAddress { selector, scope, element }
    }

    /// Construct a global-scope, main-element address.
    pub fn global(selector: PropertySelector) -> (r: Self)
        ensures
            r.selector == selector,
            r.scope.0.0 == SCOPE_GLOBAL,
            r.element.0 == 0,
    {
        PropertyAddress::new(selector, PropertyScope::GLOBAL(), PropertyElement::MAIN())
    }

    /// `true` iff this address is global-scope and main-element —
    /// i.e. it addresses the object as a whole.
    pub fn is_object_wide(&self) -> (r: bool)
        ensures
            r == (self.scope.0.0 == SCOPE_GLOBAL && self.element.0 == 0),
    {
        self.scope.0.0 == SCOPE_GLOBAL && self.element.is_main()
    }
}

/// An inclusive `(min, max)` range of `Float64` values (the C
/// `AudioValueRange`), each held as its bit pattern.
#[derive(Copy, Clone, PartialEq, Eq, Debug, Structural)]
pub struct ValueRange {
    /// Inclusive lower bound (`mMinimum`).
    pub min: F64Bits,
    /// Inclusive upper bound (`mMaximum`).
    pub max: F64Bits,
}

impl ValueRange {
    /// The on-the-wire size of one `AudioValueRange` — two
    /// `Float64`s.
    pub const SIZE: usize = 16;

    /// A range covering exactly the single value `v`.
    pub fn point(v: F64Bits) -> (r: Self)
        ensures
            r.min == v,
            r.max == v,
    {
        ValueRange { min: v, max: v }
    }

    /// `true` iff `min <= v <= max` (IEEE-754 comparisons, so a NaN
    /// is in no range).
    pub fn contains(&self, v: F64Bits) -> (r: bool)
        ensures
            r == (f64_le(self.min.0, v.0) && f64_le(v.0, self.max.0)),
    {
        self.min.ieee_le(v) && v.ieee_le(self.max)
    }

    /// A `min..=max` range.
    pub fn new(min: F64Bits, max: F64Bits) -> (r: Self)
        ensures
            r.min == min,
            r.max == max,
    {
        ValueRange { min, max }
    }
}

/// A typed property value crossing the Core Audio property protocol.
#[derive(Clone, PartialEq, Debug)]
pub enum PropertyValue {
    /// A 32-bit unsigned integer — class ids, flags, latencies.
    U32(u32),
    /// A single object reference.
    ObjectId(AudioObjectId),
    /// A `Float64` — sample rates.
    F64(F64Bits),
    /// A string, marshalled to a `CFStringRef` at the FFI boundary.
    Text(String),
    /// A list of object ids.
    ObjectList(Vec<AudioObjectId>),
    /// A stream format (an `AudioStreamBasicDescription`).
    Format(StreamFormat),
    /// A list of value ranges (an `AudioValueRange` array).
    RangeList(Vec<ValueRange>),
}

/// The mathematical content of a [`PropertyValue`].
pub enum ValueModel {
    U32(u32),
    ObjectId(AudioObjectId),
    F64(F64Bits),
    Text(Seq<char>),
    ObjectList(Seq<AudioObjectId>),
    Format(StreamFormat),
    RangeList(Seq<ValueRange>),
}

impl View for PropertyValue {
    type V = ValueModel;

    open spec fn view(&self) -> ValueModel {
        match self {
            PropertyValue::U32(v) => ValueModel::U32(*v),
            PropertyValue::ObjectId(id) => ValueModel::ObjectId(*id),
            PropertyValue::F64(v) => ValueModel::F64(*v),
            PropertyValue::Text(s) => ValueModel::Text(s@),
            PropertyValue::ObjectList(ids) => ValueModel::ObjectList(ids@),
            PropertyValue::Format(f) => ValueModel::Format(*f),
            PropertyValue::RangeList(rs) => ValueModel::RangeList(rs@),
        }
    }
}

/// The size of a pointer — and so of a `CFStringRef` — in bytes.
pub open spec fn pointer_size() -> nat {
    vstd::layout::size_of::<usize>()
}

/// The number of bytes a value occupies in the HAL's property
/// buffer.
pub open spec fn value_byte_size(v: ValueModel) -> nat {
    match v {
        ValueModel::U32(_) => 4,
        ValueModel::ObjectId(_) => 4,
        ValueModel::F64(_) => 8,
        ValueModel::Text(_) => pointer_size(),
        ValueModel::ObjectList(ids) => ids.len() * 4,
        ValueModel::Format(_) => 40,
        ValueModel::RangeList(rs) => rs.len() * 16,
    }
}

impl PropertyValue {
    /// The number of bytes this value occupies in the HAL's property
    /// buffer — the answer to a `GetPropertyDataSize` query.
    ///
    /// A string property reports the size of a `CFStringRef` (one
    /// pointer) regardless of the string's length.
    pub fn byte_size(&self) -> (r: usize)
        requires
            value_byte_size(self@) <= usize::MAX,
        ensures
            r == value_byte_size(self@),
    {
        match self {
            PropertyValue::U32(_) => 4,
            PropertyValue::ObjectId(_) => 4,
            PropertyValue::F64(_) => 8,
            PropertyValue::Text(_) => core::mem::size_of::<usize>(),
            PropertyValue::ObjectList(ids) => ids.len() * 4,
            PropertyValue::Format(_) => ASBD_SIZE,
            PropertyValue::RangeList(ranges) => ranges.len() * ValueRange::SIZE,
        }
    }

    /// `true` iff this value carries no elements — an empty object
    /// list or range list. Scalar values are never empty.
    pub fn is_empty(&self) -> (r: bool)
        ensures
            r == match self@ {
                ValueModel::ObjectList(ids) => ids.len() == 0,
                ValueModel::RangeList(rs) => rs.len() == 0,
                _ => false,
            },
    {
        match self {
            PropertyValue::ObjectList(ids) => ids.len() == 0,
            PropertyValue::RangeList(ranges) => ranges.len() == 0,
            _ => false,
        }
    }
}

} // verus!
