//! Marshalling between the C ABI mirrors, the HAL's raw property
//! buffers, and the framework's typed values.
//!
//! A text value crosses the ABI as a `CFStringRef` — a
//! CoreFoundation object pointer that only CoreFoundation can
//! create — so [`write_property_value`] rejects it; the FFI layer
//! handles that value first. Every other value is plain bytes, laid
//! out little-endian as on every macOS target.

use vstd::prelude::*;

use crate::error::OsStatus;
use crate::float_bits::F64Bits;
use crate::format::StreamFormat;
use crate::fourcc::FourCharCode;
use crate::io::Timestamp;
use crate::le_bytes::{
    le_bytes_u32, le_bytes_u64, le_u32, le_u64, lemma_u32_round_trip, lemma_u64_round_trip,
    read_le_u32, read_le_u64, write_le_u32, write_le_u64,
};
use crate::object::AudioObjectId;
use crate::property::{value_byte_size, PropertyAddress, PropertyElement, PropertyScope, PropertySelector, PropertyValue, ValueModel, ValueRange};
use crate::raw::abi::{AudioObjectPropertyAddress, AudioStreamBasicDescription, AudioTimeStamp, AudioValueRange, SMPTETime};

verus! {

/// `kAudioHardwareBadPropertySizeError` (`'!siz'`).
pub open spec fn bad_property_size() -> OsStatus {
    OsStatus(0x2173697A)
}

/// `kAudioHardwareUnspecifiedError` (`'what'`).
pub open spec fn unspecified() -> OsStatus {
    OsStatus(0x77686174)
}

/// The typed address a raw `AudioObjectPropertyAddress` carries.
pub open spec fn address_of(raw: AudioObjectPropertyAddress) -> PropertyAddress {
    PropertyAddress {
        selector: PropertySelector(FourCharCode(raw.mSelector)),
        scope: PropertyScope(FourCharCode(raw.mScope)),
        element: PropertyElement(raw.mElement),
    }
}

/// The raw `AudioObjectPropertyAddress` of a typed address.
pub open spec fn raw_address_of(a: PropertyAddress) -> AudioObjectPropertyAddress {
    AudioObjectPropertyAddress { mSelector: a.selector.0.0, mScope: a.scope.0.0, mElement: a.element.0 }
}

/// Convert a raw [`AudioObjectPropertyAddress`] into the typed
/// [`PropertyAddress`].
pub fn address_from_raw(raw: &AudioObjectPropertyAddress) -> (r: PropertyAddress)
    ensures
        r == address_of(*raw),
        r.selector.0.0 == raw.mSelector,
        r.scope.0.0 == raw.mScope,
        r.element.0 == raw.mElement,
{
    PropertyAddress::new(
        PropertySelector::from(FourCharCode::from_u32(raw.mSelector)),
        PropertyScope::from(FourCharCode::from_u32(raw.mScope)),
        PropertyElement::from(raw.mElement),
    )
}

/// Convert a typed [`PropertyAddress`] into the raw
/// [`AudioObjectPropertyAddress`].
pub fn address_to_raw(address: &PropertyAddress) -> (r: AudioObjectPropertyAddress)
    ensures
        r == raw_address_of(*address),
        r.mSelector == address.selector.0.0,
        r.mScope == address.scope.0.0,
        r.mElement == address.element.0,
{
    AudioObjectPropertyAddress {
        mSelector: address.selector.code().as_u32(),
        mScope: address.scope.code().as_u32(),
        mElement: address.element.as_u32(),
    }
}

/// The raw description of a format, with `mReserved` zero.
pub open spec fn asbd_of(f: StreamFormat) -> AudioStreamBasicDescription {
    AudioStreamBasicDescription {
        mSampleRate: f.sample_rate,
        mFormatID: f.format_id,
        mFormatFlags: f.format_flags,
        mBytesPerPacket: f.bytes_per_packet,
        mFramesPerPacket: f.frames_per_packet,
        mBytesPerFrame: f.bytes_per_frame,
        mChannelsPerFrame: f.channels_per_frame,
        mBitsPerChannel: f.bits_per_channel,
        mReserved: 0,
    }
}

/// The format a raw description carries (`mReserved` dropped).
pub open spec fn format_of(a: AudioStreamBasicDescription) -> StreamFormat {
    StreamFormat {
        sample_rate: a.mSampleRate,
        format_id: a.mFormatID,
        format_flags: a.mFormatFlags,
        bytes_per_packet: a.mBytesPerPacket,
        frames_per_packet: a.mFramesPerPacket,
        bytes_per_frame: a.mBytesPerFrame,
        channels_per_frame: a.mChannelsPerFrame,
        bits_per_channel: a.mBitsPerChannel,
    }
}

/// Convert a raw [`AudioStreamBasicDescription`] into the typed
/// [`StreamFormat`].
pub fn format_from_asbd(asbd: &AudioStreamBasicDescription) -> (r: StreamFormat)
    ensures
        r == format_of(*asbd),
{
    StreamFormat::from_raw(
        asbd.mSampleRate,
        asbd.mFormatID,
        asbd.mFormatFlags,
        asbd.mBytesPerPacket,
        asbd.mFramesPerPacket,
        asbd.mBytesPerFrame,
        asbd.mChannelsPerFrame,
        asbd.mBitsPerChannel,
    )
}

/// Convert a typed [`StreamFormat`] into a raw
/// [`AudioStreamBasicDescription`], with `mReserved` zeroed.
pub fn format_to_asbd(format: &StreamFormat) -> (r: AudioStreamBasicDescription)
    ensures
        r == asbd_of(*format),
{
    AudioStreamBasicDescription {
        mSampleRate: format.sample_rate(),
        mFormatID: format.format_id(),
        mFormatFlags: format.format_flags(),
        mBytesPerPacket: format.bytes_per_packet(),
        mFramesPerPacket: format.frames_per_packet(),
        mBytesPerFrame: format.bytes_per_frame(),
        mChannelsPerFrame: format.channels(),
        mBitsPerChannel: format.bits_per_channel(),
        mReserved: 0,
    }
}

/// Convert a raw [`AudioValueRange`] into the typed [`ValueRange`].
pub fn range_from_raw(raw: &AudioValueRange) -> (r: ValueRange)
    ensures
        r.min == raw.mMinimum,
        r.max == raw.mMaximum,
{
    ValueRange::new(raw.mMinimum, raw.mMaximum)
}

/// Convert a typed [`ValueRange`] into a raw [`AudioValueRange`].
pub fn range_to_raw(range: &ValueRange) -> (r: AudioValueRange)
    ensures
        r.mMinimum == range.min,
        r.mMaximum == range.max,
{
    AudioValueRange { mMinimum: range.min, mMaximum: range.max }
}

/// Extract the typed [`Timestamp`] from a raw [`AudioTimeStamp`]:
/// only the sample time and host time are carried.
pub fn timestamp_from_raw(raw: &AudioTimeStamp) -> (r: Timestamp)
    ensures
        r.sample_time == raw.mSampleTime,
        r.host_time == raw.mHostTime,
{
    Timestamp::new(raw.mSampleTime, raw.mHostTime)
}

/// `kAudioTimeStampSampleTimeValid | kAudioTimeStampHostTimeValid`.
pub const SAMPLE_HOST_TIME_VALID: u32 = 3;

/// Build a raw [`AudioTimeStamp`] from a typed [`Timestamp`]: the
/// sample-time and host-time fields are filled, the rest zeroed, and
/// the flags mark exactly those two as valid.
pub fn timestamp_to_raw(timestamp: &Timestamp) -> (r: AudioTimeStamp)
    ensures
        r == (AudioTimeStamp {
            mSampleTime: timestamp.sample_time,
            mHostTime: timestamp.host_time,
            mRateScalar: F64Bits(0),
            mWordClockTime: 0,
            mSMPTETime: SMPTETime {
                mCounter: 0,
                mType: 0,
                mFlags: 0,
                mHours: 0,
                mMinutes: 0,
                mSeconds: 0,
                mFrames: 0,
            },
            mFlags: SAMPLE_HOST_TIME_VALID,
            mReserved: 0,
        }),
{
    AudioTimeStamp {
        mSampleTime: timestamp.sample_time,
        mHostTime: timestamp.host_time,
        mRateScalar: F64Bits(0),
        mWordClockTime: 0,
        mSMPTETime: SMPTETime {
            mCounter: 0,
            mType: 0,
            mFlags: 0,
            mHours: 0,
            mMinutes: 0,
            mSeconds: 0,
            mFrames: 0,
        },
        mFlags: SAMPLE_HOST_TIME_VALID,
        mReserved: 0,
    }
}

/// Read the `u32` at the head of a HAL property buffer, or
/// `kAudioHardwareBadPropertySizeError` if it is shorter than four
/// bytes.
pub fn read_u32(buf: &[u8]) -> (r: Result<u32, OsStatus>)
    ensures
        buf@.len() < 4 ==> r == Err::<u32, OsStatus>(bad_property_size()),
        buf@.len() >= 4 ==> r == Ok::<u32, OsStatus>(le_u32(buf@.subrange(0, 4))),
{
    if buf.len() < 4 {
        return Err(OsStatus::BAD_PROPERTY_SIZE());
    }
    Ok(read_le_u32(buf, 0))
}

/// Read the `Float64` at the head of a HAL property buffer, or
/// `kAudioHardwareBadPropertySizeError` if it is shorter than eight
/// bytes.
pub fn read_f64(buf: &[u8]) -> (r: Result<F64Bits, OsStatus>)
    ensures
        buf@.len() < 8 ==> r == Err::<F64Bits, OsStatus>(bad_property_size()),
        buf@.len() >= 8 ==> r == Ok::<F64Bits, OsStatus>(F64Bits(le_u64(buf@.subrange(0, 8)))),
{
    if buf.len() < 8 {
        return Err(OsStatus::BAD_PROPERTY_SIZE());
    }
    Ok(F64Bits(read_le_u64(buf, 0)))
}

/// The 40 bytes of an `AudioStreamBasicDescription`: the `Float64`
/// rate then eight `UInt32`s in declaration order.
pub open spec fn asbd_bytes(a: AudioStreamBasicDescription) -> Seq<u8> {
    le_bytes_u64(a.mSampleRate.0) + le_bytes_u32(a.mFormatID) + le_bytes_u32(a.mFormatFlags)
        + le_bytes_u32(a.mBytesPerPacket) + le_bytes_u32(a.mFramesPerPacket) + le_bytes_u32(
        a.mBytesPerFrame,
    ) + le_bytes_u32(a.mChannelsPerFrame) + le_bytes_u32(a.mBitsPerChannel) + le_bytes_u32(
        a.mReserved,
    )
}

/// The format a 40-byte description buffer carries.
pub open spec fn format_from_bytes(b: Seq<u8>) -> StreamFormat {
    StreamFormat {
        sample_rate: F64Bits(le_u64(b.subrange(0, 8))),
        format_id: le_u32(b.subrange(8, 12)),
        format_flags: le_u32(b.subrange(12, 16)),
        bytes_per_packet: le_u32(b.subrange(16, 20)),
        frames_per_packet: le_u32(b.subrange(20, 24)),
        bytes_per_frame: le_u32(b.subrange(24, 28)),
        channels_per_frame: le_u32(b.subrange(28, 32)),
        bits_per_channel: le_u32(b.subrange(32, 36)),
    }
}

/// Read an `AudioStreamBasicDescription` from the head of a HAL
/// property buffer as a [`StreamFormat`], or
/// `kAudioHardwareBadPropertySizeError` if the buffer is shorter
/// than 40 bytes.
pub fn read_asbd(buf: &[u8]) -> (r: Result<StreamFormat, OsStatus>)
    ensures
        buf@.len() < 40 ==> r == Err::<StreamFormat, OsStatus>(bad_property_size()),
        buf@.len() >= 40 ==> r == Ok::<StreamFormat, OsStatus>(format_from_bytes(buf@)),
{
    if buf.len() < 40 {
        return Err(OsStatus::BAD_PROPERTY_SIZE());
    }
    Ok(StreamFormat::from_raw(
        F64Bits(read_le_u64(buf, 0)),
        read_le_u32(buf, 8),
        read_le_u32(buf, 12),
        read_le_u32(buf, 16),
        read_le_u32(buf, 20),
        read_le_u32(buf, 24),
        read_le_u32(buf, 28),
        read_le_u32(buf, 32),
    ))
}

/// The bytes of an object-id list: each id's `u32`, in order.
pub open spec fn ids_bytes(ids: Seq<AudioObjectId>) -> Seq<u8>
    decreases ids.len(),
{
    if ids.len() == 0 {
        Seq::empty()
    } else {
        ids_bytes(ids.drop_last()) + le_bytes_u32(ids.last().0)
    }
}

/// The bytes of a range list: each range's minimum then maximum.
pub open spec fn ranges_bytes(rs: Seq<ValueRange>) -> Seq<u8>
    decreases rs.len(),
{
    if rs.len() == 0 {
        Seq::empty()
    } else {
        ranges_bytes(rs.drop_last()) + le_bytes_u64(rs.last().min.0) + le_bytes_u64(rs.last().max.0)
    }
}

/// The bytes a non-text value occupies in the HAL's buffer.
pub open spec fn value_bytes(v: ValueModel) -> Seq<u8> {
    match v {
        ValueModel::U32(x) => le_bytes_u32(x),
        ValueModel::ObjectId(id) => le_bytes_u32(id.0),
        ValueModel::F64(x) => le_bytes_u64(x.0),
        ValueModel::ObjectList(ids) => ids_bytes(ids),
        ValueModel::Format(f) => asbd_bytes(asbd_of(f)),
        ValueModel::RangeList(rs) => ranges_bytes(rs),
        ValueModel::Text(_) => Seq::empty(),
    }
}

proof fn lemma_ids_bytes_len(ids: Seq<AudioObjectId>)
    ensures
        ids_bytes(ids).len() == ids.len() * 4,
    decreases ids.len(),
{
    if ids.len() > 0 {
        lemma_ids_bytes_len(ids.drop_last());
    }
}

proof fn lemma_ranges_bytes_len(rs: Seq<ValueRange>)
    ensures
        ranges_bytes(rs).len() == rs.len() * 16,
    decreases rs.len(),
{
    if rs.len() > 0 {
        lemma_ranges_bytes_len(rs.drop_last());
    }
}

/// Write an object-id list's bytes at the head of `buf`.
fn write_ids(ids: &Vec<AudioObjectId>, buf: &mut [u8])
    requires
        ids@.len() * 4 <= old(buf)@.len(),
    ensures
        final(buf)@ == ids_bytes(ids@) + old(buf)@.subrange(ids@.len() * 4 as int, old(buf)@.len() as int),
{
    let len = buf.len();
    let n = ids.len();
    let mut i: usize = 0;
    while i < n
        invariant
            n == ids@.len(),
            i <= n,
            len == old(buf)@.len(),
            n * 4 <= len,
            buf@.len() == len,
            buf@ == ids_bytes(ids@.take(i as int)) + old(buf)@.subrange(i * 4, len as int),
        decreases n - i,
    {
        proof {
            lemma_ids_bytes_len(ids@.take(i as int));
        }
        let ghost before = buf@;
        write_le_u32(buf, i * 4, ids[i].as_u32());
        proof {
            assert(ids@.take(i + 1).drop_last() =~= ids@.take(i as int));
            assert(ids@.take(i + 1).last() == ids@[i as int]);
            assert(before.subrange(0, i * 4) =~= ids_bytes(ids@.take(i as int)));
            assert(before.subrange(i * 4 + 4, len as int) =~= old(buf)@.subrange(
                (i + 1) * 4,
                len as int,
            ));
            assert(buf@ =~= ids_bytes(ids@.take(i + 1)) + old(buf)@.subrange(
                (i + 1) * 4,
                len as int,
            ));
        }
        i += 1;
    }
    assert(ids@.take(n as int) =~= ids@);
}

/// Write a range list's bytes at the head of `buf`.
fn write_ranges(ranges: &Vec<ValueRange>, buf: &mut [u8])
    requires
        ranges@.len() * 16 <= old(buf)@.len(),
    ensures
        final(buf)@ == ranges_bytes(ranges@) + old(buf)@.subrange(
            ranges@.len() * 16 as int,
            old(buf)@.len() as int,
        ),
{
    let len = buf.len();
    let n = ranges.len();
    let mut i: usize = 0;
    while i < n
        invariant
            n == ranges@.len(),
            i <= n,
            len == old(buf)@.len(),
            n * 16 <= len,
            buf@.len() == len,
            buf@ == ranges_bytes(ranges@.take(i as int)) + old(buf)@.subrange(i * 16, len as int),
        decreases n - i,
    {
        proof {
            lemma_ranges_bytes_len(ranges@.take(i as int));
        }
        let ghost before = buf@;
        let range = ranges[i];
        write_le_u64(buf, i * 16, range.min.to_bits());
        let ghost middle = buf@;
        write_le_u64(buf, i * 16 + 8, range.max.to_bits());
        proof {
            assert(ranges@.take(i + 1).drop_last() =~= ranges@.take(i as int));
            assert(ranges@.take(i + 1).last() == ranges@[i as int]);
            assert(before.subrange(0, i * 16) =~= ranges_bytes(ranges@.take(i as int)));
            assert(buf@ =~= ranges_bytes(ranges@.take(i + 1)) + old(buf)@.subrange(
                (i + 1) * 16,
                len as int,
            ));
        }
        i += 1;
    }
    assert(ranges@.take(n as int) =~= ranges@);
}

/// Write an `AudioStreamBasicDescription`'s 40 bytes at the head of
/// `buf`.
fn write_asbd(asbd: &AudioStreamBasicDescription, buf: &mut [u8])
    requires
        old(buf)@.len() >= 40,
    ensures
        final(buf)@ == asbd_bytes(*asbd) + old(buf)@.subrange(40, old(buf)@.len() as int),
{
    write_le_u64(buf, 0, asbd.mSampleRate.to_bits());
    write_le_u32(buf, 8, asbd.mFormatID);
    write_le_u32(buf, 12, asbd.mFormatFlags);
    write_le_u32(buf, 16, asbd.mBytesPerPacket);
    write_le_u32(buf, 20, asbd.mFramesPerPacket);
    write_le_u32(buf, 24, asbd.mBytesPerFrame);
    write_le_u32(buf, 28, asbd.mChannelsPerFrame);
    write_le_u32(buf, 32, asbd.mBitsPerChannel);
    write_le_u32(buf, 36, asbd.mReserved);
    assert(buf@ =~= asbd_bytes(*asbd) + old(buf)@.subrange(40, old(buf)@.len() as int));
}

/// Serialise a [`PropertyValue`] into a HAL property buffer and
/// return the number of bytes written.
///
/// A buffer smaller than the value's size gets
/// `kAudioHardwareBadPropertySizeError`; a text value (which crosses
/// the ABI as a `CFStringRef`) gets `kAudioHardwareUnspecifiedError`.
/// Otherwise the value's bytes ([`value_bytes`]) are written at the
/// head of the buffer and the rest of the buffer is left as it was.
/// On an error the buffer is unchanged.
pub fn write_property_value(value: &PropertyValue, buf: &mut [u8]) -> (r: Result<usize, OsStatus>)
    requires
        value_byte_size(value@) <= usize::MAX,
    ensures
        old(buf)@.len() < value_byte_size(value@) ==> r == Err::<usize, OsStatus>(
            bad_property_size(),
        ) && final(buf)@ == old(buf)@,
        old(buf)@.len() >= value_byte_size(value@) && value@ is Text ==> r == Err::<
            usize,
            OsStatus,
        >(unspecified()) && final(buf)@ == old(buf)@,
        old(buf)@.len() >= value_byte_size(value@) && !(value@ is Text) ==> r == Ok::<
            usize,
            OsStatus,
        >(value_byte_size(value@) as usize) && final(buf)@ == value_bytes(value@) + old(
            buf,
        )@.subrange(value_byte_size(value@) as int, old(buf)@.len() as int),
{
    let needed = value.byte_size();
    if buf.len() < needed {
        return Err(OsStatus::BAD_PROPERTY_SIZE());
    }
    match value {
        PropertyValue::U32(v) => {
            write_le_u32(buf, 0, *v);
        },
        PropertyValue::ObjectId(id) => {
            write_le_u32(buf, 0, id.as_u32());
        },
        PropertyValue::F64(v) => {
            write_le_u64(buf, 0, v.to_bits());
        },
        PropertyValue::ObjectList(ids) => {
            write_ids(ids, buf);
        },
        PropertyValue::Format(format) => {
            write_asbd(&format_to_asbd(format), buf);
        },
        PropertyValue::RangeList(ranges) => {
            write_ranges(ranges, buf);
        },
        PropertyValue::Text(_) => {
            return Err(OsStatus::UNSPECIFIED());
        },
    }
    Ok(needed)
}

/// Writing a format into a buffer and reading it back gives the
/// format.
#[verifier::spinoff_prover]
#[verifier::rlimit(60)]
pub proof fn lemma_format_bytes_round_trip(f: StreamFormat, rest: Seq<u8>)
    ensures
        format_from_bytes(asbd_bytes(asbd_of(f)) + rest) == f,
{
    let b = asbd_bytes(asbd_of(f)) + rest;
    lemma_u64_round_trip(f.sample_rate.0);
    lemma_u32_round_trip(f.format_id);
    lemma_u32_round_trip(f.format_flags);
    lemma_u32_round_trip(f.bytes_per_packet);
    lemma_u32_round_trip(f.frames_per_packet);
    lemma_u32_round_trip(f.bytes_per_frame);
    lemma_u32_round_trip(f.channels_per_frame);
    lemma_u32_round_trip(f.bits_per_channel);
    assert(b.subrange(0, 8) =~= le_bytes_u64(f.sample_rate.0));
    assert(b.subrange(8, 12) =~= le_bytes_u32(f.format_id));
    assert(b.subrange(12, 16) =~= le_bytes_u32(f.format_flags));
    assert(b.subrange(16, 20) =~= le_bytes_u32(f.bytes_per_packet));
    assert(b.subrange(20, 24) =~= le_bytes_u32(f.frames_per_packet));
    assert(b.subrange(24, 28) =~= le_bytes_u32(f.bytes_per_frame));
    assert(b.subrange(28, 32) =~= le_bytes_u32(f.channels_per_frame));
    assert(b.subrange(32, 36) =~= le_bytes_u32(f.bits_per_channel));
}

/// Writing a scalar into a buffer and reading it back gives the
/// scalar.
pub proof fn lemma_scalar_bytes_round_trip(x: u32, y: u64, rest: Seq<u8>)
    ensures
        le_u32((le_bytes_u32(x) + rest).subrange(0, 4)) == x,
        le_u64((le_bytes_u64(y) + rest).subrange(0, 8)) == y,
{
    lemma_u32_round_trip(x);
    lemma_u64_round_trip(y);
    assert((le_bytes_u32(x) + rest).subrange(0, 4) =~= le_bytes_u32(x));
    assert((le_bytes_u64(y) + rest).subrange(0, 8) =~= le_bytes_u64(y));
}

/// A raw address and a typed one convert into each other losslessly,
/// and so do a raw description and a format.
pub proof fn lemma_conversions_round_trip(raw: AudioObjectPropertyAddress, a: PropertyAddress, f: StreamFormat)
    ensures
        raw_address_of(address_of(raw)) == raw,
        address_of(raw_address_of(a)) == a,
        format_of(asbd_of(f)) == f,
{
}

/// The description round trip through a property buffer: after
/// [`write_property_value`] stored a format in a buffer of at least
/// 40 bytes, [`read_asbd`] of that buffer reads the same format back.
#[verifier::spinoff_prover]
#[verifier::rlimit(40)]
pub proof fn lemma_asbd_write_then_read(f: StreamFormat, before: Seq<u8>, after: Seq<u8>)
    requires
        before.len() >= 40,
        after == value_bytes(ValueModel::Format(f)) + before.subrange(40, before.len() as int),
    ensures
        after.len() >= 40,
        format_from_bytes(after) == f,
{
    let rest = before.subrange(40, before.len() as int);
    let head = asbd_bytes(asbd_of(f));
    assert(value_bytes(ValueModel::Format(f)) == head);
    assert(head.len() == 40);
    lemma_format_bytes_round_trip(f, rest);
}

} // verus!
