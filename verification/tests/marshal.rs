use tympan_aspl::float_bits::F64Bits;
use tympan_aspl::raw::abi::{AudioTimeStamp, SMPTETime};
use tympan_aspl::raw::marshal::{
    address_from_raw, address_to_raw, format_from_asbd, format_to_asbd, range_from_raw,
    range_to_raw, read_asbd, read_f64, read_u32, timestamp_from_raw, timestamp_to_raw,
    write_property_value,
};
use tympan_aspl::{
    AudioObjectId, OsStatus, PropertyAddress, PropertyElement, PropertyScope, PropertySelector,
    PropertyValue, StreamFormat, Timestamp, ValueRange,
};

fn f(x: f64) -> F64Bits {
    F64Bits::from_bits(x.to_bits())
}

fn blank_timestamp() -> AudioTimeStamp {
    AudioTimeStamp {
        mSampleTime: f(0.0),
        mHostTime: 0,
        mRateScalar: f(0.0),
        mWordClockTime: 0,
        mSMPTETime: SMPTETime::default(),
        mFlags: 0,
        mReserved: 0,
    }
}

#[test]
fn property_address_round_trips() {
    let address = PropertyAddress::new(
        PropertySelector::DEVICE_NOMINAL_SAMPLE_RATE(),
        PropertyScope::INPUT(),
        PropertyElement::channel(2),
    );
    let raw = address_to_raw(&address);
    assert_eq!(raw.mSelector, address.selector.code().as_u32());
    assert_eq!(raw.mScope, PropertyScope::INPUT().code().as_u32());
    assert_eq!(raw.mElement, 2);
    assert_eq!(address_from_raw(&raw), address);
}

#[test]
fn stream_format_round_trips_through_asbd() {
    for format in [
        StreamFormat::float32(f(48_000.0), 2),
        StreamFormat::int16(f(44_100.0), 1),
        StreamFormat::int24(f(96_000.0), 6),
    ] {
        let asbd = format_to_asbd(&format);
        assert_eq!(asbd.mReserved, 0);
        assert_eq!(asbd.mSampleRate, format.sample_rate());
        assert_eq!(asbd.mChannelsPerFrame, format.channels());
        assert_eq!(format_from_asbd(&asbd), format);
    }
}

#[test]
fn value_range_round_trips() {
    let range = ValueRange::new(f(44_100.0), f(96_000.0));
    let raw = range_to_raw(&range);
    assert_eq!(raw.mMinimum, f(44_100.0));
    assert_eq!(raw.mMaximum, f(96_000.0));
    assert_eq!(range_from_raw(&raw), range);
}

#[test]
fn timestamp_extracts_sample_and_host_time() {
    let raw = AudioTimeStamp {
        mSampleTime: f(128.0),
        mHostTime: 999_999,
        mRateScalar: f(1.0),
        ..blank_timestamp()
    };
    let ts = timestamp_from_raw(&raw);
    assert_eq!(ts.sample_time, f(128.0));
    assert_eq!(ts.host_time, 999_999);
}

#[test]
fn timestamp_to_raw_marks_the_two_fields_valid() {
    let raw = timestamp_to_raw(&Timestamp::new(f(256.0), 42));
    assert_eq!(raw.mSampleTime, f(256.0));
    assert_eq!(raw.mHostTime, 42);
    assert_eq!(raw.mFlags, 0b11);
    assert_eq!(f64::from_bits(raw.mRateScalar.to_bits()), 0.0);
}

#[test]
fn read_u32_and_f64_parse_native_endian() {
    assert_eq!(read_u32(&1234u32.to_ne_bytes()), Ok(1234));
    assert_eq!(read_f64(&48_000.0f64.to_ne_bytes()), Ok(f(48_000.0)));
    let mut padded = vec![0u8; 16];
    padded[..4].copy_from_slice(&7u32.to_ne_bytes());
    assert_eq!(read_u32(&padded), Ok(7));
}

#[test]
fn read_scalars_reject_short_buffers() {
    assert_eq!(read_u32(&[0u8; 3]), Err(OsStatus::BAD_PROPERTY_SIZE()));
    assert_eq!(read_f64(&[0u8; 7]), Err(OsStatus::BAD_PROPERTY_SIZE()));
    assert_eq!(read_asbd(&[0u8; 39]), Err(OsStatus::BAD_PROPERTY_SIZE()));
}

#[test]
fn asbd_round_trips_through_a_buffer() {
    let format = StreamFormat::float32(f(48_000.0), 2);
    let value = PropertyValue::Format(format);
    let mut buf = vec![0u8; 64];
    let written = write_property_value(&value, &mut buf).unwrap();
    assert_eq!(written, 40);
    assert_eq!(read_asbd(&buf).unwrap(), format);
}

#[test]
fn write_u32_value() {
    let mut buf = [0u8; 4];
    assert_eq!(
        write_property_value(&PropertyValue::U32(0xABCD), &mut buf),
        Ok(4)
    );
    assert_eq!(u32::from_ne_bytes(buf), 0xABCD);
}

#[test]
fn write_object_id_value() {
    let mut buf = [0u8; 4];
    let id = AudioObjectId::from_u32(7);
    assert_eq!(
        write_property_value(&PropertyValue::ObjectId(id), &mut buf),
        Ok(4)
    );
    assert_eq!(u32::from_ne_bytes(buf), 7);
}

#[test]
fn write_f64_value() {
    let mut buf = [0u8; 8];
    assert_eq!(
        write_property_value(&PropertyValue::F64(f(96_000.0)), &mut buf),
        Ok(8)
    );
    assert_eq!(f64::from_ne_bytes(buf), 96_000.0);
}

#[test]
fn write_object_list_value() {
    let ids = vec![
        AudioObjectId::from_u32(2),
        AudioObjectId::from_u32(3),
        AudioObjectId::from_u32(4),
    ];
    let mut buf = vec![0u8; 12];
    assert_eq!(
        write_property_value(&PropertyValue::ObjectList(ids), &mut buf),
        Ok(12)
    );
    assert_eq!(read_u32(&buf[0..4]), Ok(2));
    assert_eq!(read_u32(&buf[4..8]), Ok(3));
    assert_eq!(read_u32(&buf[8..12]), Ok(4));
}

#[test]
fn write_range_list_value() {
    let ranges = vec![
        ValueRange::point(f(48_000.0)),
        ValueRange::new(f(44_100.0), f(96_000.0)),
    ];
    let mut buf = vec![0u8; 32];
    assert_eq!(
        write_property_value(&PropertyValue::RangeList(ranges), &mut buf),
        Ok(32)
    );
    assert_eq!(read_f64(&buf[0..8]), Ok(f(48_000.0)));
    assert_eq!(read_f64(&buf[8..16]), Ok(f(48_000.0)));
    assert_eq!(read_f64(&buf[16..24]), Ok(f(44_100.0)));
    assert_eq!(read_f64(&buf[24..32]), Ok(f(96_000.0)));
}

#[test]
fn write_rejects_an_undersized_buffer() {
    let mut buf = [0u8; 3];
    assert_eq!(
        write_property_value(&PropertyValue::U32(1), &mut buf),
        Err(OsStatus::BAD_PROPERTY_SIZE())
    );
}

#[test]
fn write_rejects_text_values() {
    let mut buf = vec![0u8; 64];
    assert_eq!(
        write_property_value(&PropertyValue::Text("Device".into()), &mut buf),
        Err(OsStatus::UNSPECIFIED())
    );
}

#[test]
fn write_accepts_an_oversized_buffer_and_reports_the_used_length() {
    let mut buf = vec![0u8; 100];
    assert_eq!(
        write_property_value(&PropertyValue::F64(f(1.0)), &mut buf),
        Ok(8)
    );
}

#[test]
fn asbd_fields_land_at_their_c_offsets() {
    let format = StreamFormat::int24(f(44_100.0), 6);
    let mut buf = vec![0xFFu8; 40];
    assert_eq!(write_property_value(&PropertyValue::Format(format), &mut buf), Ok(40));
    assert_eq!(f64::from_ne_bytes(buf[0..8].try_into().unwrap()), 44_100.0);
    assert_eq!(u32::from_ne_bytes(buf[8..12].try_into().unwrap()), 0x6C70_636D);
    assert_eq!(u32::from_ne_bytes(buf[28..32].try_into().unwrap()), 6);
    assert_eq!(u32::from_ne_bytes(buf[32..36].try_into().unwrap()), 24);
    assert_eq!(u32::from_ne_bytes(buf[36..40].try_into().unwrap()), 0);
}

#[test]
fn write_leaves_the_tail_of_the_buffer_alone() {
    let mut buf = vec![0xEEu8; 10];
    assert_eq!(write_property_value(&PropertyValue::U32(1), &mut buf), Ok(4));
    assert_eq!(&buf[4..], &[0xEE; 6]);
    let mut short = vec![0xEEu8; 7];
    assert_eq!(
        write_property_value(&PropertyValue::ObjectList(vec![AudioObjectId::PLUGIN(); 2]), &mut short),
        Err(OsStatus::BAD_PROPERTY_SIZE())
    );
    assert_eq!(short, vec![0xEEu8; 7]);
}
