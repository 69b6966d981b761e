use core::mem::{align_of, size_of};
use tympan_aspl::format::ASBD_SIZE;
use tympan_aspl::raw::abi::{
    AudioObjectID, AudioObjectPropertyAddress, AudioServerPlugInIOCycleInfo,
    AudioStreamBasicDescription, AudioTimeStamp, AudioValueRange, Boolean, CFUUIDBytes, Float64,
    OSStatus, SInt32, SMPTETime, UInt32, UInt64,
};
use tympan_aspl::raw::{RawObjectId, RawOsStatus};
use tympan_aspl::{AudioObjectId, OsStatus};

#[test]
fn property_address_is_three_packed_u32s() {
    assert_eq!(size_of::<AudioObjectPropertyAddress>(), 12);
    assert_eq!(align_of::<AudioObjectPropertyAddress>(), 4);
}

#[test]
fn value_range_is_two_f64s() {
    assert_eq!(size_of::<AudioValueRange>(), 16);
    assert_eq!(align_of::<AudioValueRange>(), 8);
}

#[test]
fn asbd_is_40_bytes() {
    assert_eq!(size_of::<AudioStreamBasicDescription>(), 40);
    assert_eq!(size_of::<AudioStreamBasicDescription>(), ASBD_SIZE);
    assert_eq!(align_of::<AudioStreamBasicDescription>(), 8);
}

#[test]
fn smpte_time_layout() {
    assert_eq!(size_of::<SMPTETime>(), 24);
}

#[test]
fn audio_timestamp_layout() {
    assert_eq!(size_of::<AudioTimeStamp>(), 64);
    assert_eq!(align_of::<AudioTimeStamp>(), 8);
}

#[test]
fn io_cycle_info_is_two_timestamps() {
    assert_eq!(
        size_of::<AudioServerPlugInIOCycleInfo>(),
        2 * size_of::<AudioTimeStamp>()
    );
}

#[test]
fn cfuuid_bytes_is_16_bytes() {
    assert_eq!(size_of::<CFUUIDBytes>(), 16);
    assert_eq!(align_of::<CFUUIDBytes>(), 1);
}

#[test]
fn scalar_aliases_have_the_expected_widths() {
    assert_eq!(size_of::<UInt32>(), 4);
    assert_eq!(size_of::<UInt64>(), 8);
    assert_eq!(size_of::<SInt32>(), 4);
    assert_eq!(size_of::<Float64>(), 8);
    assert_eq!(size_of::<OSStatus>(), 4);
    assert_eq!(size_of::<Boolean>(), 1);
    assert_eq!(size_of::<AudioObjectID>(), 4);
}

#[test]
fn raw_aliases_match_safe_wrapper_widths() {
    assert_eq!(size_of::<RawObjectId>(), size_of::<AudioObjectId>());
    assert_eq!(size_of::<RawOsStatus>(), size_of::<OsStatus>());
}
