use tympan_aspl::float_bits::F64Bits;
use tympan_aspl::{AudioObjectId, Device, DeviceId, DeviceSpec, StreamDirection, StreamFormat, StreamSpec};

fn f(x: f64) -> F64Bits {
    F64Bits::from_bits(x.to_bits())
}

fn loopback_spec() -> DeviceSpec {
    DeviceSpec::new("com.example.loopback", "Example Loopback", "tympan-aspl")
        .with_sample_rate(f(48_000.0))
        .with_input(StreamSpec::input(StreamFormat::float32(f(48_000.0), 2)))
        .with_output(StreamSpec::output(StreamFormat::float32(f(48_000.0), 2)))
}

#[test]
fn device_id_round_trips() {
    let id = DeviceId::from_u32(7);
    assert_eq!(id.as_u32(), 7);
    assert_eq!(id.object_id(), AudioObjectId::from_u32(7));
    assert_eq!(DeviceId::from(AudioObjectId::from_u32(7)), id);
}

#[test]
fn new_device_starts_streamless_at_48k() {
    let spec = DeviceSpec::new("uid", "name", "maker");
    assert_eq!(spec.sample_rate(), f(48_000.0));
    assert_eq!(spec.stream_count(), 0);
    assert!(spec.input().is_none());
    assert!(spec.output().is_none());
    assert!(!spec.is_loopback());
}

#[test]
fn identity_fields_round_trip() {
    let spec = loopback_spec();
    assert_eq!(spec.uid(), "com.example.loopback");
    assert_eq!(spec.name(), "Example Loopback");
    assert_eq!(spec.manufacturer(), "tympan-aspl");
}

#[test]
fn loopback_has_both_streams() {
    let spec = loopback_spec();
    assert_eq!(spec.stream_count(), 2);
    assert!(spec.is_loopback());
    assert_eq!(
        spec.stream(StreamDirection::Input).unwrap().direction(),
        StreamDirection::Input
    );
    assert_eq!(
        spec.stream(StreamDirection::Output).unwrap().direction(),
        StreamDirection::Output
    );
}

#[test]
fn output_only_device_is_not_loopback() {
    let spec = DeviceSpec::new("uid", "Speaker", "maker")
        .with_output(StreamSpec::output(StreamFormat::float32(f(48_000.0), 2)));
    assert_eq!(spec.stream_count(), 1);
    assert!(!spec.is_loopback());
    assert!(spec.input().is_none());
    assert!(spec.output().is_some());
}

#[test]
fn device_pairs_id_and_spec() {
    let spec = loopback_spec();
    let device = Device::new(DeviceId::from_u32(2), spec);
    assert_eq!(device.id(), DeviceId::from_u32(2));
    assert_eq!(device.spec().uid(), "com.example.loopback");
}

#[test]
fn with_setters_replace_streams() {
    let spec = DeviceSpec::new("uid", "name", "maker")
        .with_output(StreamSpec::output(StreamFormat::float32(f(48_000.0), 1)))
        .with_output(StreamSpec::output(StreamFormat::float32(f(48_000.0), 2)));
    assert_eq!(spec.output().unwrap().channels(), 2);
}

#[test]
fn input_only_device_counts_one_stream() {
    let spec = DeviceSpec::new("uid", "Mic", "maker")
        .with_input(StreamSpec::input(StreamFormat::float32(f(44_100.0), 1)))
        .with_sample_rate(f(44_100.0));
    assert_eq!(spec.stream_count(), 1);
    assert!(!spec.is_loopback());
    assert!(spec.stream(StreamDirection::Output).is_none());
    assert_eq!(spec.sample_rate(), f(44_100.0));
}
