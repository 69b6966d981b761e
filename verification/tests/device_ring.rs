use tympan_aspl::float_bits::F64Bits;
use tympan_aspl::raw::ring::DeviceRing;
use tympan_aspl::Sample;

fn f(x: f64) -> F64Bits {
    F64Bits::from_bits(x.to_bits())
}

fn s(x: f32) -> Sample {
    x.to_bits()
}

fn samples(xs: &[f32]) -> Vec<Sample> {
    xs.iter().map(|&x| s(x)).collect()
}

#[test]
fn new_ring_has_the_requested_geometry_and_is_silent() {
    let ring = DeviceRing::new(8, 2);
    assert_eq!(ring.capacity_frames(), 8);
    assert_eq!(ring.channels(), 2);
    assert_eq!(ring.len(), 16);
    assert!(!ring.is_empty());

    let mut out = [s(9.0); 16];
    ring.read_into(f(0.0), &mut out);
    assert!(out.iter().all(|&x| f32::from_bits(x) == 0.0), "a fresh ring is silent");
}

#[test]
fn write_then_read_round_trips_at_the_same_sample_time() {
    let mut ring = DeviceRing::new(16, 2);
    let written = samples(&[0.1, -0.2, 0.3, -0.4, 0.5, -0.6]);
    ring.write_from(f(4.0), &written);
    let mut read = vec![s(0.0); 6];
    ring.read_into(f(4.0), &mut read);
    assert_eq!(read, written);
}

#[test]
fn writes_wrap_at_the_ring_boundary() {
    let mut ring = DeviceRing::new(4, 1);
    ring.write_from(f(3.0), &samples(&[10.0, 11.0, 12.0, 13.0, 14.0, 15.0]));
    let mut read = vec![s(0.0); 4];
    ring.read_into(f(0.0), &mut read);
    assert_eq!(read, samples(&[15.0, 12.0, 13.0, 14.0]));
}

#[test]
fn sample_time_reduces_modulo_capacity() {
    let mut ring = DeviceRing::new(8, 1);
    ring.write_from(f(2.0), &samples(&[42.0]));
    let mut read = [s(0.0); 1];
    ring.read_into(f(10.0), &mut read);
    assert_eq!(f32::from_bits(read[0]), 42.0);
    ring.read_into(f(2.0 + 8.0 * 8.0), &mut read);
    assert_eq!(f32::from_bits(read[0]), 42.0);
}

#[test]
fn negative_sample_time_is_floored_into_range() {
    let mut ring = DeviceRing::new(8, 1);
    ring.write_from(f(-1.0), &samples(&[7.0]));
    let mut read = [s(0.0); 1];
    ring.read_into(f(7.0), &mut read);
    assert_eq!(f32::from_bits(read[0]), 7.0);
}

#[test]
fn fractional_sample_time_floors_to_the_frame() {
    let mut ring = DeviceRing::new(8, 1);
    ring.write_from(f(3.0), &samples(&[3.0]));
    let mut read = [s(0.0); 1];
    ring.read_into(f(3.9), &mut read);
    assert_eq!(f32::from_bits(read[0]), 3.0);
}

#[test]
fn clear_silences_the_whole_ring() {
    let mut ring = DeviceRing::new(4, 2);
    ring.write_from(f(0.0), &[s(1.0); 8]);
    ring.clear();
    let mut read = [s(9.0); 8];
    ring.read_into(f(0.0), &mut read);
    assert!(read.iter().all(|&x| f32::from_bits(x) == 0.0));
}

#[test]
fn channels_interleave_correctly() {
    let mut ring = DeviceRing::new(4, 2);
    ring.write_from(f(1.0), &samples(&[1.0, 2.0]));
    let mut read = vec![s(0.0); 8];
    ring.read_into(f(0.0), &mut read);
    assert_eq!(read, samples(&[0.0, 0.0, 1.0, 2.0, 0.0, 0.0, 0.0, 0.0]));
}

#[test]
fn a_loopback_round_trip_of_a_ramp() {
    let mut ring = DeviceRing::new(1024, 1);
    for frame in 0..1024 {
        ring.write_from(f(frame as f64), &[s(frame as f32)]);
    }
    let mut read = vec![s(0.0); 1024];
    ring.read_into(f(0.0), &mut read);
    for (frame, &sample) in read.iter().enumerate() {
        assert_eq!(f32::from_bits(sample), frame as f32);
    }
}

#[test]
fn every_sample_time_addresses_its_floored_frame() {
    for t in [f64::NAN, f64::INFINITY, f64::NEG_INFINITY, -0.5, -7.25, 1e300, -1e300, 5.999] {
        let mut ring = DeviceRing::new(5, 1);
        ring.write_from(f(t), &samples(&[9.0]));
        let frame = (t.floor() as i64).rem_euclid(5) as usize;
        let mut read = vec![s(0.0); 5];
        ring.read_into(f(0.0), &mut read);
        for (i, &x) in read.iter().enumerate() {
            let expected = if i == frame { 9.0 } else { 0.0 };
            assert_eq!(f32::from_bits(x), expected, "sample time {t}, cell {i}");
        }
    }
}

#[test]
fn huge_sample_times_wrap_like_saturated_frames() {
    let mut ring = DeviceRing::new(3, 1);
    ring.write_from(f(1e300), &samples(&[9.0]));
    let frame = (1e300f64 as i64).rem_euclid(3) as usize;
    let mut read = vec![s(0.0); 3];
    ring.read_into(f(0.0), &mut read);
    assert_eq!(f32::from_bits(read[frame]), 9.0);
}
