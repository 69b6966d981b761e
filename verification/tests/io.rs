use core::mem::{size_of};
use tympan_aspl::float_bits::F64Bits;
use tympan_aspl::{FourCharCode, IoBuffer, IoOperation, Sample, Timestamp};

fn f(x: f64) -> F64Bits {
    F64Bits::from_bits(x.to_bits())
}

fn s(x: f32) -> Sample {
    x.to_bits()
}

#[test]
fn timestamp_zero_is_origin() {
    assert_eq!(f64::from_bits(Timestamp::ZERO().sample_time.to_bits()), 0.0);
    assert_eq!(Timestamp::ZERO().host_time, 0);
    assert_eq!(Timestamp::ZERO(), Timestamp::new(f(0.0), 0));
}

#[test]
fn timestamp_default_is_zero() {
    assert_eq!(Timestamp::default(), Timestamp::ZERO());
}

#[test]
fn io_operation_constants_match_core_audio_codes() {
    assert_eq!(IoOperation::READ_INPUT().code(), FourCharCode::new(*b"read"));
    assert_eq!(
        IoOperation::PROCESS_OUTPUT().code(),
        FourCharCode::new(*b"pcou")
    );
    assert_eq!(IoOperation::WRITE_MIX().code(), FourCharCode::new(*b"wmix"));
}

#[test]
fn only_process_operations_are_processing() {
    assert!(IoOperation::PROCESS_INPUT().is_processing());
    assert!(IoOperation::PROCESS_OUTPUT().is_processing());
    assert!(IoOperation::PROCESS_MIX().is_processing());

    assert!(!IoOperation::READ_INPUT().is_processing());
    assert!(!IoOperation::WRITE_MIX().is_processing());
    assert!(!IoOperation::CYCLE().is_processing());
    assert!(!IoOperation::THREAD().is_processing());
}

#[test]
fn io_buffer_reports_slice_lengths() {
    let input = [s(0.1), s(0.2), s(0.3), s(0.4)];
    let mut output = [s(0.0); 4];
    let buf = IoBuffer::new(
        Timestamp::ZERO(),
        IoOperation::PROCESS_OUTPUT(),
        &input,
        &mut output,
    );
    assert_eq!(buf.input_len(), 4);
    assert_eq!(buf.output_len(), 4);
}

#[test]
fn silence_output_zeroes_the_buffer() {
    let input: [Sample; 0] = [];
    let mut output = [s(0.5); 8];
    let mut buf = IoBuffer::new(
        Timestamp::ZERO(),
        IoOperation::PROCESS_OUTPUT(),
        &input,
        &mut output,
    );
    buf.silence_output();
    assert!(buf.output.iter().all(|&x| f32::from_bits(x) == 0.0));
}

#[test]
fn output_only_device_sees_empty_input() {
    let input: [Sample; 0] = [];
    let mut output = [s(0.0); 4];
    let buf = IoBuffer::new(
        Timestamp::new(f(128.0), 999),
        IoOperation::PROCESS_OUTPUT(),
        &input,
        &mut output,
    );
    assert_eq!(buf.input_len(), 0);
    assert_eq!(buf.output_len(), 4);
    assert_eq!(f64::from_bits(buf.timestamp.sample_time.to_bits()), 128.0);
}

#[test]
fn io_operation_layout_is_transparent() {
    assert_eq!(size_of::<IoOperation>(), size_of::<u32>());
}

#[test]
fn io_operation_round_trips_through_its_code() {
    for op in [
        IoOperation::THREAD(),
        IoOperation::CYCLE(),
        IoOperation::READ_INPUT(),
        IoOperation::CONVERT_INPUT(),
        IoOperation::PROCESS_INPUT(),
        IoOperation::PROCESS_OUTPUT(),
        IoOperation::MIX_OUTPUT(),
        IoOperation::PROCESS_MIX(),
        IoOperation::CONVERT_MIX(),
        IoOperation::WRITE_MIX(),
    ] {
        assert_eq!(IoOperation::from(op.code()), op);
    }
    assert!(!IoOperation::MIX_OUTPUT().is_processing());
    assert!(!IoOperation::CONVERT_MIX().is_processing());
    assert_eq!(IoOperation::CYCLE().code(), FourCharCode::new(*b"cycl"));
}

#[test]
fn silence_output_keeps_the_input_and_timestamp() {
    let input = [s(0.25), s(-0.25)];
    let mut output = [s(1.0); 2];
    let mut buf = IoBuffer::new(
        Timestamp::new(f(64.0), 7),
        IoOperation::WRITE_MIX(),
        &input,
        &mut output,
    );
    buf.silence_output();
    assert_eq!(buf.input, &[s(0.25), s(-0.25)]);
    assert_eq!(buf.timestamp, Timestamp::new(f(64.0), 7));
    assert_eq!(buf.operation, IoOperation::WRITE_MIX());
    assert_eq!(output, [0, 0]);
}
