use std::cell::Cell;
use tympan_aspl::driver::DriverInstance;
use tympan_aspl::float_bits::F64Bits;
use tympan_aspl::realtime::State;
use tympan_aspl::{
    AnyDriver, DeviceSpec, Driver, DriverInfo, IoBuffer, IoOperation, OsStatus, RealtimeContext,
    Sample, StreamFormat, StreamSpec, Timestamp,
};

fn f(x: f64) -> F64Bits {
    F64Bits::from_bits(x.to_bits())
}

fn s(x: f32) -> Sample {
    x.to_bits()
}

struct Loopback {
    initialize_seen: Cell<u32>,
    start_seen: Cell<u32>,
    stop_seen: Cell<u32>,
    process_seen: Cell<u32>,
    start_should_fail: Cell<bool>,
}

impl Driver for Loopback {
    const NAME: &'static str = "tympan-aspl loopback (test)";
    const MANUFACTURER: &'static str = "tympan-aspl";
    const VERSION: &'static str = "0.0.0";

    fn new() -> Self {
        Self {
            initialize_seen: Cell::new(0),
            start_seen: Cell::new(0),
            stop_seen: Cell::new(0),
            process_seen: Cell::new(0),
            start_should_fail: Cell::new(false),
        }
    }

    fn device(&self) -> DeviceSpec {
        DeviceSpec::new("com.tympan.test.loopback", "Test Loopback", Self::MANUFACTURER)
            .with_input(StreamSpec::input(StreamFormat::float32(f(48_000.0), 2)))
            .with_output(StreamSpec::output(StreamFormat::float32(f(48_000.0), 2)))
    }

    fn initialize(&mut self) -> Result<(), OsStatus> {
        self.initialize_seen.set(self.initialize_seen.get() + 1);
        Ok(())
    }

    fn start_io(&mut self) -> Result<(), OsStatus> {
        if self.start_should_fail.get() {
            return Err(OsStatus::NOT_READY());
        }
        self.start_seen.set(self.start_seen.get() + 1);
        Ok(())
    }

    fn stop_io(&mut self) {
        self.stop_seen.set(self.stop_seen.get() + 1);
    }

    fn process_io(&mut self, _rt: &RealtimeContext, buffer: &mut IoBuffer<'_>) {
        self.process_seen.set(self.process_seen.get() + 1);
        let n = buffer.output.len().min(buffer.input.len());
        buffer.output[..n].copy_from_slice(&buffer.input[..n]);
    }
}

/// A driver that relies on every default hook.
struct Minimal;

impl Driver for Minimal {
    const NAME: &'static str = "minimal";
    const MANUFACTURER: &'static str = "maker";
    const VERSION: &'static str = "1.2.3";

    fn new() -> Self {
        Minimal
    }

    fn device(&self) -> DeviceSpec {
        DeviceSpec::new("uid", "name", "maker")
    }

    fn process_io(&mut self, _rt: &RealtimeContext, _buffer: &mut IoBuffer<'_>) {}
}

/// A driver whose `initialize` always fails.
struct Broken;

impl Driver for Broken {
    const NAME: &'static str = "broken";
    const MANUFACTURER: &'static str = "maker";
    const VERSION: &'static str = "0.0.1";

    fn new() -> Self {
        Broken
    }

    fn device(&self) -> DeviceSpec {
        DeviceSpec::new("uid", "name", "maker")
    }

    fn initialize(&mut self) -> Result<(), OsStatus> {
        Err(OsStatus::UNSPECIFIED())
    }

    fn process_io(&mut self, _rt: &RealtimeContext, _buffer: &mut IoBuffer<'_>) {}
}

fn rt() -> RealtimeContext {
    RealtimeContext::new_unchecked()
}

#[test]
fn new_starts_uninitialized_with_refcount_one() {
    let d = DriverInstance::<Loopback>::new();
    assert_eq!(d.state(), State::Uninitialized);
    assert_eq!(d.refcount(), 1);
}

#[test]
fn driver_default_matches_new() {
    let d: DriverInstance<Loopback> = DriverInstance::default();
    assert_eq!(d.state(), State::Uninitialized);
    assert_eq!(d.refcount(), 1);
}

#[test]
fn add_ref_release_delegate_to_refcount() {
    let mut d = DriverInstance::<Loopback>::new();
    assert_eq!(d.add_ref(), 2);
    assert_eq!(d.add_ref(), 3);
    assert_eq!(d.release(), 2);
    assert_eq!(d.release(), 1);
}

#[test]
fn info_reflects_associated_constants() {
    let d = DriverInstance::<Loopback>::new();
    let info = d.info();
    assert_eq!(info.name, "tympan-aspl loopback (test)");
    assert_eq!(info.manufacturer, "tympan-aspl");
    assert_eq!(info.version, "0.0.0");
}

#[test]
fn device_is_forwarded_from_the_user_driver() {
    let d = DriverInstance::<Loopback>::new();
    let spec = d.device();
    assert_eq!(spec.uid(), "com.tympan.test.loopback");
    assert!(spec.is_loopback());
}

#[test]
fn initialize_transitions_and_forwards_to_user() {
    let mut d = DriverInstance::<Loopback>::new();
    assert!(d.initialize().is_ok());
    assert_eq!(d.state(), State::Initialized);
    assert_eq!(d.user().initialize_seen.get(), 1);
}

#[test]
fn double_initialize_is_illegal() {
    let mut d = DriverInstance::<Loopback>::new();
    d.initialize().unwrap();
    assert_eq!(d.initialize(), Err(OsStatus::ILLEGAL_OPERATION()));
}

#[test]
fn driver_start_requires_initialized() {
    let mut d = DriverInstance::<Loopback>::new();
    assert_eq!(d.start_io(), Err(OsStatus::ILLEGAL_OPERATION()));
    assert_eq!(d.state(), State::Uninitialized);
}

#[test]
fn start_io_transitions_and_forwards_to_user() {
    let mut d = DriverInstance::<Loopback>::new();
    d.initialize().unwrap();
    d.start_io().unwrap();
    assert_eq!(d.state(), State::Running);
    assert_eq!(d.user().start_seen.get(), 1);
}

#[test]
fn start_failure_rolls_state_back_to_initialized() {
    let mut d = DriverInstance::<Loopback>::new();
    d.initialize().unwrap();
    d.user().start_should_fail.set(true);
    assert_eq!(d.start_io(), Err(OsStatus::NOT_READY()));
    assert_eq!(d.state(), State::Initialized);
}

#[test]
fn stop_io_returns_to_initialized() {
    let mut d = DriverInstance::<Loopback>::new();
    d.initialize().unwrap();
    d.start_io().unwrap();
    d.stop_io().unwrap();
    assert_eq!(d.state(), State::Initialized);
    assert_eq!(d.user().stop_seen.get(), 1);
}

#[test]
fn stop_without_start_is_illegal() {
    let mut d = DriverInstance::<Loopback>::new();
    assert_eq!(d.stop_io(), Err(OsStatus::ILLEGAL_OPERATION()));
}

#[test]
fn process_io_requires_running_state() {
    let mut d = DriverInstance::<Loopback>::new();
    let input = [s(0.0); 4];
    let mut output = [s(0.0); 4];
    let rt = rt();
    let mut buffer = IoBuffer::new(
        Timestamp::ZERO(),
        IoOperation::PROCESS_OUTPUT(),
        &input,
        &mut output,
    );
    assert_eq!(d.process_io(&rt, &mut buffer), Err(OsStatus::NOT_RUNNING()));

    d.initialize().unwrap();
    let mut buffer = IoBuffer::new(
        Timestamp::ZERO(),
        IoOperation::PROCESS_OUTPUT(),
        &input,
        &mut output,
    );
    assert_eq!(d.process_io(&rt, &mut buffer), Err(OsStatus::NOT_RUNNING()));
}

#[test]
fn process_io_after_start_copies_input_to_output() {
    let mut d = DriverInstance::<Loopback>::new();
    d.initialize().unwrap();
    d.start_io().unwrap();

    let input = [s(0.1), s(-0.2), s(0.3), s(-0.4)];
    let mut output = [s(0.0); 4];
    let rt = rt();
    let mut buffer = IoBuffer::new(
        Timestamp::ZERO(),
        IoOperation::PROCESS_OUTPUT(),
        &input,
        &mut output,
    );
    d.process_io(&rt, &mut buffer).unwrap();
    assert_eq!(output, input);
    assert_eq!(d.user().process_seen.get(), 1);
}

#[test]
fn driver_full_lifecycle_round_trip() {
    let mut d = DriverInstance::<Loopback>::new();
    d.initialize().unwrap();
    d.start_io().unwrap();

    let input = [s(0.5); 4];
    let mut output = [s(0.0); 4];
    let rt = rt();
    for _ in 0..3 {
        let mut buffer = IoBuffer::new(
            Timestamp::ZERO(),
            IoOperation::PROCESS_OUTPUT(),
            &input,
            &mut output,
        );
        d.process_io(&rt, &mut buffer).unwrap();
    }
    d.stop_io().unwrap();
    assert_eq!(d.state(), State::Initialized);

    d.start_io().unwrap();
    d.stop_io().unwrap();
    assert_eq!(d.state(), State::Initialized);

    assert_eq!(d.user().process_seen.get(), 3);
    assert_eq!(d.user().start_seen.get(), 2);
    assert_eq!(d.user().stop_seen.get(), 2);
}

#[test]
fn type_erased_dispatch_drives_full_lifecycle() {
    let mut driver: Box<dyn AnyDriver> = Box::new(DriverInstance::<Loopback>::new());

    assert_eq!(driver.state(), State::Uninitialized);
    assert_eq!(driver.refcount(), 1);
    assert_eq!(driver.add_ref(), 2);

    driver.initialize().unwrap();
    driver.start_io().unwrap();
    assert_eq!(driver.state(), State::Running);

    let input = [s(0.25), s(-0.5), s(0.75), s(-1.0)];
    let mut output = [s(0.0); 4];
    let rt = rt();
    let mut buffer = IoBuffer::new(
        Timestamp::ZERO(),
        IoOperation::PROCESS_OUTPUT(),
        &input,
        &mut output,
    );
    driver.process_io(&rt, &mut buffer).unwrap();
    assert_eq!(output, input);

    driver.stop_io().unwrap();
    assert_eq!(driver.state(), State::Initialized);
    assert_eq!(driver.release(), 1);

    assert_eq!(driver.info().name, "tympan-aspl loopback (test)");
    assert!(driver.device().is_loopback());
}

#[test]
fn default_hooks_succeed() {
    let mut d = DriverInstance::<Minimal>::new();
    assert_eq!(d.initialize(), Ok(()));
    assert_eq!(d.start_io(), Ok(()));
    assert_eq!(d.stop_io(), Ok(()));
    assert_eq!(d.state(), State::Initialized);
    assert_eq!(
        DriverInfo::of::<Minimal>(),
        DriverInfo { name: "minimal", manufacturer: "maker", version: "1.2.3" }
    );
}

#[test]
fn failed_initialize_rolls_back_to_uninitialized() {
    let mut d = DriverInstance::<Broken>::new();
    assert_eq!(d.initialize(), Err(OsStatus::UNSPECIFIED()));
    assert_eq!(d.state(), State::Uninitialized);
    assert_eq!(d.refcount(), 1);
}

#[test]
fn type_erased_refcount_counts_down_to_zero() {
    let mut driver: Box<dyn AnyDriver> = Box::new(DriverInstance::<Minimal>::new());
    assert_eq!(driver.add_ref(), 2);
    assert_eq!(driver.release(), 1);
    assert_eq!(driver.release(), 0);
    assert_eq!(driver.refcount(), 0);
}
