//! The framework state behind a plug-in's vtable.
//!
//! [`DeviceRuntime`] is everything the entry points operate on apart
//! from the user's driver itself: the object tree the HAL walks, the
//! cached identity, the device's runtime state, its synthetic clock,
//! and its audio ring. It is built once, when the factory
//! instantiates the plug-in.

use vstd::prelude::*;

use crate::device::DeviceSpec;
use crate::stream::StreamSpec;
use crate::dispatch::{get_property_data, is_property_settable, property_data_size, property_value, set_outcome, set_property_data, settable_value, DeviceState};
use crate::driver::{not_running, AnyDriver, DriverInfo};
use crate::error::OsStatus;
use crate::float_bits::{f64_as_usize, f64_to_unsigned};
use crate::fourcc::FourCharCode;
use crate::io::{op_read_input, op_write_mix, CycleView, IoBuffer, IoOperation, Sample, Timestamp};
use crate::object::AudioObjectId;
use crate::objects::ObjectMap;
use crate::property::{value_byte_size, PropertyAddress, PropertyValue, ValueModel};
use crate::raw::clock::DeviceClock;
use crate::raw::ring::{frame_base, ring_write, DeviceRing};
use crate::realtime::{RealtimeContext, State};

verus! {

/// The channel count of a device's busiest stream, at least `1`.
pub open spec fn widest_channels(spec: DeviceSpec) -> nat {
    let input = match spec.input {
        Some(s) => s.format.channels_per_frame as nat,
        None => 0,
    };
    let output = match spec.output {
        Some(s) => s.format.channels_per_frame as nat,
        None => 0,
    };
    let widest = if input >= output { input } else { output };
    if widest >= 1 { widest } else { 1 }
}

/// The ring's frame capacity: one second at the nominal rate
/// (`rate as usize`), at least `1`.
pub open spec fn ring_frames(spec: DeviceSpec) -> nat {
    let frames = f64_to_unsigned(spec.sample_rate.0, usize::MAX as nat);
    if frames >= 1 { frames } else { 1 }
}

/// The geometry of the ring a device gets: `(frames, channels)` —
/// one zero-timestamp period (one second at the nominal rate) of
/// frames, and the channel count of the device's busiest stream.
pub fn ring_geometry(spec: &DeviceSpec) -> (r: (usize, usize))
    ensures
        r.0 == ring_frames(*spec),
        r.1 == widest_channels(*spec),
        r.1 >= 1,
        forall|s: StreamSpec| spec.input == Some(s) || spec.output == Some(s) ==> r.1 >= s.format.channels_per_frame,
        r.1 == 1 || (exists|s: StreamSpec|
            (spec.input == Some(s) || spec.output == Some(s)) && r.1 == s.format.channels_per_frame),
{
    let frames = f64_as_usize(spec.sample_rate());
    let frames = if frames >= 1 {
        frames
    } else {
        1
    };
    let input: u32 = match spec.input() {
        Some(s) => s.channels(),
        None => 0,
    };
    let output: u32 = match spec.output() {
        Some(s) => s.channels(),
        None => 0,
    };
    let widest = if input >= output {
        input
    } else {
        output
    };
    let channels: usize = if widest >= 1 {
        widest as usize
    } else {
        1
    };
    proof {
        lemma_ring_is_as_wide_as_the_busiest_stream(*spec);
    }
    (frames, channels)
}

/// Everything the entry points operate on besides the user's driver.
pub struct DeviceRuntime {
    /// The object tree the HAL walks via the property protocol.
    pub objects: ObjectMap,
    /// The driver's identity constants, cached for the plug-in
    /// property queries.
    pub info: DriverInfo,
    /// The device's mutable runtime state.
    pub state: DeviceState,
    /// The device's synthetic zero-timestamp clock.
    pub clock: DeviceClock,
    /// The device's audio backing store.
    pub ring: DeviceRing,
}

impl DeviceRuntime {
    /// Build the runtime for a driver's device: materialise its
    /// object tree, cache its identity, seed the device state from
    /// the spec, and allocate the ring ([`ring_geometry`]), whose
    /// size must fit in memory.
    pub fn new(spec: DeviceSpec, info: DriverInfo) -> (r: Self)
        requires
            ring_frames(spec) * widest_channels(spec) <= usize::MAX,
        ensures
            r.objects@ == spec,
            r.info == info,
            r.state == (DeviceState { sample_rate: spec.sample_rate, running: false }),
            !r.clock.spec_running(),
            r.clock.spec_seed() == 0,
            r.ring.spec_capacity_frames() == ring_frames(spec),
            r.ring.spec_channels() == widest_channels(spec),
            r.ring@ == Seq::new(ring_frames(spec) * widest_channels(spec), |i: int| 0u32),
    {
        let (frames, channels) = ring_geometry(&spec);
        let objects = ObjectMap::new(spec);
        let state = DeviceState::from_spec(&spec);
        DeviceRuntime {
            objects,
            info,
            state,
            clock: DeviceClock::new(),
            ring: DeviceRing::new(frames, channels),
        }
    }

    /// Record the outcome of the user's `start_io`: on success mark
    /// the device running and anchor the clock at `now_host_time`;
    /// on failure change nothing.
    pub fn start_io_finished(&mut self, status: OsStatus, now_host_time: u64)
        ensures
            final(self).objects@ == old(self).objects@,
            final(self).info == old(self).info,
            final(self).ring@ == old(self).ring@,
            final(self).state.sample_rate == old(self).state.sample_rate,
            status.0 == 0 ==> final(self).state.running && final(self).clock.spec_running()
                && final(self).clock.spec_anchor() == now_host_time,
            status.0 != 0 ==> final(self).state == old(self).state && final(self).clock.spec_running()
                == old(self).clock.spec_running() && final(self).clock.spec_seed() == old(self).clock.spec_seed()
                && final(self).clock.spec_anchor() == old(self).clock.spec_anchor(),
    {
        if status.is_ok() {
            self.state.running = true;
            self.clock.start(now_host_time);
        }
    }

    /// Record the outcome of the user's `stop_io`: on success clear
    /// the running flag and halt the clock; on failure change
    /// nothing.
    pub fn stop_io_finished(&mut self, status: OsStatus)
        ensures
            final(self).objects@ == old(self).objects@,
            final(self).info == old(self).info,
            final(self).ring@ == old(self).ring@,
            final(self).state.sample_rate == old(self).state.sample_rate,
            final(self).clock.spec_seed() == old(self).clock.spec_seed(),
            status.0 == 0 ==> !final(self).state.running && !final(self).clock.spec_running(),
            status.0 != 0 ==> final(self).state == old(self).state && final(self).clock.spec_running()
                == old(self).clock.spec_running(),
    {
        if status.is_ok() {
            self.state.running = false;
            self.clock.stop();
        }
    }

    /// `HasProperty`: whether a read of the property would succeed.
    pub fn has_property(&self, object_id: AudioObjectId, address: &PropertyAddress) -> (r: bool)
        ensures
            r == (property_value(self.objects@, self.info, self.state, object_id, *address) is Ok),
    {
        get_property_data(&self.objects, &self.info, &self.state, object_id, address).is_ok()
    }

    /// `IsPropertySettable`.
    pub fn is_property_settable(&self, object_id: AudioObjectId, address: &PropertyAddress) -> (r: Result<bool, OsStatus>)
        ensures
            r == settable_value(self.objects@, self.info, self.state, object_id, *address),
    {
        is_property_settable(&self.objects, &self.info, &self.state, object_id, address)
    }

    /// `GetPropertyDataSize`, as the `UInt32` the HAL receives.
    pub fn property_data_size(&self, object_id: AudioObjectId, address: &PropertyAddress) -> (r: Result<u32, OsStatus>)
        ensures
            match property_value(self.objects@, self.info, self.state, object_id, *address) {
                Ok(v) => r == Ok::<u32, OsStatus>(value_byte_size(v) as u32),
                Err(e) => r == Err::<u32, OsStatus>(e),
            },
    {
        proof {
            crate::dispatch::lemma_value_size_small(self.objects@, self.info, self.state, object_id, *address);
        }
        match property_data_size(&self.objects, &self.info, &self.state, object_id, address) {
            Ok(size) => Ok(size as u32),
            Err(e) => Err(e),
        }
    }

    /// `GetPropertyData`: the typed value to marshal into the HAL's
    /// buffer.
    pub fn property_data(&self, object_id: AudioObjectId, address: &PropertyAddress) -> (r: Result<PropertyValue, OsStatus>)
        ensures
            crate::dispatch::result_model(r) == property_value(self.objects@, self.info, self.state, object_id, *address),
    {
        get_property_data(&self.objects, &self.info, &self.state, object_id, address)
    }

    /// `SetPropertyData` from the HAL's raw buffer.
    pub fn set_property_data(&mut self, object_id: AudioObjectId, address: &PropertyAddress, data: &[u8]) -> (r: Result<(), OsStatus>)
        ensures
            (r, final(self).state) == set_outcome(old(self).objects@, old(self).info, old(self).state, object_id, *address, data@),
            final(self).objects@ == old(self).objects@,
            final(self).info == old(self).info,
            final(self).ring@ == old(self).ring@,
    {
        set_property_data(&self.objects, &self.info, &mut self.state, object_id, address, data)
    }

    /// A `WriteMix` cycle: run the client's output through the
    /// driver's `process_io` into `scratch`, then, if the driver
    /// succeeded (it does exactly when it is running), store what it
    /// produced in the ring at the cycle's sample time. A driver that
    /// is not running fails with `kAudioHardwareNotRunningError` and
    /// the ring is unchanged.
    pub fn write_mix<D: AnyDriver + ?Sized>(
        &mut self,
        driver: &mut D,
        timestamp: Timestamp,
        client: &[Sample],
        scratch: &mut [Sample],
    ) -> (r: Result<(), OsStatus>)
        ensures
            final(self).objects@ == old(self).objects@,
            final(self).state == old(self).state,
            final(self).info == old(self).info,
            final(self).ring.spec_capacity_frames() == old(self).ring.spec_capacity_frames(),
            final(self).ring.spec_channels() == old(self).ring.spec_channels(),
            final(driver).lifecycle_state() == old(driver).lifecycle_state(),
            final(driver).reference_count() == old(driver).reference_count(),
            old(driver).lifecycle_state() == State::Running ==> r == Ok::<(), OsStatus>(()),
            old(driver).lifecycle_state() != State::Running ==> r == Err::<(), OsStatus>(not_running()),
            old(driver).lifecycle_state() == State::Running ==> final(driver).last_cycle() == Some(
                CycleView {
                    timestamp,
                    operation: IoOperation(FourCharCode(op_write_mix())),
                    input: client@,
                    output: old(scratch)@,
                },
            ),
            r is Err ==> final(self).ring@ == old(self).ring@,
            r is Ok ==> final(self).ring@ == ring_write(
                old(self).ring@,
                frame_base(timestamp.sample_time, old(self).ring.spec_capacity_frames(), old(self).ring.spec_channels()),
                final(scratch)@,
            ),
    {
        let rt = RealtimeContext::new_unchecked();
        let result = {
            let mut io = IoBuffer::new(timestamp, IoOperation::WRITE_MIX(), client, scratch);
            driver.process_io(&rt, &mut io)
        };
        if result.is_ok() {
            self.ring.write_from(timestamp.sample_time, scratch);
        }
        result
    }

    /// A `ReadInput` cycle: read the ring at the cycle's sample time
    /// into `scratch`, then run that through the driver's
    /// `process_io` into the client's buffer. The ring is only read.
    /// The driver succeeds exactly when it is running; otherwise the
    /// cycle fails with `kAudioHardwareNotRunningError`.
    pub fn read_input<D: AnyDriver + ?Sized>(
        &self,
        driver: &mut D,
        timestamp: Timestamp,
        scratch: &mut [Sample],
        client: &mut [Sample],
    ) -> (r: Result<(), OsStatus>)
        ensures
            final(driver).lifecycle_state() == old(driver).lifecycle_state(),
            final(driver).reference_count() == old(driver).reference_count(),
            old(driver).lifecycle_state() == State::Running ==> r == Ok::<(), OsStatus>(()),
            old(driver).lifecycle_state() != State::Running ==> r == Err::<(), OsStatus>(not_running()),
            old(driver).lifecycle_state() == State::Running ==> final(driver).last_cycle() == Some(
                CycleView {
                    timestamp,
                    operation: IoOperation(FourCharCode(op_read_input())),
                    input: crate::raw::ring::ring_read(
                        self.ring@,
                        frame_base(timestamp.sample_time, self.ring.spec_capacity_frames(), self.ring.spec_channels()),
                        old(scratch)@.len(),
                    ),
                    output: old(client)@,
                },
            ),
            final(scratch)@ == crate::raw::ring::ring_read(
                self.ring@,
                frame_base(timestamp.sample_time, self.ring.spec_capacity_frames(), self.ring.spec_channels()),
                old(scratch)@.len(),
            ),
    {
        self.ring.read_into(timestamp.sample_time, scratch);
        let rt = RealtimeContext::new_unchecked();
        let mut io = IoBuffer::new(timestamp, IoOperation::READ_INPUT(), scratch, client);
        driver.process_io(&rt, &mut io)
    }
}

/// The loopback law: after a `WriteMix` cycle stored what the driver
/// produced, a `ReadInput` cycle at the same sample time hands the
/// driver exactly those samples back as its input, as long as they
/// fit in one lap of the ring.
pub proof fn lemma_loopback_round_trip(
    before: DeviceRuntime,
    after: DeviceRuntime,
    timestamp: Timestamp,
    produced: Seq<Sample>,
)
    requires
        produced.len() <= before.ring@.len(),
        after.ring.spec_capacity_frames() == before.ring.spec_capacity_frames(),
        after.ring.spec_channels() == before.ring.spec_channels(),
        after.ring@ == ring_write(
            before.ring@,
            frame_base(timestamp.sample_time, before.ring.spec_capacity_frames(), before.ring.spec_channels()),
            produced,
        ),
    ensures
        crate::raw::ring::ring_read(
            after.ring@,
            frame_base(timestamp.sample_time, after.ring.spec_capacity_frames(), after.ring.spec_channels()),
            produced.len(),
        ) == produced,
{
    let base = frame_base(timestamp.sample_time, before.ring.spec_capacity_frames(), before.ring.spec_channels());
    if before.ring@.len() > 0 {
        crate::raw::ring::lemma_read_after_write(before.ring@, base, produced);
    } else {
        assert(crate::raw::ring::ring_read(after.ring@, base, produced.len()) =~= produced);
    }
}

/// The ring is as wide as the device's busiest stream: at least one
/// channel, at least as many channels as every stream the device has,
/// and exactly as many as one of them unless the device has none
/// (or only zero-channel streams).
pub proof fn lemma_ring_is_as_wide_as_the_busiest_stream(spec: DeviceSpec)
    ensures
        widest_channels(spec) >= 1,
        forall|s: StreamSpec| spec.input == Some(s) || spec.output == Some(s)
            ==> widest_channels(spec) >= s.format.channels_per_frame,
        widest_channels(spec) == 1 || (exists|s: StreamSpec|
            (spec.input == Some(s) || spec.output == Some(s)) && widest_channels(spec) == s.format.channels_per_frame),
{
    if widest_channels(spec) != 1 {
        match spec.input {
            Some(i) => match spec.output {
                Some(o) => {
                    if i.format.channels_per_frame >= o.format.channels_per_frame {
                        assert(spec.input == Some(i));
                    } else {
                        assert(spec.output == Some(o));
                    }
                },
                None => {
                    assert(spec.input == Some(i));
                },
            },
            None => match spec.output {
                Some(o) => {
                    assert(spec.output == Some(o));
                },
                None => {},
            },
        }
    }
}

/// A `WriteMix` cycle and a `ReadInput` cycle at the same sample time,
/// as [`DeviceRuntime::write_mix`] and [`DeviceRuntime::read_input`]
/// hand them to a running driver: the driver can tell them apart by
/// their operations (`'wmix'`, then `'read'`), the first carries the
/// client's samples, and the second carries, as its input, exactly
/// what the driver produced on the first (within one lap of the
/// ring).
pub proof fn lemma_loopback_cycles(
    before: DeviceRuntime,
    after: DeviceRuntime,
    timestamp: Timestamp,
    client: Seq<Sample>,
    produced: Seq<Sample>,
    write_cycle: CycleView,
    read_cycle: CycleView,
)
    requires
        produced.len() <= before.ring@.len(),
        after.ring.spec_capacity_frames() == before.ring.spec_capacity_frames(),
        after.ring.spec_channels() == before.ring.spec_channels(),
        after.ring@ == ring_write(
            before.ring@,
            frame_base(timestamp.sample_time, before.ring.spec_capacity_frames(), before.ring.spec_channels()),
            produced,
        ),
        write_cycle.timestamp == timestamp,
        write_cycle.operation == IoOperation(FourCharCode(op_write_mix())),
        write_cycle.input == client,
        read_cycle.timestamp == timestamp,
        read_cycle.operation == IoOperation(FourCharCode(op_read_input())),
        read_cycle.input == crate::raw::ring::ring_read(
            after.ring@,
            frame_base(timestamp.sample_time, after.ring.spec_capacity_frames(), after.ring.spec_channels()),
            produced.len(),
        ),
    ensures
        write_cycle.operation != read_cycle.operation,
        write_cycle.input == client,
        read_cycle.input == produced,
{
    lemma_loopback_round_trip(before, after, timestamp, produced);
}

} // verus!
