//! The decisions the `extern "C"` entry points make.
//!
//! The HAL calls the plug-in through a vtable of C functions that
//! take raw pointers. Everything those functions *decide* — which
//! interfaces the object answers to, which IO operations the
//! framework services, how large a cycle may be, which timestamp a
//! cycle is keyed to — is made here on plain values.

use vstd::prelude::*;

use crate::io::{op_read_input, op_write_mix, IoOperation, Timestamp};
use crate::float_bits::F64Bits;
use crate::raw::abi::{AudioServerPlugInIOCycleInfo, CFUUIDBytes};
use crate::realtime::Refcount;

verus! {

/// The largest IO cycle, in interleaved samples, that the framework
/// services without heap allocation (`1024` frames of 8-channel
/// audio, or `4096` frames of stereo).
pub const MAX_CYCLE_SAMPLES: usize = 8192;

/// `E_NOINTERFACE` (`0x80000004`) — the COM result for "this object
/// does not implement the requested interface".
pub const E_NOINTERFACE: i32 = -2147483644;

/// `IUnknownUUID` — `{00000000-0000-0000-C000-000000000046}`.
pub open spec fn spec_iunknown_uuid() -> CFUUIDBytes {
    CFUUIDBytes {
        byte0: 0x00,
        byte1: 0x00,
        byte2: 0x00,
        byte3: 0x00,
        byte4: 0x00,
        byte5: 0x00,
        byte6: 0x00,
        byte7: 0x00,
        byte8: 0xC0,
        byte9: 0x00,
        byte10: 0x00,
        byte11: 0x00,
        byte12: 0x00,
        byte13: 0x00,
        byte14: 0x00,
        byte15: 0x46,
    }
}

/// `kAudioServerPlugInDriverInterfaceUUID` —
/// `{EEA5773D-CC43-49F1-8E00-8F96E7D23B17}`.
pub open spec fn spec_driver_interface_uuid() -> CFUUIDBytes {
    CFUUIDBytes {
        byte0: 0xEE,
        byte1: 0xA5,
        byte2: 0x77,
        byte3: 0x3D,
        byte4: 0xCC,
        byte5: 0x43,
        byte6: 0x49,
        byte7: 0xF1,
        byte8: 0x8E,
        byte9: 0x00,
        byte10: 0x8F,
        byte11: 0x96,
        byte12: 0xE7,
        byte13: 0xD2,
        byte14: 0x3B,
        byte15: 0x17,
    }
}

/// `IUnknownUUID`, the base COM interface every CFPlugIn interface
/// also satisfies.
pub fn iunknown_uuid() -> (r: CFUUIDBytes)
    ensures
        r == spec_iunknown_uuid(),
{
    CFUUIDBytes {
        byte0: 0x00,
        byte1: 0x00,
        byte2: 0x00,
        byte3: 0x00,
        byte4: 0x00,
        byte5: 0x00,
        byte6: 0x00,
        byte7: 0x00,
        byte8: 0xC0,
        byte9: 0x00,
        byte10: 0x00,
        byte11: 0x00,
        byte12: 0x00,
        byte13: 0x00,
        byte14: 0x00,
        byte15: 0x46,
    }
}

/// `kAudioServerPlugInDriverInterfaceUUID`, the interface
/// `coreaudiod` asks a plug-in's factory object for.
pub fn driver_interface_uuid() -> (r: CFUUIDBytes)
    ensures
        r == spec_driver_interface_uuid(),
{
    CFUUIDBytes {
        byte0: 0xEE,
        byte1: 0xA5,
        byte2: 0x77,
        byte3: 0x3D,
        byte4: 0xCC,
        byte5: 0x43,
        byte6: 0x49,
        byte7: 0xF1,
        byte8: 0x8E,
        byte9: 0x00,
        byte10: 0x8F,
        byte11: 0x96,
        byte12: 0xE7,
        byte13: 0xD2,
        byte14: 0x3B,
        byte15: 0x17,
    }
}

/// `true` iff `QueryInterface` hands back the object for `uuid`:
/// the AudioServerPlugin driver interface or the base `IUnknown`.
pub fn interface_is_supported(uuid: &CFUUIDBytes) -> (r: bool)
    ensures
        r == (*uuid == spec_iunknown_uuid() || *uuid == spec_driver_interface_uuid()),
{
    *uuid == iunknown_uuid() || *uuid == driver_interface_uuid()
}

/// `QueryInterface`'s answer for `uuid`: for the driver interface or
/// `IUnknown` the object hands itself out, taking a reference
/// (`S_OK`, `0`); for any other interface it takes none and answers
/// `E_NOINTERFACE`.
pub fn accept_interface(refcount: &mut Refcount, uuid: &CFUUIDBytes) -> (r: i32)
    requires
        old(refcount)@ < u32::MAX,
    ensures
        (*uuid == spec_iunknown_uuid() || *uuid == spec_driver_interface_uuid()) ==> r == 0
            && final(refcount)@ == old(refcount)@ + 1,
        !(*uuid == spec_iunknown_uuid() || *uuid == spec_driver_interface_uuid()) ==> r
            == E_NOINTERFACE && final(refcount)@ == old(refcount)@,
{
    if interface_is_supported(uuid) {
        refcount.add_ref();
        0
    } else {
        E_NOINTERFACE
    }
}

/// `true` iff the framework services `operation`: it moves audio for
/// `ReadInput` (device ring → client) and `WriteMix` (client →
/// device ring) and leaves every other operation to the HAL.
pub fn framework_handles(operation: IoOperation) -> (r: bool)
    ensures
        r == (operation.0.0 == op_read_input() || operation.0.0 == op_write_mix()),
{
    operation.0.0 == 0x72656164 || operation.0.0 == 0x776D6978
}

/// What `DoIOOperation` does with one call.
#[derive(Copy, Clone, PartialEq, Eq, Debug, Structural)]
pub enum IoCycle {
    /// An operation the framework does not service: succeed without
    /// touching anything.
    Ignore,
    /// A cycle larger than [`MAX_CYCLE_SAMPLES`]: decline it with
    /// `kAudioHardwareUnspecifiedError` rather than allocate.
    TooLarge,
    /// Store a client's output in the device ring.
    WriteMix {
        /// Interleaved samples in the cycle.
        sample_count: usize,
    },
    /// Fill a client's input from the device ring.
    ReadInput {
        /// Interleaved samples in the cycle.
        sample_count: usize,
    },
}

/// The plan for a `DoIOOperation` call.
pub open spec fn io_cycle_plan(operation_id: u32, frame_size: u32, channels: nat) -> IoCycle {
    if operation_id != op_read_input() && operation_id != op_write_mix() {
        IoCycle::Ignore
    } else if frame_size * channels > MAX_CYCLE_SAMPLES {
        IoCycle::TooLarge
    } else if operation_id == op_write_mix() {
        IoCycle::WriteMix { sample_count: (frame_size * channels) as usize }
    } else {
        IoCycle::ReadInput { sample_count: (frame_size * channels) as usize }
    }
}

/// Plan a `DoIOOperation` call from its operation, its frame count,
/// and the ring's channel count.
pub fn plan_io_cycle(operation_id: u32, frame_size: u32, channels: usize) -> (r: IoCycle)
    ensures
        r == io_cycle_plan(operation_id, frame_size, channels as nat),
{
    if operation_id != 0x72656164 && operation_id != 0x776D6978 {
        return IoCycle::Ignore;
    }
    let frames = frame_size as usize;
    if channels != 0 && frames > MAX_CYCLE_SAMPLES / channels {
        proof {
            vstd::arithmetic::div_mod::lemma_fundamental_div_mod(MAX_CYCLE_SAMPLES as int, channels as int);
            vstd::arithmetic::mul::lemma_mul_inequality(
                (MAX_CYCLE_SAMPLES / channels + 1) as int,
                frames as int,
                channels as int,
            );
            vstd::arithmetic::div_mod::lemma_mod_bound(MAX_CYCLE_SAMPLES as int, channels as int);
            assert((MAX_CYCLE_SAMPLES / channels + 1) * channels > MAX_CYCLE_SAMPLES) by (nonlinear_arith)
                requires
                    MAX_CYCLE_SAMPLES == channels * (MAX_CYCLE_SAMPLES / channels) + MAX_CYCLE_SAMPLES % channels,
                    MAX_CYCLE_SAMPLES % channels < channels,
            ;
        }
        return IoCycle::TooLarge;
    }
    proof {
        if channels != 0 {
            vstd::arithmetic::div_mod::lemma_fundamental_div_mod(MAX_CYCLE_SAMPLES as int, channels as int);
            vstd::arithmetic::div_mod::lemma_mod_bound(MAX_CYCLE_SAMPLES as int, channels as int);
            vstd::arithmetic::mul::lemma_mul_inequality(
                frames as int,
                (MAX_CYCLE_SAMPLES / channels) as int,
                channels as int,
            );
            assert((MAX_CYCLE_SAMPLES / channels) * channels <= MAX_CYCLE_SAMPLES) by (nonlinear_arith)
                requires
                    MAX_CYCLE_SAMPLES == channels * (MAX_CYCLE_SAMPLES / channels) + MAX_CYCLE_SAMPLES % channels,
                    MAX_CYCLE_SAMPLES % channels >= 0,
            ;
        }
    }
    let sample_count = frames * channels;
    if sample_count > MAX_CYCLE_SAMPLES {
        return IoCycle::TooLarge;
    }
    if operation_id == 0x776D6978 {
        IoCycle::WriteMix { sample_count }
    } else {
        IoCycle::ReadInput { sample_count }
    }
}

/// The timestamp a cycle is keyed to: `ReadInput` reads on the input
/// timeline, every other operation on the output timeline, and a
/// missing cycle record means the zero timestamp.
pub fn cycle_timestamp(operation: IoOperation, cycle: Option<AudioServerPlugInIOCycleInfo>) -> (r: Timestamp)
    ensures
        r == match cycle {
            None => Timestamp { sample_time: F64Bits(0), host_time: 0 },
            Some(c) => if operation.0.0 == op_read_input() {
                Timestamp { sample_time: c.mInputTime.mSampleTime, host_time: c.mInputTime.mHostTime }
            } else {
                Timestamp { sample_time: c.mOutputTime.mSampleTime, host_time: c.mOutputTime.mHostTime }
            },
        },
{
    match cycle {
        None => Timestamp::ZERO(),
        Some(c) => if operation.0.0 == 0x72656164 {
            Timestamp::new(c.mInputTime.mSampleTime, c.mInputTime.mHostTime)
        } else {
            Timestamp::new(c.mOutputTime.mSampleTime, c.mOutputTime.mHostTime)
        },
    }
}

} // verus!
