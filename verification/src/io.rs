//! The IO cycle: timestamps, operations, and the realtime buffer
//! view.
//!
//! Core Audio drives an AudioServerPlugin's IO on a dedicated
//! realtime thread. Each cycle the HAL calls `BeginIOOperation`, one
//! or more `DoIOOperation`s, and `EndIOOperation`, tagging each with
//! an [`IoOperation`] selector that says which phase of the read /
//! process / mix / write pipeline is running.

use vstd::prelude::*;

use crate::float_bits::F64Bits;
use crate::fourcc::FourCharCode;

verus! {

/// One sample of canonical (32-bit float) linear PCM audio, held as
/// its bit pattern (`f32::to_bits`). The framework only moves
/// samples; it never computes with them.
pub type Sample = u32;

/// A point on Core Audio's timeline: the two fields of the C
/// `AudioTimeStamp` an AudioServerPlugin's IO path consults.
#[derive(Copy, Clone, PartialEq, Eq, Debug, Structural)]
pub struct Timestamp {
    /// `mSampleTime` — the cycle's position on the device's sample
    /// clock, in frames (a `Float64` bit pattern).
    pub sample_time: F64Bits,
    /// `mHostTime` — the cycle's position on the host clock.
    pub host_time: u64,
}

impl Timestamp {
    /// Construct a timestamp from its sample-clock and host-clock
    /// positions.
    pub fn new(sample_time: F64Bits, host_time: u64) -> (r: Self)
        ensures
            r == (Timestamp { sample_time, host_time }),
    {
        Timestamp { sample_time, host_time }
    }

    /// The zero timestamp — frame `0.0`, host time 0.
    #[allow(non_snake_case)]
    pub fn ZERO() -> (r: Self)
        ensures
            r == (Timestamp { sample_time: F64Bits(0), host_time: 0 }),
    {
        Timestamp { sample_time: F64Bits(0), host_time: 0 }
    }
}

impl Default for Timestamp {
    fn default() -> (r: Self)
        ensures
            r == (Timestamp { sample_time: F64Bits(0), host_time: 0 }),
    {
        Timestamp::ZERO()
    }
}

/// `kAudioServerPlugInIOOperationThread` (`'thrd'`).
pub open spec fn op_thread() -> u32 {
    0x74687264
}

/// `kAudioServerPlugInIOOperationCycle` (`'cycl'`).
pub open spec fn op_cycle() -> u32 {
    0x6379636C
}

/// `kAudioServerPlugInIOOperationReadInput` (`'read'`).
pub open spec fn op_read_input() -> u32 {
    0x72656164
}

/// `kAudioServerPlugInIOOperationConvertInput` (`'cinp'`).
pub open spec fn op_convert_input() -> u32 {
    0x63696E70
}

/// `kAudioServerPlugInIOOperationProcessInput` (`'pcin'`).
pub open spec fn op_process_input() -> u32 {
    0x7063696E
}

/// `kAudioServerPlugInIOOperationProcessOutput` (`'pcou'`).
pub open spec fn op_process_output() -> u32 {
    0x70636F75
}

/// `kAudioServerPlugInIOOperationMixOutput` (`'mixo'`).
pub open spec fn op_mix_output() -> u32 {
    0x6D69786F
}

/// `kAudioServerPlugInIOOperationProcessMix` (`'pcmx'`).
pub open spec fn op_process_mix() -> u32 {
    0x70636D78
}

/// `kAudioServerPlugInIOOperationConvertMix` (`'cmix'`).
pub open spec fn op_convert_mix() -> u32 {
    0x636D6978
}

/// `kAudioServerPlugInIOOperationWriteMix` (`'wmix'`).
pub open spec fn op_write_mix() -> u32 {
    0x776D6978
}

/// Which phase of the HAL's IO pipeline a callback is running: a
/// four-character code.
#[derive(Copy, Clone, PartialEq, Eq, Hash, Debug, Structural)]
pub struct IoOperation(pub FourCharCode);

impl IoOperation {
    /// `kAudioServerPlugInIOOperationThread` (`'thrd'`) — the IO thread itself is starting or stopping.
    #[allow(non_snake_case)]
    pub fn THREAD() -> (r: Self)
        ensures
            r.0.0 == op_thread(),
    {
        IoOperation(FourCharCode(0x74687264))
    }

    /// `kAudioServerPlugInIOOperationCycle` (`'cycl'`) — a whole IO cycle boundary.
    #[allow(non_snake_case)]
    pub fn CYCLE() -> (r: Self)
        ensures
            r.0.0 == op_cycle(),
    {
        IoOperation(FourCharCode(0x6379636C))
    }

    /// `kAudioServerPlugInIOOperationReadInput` (`'read'`) — read the device's input data into the HAL's buffer.
    #[allow(non_snake_case)]
    pub fn READ_INPUT() -> (r: Self)
        ensures
            r.0.0 == op_read_input(),
    {
        IoOperation(FourCharCode(0x72656164))
    }

    /// `kAudioServerPlugInIOOperationConvertInput` (`'cinp'`) — convert read input into the client's format.
    #[allow(non_snake_case)]
    pub fn CONVERT_INPUT() -> (r: Self)
        ensures
            r.0.0 == op_convert_input(),
    {
        IoOperation(FourCharCode(0x63696E70))
    }

    /// `kAudioServerPlugInIOOperationProcessInput` (`'pcin'`) — the driver's chance to process the input stream.
    #[allow(non_snake_case)]
    pub fn PROCESS_INPUT() -> (r: Self)
        ensures
            r.0.0 == op_process_input(),
    {
        IoOperation(FourCharCode(0x7063696E))
    }

    /// `kAudioServerPlugInIOOperationProcessOutput` (`'pcou'`) — the driver's chance to process a client's output stream.
    #[allow(non_snake_case)]
    pub fn PROCESS_OUTPUT() -> (r: Self)
        ensures
            r.0.0 == op_process_output(),
    {
        IoOperation(FourCharCode(0x70636F75))
    }

    /// `kAudioServerPlugInIOOperationMixOutput` (`'mixo'`) — mix a client's output into the device's output buffer.
    #[allow(non_snake_case)]
    pub fn MIX_OUTPUT() -> (r: Self)
        ensures
            r.0.0 == op_mix_output(),
    {
        IoOperation(FourCharCode(0x6D69786F))
    }

    /// `kAudioServerPlugInIOOperationProcessMix` (`'pcmx'`) — the driver's chance to process the fully-mixed output.
    #[allow(non_snake_case)]
    pub fn PROCESS_MIX() -> (r: Self)
        ensures
            r.0.0 == op_process_mix(),
    {
        IoOperation(FourCharCode(0x70636D78))
    }

    /// `kAudioServerPlugInIOOperationConvertMix` (`'cmix'`) — convert the mixed output into the device's physical format.
    #[allow(non_snake_case)]
    pub fn CONVERT_MIX() -> (r: Self)
        ensures
            r.0.0 == op_convert_mix(),
    {
        IoOperation(FourCharCode(0x636D6978))
    }

    /// `kAudioServerPlugInIOOperationWriteMix` (`'wmix'`) — write the converted mix out to the device.
    #[allow(non_snake_case)]
    pub fn WRITE_MIX() -> (r: Self)
        ensures
            r.0.0 == op_write_mix(),
    {
        IoOperation(FourCharCode(0x776D6978))
    }

    /// The underlying four-character code.
    pub fn code(self) -> (r: FourCharCode)
        ensures
            r == self.0,
    {
        self.0
    }

    /// `true` iff this operation hands the driver audio to process:
    /// process-input, process-output, or process-mix.
    pub fn is_processing(self) -> (r: bool)
        ensures
            r == (self.0.0 == op_process_input() || self.0.0 == op_process_output() || self.0.0
                == op_process_mix()),
    {
        let c = self.0.0;
        c == 0x7063696E || c == 0x70636F75 || c == 0x70636D78
    }
}

impl From<FourCharCode> for IoOperation {
    fn from(code: FourCharCode) -> (r: Self) {
        IoOperation(code)
    }
}

impl vstd::std_specs::convert::FromSpecImpl<FourCharCode> for IoOperation {
    open spec fn obeys_from_spec() -> bool {
        true
    }

    open spec fn from_spec(code: FourCharCode) -> Self {
        IoOperation(code)
    }
}

/// What one IO cycle hands a driver: the buffer's timestamp and
/// operation, and the samples in its input and output.
pub struct CycleView {
    /// The cycle's timestamp.
    pub timestamp: Timestamp,
    /// The IO operation the cycle belongs to.
    pub operation: IoOperation,
    /// The input samples.
    pub input: Seq<Sample>,
    /// The output samples as handed over.
    pub output: Seq<Sample>,
}

/// The cycle an [`IoBuffer`] carries.
pub open spec fn cycle_view(buffer: IoBuffer<'_>) -> CycleView {
    CycleView {
        timestamp: buffer.timestamp,
        operation: buffer.operation,
        input: buffer.input@,
        output: buffer.output@,
    }
}

/// A borrowed view of one IO cycle's input and output buffers, in
/// the canonical interleaved float32 format.
///
/// `input` is empty for an output-only device (and `output` for an
/// input-only device); a loopback device sees both.
#[derive(Debug)]
pub struct IoBuffer<'a> {
    /// The cycle's timestamp on the device's sample clock.
    pub timestamp: Timestamp,
    /// Which IO operation produced this buffer.
    pub operation: IoOperation,
    /// Interleaved input samples.
    pub input: &'a [Sample],
    /// Interleaved output samples to write into.
    pub output: &'a mut [Sample],
}

impl<'a> IoBuffer<'a> {
    /// Construct an IO buffer view from its parts.
    pub fn new(
        timestamp: Timestamp,
        operation: IoOperation,
        input: &'a [Sample],
        output: &'a mut [Sample],
    ) -> (r: Self)
        ensures
            r.timestamp == timestamp,
            r.operation == operation,
            r.input@ == input@,
            r.output@ == old(output)@,
            final(output)@ == final(r.output)@,
    {
        IoBuffer { timestamp, operation, input, output }
    }

    /// Number of input samples available this cycle.
    pub fn input_len(&self) -> (r: usize)
        ensures
            r == self.input@.len(),
    {
        self.input.len()
    }

    /// Number of output samples to be written this cycle.
    pub fn output_len(&self) -> (r: usize)
        ensures
            r == old(self.output)@.len(),
    {
        self.output.len()
    }

    /// Fill the output buffer with silence (all-zero bits, the
    /// pattern of `0.0_f32`).
    pub fn silence_output(&mut self)
        ensures
            final(self).timestamp == old(self).timestamp,
            final(self).operation == old(self).operation,
            final(self).input@ == old(self).input@,
            final(self).output@ == Seq::new(old(self).output@.len(), |i: int| 0u32),
    {
        let n = self.output.len();
        let mut i: usize = 0;
        while i < n
            invariant
                n == self.output@.len(),
                n == old(self).output@.len(),
                i <= n,
                self.timestamp == old(self).timestamp,
                self.operation == old(self).operation,
                self.input@ == old(self).input@,
                forall|j: int| 0 <= j < i ==> self.output@[j] == 0u32,
            decreases n - i,
        {
            self.output[i] = 0;
            i += 1;
        }
        assert(self.output@ =~= Seq::new(old(self).output@.len(), |i: int| 0u32));
    }
}

} // verus!
