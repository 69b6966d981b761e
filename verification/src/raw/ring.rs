//! The device's audio backing store.
//!
//! A virtual audio device needs somewhere to *hold* audio between
//! the moment a client writes it and the moment another client reads
//! it — that is what makes a loopback loop. [`DeviceRing`] is that
//! store: a fixed-size circular buffer of interleaved samples,
//! indexed by Core Audio sample time. The storage is allocated once,
//! at construction; every per-cycle access is a bounded loop with no
//! allocation.

use vstd::prelude::*;

use crate::float_bits::{f64_floor_rem_euclid, f64_floor_to_i64, F64Bits};
use crate::io::Sample;

verus! {

/// The cells after writing `src` sample by sample starting at cell
/// `base`, wrapping around the ring; a later sample overwrites an
/// earlier one that maps to the same cell.
pub open spec fn ring_write(cells: Seq<Sample>, base: int, src: Seq<Sample>) -> Seq<Sample>
    decreases src.len(),
{
    if src.len() == 0 {
        cells
    } else {
        ring_write(cells, base, src.drop_last()).update(
            (base + src.len() - 1) % (cells.len() as int),
            src.last(),
        )
    }
}

/// The `n` samples read from the ring starting at cell `base`,
/// wrapping around.
pub open spec fn ring_read(cells: Seq<Sample>, base: int, n: nat) -> Seq<Sample> {
    Seq::new(n, |i: int| cells[(base + i) % (cells.len() as int)])
}

/// The cell a sample time's frame starts at: the floored frame,
/// reduced Euclidean-modulo the capacity, times the channel count.
pub open spec fn frame_base(start_frame: F64Bits, capacity_frames: nat, channels: nat) -> int {
    (f64_floor_to_i64(start_frame.0) % (capacity_frames as int)) * channels
}

/// A fixed-size circular store of interleaved samples, indexed by
/// sample time: `capacity_frames * channels` cells, wrapping every
/// `capacity_frames` frames.
#[derive(Debug)]
pub struct DeviceRing {
    cells: Vec<Sample>,
    capacity_frames: usize,
    channels: usize,
}

impl View for DeviceRing {
    type V = Seq<Sample>;

    closed spec fn view(&self) -> Seq<Sample> {
        self.cells@
    }
}

/// Stepping a position by one steps its cell by one, wrapping to
/// cell `0` past the last cell.
proof fn lemma_wrap_step(x: int, idx: int, len: int)
    requires
        len > 0,
        0 <= x,
        idx == x % len,
    ensures
        (x + 1) % len == if idx + 1 == len {
            0
        } else {
            idx + 1
        },
{
    vstd::arithmetic::div_mod::lemma_fundamental_div_mod(x, len);
    let q = x / len;
    vstd::arithmetic::div_mod::lemma_mod_bound(x, len);
    if idx + 1 == len {
        assert(x + 1 == len * (q + 1) + 0) by (nonlinear_arith)
            requires
                x == len * q + idx,
                idx + 1 == len,
        ;
        vstd::arithmetic::div_mod::lemma_mod_multiples_vanish(q + 1, 0, len);
        vstd::arithmetic::div_mod::lemma_small_mod(0, len as nat);
    } else {
        assert(x + 1 == len * q + (idx + 1));
        vstd::arithmetic::div_mod::lemma_mod_multiples_vanish(q, idx + 1, len);
        vstd::arithmetic::div_mod::lemma_small_mod((idx + 1) as nat, len as nat);
    }
}

/// Overwrite one cell.
fn set_cell(cells: &mut Vec<Sample>, i: usize, v: Sample)
    requires
        i < old(cells)@.len(),
    ensures
        final(cells)@ == old(cells)@.update(i as int, v),
    no_unwind
{
    cells[i] = v;
}

impl DeviceRing {
    /// Frames the ring holds before wrapping.
    pub closed spec fn spec_capacity_frames(&self) -> nat {
        self.capacity_frames as nat
    }

    /// Channels per frame.
    pub closed spec fn spec_channels(&self) -> nat {
        self.channels as nat
    }

    #[verifier::type_invariant]
    spec fn geometry(self) -> bool {
        &&& self.capacity_frames > 0
        &&& self.channels > 0
        &&& self.cells@.len() == self.capacity_frames * self.channels
    }

    /// The geometry every ring keeps: non-empty, and exactly
    /// `capacity_frames * channels` cells.
    pub fn geometry_holds(&self)
        ensures
            self.spec_capacity_frames() > 0,
            self.spec_channels() > 0,
            self@.len() == self.spec_capacity_frames() * self.spec_channels(),
    {
        proof {
            use_type_invariant(self);
        }
    }

    /// Allocate a silent ring holding `capacity_frames` frames of
    /// `channels`-channel audio. Both must be non-zero: a ring with
    /// no storage cannot hold audio.
    pub fn new(capacity_frames: usize, channels: usize) -> (r: Self)
        requires
            capacity_frames > 0,
            channels > 0,
            capacity_frames * channels <= usize::MAX,
        ensures
            r.spec_capacity_frames() == capacity_frames,
            r.spec_channels() == channels,
            r@ == Seq::new((capacity_frames * channels) as nat, |i: int| 0u32),
    {
        let cell_count = capacity_frames * channels;
        let mut cells: Vec<Sample> = Vec::with_capacity(cell_count);
        let mut i: usize = 0;
        while i < cell_count
            invariant
                i <= cell_count,
                cells@ == Seq::new(i as nat, |j: int| 0u32),
            decreases cell_count - i,
        {
            cells.push(0);
            i += 1;
        }
        DeviceRing { cells, capacity_frames, channels }
    }

    /// Frames the ring holds before wrapping.
    pub fn capacity_frames(&self) -> (r: usize)
        ensures
            r == self.spec_capacity_frames(),
    {
        self.capacity_frames
    }

    /// Channels per frame.
    pub fn channels(&self) -> (r: usize)
        ensures
            r == self.spec_channels(),
    {
        self.channels
    }

    /// Total sample cells — `capacity_frames * channels`.
    pub fn len(&self) -> (r: usize)
        ensures
            r == self@.len(),
    {
        self.cells.len()
    }

    /// Always `false`: a constructed ring always has storage.
    pub fn is_empty(&self) -> (r: bool)
        ensures
            r == (self@.len() == 0),
            !r,
    {
        proof {
            use_type_invariant(self);
            vstd::arithmetic::mul::lemma_mul_strictly_positive(
                self.capacity_frames as int,
                self.channels as int,
            );
        }
        false
    }

    /// The cell index a sample time maps to.
    fn frame_offset(&self, start_frame: F64Bits) -> (r: usize)
        ensures
            r == frame_base(start_frame, self.spec_capacity_frames(), self.spec_channels()),
            r < self@.len(),
    {
        proof {
            use_type_invariant(self);
        }
        let _len = self.cells.len();
        let frame = f64_floor_rem_euclid(start_frame, self.capacity_frames);
        proof {
            vstd::arithmetic::mul::lemma_mul_strict_inequality(
                frame as int,
                self.capacity_frames as int,
                self.channels as int,
            );
        }
        frame * self.channels
    }

    /// Write `src` into the ring starting at sample time
    /// `start_frame` (floored to a frame, reduced modulo the
    /// capacity), wrapping at the ring boundary. The write is
    /// sample-granular, so a partial trailing frame is tolerated.
    pub fn write_from(&mut self, start_frame: F64Bits, src: &[Sample])
        ensures
            final(self).spec_capacity_frames() == old(self).spec_capacity_frames(),
            final(self).spec_channels() == old(self).spec_channels(),
            final(self)@ == ring_write(
                old(self)@,
                frame_base(start_frame, old(self).spec_capacity_frames(), old(self).spec_channels()),
                src@,
            ),
    {
        proof {
            use_type_invariant(&*self);
        }
        let len = self.cells.len();
        let base = self.frame_offset(start_frame);
        let ghost b = base as int;
        let n = src.len();
        let mut idx: usize = base;
        let mut i: usize = 0;
        proof {
            vstd::arithmetic::div_mod::lemma_small_mod(base as nat, len as nat);
        }
        while i < n
            invariant
                n == src@.len(),
                i <= n,
                len == self.cells@.len(),
                len == old(self)@.len(),
                len > 0,
                idx < len,
                b >= 0,
                idx as int == (b + i) % (len as int),
                self.capacity_frames == old(self).spec_capacity_frames(),
                self.channels == old(self).spec_channels(),
                self.cells@.len() == self.capacity_frames * self.channels,
                self.capacity_frames > 0,
                self.channels > 0,
                self.cells@ == ring_write(old(self)@, b, src@.take(i as int)),
            decreases n - i,
        {
            proof {
                assert(src@.take(i + 1).drop_last() =~= src@.take(i as int));
            }
            set_cell(&mut self.cells, idx, src[i]);
            idx = if idx + 1 == len {
                0
            } else {
                idx + 1
            };
            proof {
                lemma_wrap_step(b + i, (b + i) % (len as int), len as int);
            }
            i += 1;
        }
        assert(src@.take(n as int) =~= src@);
    }

    /// Read from the ring starting at sample time `start_frame` into
    /// `dst`, wrapping at the ring boundary: every element of `dst`
    /// is filled.
    pub fn read_into(&self, start_frame: F64Bits, dst: &mut [Sample])
        ensures
            final(dst)@ == ring_read(
                self@,
                frame_base(start_frame, self.spec_capacity_frames(), self.spec_channels()),
                old(dst)@.len(),
            ),
    {
        proof {
            use_type_invariant(self);
        }
        let len = self.cells.len();
        let base = self.frame_offset(start_frame);
        let ghost b = base as int;
        let n = dst.len();
        let mut idx: usize = base;
        let mut i: usize = 0;
        proof {
            vstd::arithmetic::div_mod::lemma_small_mod(base as nat, len as nat);
        }
        while i < n
            invariant
                n == dst@.len(),
                n == old(dst)@.len(),
                i <= n,
                len == self.cells@.len(),
                len > 0,
                idx < len,
                b >= 0,
                idx as int == (b + i) % (len as int),
                forall|j: int| 0 <= j < i ==> dst@[j] == self.cells@[(b + j) % (len as int)],
            decreases n - i,
        {
            dst[i] = self.cells[idx];
            idx = if idx + 1 == len {
                0
            } else {
                idx + 1
            };
            proof {
                lemma_wrap_step(b + i, (b + i) % (len as int), len as int);
            }
            i += 1;
        }
        assert(dst@ =~= ring_read(self@, b, old(dst)@.len()));
    }

    /// Overwrite the whole ring with silence.
    pub fn clear(&mut self)
        ensures
            final(self).spec_capacity_frames() == old(self).spec_capacity_frames(),
            final(self).spec_channels() == old(self).spec_channels(),
            final(self)@ == Seq::new(old(self)@.len(), |i: int| 0u32),
    {
        proof {
            use_type_invariant(&*self);
        }
        let n = self.cells.len();
        let mut i: usize = 0;
        while i < n
            invariant
                n == self.cells@.len(),
                n == old(self)@.len(),
                i <= n,
                self.capacity_frames == old(self).spec_capacity_frames(),
                self.channels == old(self).spec_channels(),
                self.cells@.len() == self.capacity_frames * self.channels,
                self.capacity_frames > 0,
                self.channels > 0,
                forall|j: int| 0 <= j < i ==> self.cells@[j] == 0u32,
            decreases n - i,
        {
            set_cell(&mut self.cells, i, 0);
            i += 1;
        }
        assert(self.cells@ =~= Seq::new(old(self)@.len(), |i: int| 0u32));
    }
}

/// Two positions less than a lap apart map to different cells.
proof fn lemma_distinct_cells(x: int, y: int, len: int)
    requires
        len > 0,
        x < y < x + len,
    ensures
        x % len != y % len,
{
    vstd::arithmetic::div_mod::lemma_fundamental_div_mod(x, len);
    vstd::arithmetic::div_mod::lemma_fundamental_div_mod(y, len);
    vstd::arithmetic::div_mod::lemma_mod_bound(x, len);
    vstd::arithmetic::div_mod::lemma_mod_bound(y, len);
    let qx = x / len;
    let qy = y / len;
    if x % len == y % len {
        assert(y - x == (qy - qx) * len) by (nonlinear_arith)
            requires
                x == len * qx + x % len,
                y == len * qy + y % len,
                x % len == y % len,
        ;
        assert(false) by (nonlinear_arith)
            requires
                y - x == (qy - qx) * len,
                0 < y - x < len,
                len > 0,
        ;
    }
}

proof fn lemma_ring_write_len(cells: Seq<Sample>, base: int, src: Seq<Sample>)
    requires
        cells.len() > 0,
    ensures
        ring_write(cells, base, src).len() == cells.len(),
    decreases src.len(),
{
    if src.len() > 0 {
        lemma_ring_write_len(cells, base, src.drop_last());
        vstd::arithmetic::div_mod::lemma_mod_bound(base + src.len() - 1, cells.len() as int);
    }
}

/// Within one lap, every written sample lands in its own cell and
/// survives the rest of the write.
proof fn lemma_ring_write_cell(cells: Seq<Sample>, base: int, src: Seq<Sample>, j: int)
    requires
        cells.len() > 0,
        src.len() <= cells.len(),
        0 <= j < src.len(),
    ensures
        ring_write(cells, base, src)[(base + j) % (cells.len() as int)] == src[j],
    decreases src.len(),
{
    let len = cells.len() as int;
    lemma_ring_write_len(cells, base, src.drop_last());
    vstd::arithmetic::div_mod::lemma_mod_bound(base + src.len() - 1, len);
    if j < src.len() - 1 {
        lemma_distinct_cells(base + j, base + src.len() - 1, len);
        lemma_ring_write_cell(cells, base, src.drop_last(), j);
    }
}

/// The loopback law: reading the ring back at the sample time it was
/// written at gives the samples written, as long as they fit in one
/// lap of the ring.
pub proof fn lemma_read_after_write(cells: Seq<Sample>, base: int, src: Seq<Sample>)
    requires
        cells.len() > 0,
        src.len() <= cells.len(),
    ensures
        ring_read(ring_write(cells, base, src), base, src.len()) == src,
{
    lemma_ring_write_len(cells, base, src);
    assert forall|j: int| 0 <= j < src.len() implies #[trigger] ring_read(
        ring_write(cells, base, src),
        base,
        src.len(),
    )[j] == src[j] by {
        lemma_ring_write_cell(cells, base, src, j);
    }
    assert(ring_read(ring_write(cells, base, src), base, src.len()) =~= src);
}

} // verus!
