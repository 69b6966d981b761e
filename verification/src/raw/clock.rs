//! The device's zero-timestamp clock state.
//!
//! A running AudioServerPlugin device gives the HAL a *zero
//! timestamp*: a `(sample_time, host_time, seed)` triple anchoring
//! the device's sample clock against the host's clock. For a virtual
//! device the clock is synthetic: `StartIO` records an anchor host
//! time and bumps the timeline seed, `StopIO` halts it, and each
//! `GetZeroTimeStamp` reports how many whole periods of host time
//! have elapsed since the anchor.

use vstd::prelude::*;

verus! {

/// The synthetic clock behind a virtual device: the anchor host
/// time, the timeline seed, and whether it is running.
#[derive(Debug)]
pub struct DeviceClock {
    anchor_host_time: u64,
    seed: u64,
    running: bool,
}

impl DeviceClock {
    /// The host time recorded at the most recent start.
    pub closed spec fn spec_anchor(&self) -> u64 {
        self.anchor_host_time
    }

    /// The timeline seed.
    pub closed spec fn spec_seed(&self) -> u64 {
        self.seed
    }

    /// Whether the clock is running.
    pub closed spec fn spec_running(&self) -> bool {
        self.running
    }

    /// A fresh, stopped clock with seed `0`.
    pub fn new() -> (r: Self)
        ensures
            !r.spec_running(),
            r.spec_seed() == 0,
            r.spec_anchor() == 0,
    {
        DeviceClock { anchor_host_time: 0, seed: 0, running: false }
    }

    /// Anchor the clock at `now_host_time`, mark it running, and bump
    /// the seed (wrapping) so the HAL sees a fresh timeline.
    pub fn start(&mut self, now_host_time: u64)
        ensures
            final(self).spec_anchor() == now_host_time,
            final(self).spec_running(),
            final(self).spec_seed() == if old(self).spec_seed() == u64::MAX {
                0
            } else {
                (old(self).spec_seed() + 1) as u64
            },
    {
        self.anchor_host_time = now_host_time;
        self.seed = if self.seed == u64::MAX {
            0
        } else {
            self.seed + 1
        };
        self.running = true;
    }

    /// Mark the clock stopped; the anchor and seed are kept.
    pub fn stop(&mut self)
        ensures
            !final(self).spec_running(),
            final(self).spec_anchor() == old(self).spec_anchor(),
            final(self).spec_seed() == old(self).spec_seed(),
    {
        self.running = false;
    }

    /// `true` between a start and the next stop.
    pub fn is_running(&self) -> (r: bool)
        ensures
            r == self.spec_running(),
    {
        self.running
    }

    /// The current timeline seed.
    pub fn seed(&self) -> (r: u64)
        ensures
            r == self.spec_seed(),
    {
        self.seed
    }

    /// The host time the running timeline is anchored at.
    pub fn anchor_host_time(&self) -> (r: u64)
        ensures
            r == self.spec_anchor(),
    {
        self.anchor_host_time
    }

    /// Host ticks elapsed since the anchor, or `None` if the clock is
    /// stopped. A `now` before the anchor (a clock that ran
    /// backwards, or a stale read) clamps to zero.
    pub fn elapsed_since_anchor(&self, now_host_time: u64) -> (r: Option<u64>)
        ensures
            !self.spec_running() ==> r == None::<u64>,
            self.spec_running() ==> r == Some(
                if now_host_time >= self.spec_anchor() {
                    (now_host_time - self.spec_anchor()) as u64
                } else {
                    0u64
                },
            ),
    {
        if !self.running {
            return None;
        }
        Some(
            if now_host_time >= self.anchor_host_time {
                now_host_time - self.anchor_host_time
            } else {
                0
            },
        )
    }
}

impl Default for DeviceClock {
    fn default() -> (r: Self)
        ensures
            !r.spec_running(),
            r.spec_seed() == 0,
            r.spec_anchor() == 0,
    {
        DeviceClock::new()
    }
}

} // verus!
