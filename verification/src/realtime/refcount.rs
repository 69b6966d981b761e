//! CFPlugIn-style reference counter.
//!
//! An AudioServerPlugin is a CFPlugIn instance: the HAL holds it
//! through the COM-style `IUnknown` contract, with `AddRef` and
//! `Release` returning the new `UInt32` reference count. The
//! framework's plug-in and driver wrappers delegate those to a
//! [`Refcount`].

use vstd::prelude::*;

verus! {

/// Reference counter for a CFPlugIn object.
///
/// The two write paths — [`Self::add_ref`] and [`Self::release`] —
/// return the new count, matching the `IUnknown::AddRef` /
/// `IUnknown::Release` ABI. A fresh counter starts at `1`: CFPlugIn
/// factory functions hand back an object the caller already owns one
/// reference to.
#[derive(Debug)]
pub struct Refcount {
    count: u32,
}

impl View for Refcount {
    type V = u32;

    closed spec fn view(&self) -> u32 {
        self.count
    }
}

impl Refcount {
    /// A counter at `1` — the initial owning reference a CFPlugIn
    /// factory hands back to its caller.
    pub fn new() -> (r: Self)
        ensures
            r@ == 1,
    {
        Refcount { count: 1 }
    }

    /// A counter at zero, for objects whose lifetime is managed
    /// separately and which therefore start unreferenced.
    pub fn new_unowned() -> (r: Self)
        ensures
            r@ == 0,
    {
        Refcount { count: 0 }
    }

    /// Increment and return the new count (`IUnknown::AddRef`).
    ///
    /// The count must not already be `u32::MAX`: reaching it means a
    /// runaway reference leak.
    pub fn add_ref(&mut self) -> (r: u32)
        requires
            old(self)@ < u32::MAX,
        ensures
            r == old(self)@ + 1,
            final(self)@ == r,
    {
        self.count = self.count + 1;
        self.count
    }

    /// Decrement and return the new count (`IUnknown::Release`). The
    /// caller frees the underlying object when this returns zero.
    ///
    /// The count must be positive: releasing at zero is a
    /// release-after-free bug.
    pub fn release(&mut self) -> (r: u32)
        requires
            old(self)@ > 0,
        ensures
            r == old(self)@ - 1,
            final(self)@ == r,
    {
        self.count = self.count - 1;
        self.count
    }

    /// The current count.
    pub fn count(&self) -> (r: u32)
        ensures
            r == self@,
    {
        self.count
    }

    /// `true` iff the count is zero.
    pub fn is_zero(&self) -> (r: bool)
        ensures
            r == (self@ == 0),
    {
        self.count == 0
    }
}

impl Default for Refcount {
    fn default() -> (r: Self)
        ensures
            r@ == 1,
    {
        Refcount::new()
    }
}

/// An `AddRef` followed by a `Release` leaves the count where it
/// was, and each returns the count it leaves behind.
pub proof fn lemma_add_ref_release_restores(count: u32)
    requires
        count < u32::MAX,
    ensures
        (count + 1) as u32 > 0,
        ((count + 1) as u32 - 1) as u32 == count,
{
}

} // verus!
