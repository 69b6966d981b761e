//! Index arithmetic of the single-producer / single-consumer ring.
//!
//! The ring's positions are unbounded counters, reduced modulo the
//! capacity only when indexing the storage, so the classic "full vs
//! empty" ambiguity needs no sacrificial slot: the ring is empty when
//! the two counters are equal and full when the producer is exactly
//! one capacity ahead. The counters wrap at `usize::MAX`, so the
//! distance between them is taken with wrapping subtraction.

use vstd::prelude::*;

verus! {

/// The number of items in flight between the consumer position
/// `head` and the producer position `tail`.
pub open spec fn in_flight(head: usize, tail: usize) -> int {
    if tail >= head {
        tail - head
    } else {
        tail + (usize::MAX as int + 1) - head
    }
}

/// The number of items in flight (`tail.wrapping_sub(head)`).
pub fn occupancy(head: usize, tail: usize) -> (r: usize)
    ensures
        r == in_flight(head, tail),
{
    if tail >= head {
        tail - head
    } else {
        (usize::MAX - head) + tail + 1
    }
}

/// `true` iff the producer cannot push: `capacity` items are in
/// flight.
pub fn is_full(head: usize, tail: usize, capacity: usize) -> (r: bool)
    ensures
        r == (in_flight(head, tail) == capacity),
{
    occupancy(head, tail) == capacity
}

/// `true` iff the consumer cannot pop: nothing is in flight.
pub fn is_empty(head: usize, tail: usize) -> (r: bool)
    ensures
        r == (head == tail),
{
    head == tail
}

/// The storage slot a position maps to.
pub fn slot(position: usize, capacity: usize) -> (r: usize)
    requires
        capacity > 0,
    ensures
        r == position % capacity,
        r < capacity,
{
    position % capacity
}

/// The position after `position` (`wrapping_add(1)`).
pub fn next_position(position: usize) -> (r: usize)
    ensures
        r == if position == usize::MAX {
            0
        } else {
            position + 1
        },
{
    if position == usize::MAX {
        0
    } else {
        position + 1
    }
}

/// Advancing the producer by one adds one item in flight, and
/// advancing the consumer by one removes one, whatever the counters'
/// wrap-around.
pub proof fn lemma_push_pop_occupancy(head: usize, tail: usize)
    requires
        in_flight(head, tail) < usize::MAX,
    ensures
        in_flight(head, if tail == usize::MAX { 0 } else { (tail + 1) as usize }) == in_flight(
            head,
            tail,
        ) + 1,
        head != tail ==> in_flight(if head == usize::MAX { 0 } else { (head + 1) as usize }, tail)
            == in_flight(head, tail) - 1,
{
}

} // verus!
