use vstd::prelude::*;

use ringbuffer::{AllocRingBuffer, RingBuffer};

verus! {

#[verifier::external_type_specification]
#[verifier::external_body]
#[verifier::reject_recursive_types(T)]
pub struct ExAllocRingBuffer<T>(AllocRingBuffer<T>);

/// The elements of a ring buffer, oldest first.
pub uninterp spec fn ring_items(b: AllocRingBuffer<Vec<u8>>) -> Seq<Seq<u8>>;

/// The number of elements a ring buffer holds at most.
pub uninterp spec fn ring_capacity(b: AllocRingBuffer<Vec<u8>>) -> nat;

/// The largest capacity a [`PacketRing`] is made with, under 2^58 on 64-bit
/// targets: `AllocRingBuffer` rounds the capacity up to a power of two, which
/// past this no longer fits `Layout::array` for elements of a `Vec`'s size.
pub const MAX_RING_CAPACITY: usize = usize::MAX / 64;

/// Relies on `AllocRingBuffer::new`: an empty buffer of the given capacity, which
/// panics on a capacity of zero.
#[verifier::external_body]
fn ring_new(capacity: usize) -> (r: AllocRingBuffer<Vec<u8>>)
    requires
        0 < capacity <= MAX_RING_CAPACITY,
    ensures
        ring_items(r) == Seq::<Seq<u8>>::empty(),
        ring_capacity(r) == capacity,
{
    AllocRingBuffer::new(capacity)
}

/// Relies on `RingBuffer::enqueue` of `AllocRingBuffer`: the value goes to the back,
/// and where the buffer is full the oldest element is dropped first.
#[verifier::external_body]
fn ring_enqueue(b: &mut AllocRingBuffer<Vec<u8>>, value: Vec<u8>)
    requires
        0 < ring_capacity(*old(b)),
        ring_items(*old(b)).len() <= ring_capacity(*old(b)),
    ensures
        ring_capacity(*final(b)) == ring_capacity(*old(b)),
        ring_items(*final(b)) == if ring_items(*old(b)).len() < ring_capacity(*old(b)) {
            ring_items(*old(b)).push(value@)
        } else {
            ring_items(*old(b)).drop_first().push(value@)
        },
{
    let _ = b.enqueue(value);
}

/// Relies on `RingBuffer::len` of `AllocRingBuffer`: the number of elements held.
#[verifier::external_body]
fn ring_len(b: &AllocRingBuffer<Vec<u8>>) -> (r: usize)
    ensures
        r == ring_items(*b).len(),
{
    b.len()
}

/// Relies on `RingBuffer::to_vec` of `AllocRingBuffer`: clones of the elements,
/// oldest first.
#[verifier::external_body]
fn ring_to_vec(b: &AllocRingBuffer<Vec<u8>>) -> (r: Vec<Vec<u8>>)
    ensures
        r@.len() == ring_items(*b).len(),
        forall|i: int| 0 <= i < r@.len() ==> #[trigger] r@[i]@ == ring_items(*b)[i],
{
    b.to_vec()
}

/// A fixed-capacity queue of byte blobs that, once full, drops its oldest element
/// to take a new one.
pub struct PacketRing {
    ring: AllocRingBuffer<Vec<u8>>,
}

impl PacketRing {
    /// The elements held, oldest first.
    pub closed spec fn items(&self) -> Seq<Seq<u8>> {
        ring_items(self.ring)
    }

    /// The capacity the queue was made with.
    pub closed spec fn capacity(&self) -> nat {
        ring_capacity(self.ring)
    }

    pub open spec fn wf(&self) -> bool {
        0 < self.capacity() && self.items().len() <= self.capacity()
    }

    /// What pushing `value` onto a queue of `items` with room for `capacity` leaves.
    pub open spec fn pushed(items: Seq<Seq<u8>>, capacity: nat, value: Seq<u8>) -> Seq<Seq<u8>> {
        if items.len() < capacity {
            items.push(value)
        } else {
            items.drop_first().push(value)
        }
    }

    pub fn new(capacity: usize) -> (r: PacketRing)
        requires
            0 < capacity <= MAX_RING_CAPACITY,
        ensures
            r.wf(),
            r.items() == Seq::<Seq<u8>>::empty(),
            r.capacity() == capacity,
    {
        PacketRing { ring: ring_new(capacity) }
    }

    pub fn push(&mut self, value: Vec<u8>)
        requires
            old(self).wf(),
        ensures
            final(self).wf(),
            final(self).capacity() == old(self).capacity(),
            final(self).items() == Self::pushed(old(self).items(), old(self).capacity(), value@),
    {
        ring_enqueue(&mut self.ring, value);
    }

    /// The elements held, oldest first.
    pub fn to_vec(&self) -> (r: Vec<Vec<u8>>)
        ensures
            r@.len() == self.items().len(),
            forall|i: int| 0 <= i < r@.len() ==> #[trigger] r@[i]@ == self.items()[i],
    {
        ring_to_vec(&self.ring)
    }

    pub fn len(&self) -> (r: usize)
        ensures
            r == self.items().len(),
    {
        ring_len(&self.ring)
    }
}

} // verus!
