//! A second face of the ring queue whose operations report a `ReturnCode`
//! and whose `dequeue` writes the value through a caller-supplied slot.

use crate::scsp_queue::ScspFixedLockFreeQueue;
use crate::scsp_queue::lemma_capacity_bound;
use vstd::prelude::*;

verus! {

/// Outcome of a queue operation. `Busy` reports a caller on each side finding
/// the other mid-operation; a queue owned through `&mut` is never busy, so
/// this implementation only ever reports `Done`, `Full` or `Empty`.
#[derive(Clone, Copy, Debug, PartialEq, Eq, Structural)]
pub enum ReturnCode {
    Done,
    Full,
    Empty,
    Busy,
}

/// The same ring queue behind a `ReturnCode`-reporting face: `enqueue` tells
/// the producer whether the value was stored, and `dequeue` writes the oldest
/// value through a caller-supplied slot instead of returning an option.
pub struct FixedQueue<T> {
    inner: ScspFixedLockFreeQueue<T>,
}

impl<T> View for FixedQueue<T> {
    type V = Seq<T>;

    /// The live values, oldest first.
    closed spec fn view(&self) -> Seq<T> {
        self.inner@
    }
}

impl<T> FixedQueue<T> {
    /// The fixed number of slots; at most `capacity() - 1` values are live at once.
    pub closed spec fn capacity(&self) -> int {
        self.inner.capacity()
    }

    /// Internal consistency of the underlying ring.
    pub closed spec fn well_formed(&self) -> bool {
        self.inner.well_formed()
    }

    /// Builds an empty queue with `size` slots; `size` zero is rejected here.
    pub fn new(size: usize) -> (queue: Self)
        requires
            size >= 1,
        ensures
            queue.well_formed(),
            queue@ == Seq::<T>::empty(),
            queue.capacity() == size as int,
    {
        FixedQueue { inner: ScspFixedLockFreeQueue::new(size) }
    }

    /// Consumer side: on `Done` the oldest value has been moved into `*read`
    /// and removed from the queue; on `Empty` neither the queue nor `*read`
    /// has changed.
    pub fn dequeue(&mut self, read: &mut T) -> (code: ReturnCode)
        requires
            old(self).well_formed(),
        ensures
            final(self).well_formed(),
            final(self).capacity() == old(self).capacity(),
            code == ReturnCode::Done <==> old(self)@.len() > 0,
            code == ReturnCode::Done ==> *final(read) == old(self)@[0] && final(self)@ == old(
                self,
            )@.drop_first(),
            code == ReturnCode::Empty ==> *final(read) == *old(read) && final(self)@ == old(self)@,
            code == ReturnCode::Done || code == ReturnCode::Empty,
    {
        match self.inner.dequeue() {
            Some(value) => {
                *read = value;
                ReturnCode::Done
            },
            None => ReturnCode::Empty,
        }
    }

    /// Producer side: on `Done` the value has been appended; on `Full` the
    /// queue is unchanged and the value is dropped, as the caller keeps no
    /// handle to it under this face's signature.
    pub fn enqueue(&mut self, write: T) -> (code: ReturnCode)
        requires
            old(self).well_formed(),
        ensures
            final(self).well_formed(),
            final(self).capacity() == old(self).capacity(),
            code == ReturnCode::Done <==> old(self)@.len() + 1 < old(self).capacity(),
            code == ReturnCode::Done ==> final(self)@ == old(self)@.push(write),
            code == ReturnCode::Full ==> final(self)@ == old(self)@,
            code == ReturnCode::Done || code == ReturnCode::Full,
    {
        match self.inner.enqueue(write) {
            Ok(()) => ReturnCode::Done,
            Err(_rejected) => ReturnCode::Full,
        }
    }

    /// A momentary count of the live values.
    pub fn len(&self) -> (n: usize)
        requires
            self.well_formed(),
        ensures
            n == self@.len(),
    {
        self.inner.len()
    }
}

/// Capacity bound for this face: a well-formed queue never holds more than
/// `capacity() - 1` values.
pub proof fn lemma_fixed_capacity_bound<T>(queue: &FixedQueue<T>)
    requires
        queue.well_formed(),
    ensures
        0 <= queue@.len() < queue.capacity(),
{
    lemma_capacity_bound(&queue.inner);
}

} // verus!
