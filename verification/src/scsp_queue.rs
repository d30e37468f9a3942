//! The lock-free-style ring queue: a fixed ring of optional slots and the
//! two positions that the producer and the consumer advance.

use vstd::prelude::*;

verus! {

/// A fixed-capacity ring-buffer queue for one producer and one consumer.
///
/// `buffer` holds `size` slots; the slots from `r_pos` up to (but excluding)
/// `w_pos`, wrapping modulo `size`, hold the live values in insertion order,
/// and every other slot is explicitly empty. One slot always stays empty, so
/// the ring holds at most `size - 1` values and `r_pos == w_pos` means empty
/// rather than full.
pub struct ScspFixedLockFreeQueue<T> {
    size: usize,
    buffer: Vec<Option<T>>,
    r_pos: usize,
    w_pos: usize,
}

impl<T> View for ScspFixedLockFreeQueue<T> {
    type V = Seq<T>;

    /// The live values, oldest first.
    closed spec fn view(&self) -> Seq<T> {
        Seq::new(self.spec_len() as nat, |k: int| self.buffer[self.slot_of(k)]->0)
    }
}

impl<T> ScspFixedLockFreeQueue<T> {
    /// Number of live values: the distance from `r_pos` to `w_pos` around the ring.
    spec fn spec_len(&self) -> int {
        if self.w_pos >= self.r_pos {
            self.w_pos - self.r_pos
        } else {
            self.w_pos + self.size - self.r_pos
        }
    }

    /// The buffer index holding the `k`-th oldest live value.
    spec fn slot_of(&self, k: int) -> int {
        if self.r_pos + k < self.size {
            self.r_pos + k
        } else {
            self.r_pos + k - self.size
        }
    }

    /// Whether buffer index `i` lies in the occupied region `[r_pos, w_pos)`,
    /// taken modulo `size`.
    spec fn slot_live(&self, i: int) -> bool {
        if self.w_pos >= self.r_pos {
            self.r_pos <= i < self.w_pos
        } else {
            0 <= i < self.w_pos || self.r_pos <= i < self.size
        }
    }

    /// The fixed number of slots; at most `capacity() - 1` values are live at once.
    pub closed spec fn capacity(&self) -> int {
        self.size as int
    }

    /// Internal consistency: the positions address the ring, and a slot holds
    /// a value exactly when it lies in the occupied region.
    pub closed spec fn well_formed(&self) -> bool {
        &&& 1 <= self.size
        &&& self.buffer.len() == self.size
        &&& self.r_pos < self.size
        &&& self.w_pos < self.size
        &&& forall|i: int|
            0 <= i < self.size ==> ((#[trigger] self.buffer[i]) is Some <==> self.slot_live(i))
    }

    /// Builds an empty queue with `size` slots, all explicitly empty.
    /// A usable queue needs at least two slots, since one slot always stays
    /// empty; `size` zero is rejected here, so a queue always has a ring.
    pub fn new(size: usize) -> (queue: Self)
        requires
            size >= 1,
        ensures
            queue.well_formed(),
            queue@ == Seq::<T>::empty(),
            queue.capacity() == size as int,
    {
        let mut buffer: Vec<Option<T>> = Vec::new();
        let mut i: usize = 0;
        while i < size
            invariant
                i <= size,
                buffer@.len() == i,
                forall|j: int| 0 <= j < i ==> (#[trigger] buffer@[j]) is None,
            decreases size - i,
        {
            buffer.push(None);
            i += 1;
        }
        let queue = ScspFixedLockFreeQueue { size, buffer, r_pos: 0, w_pos: 0 };
        proof {
            assert(queue@ =~= Seq::<T>::empty());
        }
        queue
    }

    /// Producer side: stores `write` into the slot at the write position and
    /// advances that position, appending the value to the queue's contents.
    /// When only the reserved slot is free the ring is full: the value is
    /// handed back to the caller untouched and nothing changes.
    pub fn enqueue(&mut self, write: T) -> (result: Result<(), T>)
        requires
            old(self).well_formed(),
        ensures
            final(self).well_formed(),
            final(self).capacity() == old(self).capacity(),
            result is Ok <==> old(self)@.len() + 1 < old(self).capacity(),
            result is Ok ==> final(self)@ == old(self)@.push(write),
            result is Err ==> final(self)@ == old(self)@ && result->Err_0 == write,
    {
        let w_next = self.next_pos(self.w_pos);
        if self.r_pos == w_next {
            proof {
                assert(old(self).spec_len() == old(self).size - 1);
            }
            return Err(write);
        }
        self.buffer.set(self.w_pos, Some(write));
        self.w_pos = w_next;
        proof {
            let pre = *old(self);
            assert(self.spec_len() == pre.spec_len() + 1);
            assert forall|i: int| 0 <= i < self.size implies ((#[trigger] self.buffer[i]) is Some
                <==> self.slot_live(i)) by {
                assert(self.slot_live(i) <==> (pre.slot_live(i) || i == pre.w_pos));
            }
            assert forall|k: int| 0 <= k < self.spec_len() implies self@[k] == pre@.push(write)[k] by {
                if k < pre.spec_len() {
                    assert(self.slot_of(k) == pre.slot_of(k));
                    assert(pre.slot_of(k) != pre.w_pos);
                } else {
                    assert(self.slot_of(k) == pre.w_pos as int);
                }
            }
            assert(self@ =~= pre@.push(write));
        }
        Ok(())
    }

    /// Consumer side: when a value is live, moves the oldest one out, leaves
    /// its slot explicitly empty, and advances the read position; when the
    /// positions coincide the queue is empty and nothing changes.
    pub fn dequeue(&mut self) -> (result: Option<T>)
        requires
            old(self).well_formed(),
        ensures
            final(self).well_formed(),
            final(self).capacity() == old(self).capacity(),
            result is Some <==> old(self)@.len() > 0,
            result is Some ==> result->0 == old(self)@[0] && final(self)@ == old(self)@.drop_first(),
            result is None ==> final(self)@ == old(self)@,
    {
        if self.r_pos == self.w_pos {
            return None;
        }
        proof {
            assert(old(self).slot_live(old(self).r_pos as int));
            assert(old(self).slot_of(0) == old(self).r_pos as int);
        }
        let slot = self.buffer.remove(self.r_pos);
        self.buffer.insert(self.r_pos, None);
        self.r_pos = self.next_pos(self.r_pos);
        proof {
            let pre = *old(self);
            assert(self.buffer@ =~= pre.buffer@.update(pre.r_pos as int, None::<T>));
            assert(self.spec_len() == pre.spec_len() - 1);
            assert forall|i: int| 0 <= i < self.size implies ((#[trigger] self.buffer[i]) is Some
                <==> self.slot_live(i)) by {
                assert(self.slot_live(i) <==> (pre.slot_live(i) && i != pre.r_pos));
            }
            assert forall|k: int| 0 <= k < self.spec_len() implies self@[k]
                == pre@.drop_first()[k] by {
                assert(self.slot_of(k) == pre.slot_of(k + 1));
                assert(pre.slot_of(k + 1) != pre.r_pos);
            }
            assert(self@ =~= pre@.drop_first());
        }
        slot
    }

    /// A momentary count of the live values. Under concurrent use this is a
    /// diagnostic snapshot only; it is exact for the thread that owns the queue.
    pub fn len(&self) -> (n: usize)
        requires
            self.well_formed(),
        ensures
            n == self@.len(),
    {
        if self.w_pos >= self.r_pos {
            self.w_pos - self.r_pos
        } else {
            self.size - self.r_pos + self.w_pos
        }
    }

    /// The position after `pos`, wrapping at the end of the ring.
    fn next_pos(&self, pos: usize) -> (next: usize)
        requires
            1 <= self.size,
            pos < self.size,
        ensures
            next < self.size,
            next == if pos + 1 == self.size { 0int } else { pos + 1 },
    {
        if pos == self.size - 1 {
            return 0;
        }
        pos + 1
    }
}

/// Capacity bound: a well-formed queue never holds more than `capacity() - 1`
/// values, since one slot always stays empty to mark the ring as non-full.
pub proof fn lemma_capacity_bound<T>(queue: &ScspFixedLockFreeQueue<T>)
    requires
        queue.well_formed(),
    ensures
        0 <= queue@.len() < queue.capacity(),
{
}

/// Construction edge case: a queue with a single slot can never hold a value,
/// because that slot is the reserved empty one; by `enqueue`'s contract every
/// `enqueue` on such a queue reports full.
pub proof fn lemma_capacity_one_never_holds<T>(queue: &ScspFixedLockFreeQueue<T>)
    requires
        queue.well_formed(),
        queue.capacity() == 1,
    ensures
        queue@.len() == 0,
        !(queue@.len() + 1 < queue.capacity()),
{
}

} // verus!
