//! Queue-wide laws, stated over the sequence view that the operations'
//! contracts use.

use vstd::prelude::*;

verus! {

/// The contents of a queue whose view is `s` after `k` further dequeues,
/// each of which (by `dequeue`'s contract) removes the oldest value.
pub open spec fn after_dequeues<T>(s: Seq<T>, k: int) -> Seq<T>
    decreases k,
{
    if k <= 0 {
        s
    } else {
        after_dequeues(s, k - 1).drop_first()
    }
}

/// FIFO order: from a queue whose contents are `s`, the `k`-th of a run of
/// dequeues returns `s[k]` — values leave in exactly the order they were
/// enqueued, and what remains after `k` dequeues is the rest of `s`.
pub proof fn lemma_fifo_order<T>(s: Seq<T>, k: int)
    requires
        0 <= k < s.len(),
    ensures
        after_dequeues(s, k).first() == s[k],
        after_dequeues(s, k) == s.subrange(k, s.len() as int),
    decreases k,
{
    if k == 0 {
        assert(after_dequeues(s, 0) =~= s.subrange(0, s.len() as int));
    } else {
        lemma_fifo_order(s, k - 1);
        assert(s.subrange(k - 1, s.len() as int).drop_first() =~= s.subrange(k, s.len() as int));
    }
}

/// Enqueues interleaved with dequeues never disturb the values already
/// pending: appending `v` to contents `s` leaves every pending value, and its
/// position, unchanged, and places `v` last, so `v` is returned by the
/// `s.len()`-th dequeue after it and by no other.
pub proof fn lemma_enqueue_preserves_pending<T>(s: Seq<T>, v: T)
    ensures
        forall|k: int| 0 <= k < s.len() ==> s.push(v)[k] == s[k],
        s.push(v)[s.len() as int] == v,
        s.push(v).len() == s.len() + 1,
{
}

/// No loss, no duplication: counting values as a multiset, a successful
/// enqueue adds exactly one occurrence of the stored value, and a dequeue
/// from a non-empty queue removes exactly one occurrence of the returned
/// value; no operation touches any other occurrence.
pub proof fn lemma_no_loss_no_duplication<T>(s: Seq<T>, v: T)
    ensures
        s.push(v).to_multiset() == s.to_multiset().insert(v),
        s.len() > 0 ==> s.to_multiset() == s.drop_first().to_multiset().insert(s.first()),
{
    broadcast use vstd::seq_lib::group_to_multiset_ensures;
    broadcast use vstd::multiset::group_multiset_axioms;

    if s.len() > 0 {
        assert(s.drop_first() =~= s.remove(0));
        assert(s.remove(0).to_multiset() == s.to_multiset().remove(s[0]));
        assert(s.contains(s[0]));
        assert(s.to_multiset().count(s[0]) > 0);
        assert(s.to_multiset().remove(s[0]).insert(s[0]) =~= s.to_multiset());
    }
}

} // verus!
