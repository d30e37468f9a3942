use ouraglyfi::scsp_queue::ScspFixedLockFreeQueue;

use std::cell::Cell;
use std::rc::Rc;

#[test]
fn fifo_order() {
    let mut queue: ScspFixedLockFreeQueue<u64> = ScspFixedLockFreeQueue::new(8);
    for n in 0u64..7 {
        assert!(queue.enqueue(n).is_ok());
    }
    for n in 0u64..7 {
        assert_eq!(queue.dequeue(), Some(n));
    }
    assert_eq!(queue.dequeue(), None);
}

#[test]
fn fifo_order_with_interleaved_enqueues() {
    let mut queue: ScspFixedLockFreeQueue<u64> = ScspFixedLockFreeQueue::new(4);
    assert!(queue.enqueue(1).is_ok());
    assert!(queue.enqueue(2).is_ok());
    assert_eq!(queue.dequeue(), Some(1));
    assert!(queue.enqueue(3).is_ok());
    assert_eq!(queue.dequeue(), Some(2));
    assert_eq!(queue.dequeue(), Some(3));
    assert_eq!(queue.dequeue(), None);
}

#[test]
fn no_loss_no_duplication() {
    let mut queue: ScspFixedLockFreeQueue<u64> = ScspFixedLockFreeQueue::new(5);
    let mut stored: Vec<u64> = Vec::new();
    let mut returned: Vec<u64> = Vec::new();
    // A mixed run: bursts of enqueues (some rejected on a full ring) and
    // bursts of dequeues.
    let mut next: u64 = 0;
    for round in 0..50 {
        for _ in 0..(round % 7) {
            if queue.enqueue(next).is_ok() {
                stored.push(next);
            }
            next += 1;
        }
        for _ in 0..(round % 5) {
            if let Some(value) = queue.dequeue() {
                returned.push(value);
            }
        }
    }
    while let Some(value) = queue.dequeue() {
        returned.push(value);
    }
    // Every stored value comes back exactly once, in order.
    assert_eq!(stored, returned);
}

#[test]
fn capacity_bound() {
    let mut queue: ScspFixedLockFreeQueue<u64> = ScspFixedLockFreeQueue::new(4);
    assert!(queue.len() <= 3);
    assert!(queue.enqueue(1).is_ok());
    assert!(queue.enqueue(2).is_ok());
    assert!(queue.enqueue(3).is_ok());
    assert_eq!(queue.len(), 3);
    // Holding capacity - 1 values, the next enqueue must fail ...
    assert_eq!(queue.enqueue(4), Err(4));
    assert_eq!(queue.len(), 3);
    // ... and after one dequeue it must succeed again.
    assert_eq!(queue.dequeue(), Some(1));
    assert!(queue.enqueue(4).is_ok());
    assert_eq!(queue.len(), 3);
}

#[test]
fn empty_full_correctness() {
    let mut queue: ScspFixedLockFreeQueue<String> = ScspFixedLockFreeQueue::new(3);
    // A fresh queue reports empty on the first dequeue.
    assert_eq!(queue.dequeue(), None);
    assert!(queue.enqueue(String::from("a")).is_ok());
    assert!(queue.enqueue(String::from("b")).is_ok());
    // Filled to capacity - 1, the next enqueue fails and hands the value back.
    match queue.enqueue(String::from("c")) {
        Ok(()) => panic!("enqueue on a full ring must fail"),
        Err(rejected) => assert_eq!(rejected, "c"),
    }
    assert_eq!(queue.dequeue(), Some(String::from("a")));
    assert_eq!(queue.dequeue(), Some(String::from("b")));
    assert_eq!(queue.dequeue(), None);
}

#[test]
fn round_trip_under_load() {
    // A producer enqueues 0..N (retrying on full) while a consumer dequeues N
    // values (retrying on empty) and sums them; nothing is lost or repeated.
    let n: u64 = 500_000;
    let mut queue: ScspFixedLockFreeQueue<u64> = ScspFixedLockFreeQueue::new(8);
    let mut produced: u64 = 0;
    let mut consumed: u64 = 0;
    let mut sum: u64 = 0;
    while consumed < n {
        if produced < n {
            match queue.enqueue(produced) {
                Ok(()) => produced += 1,
                Err(rejected) => assert_eq!(rejected, produced),
            }
        }
        if let Some(value) = queue.dequeue() {
            assert_eq!(value, consumed);
            sum += value;
            consumed += 1;
        }
    }
    assert_eq!(sum, n * (n - 1) / 2);
}

#[test]
fn construction_capacity_one() {
    // One slot is the reserved empty sentinel, so such a queue never holds a value.
    let mut queue: ScspFixedLockFreeQueue<u64> = ScspFixedLockFreeQueue::new(1);
    for attempt in 0u64..10 {
        assert_eq!(queue.enqueue(attempt), Err(attempt));
        assert_eq!(queue.dequeue(), None);
        assert_eq!(queue.len(), 0);
    }
}

/// A value that counts its live instances through a shared cell, to observe
/// leaks or double drops.
struct Tracker {
    live: Rc<Cell<i64>>,
}

impl Tracker {
    fn new(live: &Rc<Cell<i64>>) -> Tracker {
        live.set(live.get() + 1);
        Tracker { live: Rc::clone(live) }
    }
}

impl Drop for Tracker {
    fn drop(&mut self) {
        self.live.set(self.live.get() - 1);
    }
}

#[test]
fn ownership_integrity() {
    let live = Rc::new(Cell::new(0i64));
    {
        let mut queue: ScspFixedLockFreeQueue<Tracker> = ScspFixedLockFreeQueue::new(4);
        for _ in 0..3 {
            assert!(queue.enqueue(Tracker::new(&live)).is_ok());
        }
        assert_eq!(live.get(), 3);
        // A rejected value is handed back, still alive, and dropped by us.
        match queue.enqueue(Tracker::new(&live)) {
            Ok(()) => panic!("enqueue on a full ring must fail"),
            Err(rejected) => drop(rejected),
        }
        assert_eq!(live.get(), 3);
        // Dequeuing transfers ownership out; the slot keeps no copy behind.
        let taken = queue.dequeue().unwrap();
        drop(taken);
        assert_eq!(live.get(), 2);
        assert!(queue.enqueue(Tracker::new(&live)).is_ok());
        assert_eq!(live.get(), 3);
        // The queue is dropped while still holding values.
    }
    assert_eq!(live.get(), 0);
}
