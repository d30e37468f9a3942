//! A fixed-capacity single-producer/single-consumer ring-buffer queue.
//!
//! The queue owns `capacity` storage slots, each either empty or holding one
//! value, and two indices that advance modulo the capacity. One slot is
//! permanently reserved so that an empty ring (`read index == write index`)
//! can be told apart from a full one, which bounds the number of live
//! elements by `capacity - 1`.
//!
//! The contracts describe the queue as a sequence of the values it currently
//! holds, in insertion order: `enqueue` appends to that sequence or rejects
//! the value when the ring is full, and `dequeue` removes the oldest value.
//! Sharing one queue between exactly one producer thread and one consumer
//! thread is the caller's obligation and lies outside these contracts.

pub mod fixed_queue;
pub mod laws;
pub mod scsp_queue;
