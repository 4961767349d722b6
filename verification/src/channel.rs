//! Bounded single-producer/single-consumer FIFO of samples.
//!
//! The channel is the primitive under the latency relay: a fixed number of
//! slots, a non-blocking push and a non-blocking pop. Capacity is set at
//! construction and never changes; a push into a full channel is rejected
//! rather than blocking or growing the buffer, and a pop from an empty
//! channel returns nothing rather than waiting.

use std::collections::VecDeque;
use vstd::prelude::*;

verus! {

/// A single audio sample, carried as the 32-bit encoding of its amplitude.
/// The relay never interprets amplitudes — it only moves these words — so the
/// encoding is opaque here; the all-zero word encodes silence.
pub type Sample = u32;

/// The sample word that encodes silence (zero amplitude).
pub const SILENCE: Sample = 0;

/// A bounded FIFO of samples. Exactly one producer pushes and exactly one
/// consumer pops; both operations are non-blocking and the storage is
/// allocated once, at construction.
#[derive(Debug)]
pub struct SampleChannel {
    queue: VecDeque<Sample>,
    capacity: usize,
}

impl SampleChannel {
    /// The samples currently queued, oldest first.
    pub closed spec fn contents(&self) -> Seq<Sample> {
        self.queue@
    }

    /// The fixed number of slots.
    pub closed spec fn cap(&self) -> nat {
        self.capacity as nat
    }

    /// The channel never holds more samples than it has slots.
    pub open spec fn wf(&self) -> bool {
        self.contents().len() <= self.cap()
    }

    /// An empty channel with `capacity` slots, all storage allocated up front.
    pub fn new(capacity: usize) -> (c: SampleChannel)
        ensures
            c.wf(),
            c.cap() == capacity,
            c.contents() == Seq::<Sample>::empty(),
    {
        SampleChannel { queue: VecDeque::with_capacity(capacity), capacity }
    }

    /// How many slots the channel was built with.
    pub fn capacity(&self) -> (n: usize)
        ensures
            n == self.cap(),
    {
        self.capacity
    }

    /// Non-blocking push: the sample is appended iff a slot is free.
    pub fn try_push(&mut self, sample: Sample) -> (accepted: bool)
        requires
            old(self).wf(),
        ensures
            final(self).wf(),
            final(self).cap() == old(self).cap(),
            accepted == (old(self).contents().len() < old(self).cap()),
            accepted ==> final(self).contents() == old(self).contents().push(sample),
            !accepted ==> final(self).contents() == old(self).contents(),
    {
        if self.queue.len() < self.capacity {
            self.queue.push_back(sample);
            true
        } else {
            false
        }
    }

    /// Non-blocking pop: the oldest queued sample, or `None` when empty.
    pub fn try_pop(&mut self) -> (popped: Option<Sample>)
        requires
            old(self).wf(),
        ensures
            final(self).wf(),
            final(self).cap() == old(self).cap(),
            match popped {
                Some(s) => old(self).contents().len() > 0 && s == old(self).contents()[0]
                    && final(self).contents() == old(self).contents().drop_first(),
                None => old(self).contents().len() == 0 && final(self).contents() == old(
                    self,
                ).contents(),
            },
    {
        self.queue.pop_front()
    }
}

} // verus!
