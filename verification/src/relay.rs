//! The latency relay: a sample channel pre-filled with silence, fed by the
//! capture side in batches and drained by the render side in fixed-size
//! requests.
//!
//! The prefilled silence is what creates the configured delay: the render
//! side drains it before the first captured sample arrives. A batch that
//! does not fit reports an overrun and drops only the samples the channel
//! had no room for; a request that exceeds what is queued reports an
//! underrun and pads with silence, so the render side always gets exactly
//! what it asked for. Overrun and underrun are advisory flow-control
//! signals, not errors: they never change state and never abort a stream.

use vstd::prelude::*;

use crate::channel::SILENCE;
use crate::channel::Sample;
use crate::channel::SampleChannel;
use crate::config::ConfigError;
use crate::config::StreamParams;
use crate::config::compute_capacity;
use crate::config::session_capacity;
use crate::config::validate_match;

verus! {

/// A run of `n` silence samples.
pub open spec fn silence(n: nat) -> Seq<Sample> {
    Seq::new(n, |i: int| SILENCE)
}

/// What a relay holds after a batch is fed: the old contents, then as much of
/// the batch as fits in the remaining room. Samples past the available room
/// are dropped (each is still attempted, so the loss is per-sample, not a
/// halt of the whole batch).
pub open spec fn feed_contents(contents: Seq<Sample>, cap: nat, batch: Seq<Sample>) -> Seq<
    Sample,
> {
    if contents.len() + batch.len() <= cap {
        contents + batch
    } else {
        contents + batch.take(cap - contents.len())
    }
}

/// A feed reports an overrun exactly when the batch does not fit in the room
/// the relay has left.
pub open spec fn feed_overrun(contents: Seq<Sample>, cap: nat, batch: Seq<Sample>) -> bool {
    contents.len() + batch.len() > cap
}

/// What a drain of `count` samples returns: the oldest queued samples, padded
/// with silence up to exactly `count` when the relay runs dry.
pub open spec fn drain_output(contents: Seq<Sample>, count: nat) -> Seq<Sample> {
    if count <= contents.len() {
        contents.take(count as int)
    } else {
        contents + silence((count - contents.len()) as nat)
    }
}

/// What a relay still holds after a drain of `count` samples.
pub open spec fn drain_rest(contents: Seq<Sample>, count: nat) -> Seq<Sample> {
    if count <= contents.len() {
        contents.skip(count as int)
    } else {
        Seq::empty()
    }
}

/// A drain reports an underrun exactly when it asks for more samples than
/// are queued.
pub open spec fn drain_underrun(contents: Seq<Sample>, count: nat) -> bool {
    count > contents.len()
}

/// The core entity: a bounded sample channel plus the prefill that set up the
/// session's delay. The write half belongs to the capture side, the read half
/// to the render side; `feed` and `drain` are the entire public contract.
#[derive(Debug)]
pub struct LatencyRelay {
    channel: SampleChannel,
    prefill: usize,
}

impl LatencyRelay {
    /// The samples in flight, oldest first.
    pub closed spec fn contents(&self) -> Seq<Sample> {
        self.channel.contents()
    }

    /// The fixed number of sample slots.
    pub closed spec fn cap(&self) -> nat {
        self.channel.cap()
    }

    /// How many silence samples were written at construction.
    pub closed spec fn prefill_amount(&self) -> nat {
        self.prefill as nat
    }

    /// At most `cap` samples are ever in flight, and the prefill never
    /// exceeded the capacity.
    pub open spec fn wf(&self) -> bool {
        self.contents().len() <= self.cap() && self.prefill_amount() <= self.cap()
    }

    /// Builds a relay with `capacity` sample slots holding `prefill` silence
    /// samples. A zero capacity, or a prefill beyond the capacity, is a
    /// configuration error: no relay is created.
    pub fn new(capacity: usize, prefill: usize) -> (r: Result<LatencyRelay, ConfigError>)
        ensures
            match r {
                Ok(relay) => 1 <= capacity && prefill <= capacity && relay.wf() && relay.cap()
                    == capacity && relay.prefill_amount() == prefill && relay.contents() == silence(
                    prefill as nat,
                ),
                Err(e) => if capacity == 0 {
                    e == ConfigError::ZeroCapacity
                } else {
                    prefill > capacity && e == ConfigError::PrefillExceedsCapacity
                },
            },
    {
        if capacity == 0 {
            return Err(ConfigError::ZeroCapacity);
        }
        if prefill > capacity {
            return Err(ConfigError::PrefillExceedsCapacity);
        }
        let mut channel = SampleChannel::new(capacity);
        let mut i: usize = 0;
        while i < prefill
            invariant
                i <= prefill <= capacity,
                channel.wf(),
                channel.cap() == capacity,
                channel.contents() == silence(i as nat),
            decreases prefill - i,
        {
            let accepted = channel.try_push(SILENCE);
            proof {
                assert(accepted);
                assert(silence(i as nat).push(SILENCE) =~= silence((i + 1) as nat));
            }
            i = i + 1;
        }
        Ok(LatencyRelay { channel, prefill })
    }

    /// Builds the relay for a whole session: checks that capture and render
    /// agree on format, sizes the relay from the target latency, and prefills
    /// it to its full capacity, so the configured delay is in place before
    /// either stream starts. Every way the configuration can be rejected is
    /// decided here, before any stream exists.
    pub fn for_session(capture: &StreamParams, render: &StreamParams, latency_ms: u64) -> (r:
        Result<LatencyRelay, ConfigError>)
        ensures
            ({
                let cap = session_capacity(
                    latency_ms as int,
                    render.sample_rate as int,
                    render.channel_count as int,
                );
                match r {
                    Ok(relay) => capture.sample_rate == render.sample_rate
                        && capture.channel_count == render.channel_count && 1 <= cap
                        && cap <= usize::MAX && relay.wf() && relay.cap() == cap
                        && relay.prefill_amount() == cap && relay.contents() == silence(cap as nat),
                    Err(e) => if capture.sample_rate != render.sample_rate {
                        e == ConfigError::SampleRateMismatch
                    } else if capture.channel_count != render.channel_count {
                        e == ConfigError::ChannelCountMismatch
                    } else if cap > usize::MAX {
                        e == ConfigError::CapacityOverflow
                    } else {
                        cap == 0 && e == ConfigError::ZeroCapacity
                    },
                }
            }),
    {
        validate_match(capture, render)?;
        let capacity = compute_capacity(latency_ms, render)?;
        LatencyRelay::new(capacity, capacity)
    }

    /// How many sample slots the relay was built with.
    pub fn capacity(&self) -> (n: usize)
        ensures
            n == self.cap(),
    {
        self.channel.capacity()
    }

    /// How many silence samples established the initial delay.
    pub fn prefill(&self) -> (n: usize)
        ensures
            n == self.prefill_amount(),
    {
        self.prefill
    }

    /// Feeds a batch of captured samples, attempting every sample in order so
    /// none disappears without at least an attempt. Returns whether an
    /// overrun occurred: true exactly when the batch did not fit, in which
    /// case only the samples past the available room were dropped.
    pub fn feed(&mut self, samples: &[Sample]) -> (overrun: bool)
        requires
            old(self).wf(),
        ensures
            final(self).wf(),
            final(self).cap() == old(self).cap(),
            final(self).prefill_amount() == old(self).prefill_amount(),
            final(self).contents() == feed_contents(old(self).contents(), old(self).cap(), samples@),
            overrun == feed_overrun(old(self).contents(), old(self).cap(), samples@),
    {
        let ghost c0 = self.contents();
        let ghost cap: nat = self.cap();
        let mut overrun = false;
        let mut i: usize = 0;
        while i < samples.len()
            invariant
                i <= samples@.len(),
                self.wf(),
                self.cap() == cap,
                self.prefill == old(self).prefill,
                c0.len() <= cap,
                self.contents() == feed_contents(c0, cap, samples@.take(i as int)),
                overrun == feed_overrun(c0, cap, samples@.take(i as int)),
            decreases samples@.len() - i,
        {
            proof {
                lemma_feed_step(c0, cap, samples@, i as int);
            }
            let accepted = self.channel.try_push(samples[i]);
            if !accepted {
                overrun = true;
            }
            i = i + 1;
        }
        proof {
            assert(samples@.take(samples@.len() as int) =~= samples@);
        }
        overrun
    }

    /// Drains exactly `count` samples for the render side: the oldest queued
    /// samples, padded with silence once the relay runs dry. Returns the
    /// samples and whether an underrun occurred: true exactly when more was
    /// requested than was queued. The render side thus never misses a
    /// deadline for want of data.
    pub fn drain(&mut self, count: usize) -> (r: (Vec<Sample>, bool))
        requires
            old(self).wf(),
        ensures
            final(self).wf(),
            final(self).cap() == old(self).cap(),
            final(self).prefill_amount() == old(self).prefill_amount(),
            r.0@.len() == count,
            r.0@ == drain_output(old(self).contents(), count as nat),
            final(self).contents() == drain_rest(old(self).contents(), count as nat),
            r.1 == drain_underrun(old(self).contents(), count as nat),
    {
        let ghost c0 = self.contents();
        let mut out: Vec<Sample> = Vec::with_capacity(count);
        let mut underrun = false;
        let mut i: usize = 0;
        while i < count
            invariant
                i <= count,
                self.wf(),
                self.cap() == old(self).cap(),
                self.prefill == old(self).prefill,
                out@ == drain_output(c0, i as nat),
                out@.len() == i,
                self.contents() == drain_rest(c0, i as nat),
                underrun == drain_underrun(c0, i as nat),
            decreases count - i,
        {
            proof {
                lemma_drain_step(c0, i as int);
            }
            match self.channel.try_pop() {
                Some(s) => out.push(s),
                None => {
                    out.push(SILENCE);
                    underrun = true;
                },
            }
            i = i + 1;
        }
        (out, underrun)
    }
    /// The render-side adapter's arithmetic: a request for `frames` output
    /// frames drains one sample per channel per frame. Same contract as
    /// `drain`, for a count of `frames * channel_count` samples.
    pub fn drain_frames(&mut self, frames: usize, channel_count: u16) -> (r: (Vec<Sample>, bool))
        requires
            old(self).wf(),
            frames * channel_count <= usize::MAX,
        ensures
            final(self).wf(),
            final(self).cap() == old(self).cap(),
            final(self).prefill_amount() == old(self).prefill_amount(),
            r.0@.len() == frames * channel_count,
            r.0@ == drain_output(old(self).contents(), (frames * channel_count) as nat),
            final(self).contents() == drain_rest(
                old(self).contents(),
                (frames * channel_count) as nat,
            ),
            r.1 == drain_underrun(old(self).contents(), (frames * channel_count) as nat),
    {
        let count: usize = frames * (channel_count as usize);
        self.drain(count)
    }
}

/// One step of a feed: how admitting (or rejecting) sample `i` of the batch
/// extends the modelled contents.
proof fn lemma_feed_step(c0: Seq<Sample>, cap: nat, batch: Seq<Sample>, i: int)
    requires
        0 <= i < batch.len(),
        c0.len() <= cap,
    ensures
        feed_contents(c0, cap, batch.take(i)).len() == if c0.len() + i <= cap {
            c0.len() + i
        } else {
            cap as int
        },
        c0.len() + i < cap ==> feed_contents(c0, cap, batch.take(i + 1)) == feed_contents(
            c0,
            cap,
            batch.take(i),
        ).push(batch[i]),
        c0.len() + i >= cap ==> feed_contents(c0, cap, batch.take(i + 1)) == feed_contents(
            c0,
            cap,
            batch.take(i),
        ),
        feed_overrun(c0, cap, batch.take(i + 1)) == (feed_overrun(c0, cap, batch.take(i)) || c0.len()
            + i >= cap),
{
    assert(batch.take(i).len() == i);
    assert(batch.take(i + 1).len() == i + 1);
    if c0.len() + i < cap {
        if c0.len() + i + 1 <= cap {
            assert(feed_contents(c0, cap, batch.take(i + 1)) =~= feed_contents(
                c0,
                cap,
                batch.take(i),
            ).push(batch[i]));
        }
    } else {
        assert(feed_contents(c0, cap, batch.take(i + 1)) =~= feed_contents(c0, cap, batch.take(i)));
    }
}

/// One step of a drain: how popping (or padding) sample `i` extends the
/// modelled output and shrinks the modelled remainder.
proof fn lemma_drain_step(c0: Seq<Sample>, i: int)
    requires
        0 <= i,
    ensures
        i < c0.len() ==> {
            &&& drain_rest(c0, i as nat).len() > 0
            &&& drain_rest(c0, i as nat)[0] == c0[i]
            &&& drain_output(c0, (i + 1) as nat) == drain_output(c0, i as nat).push(c0[i])
            &&& drain_rest(c0, (i + 1) as nat) == drain_rest(c0, i as nat).drop_first()
        },
        i >= c0.len() ==> {
            &&& drain_rest(c0, i as nat).len() == 0
            &&& drain_output(c0, (i + 1) as nat) == drain_output(c0, i as nat).push(SILENCE)
            &&& drain_rest(c0, (i + 1) as nat) == drain_rest(c0, i as nat)
        },
        drain_output(c0, i as nat).len() == i,
        drain_underrun(c0, (i + 1) as nat) == (drain_underrun(c0, i as nat) || i >= c0.len()),
{
    if i < c0.len() {
        assert(drain_output(c0, (i + 1) as nat) =~= drain_output(c0, i as nat).push(c0[i]));
        assert(drain_rest(c0, (i + 1) as nat) =~= drain_rest(c0, i as nat).drop_first());
    } else {
        assert(drain_output(c0, (i + 1) as nat) =~= drain_output(c0, i as nat).push(SILENCE));
        assert(drain_rest(c0, (i + 1) as nat) =~= drain_rest(c0, i as nat));
    }
}

} // verus!
