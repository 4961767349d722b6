//! Session-level laws of the relay: what holds across a whole interleaving
//! of `feed` and `drain` calls, not just across one call.
//!
//! The model here replays an interleaving against the same spec functions
//! that `feed` and `drain` are proved to implement, so each law about the
//! model is a law about any actual sequence of calls on a relay.

use vstd::prelude::*;

use crate::channel::SILENCE;
use crate::channel::Sample;
use crate::relay::drain_output;
use crate::relay::drain_rest;
use crate::relay::feed_contents;
use crate::relay::feed_overrun;

verus! {

/// One call of a relay interleaving: a capture-side batch or a render-side
/// request.
pub enum RelayOp {
    /// `feed` with this batch of samples.
    Feed(Seq<Sample>),
    /// `drain` asking for this many samples.
    Drain(nat),
}

/// What replaying an interleaving leaves behind.
pub struct RelayTrace {
    /// The samples still queued at the end.
    pub contents: Seq<Sample>,
    /// Every sample offered to `feed`, in call order.
    pub fed: Seq<Sample>,
    /// Every sample `drain` took out of the queue, in call order, without the
    /// silence padding.
    pub delivered: Seq<Sample>,
    /// Everything `drain` returned, in call order, silence padding included.
    pub output: Seq<Sample>,
}

/// Replays an interleaving of calls against a relay with `cap` slots that
/// starts holding `contents`, using the same model of each call that the
/// executable `feed` and `drain` are proved to implement.
pub open spec fn run_relay(contents: Seq<Sample>, cap: nat, ops: Seq<RelayOp>) -> RelayTrace
    decreases ops.len(),
{
    if ops.len() == 0 {
        RelayTrace {
            contents,
            fed: Seq::empty(),
            delivered: Seq::empty(),
            output: Seq::empty(),
        }
    } else {
        match ops[0] {
            RelayOp::Feed(batch) => {
                let t = run_relay(feed_contents(contents, cap, batch), cap, ops.drop_first());
                RelayTrace { contents: t.contents, fed: batch + t.fed, ..t }
            },
            RelayOp::Drain(count) => {
                let t = run_relay(drain_rest(contents, count), cap, ops.drop_first());
                RelayTrace {
                    contents: t.contents,
                    fed: t.fed,
                    delivered: drained_part(contents, count) + t.delivered,
                    output: drain_output(contents, count) + t.output,
                }
            },
        }
    }
}

/// The samples a drain of `count` actually takes out of the queue: the whole
/// output except any silence padding.
pub open spec fn drained_part(contents: Seq<Sample>, count: nat) -> Seq<Sample> {
    if count <= contents.len() {
        contents.take(count as int)
    } else {
        contents
    }
}

/// True when, throughout the interleaving, what has been fed minus what has
/// been drained never exceeds the relay's capacity — that is, no feed ever
/// overruns.
pub open spec fn never_overfilled(contents: Seq<Sample>, cap: nat, ops: Seq<RelayOp>) -> bool
    decreases ops.len(),
{
    if ops.len() == 0 {
        true
    } else {
        match ops[0] {
            RelayOp::Feed(batch) => !feed_overrun(contents, cap, batch) && never_overfilled(
                feed_contents(contents, cap, batch),
                cap,
                ops.drop_first(),
            ),
            RelayOp::Drain(count) => never_overfilled(
                drain_rest(contents, count),
                cap,
                ops.drop_first(),
            ),
        }
    }
}

/// Every sample in the sequence is silence.
pub open spec fn all_silence(s: Seq<Sample>) -> bool {
    forall|i: int| 0 <= i < s.len() ==> s[i] == SILENCE
}

/// The interleaving never feeds: it only drains.
pub open spec fn drains_only(ops: Seq<RelayOp>) -> bool {
    forall|i: int| 0 <= i < ops.len() ==> ops[i] is Drain
}

/// Conservation and order: whatever the interleaving, the samples a relay
/// has delivered followed by the samples it still holds are exactly the
/// samples it started with followed by every fed sample that was admitted.
/// When the interleaving never overfills the relay, every fed sample is
/// admitted, so nothing is lost and nothing is reordered: the `k`-th sample
/// ever drained out of the queue is the `k`-th sample of the initial
/// contents followed by the fed samples, in FIFO order.
pub proof fn lemma_fifo_conservation(contents: Seq<Sample>, cap: nat, ops: Seq<RelayOp>)
    requires
        contents.len() <= cap,
        never_overfilled(contents, cap, ops),
    ensures
        run_relay(contents, cap, ops).delivered + run_relay(contents, cap, ops).contents
            == contents + run_relay(contents, cap, ops).fed,
    decreases ops.len(),
{
    if ops.len() == 0 {
        assert(run_relay(contents, cap, ops).delivered + run_relay(contents, cap, ops).contents
            =~= contents + run_relay(contents, cap, ops).fed);
    } else {
        match ops[0] {
            RelayOp::Feed(batch) => {
                let next = feed_contents(contents, cap, batch);
                assert(next =~= contents + batch);
                lemma_fifo_conservation(next, cap, ops.drop_first());
                let t = run_relay(next, cap, ops.drop_first());
                assert(t.delivered + t.contents =~= (contents + batch) + t.fed);
                assert((contents + batch) + t.fed =~= contents + (batch + t.fed));
            },
            RelayOp::Drain(count) => {
                let next = drain_rest(contents, count);
                assert(next.len() <= cap);
                lemma_fifo_conservation(next, cap, ops.drop_first());
                let t = run_relay(next, cap, ops.drop_first());
                assert(drained_part(contents, count) + next =~= contents);
                assert((drained_part(contents, count) + t.delivered) + t.contents =~= drained_part(
                    contents,
                    count,
                ) + (t.delivered + t.contents));
                assert(drained_part(contents, count) + (next + t.fed) =~= (drained_part(
                    contents,
                    count,
                ) + next) + t.fed);
            },
        }
    }
}

/// Initial silence: while a relay still holds only silence — as it does
/// right after construction, before any feed — everything `drain` returns is
/// silence, padding included, however the requests are sized and split.
pub proof fn lemma_initial_silence(contents: Seq<Sample>, cap: nat, ops: Seq<RelayOp>)
    requires
        all_silence(contents),
        drains_only(ops),
    ensures
        all_silence(run_relay(contents, cap, ops).output),
    decreases ops.len(),
{
    if ops.len() != 0 {
        match ops[0] {
            RelayOp::Feed(batch) => {
                // a drains-only interleaving has no feed to take this arm
                assert(ops[0] is Drain);
            },
            RelayOp::Drain(count) => {
                let next = drain_rest(contents, count);
                assert(all_silence(next)) by {
                    assert(forall|i: int| 0 <= i < next.len() ==> next[i] == contents[i + count]);
                }
                assert(all_silence(drain_output(contents, count)));
                assert(forall|i: int|
                    0 <= i < ops.drop_first().len() ==> ops.drop_first()[i] == ops[i + 1]);
                lemma_initial_silence(next, cap, ops.drop_first());
            },
        }
    }
}

/// Determinism: replaying one and the same interleaving from one and the
/// same starting state yields identical outputs and an identical final
/// state. Together with the contracts of `feed` and `drain`, which pin the
/// result of each call to this model of it, repeated runs of an identical
/// interleaving on a relay produce identical output sequences.
pub proof fn lemma_deterministic(
    c1: Seq<Sample>,
    c2: Seq<Sample>,
    cap: nat,
    ops1: Seq<RelayOp>,
    ops2: Seq<RelayOp>,
)
    requires
        c1 == c2,
        ops1 == ops2,
    ensures
        run_relay(c1, cap, ops1) == run_relay(c2, cap, ops2),
{
}

} // verus!
