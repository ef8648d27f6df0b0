//! What a channel does over a whole run of publishes and receives.
use crate::channel::{ChannelView, DeliveryView, OverflowPolicy, CHANNEL_DEPTH};
use vstd::prelude::*;
use vstd::seq_lib::lemma_flatten_concat;

verus! {

/// One operation on a channel.
pub enum ChannelOp {
    /// The producer offers these bytes.
    Publish(Seq<u8>),
    /// The consumer takes its next delivery.
    Receive,
}

/// The channel after `ops`, applied in order.
pub open spec fn run(v: ChannelView, ops: Seq<ChannelOp>) -> ChannelView
    decreases ops.len(),
{
    if ops.len() == 0 {
        v
    } else {
        let w = run(v, ops.drop_last());
        match ops.last() {
            ChannelOp::Publish(c) => w.publish(c),
            ChannelOp::Receive => w.receive(),
        }
    }
}

/// The chunks the channel took in during `ops`, in order.
pub open spec fn accepted(v: ChannelView, ops: Seq<ChannelOp>) -> Seq<Seq<u8>>
    decreases ops.len(),
{
    if ops.len() == 0 {
        Seq::empty()
    } else {
        let a = accepted(v, ops.drop_last());
        match ops.last() {
            ChannelOp::Publish(c) => if run(v, ops.drop_last()).accepts() {
                a.push(c)
            } else {
                a
            },
            ChannelOp::Receive => a,
        }
    }
}

/// The deliveries the consumer got during `ops`, in order.
pub open spec fn delivered(v: ChannelView, ops: Seq<ChannelOp>) -> Seq<DeliveryView>
    decreases ops.len(),
{
    if ops.len() == 0 {
        Seq::empty()
    } else {
        let d = delivered(v, ops.drop_last());
        match ops.last() {
            ChannelOp::Publish(_) => d,
            ChannelOp::Receive => d.push(run(v, ops.drop_last()).next_delivery()),
        }
    }
}

/// How many publishes `ops` holds.
pub open spec fn publish_count(ops: Seq<ChannelOp>) -> nat
    decreases ops.len(),
{
    if ops.len() == 0 {
        0
    } else {
        publish_count(ops.drop_last()) + if ops.last() is Publish {
            1nat
        } else {
            0
        }
    }
}

/// The chunks among `ds`.
pub open spec fn messages(ds: Seq<DeliveryView>) -> Seq<Seq<u8>>
    decreases ds.len(),
{
    if ds.len() == 0 {
        Seq::empty()
    } else {
        let m = messages(ds.drop_last());
        match ds.last() {
            DeliveryView::Message(c) => m.push(c),
            _ => m,
        }
    }
}

/// The losses reported among `ds`, added up.
pub open spec fn reported(ds: Seq<DeliveryView>) -> nat
    decreases ds.len(),
{
    if ds.len() == 0 {
        0
    } else {
        reported(ds.drop_last()) + match ds.last() {
            DeliveryView::Lagged(n) => n,
            _ => 0,
        }
    }
}

/// A publish of each chunk, in order.
pub open spec fn publishes(chunks: Seq<Seq<u8>>) -> Seq<ChannelOp> {
    Seq::new(chunks.len(), |i: int| ChannelOp::Publish(chunks[i]))
}

/// Under the lossless policy, whatever the interleaving of publishes and
/// receives, the chunks received followed by those still pending are
/// exactly the chunks pending at the start followed by those accepted, in
/// the same order, and no loss is ever reported. So the bytes come out as
/// the concatenation of the bytes that went in, however they were cut into
/// chunks.
pub proof fn lemma_lossless_order(v: ChannelView, ops: Seq<ChannelOp>)
    requires
        v.policy == OverflowPolicy::Lossless,
        v.missed == 0,
    ensures
        messages(delivered(v, ops)) + run(v, ops).pending == v.pending + accepted(v, ops),
        reported(delivered(v, ops)) == 0,
        run(v, ops).missed == 0,
        run(v, ops).policy == v.policy,
        messages(delivered(v, ops)).flatten() + run(v, ops).pending.flatten() == v.pending.flatten()
            + accepted(v, ops).flatten(),
    decreases ops.len(),
{
    let ds = delivered(v, ops);
    let w = run(v, ops);
    if ops.len() > 0 {
        let prev = ops.drop_last();
        lemma_lossless_order(v, prev);
        let u = run(v, prev);
        let m = messages(delivered(v, prev));
        match ops.last() {
            ChannelOp::Publish(c) => {
                if u.accepts() {
                    assert(m + u.pending.push(c) =~= (m + u.pending).push(c));
                    assert(v.pending + accepted(v, prev).push(c) =~= (v.pending + accepted(
                        v,
                        prev,
                    )).push(c));
                }
            },
            ChannelOp::Receive => {
                assert(ds.drop_last() =~= delivered(v, prev));
                if u.pending.len() > 0 {
                    assert(m.push(u.pending[0]) + u.pending.drop_first() =~= m + u.pending);
                }
            },
        }
    }
    lemma_flatten_concat(messages(ds), w.pending);
    lemma_flatten_concat(v.pending, accepted(v, ops));
}

/// Under the lossy policy every publish is accepted, and every chunk ever
/// in the channel is accounted for exactly once: received, reported lost,
/// still pending, or overwritten and not yet reported. Once the consumer
/// has drained the channel, the chunks received plus the losses reported
/// equal the chunks published.
pub proof fn lemma_lossy_accounting(v: ChannelView, ops: Seq<ChannelOp>)
    requires
        v.policy == OverflowPolicy::Lossy,
    ensures
        accepted(v, ops).len() == publish_count(ops),
        messages(delivered(v, ops)).len() + reported(delivered(v, ops)) + run(v, ops).pending.len()
            + run(v, ops).missed == v.pending.len() + v.missed + publish_count(ops),
        run(v, ops).policy == v.policy,
    decreases ops.len(),
{
    if ops.len() > 0 {
        let prev = ops.drop_last();
        lemma_lossy_accounting(v, prev);
        if ops.last() is Receive {
            assert(delivered(v, ops).drop_last() =~= delivered(v, prev));
        }
    }
}

/// Publishing `chunks` into an empty lossy channel with nothing read keeps
/// the last `CHANNEL_DEPTH` of them, and counts the rest as missed.
pub proof fn lemma_lossy_keeps_latest(v: ChannelView, chunks: Seq<Seq<u8>>)
    requires
        v.policy == OverflowPolicy::Lossy,
        v.pending.len() == 0,
        v.missed == 0,
    ensures
        chunks.len() <= CHANNEL_DEPTH ==> run(v, publishes(chunks)).pending == chunks
            && run(v, publishes(chunks)).missed == 0,
        chunks.len() > CHANNEL_DEPTH ==> run(v, publishes(chunks)).pending == chunks.subrange(
            chunks.len() - CHANNEL_DEPTH,
            chunks.len() as int,
        ) && run(v, publishes(chunks)).missed == chunks.len() - CHANNEL_DEPTH,
        run(v, publishes(chunks)).policy == v.policy,
    decreases chunks.len(),
{
    let n = chunks.len() as int;
    if n > 0 {
        let prev = chunks.drop_last();
        assert(publishes(chunks).drop_last() =~= publishes(prev));
        lemma_lossy_keeps_latest(v, prev);
        let u = run(v, publishes(prev));
        let w = run(v, publishes(chunks));
        assert(publishes(chunks).last() == ChannelOp::Publish(chunks[n - 1]));
        if n <= CHANNEL_DEPTH {
            assert(w.pending =~= chunks);
        } else if n == CHANNEL_DEPTH + 1 {
            assert(w.pending =~= chunks.subrange(n - CHANNEL_DEPTH, n));
        } else {
            assert(w.pending =~= chunks.subrange(n - CHANNEL_DEPTH, n));
        }
    }
}

/// When `CHANNEL_DEPTH + k` chunks, with `k > 0`, are published into an
/// empty lossy channel before the consumer looks, its next receive reports
/// exactly `k` lost, and it then finds the latest `CHANNEL_DEPTH` chunks in
/// publication order.
pub proof fn lemma_lossy_lag_report(v: ChannelView, chunks: Seq<Seq<u8>>, k: nat)
    requires
        v.policy == OverflowPolicy::Lossy,
        v.pending.len() == 0,
        v.missed == 0,
        k > 0,
        chunks.len() == CHANNEL_DEPTH + k,
    ensures
        run(v, publishes(chunks)).next_delivery() == DeliveryView::Lagged(k),
        run(v, publishes(chunks)).receive().pending == chunks.subrange(k as int, chunks.len() as int),
        run(v, publishes(chunks)).receive().missed == 0,
{
    lemma_lossy_keeps_latest(v, chunks);
}

} // verus!
