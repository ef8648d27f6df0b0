//! A bounded channel of chunks with a selectable overflow policy, built on
//! `embassy_sync`'s publish/subscribe queue with a single subscriber.
use crate::chunk::{Chunk, CHUNK_CAPACITY};
use embassy_sync::blocking_mutex::raw::CriticalSectionRawMutex;
use embassy_sync::pubsub::{PubSubChannel, Publisher, Subscriber, WaitResult};
use vstd::prelude::*;

verus! {

/// How many chunks a channel holds before its overflow policy applies.
pub const CHANNEL_DEPTH: usize = 5;

type Inner = PubSubChannel<CriticalSectionRawMutex, Chunk, 5, 1, 1>;

/// An `embassy_sync` publish/subscribe queue of depth `CHANNEL_DEPTH`, with
/// its one publisher and its one subscriber. The queue is allocated once and
/// lives for the rest of the process, as channels do in the bridge.
#[verifier::external_body]
pub struct BroadcastQueue {
    publisher: Publisher<'static, CriticalSectionRawMutex, Chunk, 5, 1, 1>,
    subscriber: Subscriber<'static, CriticalSectionRawMutex, Chunk, 5, 1, 1>,
}

/// The bytes of the messages the queue holds, oldest first.
pub uninterp spec fn queue_items(q: BroadcastQueue) -> Seq<Seq<u8>>;

/// The queue's next message id: how many messages were ever accepted.
pub uninterp spec fn queue_issued(q: BroadcastQueue) -> nat;

/// The id of the next message the subscriber is waiting for.
pub uninterp spec fn queue_cursor(q: BroadcastQueue) -> nat;

/// What one attempt to take a message from the queue gave.
pub enum Delivery {
    /// The oldest message the subscriber had not yet seen.
    Message(Chunk),
    /// The subscriber fell behind and this many messages were overwritten.
    Lagged(u64),
    /// Nothing is waiting.
    Empty,
}

/// A delivery, with the chunk replaced by its bytes.
pub enum DeliveryView {
    Message(Seq<u8>),
    Lagged(nat),
    Empty,
}

impl View for Delivery {
    type V = DeliveryView;

    open spec fn view(&self) -> DeliveryView {
        match self {
            Delivery::Message(c) => DeliveryView::Message(c@),
            Delivery::Lagged(n) => DeliveryView::Lagged(*n as nat),
            Delivery::Empty => DeliveryView::Empty,
        }
    }
}

/// Relies on `PubSubChannel::new`, `subscriber` and `publisher`: a fresh
/// channel holds nothing, has issued no id, and its first subscriber starts
/// at id 0. Neither slot is taken yet, so both calls succeed.
#[verifier::external_body]
fn queue_new() -> (q: BroadcastQueue)
    ensures
        queue_items(q) == Seq::<Seq<u8>>::empty(),
        queue_issued(q) == 0,
        queue_cursor(q) == 0,
{
    let inner: &'static Inner = Box::leak(Box::new(PubSubChannel::new()));
    let subscriber = inner.subscriber().unwrap();
    let publisher = inner.publisher().unwrap();
    BroadcastQueue { publisher, subscriber }
}

/// Relies on `Pub::try_publish`: with a subscriber present, a full queue
/// refuses the message and hands it back; otherwise it is appended under the
/// next id.
#[verifier::external_body]
fn queue_try_publish(q: &mut BroadcastQueue, c: Chunk) -> (r: Result<(), Chunk>)
    requires
        queue_items(*old(q)).len() <= CHANNEL_DEPTH,
        queue_issued(*old(q)) < u64::MAX,
    ensures
        queue_cursor(*final(q)) == queue_cursor(*old(q)),
        queue_items(*old(q)).len() == CHANNEL_DEPTH ==> {
            &&& r matches Err(back) && back@ == c@
            &&& queue_items(*final(q)) == queue_items(*old(q))
            &&& queue_issued(*final(q)) == queue_issued(*old(q))
        },
        queue_items(*old(q)).len() < CHANNEL_DEPTH ==> {
            &&& r is Ok
            &&& queue_items(*final(q)) == queue_items(*old(q)).push(c@)
            &&& queue_issued(*final(q)) == queue_issued(*old(q)) + 1
        },
{
    q.publisher.try_publish(c)
}

/// Relies on `Pub::publish_immediate`: a full queue first drops its oldest
/// message, then the message is appended under the next id.
#[verifier::external_body]
fn queue_publish_immediate(q: &mut BroadcastQueue, c: Chunk)
    requires
        queue_items(*old(q)).len() <= CHANNEL_DEPTH,
        queue_issued(*old(q)) < u64::MAX,
    ensures
        queue_cursor(*final(q)) == queue_cursor(*old(q)),
        queue_issued(*final(q)) == queue_issued(*old(q)) + 1,
        queue_items(*final(q)) == if queue_items(*old(q)).len() == CHANNEL_DEPTH {
            queue_items(*old(q)).drop_first().push(c@)
        } else {
            queue_items(*old(q)).push(c@)
        },
{
    q.publisher.publish_immediate(c)
}

/// Relies on `Sub::try_next_message`. Messages before id
/// `issued - items.len()` are gone: a subscriber behind that point is moved
/// up to it and told how many it lost. Otherwise, as the only subscriber has
/// read every earlier message, the one it waits for is the oldest held; it
/// is taken out of the queue and returned.
#[verifier::external_body]
fn queue_try_next(q: &mut BroadcastQueue) -> (r: Delivery)
    requires
        queue_cursor(*old(q)) + queue_items(*old(q)).len() <= queue_issued(*old(q)),
    ensures
        queue_issued(*final(q)) == queue_issued(*old(q)),
        ({
            let start = queue_issued(*old(q)) - queue_items(*old(q)).len();
            if queue_cursor(*old(q)) < start {
                &&& r@ == DeliveryView::Lagged((start - queue_cursor(*old(q))) as nat)
                &&& queue_cursor(*final(q)) == start
                &&& queue_items(*final(q)) == queue_items(*old(q))
            } else if queue_items(*old(q)).len() == 0 {
                &&& r@ == DeliveryView::Empty
                &&& queue_cursor(*final(q)) == queue_cursor(*old(q))
                &&& queue_items(*final(q)) == queue_items(*old(q))
            } else {
                &&& r@ == DeliveryView::Message(queue_items(*old(q))[0])
                &&& queue_cursor(*final(q)) == queue_cursor(*old(q)) + 1
                &&& queue_items(*final(q)) == queue_items(*old(q)).drop_first()
            }
        }),
{
    match q.subscriber.try_next_message() {
        Some(WaitResult::Message(c)) => Delivery::Message(c),
        Some(WaitResult::Lagged(n)) => Delivery::Lagged(n),
        None => Delivery::Empty,
    }
}

/// What a channel does when a chunk arrives while it is full.
#[derive(Clone, Copy, PartialEq, Eq, Structural, Debug)]
pub enum OverflowPolicy {
    /// The oldest chunk is overwritten; the reader later learns how many it
    /// lost. Publishing never waits.
    Lossy,
    /// The chunk is refused and the producer must wait for room. Nothing is
    /// ever lost.
    Lossless,
}

/// The abstract state of a channel.
pub struct ChannelView {
    pub policy: OverflowPolicy,
    /// The largest chunk the channel accepts.
    pub limit: nat,
    /// Chunks published and not yet received, oldest first.
    pub pending: Seq<Seq<u8>>,
    /// Chunks overwritten since the reader last heard of a loss.
    pub missed: nat,
    /// Chunks accepted since the channel was built.
    pub published: nat,
}

impl ChannelView {
    /// What every channel satisfies.
    pub open spec fn valid(self) -> bool {
        &&& 0 < self.limit <= CHUNK_CAPACITY
        &&& self.pending.len() <= CHANNEL_DEPTH
        &&& forall|i: int| 0 <= i < self.pending.len() ==> #[trigger] self.pending[i].len() <= self.limit
        &&& self.pending.len() + self.missed <= self.published
        &&& self.published <= u64::MAX
        &&& self.policy == OverflowPolicy::Lossless ==> self.missed == 0
    }

    /// Whether the channel holds as many chunks as it can.
    pub open spec fn is_full(self) -> bool {
        self.pending.len() == CHANNEL_DEPTH
    }

    /// Whether a chunk published now is taken in.
    pub open spec fn accepts(self) -> bool {
        self.policy == OverflowPolicy::Lossy || !self.is_full()
    }

    /// The channel after publishing `c`.
    pub open spec fn publish(self, c: Seq<u8>) -> ChannelView {
        if !self.accepts() {
            self
        } else if self.is_full() {
            ChannelView {
                pending: self.pending.drop_first().push(c),
                missed: self.missed + 1,
                published: self.published + 1,
                ..self
            }
        } else {
            ChannelView { pending: self.pending.push(c), published: self.published + 1, ..self }
        }
    }

    /// What the reader gets next.
    pub open spec fn next_delivery(self) -> DeliveryView {
        if self.missed > 0 {
            DeliveryView::Lagged(self.missed)
        } else if self.pending.len() == 0 {
            DeliveryView::Empty
        } else {
            DeliveryView::Message(self.pending[0])
        }
    }

    /// The channel with everything pending or unreported dropped.
    pub open spec fn cleared(self) -> ChannelView {
        ChannelView { pending: Seq::empty(), missed: 0, ..self }
    }

    /// The channel after the reader takes its next delivery.
    pub open spec fn receive(self) -> ChannelView {
        if self.missed > 0 {
            ChannelView { missed: 0, ..self }
        } else if self.pending.len() == 0 {
            self
        } else {
            ChannelView { pending: self.pending.drop_first(), ..self }
        }
    }
}

/// A bounded channel of chunks between one producer and one consumer.
pub struct Channel {
    policy: OverflowPolicy,
    limit: usize,
    published: u64,
    queue: BroadcastQueue,
}

impl View for Channel {
    type V = ChannelView;

    closed spec fn view(&self) -> ChannelView {
        ChannelView {
            policy: self.policy,
            limit: self.limit as nat,
            pending: queue_items(self.queue),
            missed: (queue_issued(self.queue) - queue_items(self.queue).len() - queue_cursor(
                self.queue,
            )) as nat,
            published: queue_issued(self.queue),
        }
    }
}

impl Channel {
    /// The link between the view and the queue's own state.
    pub closed spec fn inv(&self) -> bool {
        &&& queue_cursor(self.queue) + queue_items(self.queue).len() <= queue_issued(self.queue)
        &&& self.published == queue_issued(self.queue)
    }

    pub open spec fn wf(&self) -> bool {
        self.inv() && self@.valid()
    }

    /// An empty channel for chunks of at most `limit` bytes.
    pub fn new(policy: OverflowPolicy, limit: usize) -> (c: Channel)
        requires
            0 < limit <= CHUNK_CAPACITY,
        ensures
            c.wf(),
            c@.policy == policy,
            c@.limit == limit,
            c@.pending == Seq::<Seq<u8>>::empty(),
            c@.missed == 0,
            c@.published == 0,
    {
        Channel { policy, limit, published: 0, queue: queue_new() }
    }

    pub fn policy(&self) -> (r: OverflowPolicy)
        ensures
            r == self@.policy,
    {
        self.policy
    }

    /// The largest chunk the channel accepts.
    pub fn limit(&self) -> (r: usize)
        ensures
            r == self@.limit,
    {
        self.limit
    }

    /// How many chunks the channel has accepted.
    pub fn published(&self) -> (r: u64)
        requires
            self.wf(),
        ensures
            r == self@.published,
    {
        self.published
    }

    /// Offers `c` to the channel. Under the lossy policy it is always taken,
    /// overwriting the oldest chunk when full; under the lossless policy a
    /// full channel hands it back.
    pub fn publish(&mut self, c: Chunk) -> (r: Result<(), Chunk>)
        requires
            old(self).wf(),
            c@.len() <= old(self)@.limit,
            old(self)@.published < u64::MAX,
        ensures
            final(self).wf(),
            final(self)@ == old(self)@.publish(c@),
            r is Ok <==> old(self)@.accepts(),
            r matches Err(back) ==> back@ == c@,
    {
        let ghost c_bytes = c@;
        let r = match self.policy {
            OverflowPolicy::Lossy => {
                queue_publish_immediate(&mut self.queue, c);
                Ok(())
            },
            OverflowPolicy::Lossless => queue_try_publish(&mut self.queue, c),
        };
        if r.is_ok() {
            self.published = self.published + 1;
        }
        proof {
            let v = self@;
            let o = old(self)@;
            assert(v.pending =~= o.publish(c_bytes).pending);
            assert forall|i: int| 0 <= i < v.pending.len() implies #[trigger] v.pending[i].len()
                <= v.limit by {
                if o.is_full() && o.accepts() {
                    assert(v.pending[i] == o.pending.drop_first().push(c_bytes)[i]);
                    if i < v.pending.len() - 1 {
                        assert(v.pending[i] == o.pending[i + 1]);
                    }
                } else if o.accepts() {
                    if i < v.pending.len() - 1 {
                        assert(v.pending[i] == o.pending[i]);
                    }
                }
            }
        }
        r
    }

    /// Takes the next delivery: a loss report if chunks were overwritten
    /// since the last one, else the oldest pending chunk, else nothing.
    pub fn receive(&mut self) -> (r: Delivery)
        requires
            old(self).wf(),
        ensures
            final(self).wf(),
            r@ == old(self)@.next_delivery(),
            final(self)@ == old(self)@.receive(),
    {
        let r = queue_try_next(&mut self.queue);
        proof {
            let v = self@;
            let o = old(self)@;
            assert(v.pending =~= o.receive().pending);
            assert forall|i: int| 0 <= i < v.pending.len() implies #[trigger] v.pending[i].len()
                <= v.limit by {
                if o.missed == 0 && o.pending.len() > 0 {
                    assert(v.pending[i] == o.pending[i + 1]);
                }
            }
        }
        r
    }

    /// Receives until nothing is left and returns how many chunks were
    /// dropped, counting those overwritten before and those still pending.
    pub fn clear(&mut self) -> (n: u64)
        requires
            old(self).wf(),
        ensures
            final(self).wf(),
            final(self)@ == old(self)@.cleared(),
            n == old(self)@.missed + old(self)@.pending.len(),
    {
        let mut n: u64 = 0;
        loop
            invariant
                self.wf(),
                self@.policy == old(self)@.policy,
                self@.limit == old(self)@.limit,
                self@.published == old(self)@.published,
                n + self@.missed + self@.pending.len() == old(self)@.missed + old(self)@.pending.len(),
                old(self)@.missed + old(self)@.pending.len() <= u64::MAX,
            decreases self@.pending.len() + self@.missed,
        {
            match self.receive() {
                Delivery::Lagged(k) => {
                    n = n + k;
                },
                Delivery::Message(_) => {
                    n = n + 1;
                },
                Delivery::Empty => {
                    assert(self@.pending =~= Seq::<Seq<u8>>::empty());
                    return n;
                },
            }
        }
    }
}

} // verus!
