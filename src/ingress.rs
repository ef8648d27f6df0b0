//! The ingress task's decisions: read from the source link and publish
//! what arrives into the direction's channel.
use crate::channel::{Channel, ChannelView};
use crate::chunk::Chunk;
use crate::state::{Activity, ConnectionState, LinkFault, LinkKind};
use vstd::prelude::*;

verus! {

/// What the ingress task is doing.
pub enum IngressPhase {
    /// Waiting for a peer to attach to the packet link.
    AwaitingLink,
    /// Reading from the source link.
    Reading,
    /// Holding a chunk that a full lossless channel refused.
    Holding(Chunk),
    /// A chunk was published; pausing so that observers see the activity.
    Settling,
}

/// An ingress phase, with a held chunk replaced by its bytes.
pub enum IngressPhaseView {
    AwaitingLink,
    Reading,
    Holding(Seq<u8>),
    Settling,
}

/// What the outside world reports to the ingress task.
pub enum IngressEvent {
    /// A peer attached to the packet link.
    LinkUp,
    /// A read returned these bytes.
    ReadDone(Vec<u8>),
    /// A read failed.
    ReadFailed(LinkFault),
    /// The channel may have room again.
    RoomFreed,
    /// The pause after a publish is over.
    Settled,
}

pub enum IngressEventView {
    LinkUp,
    ReadDone(Seq<u8>),
    ReadFailed(LinkFault),
    RoomFreed,
    Settled,
}

impl View for IngressEvent {
    type V = IngressEventView;

    open spec fn view(&self) -> IngressEventView {
        match self {
            IngressEvent::LinkUp => IngressEventView::LinkUp,
            IngressEvent::ReadDone(b) => IngressEventView::ReadDone(b@),
            IngressEvent::ReadFailed(f) => IngressEventView::ReadFailed(*f),
            IngressEvent::RoomFreed => IngressEventView::RoomFreed,
            IngressEvent::Settled => IngressEventView::Settled,
        }
    }
}

/// What the ingress task asks the outside world to do next.
#[derive(Clone, Copy, PartialEq, Eq, Structural, Debug)]
pub enum IngressAction {
    /// Wait until a peer attaches to the packet link, then report `LinkUp`.
    AwaitLink,
    /// Read at most this many bytes, then report `ReadDone` or `ReadFailed`.
    Read(usize),
    /// Wait until the consumer takes something, then report `RoomFreed`.
    WaitForRoom,
    /// Yield briefly, then report `Settled`.
    Settle,
}

pub struct IngressView {
    pub source: LinkKind,
    pub read_limit: nat,
    pub phase: IngressPhaseView,
    pub state: ConnectionState,
}

impl IngressView {
    /// The action the current phase waits on.
    pub open spec fn action(self) -> IngressAction {
        match self.phase {
            IngressPhaseView::AwaitingLink => IngressAction::AwaitLink,
            IngressPhaseView::Reading => IngressAction::Read(self.read_limit as usize),
            IngressPhaseView::Holding(_) => IngressAction::WaitForRoom,
            IngressPhaseView::Settling => IngressAction::Settle,
        }
    }

    pub open spec fn valid(self) -> bool {
        &&& 0 < self.read_limit <= usize::MAX
        &&& (self.phase matches IngressPhaseView::Holding(b) ==> b.len() <= self.read_limit)
        &&& self.state == match self.phase {
            IngressPhaseView::AwaitingLink => ConnectionState::Disconnected,
            IngressPhaseView::Reading => ConnectionState::Connected,
            _ => ConnectionState::Active(Activity::Receiving),
        }
        &&& (self.phase is AwaitingLink ==> self.source is Packet)
    }

    /// Offers `bytes` to the channel: published, the task pauses; refused,
    /// it holds them. Either way the source side is busy receiving.
    pub open spec fn offer(self, c: ChannelView, bytes: Seq<u8>) -> (IngressView, ChannelView) {
        let phase = if c.accepts() {
            IngressPhaseView::Settling
        } else {
            IngressPhaseView::Holding(bytes)
        };
        (
            IngressView { phase, state: ConnectionState::Active(Activity::Receiving), ..self },
            c.publish(bytes),
        )
    }

    /// The ingress task and the channel after `ev`.
    pub open spec fn next(self, c: ChannelView, ev: IngressEventView) -> (IngressView, ChannelView) {
        match (self.phase, ev) {
            (IngressPhaseView::AwaitingLink, IngressEventView::LinkUp) => (
                IngressView {
                    phase: IngressPhaseView::Reading,
                    state: ConnectionState::Connected,
                    ..self
                },
                c,
            ),
            (IngressPhaseView::Reading, IngressEventView::ReadDone(bytes)) => self.offer(c, bytes),
            (IngressPhaseView::Reading, IngressEventView::ReadFailed(LinkFault::Closed)) => {
                if self.source is Packet {
                    (
                        IngressView {
                            phase: IngressPhaseView::AwaitingLink,
                            state: ConnectionState::Disconnected,
                            ..self
                        },
                        c,
                    )
                } else {
                    (self, c)
                }
            },
            (IngressPhaseView::Holding(bytes), IngressEventView::RoomFreed) => self.offer(c, bytes),
            (IngressPhaseView::Settling, IngressEventView::Settled) => (
                IngressView {
                    phase: IngressPhaseView::Reading,
                    state: ConnectionState::Connected,
                    ..self
                },
                c,
            ),
            _ => (self, c),
        }
    }
}

/// The decisions of the task that moves data from a source link into a
/// channel.
pub struct Ingress {
    source: LinkKind,
    read_limit: usize,
    phase: IngressPhase,
    state: ConnectionState,
}

impl View for Ingress {
    type V = IngressView;

    closed spec fn view(&self) -> IngressView {
        IngressView {
            source: self.source,
            read_limit: self.read_limit as nat,
            phase: match self.phase {
                IngressPhase::AwaitingLink => IngressPhaseView::AwaitingLink,
                IngressPhase::Reading => IngressPhaseView::Reading,
                IngressPhase::Holding(c) => IngressPhaseView::Holding(c@),
                IngressPhase::Settling => IngressPhaseView::Settling,
            },
            state: self.state,
        }
    }
}

impl Ingress {
    /// A task reading at most `read_limit` bytes at a time. On a packet link
    /// it first waits for a peer; a stream link is always ready.
    pub fn new(source: LinkKind, read_limit: usize) -> (r: (Ingress, IngressAction))
        requires
            0 < read_limit,
        ensures
            r.0@.valid(),
            r.0@.source == source,
            r.0@.read_limit == read_limit,
            r.0@.phase == if source is Packet {
                IngressPhaseView::AwaitingLink
            } else {
                IngressPhaseView::Reading
            },
            r.1 == r.0@.action(),
    {
        let (phase, state) = match source {
            LinkKind::Packet { .. } => (IngressPhase::AwaitingLink, ConnectionState::Disconnected),
            LinkKind::Stream => (IngressPhase::Reading, ConnectionState::Connected),
        };
        let ingress = Ingress { source, read_limit, phase, state };
        let action = ingress.action();
        (ingress, action)
    }

    /// The state of the source side, as the status aggregator sees it.
    pub fn state(&self) -> (r: ConnectionState)
        ensures
            r == self@.state,
    {
        self.state
    }

    /// The largest read the task asks for.
    pub fn read_limit(&self) -> (r: usize)
        ensures
            r == self@.read_limit,
    {
        self.read_limit
    }

    fn action(&self) -> (r: IngressAction)
        ensures
            r == self@.action(),
    {
        match self.phase {
            IngressPhase::AwaitingLink => IngressAction::AwaitLink,
            IngressPhase::Reading => IngressAction::Read(self.read_limit),
            IngressPhase::Holding(_) => IngressAction::WaitForRoom,
            IngressPhase::Settling => IngressAction::Settle,
        }
    }

    /// Publishes `c` or holds on to it.
    fn offer(&mut self, channel: &mut Channel, c: Chunk)
        requires
            0 < old(self)@.read_limit,
            old(channel).wf(),
            c@.len() <= old(self)@.read_limit,
            old(self)@.read_limit <= old(channel)@.limit,
            old(channel)@.published < u64::MAX,
        ensures
            final(self)@.valid(),
            final(channel).wf(),
            (final(self)@, final(channel)@) == old(self)@.offer(old(channel)@, c@),
    {
        self.state = ConnectionState::Active(Activity::Receiving);
        match channel.publish(c) {
            Ok(()) => {
                self.phase = IngressPhase::Settling;
            },
            Err(back) => {
                self.phase = IngressPhase::Holding(back);
            },
        }
    }

    /// Handles `ev` and returns what to do next.
    pub fn step(&mut self, channel: &mut Channel, ev: IngressEvent) -> (r: IngressAction)
        requires
            old(self)@.valid(),
            old(channel).wf(),
            old(self)@.read_limit <= old(channel)@.limit,
            old(channel)@.published < u64::MAX,
            ev@ matches IngressEventView::ReadDone(bytes) ==> bytes.len() <= old(self)@.read_limit,
        ensures
            final(self)@.valid(),
            final(channel).wf(),
            (final(self)@, final(channel)@) == old(self)@.next(old(channel)@, ev@),
            r == final(self)@.action(),
    {
        let mut phase = IngressPhase::Reading;
        core::mem::swap(&mut phase, &mut self.phase);
        match (phase, ev) {
            (IngressPhase::AwaitingLink, IngressEvent::LinkUp) => {
                self.state = ConnectionState::Connected;
            },
            (IngressPhase::Reading, IngressEvent::ReadDone(bytes)) => {
                let c = Chunk::from_bytes(bytes.as_slice()).unwrap();
                self.offer(channel, c);
            },
            (IngressPhase::Reading, IngressEvent::ReadFailed(LinkFault::Closed)) => {
                if let LinkKind::Packet { .. } = self.source {
                    self.phase = IngressPhase::AwaitingLink;
                    self.state = ConnectionState::Disconnected;
                }
            },
            (IngressPhase::Holding(c), IngressEvent::RoomFreed) => {
                self.offer(channel, c);
            },
            (IngressPhase::Settling, IngressEvent::Settled) => {
                self.state = ConnectionState::Connected;
            },
            (phase, _) => {
                self.phase = phase;
            },
        }
        self.action()
    }
}

} // verus!
