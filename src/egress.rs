//! The egress task's decisions: take chunks from the direction's channel
//! and write them to the sink link.
use crate::channel::{Channel, ChannelView, Delivery, OverflowPolicy};
use crate::chunk::Chunk;
use crate::state::{Activity, ConnectionState, LinkFault, LinkKind};
use vstd::prelude::*;

verus! {

/// What the egress task is doing.
pub enum EgressPhase {
    /// Waiting for a peer on the packet link, possibly keeping a chunk
    /// whose write failed so that a lossless channel loses nothing.
    AwaitingLink(Option<Chunk>),
    /// Waiting for the channel to receive something.
    Idle,
    /// Writing this chunk to the sink link.
    Writing(Chunk),
}

pub enum EgressPhaseView {
    AwaitingLink(Option<Seq<u8>>),
    Idle,
    Writing(Seq<u8>),
}

/// What the outside world reports to the egress task.
#[derive(Clone, Copy, PartialEq, Eq, Structural, Debug)]
pub enum EgressEvent {
    /// A peer attached to the packet link.
    LinkUp,
    /// The channel may hold something new.
    DataReady,
    /// The last write completed.
    WriteDone,
    /// The last write failed.
    WriteFailed(LinkFault),
}

/// What the egress task asks the outside world to do next.
pub enum EgressAction {
    /// Wait until a peer attaches to the packet link, then report `LinkUp`.
    AwaitLink,
    /// Wait until the producer publishes, then report `DataReady`.
    WaitForData,
    /// Write these bytes to the sink link, then report `WriteDone` or
    /// `WriteFailed`.
    Write(Chunk),
}

pub enum EgressActionView {
    AwaitLink,
    WaitForData,
    Write(Seq<u8>),
}

impl View for EgressAction {
    type V = EgressActionView;

    open spec fn view(&self) -> EgressActionView {
        match self {
            EgressAction::AwaitLink => EgressActionView::AwaitLink,
            EgressAction::WaitForData => EgressActionView::WaitForData,
            EgressAction::Write(c) => EgressActionView::Write(c@),
        }
    }
}

pub struct EgressView {
    pub sink: LinkKind,
    pub policy: OverflowPolicy,
    /// The largest write the task issues.
    pub write_limit: nat,
    pub phase: EgressPhaseView,
    pub state: ConnectionState,
}

impl EgressView {
    /// The action the current phase waits on.
    pub open spec fn action(self) -> EgressActionView {
        match self.phase {
            EgressPhaseView::AwaitingLink(_) => EgressActionView::AwaitLink,
            EgressPhaseView::Idle => EgressActionView::WaitForData,
            EgressPhaseView::Writing(b) => EgressActionView::Write(b),
        }
    }

    pub open spec fn valid(self) -> bool {
        &&& 0 < self.write_limit
        &&& (self.sink matches LinkKind::Packet { max_packet } ==> self.write_limit < max_packet)
        &&& (self.phase matches EgressPhaseView::Writing(b) ==> b.len() <= self.write_limit)
        &&& (self.phase matches EgressPhaseView::AwaitingLink(Some(b)) ==> {
            &&& b.len() <= self.write_limit
            &&& self.policy == OverflowPolicy::Lossless
        })
        &&& (self.phase is AwaitingLink ==> self.sink is Packet)
        &&& self.state == match self.phase {
            EgressPhaseView::AwaitingLink(_) => ConnectionState::Disconnected,
            EgressPhaseView::Idle => ConnectionState::Connected,
            EgressPhaseView::Writing(_) => ConnectionState::Active(Activity::Sending),
        }
    }

    pub open spec fn idle(self) -> EgressView {
        EgressView { phase: EgressPhaseView::Idle, state: ConnectionState::Connected, ..self }
    }

    pub open spec fn writing(self, b: Seq<u8>) -> EgressView {
        EgressView {
            phase: EgressPhaseView::Writing(b),
            state: ConnectionState::Active(Activity::Sending),
            ..self
        }
    }

    /// Starts writing the oldest pending chunk, or goes idle.
    pub open spec fn deliver(self, c: ChannelView) -> (EgressView, ChannelView) {
        if c.pending.len() == 0 {
            (self.idle(), c)
        } else {
            (self.writing(c.pending[0]), c.receive())
        }
    }

    /// Takes the next chunk from the channel, first hearing of any loss; the
    /// number is how many chunks were reported lost.
    pub open spec fn pull(self, c: ChannelView) -> (EgressView, ChannelView, nat) {
        if c.missed > 0 {
            let (e, c2) = self.deliver(c.receive());
            (e, c2, c.missed)
        } else {
            let (e, c2) = self.deliver(c);
            (e, c2, 0)
        }
    }

    /// The egress task and the channel after `ev`, with the number of chunks
    /// given up for lost on the way.
    pub open spec fn next(self, c: ChannelView, ev: EgressEvent) -> (EgressView, ChannelView, nat) {
        match (self.phase, ev) {
            (EgressPhaseView::AwaitingLink(kept), EgressEvent::LinkUp) => {
                if self.policy == OverflowPolicy::Lossy {
                    (self.idle(), c.cleared(), c.missed + c.pending.len())
                } else {
                    match kept {
                        Some(b) => (self.writing(b), c, 0),
                        None => self.pull(c),
                    }
                }
            },
            (EgressPhaseView::Idle, EgressEvent::DataReady) => self.pull(c),
            (EgressPhaseView::Writing(_), EgressEvent::WriteDone) => self.pull(c),
            (EgressPhaseView::Writing(b), EgressEvent::WriteFailed(_)) => {
                if self.sink is Packet {
                    let lossless = self.policy == OverflowPolicy::Lossless;
                    (
                        EgressView {
                            phase: EgressPhaseView::AwaitingLink(
                                if lossless {
                                    Some(b)
                                } else {
                                    None
                                },
                            ),
                            state: ConnectionState::Disconnected,
                            ..self
                        },
                        c,
                        if lossless {
                            0
                        } else {
                            1
                        },
                    )
                } else {
                    (self, c, 0)
                }
            },
            _ => (self, c, 0),
        }
    }
}

/// The decisions of the task that moves data from a channel to a sink link.
pub struct Egress {
    sink: LinkKind,
    policy: OverflowPolicy,
    write_limit: usize,
    phase: EgressPhase,
    state: ConnectionState,
}

impl View for Egress {
    type V = EgressView;

    closed spec fn view(&self) -> EgressView {
        EgressView {
            sink: self.sink,
            policy: self.policy,
            write_limit: self.write_limit as nat,
            phase: match self.phase {
                EgressPhase::AwaitingLink(None) => EgressPhaseView::AwaitingLink(None),
                EgressPhase::AwaitingLink(Some(c)) => EgressPhaseView::AwaitingLink(Some(c@)),
                EgressPhase::Idle => EgressPhaseView::Idle,
                EgressPhase::Writing(c) => EgressPhaseView::Writing(c@),
            },
            state: self.state,
        }
    }
}

impl Egress {
    /// A task writing at most `write_limit` bytes at a time, fed by a channel
    /// with the given policy. On a packet link it first waits for a peer.
    pub fn new(sink: LinkKind, policy: OverflowPolicy, write_limit: usize) -> (r: (
        Egress,
        EgressAction,
    ))
        requires
            0 < write_limit,
            sink matches LinkKind::Packet { max_packet } ==> write_limit < max_packet,
        ensures
            r.0@.valid(),
            r.0@.sink == sink,
            r.0@.policy == policy,
            r.0@.write_limit == write_limit,
            r.0@.phase == if sink is Packet {
                EgressPhaseView::AwaitingLink(None)
            } else {
                EgressPhaseView::Idle
            },
            r.1@ == r.0@.action(),
    {
        let (phase, state) = match sink {
            LinkKind::Packet { .. } => (EgressPhase::AwaitingLink(None), ConnectionState::Disconnected),
            LinkKind::Stream => (EgressPhase::Idle, ConnectionState::Connected),
        };
        let egress = Egress { sink, policy, write_limit, phase, state };
        let action = egress.action();
        (egress, action)
    }

    /// The state of the sink side, as the status aggregator sees it.
    pub fn state(&self) -> (r: ConnectionState)
        ensures
            r == self@.state,
    {
        self.state
    }

    /// The largest write the task issues.
    pub fn write_limit(&self) -> (r: usize)
        ensures
            r == self@.write_limit,
    {
        self.write_limit
    }

    fn action(&self) -> (r: EgressAction)
        ensures
            r@ == self@.action(),
    {
        match &self.phase {
            EgressPhase::AwaitingLink(_) => EgressAction::AwaitLink,
            EgressPhase::Idle => EgressAction::WaitForData,
            EgressPhase::Writing(c) => EgressAction::Write(c.copy()),
        }
    }

    /// Takes the next chunk from the channel, or goes idle.
    fn pull(&mut self, channel: &mut Channel) -> (lost: u64)
        requires
            old(channel).wf(),
            old(channel)@.limit <= old(self)@.write_limit,
        ensures
            final(channel).wf(),
            (final(self)@, final(channel)@, lost as nat) == old(self)@.pull(old(channel)@),
    {
        let mut lost: u64 = 0;
        let mut d = channel.receive();
        if let Delivery::Lagged(n) = d {
            lost = n;
            d = channel.receive();
        }
        match d {
            Delivery::Message(c) => {
                self.phase = EgressPhase::Writing(c);
                self.state = ConnectionState::Active(Activity::Sending);
            },
            _ => {
                self.phase = EgressPhase::Idle;
                self.state = ConnectionState::Connected;
            },
        }
        lost
    }

    /// Handles `ev` and returns what to do next, with the number of chunks
    /// given up for lost while doing so.
    pub fn step(&mut self, channel: &mut Channel, ev: EgressEvent) -> (r: (EgressAction, u64))
        requires
            old(self)@.valid(),
            old(channel).wf(),
            old(channel)@.limit <= old(self)@.write_limit,
            old(channel)@.policy == old(self)@.policy,
        ensures
            final(self)@.valid(),
            final(channel).wf(),
            (final(self)@, final(channel)@, r.1 as nat) == old(self)@.next(old(channel)@, ev),
            r.0@ == final(self)@.action(),
            r.0@ matches EgressActionView::Write(b) ==> {
                &&& b.len() <= old(self)@.write_limit
                &&& (old(self)@.sink matches LinkKind::Packet { max_packet } ==> b.len()
                    < max_packet)
            },
    {
        let mut phase = EgressPhase::Idle;
        core::mem::swap(&mut phase, &mut self.phase);
        let mut lost: u64 = 0;
        match (phase, ev) {
            (EgressPhase::AwaitingLink(kept), EgressEvent::LinkUp) => {
                match self.policy {
                    OverflowPolicy::Lossy => {
                        lost = channel.clear();
                        self.state = ConnectionState::Connected;
                    },
                    OverflowPolicy::Lossless => {
                        match kept {
                            Some(c) => {
                                self.phase = EgressPhase::Writing(c);
                                self.state = ConnectionState::Active(Activity::Sending);
                            },
                            None => {
                                lost = self.pull(channel);
                            },
                        }
                    },
                }
            },
            (EgressPhase::Idle, EgressEvent::DataReady) => {
                lost = self.pull(channel);
            },
            (EgressPhase::Writing(_), EgressEvent::WriteDone) => {
                lost = self.pull(channel);
            },
            (EgressPhase::Writing(c), EgressEvent::WriteFailed(_)) => {
                match self.sink {
                    LinkKind::Packet { .. } => {
                        self.state = ConnectionState::Disconnected;
                        match self.policy {
                            OverflowPolicy::Lossless => {
                                self.phase = EgressPhase::AwaitingLink(Some(c));
                            },
                            OverflowPolicy::Lossy => {
                                self.phase = EgressPhase::AwaitingLink(None);
                                lost = 1;
                            },
                        }
                    },
                    LinkKind::Stream => {
                        self.phase = EgressPhase::Writing(c);
                    },
                }
            },
            (phase, _) => {
                self.phase = phase;
            },
        }
        (self.action(), lost)
    }
}

} // verus!
