//! One direction of the bridge: a source link's ingress task, a channel and
//! a sink link's egress task, sized from the kinds of the two links.
use crate::channel::{Channel, ChannelView, OverflowPolicy};
use crate::chunk::CHUNK_CAPACITY;
use crate::egress::{Egress, EgressAction, EgressActionView, EgressEvent, EgressView};
use crate::ingress::{Ingress, IngressAction, IngressEvent, IngressEventView, IngressView};
use crate::state::{ConnectionState, LinkKind};
use crate::status::StatusSnapshot;
use vstd::prelude::*;

verus! {

/// Why two links cannot be joined by a lane.
#[derive(Clone, Copy, PartialEq, Eq, Structural, Debug)]
pub enum LaneError {
    /// A packet source with empty packets, or a packet sink whose packets
    /// cannot hold one byte once a full packet is ruled out.
    BadPacketSize,
    /// A full packet from the source would not fit one write to the sink.
    SourceExceedsSink,
}

/// The largest chunk written to a sink: one byte short of a full packet, so
/// that the packet protocol never waits for more, and within a chunk's
/// capacity.
pub open spec fn sink_limit(sink: LinkKind) -> nat {
    match sink {
        LinkKind::Packet { max_packet } => if max_packet - 1 < CHUNK_CAPACITY {
            (max_packet - 1) as nat
        } else {
            CHUNK_CAPACITY as nat
        },
        LinkKind::Stream => CHUNK_CAPACITY as nat,
    }
}

/// The largest read from a source: a whole packet, or for a stream as much
/// as the sink takes at once.
pub open spec fn source_limit(source: LinkKind, sink: LinkKind) -> nat {
    match source {
        LinkKind::Packet { max_packet } => max_packet as nat,
        LinkKind::Stream => sink_limit(sink),
    }
}

/// What is wrong with joining `source` to `sink`, if anything.
pub open spec fn lane_error(source: LinkKind, sink: LinkKind) -> Option<LaneError> {
    if (source matches LinkKind::Packet { max_packet } && max_packet == 0) || (
    sink matches LinkKind::Packet { max_packet } && max_packet < 2) {
        Some(LaneError::BadPacketSize)
    } else if source_limit(source, sink) > sink_limit(sink) {
        Some(LaneError::SourceExceedsSink)
    } else {
        None
    }
}

pub struct LaneView {
    pub channel: ChannelView,
    pub ingress: IngressView,
    pub egress: EgressView,
}

/// One direction of the bridge.
pub struct Lane {
    channel: Channel,
    ingress: Ingress,
    egress: Egress,
}

impl View for Lane {
    type V = LaneView;

    closed spec fn view(&self) -> LaneView {
        LaneView { channel: self.channel@, ingress: self.ingress@, egress: self.egress@ }
    }
}

impl Lane {
    pub closed spec fn wf(&self) -> bool {
        &&& self.channel.wf()
        &&& self.ingress@.valid()
        &&& self.egress@.valid()
        &&& self.ingress@.read_limit <= self.channel@.limit
        &&& self.channel@.limit <= self.egress@.write_limit
        &&& self.channel@.policy == self.egress@.policy
    }

    /// A lane from `source` to `sink` whose channel follows `policy`, with
    /// the first action of its ingress and of its egress task.
    pub fn new(source: LinkKind, sink: LinkKind, policy: OverflowPolicy) -> (r: Result<
        (Lane, IngressAction, EgressAction),
        LaneError,
    >)
        ensures
            r matches Err(e) ==> lane_error(source, sink) == Some(e),
            r is Ok <==> lane_error(source, sink) is None,
            r matches Ok((lane, ia, ea)) ==> {
                &&& lane.wf()
                &&& lane@.channel.policy == policy
                &&& lane@.channel.limit == sink_limit(sink)
                &&& lane@.channel.pending.len() == 0
                &&& lane@.channel.missed == 0
                &&& lane@.channel.published == 0
                &&& lane@.ingress.source == source
                &&& lane@.ingress.read_limit == source_limit(source, sink)
                &&& lane@.egress.sink == sink
                &&& lane@.egress.write_limit == sink_limit(sink)
                &&& ia == lane@.ingress.action()
                &&& ea@ == lane@.egress.action()
            },
    {
        let limit = match sink {
            LinkKind::Packet { max_packet } => {
                if max_packet < 2 {
                    return Err(LaneError::BadPacketSize);
                }
                if max_packet - 1 < CHUNK_CAPACITY {
                    max_packet - 1
                } else {
                    CHUNK_CAPACITY
                }
            },
            LinkKind::Stream => CHUNK_CAPACITY,
        };
        let read_limit = match source {
            LinkKind::Packet { max_packet } => {
                if max_packet == 0 {
                    return Err(LaneError::BadPacketSize);
                }
                max_packet
            },
            LinkKind::Stream => limit,
        };
        if read_limit > limit {
            return Err(LaneError::SourceExceedsSink);
        }
        let channel = Channel::new(policy, limit);
        let (ingress, ia) = Ingress::new(source, read_limit);
        let (egress, ea) = Egress::new(sink, policy, limit);
        Ok((Lane { channel, ingress, egress }, ia, ea))
    }

    /// The largest read the ingress task asks for.
    pub fn read_limit(&self) -> (r: usize)
        ensures
            r == self@.ingress.read_limit,
    {
        self.ingress.read_limit()
    }

    /// How many chunks the channel has accepted.
    pub fn published(&self) -> (r: u64)
        requires
            self.wf(),
        ensures
            r == self@.channel.published,
    {
        self.channel.published()
    }

    /// The state of the source side.
    pub fn source_state(&self) -> (r: ConnectionState)
        ensures
            r == self@.ingress.state,
    {
        self.ingress.state()
    }

    /// The state of the sink side.
    pub fn sink_state(&self) -> (r: ConnectionState)
        ensures
            r == self@.egress.state,
    {
        self.egress.state()
    }

    /// Hands `ev` to the ingress task and returns its next action.
    pub fn ingress_step(&mut self, ev: IngressEvent) -> (r: IngressAction)
        requires
            old(self).wf(),
            old(self)@.channel.published < u64::MAX,
            ev@ matches IngressEventView::ReadDone(bytes) ==> bytes.len()
                <= old(self)@.ingress.read_limit,
        ensures
            final(self).wf(),
            (final(self)@.ingress, final(self)@.channel) == old(self)@.ingress.next(
                old(self)@.channel,
                ev@,
            ),
            final(self)@.egress == old(self)@.egress,
            r == final(self)@.ingress.action(),
    {
        self.ingress.step(&mut self.channel, ev)
    }

    /// Hands `ev` to the egress task and returns its next action, with the
    /// number of chunks given up for lost.
    pub fn egress_step(&mut self, ev: EgressEvent) -> (r: (EgressAction, u64))
        requires
            old(self).wf(),
        ensures
            final(self).wf(),
            (final(self)@.egress, final(self)@.channel, r.1 as nat) == old(self)@.egress.next(
                old(self)@.channel,
                ev,
            ),
            final(self)@.ingress == old(self)@.ingress,
            r.0@ == final(self)@.egress.action(),
            r.0@ matches EgressActionView::Write(b) ==> {
                &&& b.len() <= old(self)@.egress.write_limit
                &&& (old(self)@.egress.sink matches LinkKind::Packet { max_packet } ==> b.len()
                    < max_packet)
            },
    {
        self.egress.step(&mut self.channel, ev)
    }
}

/// The four states the status aggregator reads: direction A runs from the
/// packet link to the stream link, direction B back.
pub fn snapshot(a: &Lane, b: &Lane) -> (s: StatusSnapshot)
    requires
        a.wf(),
        b.wf(),
        a@.ingress.source is Packet,
        a@.egress.sink is Stream,
        b@.ingress.source is Stream,
        b@.egress.sink is Packet,
    ensures
        s.source_a == a@.ingress.state,
        s.sink_a == a@.egress.state,
        s.source_b == b@.ingress.state,
        s.sink_b == b@.egress.state,
        s.reachable(),
{
    StatusSnapshot {
        sink_a: a.sink_state(),
        source_a: a.source_state(),
        sink_b: b.sink_state(),
        source_b: b.source_state(),
    }
}

} // verus!
