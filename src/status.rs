//! The status aggregator: one visual signal derived from the four
//! connection states of the bridge.
use crate::state::{Activity, ConnectionState};
use vstd::prelude::*;

verus! {

/// The signal shown on the single-bit visual output.
#[derive(Clone, Copy, PartialEq, Eq, Structural, Debug)]
pub enum AggregateStatus {
    Off,
    On,
    Blink,
    ErrorPattern,
}

/// The four connection states at one moment. Direction A carries data from
/// the packet link to the stream link, direction B the other way, so
/// `source_a` and `sink_b` face the packet link.
#[derive(Clone, Copy, PartialEq, Eq, Structural, Debug)]
pub struct StatusSnapshot {
    pub sink_a: ConnectionState,
    pub source_a: ConnectionState,
    pub sink_b: ConnectionState,
    pub source_b: ConnectionState,
}

impl StatusSnapshot {
    /// The states the tasks can report: the stream-facing sides are never
    /// disconnected, and a busy side is busy in its own direction.
    pub open spec fn reachable(self) -> bool {
        &&& (self.source_a is Active ==> self.source_a == ConnectionState::Active(Activity::Receiving))
        &&& (self.sink_b is Active ==> self.sink_b == ConnectionState::Active(Activity::Sending))
        &&& (self.sink_a == ConnectionState::Connected || self.sink_a == ConnectionState::Active(
            Activity::Sending,
        ))
        &&& (self.source_b == ConnectionState::Connected || self.source_b
            == ConnectionState::Active(Activity::Receiving))
    }

    /// Both packet-facing sides have no peer.
    pub open spec fn packet_down(self) -> bool {
        self.source_a is Disconnected && self.sink_b is Disconnected
    }

    /// Exactly one packet-facing side has no peer, which the two directions
    /// of one duplex connection cannot legitimately show.
    pub open spec fn packet_split(self) -> bool {
        (self.source_a is Disconnected) != (self.sink_b is Disconnected)
    }

    /// Both packet-facing sides are connected and idle.
    pub open spec fn packet_steady(self) -> bool {
        self.source_a is Connected && self.sink_b is Connected
    }

    /// Neither packet-facing side is disconnected and one of them is busy.
    pub open spec fn packet_busy(self) -> bool {
        &&& !(self.source_a is Disconnected)
        &&& !(self.sink_b is Disconnected)
        &&& (self.source_a is Active || self.sink_b is Active)
    }

    /// Neither stream-facing side is busy.
    pub open spec fn stream_idle(self) -> bool {
        !(self.sink_a is Active) && !(self.source_b is Active)
    }

    /// The derivation rules, in priority order.
    pub open spec fn derived(self) -> AggregateStatus {
        if self.packet_down() {
            if self.stream_idle() {
                AggregateStatus::Off
            } else {
                AggregateStatus::On
            }
        } else if self.packet_split() {
            AggregateStatus::ErrorPattern
        } else if self.packet_steady() {
            AggregateStatus::On
        } else {
            AggregateStatus::Blink
        }
    }
}

/// Derives the visual signal from a snapshot of the four states.
pub fn aggregate(s: StatusSnapshot) -> (r: AggregateStatus)
    ensures
        r == s.derived(),
{
    let packet_in_down = matches!(s.source_a, ConnectionState::Disconnected);
    let packet_out_down = matches!(s.sink_b, ConnectionState::Disconnected);
    if packet_in_down && packet_out_down {
        let stream_busy = matches!(s.sink_a, ConnectionState::Active(_)) || matches!(
            s.source_b,
            ConnectionState::Active(_)
        );
        if stream_busy {
            AggregateStatus::On
        } else {
            AggregateStatus::Off
        }
    } else if packet_in_down || packet_out_down {
        AggregateStatus::ErrorPattern
    } else {
        match (s.source_a, s.sink_b) {
            (ConnectionState::Connected, ConnectionState::Connected) => AggregateStatus::On,
            _ => AggregateStatus::Blink,
        }
    }
}

/// Every snapshot falls under exactly one of the four derivation rules, and
/// the aggregator's output is the one that rule names: no combination of
/// states is left without a signal.
pub proof fn lemma_status_total(s: StatusSnapshot)
    ensures
        (if s.packet_down() { 1int } else { 0 }) + (if s.packet_split() { 1int } else { 0 }) + (
        if s.packet_steady() { 1int } else { 0 }) + (if s.packet_busy() { 1int } else { 0 }) == 1,
        s.packet_down() && s.stream_idle() ==> s.derived() == AggregateStatus::Off,
        s.packet_down() && !s.stream_idle() ==> s.derived() == AggregateStatus::On,
        s.packet_split() ==> s.derived() == AggregateStatus::ErrorPattern,
        s.packet_steady() ==> s.derived() == AggregateStatus::On,
        s.packet_busy() ==> s.derived() == AggregateStatus::Blink,
{
}

/// One step of the visual output.
#[derive(Clone, Copy, PartialEq, Eq, Structural, Debug)]
pub enum LedCommand {
    /// Turn the light on or off and leave it so.
    Hold(bool),
    /// Light it for the given milliseconds, then keep it dark as long.
    Pulse(u32),
}

/// Pulses in one round of `Blink`.
pub const BLINK_PULSES: usize = 1;

/// Length of each `Blink` pulse, in milliseconds.
pub const BLINK_MILLIS: u32 = 50;

/// Pulses in one round of `ErrorPattern`.
pub const ERROR_PULSES: usize = 3;

/// Length of each `ErrorPattern` pulse, in milliseconds.
pub const ERROR_MILLIS: u32 = 200;

/// The finite sequence of output steps that shows `status` once.
pub open spec fn pattern_of(status: AggregateStatus) -> Seq<LedCommand> {
    match status {
        AggregateStatus::Off => seq![LedCommand::Hold(false)],
        AggregateStatus::On => seq![LedCommand::Hold(true)],
        AggregateStatus::Blink => Seq::new(BLINK_PULSES as nat, |i: int| LedCommand::Pulse(BLINK_MILLIS)),
        AggregateStatus::ErrorPattern => Seq::new(
            ERROR_PULSES as nat,
            |i: int| LedCommand::Pulse(ERROR_MILLIS),
        ),
    }
}

/// The output steps that show `status` once; after the last one the status
/// is derived again.
pub fn pattern(status: AggregateStatus) -> (r: Vec<LedCommand>)
    ensures
        r@ == pattern_of(status),
{
    let (count, millis) = match status {
        AggregateStatus::Off => {
            return vec![LedCommand::Hold(false)];
        },
        AggregateStatus::On => {
            return vec![LedCommand::Hold(true)];
        },
        AggregateStatus::Blink => (BLINK_PULSES, BLINK_MILLIS),
        AggregateStatus::ErrorPattern => (ERROR_PULSES, ERROR_MILLIS),
    };
    let mut steps: Vec<LedCommand> = Vec::new();
    let mut i: usize = 0;
    while i < count
        invariant
            i <= count,
            steps@ == Seq::new(i as nat, |j: int| LedCommand::Pulse(millis)),
        decreases count - i,
    {
        steps.push(LedCommand::Pulse(millis));
        i = i + 1;
    }
    assert(steps@ =~= pattern_of(status));
    steps
}

/// Derives the signal and the output steps that show it.
pub fn show(s: StatusSnapshot) -> (r: (AggregateStatus, Vec<LedCommand>))
    ensures
        r.0 == s.derived(),
        r.1@ == pattern_of(s.derived()),
{
    let status = aggregate(s);
    (status, pattern(status))
}

} // verus!
