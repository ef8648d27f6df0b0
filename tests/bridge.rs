use duplex_bridge::egress::{EgressAction, EgressEvent};
use duplex_bridge::ingress::{IngressAction, IngressEvent};
use duplex_bridge::lane::{snapshot, Lane, LaneError};
use duplex_bridge::channel::OverflowPolicy;
use duplex_bridge::state::{Activity, ConnectionState, LinkFault, LinkKind};
use duplex_bridge::status::{aggregate, AggregateStatus, StatusSnapshot};

const USB: LinkKind = LinkKind::Packet { max_packet: 64 };

fn lane(source: LinkKind, sink: LinkKind, policy: OverflowPolicy) -> (Lane, IngressAction, EgressAction) {
    match Lane::new(source, sink, policy) {
        Ok(r) => r,
        Err(e) => panic!("lane refused: {:?}", e),
    }
}

fn written(a: &EgressAction) -> Vec<u8> {
    match a {
        EgressAction::Write(c) => c.as_bytes().to_vec(),
        EgressAction::AwaitLink => panic!("expected a write, got AwaitLink"),
        EgressAction::WaitForData => panic!("expected a write, got WaitForData"),
    }
}

/// Reads `bytes` into the lane and lets the ingress settle.
fn feed(l: &mut Lane, bytes: &[u8]) {
    assert_eq!(l.ingress_step(IngressEvent::ReadDone(bytes.to_vec())), IngressAction::Settle);
    assert_eq!(l.source_state(), ConnectionState::Active(Activity::Receiving));
    let next = l.ingress_step(IngressEvent::Settled);
    assert_eq!(next, IngressAction::Read(l.read_limit()));
    assert_eq!(l.source_state(), ConnectionState::Connected);
}

#[test]
fn lane_limits_follow_link_kinds() {
    let (a, ia, ea) = lane(USB, LinkKind::Stream, OverflowPolicy::Lossy);
    assert_eq!(a.read_limit(), 64);
    assert_eq!(ia, IngressAction::AwaitLink);
    assert!(matches!(ea, EgressAction::WaitForData));
    let (b, ib, eb) = lane(LinkKind::Stream, USB, OverflowPolicy::Lossy);
    assert_eq!(b.read_limit(), 63);
    assert_eq!(ib, IngressAction::Read(63));
    assert!(matches!(eb, EgressAction::AwaitLink));
    let (c, _, _) = lane(LinkKind::Stream, LinkKind::Packet { max_packet: 512 }, OverflowPolicy::Lossless);
    assert_eq!(c.read_limit(), 64);
    let (d, _, _) = lane(LinkKind::Packet { max_packet: 8 }, LinkKind::Packet { max_packet: 64 }, OverflowPolicy::Lossless);
    assert_eq!(d.read_limit(), 8);
}

#[test]
fn lane_refuses_bad_packet_sizes() {
    assert!(matches!(
        Lane::new(LinkKind::Packet { max_packet: 0 }, LinkKind::Stream, OverflowPolicy::Lossy),
        Err(LaneError::BadPacketSize)
    ));
    assert!(matches!(
        Lane::new(LinkKind::Stream, LinkKind::Packet { max_packet: 1 }, OverflowPolicy::Lossy),
        Err(LaneError::BadPacketSize)
    ));
    assert!(matches!(
        Lane::new(USB, USB, OverflowPolicy::Lossless),
        Err(LaneError::SourceExceedsSink)
    ));
    assert!(matches!(
        Lane::new(LinkKind::Packet { max_packet: 65 }, LinkKind::Stream, OverflowPolicy::Lossless),
        Err(LaneError::SourceExceedsSink)
    ));
}

#[test]
fn packet_payload_reaches_stream_in_order() {
    let payload: Vec<u8> = (0..100u8).collect();
    let (mut a, _, _) = lane(USB, LinkKind::Stream, OverflowPolicy::Lossless);
    assert_eq!(a.ingress_step(IngressEvent::LinkUp), IngressAction::Read(64));
    feed(&mut a, &payload[..64]);
    feed(&mut a, &payload[64..]);
    let mut writes: Vec<Vec<u8>> = Vec::new();
    let (mut action, lost) = a.egress_step(EgressEvent::DataReady);
    assert_eq!(lost, 0);
    while let EgressAction::Write(_) = action {
        writes.push(written(&action));
        assert_eq!(a.sink_state(), ConnectionState::Active(Activity::Sending));
        let (next, lost) = a.egress_step(EgressEvent::WriteDone);
        assert_eq!(lost, 0);
        action = next;
    }
    assert!(matches!(action, EgressAction::WaitForData));
    assert_eq!(a.sink_state(), ConnectionState::Connected);
    assert_eq!(writes.len(), 2);
    assert_eq!(writes[0].len(), 64);
    assert_eq!(writes[1].len(), 36);
    assert_eq!(writes.concat(), payload);
}

#[test]
fn stream_to_packet_writes_stay_below_packet_size() {
    let (mut b, _, _) = lane(LinkKind::Stream, USB, OverflowPolicy::Lossless);
    assert!(matches!(b.egress_step(EgressEvent::LinkUp).0, EgressAction::WaitForData));
    let data = [0x5au8; 63];
    feed(&mut b, &data);
    let (action, _) = b.egress_step(EgressEvent::DataReady);
    let w = written(&action);
    assert_eq!(w.len(), 63);
    assert!(w.len() < 64);
}

#[test]
fn lossless_lane_holds_chunk_until_room() {
    let (mut b, _, _) = lane(LinkKind::Stream, USB, OverflowPolicy::Lossless);
    for i in 0..5u8 {
        feed(&mut b, &[i]);
    }
    assert_eq!(b.ingress_step(IngressEvent::ReadDone(vec![5])), IngressAction::WaitForRoom);
    assert_eq!(b.ingress_step(IngressEvent::RoomFreed), IngressAction::WaitForRoom);
    assert!(matches!(b.egress_step(EgressEvent::LinkUp).0, EgressAction::Write(_)));
    assert_eq!(b.ingress_step(IngressEvent::RoomFreed), IngressAction::Settle);
    assert_eq!(b.published(), 6);
}

#[test]
fn ingress_read_faults() {
    let (mut a, _, _) = lane(USB, LinkKind::Stream, OverflowPolicy::Lossy);
    a.ingress_step(IngressEvent::LinkUp);
    assert_eq!(a.ingress_step(IngressEvent::ReadFailed(LinkFault::Transient)), IngressAction::Read(64));
    assert_eq!(a.source_state(), ConnectionState::Connected);
    assert_eq!(a.ingress_step(IngressEvent::ReadFailed(LinkFault::Closed)), IngressAction::AwaitLink);
    assert_eq!(a.source_state(), ConnectionState::Disconnected);
    assert_eq!(a.ingress_step(IngressEvent::Settled), IngressAction::AwaitLink);

    let (mut b, _, _) = lane(LinkKind::Stream, USB, OverflowPolicy::Lossy);
    assert_eq!(b.ingress_step(IngressEvent::ReadFailed(LinkFault::Closed)), IngressAction::Read(63));
    assert_eq!(b.source_state(), ConnectionState::Connected);
}

#[test]
fn stream_sink_retries_failed_write() {
    let (mut a, _, _) = lane(USB, LinkKind::Stream, OverflowPolicy::Lossy);
    a.ingress_step(IngressEvent::LinkUp);
    feed(&mut a, &[1, 2, 3]);
    let (first, _) = a.egress_step(EgressEvent::DataReady);
    assert_eq!(written(&first), vec![1, 2, 3]);
    let (again, lost) = a.egress_step(EgressEvent::WriteFailed(LinkFault::Transient));
    assert_eq!(lost, 0);
    assert_eq!(written(&again), vec![1, 2, 3]);
}

#[test]
fn lossy_packet_sink_resumes_with_fresh_chunks() {
    let (mut b, _, _) = lane(LinkKind::Stream, USB, OverflowPolicy::Lossy);
    assert!(matches!(b.egress_step(EgressEvent::LinkUp).0, EgressAction::WaitForData));
    feed(&mut b, b"old");
    let (w, _) = b.egress_step(EgressEvent::DataReady);
    assert_eq!(written(&w), b"old".to_vec());
    feed(&mut b, b"stale");
    let (down, lost) = b.egress_step(EgressEvent::WriteFailed(LinkFault::Closed));
    assert!(matches!(down, EgressAction::AwaitLink));
    assert_eq!(lost, 1);
    assert_eq!(b.sink_state(), ConnectionState::Disconnected);
    let (up, lost) = b.egress_step(EgressEvent::LinkUp);
    assert!(matches!(up, EgressAction::WaitForData));
    assert_eq!(lost, 1);
    feed(&mut b, b"fresh");
    let (w, lost) = b.egress_step(EgressEvent::DataReady);
    assert_eq!(lost, 0);
    assert_eq!(written(&w), b"fresh".to_vec());
}

#[test]
fn lossless_packet_sink_resumes_with_queued_chunks() {
    let (mut b, _, _) = lane(LinkKind::Stream, USB, OverflowPolicy::Lossless);
    b.egress_step(EgressEvent::LinkUp);
    feed(&mut b, b"first");
    let (w, _) = b.egress_step(EgressEvent::DataReady);
    assert_eq!(written(&w), b"first".to_vec());
    feed(&mut b, b"second");
    let (down, lost) = b.egress_step(EgressEvent::WriteFailed(LinkFault::Closed));
    assert!(matches!(down, EgressAction::AwaitLink));
    assert_eq!(lost, 0);
    assert_eq!(b.egress_step(EgressEvent::DataReady).1, 0);
    let (up, _) = b.egress_step(EgressEvent::LinkUp);
    assert_eq!(written(&up), b"first".to_vec());
    let (next, _) = b.egress_step(EgressEvent::WriteDone);
    assert_eq!(written(&next), b"second".to_vec());
    let (idle, _) = b.egress_step(EgressEvent::WriteDone);
    assert!(matches!(idle, EgressAction::WaitForData));
}

#[test]
fn egress_reports_lag_before_next_chunk() {
    let (mut a, _, _) = lane(LinkKind::Stream, LinkKind::Stream, OverflowPolicy::Lossy);
    for i in 0..7u8 {
        feed(&mut a, &[i]);
    }
    let (w, lost) = a.egress_step(EgressEvent::DataReady);
    assert_eq!(lost, 2);
    assert_eq!(written(&w), vec![2]);
}

#[test]
fn idle_disconnected_bridge_is_off() {
    let (a, _, _) = lane(USB, LinkKind::Stream, OverflowPolicy::Lossy);
    let (b, _, _) = lane(LinkKind::Stream, USB, OverflowPolicy::Lossy);
    let s = snapshot(&a, &b);
    assert_eq!(s.source_a, ConnectionState::Disconnected);
    assert_eq!(s.sink_b, ConnectionState::Disconnected);
    assert_eq!(aggregate(s), AggregateStatus::Off);
}

#[test]
fn connected_and_busy_bridge_signals() {
    let (mut a, _, _) = lane(USB, LinkKind::Stream, OverflowPolicy::Lossy);
    let (mut b, _, _) = lane(LinkKind::Stream, USB, OverflowPolicy::Lossy);
    a.ingress_step(IngressEvent::LinkUp);
    b.egress_step(EgressEvent::LinkUp);
    assert_eq!(aggregate(snapshot(&a, &b)), AggregateStatus::On);
    a.ingress_step(IngressEvent::ReadDone(vec![1]));
    assert_eq!(aggregate(snapshot(&a, &b)), AggregateStatus::Blink);
    a.ingress_step(IngressEvent::Settled);
    a.ingress_step(IngressEvent::ReadFailed(LinkFault::Closed));
    assert_eq!(aggregate(snapshot(&a, &b)), AggregateStatus::ErrorPattern);
}

#[test]
fn stream_only_activity_shows_on() {
    let s = StatusSnapshot {
        sink_a: ConnectionState::Connected,
        source_a: ConnectionState::Disconnected,
        sink_b: ConnectionState::Disconnected,
        source_b: ConnectionState::Active(Activity::Receiving),
    };
    assert_eq!(aggregate(s), AggregateStatus::On);
}
