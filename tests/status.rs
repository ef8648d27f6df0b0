use duplex_bridge::state::{Activity, ConnectionState};
use duplex_bridge::state::ConnectionState::{Connected, Disconnected};
use duplex_bridge::status::{
    aggregate, pattern, show, AggregateStatus, LedCommand, StatusSnapshot, BLINK_MILLIS,
    ERROR_MILLIS,
};

const PACKET_IN: [ConnectionState; 3] = [
    ConnectionState::Disconnected,
    ConnectionState::Connected,
    ConnectionState::Active(Activity::Receiving),
];
const PACKET_OUT: [ConnectionState; 3] = [
    ConnectionState::Disconnected,
    ConnectionState::Connected,
    ConnectionState::Active(Activity::Sending),
];
const STREAM_OUT: [ConnectionState; 2] = [
    ConnectionState::Connected,
    ConnectionState::Active(Activity::Sending),
];
const STREAM_IN: [ConnectionState; 2] = [
    ConnectionState::Connected,
    ConnectionState::Active(Activity::Receiving),
];

fn expected(s: &StatusSnapshot) -> AggregateStatus {
    match (s.source_a, s.sink_b) {
        (Disconnected, Disconnected) => {
            if s.sink_a == Connected && s.source_b == Connected {
                AggregateStatus::Off
            } else {
                AggregateStatus::On
            }
        }
        (Disconnected, _) | (_, Disconnected) => AggregateStatus::ErrorPattern,
        (Connected, Connected) => AggregateStatus::On,
        _ => AggregateStatus::Blink,
    }
}

#[test]
fn every_reachable_combination_has_one_signal() {
    let mut count = 0;
    let mut seen = [0usize; 4];
    for source_a in PACKET_IN {
        for sink_b in PACKET_OUT {
            for sink_a in STREAM_OUT {
                for source_b in STREAM_IN {
                    let s = StatusSnapshot { sink_a, source_a, sink_b, source_b };
                    let r = aggregate(s);
                    assert_eq!(r, expected(&s), "{:?}", s);
                    seen[match r {
                        AggregateStatus::Off => 0,
                        AggregateStatus::On => 1,
                        AggregateStatus::Blink => 2,
                        AggregateStatus::ErrorPattern => 3,
                    }] += 1;
                    count += 1;
                }
            }
        }
    }
    assert_eq!(count, 36);
    assert_eq!(seen, [1, 7, 12, 16]);
}

#[test]
fn both_idle_and_disconnected_is_off() {
    let s = StatusSnapshot {
        sink_a: ConnectionState::Connected,
        source_a: ConnectionState::Disconnected,
        sink_b: ConnectionState::Disconnected,
        source_b: ConnectionState::Connected,
    };
    assert_eq!(aggregate(s), AggregateStatus::Off);
}

#[test]
fn split_connection_is_an_error() {
    let s = StatusSnapshot {
        sink_a: ConnectionState::Connected,
        source_a: ConnectionState::Active(Activity::Receiving),
        sink_b: ConnectionState::Disconnected,
        source_b: ConnectionState::Connected,
    };
    assert_eq!(aggregate(s), AggregateStatus::ErrorPattern);
}

#[test]
fn patterns_are_finite_and_distinct() {
    assert_eq!(pattern(AggregateStatus::Off), vec![LedCommand::Hold(false)]);
    assert_eq!(pattern(AggregateStatus::On), vec![LedCommand::Hold(true)]);
    assert_eq!(pattern(AggregateStatus::Blink), vec![LedCommand::Pulse(50)]);
    assert_eq!(
        pattern(AggregateStatus::ErrorPattern),
        vec![LedCommand::Pulse(200), LedCommand::Pulse(200), LedCommand::Pulse(200)]
    );
    assert_eq!(BLINK_MILLIS, 50);
    assert_eq!(ERROR_MILLIS, 200);
}

#[test]
fn show_pairs_status_with_pattern() {
    let s = StatusSnapshot {
        sink_a: ConnectionState::Active(Activity::Sending),
        source_a: ConnectionState::Connected,
        sink_b: ConnectionState::Active(Activity::Sending),
        source_b: ConnectionState::Connected,
    };
    let (status, steps) = show(s);
    assert_eq!(status, AggregateStatus::Blink);
    assert_eq!(steps, vec![LedCommand::Pulse(50)]);
}
