use tag::clock::Timestamp;
use tag::identity::IdentityContext;
use tag::log::{ActivityLog, Log, SocketAddress};
use tag::network::{network, Error, NetworkAction, NetworkEvent, NetworkPhase, NetworkRun, NetworkStep};

fn network_identity() -> IdentityContext {
    IdentityContext {
        username: "carol".to_string(),
        pid: 31337,
        command_line: "tag network".to_string(),
        process_name: "tag".to_string(),
    }
}

fn network_at(secs: i64, nanos: u32) -> Timestamp {
    Timestamp { secs, nanos }
}

fn network_failure(kind: std::io::ErrorKind) -> std::io::Error {
    std::io::Error::new(kind, "failed")
}

fn network_next(step: NetworkStep) -> (NetworkRun, NetworkAction) {
    match step {
        NetworkStep::Next(run, action) => (run, action),
        NetworkStep::Done(outcome) => panic!("the run ended: {:?}", outcome),
    }
}

fn network_done(step: NetworkStep) -> Result<Log, Error> {
    match step {
        NetworkStep::Done(outcome) => outcome,
        NetworkStep::Next(_, action) => panic!("the run goes on: {:?}", action),
    }
}

fn far_end() -> SocketAddress {
    SocketAddress::V4 { address: 0x8efa_b52e, port: 80 }
}

fn near_end() -> SocketAddress {
    SocketAddress::V4 { address: 0xc0a8_0117, port: 51234 }
}

fn connected() -> NetworkRun {
    let (run, _) = network(&network_identity());
    let (run, _) = network_next(run.advance(NetworkEvent::Connected, network_at(1, 0)));
    let (run, _) = network_next(run.advance(NetworkEvent::TimeoutSet, network_at(2, 0)));
    run
}

#[test]
fn network_asks_for_the_connection_first() {
    let (run, action) = network(&network_identity());
    assert_eq!(action, NetworkAction::Connect { endpoint: "google.com:80".to_string() });
    assert_eq!(run.identity, network_identity());
    assert_eq!(run.phase, NetworkPhase::Connecting);
}

#[test]
fn probe_leaves_one_record() {
    let (run, _) = network(&network_identity());
    let (run, action) = network_next(run.advance(NetworkEvent::Connected, network_at(1, 0)));
    assert_eq!(action, NetworkAction::SetWriteTimeout { seconds: 1 });
    let (run, action) = network_next(run.advance(NetworkEvent::TimeoutSet, network_at(2, 0)));
    assert_eq!(action, NetworkAction::Write { payload: vec![1, 1, 1, 4] });
    let (run, action) = network_next(run.advance(NetworkEvent::Written, network_at(3, 123)));
    assert_eq!(action, NetworkAction::ReadPeerAddress);
    let (run, action) = network_next(run.advance(NetworkEvent::PeerAddress(far_end()), network_at(4, 0)));
    assert_eq!(action, NetworkAction::ReadLocalAddress);
    let log = network_done(run.advance(NetworkEvent::LocalAddress(near_end()), network_at(5, 0))).unwrap();
    assert_eq!(
        log,
        Log {
            activity: ActivityLog::Network {
                destination: far_end(),
                source: near_end(),
                protocol: "TCP",
                bytes_sent: 4,
            },
            time: network_at(3, 123),
            username: "carol".to_string(),
            pid: 31337,
            command_line: "tag network".to_string(),
            process_name: "tag".to_string(),
        }
    );
}

#[test]
fn record_keeps_the_addresses_of_an_ipv6_connection() {
    let destination = SocketAddress::V6 { address: 0x2a00_1450_4001_0000_0000_0000_0000_200e, port: 80, flowinfo: 0, scope_id: 0 };
    let source = SocketAddress::V6 { address: 1, port: 40000, flowinfo: 7, scope_id: 2 };
    let run = connected();
    let (run, _) = network_next(run.advance(NetworkEvent::Written, network_at(3, 0)));
    let (run, _) = network_next(run.advance(NetworkEvent::PeerAddress(destination), network_at(3, 0)));
    let log = network_done(run.advance(NetworkEvent::LocalAddress(source), network_at(3, 0))).unwrap();
    match log.activity {
        ActivityLog::Network { destination: far, source: near, protocol, bytes_sent } => {
            assert_eq!(far, destination);
            assert_eq!(near, source);
            assert_eq!(protocol, "TCP");
            assert_eq!(bytes_sent, 4);
            assert!(!far.is_unspecified());
            assert!(!near.is_unspecified());
        },
        other => panic!("unexpected activity: {:?}", other),
    }
}

#[test]
fn unspecified_addresses_are_told_apart() {
    assert!(SocketAddress::V4 { address: 0, port: 80 }.is_unspecified());
    assert!(SocketAddress::V6 { address: 0, port: 80, flowinfo: 1, scope_id: 1 }.is_unspecified());
    assert!(!SocketAddress::V4 { address: 0x7f00_0001, port: 0 }.is_unspecified());
    assert!(!SocketAddress::V6 { address: 1, port: 0, flowinfo: 0, scope_id: 0 }.is_unspecified());
}

#[test]
fn failed_connection_ends_the_run() {
    let (run, _) = network(&network_identity());
    let event = NetworkEvent::ConnectFailed(network_failure(std::io::ErrorKind::ConnectionRefused));
    match network_done(run.advance(event, network_at(1, 0))) {
        Err(Error::Connect(error)) => assert_eq!(error.kind(), std::io::ErrorKind::ConnectionRefused),
        other => panic!("unexpected outcome: {:?}", other),
    }
}

#[test]
fn failed_time_limit_ends_the_run() {
    let (run, _) = network(&network_identity());
    let (run, _) = network_next(run.advance(NetworkEvent::Connected, network_at(1, 0)));
    let event = NetworkEvent::TimeoutFailed(network_failure(std::io::ErrorKind::InvalidInput));
    match network_done(run.advance(event, network_at(1, 0))) {
        Err(Error::SetTimeout(error)) => assert_eq!(error.kind(), std::io::ErrorKind::InvalidInput),
        other => panic!("unexpected outcome: {:?}", other),
    }
}

#[test]
fn failed_write_ends_the_run() {
    let event = NetworkEvent::WriteFailed(network_failure(std::io::ErrorKind::TimedOut));
    match network_done(connected().advance(event, network_at(3, 0))) {
        Err(Error::Write(error)) => assert_eq!(error.kind(), std::io::ErrorKind::TimedOut),
        other => panic!("unexpected outcome: {:?}", other),
    }
}

#[test]
fn unreadable_far_end_ends_the_run() {
    let (run, _) = network_next(connected().advance(NetworkEvent::Written, network_at(3, 0)));
    let event = NetworkEvent::PeerAddressFailed(network_failure(std::io::ErrorKind::NotConnected));
    match network_done(run.advance(event, network_at(3, 0))) {
        Err(Error::RemoteAddr(error)) => assert_eq!(error.kind(), std::io::ErrorKind::NotConnected),
        other => panic!("unexpected outcome: {:?}", other),
    }
}

#[test]
fn unreadable_near_end_ends_the_run() {
    let (run, _) = network_next(connected().advance(NetworkEvent::Written, network_at(3, 0)));
    let (run, _) = network_next(run.advance(NetworkEvent::PeerAddress(far_end()), network_at(3, 0)));
    let event = NetworkEvent::LocalAddressFailed(network_failure(std::io::ErrorKind::Other));
    match network_done(run.advance(event, network_at(3, 0))) {
        Err(Error::LocalAddr(error)) => assert_eq!(error.kind(), std::io::ErrorKind::Other),
        other => panic!("unexpected outcome: {:?}", other),
    }
}

#[test]
fn network_event_that_answers_nothing_is_ignored() {
    let (run, first) = network(&network_identity());
    let (run, action) = network_next(run.advance(NetworkEvent::Written, network_at(1, 0)));
    assert_eq!(action, first);
    let (run, action) = network_next(run.advance(NetworkEvent::LocalAddress(near_end()), network_at(1, 0)));
    assert_eq!(action, first);
    let (run, _) = network_next(run.advance(NetworkEvent::Connected, network_at(1, 0)));
    let (run, action) = network_next(run.advance(NetworkEvent::Connected, network_at(1, 0)));
    assert_eq!(action, NetworkAction::SetWriteTimeout { seconds: 1 });
    let (run, _) = network_next(run.advance(NetworkEvent::TimeoutSet, network_at(1, 0)));
    let (run, _) = network_next(run.advance(NetworkEvent::Written, network_at(9, 9)));
    let (run, action) = network_next(run.advance(NetworkEvent::Written, network_at(10, 0)));
    assert_eq!(action, NetworkAction::ReadPeerAddress);
    assert_eq!(run.phase, NetworkPhase::ReadingPeer { written: network_at(9, 9) });
    assert_eq!(run.pending_action(), NetworkAction::ReadPeerAddress);
}
