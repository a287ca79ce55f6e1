use conn_state::addr::SocketAddress;
use conn_state::connection_state::ConnectionState;
use conn_state::idle::{idle_at, idle_threshold_covers, MAX_IDLE_MS};
use conn_state::peer_socket::PeerSocket;

fn addr(last: u8, port: u16) -> SocketAddress {
    SocketAddress::V4 { ip: u32::from_be_bytes([10, 0, 0, last]), port }
}

fn direct() -> PeerSocket {
    PeerSocket::PeerToPeer { source: addr(1, 1000), dest: addr(2, 2000) }
}

fn connected(last_activity: u64) -> ConnectionState {
    ConnectionState::Connected { peer_socket: direct(), last_activity }
}

fn expect_connected(s: &ConnectionState, socket: PeerSocket, at: u64) {
    match s {
        ConnectionState::Connected { peer_socket, last_activity } => {
            assert_eq!(*peer_socket, socket);
            assert_eq!(*last_activity, at);
        }
        _ => panic!("expected a connected state, got {}", s.to_string()),
    }
}

#[test]
fn idle_deadline_is_twenty_seconds_later() {
    assert_eq!(MAX_IDLE_MS, 20_000);
    assert_eq!(idle_at(1_000), 21_000);
    assert_eq!(idle_at(u64::MAX - 5), u64::MAX);
}

#[test]
fn poll_timeout_only_when_connected() {
    let s = connected(5_000);
    assert_eq!(s.poll_timeout_with(true), Some((25_000, "idle transition")));
    assert_eq!(s.poll_timeout_with(false), None);
    for s in [
        ConnectionState::connecting(4),
        ConnectionState::Idle { peer_socket: direct() },
        ConnectionState::Failed,
    ] {
        assert_eq!(s.poll_timeout_with(true), None);
        assert_eq!(s.poll_timeout_with(false), None);
    }
}

#[test]
fn timeout_scenario_direct_path() {
    let t0: u64 = 100_000;
    let mut s = connected(t0);
    assert!(!s.handle_timeout_with(true, t0 + 19_000));
    expect_connected(&s, direct(), t0);
    assert!(s.handle_timeout_with(true, t0 + 20_000));
    match s {
        ConnectionState::Idle { peer_socket } => assert_eq!(peer_socket, direct()),
        _ => panic!("expected idle"),
    }
}

#[test]
fn idle_needs_deadline_and_connected_agent() {
    let t0: u64 = 0;
    let mut s = connected(t0);
    assert!(!s.handle_timeout_with(false, t0 + 30_000));
    expect_connected(&s, direct(), t0);
    assert!(!s.handle_timeout_with(true, t0 + 10_000));
    expect_connected(&s, direct(), t0);
    assert!(s.handle_timeout_with(true, t0 + 30_000));
    assert!(matches!(s, ConnectionState::Idle { .. }));
    assert!(!s.handle_timeout_with(true, t0 + 90_000));
    assert!(matches!(s, ConnectionState::Idle { .. }));
}

#[test]
fn incoming_resumes_remote_relayed_idle() {
    let d = PeerSocket::RelayToPeer { dest: addr(9, 3478) };
    let mut s = ConnectionState::Idle { peer_socket: d };
    assert!(s.record_activity(77_000));
    expect_connected(&s, d, 77_000);
    assert!(!s.record_activity(78_000));
    expect_connected(&s, d, 78_000);
}

#[test]
fn activity_twice_is_activity_once() {
    let mut once = connected(1);
    once.record_activity(500);
    let mut twice = connected(1);
    twice.record_activity(500);
    twice.record_activity(500);
    expect_connected(&once, direct(), 500);
    expect_connected(&twice, direct(), 500);
}

#[test]
fn negotiating_ignores_events() {
    let mut s = ConnectionState::connecting(2);
    assert!(!s.record_activity(10));
    assert!(!s.handle_timeout_with(true, u64::MAX));
    assert_eq!(s.buffered(), Some((0, 0)));
    assert!(!s.has_nominated_socket());
    assert_eq!(s.to_string(), "Negotiating");
}

#[test]
fn failed_is_absorbing() {
    let mut s = ConnectionState::Failed;
    assert!(!s.record_activity(10));
    assert!(!s.handle_timeout_with(true, u64::MAX));
    assert!(matches!(s, ConnectionState::Failed));
    assert_eq!(s.on_nominated(direct(), 5), None);
    assert!(matches!(s, ConnectionState::Failed));
    assert_eq!(s.buffered(), None);
}

#[test]
fn buffers_drop_oldest_when_full() {
    let mut s = ConnectionState::connecting(2);
    assert!(s.buffer_wg(vec![1]));
    assert!(s.buffer_wg(vec![2]));
    assert!(s.buffer_wg(vec![3]));
    assert!(s.buffer_ip(vec![9, 9]));
    assert_eq!(s.buffered(), Some((2, 1)));
    let (wg, ip) = s.on_nominated(direct(), 42).expect("was negotiating");
    assert_eq!(wg, vec![vec![2], vec![3]]);
    assert_eq!(ip, vec![vec![9, 9]]);
    expect_connected(&s, direct(), 42);
    assert!(!s.buffer_ip(vec![1]));
}

#[test]
fn nominated_socket_and_labels() {
    let mut s = connected(0);
    assert!(s.has_nominated_socket());
    assert_eq!(s.peer_socket(), Some(direct()));
    assert_eq!(s.to_string(), "Active(PeerToPeer)");
    s.handle_timeout_with(true, 20_000);
    assert!(s.has_nominated_socket());
    assert_eq!(s.to_string(), "Idle(PeerToPeer)");
    s.fail();
    assert!(!s.has_nominated_socket());
    assert_eq!(s.peer_socket(), None);
    assert_eq!(s.to_string(), "Failed");
}

#[test]
fn threshold_must_exceed_ice_timeout() {
    assert!(idle_threshold_covers(19_999));
    assert!(!idle_threshold_covers(20_000));
    assert!(!idle_threshold_covers(60_000));
}
