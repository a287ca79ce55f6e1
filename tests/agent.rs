use conn_state::addr::SocketAddress;
use conn_state::connection_state::ConnectionState;
use conn_state::ice::IceConfig;
use conn_state::idle::idle_threshold_covers;
use conn_state::peer_socket::PeerSocket;
use is::{IceAgent, IceCreds};

fn agent() -> IceAgent {
    IceAgent::new(IceCreds::new())
}

fn idle_threshold_covers_agent(a: &IceAgent) -> bool {
    idle_threshold_covers(a.ice_timeout().as_millis())
}

fn quick() -> IceConfig {
    IceConfig { initial_stun_rto_ms: 250, max_stun_rto_ms: 1_500, max_stun_retransmits: 8 }
}

fn relayed() -> PeerSocket {
    PeerSocket::RelayToPeer {
        dest: SocketAddress::V4 { ip: 0x0a00_0009, port: 3478 },
    }
}

#[test]
fn default_agent_timeout_is_too_long_for_the_threshold() {
    // 500 + 1000 + 2000 + 5 * 3000 + 3000 ms with the agent's defaults.
    assert!(!idle_threshold_covers_agent(&agent()));
}

#[test]
fn applied_config_shortens_the_agent_timeout() {
    let mut a = agent();
    quick().apply(&mut a);
    assert!(idle_threshold_covers_agent(&a));
}

#[test]
fn incoming_on_idle_resumes_and_applies_default_config() {
    let mut a = agent();
    let mut s = ConnectionState::Idle { peer_socket: relayed() };
    assert!(s.on_incoming(&mut a, quick(), 1_234));
    match s {
        ConnectionState::Connected { peer_socket, last_activity } => {
            assert_eq!(peer_socket, relayed());
            assert_eq!(last_activity, 1_234);
        }
        _ => panic!("expected connected"),
    }
    assert!(idle_threshold_covers_agent(&a));
}

#[test]
fn events_on_connected_only_refresh() {
    let mut a = agent();
    let mut s = ConnectionState::Connected { peer_socket: relayed(), last_activity: 0 };
    assert!(!s.on_upsert(&mut a, quick(), 10));
    assert!(!s.on_candidate(&mut a, quick(), 20));
    assert!(!s.on_outgoing(&mut a, quick(), 30));
    assert!(matches!(s, ConnectionState::Connected { last_activity: 30, .. }));
    assert!(!idle_threshold_covers_agent(&a));
}

#[test]
fn events_on_negotiating_change_nothing() {
    let mut a = agent();
    let mut s = ConnectionState::connecting(2);
    assert!(!s.on_upsert(&mut a, quick(), 10));
    assert!(!s.on_candidate(&mut a, quick(), 20));
    assert!(!s.on_outgoing(&mut a, quick(), 30));
    assert!(!s.on_incoming(&mut a, quick(), 40));
    assert_eq!(s.buffered(), Some((0, 0)));
    assert!(!idle_threshold_covers_agent(&a));
}

#[test]
fn agent_not_connected_blocks_idle() {
    let mut a = agent();
    let mut s = ConnectionState::Connected { peer_socket: relayed(), last_activity: 0 };
    assert_eq!(s.poll_timeout(&a), None);
    assert!(!s.handle_timeout(&mut a, quick(), 1_000_000));
    assert!(matches!(s, ConnectionState::Connected { last_activity: 0, .. }));
    assert!(!idle_threshold_covers_agent(&a));
}
