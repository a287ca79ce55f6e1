use conn_state::addr::SocketAddress;
use conn_state::peer_socket::PeerSocket;

fn v4(a: u8, b: u8, c: u8, d: u8, port: u16) -> SocketAddress {
    SocketAddress::V4 { ip: u32::from_be_bytes([a, b, c, d]), port }
}

#[test]
fn remote_relayed_names_relay_and_destination() {
    let d = v4(203, 0, 113, 7, 3478);
    let s = PeerSocket::RelayToPeer { dest: d };
    let text = s.fmt("relay-R");
    assert_eq!(text, "RelayToPeer { relay: relay-R, dest: 203.0.113.7:3478 }");
    assert!(!text.contains("source"));
}

#[test]
fn both_relayed_text() {
    let s = PeerSocket::RelayToRelay { dest: v4(10, 0, 0, 1, 80) };
    assert_eq!(s.fmt("r1"), "RelayToRelay { relay: r1, dest: 10.0.0.1:80 }");
}

#[test]
fn direct_text() {
    let a = v4(192, 168, 1, 2, 51820);
    let b = v4(1, 2, 3, 4, 0);
    let s = PeerSocket::PeerToPeer { source: a, dest: b };
    assert_eq!(
        s.fmt("unused"),
        "PeerToPeer { source: 192.168.1.2:51820, dest: 1.2.3.4:0 }"
    );
    let s = PeerSocket::PeerToRelay { source: a, dest: b };
    assert_eq!(
        s.fmt("unused"),
        "PeerToRelay { source: 192.168.1.2:51820, dest: 1.2.3.4:0 }"
    );
}

fn v6(ip: u128, port: u16, scope_id: u32) -> SocketAddress {
    SocketAddress::V6 { ip, port, flowinfo: 0, scope_id }
}

fn relayed_text(dest: SocketAddress) -> String {
    PeerSocket::RelayToPeer { dest }.fmt("r")
}

#[test]
fn ipv6_text() {
    assert_eq!(
        relayed_text(v6(0x2001_0db8_0000_0000_0000_0000_0000_00ff, 443, 0)),
        "RelayToPeer { relay: r, dest: [2001:db8::ff]:443 }"
    );
    assert_eq!(relayed_text(v6(1, 80, 0)), "RelayToPeer { relay: r, dest: [::1]:80 }");
    assert_eq!(relayed_text(v6(0, 80, 0)), "RelayToPeer { relay: r, dest: [::]:80 }");
}

#[test]
fn ipv6_text_first_of_equal_zero_runs() {
    let ip: u128 = 0x0001_0000_0000_0002_0000_0000_0003_0004;
    assert_eq!(relayed_text(v6(ip, 1, 0)), "RelayToPeer { relay: r, dest: [1::2:0:0:3:4]:1 }");
}

#[test]
fn ipv6_text_keeps_a_single_zero_group() {
    let ip: u128 = 0x0001_0000_0002_0003_0004_0005_0006_0007;
    assert_eq!(
        relayed_text(v6(ip, 1, 0)),
        "RelayToPeer { relay: r, dest: [1:0:2:3:4:5:6:7]:1 }"
    );
}

#[test]
fn ipv6_text_mapped_v4_and_scope() {
    let ip: u128 = 0xffff_0102_0304;
    assert_eq!(
        relayed_text(v6(ip, 9, 0)),
        "RelayToPeer { relay: r, dest: [::ffff:1.2.3.4]:9 }"
    );
    let ip: u128 = 0xfe80_0000_0000_0000_0000_0000_0000_0001;
    assert_eq!(relayed_text(v6(ip, 9, 3)), "RelayToPeer { relay: r, dest: [fe80::1%3]:9 }");
}

#[test]
fn ipv6_flowinfo_and_scope_are_part_of_identity() {
    let a = SocketAddress::V6 { ip: 1, port: 1, flowinfo: 0, scope_id: 0 };
    let b = SocketAddress::V6 { ip: 1, port: 1, flowinfo: 5, scope_id: 0 };
    let c = SocketAddress::V6 { ip: 1, port: 1, flowinfo: 0, scope_id: 2 };
    assert_ne!(a, b);
    assert_ne!(a, c);
}

#[test]
fn send_from_relay_only_when_our_side_relays() {
    let a = v4(1, 1, 1, 1, 1);
    let b = v4(2, 2, 2, 2, 2);
    assert!(!PeerSocket::PeerToPeer { source: a, dest: b }.send_from_relay());
    assert!(!PeerSocket::PeerToRelay { source: a, dest: b }.send_from_relay());
    assert!(PeerSocket::RelayToPeer { dest: b }.send_from_relay());
    assert!(PeerSocket::RelayToRelay { dest: b }.send_from_relay());
}

#[test]
fn kind_labels() {
    let a = v4(1, 1, 1, 1, 1);
    assert_eq!(PeerSocket::PeerToPeer { source: a, dest: a }.kind(), "PeerToPeer");
    assert_eq!(PeerSocket::PeerToRelay { source: a, dest: a }.kind(), "PeerToRelay");
    assert_eq!(PeerSocket::RelayToPeer { dest: a }.kind(), "RelayToPeer");
    assert_eq!(PeerSocket::RelayToRelay { dest: a }.kind(), "RelayToRelay");
}
