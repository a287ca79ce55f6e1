use vstd::prelude::*;

use crate::addr::SocketAddress;

verus! {

/// The socket pair of the peer we are connected to, and how traffic reaches it.
#[derive(PartialEq, Eq, Structural, Clone, Copy, Debug)]
pub enum PeerSocket {
    /// Both sides send directly.
    PeerToPeer { source: SocketAddress, dest: SocketAddress },
    /// We send directly; the remote side is reached through its relay.
    PeerToRelay { source: SocketAddress, dest: SocketAddress },
    /// We send through a relay of ours to the remote peer.
    RelayToPeer { dest: SocketAddress },
    /// Both sides use a relay.
    RelayToRelay { dest: SocketAddress },
}

impl PeerSocket {
    /// Whether traffic leaves through a relay on our side.
    pub open spec fn sends_from_relay(self) -> bool {
        self is RelayToPeer || self is RelayToRelay
    }

    /// Short name of the shape of this socket pair.
    pub open spec fn kind_text(self) -> Seq<char> {
        match self {
            PeerSocket::PeerToPeer { .. } => "PeerToPeer"@,
            PeerSocket::PeerToRelay { .. } => "PeerToRelay"@,
            PeerSocket::RelayToPeer { .. } => "RelayToPeer"@,
            PeerSocket::RelayToRelay { .. } => "RelayToRelay"@,
        }
    }

    /// Human-readable description, with `relay` standing for our side where we send
    /// through a relay.
    pub open spec fn text(self, relay: Seq<char>) -> Seq<char> {
        match self {
            PeerSocket::PeerToPeer { source, dest } => "PeerToPeer { source: "@ + source.text()
                + ", dest: "@ + dest.text() + " }"@,
            PeerSocket::PeerToRelay { source, dest } => "PeerToRelay { source: "@ + source.text()
                + ", dest: "@ + dest.text() + " }"@,
            PeerSocket::RelayToPeer { dest } => "RelayToPeer { relay: "@ + relay + ", dest: "@
                + dest.text() + " }"@,
            PeerSocket::RelayToRelay { dest } => "RelayToRelay { relay: "@ + relay + ", dest: "@
                + dest.text() + " }"@,
        }
    }

    pub fn send_from_relay(&self) -> (r: bool)
        ensures
            r == self.sends_from_relay(),
    {
        match self {
            PeerSocket::RelayToPeer { .. } | PeerSocket::RelayToRelay { .. } => true,
            _ => false,
        }
    }

    pub fn kind(&self) -> (r: &'static str)
        ensures
            r@ == self.kind_text(),
    {
        match self {
            PeerSocket::PeerToPeer { .. } => "PeerToPeer",
            PeerSocket::PeerToRelay { .. } => "PeerToRelay",
            PeerSocket::RelayToPeer { .. } => "RelayToPeer",
            PeerSocket::RelayToRelay { .. } => "RelayToRelay",
        }
    }

    pub fn fmt(&self, relay: &str) -> (r: String)
        ensures
            r@ == self.text(relay@),
    {
        let mut s = String::new();
        match self {
            PeerSocket::PeerToPeer { source, dest } => {
                s.append("PeerToPeer { source: ");
                source.push_text(&mut s);
                s.append(", dest: ");
            },
            PeerSocket::PeerToRelay { source, dest } => {
                s.append("PeerToRelay { source: ");
                source.push_text(&mut s);
                s.append(", dest: ");
            },
            PeerSocket::RelayToPeer { dest } => {
                s.append("RelayToPeer { relay: ");
                s.append(relay);
                s.append(", dest: ");
            },
            PeerSocket::RelayToRelay { dest } => {
                s.append("RelayToRelay { relay: ");
                s.append(relay);
                s.append(", dest: ");
            },
        }
        let dest = match self {
            PeerSocket::PeerToPeer { dest, .. } => dest,
            PeerSocket::PeerToRelay { dest, .. } => dest,
            PeerSocket::RelayToPeer { dest } => dest,
            PeerSocket::RelayToRelay { dest } => dest,
        };
        dest.push_text(&mut s);
        s.append(" }");
        assert(s@ =~= self.text(relay@));
        s
    }
}

} // verus!
