use vstd::prelude::*;

use str0m::ice::IceAgent;

use crate::ice::{agent_is_connected, ice_connected, IceConfig};
use crate::idle::{idle_at, idle_deadline, MAX_IDLE_MS};
use crate::peer_socket::PeerSocket;
use crate::ring::{PacketRing, MAX_RING_CAPACITY};

verus! {

/// Why [`ConnectionState::poll_timeout`] asks to be woken.
pub open spec fn idle_reason() -> Seq<char> {
    "idle transition"@
}

/// Where a connection to one peer stands.
pub enum ConnectionState {
    /// ICE is still running to find out which socket to send from.
    Connecting {
        /// Packets emitted by WireGuard while ICE is still running, such as the
        /// response to a session initiation that must not be lost.
        wg_buffer: PacketRing,
        /// Packets we are told to send while ICE is still running.
        ip_buffer: PacketRing,
    },
    /// A socket has been nominated.
    Connected { peer_socket: PeerSocket, last_activity: u64 },
    /// We haven't seen application packets in a while.
    Idle { peer_socket: PeerSocket },
    /// The connection failed in an unrecoverable way and will be removed.
    Failed,
}

impl ConnectionState {
    pub open spec fn wf(&self) -> bool {
        match *self {
            ConnectionState::Connecting { wg_buffer, ip_buffer } => wg_buffer.wf() && ip_buffer.wf(),
            _ => true,
        }
    }

    /// The state after traffic or signalling on the connection at `now`: an idle
    /// path resumes, a connected one is refreshed, any other state stays.
    pub open spec fn after_activity(self, now: u64) -> ConnectionState {
        match self {
            ConnectionState::Idle { peer_socket } => ConnectionState::Connected {
                peer_socket,
                last_activity: now,
            },
            ConnectionState::Connected { peer_socket, .. } => ConnectionState::Connected {
                peer_socket,
                last_activity: now,
            },
            _ => self,
        }
    }

    /// Whether a timeout check at `now` turns this state idle, given whether the
    /// ICE agent reports itself connected.
    pub open spec fn goes_idle(self, agent_connected: bool, now: u64) -> bool {
        match self {
            ConnectionState::Connected { last_activity, .. } => idle_deadline(last_activity) <= now
                && agent_connected,
            _ => false,
        }
    }

    /// The state after a timeout check at `now`.
    pub open spec fn after_timeout(self, agent_connected: bool, now: u64) -> ConnectionState {
        match self {
            ConnectionState::Connected { peer_socket, .. } => if self.goes_idle(
                agent_connected,
                now,
            ) {
                ConnectionState::Idle { peer_socket }
            } else {
                self
            },
            _ => self,
        }
    }

    /// When this state next wants a timeout check, given whether the ICE agent
    /// reports itself connected.
    pub open spec fn next_timeout(self, agent_connected: bool) -> Option<u64> {
        match self {
            ConnectionState::Connected { last_activity, .. } => if agent_connected {
                Some(idle_deadline(last_activity))
            } else {
                None
            },
            _ => None,
        }
    }

    /// The nominated socket, where there is one.
    pub open spec fn nominated(self) -> Option<PeerSocket> {
        match self {
            ConnectionState::Connected { peer_socket, .. } => Some(peer_socket),
            ConnectionState::Idle { peer_socket } => Some(peer_socket),
            _ => None,
        }
    }
}


impl ConnectionState {
    /// A new connection that is still negotiating, with room for `capacity` packets
    /// in each buffer.
    pub fn connecting(capacity: usize) -> (r: ConnectionState)
        requires
            0 < capacity <= MAX_RING_CAPACITY,
        ensures
            r.wf(),
            r matches ConnectionState::Connecting { wg_buffer, ip_buffer } && wg_buffer.items()
                =~= Seq::<Seq<u8>>::empty() && ip_buffer.items() =~= Seq::<Seq<u8>>::empty()
                && wg_buffer.capacity() == capacity && ip_buffer.capacity() == capacity,
    {
        ConnectionState::Connecting {
            wg_buffer: PacketRing::new(capacity),
            ip_buffer: PacketRing::new(capacity),
        }
    }

    /// The deadline of the next timeout check, given whether the agent reports
    /// itself connected.
    pub fn poll_timeout_with(&self, agent_connected: bool) -> (r: Option<(u64, &'static str)>)
        ensures
            r.is_some() == self.next_timeout(agent_connected).is_some(),
            r matches Some((deadline, reason)) ==> Some(deadline) == self.next_timeout(
                agent_connected,
            ) && reason@ == idle_reason(),
    {
        if !agent_connected {
            return None;
        }
        match self {
            ConnectionState::Connected { last_activity, .. } => Some(
                (idle_at(*last_activity), "idle transition"),
            ),
            _ => None,
        }
    }

    /// When this connection next needs [`Self::handle_timeout`]: only while it is
    /// connected and the agent reports itself connected.
    pub fn poll_timeout(&self, agent: &IceAgent) -> (r: Option<(u64, &'static str)>)
        ensures
            r.is_some() == self.next_timeout(ice_connected(*agent)).is_some(),
            r matches Some((deadline, reason)) ==> Some(deadline) == self.next_timeout(
                ice_connected(*agent),
            ) && reason@ == idle_reason(),
    {
        let connected = agent_is_connected(agent);
        self.poll_timeout_with(connected)
    }

    /// Turns a connected state idle where its deadline has passed at `now` and the
    /// agent reports itself connected. Returns whether it did.
    pub fn handle_timeout_with(&mut self, agent_connected: bool, now: u64) -> (went_idle: bool)
        ensures
            *final(self) == old(self).after_timeout(agent_connected, now),
            went_idle == old(self).goes_idle(agent_connected, now),
    {
        let peer_socket = match self {
            ConnectionState::Connected { last_activity, peer_socket } => {
                if idle_at(*last_activity) > now || !agent_connected {
                    return false;
                }
                *peer_socket
            },
            _ => return false,
        };
        *self = ConnectionState::Idle { peer_socket };
        true
    }

    /// Turns a connected state idle where its deadline has passed at `now` and the
    /// agent reports itself connected, and then applies `idle_ice_config` to the
    /// agent. The agent is not touched otherwise. Returns whether the connection
    /// went idle, which is when the idle settings were applied.
    pub fn handle_timeout(
        &mut self,
        agent: &mut IceAgent,
        idle_ice_config: IceConfig,
        now: u64,
    ) -> (went_idle: bool)
        ensures
            *final(self) == old(self).after_timeout(ice_connected(*old(agent)), now),
            went_idle == old(self).goes_idle(ice_connected(*old(agent)), now),
            went_idle ==> idle_ice_config.held_by(*final(agent)),
            ice_connected(*final(agent)) == ice_connected(*old(agent)),
            !went_idle ==> *final(agent) == *old(agent),
    {
        let due = match self {
            ConnectionState::Connected { last_activity, .. } => idle_at(*last_activity) <= now,
            _ => false,
        };
        if !due {
            return false;
        }
        let connected = agent_is_connected(agent);
        let went_idle = self.handle_timeout_with(connected, now);
        if went_idle {
            idle_ice_config.apply(agent);
        }
        went_idle
    }

    /// Records activity at `now`: an idle path resumes with the same socket, a
    /// connected one is refreshed, any other state stays. Returns whether the path
    /// resumed.
    pub fn record_activity(&mut self, now: u64) -> (resumed: bool)
        ensures
            *final(self) == old(self).after_activity(now),
            resumed == (*old(self) is Idle),
    {
        let peer_socket = match self {
            ConnectionState::Idle { peer_socket } => *peer_socket,
            ConnectionState::Connected { last_activity, .. } => {
                *last_activity = now;
                return false;
            },
            _ => return false,
        };
        *self = ConnectionState::Connected { peer_socket, last_activity: now };
        true
    }

    /// Records activity at `now`, and applies `default_ice_config` to the agent where
    /// an idle path resumed. The agent is not touched otherwise.
    fn on_activity(
        &mut self,
        agent: &mut IceAgent,
        default_ice_config: IceConfig,
        now: u64,
    ) -> (resumed: bool)
        ensures
            *final(self) == old(self).after_activity(now),
            resumed == (*old(self) is Idle),
            resumed ==> default_ice_config.held_by(*final(agent)),
            ice_connected(*final(agent)) == ice_connected(*old(agent)),
            !resumed ==> *final(agent) == *old(agent),
    {
        let resumed = self.record_activity(now);
        if resumed {
            default_ice_config.apply(agent);
        }
        resumed
    }

    /// The connection was updated by its owner.
    pub fn on_upsert(
        &mut self,
        agent: &mut IceAgent,
        default_ice_config: IceConfig,
        now: u64,
    ) -> (resumed: bool)
        ensures
            *final(self) == old(self).after_activity(now),
            resumed == (*old(self) is Idle),
            resumed ==> default_ice_config.held_by(*final(agent)),
            ice_connected(*final(agent)) == ice_connected(*old(agent)),
            !resumed ==> *final(agent) == *old(agent),
    {
        self.on_activity(agent, default_ice_config, now)
    }

    /// The ICE candidates of the connection changed.
    pub fn on_candidate(
        &mut self,
        agent: &mut IceAgent,
        default_ice_config: IceConfig,
        now: u64,
    ) -> (resumed: bool)
        ensures
            *final(self) == old(self).after_activity(now),
            resumed == (*old(self) is Idle),
            resumed ==> default_ice_config.held_by(*final(agent)),
            ice_connected(*final(agent)) == ice_connected(*old(agent)),
            !resumed ==> *final(agent) == *old(agent),
    {
        self.on_activity(agent, default_ice_config, now)
    }

    /// A packet is sent on the connection.
    pub fn on_outgoing(
        &mut self,
        agent: &mut IceAgent,
        default_ice_config: IceConfig,
        now: u64,
    ) -> (resumed: bool)
        ensures
            *final(self) == old(self).after_activity(now),
            resumed == (*old(self) is Idle),
            resumed ==> default_ice_config.held_by(*final(agent)),
            ice_connected(*final(agent)) == ice_connected(*old(agent)),
            !resumed ==> *final(agent) == *old(agent),
    {
        self.on_activity(agent, default_ice_config, now)
    }

    /// A packet arrived on the connection.
    pub fn on_incoming(
        &mut self,
        agent: &mut IceAgent,
        default_ice_config: IceConfig,
        now: u64,
    ) -> (resumed: bool)
        ensures
            *final(self) == old(self).after_activity(now),
            resumed == (*old(self) is Idle),
            resumed ==> default_ice_config.held_by(*final(agent)),
            ice_connected(*final(agent)) == ice_connected(*old(agent)),
            !resumed ==> *final(agent) == *old(agent),
    {
        self.on_activity(agent, default_ice_config, now)
    }

    pub fn has_nominated_socket(&self) -> (r: bool)
        ensures
            r == self.nominated().is_some(),
    {
        match self {
            ConnectionState::Connected { .. } | ConnectionState::Idle { .. } => true,
            _ => false,
        }
    }
}


impl ConnectionState {
    /// Short description of the state, naming the shape of the socket pair where
    /// one is nominated.
    pub open spec fn text(self) -> Seq<char> {
        match self {
            ConnectionState::Connecting { .. } => "Negotiating"@,
            ConnectionState::Connected { peer_socket, .. } => "Active("@
                + peer_socket.kind_text() + ")"@,
            ConnectionState::Idle { peer_socket } => "Idle("@ + peer_socket.kind_text() + ")"@,
            ConnectionState::Failed => "Failed"@,
        }
    }

    pub fn to_string(&self) -> (r: String)
        ensures
            r@ == self.text(),
    {
        match self {
            ConnectionState::Connecting { .. } => String::from_str("Negotiating"),
            ConnectionState::Connected { peer_socket, .. } => {
                let mut s = String::from_str("Active(");
                s.append(peer_socket.kind());
                s.append(")");
                s
            },
            ConnectionState::Idle { peer_socket } => {
                let mut s = String::from_str("Idle(");
                s.append(peer_socket.kind());
                s.append(")");
                s
            },
            ConnectionState::Failed => String::from_str("Failed"),
        }
    }

    /// The nominated socket, where there is one.
    pub fn peer_socket(&self) -> (r: Option<PeerSocket>)
        ensures
            r == self.nominated(),
    {
        match self {
            ConnectionState::Connected { peer_socket, .. } => Some(*peer_socket),
            ConnectionState::Idle { peer_socket } => Some(*peer_socket),
            _ => None,
        }
    }

    /// Holds a packet emitted by WireGuard while still negotiating; the oldest one
    /// is dropped where the buffer is full. Returns whether the packet was held.
    pub fn buffer_wg(&mut self, packet: Vec<u8>) -> (held: bool)
        requires
            old(self).wf(),
        ensures
            final(self).wf(),
            held == (*old(self) is Connecting),
            !held ==> *final(self) == *old(self),
            match (*old(self), *final(self)) {
                (
                    ConnectionState::Connecting { wg_buffer: w0, ip_buffer: i0 },
                    ConnectionState::Connecting { wg_buffer: w1, ip_buffer: i1 },
                ) => i1 == i0 && w1.capacity() == w0.capacity() && w1.items() == PacketRing::pushed(
                    w0.items(),
                    w0.capacity(),
                    packet@,
                ),
                _ => !held,
            },
    {
        match self {
            ConnectionState::Connecting { wg_buffer, .. } => {
                wg_buffer.push(packet);
                true
            },
            _ => false,
        }
    }

    /// Holds an IP packet we are told to send while still negotiating; the oldest
    /// one is dropped where the buffer is full. Returns whether the packet was held.
    pub fn buffer_ip(&mut self, packet: Vec<u8>) -> (held: bool)
        requires
            old(self).wf(),
        ensures
            final(self).wf(),
            held == (*old(self) is Connecting),
            !held ==> *final(self) == *old(self),
            match (*old(self), *final(self)) {
                (
                    ConnectionState::Connecting { wg_buffer: w0, ip_buffer: i0 },
                    ConnectionState::Connecting { wg_buffer: w1, ip_buffer: i1 },
                ) => w1 == w0 && i1.capacity() == i0.capacity() && i1.items() == PacketRing::pushed(
                    i0.items(),
                    i0.capacity(),
                    packet@,
                ),
                _ => !held,
            },
    {
        match self {
            ConnectionState::Connecting { ip_buffer, .. } => {
                ip_buffer.push(packet);
                true
            },
            _ => false,
        }
    }

    /// The number of packets held in the two buffers while negotiating.
    pub fn buffered(&self) -> (r: Option<(usize, usize)>)
        ensures
            match *self {
                ConnectionState::Connecting { wg_buffer, ip_buffer } => r == Some(
                    (wg_buffer.items().len() as usize, ip_buffer.items().len() as usize),
                ),
                _ => r.is_none(),
            },
    {
        match self {
            ConnectionState::Connecting { wg_buffer, ip_buffer } => Some(
                (wg_buffer.len(), ip_buffer.len()),
            ),
            _ => None,
        }
    }

    /// Marks the connection as failed for good.
    pub fn fail(&mut self)
        ensures
            *final(self) is Failed,
    {
        *self = ConnectionState::Failed;
    }
}


impl ConnectionState {
    /// The state after ICE nominated `peer_socket` at `now`: connected on that
    /// socket, unless the connection failed.
    pub open spec fn after_nomination(self, peer_socket: PeerSocket, now: u64) -> ConnectionState {
        match self {
            ConnectionState::Failed => self,
            _ => ConnectionState::Connected { peer_socket, last_activity: now },
        }
    }

    /// ICE nominated `peer_socket` at `now`. Where the connection was still
    /// negotiating, returns what its two buffers held, oldest first: WireGuard's
    /// packets, which are the more urgent, and then the IP packets.
    pub fn on_nominated(&mut self, peer_socket: PeerSocket, now: u64) -> (r: Option<
        (Vec<Vec<u8>>, Vec<Vec<u8>>),
    >)
        ensures
            *final(self) == old(self).after_nomination(peer_socket, now),
            r.is_some() == (*old(self) is Connecting),
            match (*old(self), r) {
                (ConnectionState::Connecting { wg_buffer, ip_buffer }, Some((wg, ip))) => wg@.len()
                    == wg_buffer.items().len() && ip@.len() == ip_buffer.items().len() && (forall|
                    i: int,
                | 0 <= i < wg@.len() ==> #[trigger] wg@[i]@ == wg_buffer.items()[i]) && (forall|
                    i: int,
                | 0 <= i < ip@.len() ==> #[trigger] ip@[i]@ == ip_buffer.items()[i]),
                _ => true,
            },
    {
        let drained = match self {
            ConnectionState::Connecting { wg_buffer, ip_buffer } => Some(
                (wg_buffer.to_vec(), ip_buffer.to_vec()),
            ),
            ConnectionState::Failed => return None,
            _ => None,
        };
        *self = ConnectionState::Connected { peer_socket, last_activity: now };
        drained
    }
}


/// Only a connected state asks for a timeout check, whatever the agent reports.
pub proof fn lemma_no_timeout_unless_connected(s: ConnectionState, agent_connected: bool)
    requires
        !(s is Connected),
    ensures
        s.next_timeout(agent_connected).is_none(),
{
}

/// A connected state, with the agent connected, asks for a timeout check exactly
/// the idle threshold after its last activity.
pub proof fn lemma_timeout_is_last_activity_plus_threshold(peer_socket: PeerSocket, last_activity: u64)
    requires
        last_activity + MAX_IDLE_MS <= u64::MAX,
    ensures
        (ConnectionState::Connected { peer_socket, last_activity }).next_timeout(true) == Some(
            (last_activity + MAX_IDLE_MS) as u64,
        ),
{
}

/// Recording the same activity twice leaves what recording it once leaves.
pub proof fn lemma_activity_idempotent(s: ConnectionState, now: u64)
    ensures
        s.after_activity(now).after_activity(now) == s.after_activity(now),
{
}

/// Activity on an idle path resumes it on the same socket, active as of the
/// event's time.
pub proof fn lemma_resume_keeps_socket(peer_socket: PeerSocket, now: u64)
    ensures
        (ConnectionState::Idle { peer_socket }).after_activity(now) == (ConnectionState::Connected {
            peer_socket,
            last_activity: now,
        }),
{
}

/// Activity and timeout checks leave a negotiating or failed connection as it
/// is, buffers included.
pub proof fn lemma_negotiating_and_failed_absorb(
    s: ConnectionState,
    agent_connected: bool,
    now: u64,
)
    requires
        s is Connecting || s is Failed,
    ensures
        s.after_activity(now) == s,
        s.after_timeout(agent_connected, now) == s,
        !s.goes_idle(agent_connected, now),
{
}

/// A connected state turns idle exactly when its deadline has passed and the
/// agent reports itself connected, both at once; it keeps its socket.
pub proof fn lemma_idle_needs_deadline_and_agent(
    peer_socket: PeerSocket,
    last_activity: u64,
    agent_connected: bool,
    now: u64,
)
    ensures
        ({
            let s = ConnectionState::Connected { peer_socket, last_activity };
            &&& (s.after_timeout(agent_connected, now) is Idle) == (idle_deadline(last_activity)
                <= now && agent_connected)
            &&& s.after_timeout(agent_connected, now) is Idle ==> s.after_timeout(
                agent_connected,
                now,
            ) == (ConnectionState::Idle { peer_socket })
            &&& !(s.after_timeout(agent_connected, now) is Idle) ==> s.after_timeout(
                agent_connected,
                now,
            ) == s
        }),
{
}

} // verus!
