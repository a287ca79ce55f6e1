use vstd::prelude::*;

use str0m::ice::IceAgent;
use str0m::IceConnectionState;
use std::time::Duration;

verus! {

#[verifier::external_type_specification]
#[verifier::external_body]
pub struct ExIceAgent(IceAgent);

/// Whether an ICE agent reports `IceConnectionState::Connected`; the state is a
/// field of the agent.
pub uninterp spec fn ice_connected(a: IceAgent) -> bool;

/// Relies on `IceAgent::state`, which returns the agent's state field: whether the
/// agent reports `IceConnectionState::Connected`.
#[verifier::external_body]
pub(crate) fn agent_is_connected(agent: &IceAgent) -> (r: bool)
    ensures
        r == ice_connected(*agent),
{
    matches!(agent.state(), IceConnectionState::Connected)
}

/// The agent's initial STUN retransmission timeout (`timing_config.initial_rto`),
/// in whole milliseconds.
pub uninterp spec fn stun_initial_rto_ms(a: IceAgent) -> nat;

/// The agent's largest STUN retransmission timeout (`timing_config.max_rto`), in
/// whole milliseconds.
pub uninterp spec fn stun_max_rto_ms(a: IceAgent) -> nat;

/// The agent's number of STUN retransmits (`timing_config.max_retransmits`).
pub uninterp spec fn stun_max_retransmits(a: IceAgent) -> nat;

/// Relies on `IceAgent::set_initial_stun_rto`: it writes `timing_config.initial_rto`
/// and leaves the other timing settings and the connection state as they are.
#[verifier::external_body]
fn set_initial_stun_rto(agent: &mut IceAgent, ms: u64)
    ensures
        stun_initial_rto_ms(*final(agent)) == ms,
        stun_max_rto_ms(*final(agent)) == stun_max_rto_ms(*old(agent)),
        stun_max_retransmits(*final(agent)) == stun_max_retransmits(*old(agent)),
        ice_connected(*final(agent)) == ice_connected(*old(agent)),
{
    agent.set_initial_stun_rto(Duration::from_millis(ms))
}

/// Relies on `IceAgent::set_max_stun_rto`: it writes `timing_config.max_rto` and
/// leaves the other timing settings and the connection state as they are.
#[verifier::external_body]
fn set_max_stun_rto(agent: &mut IceAgent, ms: u64)
    ensures
        stun_initial_rto_ms(*final(agent)) == stun_initial_rto_ms(*old(agent)),
        stun_max_rto_ms(*final(agent)) == ms,
        stun_max_retransmits(*final(agent)) == stun_max_retransmits(*old(agent)),
        ice_connected(*final(agent)) == ice_connected(*old(agent)),
{
    agent.set_max_stun_rto(Duration::from_millis(ms))
}

/// Relies on `IceAgent::set_max_stun_retransmits`: it writes
/// `timing_config.max_retransmits` and leaves the other timing settings and the
/// connection state as they are.
#[verifier::external_body]
fn set_max_stun_retransmits(agent: &mut IceAgent, n: usize)
    ensures
        stun_initial_rto_ms(*final(agent)) == stun_initial_rto_ms(*old(agent)),
        stun_max_rto_ms(*final(agent)) == stun_max_rto_ms(*old(agent)),
        stun_max_retransmits(*final(agent)) == n,
        ice_connected(*final(agent)) == ice_connected(*old(agent)),
{
    agent.set_max_stun_retransmits(n)
}

/// A set of STUN timing settings applied to an ICE agent.
#[derive(Clone, Copy, Debug, PartialEq, Eq, Structural)]
pub struct IceConfig {
    pub initial_stun_rto_ms: u64,
    pub max_stun_rto_ms: u64,
    pub max_stun_retransmits: usize,
}

impl IceConfig {
    /// Whether `agent` holds these settings.
    pub open spec fn held_by(self, agent: IceAgent) -> bool {
        &&& stun_initial_rto_ms(agent) == self.initial_stun_rto_ms
        &&& stun_max_rto_ms(agent) == self.max_stun_rto_ms
        &&& stun_max_retransmits(agent) == self.max_stun_retransmits
    }

    /// Applies these settings to `agent`.
    pub fn apply(&self, agent: &mut IceAgent)
        ensures
            self.held_by(*final(agent)),
            ice_connected(*final(agent)) == ice_connected(*old(agent)),
    {
        set_initial_stun_rto(agent, self.initial_stun_rto_ms);
        set_max_stun_rto(agent, self.max_stun_rto_ms);
        set_max_stun_retransmits(agent, self.max_stun_retransmits);
    }
}

} // verus!
