use vstd::prelude::*;

verus! {

/// How long, in milliseconds, a connected path may see no activity before it is idle.
///
/// Must be longer than the ICE agent's own timeout, otherwise a failed connection
/// would be taken for an idle one.
pub const MAX_IDLE_MS: u64 = 20_000;

/// The instant at which a path last active at `last_activity` becomes idle; the
/// largest instant where the sum does not fit.
pub open spec fn idle_deadline(last_activity: u64) -> u64 {
    if last_activity + MAX_IDLE_MS <= u64::MAX {
        (last_activity + MAX_IDLE_MS) as u64
    } else {
        u64::MAX
    }
}

pub fn idle_at(last_activity: u64) -> (r: u64)
    ensures
        r == idle_deadline(last_activity),
{
    last_activity.saturating_add(MAX_IDLE_MS)
}

/// Whether the idle threshold is longer than an ICE timeout of `ice_timeout_ms`,
/// as it must be for every configuration that is used.
pub fn idle_threshold_covers(ice_timeout_ms: u128) -> (r: bool)
    ensures
        r == (MAX_IDLE_MS > ice_timeout_ms),
{
    (MAX_IDLE_MS as u128) > ice_timeout_ms
}

/// Where an ICE timeout passes validation, every idle deadline that does not
/// saturate lies exactly the idle threshold after its last activity, which is
/// longer than that ICE timeout.
pub proof fn lemma_idle_threshold_exceeds_ice_timeout(last_activity: u64, ice_timeout_ms: u128)
    requires
        MAX_IDLE_MS > ice_timeout_ms,
        last_activity + MAX_IDLE_MS <= u64::MAX,
    ensures
        idle_deadline(last_activity) - last_activity == MAX_IDLE_MS,
        idle_deadline(last_activity) - last_activity > ice_timeout_ms,
{
}

} // verus!
