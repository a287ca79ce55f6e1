//! Per-peer connection lifecycle: which socket pair carries a peer's traffic,
//! when an unused path is relaxed to idle, and how traffic is held back while
//! the ICE agent is still negotiating.

mod text;
pub mod addr;
pub mod peer_socket;
pub mod idle;
pub mod ring;
pub mod connection_state;
pub mod ice;
pub mod known_dirs;
