//! Decision logic of a WebRTC signaling server with a selective forwarding unit:
//! the SFU room registry, the authentication handshake and the handling of each
//! client request, all with machine-checked contracts.

pub mod sfu;
pub mod messages;
pub mod sdp;
pub mod session;
pub mod dispatch;
