//! Peer presence and transfer signaling core: the wire protocol, its
//! structural codec, and the session state machine that drives startup,
//! registration and file-ticket exchange.

pub mod codec;
pub mod events;
pub mod identity;
pub mod message;
pub mod outbound;
pub mod session;
pub mod state;
pub mod ticket;
