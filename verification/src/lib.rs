//! Peer-to-peer turn synchronisation for a two-player chess client.
//!
//! The crate holds the decisions of the client: the handshake that assigns
//! colours, the exchange of one ply and its acknowledgment, the turn state
//! machine that gates local input, and the placement of what is drawn.
//! Sockets, the codec, the rules engine and the window live with the caller.

pub mod draw;
pub mod exchange;
pub mod launch;
pub mod message;
pub mod network;
pub mod rules;
pub mod session;
