//! The signaling server: hosts register, controllers join with a code and
//! password, and WebRTC negotiation messages are relayed between peers.
pub mod messages;
pub mod model;
pub mod random;
pub mod server;
pub mod laws;
