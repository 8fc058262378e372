//! Proxy responder for IPv6 Neighbor Discovery: classifies Neighbor
//! Solicitation frames, carries the facts they hold over a bounded channel,
//! and builds the Neighbor Advertisement that answers them.

pub mod addr;
pub mod wire;
pub mod headers;
pub mod classifier;
pub mod codec;
pub mod channel;
pub mod responder;
