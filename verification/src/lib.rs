//! Real-time collaborative text synchronization: a shared state store of
//! documents and connected users, a broadcast hub that fans serialized
//! update envelopes out to every subscriber, a message router that applies
//! whole-document replacements, and the per-connection session lifecycle.

pub mod codec;
pub mod concmap;
pub mod hub;
pub mod laws;
pub mod model;
pub mod router;
pub mod session;
pub mod store;
