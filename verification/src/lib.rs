//! Control-plane actor core of a peer-to-peer overlay network node.
//!
//! The library holds the verified logic of the node's membership and
//! discovery coordinator: a deduplication cache for broadcast fingerprints,
//! the resolver that picks a routing target from a request's addressing
//! fields, the builders for the three outbound protocol payloads, and the
//! actor's dispatch decisions.  Queueing, transport and the event loop that
//! drives the actor live outside the library and hand it plain values.

pub mod actor;
pub mod bytes;
pub mod cache;
pub mod config;
pub mod envelope;
pub mod identity;
pub mod outbound;
pub mod proto;
