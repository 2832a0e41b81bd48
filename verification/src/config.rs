//! The actor's configuration snapshot, supplied at construction time and
//! immutable for the actor's lifetime.

use vstd::prelude::*;

verus! {

/// Configuration of the actor.  The time-to-live is in the same clock units
/// as the instants handed to the cache (milliseconds in the surrounding
/// system).
#[derive(Clone, Copy, Debug)]
pub struct DhtConfig {
    /// Announce this node to the network as soon as the actor starts.
    pub enable_auto_join: bool,
    /// Ask the network for messages stored while this node was offline as
    /// soon as the actor starts.
    pub enable_auto_stored_message_request: bool,
    /// Fan-out of every "closest peers" broadcast.
    pub num_neighbouring_nodes: usize,
    /// Hard ceiling on the number of fingerprints the dedup cache holds.
    pub signature_cache_capacity: usize,
    /// Time-to-live stamped on every cached fingerprint.
    pub signature_cache_ttl_ms: u64,
}

impl Default for DhtConfig {
    fn default() -> (c: Self)
        ensures
            c.enable_auto_join,
            c.enable_auto_stored_message_request,
            c.num_neighbouring_nodes == 8,
            c.signature_cache_capacity == 1000,
            c.signature_cache_ttl_ms == 300000,
    {
        DhtConfig {
            enable_auto_join: true,
            enable_auto_stored_message_request: true,
            num_neighbouring_nodes: 8,
            signature_cache_capacity: 1000,
            signature_cache_ttl_ms: 300000,
        }
    }
}

} // verus!
