//! The three outbound protocol payloads the actor can construct.

use vstd::prelude::*;

verus! {

/// Announcement of this node to the network: its identifier, advertised
/// address(es) and feature bitmask.
#[derive(Debug, PartialEq, Eq)]
pub struct JoinMessage {
    pub node_id: Vec<u8>,
    pub addresses: Vec<String>,
    pub peer_features: u64,
}

/// Probe for a network region or node; structurally identical to the join
/// announcement but addressed and confidential.
#[derive(Debug, PartialEq, Eq)]
pub struct DiscoverMessage {
    pub node_id: Vec<u8>,
    pub addresses: Vec<String>,
    pub peer_features: u64,
}

/// Request for the messages the network buffered for this node while it was
/// offline.  It carries no "since" cursor, so a node that asks repeatedly may
/// re-fetch messages it already received; the surrounding system accepts
/// that as a known limitation.
#[derive(Debug, PartialEq, Eq)]
pub struct StoredMessagesRequest {}

impl StoredMessagesRequest {
    pub fn new() -> (r: Self)
        ensures
            r == (StoredMessagesRequest {}),
    {
        StoredMessagesRequest {}
    }
}

} // verus!
