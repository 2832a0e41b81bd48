//! The node's read-only identity, modeled as plain values: its position in
//! the overlay's addressing space, its cryptographic public key, the address
//! it advertises, and its feature bitmask.

use vstd::prelude::*;

use crate::bytes::clone_bytes;

verus! {

/// An opaque value denoting a node's position in the overlay's addressing
/// space, distinct from its cryptographic public key.
#[derive(Debug, PartialEq, Eq)]
pub struct NodeId {
    bytes: Vec<u8>,
}

impl View for NodeId {
    type V = Seq<u8>;

    closed spec fn view(&self) -> Seq<u8> {
        self.bytes@
    }
}

impl NodeId {
    pub fn new(bytes: Vec<u8>) -> (r: Self)
        ensures
            r@ == bytes@,
    {
        NodeId { bytes }
    }

    /// The identifier's bytes, as an owned vector.
    pub fn to_vec(&self) -> (r: Vec<u8>)
        ensures
            r@ == self@,
    {
        clone_bytes(&self.bytes)
    }
}

impl Clone for NodeId {
    fn clone(&self) -> (r: Self)
        ensures
            r@ == self@,
    {
        NodeId { bytes: clone_bytes(&self.bytes) }
    }
}

/// A node's cryptographic public key, held as its encoded bytes.
#[derive(Debug, PartialEq, Eq)]
pub struct CommsPublicKey {
    bytes: Vec<u8>,
}

impl View for CommsPublicKey {
    type V = Seq<u8>;

    closed spec fn view(&self) -> Seq<u8> {
        self.bytes@
    }
}

impl CommsPublicKey {
    pub fn new(bytes: Vec<u8>) -> (r: Self)
        ensures
            r@ == bytes@,
    {
        CommsPublicKey { bytes }
    }
}

impl Default for CommsPublicKey {
    /// The neutral key: no bytes.
    fn default() -> (r: Self)
        ensures
            r@ == Seq::<u8>::empty(),
    {
        CommsPublicKey { bytes: Vec::new() }
    }
}

impl Clone for CommsPublicKey {
    fn clone(&self) -> (r: Self)
        ensures
            r@ == self@,
    {
        CommsPublicKey { bytes: clone_bytes(&self.bytes) }
    }
}

/// The local node's immutable identity: everything the actor reads when it
/// announces itself to the network.
pub struct NodeIdentity {
    pub node_id: NodeId,
    pub control_service_address: String,
    pub features: u64,
}

impl NodeIdentity {
    pub fn new(node_id: NodeId, control_service_address: String, features: u64) -> (r: Self)
        ensures
            r.node_id@ == node_id@,
            r.control_service_address@ == control_service_address@,
            r.features == features,
    {
        NodeIdentity { node_id, control_service_address, features }
    }
}

} // verus!
