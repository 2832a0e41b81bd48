//! The broadcast directives the actor hands to the transport collaborator.
//!
//! The library never sends anything itself: it builds one of these values
//! and the surrounding system performs the delivery.

use vstd::prelude::*;

use crate::envelope::DhtMessageType;
use crate::envelope::NodeDestination;
use crate::identity::CommsPublicKey;
use crate::identity::NodeId;
use crate::proto::DiscoverMessage;
use crate::proto::JoinMessage;
use crate::proto::StoredMessagesRequest;

verus! {

/// "Deliver to (at most) `n` peers whose network position is closest to
/// `node_id`", where closeness is computed by an external collaborator.
#[derive(Debug, PartialEq, Eq)]
pub struct BroadcastClosestRequest {
    pub n: usize,
    pub node_id: NodeId,
    pub excluded_peers: Vec<NodeId>,
}

/// How the transport picks the recipients of a broadcast.
#[derive(Debug, PartialEq, Eq)]
pub enum BroadcastStrategy {
    Closest(BroadcastClosestRequest),
}

/// How an outbound payload is protected in transit.
#[derive(Debug, PartialEq, Eq)]
pub enum OutboundEncryption {
    /// Publicly legible, so any receiving peer can route it further.
    Cleartext,
    /// Encrypted for one specific public key.
    EncryptFor(CommsPublicKey),
    /// Encrypted for whichever peer ultimately services the destination.
    EncryptForDestination,
}

/// The payload of an outbound broadcast.
#[derive(Debug, PartialEq, Eq)]
pub enum DhtMessageBody {
    Join(JoinMessage),
    Discover(DiscoverMessage),
    StoredMessagesRequest(StoredMessagesRequest),
}

/// Everything the transport collaborator needs to deliver one protocol
/// message: recipient selection, logical destination, encryption policy,
/// protocol tag and payload.
#[derive(Debug, PartialEq, Eq)]
pub struct OutboundBroadcast {
    pub strategy: BroadcastStrategy,
    pub destination: NodeDestination,
    pub encryption: OutboundEncryption,
    pub message_type: DhtMessageType,
    pub body: DhtMessageBody,
}

} // verus!
