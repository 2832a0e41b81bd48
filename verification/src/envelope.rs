//! Addressing and tagging of outbound protocol messages.

use vstd::prelude::*;

use crate::identity::CommsPublicKey;
use crate::identity::NodeId;

verus! {

/// The logical destination of a message: nowhere in particular, a node known
/// by its cryptographic key, or a node known by its network position.
#[derive(Debug, PartialEq, Eq)]
pub enum NodeDestination {
    /// No specific logical target: the broadcast radiates outward from the
    /// local node.
    Unknown,
    /// The target is identified cryptographically; closeness is still
    /// resolved via the local node.
    PublicKey(CommsPublicKey),
    /// The target is identified by its network position; closeness is
    /// resolved toward it.
    NodeId(NodeId),
}

/// Identifies a payload's protocol role for the receiver's dispatch.
#[derive(Clone, Copy, Debug, PartialEq, Eq, Structural)]
pub enum DhtMessageType {
    Join,
    Discover,
    SafRequestMessages,
}

} // verus!
