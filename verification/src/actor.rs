//! The actor's decision core: destination resolution, the builders for the
//! three outbound protocol messages, and the dispatch of queued requests.
//!
//! The actor owns all mutable state and processes one request at a time to
//! completion, so every cache mutation is totally ordered.  The event loop
//! that multiplexes the request queue with the shutdown signal lives outside
//! the library; it hands each event to [`DhtActor::handle_event`] and
//! performs the broadcast or reply the returned value calls for.

use vstd::prelude::*;

use crate::cache::SignatureCache;
use crate::cache::entries_after_insert;
use crate::config::DhtConfig;
use crate::envelope::DhtMessageType;
use crate::envelope::NodeDestination;
use crate::identity::CommsPublicKey;
use crate::identity::NodeId;
use crate::identity::NodeIdentity;
use crate::outbound::BroadcastClosestRequest;
use crate::outbound::BroadcastStrategy;
use crate::outbound::DhtMessageBody;
use crate::outbound::OutboundBroadcast;
use crate::outbound::OutboundEncryption;
use crate::proto::DiscoverMessage;
use crate::proto::JoinMessage;
use crate::proto::StoredMessagesRequest;

verus! {

/// Failures a holder of the request handle can observe.
#[derive(Clone, Copy, Debug, PartialEq, Eq, Structural)]
pub enum DhtActorError {
    /// The request queue's consuming end is gone; the actor is not coming
    /// back.
    ChannelDisconnected,
    /// The request queue is momentarily saturated; the caller may retry.
    SendBufferFull,
    /// The actor stopped between accepting a cache insert and replying.
    ReplyCanceled,
}

impl DhtActorError {
    /// Classifies a failed enqueue from the two facts the queue reports:
    /// whether its consumer is gone and whether its buffer is full.  A send
    /// fails for no other reason.
    pub fn from_send_failure(is_disconnected: bool, is_full: bool) -> (e: Self)
        requires
            is_disconnected || is_full,
        ensures
            e == (if is_disconnected {
                DhtActorError::ChannelDisconnected
            } else {
                DhtActorError::SendBufferFull
            }),
    {
        if is_disconnected {
            DhtActorError::ChannelDisconnected
        } else {
            DhtActorError::SendBufferFull
        }
    }
}

/// The operations the actor accepts over its request queue.
#[derive(Debug, PartialEq, Eq)]
pub enum DhtRequest {
    /// Send a join announcement to the network.
    SendJoin,
    /// Send a discovery probe for a network region or node.
    SendDiscover {
        dest_public_key: CommsPublicKey,
        dest_node_id: Option<NodeId>,
        destination: NodeDestination,
    },
    /// Insert a message fingerprint into the dedup cache; the caller is owed
    /// a reply saying whether the fingerprint was already present.
    SignatureCacheInsert(Vec<u8>),
}

/// What the dispatch of one request obliges the surrounding system to do:
/// deliver a broadcast (fire-and-forget) or deliver a reply to the one
/// caller awaiting it.
#[derive(Debug, PartialEq, Eq)]
pub enum DhtRequestOutcome {
    Broadcast(OutboundBroadcast),
    Reply(bool),
}

/// One occurrence the dispatch loop wakes on: the next queued request, the
/// cooperative shutdown signal, or the queue closing with no items left and
/// no producers remaining.
#[derive(Debug, PartialEq, Eq)]
pub enum ActorEvent {
    Request(DhtRequest),
    Shutdown,
    QueueClosed,
}

/// What the loop does after one event: keep running, with the outcome owed
/// for a dispatched request, or stop for good.
#[derive(Debug, PartialEq, Eq)]
pub enum ActorControl {
    Continue(DhtRequestOutcome),
    Stop,
}

/// The network-position identifier a broadcast is steered toward.  An
/// explicit target always wins; with none, an unknown or cryptographic
/// destination falls back to the local node's own position, and a positional
/// destination is used as it stands.
pub open spec fn resolved_target(
    explicit_node_id: Option<NodeId>,
    destination: NodeDestination,
    self_node_id: NodeId,
) -> Seq<u8> {
    match explicit_node_id {
        Option::Some(n) => n@,
        Option::None => match destination {
            NodeDestination::Unknown => self_node_id@,
            NodeDestination::PublicKey(_) => self_node_id@,
            NodeDestination::NodeId(n) => n@,
        },
    }
}

/// Chooses the routing target of a broadcast from a request's addressing
/// fields.  The result is a steering hint for the "closest peers" primitive,
/// never a delivery address.
pub fn resolve_broadcast_target(
    explicit_node_id: Option<NodeId>,
    destination: &NodeDestination,
    self_node_id: &NodeId,
) -> (target: NodeId)
    ensures
        target@ == resolved_target(explicit_node_id, *destination, *self_node_id),
{
    match explicit_node_id {
        Option::Some(node_id) => node_id,
        Option::None => match destination {
            NodeDestination::Unknown => self_node_id.clone(),
            NodeDestination::PublicKey(_) => self_node_id.clone(),
            NodeDestination::NodeId(node_id) => node_id.clone(),
        },
    }
}

/// The payload announces `identity`: its identifier, its one advertised
/// address, and its feature bits.
pub open spec fn join_announces(m: JoinMessage, identity: NodeIdentity) -> bool {
    &&& m.node_id@ == identity.node_id@
    &&& m.addresses@.len() == 1
    &&& m.addresses@[0]@ == identity.control_service_address@
    &&& m.peer_features == identity.features
}

/// Same as [`join_announces`], for the structurally identical discovery
/// payload.
pub open spec fn discover_announces(m: DiscoverMessage, identity: NodeIdentity) -> bool {
    &&& m.node_id@ == identity.node_id@
    &&& m.addresses@.len() == 1
    &&& m.addresses@[0]@ == identity.control_service_address@
    &&& m.peer_features == identity.features
}

/// A "closest peers" directive aimed at `target` with fan-out `n` and no
/// exclusions.
pub open spec fn is_closest_strategy(s: BroadcastStrategy, target: Seq<u8>, n: usize) -> bool {
    s matches BroadcastStrategy::Closest(req) && req.n == n && req.node_id@ == target
        && req.excluded_peers@.len() == 0
}

/// The join announcement broadcast: aimed at the closest peers to the local
/// node, publicly legible, with no authenticated destination.
pub open spec fn is_join_broadcast(b: OutboundBroadcast, identity: NodeIdentity, config: DhtConfig) -> bool {
    &&& is_closest_strategy(b.strategy, identity.node_id@, config.num_neighbouring_nodes)
    &&& b.destination is Unknown
    &&& b.encryption is Cleartext
    &&& b.message_type is Join
    &&& b.body matches DhtMessageBody::Join(m) && join_announces(m, identity)
}

/// The stored-message catch-up broadcast: aimed at the closest peers to the
/// local node, encrypted for whichever peer services store-and-forward.
pub open spec fn is_stored_messages_broadcast(
    b: OutboundBroadcast,
    identity: NodeIdentity,
    config: DhtConfig,
) -> bool {
    &&& is_closest_strategy(b.strategy, identity.node_id@, config.num_neighbouring_nodes)
    &&& b.destination is Unknown
    &&& b.encryption is EncryptForDestination
    &&& b.message_type is SafRequestMessages
    &&& b.body is StoredMessagesRequest
}

/// The discovery broadcast: aimed at the resolved routing target, addressed
/// to the request's destination, and encrypted for the target's public key.
pub open spec fn is_discover_broadcast(
    b: OutboundBroadcast,
    identity: NodeIdentity,
    config: DhtConfig,
    dest_public_key: CommsPublicKey,
    dest_node_id: Option<NodeId>,
    destination: NodeDestination,
) -> bool {
    &&& is_closest_strategy(
        b.strategy,
        resolved_target(dest_node_id, destination, identity.node_id),
        config.num_neighbouring_nodes,
    )
    &&& b.destination == destination
    &&& b.encryption matches OutboundEncryption::EncryptFor(k) && k@ == dest_public_key@
    &&& b.message_type is Discover
    &&& b.body matches DhtMessageBody::Discover(m) && discover_announces(m, identity)
}

/// How one dispatched request relates the actor's state before (`pre`) and
/// after (`post`) and the outcome owed to the surrounding system.
pub open spec fn dispatch_ok(
    pre: DhtActor,
    post: DhtActor,
    request: DhtRequest,
    now: u64,
    outcome: DhtRequestOutcome,
) -> bool {
    &&& post.node_identity == pre.node_identity
    &&& post.config == pre.config
    &&& ((request is SendJoin || request is SendDiscover) ==> post.signature_cache
        == pre.signature_cache)
    &&& (request is SendJoin ==> (outcome matches DhtRequestOutcome::Broadcast(b)
        && is_join_broadcast(b, pre.node_identity, pre.config)))
    &&& (request matches DhtRequest::SendDiscover { dest_public_key, dest_node_id, destination }
        ==> (outcome matches DhtRequestOutcome::Broadcast(b) && is_discover_broadcast(
            b,
            pre.node_identity,
            pre.config,
            dest_public_key,
            dest_node_id,
            destination,
        )))
    &&& (request matches DhtRequest::SignatureCacheInsert(signature) ==> outcome
        == DhtRequestOutcome::Reply(pre.signature_cache.is_live(signature@, now))
        && post.signature_cache@ == entries_after_insert(
            pre.signature_cache@,
            signature@,
            now,
            pre.config.signature_cache_ttl_ms,
            pre.config.signature_cache_capacity as nat,
        ))
}

/// The actor: sole owner of the dedup cache, sole consumer of the request
/// queue, driven one event at a time.
pub struct DhtActor {
    pub node_identity: NodeIdentity,
    pub config: DhtConfig,
    pub signature_cache: SignatureCache,
}

impl DhtActor {
    /// The actor's internal consistency: its cache respects the configured
    /// ceiling and stamps the configured time-to-live.
    pub open spec fn wf(self) -> bool {
        &&& self.signature_cache.wf()
        &&& self.signature_cache.capacity() == self.config.signature_cache_capacity as nat
        &&& self.signature_cache.ttl() == self.config.signature_cache_ttl_ms
    }

    /// A fresh actor with an empty cache sized and timed by `config`.
    pub fn new(config: DhtConfig, node_identity: NodeIdentity) -> (actor: Self)
        ensures
            actor.wf(),
            actor.config == config,
            actor.node_identity == node_identity,
            actor.signature_cache@ == Seq::<(Seq<u8>, u64)>::empty(),
    {
        DhtActor {
            signature_cache: SignatureCache::new(
                config.signature_cache_capacity,
                config.signature_cache_ttl_ms,
            ),
            config,
            node_identity,
        }
    }

    /// Builds the join announcement broadcast.
    pub fn send_join(&self) -> (b: OutboundBroadcast)
        ensures
            is_join_broadcast(b, self.node_identity, self.config),
    {
        let mut addresses: Vec<String> = Vec::new();
        addresses.push(self.node_identity.control_service_address.clone());
        let message = JoinMessage {
            node_id: self.node_identity.node_id.to_vec(),
            addresses,
            peer_features: self.node_identity.features,
        };
        OutboundBroadcast {
            strategy: BroadcastStrategy::Closest(
                BroadcastClosestRequest {
                    n: self.config.num_neighbouring_nodes,
                    node_id: self.node_identity.node_id.clone(),
                    excluded_peers: Vec::new(),
                },
            ),
            destination: NodeDestination::Unknown,
            encryption: OutboundEncryption::Cleartext,
            message_type: DhtMessageType::Join,
            body: DhtMessageBody::Join(message),
        }
    }

    /// Builds the discovery broadcast toward `destination`, steered by the
    /// resolved routing target and encrypted for `dest_public_key`.
    pub fn send_discover(
        &self,
        dest_public_key: CommsPublicKey,
        dest_node_id: Option<NodeId>,
        destination: NodeDestination,
    ) -> (b: OutboundBroadcast)
        ensures
            is_discover_broadcast(
                b,
                self.node_identity,
                self.config,
                dest_public_key,
                dest_node_id,
                destination,
            ),
    {
        let mut addresses: Vec<String> = Vec::new();
        addresses.push(self.node_identity.control_service_address.clone());
        let discover_msg = DiscoverMessage {
            node_id: self.node_identity.node_id.to_vec(),
            addresses,
            peer_features: self.node_identity.features,
        };
        let network_location_node_id = resolve_broadcast_target(
            dest_node_id,
            &destination,
            &self.node_identity.node_id,
        );
        OutboundBroadcast {
            strategy: BroadcastStrategy::Closest(
                BroadcastClosestRequest {
                    n: self.config.num_neighbouring_nodes,
                    node_id: network_location_node_id,
                    excluded_peers: Vec::new(),
                },
            ),
            destination,
            encryption: OutboundEncryption::EncryptFor(dest_public_key),
            message_type: DhtMessageType::Discover,
            body: DhtMessageBody::Discover(discover_msg),
        }
    }

    /// Builds the stored-message catch-up broadcast.
    pub fn request_stored_messages(&self) -> (b: OutboundBroadcast)
        ensures
            is_stored_messages_broadcast(b, self.node_identity, self.config),
    {
        OutboundBroadcast {
            strategy: BroadcastStrategy::Closest(
                BroadcastClosestRequest {
                    n: self.config.num_neighbouring_nodes,
                    node_id: self.node_identity.node_id.clone(),
                    excluded_peers: Vec::new(),
                },
            ),
            destination: NodeDestination::Unknown,
            encryption: OutboundEncryption::EncryptForDestination,
            message_type: DhtMessageType::SafRequestMessages,
            body: DhtMessageBody::StoredMessagesRequest(StoredMessagesRequest::new()),
        }
    }

    /// The broadcasts the actor issues on entering its loop: a join
    /// announcement when auto-join is enabled, then a stored-message
    /// catch-up request when that is enabled.  A failed delivery of either
    /// is logged by the surrounding system and aborts nothing.
    pub fn startup_actions(&self) -> (actions: Vec<OutboundBroadcast>)
        ensures
            actions@.len() == (if self.config.enable_auto_join { 1int } else { 0int })
                + (if self.config.enable_auto_stored_message_request { 1int } else { 0int }),
            self.config.enable_auto_join ==> is_join_broadcast(
                actions@[0],
                self.node_identity,
                self.config,
            ),
            self.config.enable_auto_stored_message_request ==> is_stored_messages_broadcast(
                actions@[actions@.len() - 1],
                self.node_identity,
                self.config,
            ),
    {
        let mut actions: Vec<OutboundBroadcast> = Vec::new();
        if self.config.enable_auto_join {
            actions.push(self.send_join());
        }
        if self.config.enable_auto_stored_message_request {
            actions.push(self.request_stored_messages());
        }
        actions
    }

    /// Dispatches one request to completion: protocol requests become
    /// broadcasts, a cache insert mutates the cache and yields the reply
    /// owed to the caller.
    pub fn handle_request(&mut self, request: DhtRequest, now: u64) -> (outcome: DhtRequestOutcome)
        requires
            old(self).wf(),
        ensures
            final(self).wf(),
            dispatch_ok(*old(self), *final(self), request, now, outcome),
    {
        match request {
            DhtRequest::SendJoin => DhtRequestOutcome::Broadcast(self.send_join()),
            DhtRequest::SendDiscover { dest_public_key, dest_node_id, destination } => {
                DhtRequestOutcome::Broadcast(
                    self.send_discover(dest_public_key, dest_node_id, destination),
                )
            },
            DhtRequest::SignatureCacheInsert(signature) => {
                let already_exists = self.signature_cache.insert(signature, now);
                DhtRequestOutcome::Reply(already_exists)
            },
        }
    }

    /// Decides one loop iteration.  The shutdown signal and a closed queue
    /// are treated identically: the loop stops, gracefully and without
    /// touching any state.  A request is dispatched to completion before the
    /// next event is looked at.
    pub fn handle_event(&mut self, event: ActorEvent, now: u64) -> (control: ActorControl)
        requires
            old(self).wf(),
        ensures
            final(self).wf(),
            (event is Shutdown || event is QueueClosed) ==> control == ActorControl::Stop
                && *final(self) == *old(self),
            event matches ActorEvent::Request(request) ==> (control
                matches ActorControl::Continue(outcome) && dispatch_ok(
                *old(self),
                *final(self),
                request,
                now,
                outcome,
            )),
    {
        match event {
            ActorEvent::Request(request) => {
                ActorControl::Continue(self.handle_request(request, now))
            },
            ActorEvent::Shutdown => ActorControl::Stop,
            ActorEvent::QueueClosed => ActorControl::Stop,
        }
    }
}

} // verus!
