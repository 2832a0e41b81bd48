use dht_actor::actor::ActorControl;
use dht_actor::actor::ActorEvent;
use dht_actor::actor::DhtActor;
use dht_actor::actor::DhtActorError;
use dht_actor::actor::DhtRequest;
use dht_actor::actor::DhtRequestOutcome;
use dht_actor::actor::resolve_broadcast_target;
use dht_actor::config::DhtConfig;
use dht_actor::envelope::DhtMessageType;
use dht_actor::envelope::NodeDestination;
use dht_actor::identity::CommsPublicKey;
use dht_actor::identity::NodeId;
use dht_actor::identity::NodeIdentity;
use dht_actor::outbound::BroadcastStrategy;
use dht_actor::outbound::OutboundEncryption;

fn make_node_identity() -> NodeIdentity {
    NodeIdentity::new(
        NodeId::new(vec![7, 7, 7, 7]),
        String::from("127.0.0.1:9000"),
        3,
    )
}

fn manual_config() -> DhtConfig {
    DhtConfig {
        enable_auto_join: false,
        enable_auto_stored_message_request: false,
        ..Default::default()
    }
}

fn expect_broadcast(outcome: DhtRequestOutcome) -> dht_actor::outbound::OutboundBroadcast {
    match outcome {
        DhtRequestOutcome::Broadcast(b) => b,
        DhtRequestOutcome::Reply(_) => panic!("expected a broadcast outcome"),
    }
}

#[test]
fn auto_messages() {
    let actor = DhtActor::new(DhtConfig::default(), make_node_identity());
    let actions = actor.startup_actions();
    assert_eq!(actions[0].message_type, DhtMessageType::Join);
    assert_eq!(actions[1].message_type, DhtMessageType::SafRequestMessages);
}

#[test]
fn send_join_request() {
    let mut actor = DhtActor::new(manual_config(), make_node_identity());
    let request = expect_broadcast(actor.handle_request(DhtRequest::SendJoin, 0));
    assert_eq!(request.message_type, DhtMessageType::Join);
}

#[test]
fn send_discover_request() {
    let mut actor = DhtActor::new(manual_config(), make_node_identity());
    let request = expect_broadcast(actor.handle_request(
        DhtRequest::SendDiscover {
            dest_public_key: CommsPublicKey::default(),
            dest_node_id: None,
            destination: NodeDestination::Unknown,
        },
        0,
    ));
    assert_eq!(request.message_type, DhtMessageType::Discover);
}

#[test]
fn insert_message_signature() {
    let mut actor = DhtActor::new(manual_config(), make_node_identity());
    let signature = vec![1u8, 2, 3];
    let is_dup = actor.handle_request(DhtRequest::SignatureCacheInsert(signature.clone()), 0);
    assert_eq!(is_dup, DhtRequestOutcome::Reply(false));
    let is_dup = actor.handle_request(DhtRequest::SignatureCacheInsert(signature), 0);
    assert_eq!(is_dup, DhtRequestOutcome::Reply(true));
    let is_dup = actor.handle_request(DhtRequest::SignatureCacheInsert(Vec::new()), 0);
    assert_eq!(is_dup, DhtRequestOutcome::Reply(false));
}

#[test]
fn startup_sequence_targets_own_node() {
    let identity = make_node_identity();
    let actor = DhtActor::new(DhtConfig::default(), identity);
    let actions = actor.startup_actions();
    assert_eq!(actions.len(), 2);
    for action in &actions {
        let BroadcastStrategy::Closest(closest) = &action.strategy;
        assert_eq!(closest.n, 8);
        assert_eq!(closest.node_id, NodeId::new(vec![7, 7, 7, 7]));
        assert!(closest.excluded_peers.is_empty());
    }
    assert_eq!(actions[0].encryption, OutboundEncryption::Cleartext);
    assert_eq!(actions[1].encryption, OutboundEncryption::EncryptForDestination);
}

#[test]
fn startup_silent_when_disabled() {
    let actor = DhtActor::new(manual_config(), make_node_identity());
    assert!(actor.startup_actions().is_empty());
}

#[test]
fn startup_join_only() {
    let config = DhtConfig { enable_auto_stored_message_request: false, ..Default::default() };
    let actor = DhtActor::new(config, make_node_identity());
    let actions = actor.startup_actions();
    assert_eq!(actions.len(), 1);
    assert_eq!(actions[0].message_type, DhtMessageType::Join);
}

#[test]
fn discover_defaults_to_own_node_and_encrypts_for_target() {
    let mut actor = DhtActor::new(manual_config(), make_node_identity());
    let key = CommsPublicKey::new(vec![9, 9]);
    let request = expect_broadcast(actor.handle_request(
        DhtRequest::SendDiscover {
            dest_public_key: key.clone(),
            dest_node_id: None,
            destination: NodeDestination::Unknown,
        },
        0,
    ));
    let BroadcastStrategy::Closest(closest) = &request.strategy;
    assert_eq!(closest.node_id, NodeId::new(vec![7, 7, 7, 7]));
    assert_eq!(request.encryption, OutboundEncryption::EncryptFor(key));
    assert_eq!(request.destination, NodeDestination::Unknown);
}

#[test]
fn discover_steers_toward_positional_destination() {
    let mut actor = DhtActor::new(manual_config(), make_node_identity());
    let request = expect_broadcast(actor.handle_request(
        DhtRequest::SendDiscover {
            dest_public_key: CommsPublicKey::new(vec![9, 9]),
            dest_node_id: None,
            destination: NodeDestination::NodeId(NodeId::new(vec![4, 2])),
        },
        0,
    ));
    let BroadcastStrategy::Closest(closest) = &request.strategy;
    assert_eq!(closest.node_id, NodeId::new(vec![4, 2]));
}

#[test]
fn join_payload_announces_identity() {
    let actor = DhtActor::new(manual_config(), make_node_identity());
    let request = actor.send_join();
    match request.body {
        dht_actor::outbound::DhtMessageBody::Join(message) => {
            assert_eq!(message.node_id, vec![7u8, 7, 7, 7]);
            assert_eq!(message.addresses, vec![String::from("127.0.0.1:9000")]);
            assert_eq!(message.peer_features, 3);
        },
        _ => panic!("expected a join payload"),
    }
}

#[test]
fn resolver_prefers_explicit_node_id() {
    let own = NodeId::new(vec![1]);
    let target = resolve_broadcast_target(
        Some(NodeId::new(vec![9])),
        &NodeDestination::NodeId(NodeId::new(vec![5])),
        &own,
    );
    assert_eq!(target, NodeId::new(vec![9]));
}

#[test]
fn resolver_falls_back_to_own_node() {
    let own = NodeId::new(vec![1]);
    let target = resolve_broadcast_target(None, &NodeDestination::Unknown, &own);
    assert_eq!(target, NodeId::new(vec![1]));
    let target = resolve_broadcast_target(
        None,
        &NodeDestination::PublicKey(CommsPublicKey::new(vec![2])),
        &own,
    );
    assert_eq!(target, NodeId::new(vec![1]));
}

#[test]
fn resolver_uses_positional_destination() {
    let own = NodeId::new(vec![1]);
    let target = resolve_broadcast_target(
        None,
        &NodeDestination::NodeId(NodeId::new(vec![5])),
        &own,
    );
    assert_eq!(target, NodeId::new(vec![5]));
}

#[test]
fn shutdown_stops_the_loop() {
    let mut actor = DhtActor::new(manual_config(), make_node_identity());
    assert_eq!(actor.handle_event(ActorEvent::Shutdown, 0), ActorControl::Stop);
}

#[test]
fn closed_queue_stops_the_loop() {
    let mut actor = DhtActor::new(manual_config(), make_node_identity());
    assert_eq!(actor.handle_event(ActorEvent::QueueClosed, 0), ActorControl::Stop);
}

#[test]
fn request_event_is_dispatched() {
    let mut actor = DhtActor::new(manual_config(), make_node_identity());
    let control = actor.handle_event(
        ActorEvent::Request(DhtRequest::SignatureCacheInsert(vec![1])),
        0,
    );
    assert_eq!(control, ActorControl::Continue(DhtRequestOutcome::Reply(false)));
}

#[test]
fn send_failure_classification() {
    assert_eq!(
        DhtActorError::from_send_failure(true, false),
        DhtActorError::ChannelDisconnected
    );
    assert_eq!(
        DhtActorError::from_send_failure(false, true),
        DhtActorError::SendBufferFull
    );
    assert_eq!(
        DhtActorError::from_send_failure(true, true),
        DhtActorError::ChannelDisconnected
    );
}
