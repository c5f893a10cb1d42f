use lighthouse_nym::service::setup::{
    default_nym_client_address, transport_error, ws_uri, ConnectionLimits, GossipCacheTimeouts,
    Libp2pTransport, NetworkConfig, NetworkSetup, SubscriptionLimits, SwarmBuffers, TransportSetup,
    TARGET_SUBNET_PEERS,
};
use lighthouse_nym::slot::Slot;

fn config() -> NetworkConfig {
    NetworkConfig {
        seconds_per_slot: 12,
        slots_per_epoch: 32,
        minimum_validator_count: 128,
        libp2p_transport: Libp2pTransport::default(),
        nym_client_address: default_nym_client_address(),
        max_established_incoming: 45,
        max_established_outgoing: 55,
        max_established_total: 65,
        max_connections_per_peer: 1,
    }
}

#[test]
fn service_is_set_up_with_its_limits() {
    let setup = NetworkSetup::new(&config());
    assert_eq!(
        setup.subscription_limits,
        SubscriptionLimits { max_subscribed_topics: 200, max_subscriptions_per_request: 150 }
    );
    assert_eq!(
        setup.connection_limits,
        ConnectionLimits {
            max_pending_incoming: Some(5),
            max_pending_outgoing: Some(16),
            max_established_incoming: Some(45),
            max_established_outgoing: Some(55),
            max_established_total: Some(65),
            max_established_per_peer: Some(1),
        }
    );
    assert_eq!(
        setup.swarm_buffers,
        SwarmBuffers { notify_handler_buffer_size: 7, per_connection_event_buffer_size: 64 }
    );
    assert!(matches!(setup.transport, TransportSetup::Tcp));
    assert_eq!(setup.active_validators, 128);
    assert_eq!(setup.current_slot, Slot(0));
    assert_eq!(setup.gossip_cache_timeouts, GossipCacheTimeouts::new(12, 32));
    assert_eq!(TARGET_SUBNET_PEERS, 6);
}

#[test]
fn nym_client_is_contacted_only_where_nym_was_chosen() {
    assert_eq!(Libp2pTransport::default(), Libp2pTransport::Tcp);
    let transport = |libp2p_transport| {
        NetworkSetup::new(&NetworkConfig { libp2p_transport, ..config() }).transport
    };
    assert!(matches!(transport(Libp2pTransport::Tcp), TransportSetup::Tcp));
    match transport(Libp2pTransport::Nym) {
        TransportSetup::Nym { uri } => assert_eq!(uri, "ws://127.0.0.1:1977"),
        other => panic!("{:?}", other),
    }
    match transport(Libp2pTransport::NymEitherTcp) {
        TransportSetup::NymEitherTcp { uri } => assert_eq!(uri, "ws://127.0.0.1:1977"),
        other => panic!("{:?}", other),
    }
}

#[test]
fn cached_messages_time_out() {
    let timeouts = GossipCacheTimeouts::new(12, 32);
    assert_eq!(timeouts.beacon_block_timeout, Some(12));
    assert_eq!(timeouts.aggregates_timeout, Some(192));
    assert_eq!(timeouts.attestation_timeout, Some(192));
    assert_eq!(timeouts.voluntary_exit_timeout, Some(384));
    assert_eq!(timeouts.proposer_slashing_timeout, Some(384));
    assert_eq!(timeouts.attester_slashing_timeout, Some(384));
    assert_eq!(timeouts.signed_contribution_and_proof_timeout, None);
    assert_eq!(timeouts.sync_committee_message_timeout, None);
    assert_eq!(timeouts.bls_to_execution_change_timeout, Some(384));
}

#[test]
fn half_an_epoch_is_rounded_down_to_whole_seconds() {
    let timeouts = GossipCacheTimeouts::new(3, 5);
    assert_eq!(timeouts.attestation_timeout, Some(7));
    assert_eq!(timeouts.voluntary_exit_timeout, Some(14));
}

#[test]
fn websocket_addresses() {
    assert_eq!(ws_uri("localhost", 0), "ws://localhost:0");
    assert_eq!(ws_uri("localhost", 65535), "ws://localhost:65535");
}

#[test]
fn transport_failures() {
    assert_eq!(transport_error("Refused"), "Failed to build transport: Refused");
}
