//! What a network service is set up with.
use crate::slot::Slot;
use crate::text::push_decimal;
use vstd::prelude::*;
use vstd::string::StringExecFns;

verus! {

/// The number of peers we target per subnet for discovery queries.
pub const TARGET_SUBNET_PEERS: usize = 6;

/// How many seconds a message that could not be published is kept for another try, by the kind of
/// its topic. `None` means that it is not kept.
#[derive(Clone, Copy, Debug, PartialEq, Eq, Structural)]
pub struct GossipCacheTimeouts {
    pub beacon_block_timeout: Option<u64>,
    pub aggregates_timeout: Option<u64>,
    pub attestation_timeout: Option<u64>,
    pub voluntary_exit_timeout: Option<u64>,
    pub proposer_slashing_timeout: Option<u64>,
    pub attester_slashing_timeout: Option<u64>,
    pub signed_contribution_and_proof_timeout: Option<u64>,
    pub sync_committee_message_timeout: Option<u64>,
    pub bls_to_execution_change_timeout: Option<u64>,
}

impl GossipCacheTimeouts {
    /// The time-outs for a chain with the given slots: a block is kept for a slot, attestations
    /// and aggregates for half an epoch, in whole seconds, and the rest for twice as long; what
    /// concerns sync committees is not kept.
    pub open spec fn of_chain(seconds_per_slot: u64, slots_per_epoch: u64) -> Self {
        let half_epoch = seconds_per_slot * slots_per_epoch / 2;
        GossipCacheTimeouts {
            beacon_block_timeout: Some(seconds_per_slot),
            aggregates_timeout: Some(half_epoch as u64),
            attestation_timeout: Some(half_epoch as u64),
            voluntary_exit_timeout: Some((2 * half_epoch) as u64),
            proposer_slashing_timeout: Some((2 * half_epoch) as u64),
            attester_slashing_timeout: Some((2 * half_epoch) as u64),
            signed_contribution_and_proof_timeout: None,
            sync_committee_message_timeout: None,
            bls_to_execution_change_timeout: Some((2 * half_epoch) as u64),
        }
    }

    /// The time-outs for a chain with the given slots.
    pub fn new(seconds_per_slot: u64, slots_per_epoch: u64) -> (timeouts: Self)
        requires
            seconds_per_slot * slots_per_epoch <= u64::MAX,
        ensures
            timeouts == Self::of_chain(seconds_per_slot, slots_per_epoch),
    {
        let half_epoch: u64 = seconds_per_slot * slots_per_epoch / 2;
        GossipCacheTimeouts {
            beacon_block_timeout: Some(seconds_per_slot),
            aggregates_timeout: Some(half_epoch),
            attestation_timeout: Some(half_epoch),
            voluntary_exit_timeout: Some(half_epoch * 2),
            proposer_slashing_timeout: Some(half_epoch * 2),
            attester_slashing_timeout: Some(half_epoch * 2),
            signed_contribution_and_proof_timeout: None,
            sync_committee_message_timeout: None,
            bls_to_execution_change_timeout: Some(half_epoch * 2),
        }
    }
}

/// How many connections a node keeps up. `None` means that there is no limit.
#[derive(Clone, Copy, Debug, PartialEq, Eq, Structural)]
pub struct ConnectionLimits {
    pub max_pending_incoming: Option<u32>,
    pub max_pending_outgoing: Option<u32>,
    pub max_established_incoming: Option<u32>,
    pub max_established_outgoing: Option<u32>,
    pub max_established_total: Option<u32>,
    pub max_established_per_peer: Option<u32>,
}

/// How many topics peers may subscribe to.
#[derive(Clone, Copy, Debug, PartialEq, Eq, Structural)]
pub struct SubscriptionLimits {
    pub max_subscribed_topics: usize,
    pub max_subscriptions_per_request: usize,
}

/// How many events the swarm keeps in its buffers.
#[derive(Clone, Copy, Debug, PartialEq, Eq, Structural)]
pub struct SwarmBuffers {
    pub notify_handler_buffer_size: usize,
    pub per_connection_event_buffer_size: usize,
}

/// The transports that a node can run over.
#[derive(Clone, Copy, Debug, PartialEq, Eq, Structural)]
pub enum Libp2pTransport {
    /// Plain TCP.
    Tcp,
    /// The Nym mixnet.
    Nym,
    /// Either of the two, by the peer.
    NymEitherTcp,
}

impl Default for Libp2pTransport {
    /// Nym has to be chosen.
    fn default() -> (transport: Self)
        ensures
            transport == Libp2pTransport::Tcp,
    {
        Libp2pTransport::Tcp
    }
}

/// The host of the nym client where no other is configured.
pub const DEFAULT_NYM_HOST: &'static str = "127.0.0.1";

/// The port of the nym client where no other is configured.
pub const DEFAULT_NYM_PORT: u16 = 1977;

/// The host and the port of the nym client where no others are configured.
pub fn default_nym_client_address() -> (address: (String, u16))
    ensures
        address.0@ == DEFAULT_NYM_HOST@,
        address.1 == DEFAULT_NYM_PORT,
{
    (DEFAULT_NYM_HOST.to_owned(), DEFAULT_NYM_PORT)
}

/// The transport that is to be built.
#[allow(inconsistent_fields)]
#[derive(Debug)]
pub enum TransportSetup {
    Tcp,
    /// Over the nym client at `uri`.
    Nym { uri: String },
    /// Over TCP and the nym client at `uri`.
    NymEitherTcp { uri: String },
}

impl TransportSetup {
    /// Where the nym client listens, where one is contacted.
    pub open spec fn nym_uri(self) -> Option<Seq<char>> {
        match self {
            TransportSetup::Tcp => None,
            TransportSetup::Nym { uri } => Some(uri@),
            TransportSetup::NymEitherTcp { uri } => Some(uri@),
        }
    }

    /// Whether this is the transport for the choice, with the nym client at the given address.
    pub open spec fn is_for(self, transport: Libp2pTransport, host: Seq<char>, port: u16) -> bool {
        match transport {
            Libp2pTransport::Tcp => self is Tcp,
            Libp2pTransport::Nym => self is Nym && self.nym_uri() == Some(ws_address(host, port)),
            Libp2pTransport::NymEitherTcp => self is NymEitherTcp && self.nym_uri() == Some(
                ws_address(host, port),
            ),
        }
    }

    /// The transport for the choice, with the nym client at the given address.
    pub fn new(transport: Libp2pTransport, host: &str, port: u16) -> (setup: Self)
        ensures
            setup.is_for(transport, host@, port),
    {
        match transport {
            Libp2pTransport::Tcp => TransportSetup::Tcp,
            Libp2pTransport::Nym => TransportSetup::Nym { uri: ws_uri(host, port) },
            Libp2pTransport::NymEitherTcp => TransportSetup::NymEitherTcp {
                uri: ws_uri(host, port),
            },
        }
    }
}

/// What the setup of a network service depends on.
#[derive(Debug)]
pub struct NetworkConfig {
    pub seconds_per_slot: u64,
    pub slots_per_epoch: u64,
    /// The smallest number of validators that a chain can have.
    pub minimum_validator_count: usize,
    /// The transport that was chosen.
    pub libp2p_transport: Libp2pTransport,
    /// The host and the port of the nym client, for the transports that need one.
    pub nym_client_address: (String, u16),
    /// The largest numbers of connections that suit the number of peers that is aimed for.
    pub max_established_incoming: u32,
    pub max_established_outgoing: u32,
    pub max_established_total: u32,
    pub max_connections_per_peer: u32,
}

/// What a network service is set up with.
#[derive(Debug)]
pub struct NetworkSetup {
    pub gossip_cache_timeouts: GossipCacheTimeouts,
    /// The number of validators and the slot that peers are first scored for.
    pub active_validators: usize,
    pub current_slot: Slot,
    pub subscription_limits: SubscriptionLimits,
    pub connection_limits: ConnectionLimits,
    pub swarm_buffers: SwarmBuffers,
    pub transport: TransportSetup,
}

/// The websocket address with the given host and port.
pub open spec fn ws_address(host: Seq<char>, port: u16) -> Seq<char> {
    "ws://"@ + host + ":"@ + crate::text::decimal(port as nat)
}

/// The websocket address with the given host and port.
pub fn ws_uri(host: &str, port: u16) -> (uri: String)
    ensures
        uri@ == ws_address(host@, port),
{
    let mut uri = "ws://".to_owned();
    uri.append(host);
    uri.append(":");
    push_decimal(&mut uri, port as u64);
    uri
}

/// The error of a service whose transport could not be built, with the text of the failure.
pub fn transport_error(failure: &str) -> (error: String)
    ensures
        error@ == "Failed to build transport: "@ + failure@,
{
    let mut error = "Failed to build transport: ".to_owned();
    error.append(failure);
    error
}

impl NetworkSetup {
    /// What a network service with the given configuration is set up with.
    pub fn new(config: &NetworkConfig) -> (setup: Self)
        requires
            config.seconds_per_slot * config.slots_per_epoch <= u64::MAX,
        ensures
            setup.gossip_cache_timeouts == GossipCacheTimeouts::of_chain(
                config.seconds_per_slot,
                config.slots_per_epoch,
            ),
            setup.active_validators == config.minimum_validator_count,
            setup.current_slot == Slot(0),
            setup.subscription_limits == (SubscriptionLimits {
                max_subscribed_topics: 200,
                max_subscriptions_per_request: 150,
            }),
            setup.connection_limits == (ConnectionLimits {
                max_pending_incoming: Some(5),
                max_pending_outgoing: Some(16),
                max_established_incoming: Some(config.max_established_incoming),
                max_established_outgoing: Some(config.max_established_outgoing),
                max_established_total: Some(config.max_established_total),
                max_established_per_peer: Some(config.max_connections_per_peer),
            }),
            setup.swarm_buffers == (SwarmBuffers {
                notify_handler_buffer_size: 7,
                per_connection_event_buffer_size: 64,
            }),
            setup.transport.is_for(
                config.libp2p_transport,
                config.nym_client_address.0@,
                config.nym_client_address.1,
            ),
    {
        NetworkSetup {
            gossip_cache_timeouts: GossipCacheTimeouts::new(
                config.seconds_per_slot,
                config.slots_per_epoch,
            ),
            // We don't know the number of active validators and the current slot yet
            active_validators: config.minimum_validator_count,
            current_slot: Slot(0),
            subscription_limits: SubscriptionLimits {
                max_subscribed_topics: 200,
                // 148 in theory = (64 attestation + 4 sync committee + 6 core topics) * 2
                max_subscriptions_per_request: 150,
            },
            connection_limits: ConnectionLimits {
                max_pending_incoming: Some(5),
                max_pending_outgoing: Some(16),
                max_established_incoming: Some(config.max_established_incoming),
                max_established_outgoing: Some(config.max_established_outgoing),
                max_established_total: Some(config.max_established_total),
                max_established_per_peer: Some(config.max_connections_per_peer),
            },
            swarm_buffers: SwarmBuffers {
                notify_handler_buffer_size: 7,
                per_connection_event_buffer_size: 64,
            },
            transport: TransportSetup::new(
                config.libp2p_transport,
                config.nym_client_address.0.as_str(),
                config.nym_client_address.1,
            ),
        }
    }
}

/// A nym client is contacted if and only if a transport over Nym was chosen, and then at the address
/// that was configured.
pub proof fn nym_is_contacted_only_by_choice(
    setup: TransportSetup,
    transport: Libp2pTransport,
    host: Seq<char>,
    port: u16,
)
    requires
        setup.is_for(transport, host, port),
    ensures
        setup.nym_uri() is None <==> transport == Libp2pTransport::Tcp,
        setup.nym_uri() matches Some(uri) ==> uri == ws_address(host, port),
{
}

/// No message is kept for longer than an epoch, and those that are kept longest are kept for an
/// epoch but for less than two seconds.
pub proof fn messages_are_kept_for_an_epoch_at_most(seconds_per_slot: u64, slots_per_epoch: u64)
    requires
        slots_per_epoch > 0,
        seconds_per_slot * slots_per_epoch <= u64::MAX,
    ensures
        ({
            let epoch = seconds_per_slot * slots_per_epoch;
            let timeouts = GossipCacheTimeouts::of_chain(seconds_per_slot, slots_per_epoch);
            &&& timeouts.beacon_block_timeout->0 <= epoch
            &&& timeouts.attestation_timeout->0 <= epoch
            &&& timeouts.aggregates_timeout == timeouts.attestation_timeout
            &&& epoch - 2 < timeouts.voluntary_exit_timeout->0 <= epoch
            &&& timeouts.proposer_slashing_timeout == timeouts.voluntary_exit_timeout
            &&& timeouts.attester_slashing_timeout == timeouts.voluntary_exit_timeout
            &&& timeouts.bls_to_execution_change_timeout == timeouts.voluntary_exit_timeout
        }),
{
    assert(seconds_per_slot <= seconds_per_slot * slots_per_epoch) by (nonlinear_arith)
        requires
            slots_per_epoch > 0,
    ;
}

/// Blocks are kept for a slot. Attestations and aggregates are kept for half an epoch, rounded down to
/// whole seconds, exits, slashings and changes for exactly twice as long, and messages of sync
/// committees not at all.
pub proof fn messages_are_kept_by_the_length_of_an_epoch(
    seconds_per_slot: u64,
    slots_per_epoch: u64,
    half: u64,
)
    requires
        seconds_per_slot * slots_per_epoch <= u64::MAX,
    ensures
        ({
            let kept = GossipCacheTimeouts::of_chain(seconds_per_slot, slots_per_epoch);
            &&& kept.beacon_block_timeout == Some(seconds_per_slot)
            &&& kept.attestation_timeout == Some(half) <==> 2 * half <= seconds_per_slot
                * slots_per_epoch < 2 * half + 2
            &&& kept.attestation_timeout is Some
            &&& kept.aggregates_timeout == kept.attestation_timeout
            &&& kept.voluntary_exit_timeout is Some
            &&& kept.voluntary_exit_timeout->0 == 2 * kept.attestation_timeout->0
            &&& kept.proposer_slashing_timeout == kept.voluntary_exit_timeout
            &&& kept.attester_slashing_timeout == kept.voluntary_exit_timeout
            &&& kept.bls_to_execution_change_timeout == kept.voluntary_exit_timeout
            &&& kept.signed_contribution_and_proof_timeout is None
            &&& kept.sync_committee_message_timeout is None
        }),
{
    assert(0 <= seconds_per_slot * slots_per_epoch) by (nonlinear_arith);
}

/// A websocket address is its scheme, its host, a colon and its port in decimal, so that addresses of
/// one host tell ports apart and addresses of one port tell hosts apart.
pub proof fn addresses_tell_hosts_and_ports_apart(
    host: Seq<char>,
    other_host: Seq<char>,
    port: u16,
    other_port: u16,
)
    ensures
        ws_address(host, port) == "ws://"@ + host + ":"@ + crate::text::decimal(port as nat),
        ws_address(host, port) == ws_address(host, other_port) <==> port == other_port,
        ws_address(host, port) == ws_address(other_host, port) <==> host == other_host,
{
    let scheme = "ws://"@;
    let colon = ":"@;
    let a = crate::text::decimal(port as nat);
    let b = crate::text::decimal(other_port as nat);
    if ws_address(host, port) == ws_address(host, other_port) {
        let head = scheme + host + colon;
        assert(a =~= (head + a).skip(head.len() as int));
        assert(b =~= (head + b).skip(head.len() as int));
        crate::text::decimal_is_injective(port as nat, other_port as nat);
    }
    if ws_address(host, port) == ws_address(other_host, port) {
        let one = scheme + host + colon + a;
        let other = scheme + other_host + colon + a;
        assert(one.len() == scheme.len() + host.len() + colon.len() + a.len());
        assert(other.len() == scheme.len() + other_host.len() + colon.len() + a.len());
        assert(host =~= one.subrange(scheme.len() as int, (scheme.len() + host.len()) as int));
        assert(other_host =~= other.subrange(
            scheme.len() as int,
            (scheme.len() + other_host.len()) as int,
        ));
    }
}

/// The transport that is built is the one that was chosen. A transport over Nym contacts the nym client
/// at the websocket address that was configured, and plain TCP contacts none.
pub proof fn chosen_transport_is_built(
    setup: TransportSetup,
    transport: Libp2pTransport,
    host: Seq<char>,
    port: u16,
)
    ensures
        setup.is_for(transport, host, port) <==> {
            ||| setup is Tcp && transport == Libp2pTransport::Tcp
            ||| setup is Nym && transport == Libp2pTransport::Nym && setup->Nym_uri@ == "ws://"@
                + host + ":"@ + crate::text::decimal(port as nat)
            ||| setup is NymEitherTcp && transport == Libp2pTransport::NymEitherTcp
                && setup->NymEitherTcp_uri@ == "ws://"@ + host + ":"@ + crate::text::decimal(
                port as nat,
            )
        },
        setup.nym_uri() is None <==> setup is Tcp,
{
}

} // verus!
