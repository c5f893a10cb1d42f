use lighthouse_nym::peers::{Multiaddr, PeerId};
use lighthouse_nym::service::events::{MessageId, Metric, NetworkEvent, SubstreamId, TopicHash};
use lighthouse_nym::service::gossip::GossipsubEvent;
use lighthouse_nym::service::poll::{
    BehaviourEvent, CachePoll, NodeStatus, PollReply, PollStep, SwarmEvent, SwarmOutcome, SwarmPoll,
};
use lighthouse_nym::service::rpc::{
    InboundRequest, MetaData, RPCCodedResponse, RPCCommand, RPCMessage, RPCReceived,
};
use lighthouse_nym::service::{EnrForkId, Network};
use lighthouse_nym::topics::{GossipEncoding, GossipKind, GossipTopic};

type Event = SwarmEvent<u32, u32, &'static str>;
type Outcome = SwarmOutcome<u32, u32, &'static str>;

fn node() -> Network {
    let address = Multiaddr { bytes: vec![1] };
    let local_peer_id = PeerId { bytes: vec![2] };
    Network::new(address, local_peer_id, EnrForkId { fork_digest: [0; 4] })
}

fn peer(n: u8) -> (PeerId, Multiaddr) {
    (PeerId { bytes: vec![n] }, Multiaddr { bytes: vec![100, n] })
}

fn inject(listeners: usize, event: Event) -> Outcome {
    let metadata = MetaData { seq_number: 5, body: "metadata" };
    node().inject_swarm_event(NodeStatus { connected: true, metadata, listeners }, event)
}

/// Polls the service: the swarm hands out `swarm`, the interval ticks `ticks` times, and the cache
/// hands out `cache`. Gives what the application is handed, the number of events of the swarm that
/// are left and the counters that were incremented.
fn poll(
    swarm: Vec<Option<u32>>,
    mut ticks: usize,
    cache: Vec<CachePoll>,
) -> (Option<u32>, usize, Vec<Metric>) {
    let mut swarm = swarm.into_iter();
    let mut cache = cache.into_iter();
    let mut metrics = vec![];
    let node = node();
    let mut reply = PollReply::Start;
    loop {
        let (step, metric) = node.poll_network(reply);
        metrics.extend(metric);
        reply = match step {
            PollStep::Ready(event) => return (Some(event), swarm.count(), metrics),
            PollStep::Pending => return (None, swarm.count(), metrics),
            PollStep::Swarm(_) => PollReply::Swarm(match swarm.next() {
                Some(handled) => SwarmPoll::Handled(handled),
                None => SwarmPoll::Idle,
            }),
            PollStep::Scores(_) => {
                let ticked = ticks > 0;
                ticks = ticks.saturating_sub(1);
                PollReply::Scores(ticked)
            }
            PollStep::Cache(_) => PollReply::Cache(cache.next().unwrap_or(CachePoll::Idle)),
        };
    }
}

#[test]
fn poll_hands_out_the_first_event_that_concerns_the_application() {
    let (event, left, metrics) = poll(vec![None, None, Some(7), None, Some(8)], 3, vec![]);
    assert_eq!((event, left), (Some(7), 2));
    assert!(metrics.is_empty());
}

#[test]
fn poll_without_events_does_the_maintenance() {
    let topic = GossipTopic::new(GossipKind::VoluntaryExit, GossipEncoding::default(), [0; 4]);
    let cache = vec![CachePoll::Failed, CachePoll::Expired(topic), CachePoll::Failed];
    let (event, left, metrics) = poll(vec![None, None], 2, cache);
    assert_eq!((event, left), (None, 0));
    assert_eq!(metrics.len(), 1);
    assert!(matches!(
        metrics[0],
        Metric::GossipExpiredLatePublishPerTopicKind { kind: GossipKind::VoluntaryExit }
    ));
}

#[test]
fn each_reply_leads_to_its_step() {
    let next = |reply: PollReply<u32>| node().poll_network(reply);
    assert!(matches!(next(PollReply::Start), (PollStep::Swarm(_), None)));
    assert!(matches!(
        next(PollReply::Swarm(SwarmPoll::Handled(Some(7)))),
        (PollStep::Ready(7), None)
    ));
    assert!(matches!(
        next(PollReply::Swarm(SwarmPoll::Handled(None))),
        (PollStep::Swarm(_), None)
    ));
    assert!(matches!(next(PollReply::Swarm(SwarmPoll::Idle)), (PollStep::Scores(_), None)));
    assert!(matches!(next(PollReply::Scores(true)), (PollStep::Scores(_), None)));
    assert!(matches!(next(PollReply::Scores(false)), (PollStep::Cache(_), None)));
    assert!(matches!(next(PollReply::Cache(CachePoll::Failed)), (PollStep::Cache(_), None)));
    assert!(matches!(next(PollReply::Cache(CachePoll::Idle)), (PollStep::Pending, None)));
}

#[test]
fn new_listen_addresses_are_propagated() {
    match inject(1, SwarmEvent::NewListenAddr(Multiaddr { bytes: vec![6] })) {
        SwarmOutcome::Event(Some(NetworkEvent::NewListenAddr(address))) => {
            assert_eq!(address.bytes, vec![6]);
        }
        other => panic!("{:?}", other),
    }
}

#[test]
fn loss_of_the_last_listener_is_propagated() {
    for (listeners, event) in [
        (0, SwarmEvent::ListenerClosed),
        (0, SwarmEvent::ListenerError),
        (1, SwarmEvent::ListenerClosed),
        (2, SwarmEvent::ListenerError),
    ] {
        match inject(listeners, event) {
            SwarmOutcome::Event(None) => assert!(listeners > 0),
            SwarmOutcome::Event(Some(NetworkEvent::ZeroListeners)) => assert_eq!(listeners, 0),
            other => panic!("{:?}", other),
        }
    }
}

#[test]
fn other_events_of_the_swarm_do_not_concern_the_application() {
    for event in [
        SwarmEvent::IncomingConnection,
        SwarmEvent::IncomingConnectionError,
        SwarmEvent::OutgoingConnectionError,
        SwarmEvent::BannedPeer,
        SwarmEvent::ExpiredListenAddr,
        SwarmEvent::Dialing,
    ] {
        assert!(matches!(inject(0, event), SwarmOutcome::Event(None)));
    }
}

fn propagated(event: Event) -> Option<NetworkEvent<u32, u32, &'static str>> {
    inject(1, event).take_event().1
}

#[test]
fn loss_of_the_last_connection_to_a_peer_is_relayed() {
    let closed = |num_established| SwarmEvent::ConnectionClosed {
        peer_id: peer(3).0,
        num_established,
    };
    let event = propagated(closed(0));
    assert!(matches!(&event, Some(NetworkEvent::PeerDisconnected(p)) if p.same(&peer(3).0)));
    match node().poll_network(PollReply::Swarm(SwarmPoll::Handled(event))) {
        (PollStep::Ready(NetworkEvent::PeerDisconnected(p)), None) => assert!(p.same(&peer(3).0)),
        other => panic!("{:?}", other),
    }
    assert!(propagated(closed(1)).is_none());
}

#[test]
fn first_connection_to_a_peer_is_relayed_by_its_direction() {
    let opened = |outgoing, num_established| SwarmEvent::ConnectionEstablished {
        peer_id: peer(3).0,
        outgoing,
        num_established,
    };
    assert!(matches!(
        propagated(opened(true, 1)),
        Some(NetworkEvent::PeerConnectedOutgoing(p)) if p.same(&peer(3).0)
    ));
    assert!(matches!(
        propagated(opened(false, 1)),
        Some(NetworkEvent::PeerConnectedIncoming(p)) if p.same(&peer(3).0)
    ));
    assert!(propagated(opened(true, 2)).is_none());
    assert!(propagated(opened(false, 2)).is_none());
}

#[test]
fn event_is_parted_from_the_rest_of_an_outcome() {
    let message = RPCMessage {
        peer_id: peer(1).0,
        conn_id: 3,
        event: Ok(RPCReceived::Request(SubstreamId(0), InboundRequest::Status("s"))),
    };
    match inject(1, SwarmEvent::Behaviour(BehaviourEvent::Eth2Rpc(message))).take_event() {
        (SwarmOutcome::Rpc(rest), Some(NetworkEvent::RequestReceived { .. })) => {
            assert!(rest.event.is_none());
            assert!(matches!(rest.metric, Some(Metric::TotalRpcRequests { request: "status" })));
        }
        other => panic!("{:?}", other),
    }
    let subscribed = GossipsubEvent::Message {
        propagation_source: peer(1).0,
        message_id: MessageId(vec![1]),
        topic: TopicHash("topic".to_string()),
        decoded: Some("body"),
    };
    match inject(1, SwarmEvent::Behaviour(BehaviourEvent::Gossipsub(subscribed))).take_event() {
        (SwarmOutcome::Gossip(rest), Some(NetworkEvent::PubsubMessage { message, .. })) => {
            assert!(rest.event.is_none());
            assert_eq!(message, "body");
        }
        other => panic!("{:?}", other),
    }
    match inject(1, SwarmEvent::Behaviour(BehaviourEvent::Pm(vec![peer(1)]))).take_event() {
        (SwarmOutcome::Dial(list), None) => assert!(list.current().is_some()),
        other => panic!("{:?}", other),
    }
}

#[test]
fn events_of_the_protocols_are_dealt_with() {
    let event = GossipsubEvent::GossipsubNotSupported { peer_id: peer(1).0 };
    assert!(matches!(
        inject(1, SwarmEvent::Behaviour(BehaviourEvent::Gossipsub(event))),
        SwarmOutcome::Gossip(_)
    ));
    let message = RPCMessage {
        peer_id: peer(1).0,
        conn_id: 3,
        event: Ok(RPCReceived::Request(SubstreamId(0), InboundRequest::Ping(1))),
    };
    match inject(1, SwarmEvent::Behaviour(BehaviourEvent::Eth2Rpc(message))) {
        SwarmOutcome::Rpc(outcome) => assert!(matches!(
            outcome.command,
            Some(RPCCommand::SendResponse { response: RPCCodedResponse::Pong(5), .. })
        )),
        other => panic!("{:?}", other),
    }
}

#[test]
fn peers_that_are_neither_connected_nor_being_dialed_are_dialed() {
    let peers = vec![peer(1), peer(2), peer(3), peer(4)];
    let mut list = match inject(1, SwarmEvent::Behaviour(BehaviourEvent::Pm(peers))) {
        SwarmOutcome::Dial(list) => list,
        other => panic!("{:?}", other),
    };
    let mut dialed = vec![];
    while let Some(id) = list.current() {
        let n = id.bytes[0];
        if let Some(address) = list.answer(n == 2, n == 3) {
            dialed.push(address.bytes);
        }
    }
    assert_eq!(dialed, [vec![100, 1], vec![100, 4]]);
    assert!(node().inject_pm_event(vec![]).current().is_none());
}
