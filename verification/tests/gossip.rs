use lighthouse_nym::peers::{Multiaddr, PeerId};
use lighthouse_nym::service::events::{MessageId, Metric, NetworkEvent, TopicHash};
use lighthouse_nym::service::gossip::{
    DynamicParams, GossipOutcome, GossipsubEvent, MessageAcceptance, ParamsStep, Publication,
    PublishError, PubsubMessage, Subnet,
};
use lighthouse_nym::service::{EnrForkId, Network};
use lighthouse_nym::topics::{GossipEncoding, GossipKind, GossipTopic};

const FORK: [u8; 4] = [4, 3, 2, 1];

type Outcome = GossipOutcome<u32, u32, &'static str>;

fn node() -> Network {
    let address = Multiaddr { bytes: vec![1] };
    let local_peer_id = PeerId { bytes: vec![2] };
    Network::new(address, local_peer_id, EnrForkId { fork_digest: FORK })
}

fn peer() -> PeerId {
    PeerId { bytes: vec![9] }
}

fn topic(kind: GossipKind) -> GossipTopic {
    GossipTopic::new(kind, GossipEncoding::default(), FORK)
}

fn message(decoded: Option<&'static str>) -> Outcome {
    node().inject_gs_event(GossipsubEvent::Message {
        propagation_source: peer(),
        message_id: MessageId(vec![1, 2]),
        topic: TopicHash("topic".to_string()),
        decoded,
    })
}

#[test]
fn messages_are_published_on_the_topics_of_their_kinds() {
    let messages = vec![
        PubsubMessage {
            kinds: vec![GossipKind::BeaconBlock, GossipKind::Attestation(3)],
            data: vec![1, 2],
        },
        PubsubMessage { kinds: vec![], data: vec![3] },
        PubsubMessage { kinds: vec![GossipKind::VoluntaryExit], data: vec![] },
    ];
    let published: Vec<(GossipKind, [u8; 4], Vec<u8>)> = node()
        .publish(&messages)
        .into_iter()
        .map(|p| (p.topic.kind, p.topic.fork_digest, p.data))
        .collect();
    assert_eq!(
        published,
        [
            (GossipKind::BeaconBlock, FORK, vec![1, 2]),
            (GossipKind::Attestation(3), FORK, vec![1, 2]),
            (GossipKind::VoluntaryExit, FORK, vec![]),
        ]
    );
    assert!(node().publish(&vec![]).is_empty());
}

#[test]
fn failed_publications_are_counted_by_subnet_or_kind() {
    let publication = |kind| Publication { topic: topic(kind), data: vec![1] };
    let failed =
        node().publish_failed(publication(GossipKind::Attestation(3)), PublishError::Duplicate);
    assert!(matches!(
        failed.metric,
        Metric::FailedAttestationPublishesPerSubnet { subnet_id: 3 }
    ));
    let failed =
        node().publish_failed(publication(GossipKind::BeaconBlock), PublishError::Duplicate);
    assert!(matches!(
        failed.metric,
        Metric::FailedPublishesPerMainTopic { kind: GossipKind::BeaconBlock }
    ));
}

#[test]
fn publications_are_cached_where_only_peers_are_missing() {
    for error in [
        PublishError::Duplicate,
        PublishError::SigningError,
        PublishError::MessageTooLarge,
        PublishError::TransformFailed,
    ] {
        let publication = Publication { topic: topic(GossipKind::BeaconBlock), data: vec![1] };
        assert!(node().publish_failed(publication, error).cached.is_none());
    }
    let publication = Publication { topic: topic(GossipKind::BeaconBlock), data: vec![1] };
    match node().publish_failed(publication, PublishError::InsufficientPeers).cached {
        Some(cached) => {
            assert!(cached.topic.same(&topic(GossipKind::BeaconBlock)));
            assert_eq!(cached.data, vec![1]);
        }
        None => panic!("not cached"),
    }
}

#[test]
fn validation_results_are_reported_and_counted() {
    for (result, client, expected) in [
        (MessageAcceptance::Accept, Some("Lighthouse"), None),
        (MessageAcceptance::Ignore, Some("Lighthouse"), Some("ignore")),
        (MessageAcceptance::Reject, Some("Lighthouse"), Some("reject")),
        (MessageAcceptance::Ignore, None, None),
        (MessageAcceptance::Reject, None, None),
    ] {
        let report = node().report_message_validation_result(
            peer(),
            client.map(|c| c.to_string()),
            MessageId(vec![5]),
            result,
        );
        assert!(report.propagation_source.same(&peer()));
        assert_eq!(report.message_id.0, vec![5]);
        assert_eq!(report.validation_result, result);
        match (report.metric, expected) {
            (None, None) => {}
            (Some(Metric::GossipUnacceptedMessagesPerClient { client, result }), Some(label)) => {
                assert_eq!((client.as_str(), result), ("Lighthouse", label));
            }
            other => panic!("{:?}", other),
        }
    }
}

/// Updates the parameters where the `failing`-th cannot be set: gives what was tried, and the
/// result.
fn update(
    subnets: u64,
    had: Result<(), &'static str>,
    failing: Option<usize>,
) -> (Vec<(GossipKind, DynamicParams)>, Result<(), &'static str>) {
    let mut tried = vec![];
    let mut step = node().update_gossipsub_parameters(subnets, had);
    loop {
        step = match step {
            ParamsStep::Done(result) => return (tried, result),
            ParamsStep::Pending(list) => {
                let update = list.current();
                assert_eq!(update.topic.fork_digest, FORK);
                let reply = if failing == Some(tried.len()) { Err("set") } else { Ok(()) };
                tried.push((update.topic.kind, update.params));
                list.answer(reply)
            }
        };
    }
}

#[test]
fn first_parameters_that_cannot_be_set_end_the_update() {
    let (all, result) = update(3, Ok(()), None);
    assert_eq!((all.len(), result), (5, Ok(())));
    for failing in 0..5 {
        let (tried, result) = update(3, Ok(()), Some(failing));
        assert_eq!(tried, all[..failing + 1]);
        assert_eq!(result, Err("set"));
    }
}

#[test]
fn without_parameters_nothing_is_set() {
    let (tried, result) = update(3, Err("params"), None);
    assert!(tried.is_empty());
    assert_eq!(result, Err("params"));
}

#[test]
fn score_parameters_are_set_for_every_subnet() {
    assert_eq!(
        update(3, Ok(()), None).0,
        [
            (GossipKind::BeaconBlock, DynamicParams::BeaconBlock),
            (GossipKind::BeaconAggregateAndProof, DynamicParams::BeaconAggregateAndProof),
            (GossipKind::Attestation(0), DynamicParams::BeaconAttestationSubnet),
            (GossipKind::Attestation(1), DynamicParams::BeaconAttestationSubnet),
            (GossipKind::Attestation(2), DynamicParams::BeaconAttestationSubnet),
        ]
    );
    assert_eq!(update(0, Ok(()), None).0.len(), 2);
}

#[test]
fn messages_that_were_decoded_are_propagated() {
    let outcome = message(Some("body"));
    assert!(outcome.reject.is_none() && outcome.retry.is_none());
    match outcome.event {
        Some(NetworkEvent::PubsubMessage { id, source, topic, message }) => {
            assert_eq!(id.0, vec![1, 2]);
            assert!(source.same(&peer()));
            assert_eq!(topic.0, "topic");
            assert_eq!(message, "body");
        }
        other => panic!("{:?}", other),
    }
}

#[test]
fn messages_that_were_not_decoded_are_rejected() {
    let outcome = message(None);
    assert!(outcome.event.is_none() && outcome.retry.is_none());
    match outcome.reject {
        Some((id, source)) => {
            assert_eq!(id.0, vec![1, 2]);
            assert!(source.same(&peer()));
        }
        None => panic!("not rejected"),
    }
}

#[test]
fn subscriptions_of_peers_are_noted_and_bring_cached_messages() {
    let subnet = topic(GossipKind::Attestation(3));
    let outcome: Outcome = node().inject_gs_event(GossipsubEvent::Subscribed {
        peer_id: peer(),
        topic: Some((subnet, Some(Subnet::Attestation(3)))),
    });
    assert!(matches!(&outcome.add_subscription, Some((p, Subnet::Attestation(3))) if p.same(&peer())));
    assert!(matches!(&outcome.retry, Some(t) if t.same(&subnet)));
    assert!(outcome.event.is_none() && outcome.remove_subscription.is_none());

    let blocks = topic(GossipKind::BeaconBlock);
    let outcome: Outcome = node()
        .inject_gs_event(GossipsubEvent::Subscribed { peer_id: peer(), topic: Some((blocks, None)) });
    assert!(outcome.add_subscription.is_none());
    assert!(matches!(&outcome.retry, Some(t) if t.same(&blocks)));

    let outcome: Outcome =
        node().inject_gs_event(GossipsubEvent::Subscribed { peer_id: peer(), topic: None });
    assert!(outcome.add_subscription.is_none() && outcome.retry.is_none());
}

#[test]
fn ends_of_subscriptions_are_noted() {
    let outcome: Outcome = node().inject_gs_event(GossipsubEvent::Unsubscribed {
        peer_id: peer(),
        subnet: Some(Subnet::SyncCommittee(2)),
    });
    assert!(matches!(
        &outcome.remove_subscription,
        Some((p, Subnet::SyncCommittee(2))) if p.same(&peer())
    ));
    assert!(outcome.add_subscription.is_none() && outcome.retry.is_none());
    let outcome: Outcome =
        node().inject_gs_event(GossipsubEvent::Unsubscribed { peer_id: peer(), subnet: None });
    assert!(outcome.remove_subscription.is_none());
}

#[test]
fn peers_that_do_not_gossip_are_left_alone() {
    let outcome: Outcome =
        node().inject_gs_event(GossipsubEvent::GossipsubNotSupported { peer_id: peer() });
    assert!(outcome.reject.is_none() && outcome.event.is_none() && outcome.retry.is_none());
    assert!(outcome.add_subscription.is_none() && outcome.remove_subscription.is_none());
}

#[test]
fn cached_messages_are_published_in_their_order() {
    let blocks = topic(GossipKind::BeaconBlock);
    let retried = node().retry_cached(blocks, Some(vec![vec![1], vec![2, 3]]));
    assert!(retried.iter().all(|p| p.topic.same(&blocks)));
    let data: Vec<Vec<u8>> = retried.into_iter().map(|p| p.data).collect();
    assert_eq!(data, [vec![1], vec![2, 3]]);
    assert!(node().retry_cached(blocks, None).is_empty());
}

#[test]
fn late_publications_are_counted() {
    let blocks = topic(GossipKind::BeaconBlock);
    assert!(matches!(
        node().late_publish(&blocks, true),
        Metric::GossipLatePublishPerTopicKind { kind: GossipKind::BeaconBlock }
    ));
    assert!(matches!(
        node().late_publish(&blocks, false),
        Metric::GossipFailedLatePublishPerTopicKind { kind: GossipKind::BeaconBlock }
    ));
}
