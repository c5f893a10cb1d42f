use lighthouse_nym::peers::{Multiaddr, PeerId};
use lighthouse_nym::service::subscriptions::{GossipsubCommand, LISTEN_ERROR};
use lighthouse_nym::service::{EnrForkId, Network};
use lighthouse_nym::topics::{same_digest, GossipEncoding, GossipKind, GossipTopic, Subscriptions};

const OLD: [u8; 4] = [1, 2, 3, 4];
const NEW: [u8; 4] = [1, 2, 3, 5];

fn node() -> Network {
    let address = Multiaddr { bytes: vec![1] };
    let local_peer_id = PeerId { bytes: vec![2] };
    Network::new(address, local_peer_id, EnrForkId { fork_digest: OLD })
}

fn topic(kind: GossipKind, fork_digest: [u8; 4]) -> GossipTopic {
    GossipTopic::new(kind, GossipEncoding::default(), fork_digest)
}

/// The kind and the fork of each topic that is subscribed to (`true`) or left (`false`).
fn told(commands: &[GossipsubCommand]) -> Vec<(bool, GossipKind, [u8; 4])> {
    commands
        .iter()
        .map(|command| match command {
            GossipsubCommand::Subscribe(t) => (true, t.kind, t.fork_digest),
            GossipsubCommand::Unsubscribe(t) => (false, t.kind, t.fork_digest),
        })
        .collect()
}

#[test]
fn digests_are_the_same_byte_for_byte() {
    assert!(same_digest(&OLD, &OLD));
    for i in 0..4 {
        let mut other = OLD;
        other[i] += 1;
        assert!(!same_digest(&OLD, &other));
    }
}

#[test]
fn topics_differ_by_kind_and_fork() {
    let blocks = topic(GossipKind::BeaconBlock, OLD);
    assert!(blocks.same(&topic(GossipKind::BeaconBlock, OLD)));
    assert!(!blocks.same(&topic(GossipKind::BeaconBlock, NEW)));
    assert!(!blocks.same(&topic(GossipKind::VoluntaryExit, OLD)));
    let subnet = topic(GossipKind::Attestation(1), OLD);
    assert!(!subnet.same(&topic(GossipKind::Attestation(2), OLD)));
    assert_eq!(subnet.encoding, GossipEncoding::SSZSnappy);
}

#[test]
fn set_of_topics_holds_each_once() {
    let mut set = Subscriptions::new();
    let a = topic(GossipKind::BeaconBlock, OLD);
    let b = topic(GossipKind::VoluntaryExit, OLD);
    assert_eq!(set.len(), 0);
    set.insert(a);
    set.insert(b);
    set.insert(a);
    assert_eq!(set.len(), 2);
    assert!(set.contains(&a) && set.contains(&b));
    let listed = set.to_vec();
    assert!(listed[0].same(&a) && listed[1].same(&b));
    set.remove(&a);
    set.remove(&a);
    assert_eq!(set.len(), 1);
    assert!(!set.contains(&a) && set.contains(&b));
}

#[test]
fn new_node_is_subscribed_to_nothing() {
    let node = node();
    assert!(!node.is_subscribed(&topic(GossipKind::BeaconBlock, OLD)));
    assert_eq!(node.address.bytes, vec![1]);
    assert_eq!(node.local_peer_id.bytes, vec![2]);
}

#[test]
fn start_subscribes_to_the_configured_kinds_and_dials_the_configured_nodes() {
    let mut node = node();
    let kinds = vec![GossipKind::BeaconBlock, GossipKind::SyncCommitteeMessage(3)];
    let address = |n: u8| Multiaddr { bytes: vec![n] };
    match node.start(true, &kinds, vec![address(7), address(8)], vec![address(9)]) {
        Ok(started) => {
            assert_eq!(
                told(&started.commands),
                [
                    (true, GossipKind::BeaconBlock, OLD),
                    (true, GossipKind::SyncCommitteeMessage(3), OLD),
                ]
            );
            let dialed: Vec<Vec<u8>> = started.dials.into_iter().map(|a| a.bytes).collect();
            assert_eq!(dialed, [vec![7], vec![8], vec![9]]);
        }
        Err(e) => panic!("{}", e),
    }
    assert!(node.is_subscribed(&topic(GossipKind::BeaconBlock, OLD)));
    assert!(node.is_subscribed(&topic(GossipKind::SyncCommitteeMessage(3), OLD)));
    assert!(!node.is_subscribed(&topic(GossipKind::SyncCommitteeMessage(4), OLD)));
}

#[test]
fn node_that_cannot_listen_does_not_start() {
    let mut node = node();
    match node.start(false, &vec![GossipKind::BeaconBlock], vec![], vec![]) {
        Err(e) => {
            assert_eq!(e, LISTEN_ERROR);
            assert_eq!(e, "Libp2p was unable to listen on the given listen address.");
        }
        Ok(started) => panic!("{:?}", started),
    }
    assert!(!node.is_subscribed(&topic(GossipKind::BeaconBlock, OLD)));
}

#[test]
fn subscribing_and_unsubscribing() {
    let mut node = node();
    let exits = topic(GossipKind::VoluntaryExit, OLD);
    let command = node.subscribe_kind(GossipKind::VoluntaryExit);
    assert_eq!(told(&[command]), [(true, GossipKind::VoluntaryExit, OLD)]);
    assert!(node.is_subscribed(&exits));
    let command = node.unsubscribe_kind(GossipKind::VoluntaryExit);
    assert_eq!(told(&[command]), [(false, GossipKind::VoluntaryExit, OLD)]);
    assert!(!node.is_subscribed(&exits));

    let later = topic(GossipKind::VoluntaryExit, NEW);
    assert_eq!(told(&[node.subscribe(later)]), [(true, GossipKind::VoluntaryExit, NEW)]);
    assert!(node.is_subscribed(&later) && !node.is_subscribed(&exits));
    assert_eq!(told(&[node.unsubscribe(later)]), [(false, GossipKind::VoluntaryExit, NEW)]);
    assert!(!node.is_subscribed(&later));
}

#[test]
fn outcome_of_a_command() {
    let t = topic(GossipKind::BeaconBlock, OLD);
    let subscribe = GossipsubCommand::Subscribe(t);
    assert!(subscribe.outcome::<u8>(Ok(true)));
    assert!(subscribe.outcome::<u8>(Ok(false)));
    assert!(!subscribe.outcome::<u8>(Err(1)));
    let unsubscribe = GossipsubCommand::Unsubscribe(t);
    assert!(unsubscribe.outcome::<u8>(Ok(true)));
    assert!(!unsubscribe.outcome::<u8>(Ok(false)));
    assert!(!unsubscribe.outcome::<u8>(Err(1)));
}

#[test]
fn fork_transition() {
    let mut node = node();
    node.subscribe_kind(GossipKind::BeaconBlock);
    node.subscribe_kind(GossipKind::Attestation(5));

    let core = vec![GossipKind::BeaconBlock, GossipKind::BlsToExecutionChange];
    let commands = node.subscribe_new_fork_topics(&core, NEW);
    assert_eq!(
        told(&commands),
        [
            (true, GossipKind::BeaconBlock, NEW),
            (true, GossipKind::Attestation(5), NEW),
            (true, GossipKind::BeaconBlock, NEW),
            (true, GossipKind::BlsToExecutionChange, NEW),
        ]
    );
    assert!(node.is_subscribed(&topic(GossipKind::BeaconBlock, OLD)));
    assert!(node.is_subscribed(&topic(GossipKind::BlsToExecutionChange, NEW)));

    let commands = node.unsubscribe_from_fork_topics_except(NEW);
    assert_eq!(
        told(&commands),
        [(false, GossipKind::BeaconBlock, OLD), (false, GossipKind::Attestation(5), OLD)]
    );
    for kind in [GossipKind::BeaconBlock, GossipKind::Attestation(5)] {
        assert!(node.is_subscribed(&topic(kind, NEW)));
        assert!(!node.is_subscribed(&topic(kind, OLD)));
    }
    assert!(node.is_subscribed(&topic(GossipKind::BlsToExecutionChange, NEW)));
    assert!(node.unsubscribe_from_fork_topics_except(NEW).is_empty());
}
