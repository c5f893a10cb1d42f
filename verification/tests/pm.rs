use lighthouse_nym::peers::{Multiaddr, PeerId};
use lighthouse_nym::pm::{FromSwarm, PeerManager};

fn id(n: u8) -> PeerId {
    PeerId { bytes: vec![n, n] }
}

fn peer(n: u8) -> (PeerId, Multiaddr) {
    (id(n), Multiaddr { bytes: vec![100, n] })
}

fn peers(numbers: &[u8]) -> Vec<(PeerId, Multiaddr)> {
    numbers.iter().map(|&n| peer(n)).collect()
}

/// The numbers of the peers that a poll hands out, with their addresses checked.
fn poll(pm: &mut PeerManager, local: u8, trusted: &[u8]) -> Option<Vec<u8>> {
    pm.poll(&id(local), &peers(trusted)).map(|handed_out| {
        handed_out
            .iter()
            .map(|(id, address)| {
                assert_eq!(address.bytes, vec![100, id.bytes[0]]);
                id.bytes[0]
            })
            .collect()
    })
}

#[test]
fn new_manager_hands_out_every_trusted_peer_but_the_local_one() {
    let mut pm = PeerManager::new();
    assert_eq!(poll(&mut pm, 2, &[1, 2, 3]), Some(vec![1, 3]));
}

#[test]
fn nothing_to_do_without_remote_peers() {
    let mut pm = PeerManager::new();
    assert_eq!(poll(&mut pm, 2, &[]), None);
    assert_eq!(poll(&mut pm, 2, &[2, 2]), None);
}

#[test]
fn peers_are_handed_out_once() {
    let mut pm = PeerManager::new();
    assert_eq!(poll(&mut pm, 0, &[1, 3]), Some(vec![1, 3]));
    assert_eq!(poll(&mut pm, 0, &[1, 3]), None);
    assert_eq!(poll(&mut pm, 0, &[1, 2, 3, 4]), Some(vec![2, 4]));
}

#[test]
fn peer_that_is_listed_twice_is_handed_out_twice() {
    let mut pm = PeerManager::new();
    assert_eq!(poll(&mut pm, 0, &[1, 1]), Some(vec![1, 1]));
    pm.on_swarm_event(FromSwarm::ConnectionClosed { peer_id: id(1) });
    assert_eq!(poll(&mut pm, 0, &[1]), Some(vec![1]));
}

#[test]
fn lost_peers_are_handed_out_again() {
    let mut pm = PeerManager::new();
    assert_eq!(poll(&mut pm, 0, &[1, 2, 3]), Some(vec![1, 2, 3]));
    pm.on_swarm_event(FromSwarm::DialFailure { peer_id: Some(id(2)) });
    assert_eq!(poll(&mut pm, 0, &[1, 2, 3]), Some(vec![2]));
    pm.on_swarm_event(FromSwarm::ConnectionClosed { peer_id: id(3) });
    assert_eq!(poll(&mut pm, 0, &[1, 2, 3]), Some(vec![3]));
}

#[test]
fn exactly_the_entries_of_the_lost_peer_are_handed_out_again() {
    let mut pm = PeerManager::new();
    assert_eq!(poll(&mut pm, 0, &[2, 1, 2, 0]), Some(vec![2, 1, 2]));
    pm.on_swarm_event(FromSwarm::ConnectionClosed { peer_id: id(2) });
    assert_eq!(poll(&mut pm, 0, &[2, 1, 2, 0]), Some(vec![2, 2]));
}

#[test]
fn failure_to_dial_an_unknown_peer_changes_nothing() {
    let mut pm = PeerManager::new();
    assert_eq!(poll(&mut pm, 0, &[1, 2]), Some(vec![1, 2]));
    pm.on_swarm_event(FromSwarm::DialFailure { peer_id: None });
    assert_eq!(poll(&mut pm, 0, &[1, 2]), None);
}

#[test]
fn other_reports_change_nothing() {
    let mut pm = PeerManager::new();
    assert_eq!(poll(&mut pm, 0, &[1, 2]), Some(vec![1, 2]));
    for event in [
        FromSwarm::ConnectionEstablished,
        FromSwarm::AddressChange,
        FromSwarm::ListenFailure,
        FromSwarm::NewListener,
        FromSwarm::NewListenAddr,
        FromSwarm::ExpiredListenAddr,
        FromSwarm::ListenerError,
        FromSwarm::ListenerClosed,
        FromSwarm::NewExternalAddr,
        FromSwarm::ExpiredExternalAddr,
    ] {
        pm.on_swarm_event(event);
    }
    assert_eq!(poll(&mut pm, 0, &[1, 2]), None);
}

#[test]
fn identities_are_the_same_by_their_bytes() {
    assert!(id(1).same(&id(1).clone()));
    assert!(!id(1).same(&id(2)));
    assert!(!id(1).same(&PeerId { bytes: vec![1] }));
    assert_eq!(peer(4).1.clone().bytes, vec![100, 4]);
}
