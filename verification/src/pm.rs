//! Peer manager for nym integration: which of the trusted peers are to be dialed.
use crate::peers::{Multiaddr, PeerId};
use vstd::prelude::*;

verus! {

/// Keeps track of the peers that were handed out to be dialed.
#[derive(Debug)]
pub struct PeerManager {
    peers: Vec<(PeerId, Multiaddr)>,
    dialed_peers: Vec<PeerId>,
}

/// The bytes of a peer's identity and of its address.
pub type PeerBytes = (Seq<u8>, Seq<u8>);

/// What a peer manager holds: the peers it knows of, and the identities it has handed out.
#[verifier::ext_equal]
pub struct PeerManagerView {
    pub peers: Seq<PeerBytes>,
    pub dialed_peers: Seq<Seq<u8>>,
}

/// What the swarm reports, as far as a peer manager is told of it.
#[allow(inconsistent_fields)]
#[derive(Debug)]
pub enum FromSwarm {
    /// A dial failed; where the swarm knows the peer, it is named.
    DialFailure { peer_id: Option<PeerId> },
    /// A connection to the peer was closed.
    ConnectionClosed { peer_id: PeerId },
    ConnectionEstablished,
    AddressChange,
    ListenFailure,
    NewListener,
    NewListenAddr,
    ExpiredListenAddr,
    ListenerError,
    ListenerClosed,
    NewExternalAddr,
    ExpiredExternalAddr,
}

impl FromSwarm {
    /// The peer that is no longer to count as dialed, where the report names one.
    pub open spec fn lost_peer(self) -> Option<Seq<u8>> {
        match self {
            FromSwarm::DialFailure { peer_id: Some(p) } => Some(p@),
            FromSwarm::ConnectionClosed { peer_id } => Some(peer_id@),
            _ => None,
        }
    }
}

/// The test for peers other than `local`.
pub open spec fn is_remote(local: Seq<u8>) -> spec_fn(PeerBytes) -> bool {
    |p: PeerBytes| p.0 != local
}

/// The test for peers whose identity does not stand in `dialed`.
pub open spec fn is_undialed(dialed: Seq<Seq<u8>>) -> spec_fn(PeerBytes) -> bool {
    |p: PeerBytes| !dialed.contains(p.0)
}

/// The test for identities other than `id`.
pub open spec fn is_other(id: Seq<u8>) -> spec_fn(Seq<u8>) -> bool {
    |p: Seq<u8>| p != id
}

/// The test for peers with the identity `id`.
pub open spec fn is_peer(id: Seq<u8>) -> spec_fn(PeerBytes) -> bool {
    |p: PeerBytes| p.0 == id
}

/// The trusted peers other than the local one, in their order.
pub open spec fn remote_peers(trusted: Seq<PeerBytes>, local: Seq<u8>) -> Seq<PeerBytes> {
    trusted.filter(is_remote(local))
}

/// The peers whose identity was not handed out yet, in their order.
pub open spec fn undialed(peers: Seq<PeerBytes>, dialed: Seq<Seq<u8>>) -> Seq<PeerBytes> {
    peers.filter(is_undialed(dialed))
}

/// The identities of a list of peers.
pub open spec fn ids_of(peers: Seq<PeerBytes>) -> Seq<Seq<u8>> {
    peers.map_values(|p: PeerBytes| p.0)
}

/// The identities of a list that are not `id`.
pub open spec fn without(ids: Seq<Seq<u8>>, id: Seq<u8>) -> Seq<Seq<u8>> {
    ids.filter(is_other(id))
}

impl PeerManagerView {
    /// The peers that a poll hands out.
    pub open spec fn due(self, local: Seq<u8>, trusted: Seq<PeerBytes>) -> Seq<PeerBytes> {
        undialed(remote_peers(trusted, local), self.dialed_peers)
    }

    /// What the manager holds after a poll.
    pub open spec fn polled(self, local: Seq<u8>, trusted: Seq<PeerBytes>) -> Self {
        PeerManagerView {
            peers: remote_peers(trusted, local),
            dialed_peers: self.dialed_peers + ids_of(self.due(local, trusted)),
        }
    }

    /// What the manager holds after it was told of the loss of a peer, if any.
    pub open spec fn told(self, lost: Option<Seq<u8>>) -> Self {
        match lost {
            Some(id) => PeerManagerView {
                peers: self.peers,
                dialed_peers: without(self.dialed_peers, id),
            },
            None => self,
        }
    }
}

impl View for PeerManager {
    type V = PeerManagerView;

    closed spec fn view(&self) -> PeerManagerView {
        PeerManagerView {
            peers: crate::peers::peer_views(self.peers@),
            dialed_peers: crate::peers::id_views(self.dialed_peers@),
        }
    }
}

/// Whether `ids` holds `id`.
fn holds_id(ids: &Vec<PeerId>, id: &PeerId) -> (b: bool)
    ensures
        b == crate::peers::id_views(ids@).contains(id@),
{
    let ghost views = crate::peers::id_views(ids@);
    for i in 0..ids.len()
        invariant
            views == crate::peers::id_views(ids@),
            forall|j: int| 0 <= j < i ==> views[j] != id@,
    {
        assert(views[i as int] == ids@[i as int]@);
        if ids[i].same(id) {
            return true;
        }
    }
    false
}

impl PeerManager {
    pub fn new() -> (pm: Self)
        ensures
            pm@ == (PeerManagerView { peers: Seq::empty(), dialed_peers: Seq::empty() }),
    {
        let pm = PeerManager { peers: Vec::new(), dialed_peers: Vec::new() };
        assert(pm@ =~= PeerManagerView { peers: Seq::empty(), dialed_peers: Seq::empty() });
        pm
    }

    /// Takes up the current trusted peers and hands out those that were not handed out before:
    /// the local peer never is. `None` means that there is nothing to do.
    pub fn poll(&mut self, local_peer_id: &PeerId, trusted_peers: &Vec<(PeerId, Multiaddr)>) -> (
    event: Option<Vec<(PeerId, Multiaddr)>>)
        ensures
            final(self)@ == old(self)@.polled(
                local_peer_id@,
                crate::peers::peer_views(trusted_peers@),
            ),
            ({
                let due = old(self)@.due(
                    local_peer_id@,
                    crate::peers::peer_views(trusted_peers@),
                );
                match event {
                    Some(peers) => due.len() > 0 && crate::peers::peer_views(peers@) == due,
                    None => due.len() == 0,
                }
            }),
    {
        let ghost start = self@;
        let ghost trusted = crate::peers::peer_views(trusted_peers@);
        let ghost local = local_peer_id@;
        let ghost remote = is_remote(local);
        let mut peers: Vec<(PeerId, Multiaddr)> = Vec::new();
        assert(crate::peers::peer_views(peers@) =~= trusted.take(0).filter(remote)) by {
            reveal(Seq::filter);
        }
        for i in 0..trusted_peers.len()
            invariant
                local == local_peer_id@,
                trusted == crate::peers::peer_views(trusted_peers@),
                remote == is_remote(local),
                crate::peers::peer_views(peers@) == trusted.take(i as int).filter(remote),
        {
            let ghost before = peers@;
            if !trusted_peers[i].0.same(local_peer_id) {
                peers.push((trusted_peers[i].0.clone(), trusted_peers[i].1.clone()));
                assert(crate::peers::peer_views(peers@) =~= crate::peers::peer_views(before).push(
                    trusted[i as int],
                ));
            }
            proof {
                crate::seqs::filter_one_more(trusted, i as int, remote);
            }
        }
        assert(trusted.take(trusted.len() as int) =~= trusted);
        let ghost known = crate::peers::peer_views(peers@);
        assert(known == remote_peers(trusted, local));
        self.peers = peers;

        let ghost dialed = start.dialed_peers;
        let ghost fresh = is_undialed(dialed);
        let mut due: Vec<(PeerId, Multiaddr)> = Vec::new();
        assert(crate::peers::peer_views(due@) =~= known.take(0).filter(fresh)) by {
            reveal(Seq::filter);
        }
        for i in 0..self.peers.len()
            invariant
                known == crate::peers::peer_views(self.peers@),
                dialed == crate::peers::id_views(self.dialed_peers@),
                fresh == is_undialed(dialed),
                crate::peers::peer_views(due@) == known.take(i as int).filter(fresh),
        {
            let ghost before = due@;
            if !holds_id(&self.dialed_peers, &self.peers[i].0) {
                due.push((self.peers[i].0.clone(), self.peers[i].1.clone()));
                assert(crate::peers::peer_views(due@) =~= crate::peers::peer_views(before).push(
                    known[i as int],
                ));
            }
            proof {
                crate::seqs::filter_one_more(known, i as int, fresh);
            }
        }
        assert(known.take(known.len() as int) =~= known);
        let ghost out = crate::peers::peer_views(due@);
        assert(out == start.due(local, trusted));

        let ghost ids = ids_of(out);
        assert(crate::peers::id_views(self.dialed_peers@) =~= dialed + ids.take(0));
        for i in 0..due.len()
            invariant
                known == crate::peers::peer_views(self.peers@),
                out == crate::peers::peer_views(due@),
                ids == ids_of(out),
                crate::peers::id_views(self.dialed_peers@) == dialed + ids.take(i as int),
        {
            let ghost before = self.dialed_peers@;
            self.dialed_peers.push(due[i].0.clone());
            assert(crate::peers::id_views(self.dialed_peers@) =~= crate::peers::id_views(
                before,
            ).push(ids[i as int]));
            assert(dialed + ids.take(i + 1) =~= (dialed + ids.take(i as int)).push(ids[i as int]));
        }
        assert(ids.take(ids.len() as int) =~= ids);
        assert(self@ =~= start.polled(local, trusted));
        if due.len() == 0 {
            None
        } else {
            Some(due)
        }
    }

    /// Forgets that a peer was handed out, wherever it stands in the list.
    fn forget(&mut self, peer_id: &PeerId)
        ensures
            final(self)@ == old(self)@.told(Some(peer_id@)),
    {
        let ghost start = self@;
        let ghost dialed = start.dialed_peers;
        let ghost id = peer_id@;
        let ghost other = is_other(id);
        let mut kept: Vec<PeerId> = Vec::new();
        assert(crate::peers::id_views(kept@) =~= dialed.take(0).filter(other)) by {
            reveal(Seq::filter);
        }
        for i in 0..self.dialed_peers.len()
            invariant
                self@ == start,
                dialed == crate::peers::id_views(self.dialed_peers@),
                id == peer_id@,
                other == is_other(id),
                crate::peers::id_views(kept@) == dialed.take(i as int).filter(other),
        {
            let ghost before = kept@;
            if !self.dialed_peers[i].same(peer_id) {
                kept.push(self.dialed_peers[i].clone());
                assert(crate::peers::id_views(kept@) =~= crate::peers::id_views(before).push(
                    dialed[i as int],
                ));
            }
            proof {
                crate::seqs::filter_one_more(dialed, i as int, other);
            }
        }
        assert(dialed.take(dialed.len() as int) =~= dialed);
        self.dialed_peers = kept;
        assert(self@ =~= start.told(Some(id)));
    }

    /// Takes note of what the swarm reports: a peer that could not be dialed or whose connection
    /// was closed may be dialed again.
    pub fn on_swarm_event(&mut self, event: FromSwarm)
        ensures
            final(self)@ == old(self)@.told(event.lost_peer()),
    {
        match event {
            FromSwarm::DialFailure { peer_id } => {
                if let Some(p) = peer_id {
                    self.forget(&p);
                }
            },
            FromSwarm::ConnectionClosed { peer_id } => {
                self.forget(&peer_id);
            },
            FromSwarm::ConnectionEstablished
            | FromSwarm::AddressChange
            | FromSwarm::ListenFailure
            | FromSwarm::NewListener
            | FromSwarm::NewListenAddr
            | FromSwarm::ExpiredListenAddr
            | FromSwarm::ListenerError
            | FromSwarm::ListenerClosed
            | FromSwarm::NewExternalAddr
            | FromSwarm::ExpiredExternalAddr => {},
        }
    }
}

/// A poll hands out exactly the trusted peers that are not the local one and were not handed out
/// before.
pub proof fn due_peers_are_remote_and_fresh(
    pm: PeerManagerView,
    local: Seq<u8>,
    trusted: Seq<PeerBytes>,
    peer: PeerBytes,
)
    ensures
        pm.due(local, trusted).contains(peer) <==> {
            &&& trusted.contains(peer)
            &&& peer.0 != local
            &&& !pm.dialed_peers.contains(peer.0)
        },
{
    crate::seqs::filter_membership(trusted, is_remote(local), peer);
    crate::seqs::filter_membership(
        remote_peers(trusted, local),
        is_undialed(pm.dialed_peers),
        peer,
    );
}

/// After a poll every trusted peer but the local one counts as dialed, and of the others exactly
/// those that did before.
pub proof fn poll_marks_every_remote_peer(
    pm: PeerManagerView,
    local: Seq<u8>,
    trusted: Seq<PeerBytes>,
    id: Seq<u8>,
)
    ensures
        pm.polled(local, trusted).dialed_peers.contains(id) <==> {
            ||| pm.dialed_peers.contains(id)
            ||| id != local && ids_of(trusted).contains(id)
        },
{
    let due = pm.due(local, trusted);
    let after = pm.polled(local, trusted).dialed_peers;
    if pm.dialed_peers.contains(id) {
        let i = choose|i: int| 0 <= i < pm.dialed_peers.len() && pm.dialed_peers[i] == id;
        assert(after[i] == id);
    } else if id != local && ids_of(trusted).contains(id) {
        let i = choose|i: int| 0 <= i < trusted.len() && ids_of(trusted)[i] == id;
        assert(trusted.contains(trusted[i]));
        due_peers_are_remote_and_fresh(pm, local, trusted, trusted[i]);
        let j = choose|j: int| 0 <= j < due.len() && due[j] == trusted[i];
        assert(after[pm.dialed_peers.len() + j] == id);
    }
    if after.contains(id) && !pm.dialed_peers.contains(id) {
        let i = choose|i: int| 0 <= i < after.len() && after[i] == id;
        let j = i - pm.dialed_peers.len();
        assert(j >= 0) by {
            if i < pm.dialed_peers.len() {
                assert(pm.dialed_peers[i] == id);
            }
        }
        assert(due.contains(due[j]));
        due_peers_are_remote_and_fresh(pm, local, trusted, due[j]);
        let k = choose|k: int| 0 <= k < trusted.len() && trusted[k] == due[j];
        assert(ids_of(trusted)[k] == id);
    }
}

/// A second poll with nothing changed in between hands out nothing and changes nothing.
pub proof fn second_poll_is_silent(pm: PeerManagerView, local: Seq<u8>, trusted: Seq<PeerBytes>)
    ensures
        pm.polled(local, trusted).due(local, trusted) == Seq::<PeerBytes>::empty(),
        pm.polled(local, trusted).polled(local, trusted) == pm.polled(local, trusted),
{
    let after = pm.polled(local, trusted);
    let remote = remote_peers(trusted, local);
    assert forall|i: int| 0 <= i < remote.len() implies !is_undialed(after.dialed_peers)(
        #[trigger] remote[i],
    ) by {
        let p = remote[i];
        assert(remote.contains(p));
        crate::seqs::filter_membership(trusted, is_remote(local), p);
        let k = choose|k: int| 0 <= k < trusted.len() && trusted[k] == p;
        assert(ids_of(trusted)[k] == p.0);
        poll_marks_every_remote_peer(pm, local, trusted, p.0);
    }
    crate::seqs::filter_none(remote, is_undialed(after.dialed_peers));
    assert(after.polled(local, trusted) =~= after);
}

/// The local peer is never marked as dialed by a poll.
pub proof fn local_peer_is_never_dialed(
    pm: PeerManagerView,
    local: Seq<u8>,
    trusted: Seq<PeerBytes>,
)
    requires
        !pm.dialed_peers.contains(local),
    ensures
        !pm.polled(local, trusted).dialed_peers.contains(local),
{
    poll_marks_every_remote_peer(pm, local, trusted, local);
}

/// The loss of a peer unmarks that peer and no other.
pub proof fn loss_unmarks_only_the_lost_peer(pm: PeerManagerView, lost: Seq<u8>, id: Seq<u8>)
    ensures
        pm.told(Some(lost)).dialed_peers.contains(id) <==> pm.dialed_peers.contains(id) && id
            != lost,
        pm.told(Some(lost)).peers == pm.peers,
{
    crate::seqs::filter_membership(pm.dialed_peers, is_other(lost), id);
}

/// A trusted peer that was lost is handed out again by the next poll.
pub proof fn lost_peer_is_due_again(
    pm: PeerManagerView,
    local: Seq<u8>,
    trusted: Seq<PeerBytes>,
    peer: PeerBytes,
)
    requires
        trusted.contains(peer),
        peer.0 != local,
    ensures
        pm.told(Some(peer.0)).due(local, trusted).contains(peer),
{
    loss_unmarks_only_the_lost_peer(pm, peer.0, peer.0);
    due_peers_are_remote_and_fresh(pm.told(Some(peer.0)), local, trusted, peer);
}

/// Where a poll is followed by the loss of a remote peer, the next poll hands out exactly the entries
/// of that peer, in their order.
pub proof fn only_the_lost_peer_is_due(
    pm: PeerManagerView,
    local: Seq<u8>,
    trusted: Seq<PeerBytes>,
    lost: Seq<u8>,
)
    requires
        lost != local,
    ensures
        pm.polled(local, trusted).told(Some(lost)).due(local, trusted) == trusted.filter(
            is_peer(lost),
        ),
{
    let after = pm.polled(local, trusted).told(Some(lost));
    assert forall|i: int| 0 <= i < trusted.len() implies (is_peer(lost)(#[trigger] trusted[i])
        <==> is_remote(local)(trusted[i]) && is_undialed(after.dialed_peers)(trusted[i])) by {
        let id = trusted[i].0;
        assert(ids_of(trusted)[i] == id);
        poll_marks_every_remote_peer(pm, local, trusted, id);
        loss_unmarks_only_the_lost_peer(pm.polled(local, trusted), lost, id);
    }
    crate::seqs::filter_twice(
        trusted,
        is_remote(local),
        is_undialed(after.dialed_peers),
        is_peer(lost),
    );
}

/// A poll goes through the trusted peers one after the other: what is due of one list followed by
/// another, and what is kept of it, is that of the one followed by that of the other.
pub proof fn poll_goes_peer_by_peer(
    pm: PeerManagerView,
    local: Seq<u8>,
    first: Seq<PeerBytes>,
    second: Seq<PeerBytes>,
)
    ensures
        pm.due(local, first + second) == pm.due(local, first) + pm.due(local, second),
        pm.polled(local, first + second).peers == pm.polled(local, first).peers + pm.polled(
            local,
            second,
        ).peers,
{
    crate::seqs::filter_appended(first, second, is_remote(local));
    crate::seqs::filter_appended(
        remote_peers(first, local),
        remote_peers(second, local),
        is_undialed(pm.dialed_peers),
    );
}

/// Of a single trusted peer, that peer is kept if and only if it is not the local one, and it is due if
/// and only if besides it was not handed out before. Without trusted peers nothing is kept or due.
pub proof fn poll_of_one_peer(
    pm: PeerManagerView,
    local: Seq<u8>,
    peer: PeerBytes,
)
    ensures
        pm.due(local, seq![peer]) == if peer.0 != local && !pm.dialed_peers.contains(peer.0) {
            seq![peer]
        } else {
            Seq::empty()
        },
        pm.polled(local, seq![peer]).peers == if peer.0 != local {
            seq![peer]
        } else {
            Seq::empty()
        },
        pm.due(local, Seq::empty()) == Seq::<PeerBytes>::empty(),
        pm.polled(local, Seq::empty()).peers == Seq::<PeerBytes>::empty(),
{
    let none = Seq::<PeerBytes>::empty();
    let one = seq![peer];
    crate::seqs::filter_none(none, is_remote(local));
    crate::seqs::filter_none(none, is_undialed(pm.dialed_peers));
    crate::seqs::filter_first(one, is_remote(local));
    crate::seqs::filter_first(one, is_undialed(pm.dialed_peers));
    assert(one.drop_first() =~= none);
    assert(one + none =~= one);
}

/// A poll adds the identities of the peers that it hands out, in their order, to those that were
/// handed out before, and forgets none of them.
pub proof fn poll_adds_what_it_hands_out(
    pm: PeerManagerView,
    local: Seq<u8>,
    trusted: Seq<PeerBytes>,
    i: int,
)
    ensures
        ({
            let before = pm.dialed_peers;
            let after = pm.polled(local, trusted).dialed_peers;
            let due = pm.due(local, trusted);
            &&& after.len() == before.len() + due.len()
            &&& 0 <= i < before.len() ==> after[i] == before[i]
            &&& 0 <= i < due.len() ==> after[before.len() + i] == due[i].0
        }),
{
}

/// The loss of a peer goes through the identities one after the other: what is left of one list
/// followed by another is what is left of the one followed by what is left of the other. The known
/// peers stay as they are, and without a loss nothing changes.
pub proof fn loss_goes_identity_by_identity(
    first: PeerManagerView,
    second: PeerManagerView,
    both: PeerManagerView,
    lost: Seq<u8>,
)
    requires
        both.dialed_peers == first.dialed_peers + second.dialed_peers,
    ensures
        both.told(Some(lost)).dialed_peers == first.told(Some(lost)).dialed_peers + second.told(
            Some(lost),
        ).dialed_peers,
        first.told(Some(lost)).peers == first.peers,
        first.told(None) == first,
{
    crate::seqs::filter_appended(first.dialed_peers, second.dialed_peers, is_other(lost));
}

/// Of a single identity nothing is left where it is that of the lost peer, and it stays otherwise.
pub proof fn loss_drops_the_lost_identity(pm: PeerManagerView, id: Seq<u8>, lost: Seq<u8>)
    requires
        pm.dialed_peers == seq![id],
    ensures
        id == lost ==> pm.told(Some(lost)).dialed_peers.len() == 0,
        id != lost ==> pm.told(Some(lost)).dialed_peers == seq![id],
{
    let one = seq![id];
    crate::seqs::filter_first(one, is_other(lost));
    crate::seqs::filter_none(one.drop_first(), is_other(lost));
    assert(one + Seq::<Seq<u8>>::empty() =~= one);
}

/// A peer is lost exactly when a dial to it fails, where the swarm names it, and when a connection to
/// it is closed.
pub proof fn peers_are_lost_by_failed_dials_and_closed_connections(event: FromSwarm, id: Seq<u8>)
    ensures
        event.lost_peer() == Some(id) <==> {
            ||| event is DialFailure && event->DialFailure_peer_id is Some
                && event->DialFailure_peer_id->0.bytes@ == id
            ||| event is ConnectionClosed && event->ConnectionClosed_peer_id.bytes@ == id
        },
{
}

} // verus!
