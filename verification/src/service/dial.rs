//! Dialing the peers that the peer manager hands out.
use crate::peers::{Multiaddr, PeerId};
use crate::service::Network;
use vstd::prelude::*;

verus! {

/// The peers that are still to be dealt with, one after the other. Whether a peer is connected or
/// being dialed is asked when its turn comes, since dialing one peer can change the answer for the
/// next.
#[derive(Debug)]
pub struct DialList {
    peers: Vec<(PeerId, Multiaddr)>,
    next: usize,
}

impl View for DialList {
    type V = Seq<(Seq<u8>, Seq<u8>)>;

    closed spec fn view(&self) -> Seq<(Seq<u8>, Seq<u8>)> {
        crate::peers::peer_views(self.peers@).skip(self.next as int)
    }
}

/// The bytes of an address, where there is one.
pub open spec fn address_view(address: Option<Multiaddr>) -> Option<Seq<u8>> {
    match address {
        Some(a) => Some(a@),
        None => None,
    }
}

/// The peers that are left once the first of `peers` was dealt with, and the address that is dialed
/// for it: its own, unless it is connected or being dialed already.
pub open spec fn after_turn(
    peers: Seq<(Seq<u8>, Seq<u8>)>,
    connected: bool,
    dialing: bool,
) -> (Seq<(Seq<u8>, Seq<u8>)>, Option<Seq<u8>>) {
    (
        peers.skip(1),
        if connected || dialing {
            None
        } else {
            Some(peers[0].1)
        },
    )
}

impl DialList {
    #[verifier::type_invariant]
    spec fn in_range(self) -> bool {
        self.next <= self.peers@.len()
    }

    /// The peer whose turn it is, or `None` when every peer was dealt with.
    pub fn current(&self) -> (peer: Option<&PeerId>)
        ensures
            peer is Some <==> self@.len() > 0,
            peer matches Some(p) ==> p@ == self@[0].0,
    {
        proof {
            use_type_invariant(self);
        }
        if self.next < self.peers.len() {
            Some(&self.peers[self.next].0)
        } else {
            None
        }
    }

    /// Deals with the peer whose turn it is, given whether it is connected and whether it is being
    /// dialed: returns the address to dial, unless the peer is passed over.
    pub fn answer(&mut self, connected: bool, dialing: bool) -> (address: Option<Multiaddr>)
        requires
            old(self)@.len() > 0,
        ensures
            (final(self)@, address_view(address)) == after_turn(old(self)@, connected, dialing),
    {
        proof {
            use_type_invariant(&*self);
        }
        let ghost before = self@;
        let i: usize = self.next;
        assert(i < self.peers.len());
        self.next = i + 1;
        assert(self@ =~= before.skip(1));
        if connected || dialing {
            return None;
        }
        Some(self.peers[i].1.clone())
    }
}

impl Network {
    /// Handle an pm event: the peers that are neither connected nor being dialed are to be dialed.
    pub fn inject_pm_event(&self, peers: Vec<(PeerId, Multiaddr)>) -> (list: DialList)
        ensures
            list@ == crate::peers::peer_views(peers@),
    {
        let list = DialList { peers, next: 0 };
        assert(list@ =~= crate::peers::peer_views(peers@));
        list
    }
}

/// The addresses that are dialed when the peers of a list are dealt with one after the other, where
/// `status` says of each whether it is connected and whether it is being dialed when its turn comes.
pub open spec fn dialed_addresses(
    peers: Seq<(Seq<u8>, Seq<u8>)>,
    status: Seq<(bool, bool)>,
) -> Seq<Seq<u8>>
    decreases peers.len(),
{
    if peers.len() == 0 {
        Seq::empty()
    } else {
        let (left, address) = after_turn(peers, status[0].0, status[0].1);
        let rest = dialed_addresses(left, status.skip(1));
        match address {
            Some(a) => seq![a] + rest,
            None => rest,
        }
    }
}

/// Whether the peer at position `i` is neither connected nor being dialed when its turn comes.
pub open spec fn is_idle(status: Seq<(bool, bool)>, i: int) -> bool {
    !status[i].0 && !status[i].1
}

/// An address is dialed if and only if it is that of a peer that is neither connected nor being
/// dialed when its turn comes.
pub proof fn idle_peers_are_dialed(
    peers: Seq<(Seq<u8>, Seq<u8>)>,
    status: Seq<(bool, bool)>,
    address: Seq<u8>,
)
    requires
        status.len() == peers.len(),
    ensures
        dialed_addresses(peers, status).contains(address) <==> exists|i: int|
            0 <= i < peers.len() && #[trigger] is_idle(status, i) && peers[i].1 == address,
        dialed_addresses(peers, status).len() <= peers.len(),
    decreases peers.len(),
{
    if peers.len() > 0 {
        let later = status.skip(1);
        let rest = dialed_addresses(peers.skip(1), later);
        idle_peers_are_dialed(peers.skip(1), later, address);
        assert forall|i: int| 0 <= i < later.len() implies is_idle(later, i) == is_idle(
            status,
            i + 1,
        ) by {
            assert(later[i] == status[i + 1]);
        }
        let all = dialed_addresses(peers, status);
        let busy = !is_idle(status, 0);
        if rest.contains(address) {
            let i = choose|i: int|
                0 <= i < peers.len() - 1 && #[trigger] is_idle(later, i) && peers.skip(1)[i].1
                    == address;
            assert(is_idle(status, i + 1) && peers[i + 1].1 == address);
            let j = choose|j: int| 0 <= j < rest.len() && rest[j] == address;
            if busy {
                assert(all[j] == address);
            } else {
                assert(all[j + 1] == address);
            }
        }
        if !busy && peers[0].1 == address {
            assert(all[0] == address);
        }
        if all.contains(address) && !rest.contains(address) {
            let j = choose|j: int| 0 <= j < all.len() && all[j] == address;
            if !busy && j > 0 {
                assert(rest[j - 1] == address);
            }
        }
        if exists|i: int|
            0 <= i < peers.len() && #[trigger] is_idle(status, i) && peers[i].1 == address {
            let i = choose|i: int|
                0 <= i < peers.len() && #[trigger] is_idle(status, i) && peers[i].1 == address;
            if i > 0 {
                assert(is_idle(later, i - 1) && peers.skip(1)[i - 1].1 == address);
            }
        }
    }
}

/// Dealing with a peer takes that peer off the front of the list and leaves the others in their order.
/// An address is dialed if and only if the peer is neither connected nor being dialed, and then it
/// is the peer's own.
pub proof fn turn_deals_with_the_first_peer(
    first: (Seq<u8>, Seq<u8>),
    others: Seq<(Seq<u8>, Seq<u8>)>,
    connected: bool,
    dialing: bool,
    address: Seq<u8>,
)
    ensures
        ({
            let (left, dialed) = after_turn(seq![first] + others, connected, dialing);
            &&& left == others
            &&& dialed == Some(address) <==> !(connected || dialing) && address == first.1
            &&& dialed is None <==> connected || dialing
        }),
{
    assert((seq![first] + others).skip(1) =~= others);
}

/// The bytes of an address are those that it holds.
pub proof fn address_views_stand_for_addresses(address: Option<Multiaddr>, bytes: Seq<u8>)
    ensures
        address_view(address) == Some(bytes) <==> address is Some && address->0.bytes@ == bytes,
        address_view(address) is None <==> address is None,
{
}

} // verus!
