//! Peer identities and addresses, by their canonical bytes.
use vstd::prelude::*;

verus! {

/// Whether two byte strings are the same.
fn same_bytes(a: &Vec<u8>, b: &Vec<u8>) -> (same: bool)
    ensures
        same == (a@ == b@),
{
    if a.len() != b.len() {
        return false;
    }
    for i in 0..a.len()
        invariant
            a@.len() == b@.len(),
            forall|j: int| 0 <= j < i ==> a@[j] == b@[j],
    {
        if a[i] != b[i] {
            assert(a@[i as int] != b@[i as int]);
            return false;
        }
    }
    assert(a@ =~= b@);
    true
}

/// A copy of a byte string.
pub(crate) fn copy_bytes(bytes: &Vec<u8>) -> (copy: Vec<u8>)
    ensures
        copy@ == bytes@,
{
    let mut copy: Vec<u8> = Vec::new();
    for i in 0..bytes.len()
        invariant
            copy@ == bytes@.take(i as int),
    {
        copy.push(bytes[i]);
        assert(bytes@.take(i + 1) =~= bytes@.take(i as int).push(bytes@[i as int]));
    }
    assert(bytes@.take(bytes@.len() as int) =~= bytes@);
    copy
}

/// The identity of a peer, held as the bytes of its multihash.
#[derive(Debug)]
pub struct PeerId {
    pub bytes: Vec<u8>,
}

impl View for PeerId {
    type V = Seq<u8>;

    open spec fn view(&self) -> Seq<u8> {
        self.bytes@
    }
}

impl PeerId {
    /// Whether two identities are the same.
    pub fn same(&self, other: &PeerId) -> (same: bool)
        ensures
            same == (self@ == other@),
    {
        same_bytes(&self.bytes, &other.bytes)
    }
}

impl Clone for PeerId {
    fn clone(&self) -> (copy: Self)
        ensures
            copy@ == self@,
    {
        PeerId { bytes: copy_bytes(&self.bytes) }
    }
}

/// A network address, held as the bytes of its multiaddr.
#[derive(Debug)]
pub struct Multiaddr {
    pub bytes: Vec<u8>,
}

impl View for Multiaddr {
    type V = Seq<u8>;

    open spec fn view(&self) -> Seq<u8> {
        self.bytes@
    }
}

impl Clone for Multiaddr {
    fn clone(&self) -> (copy: Self)
        ensures
            copy@ == self@,
    {
        Multiaddr { bytes: copy_bytes(&self.bytes) }
    }
}

/// The bytes of a peer's identity and of its address.
pub open spec fn peer_view(p: (PeerId, Multiaddr)) -> (Seq<u8>, Seq<u8>) {
    (p.0@, p.1@)
}

/// The bytes of each peer of a list.
pub open spec fn peer_views(peers: Seq<(PeerId, Multiaddr)>) -> Seq<(Seq<u8>, Seq<u8>)> {
    peers.map_values(|p: (PeerId, Multiaddr)| peer_view(p))
}

/// The bytes of each identity of a list.
pub open spec fn id_views(ids: Seq<PeerId>) -> Seq<Seq<u8>> {
    ids.map_values(|id: PeerId| id@)
}

/// The views of a list stand for its peers one by one, identity and address alike.
pub proof fn views_stand_for_each_peer(
    peers: Seq<(PeerId, Multiaddr)>,
    ids: Seq<PeerId>,
    i: int,
)
    ensures
        peer_views(peers).len() == peers.len(),
        id_views(ids).len() == ids.len(),
        0 <= i < peers.len() ==> peer_views(peers)[i] == (peers[i].0.bytes@, peers[i].1.bytes@),
        0 <= i < ids.len() ==> id_views(ids)[i] == ids[i].bytes@,
{
}

} // verus!
