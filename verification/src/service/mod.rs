//! The network service: which topics a node is subscribed to, what it publishes, and what becomes
//! of the events of the protocols under it.
//!
//! The service takes the decisions; the protocols themselves are run by its caller, which performs
//! the commands that the service returns and hands back what came of them.
use crate::peers::{Multiaddr, PeerId};
use crate::topics::{GossipTopic, Subscriptions};
use vstd::prelude::*;

pub mod dial;
pub mod events;
pub mod gossip;
pub mod poll;
pub mod rpc;
pub mod setup;
pub mod subscriptions;

verus! {

/// The part of a node record that says which fork the node is on.
#[derive(Clone, Copy, Debug)]
pub struct EnrForkId {
    pub fork_digest: [u8; 4],
}

/// The network behaviour that manages the core protocols of eth2.
#[derive(Debug)]
pub struct Network {
    /// Nym address.
    pub address: Multiaddr,
    /// This node's PeerId.
    pub local_peer_id: PeerId,
    /// Keeps track of the current EnrForkId for upgrading gossipsub topics.
    pub enr_fork_id: EnrForkId,
    /// The topics that the node is subscribed to.
    pub gossipsub_subscriptions: Subscriptions,
}

impl Network {
    /// The address of the node.
    pub open spec fn node_address(self) -> Multiaddr {
        self.address
    }

    /// The identity of the node.
    pub open spec fn node_peer_id(self) -> PeerId {
        self.local_peer_id
    }

    /// Whether this is the same node on the same fork, whatever it is subscribed to.
    pub open spec fn is_same_node(self, other: Network) -> bool {
        &&& self.node_address() == other.node_address()
        &&& self.node_peer_id() == other.node_peer_id()
        &&& self.fork_digest() == other.fork_digest()
    }

    /// The digest of the fork that the node is on.
    pub open spec fn fork_digest(self) -> [u8; 4] {
        self.enr_fork_id.fork_digest
    }

    /// The topics that the node is subscribed to.
    pub open spec fn subscriptions(self) -> Set<GossipTopic> {
        self.gossipsub_subscriptions@
    }

    /// The topics that the node is subscribed to, in the order in which they are walked.
    pub open spec fn listed(self) -> Seq<GossipTopic> {
        self.gossipsub_subscriptions.listed()
    }

    /// A node at `address` that is subscribed to nothing yet.
    pub fn new(address: Multiaddr, local_peer_id: PeerId, enr_fork_id: EnrForkId) -> (network: Self)
        ensures
            network.node_address() == address,
            network.node_peer_id() == local_peer_id,
            network.fork_digest() == enr_fork_id.fork_digest,
            network.subscriptions() == Set::<GossipTopic>::empty(),
            network.listed() == Seq::<GossipTopic>::empty(),
    {
        Network {
            address,
            local_peer_id,
            enr_fork_id,
            gossipsub_subscriptions: Subscriptions::new(),
        }
    }
}

/// The walk over a node's subscriptions meets exactly the topics that it is subscribed to.
pub proof fn listed_topics_are_the_subscriptions(network: Network, topic: GossipTopic)
    ensures
        network.listed().contains(topic) <==> network.subscriptions().contains(topic),
{
    crate::topics::listed_topics_are_the_set(network.gossipsub_subscriptions, topic);
}

/// What is told of a node is what the node holds, and two nodes are the same if and only if they agree
/// on their address, their identity and their fork.
pub proof fn nodes_are_told_by_what_they_hold(node: Network, other: Network)
    ensures
        node.node_address() == node.address,
        node.node_peer_id() == node.local_peer_id,
        node.fork_digest() == node.enr_fork_id.fork_digest,
        node.subscriptions() == node.gossipsub_subscriptions@,
        node.listed() == node.gossipsub_subscriptions.listed(),
        node.is_same_node(other) <==> {
            &&& node.address == other.address
            &&& node.local_peer_id == other.local_peer_id
            &&& node.enr_fork_id.fork_digest == other.enr_fork_id.fork_digest
        },
{
}

} // verus!
