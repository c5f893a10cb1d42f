//! What the network service takes in and gives out.
//!
//! Three things run through the service untouched and are type parameters: `Id`, the identifier
//! that the application gives its requests; `C`, the identifier of a connection; and `P`, the body
//! of a message.
use crate::peers::{Multiaddr, PeerId};
use crate::slot::Slot;
use vstd::prelude::*;

verus! {

/// The identifier of a gossip message.
#[derive(Debug)]
pub struct MessageId(pub Vec<u8>);

/// The name of a gossip topic on the wire.
#[derive(Debug)]
pub struct TopicHash(pub String);

/// The number of a substream on its connection.
#[derive(Clone, Copy, Debug, PartialEq, Eq, Structural)]
pub struct SubstreamId(pub usize);

/// Identifies a request of a peer: the connection and the substream that it came on.
pub type PeerRequestId<C> = (C, SubstreamId);

/// Identifies a request of ours: the application's own, or one of the service itself.
#[derive(Debug)]
pub enum RequestId<Id> {
    Application(Id),
    Internal,
}

/// A range of blocks: `count` of them from `start_slot` on.
#[derive(Clone, Copy, Debug)]
pub struct BlocksByRangeRequest {
    pub start_slot: Slot,
    pub count: u64,
}

/// A range of blocks as peers may still ask for it: every `step`-th block.
#[derive(Clone, Copy, Debug)]
pub struct OldBlocksByRangeRequest {
    pub start_slot: Slot,
    pub count: u64,
    pub step: u64,
}

/// A request that the application deals with.
#[derive(Debug)]
pub enum Request<P> {
    Status(P),
    BlocksByRange(BlocksByRangeRequest),
    BlocksByRoot(P),
    LightClientBootstrap(P),
}

/// A response that the application deals with. `None` ends a stream of blocks.
#[derive(Debug)]
pub enum Response<P> {
    Status(P),
    BlocksByRange(Option<P>),
    BlocksByRoot(Option<P>),
    LightClientBootstrap(P),
}

/// The types of events than can be obtained from polling the behaviour.
#[allow(inconsistent_fields)]
#[derive(Debug)]
pub enum NetworkEvent<Id, C, P> {
    /// We have successfully dialed and connected to a peer.
    PeerConnectedOutgoing(PeerId),
    /// A peer has successfully dialed and connected to us.
    PeerConnectedIncoming(PeerId),
    /// A peer has disconnected.
    PeerDisconnected(PeerId),
    /// The peer needs to be banned.
    PeerBanned(PeerId),
    /// The peer has been unbanned.
    PeerUnbanned(PeerId),
    /// An RPC Request that was sent failed.
    RPCFailed {
        /// The id of the failed request.
        id: Id,
        /// The peer to which this request was sent.
        peer_id: PeerId,
    },
    RequestReceived {
        /// The peer that sent the request.
        peer_id: PeerId,
        /// Identifier of the request. All responses to this request must use this id.
        id: PeerRequestId<C>,
        /// Request the peer sent.
        request: Request<P>,
    },
    ResponseReceived {
        /// Peer that sent the response.
        peer_id: PeerId,
        /// Id of the request to which the peer is responding.
        id: Id,
        /// Response the peer sent.
        response: Response<P>,
    },
    PubsubMessage {
        /// The gossipsub message id. Used when propagating blocks after validation.
        id: MessageId,
        /// The peer from which we received this message, not the peer that published it.
        source: PeerId,
        /// The topic that this message was sent on.
        topic: TopicHash,
        /// The message itself.
        message: P,
    },
    /// Inform the network to send a Status to this peer.
    StatusPeer(PeerId),
    NewListenAddr(Multiaddr),
    ZeroListeners,
}

/// A counter to be incremented, with its labels.
#[derive(Debug)]
pub enum Metric {
    /// A message could not be published on the attestation subnet.
    FailedAttestationPublishesPerSubnet { subnet_id: u64 },
    /// A message could not be published on the topic of the kind.
    FailedPublishesPerMainTopic { kind: crate::topics::GossipKind },
    /// A message that came from a peer with the client was ignored or rejected.
    GossipUnacceptedMessagesPerClient { client: String, result: &'static str },
    /// A request of the kind came in.
    TotalRpcRequests { request: &'static str },
    /// A cached message was published in the end.
    GossipLatePublishPerTopicKind { kind: crate::topics::GossipKind },
    /// A cached message could not be published on another try.
    GossipFailedLatePublishPerTopicKind { kind: crate::topics::GossipKind },
    /// A cached message was given up.
    GossipExpiredLatePublishPerTopicKind { kind: crate::topics::GossipKind },
}

} // verus!
