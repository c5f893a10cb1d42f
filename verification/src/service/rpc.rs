//! The RPC side of the network service: requests, responses and what becomes of incoming ones.
use crate::peers::PeerId;
use crate::service::events::{
    BlocksByRangeRequest, Metric, NetworkEvent, OldBlocksByRangeRequest, PeerRequestId, Request,
    RequestId, Response, SubstreamId,
};
use crate::service::Network;
use vstd::prelude::*;

verus! {

/// A request of a peer.
#[derive(Debug)]
pub enum InboundRequest<P> {
    /// Carries the peer's metadata sequence number.
    Ping(u64),
    MetaData,
    Goodbye(P),
    Status(P),
    BlocksByRange(OldBlocksByRangeRequest),
    BlocksByRoot(P),
    LightClientBootstrap(P),
}

/// A response of a peer.
#[derive(Debug)]
pub enum RPCResponse<P> {
    /// Carries the peer's metadata sequence number.
    Pong(u64),
    MetaData(P),
    Status(P),
    BlocksByRange(P),
    BlocksByRoot(P),
    LightClientBootstrap(P),
}

/// Which stream of blocks has ended.
#[derive(Clone, Copy, Debug, PartialEq, Eq, Structural)]
pub enum ResponseTermination {
    BlocksByRange,
    BlocksByRoot,
}

/// A failure of the connection handler.
#[allow(inconsistent_fields)]
#[derive(Debug)]
pub enum HandlerErr<Id> {
    /// A request of a peer failed.
    Inbound { id: SubstreamId },
    /// A request of ours failed.
    Outbound { id: RequestId<Id> },
}

/// What came in.
#[derive(Debug)]
pub enum RPCReceived<Id, P> {
    Request(SubstreamId, InboundRequest<P>),
    Response(RequestId<Id>, RPCResponse<P>),
    EndOfStream(RequestId<Id>, ResponseTermination),
}

/// An RPC event, with the peer and the connection that it came from.
#[derive(Debug)]
pub struct RPCMessage<Id, C, P> {
    pub peer_id: PeerId,
    pub conn_id: C,
    pub event: Result<RPCReceived<Id, P>, HandlerErr<Id>>,
}

/// A request to be sent.
#[derive(Debug)]
pub enum OutboundRequest<P> {
    /// Carries our metadata sequence number.
    Ping(u64),
    MetaData,
    Application(Request<P>),
}

/// The metadata of the node: its sequence number and the rest.
#[derive(Debug)]
pub struct MetaData<P> {
    pub seq_number: u64,
    pub body: P,
}

/// A response to be sent.
#[derive(Debug)]
pub enum RPCCodedResponse<P> {
    /// Carries our metadata sequence number.
    Pong(u64),
    /// Carries our metadata.
    MetaData(MetaData<P>),
    Application(Response<P>),
    /// An error code and the reason.
    Error(u8, String),
}

/// What the RPC protocol is to do.
#[allow(inconsistent_fields)]
#[derive(Debug)]
pub enum RPCCommand<Id, C, P> {
    SendRequest { peer_id: PeerId, id: RequestId<Id>, request: OutboundRequest<P> },
    SendResponse { peer_id: PeerId, id: PeerRequestId<C>, response: RPCCodedResponse<P> },
}

/// What becomes of an RPC event: a message to be sent, a counter to be incremented and an event
/// for the application, each where there is one.
#[derive(Debug)]
pub struct RPCOutcome<Id, C, P> {
    pub command: Option<RPCCommand<Id, C, P>>,
    pub metric: Option<Metric>,
    pub event: Option<NetworkEvent<Id, C, P>>,
}

impl<P> InboundRequest<P> {
    /// The request that the application is handed, where it is handed one: a range of blocks with
    /// a step of its own is cut down to one block, one with step zero is dropped.
    pub open spec fn propagated(self) -> Option<Request<P>> {
        match self {
            InboundRequest::Status(msg) => Some(Request::Status(msg)),
            InboundRequest::BlocksByRange(req) => if req.step == 0 {
                None
            } else {
                Some(
                    Request::BlocksByRange(
                        BlocksByRangeRequest {
                            start_slot: req.start_slot,
                            count: if req.step > 1 {
                                1
                            } else {
                                req.count
                            },
                        },
                    ),
                )
            },
            InboundRequest::BlocksByRoot(req) => Some(Request::BlocksByRoot(req)),
            InboundRequest::LightClientBootstrap(req) => Some(Request::LightClientBootstrap(req)),
            _ => None,
        }
    }

    /// The response that the service gives by itself, where it gives one: it tells of the local
    /// metadata, whatever number the peer pinged with.
    pub open spec fn answered(self, metadata: MetaData<P>) -> Option<RPCCodedResponse<P>> {
        match self {
            InboundRequest::Ping(_) => Some(RPCCodedResponse::Pong(metadata.seq_number)),
            InboundRequest::MetaData => Some(RPCCodedResponse::MetaData(metadata)),
            _ => None,
        }
    }
}

impl<P> RPCResponse<P> {
    /// The response that the application is handed, where it is handed one.
    pub open spec fn propagated(self) -> Option<Response<P>> {
        match self {
            RPCResponse::Pong(_) => None,
            RPCResponse::MetaData(_) => None,
            RPCResponse::Status(msg) => Some(Response::Status(msg)),
            RPCResponse::BlocksByRange(resp) => Some(Response::BlocksByRange(Some(resp))),
            RPCResponse::BlocksByRoot(resp) => Some(Response::BlocksByRoot(Some(resp))),
            RPCResponse::LightClientBootstrap(b) => Some(Response::LightClientBootstrap(b)),
        }
    }
}

impl ResponseTermination {
    /// The response that ends the stream.
    pub open spec fn last_response<P>(self) -> Response<P> {
        match self {
            ResponseTermination::BlocksByRange => Response::BlocksByRange(None),
            ResponseTermination::BlocksByRoot => Response::BlocksByRoot(None),
        }
    }
}

impl<P> Request<P> {
    /// The label under which requests of this kind are counted.
    pub open spec fn label(self) -> &'static str {
        match self {
            Request::Status(_) => "status",
            Request::LightClientBootstrap(_) => "light_client_bootstrap",
            Request::BlocksByRange(_) => "blocks_by_range",
            Request::BlocksByRoot(_) => "blocks_by_root",
        }
    }
}

impl<Id, C, P> RPCOutcome<Id, C, P> {
    /// Nothing is to be done.
    pub open spec fn nothing() -> Self {
        RPCOutcome { command: None, metric: None, event: None }
    }

    /// The application is handed the event and nothing else is to be done.
    pub open spec fn only(event: NetworkEvent<Id, C, P>) -> Self {
        RPCOutcome { command: None, metric: None, event: Some(event) }
    }

    /// The application is handed the response to a request of its own; one to a request of the
    /// service goes no further.
    pub open spec fn of_response(
        id: RequestId<Id>,
        peer_id: PeerId,
        response: Option<Response<P>>,
    ) -> Self {
        match (id, response) {
            (RequestId::Application(id), Some(response)) => Self::only(
                NetworkEvent::ResponseReceived { peer_id, id, response },
            ),
            _ => Self::nothing(),
        }
    }

    /// A request of a peer is handed to the application and counted, or answered, or dropped.
    pub open spec fn of_request(
        id: PeerRequestId<C>,
        peer_id: PeerId,
        metadata: MetaData<P>,
        request: InboundRequest<P>,
    ) -> Self {
        match (request.propagated(), request.answered(metadata)) {
            (Some(request), _) => RPCOutcome {
                command: None,
                metric: Some(Metric::TotalRpcRequests { request: request.label() }),
                event: Some(NetworkEvent::RequestReceived { peer_id, id, request }),
            },
            (None, Some(response)) => RPCOutcome {
                command: Some(RPCCommand::SendResponse { peer_id, id, response }),
                metric: None,
                event: None,
            },
            (None, None) => Self::nothing(),
        }
    }

    /// What becomes of an RPC event: those of peers that are not connected any more are ignored.
    pub open spec fn of_message(
        connected: bool,
        metadata: MetaData<P>,
        message: RPCMessage<Id, C, P>,
    ) -> Self {
        if !connected {
            Self::nothing()
        } else {
            match message.event {
                Err(HandlerErr::Outbound { id: RequestId::Application(id) }) => Self::only(
                    NetworkEvent::RPCFailed { id, peer_id: message.peer_id },
                ),
                Err(_) => Self::nothing(),
                Ok(RPCReceived::Request(id, request)) => Self::of_request(
                    (message.conn_id, id),
                    message.peer_id,
                    metadata,
                    request,
                ),
                Ok(RPCReceived::Response(id, response)) => Self::of_response(
                    id,
                    message.peer_id,
                    response.propagated(),
                ),
                Ok(RPCReceived::EndOfStream(id, termination)) => Self::of_response(
                    id,
                    message.peer_id,
                    Some(termination.last_response()),
                ),
            }
        }
    }
}

impl Network {
    /* Eth2 RPC behaviour functions */

    /// Send a request to a peer over RPC.
    pub fn send_request<Id, C, P>(
        &self,
        peer_id: PeerId,
        request_id: Id,
        request: Request<P>,
    ) -> (command: RPCCommand<Id, C, P>)
        ensures
            command == (RPCCommand::<Id, C, P>::SendRequest {
                peer_id,
                id: RequestId::Application(request_id),
                request: OutboundRequest::Application(request),
            }),
    {
        RPCCommand::SendRequest {
            peer_id,
            id: RequestId::Application(request_id),
            request: OutboundRequest::Application(request),
        }
    }

    /// Send a successful response to a peer over RPC.
    pub fn send_response<Id, C, P>(
        &self,
        peer_id: PeerId,
        id: PeerRequestId<C>,
        response: Response<P>,
    ) -> (command: RPCCommand<Id, C, P>)
        ensures
            command == (RPCCommand::<Id, C, P>::SendResponse {
                peer_id,
                id,
                response: RPCCodedResponse::Application(response),
            }),
    {
        RPCCommand::SendResponse { peer_id, id, response: RPCCodedResponse::Application(response) }
    }

    /// Inform the peer that their request produced an error.
    pub fn send_error_reponse<Id, C, P>(
        &self,
        peer_id: PeerId,
        id: PeerRequestId<C>,
        error: u8,
        reason: String,
    ) -> (command: RPCCommand<Id, C, P>)
        ensures
            command == (RPCCommand::<Id, C, P>::SendResponse {
                peer_id,
                id,
                response: RPCCodedResponse::Error(error, reason),
            }),
    {
        RPCCommand::SendResponse { peer_id, id, response: RPCCodedResponse::Error(error, reason) }
    }

    /// Sends a Ping request to the peer.
    pub fn ping<Id, C, P>(&self, peer_id: PeerId, seq_number: u64) -> (command: RPCCommand<
        Id,
        C,
        P,
    >)
        ensures
            command == (RPCCommand::<Id, C, P>::SendRequest {
                peer_id,
                id: RequestId::Internal,
                request: OutboundRequest::Ping(seq_number),
            }),
    {
        RPCCommand::SendRequest {
            peer_id,
            id: RequestId::Internal,
            request: OutboundRequest::Ping(seq_number),
        }
    }

    /// Sends a Pong response to the peer.
    pub fn pong<Id, C, P>(&self, id: PeerRequestId<C>, peer_id: PeerId, seq_number: u64) -> (command:
        RPCCommand<Id, C, P>)
        ensures
            command == (RPCCommand::<Id, C, P>::SendResponse {
                peer_id,
                id,
                response: RPCCodedResponse::Pong(seq_number),
            }),
    {
        RPCCommand::SendResponse { peer_id, id, response: RPCCodedResponse::Pong(seq_number) }
    }

    /// Sends a METADATA request to a peer.
    pub fn send_meta_data_request<Id, C, P>(&self, peer_id: PeerId) -> (command: RPCCommand<
        Id,
        C,
        P,
    >)
        ensures
            command == (RPCCommand::<Id, C, P>::SendRequest {
                peer_id,
                id: RequestId::Internal,
                request: OutboundRequest::MetaData,
            }),
    {
        RPCCommand::SendRequest {
            peer_id,
            id: RequestId::Internal,
            request: OutboundRequest::MetaData,
        }
    }

    /// Sends a METADATA response to a peer.
    pub fn send_meta_data_response<Id, C, P>(
        &self,
        id: PeerRequestId<C>,
        peer_id: PeerId,
        metadata: MetaData<P>,
    ) -> (command: RPCCommand<Id, C, P>)
        ensures
            command == (RPCCommand::<Id, C, P>::SendResponse {
                peer_id,
                id,
                response: RPCCodedResponse::MetaData(metadata),
            }),
    {
        RPCCommand::SendResponse { peer_id, id, response: RPCCodedResponse::MetaData(metadata) }
    }

    // RPC Propagation methods

    /// Queues the response to be sent upwards as long at it was requested outside the Behaviour.
    #[must_use]
    pub fn build_response<Id, C, P>(
        &self,
        id: RequestId<Id>,
        peer_id: PeerId,
        response: Response<P>,
    ) -> (event: Option<NetworkEvent<Id, C, P>>)
        ensures
            event == RPCOutcome::<Id, C, P>::of_response(id, peer_id, Some(response)).event,
    {
        match id {
            RequestId::Application(id) => Some(
                NetworkEvent::ResponseReceived { peer_id, id, response },
            ),
            RequestId::Internal => None,
        }
    }

    /// Convenience function to propagate a request.
    #[must_use]
    pub fn build_request<Id, C, P>(
        &self,
        id: PeerRequestId<C>,
        peer_id: PeerId,
        request: Request<P>,
    ) -> (outcome: RPCOutcome<Id, C, P>)
        ensures
            outcome == (RPCOutcome::<Id, C, P> {
                command: None,
                metric: Some(Metric::TotalRpcRequests { request: request.label() }),
                event: Some(NetworkEvent::RequestReceived { peer_id, id, request }),
            }),
    {
        let label = match &request {
            Request::Status(_) => "status",
            Request::LightClientBootstrap(_) => "light_client_bootstrap",
            Request::BlocksByRange(_) => "blocks_by_range",
            Request::BlocksByRoot(_) => "blocks_by_root",
        };
        RPCOutcome {
            command: None,
            metric: Some(Metric::TotalRpcRequests { request: label }),
            event: Some(NetworkEvent::RequestReceived { peer_id, id, request }),
        }
    }

    /// Handle an RPC event. `connected` says whether the peer is still connected, and
    /// `metadata` is the local metadata.
    pub fn inject_rpc_event<Id, C, P>(
        &self,
        connected: bool,
        metadata: MetaData<P>,
        message: RPCMessage<Id, C, P>,
    ) -> (outcome: RPCOutcome<Id, C, P>)
        ensures
            outcome == RPCOutcome::of_message(connected, metadata, message),
    {
        let nothing = RPCOutcome { command: None, metric: None, event: None };
        let RPCMessage { peer_id, conn_id, event } = message;
        if !connected {
            return nothing;
        }
        // The METADATA and PING RPC responses are handled within the behaviour and not propagated
        match event {
            Err(handler_err) => match handler_err {
                HandlerErr::Inbound { id: _ } => nothing,
                HandlerErr::Outbound { id } => {
                    // inform failures of requests comming outside the behaviour
                    if let RequestId::Application(id) = id {
                        RPCOutcome {
                            command: None,
                            metric: None,
                            event: Some(NetworkEvent::RPCFailed { id, peer_id }),
                        }
                    } else {
                        nothing
                    }
                },
            },
            Ok(RPCReceived::Request(id, request)) => {
                let peer_request_id = (conn_id, id);
                match request {
                    /* Behaviour managed protocols: Ping and Metadata */
                    InboundRequest::Ping(_) => RPCOutcome {
                        command: Some(self.pong(peer_request_id, peer_id, metadata.seq_number)),
                        metric: None,
                        event: None,
                    },
                    InboundRequest::MetaData => RPCOutcome {
                        command: Some(
                            self.send_meta_data_response(peer_request_id, peer_id, metadata),
                        ),
                        metric: None,
                        event: None,
                    },
                    // The RPC handler disconnects by itself.
                    InboundRequest::Goodbye(_) => nothing,
                    /* Protocols propagated to the Network */
                    InboundRequest::Status(msg) => self.build_request(
                        peer_request_id,
                        peer_id,
                        Request::Status(msg),
                    ),
                    InboundRequest::BlocksByRange(req) => {
                        let OldBlocksByRangeRequest { start_slot, mut count, step } = req;
                        if step == 0 {
                            return nothing;
                        }
                        // return just one block in case the step parameter is used. https://github.com/ethereum/consensus-specs/pull/2856
                        if step > 1 {
                            count = 1;
                        }
                        self.build_request(
                            peer_request_id,
                            peer_id,
                            Request::BlocksByRange(BlocksByRangeRequest { start_slot, count }),
                        )
                    },
                    InboundRequest::BlocksByRoot(req) => self.build_request(
                        peer_request_id,
                        peer_id,
                        Request::BlocksByRoot(req),
                    ),
                    InboundRequest::LightClientBootstrap(req) => self.build_request(
                        peer_request_id,
                        peer_id,
                        Request::LightClientBootstrap(req),
                    ),
                }
            },
            Ok(RPCReceived::Response(id, resp)) => {
                let response = match resp {
                    /* Behaviour managed protocols */
                    RPCResponse::Pong(_) => return nothing,
                    RPCResponse::MetaData(_) => return nothing,
                    /* Network propagated protocols */
                    RPCResponse::Status(msg) => Response::Status(msg),
                    RPCResponse::BlocksByRange(resp) => Response::BlocksByRange(Some(resp)),
                    RPCResponse::BlocksByRoot(resp) => Response::BlocksByRoot(Some(resp)),
                    RPCResponse::LightClientBootstrap(bootstrap) => {
                        Response::LightClientBootstrap(bootstrap)
                    },
                };
                RPCOutcome {
                    command: None,
                    metric: None,
                    event: self.build_response(id, peer_id, response),
                }
            },
            Ok(RPCReceived::EndOfStream(id, termination)) => {
                let response = match termination {
                    ResponseTermination::BlocksByRange => Response::BlocksByRange(None),
                    ResponseTermination::BlocksByRoot => Response::BlocksByRoot(None),
                };
                RPCOutcome {
                    command: None,
                    metric: None,
                    event: self.build_response(id, peer_id, response),
                }
            },
        }
    }
}

/// Nothing is done for a peer that is not connected.
pub proof fn disconnected_peers_are_ignored<Id, C, P>(
    metadata: MetaData<P>,
    message: RPCMessage<Id, C, P>,
)
    ensures
        RPCOutcome::of_message(false, metadata, message) == RPCOutcome::<Id, C, P>::nothing(),
{
}

/// Pings and requests for metadata are answered by the service with the local sequence number and
/// the local metadata, to the peer and the substream they came from, and the application does not see them.
pub proof fn pings_and_metadata_are_not_propagated<Id, C, P>(
    metadata: MetaData<P>,
    message: RPCMessage<Id, C, P>,
    id: SubstreamId,
    request: InboundRequest<P>,
)
    requires
        message.event == Ok::<_, HandlerErr<Id>>(RPCReceived::<Id, P>::Request(id, request)),
        request is Ping || request is MetaData,
    ensures
        ({
            let outcome = RPCOutcome::of_message(true, metadata, message);
            &&& outcome.event is None
            &&& outcome.command matches Some(RPCCommand::SendResponse { peer_id, id: to, response })
            &&& peer_id == message.peer_id
            &&& to == (message.conn_id, id)
            &&& response == if request is Ping {
                RPCCodedResponse::<P>::Pong(metadata.seq_number)
            } else {
                RPCCodedResponse::MetaData(metadata)
            }
        }),
{
}

/// No event is both answered by the service and handed to the application, and the application
/// is handed a request if and only if it is counted.
pub proof fn events_are_answered_or_propagated<Id, C, P>(
    connected: bool,
    metadata: MetaData<P>,
    message: RPCMessage<Id, C, P>,
)
    ensures
        ({
            let outcome = RPCOutcome::of_message(connected, metadata, message);
            &&& outcome.command is None || outcome.event is None
            &&& outcome.metric is Some <==> (outcome.event matches Some(
                NetworkEvent::RequestReceived { .. },
            ))
        }),
{
}

/// What concerns a request of the service itself never reaches the application.
pub proof fn internal_requests_stay_internal<Id, C, P>(
    connected: bool,
    metadata: MetaData<P>,
    message: RPCMessage<Id, C, P>,
)
    requires
        match message.event {
            Err(HandlerErr::Outbound { id }) => id is Internal,
            Ok(RPCReceived::Response(id, _)) => id is Internal,
            Ok(RPCReceived::EndOfStream(id, _)) => id is Internal,
            _ => false,
        },
    ensures
        RPCOutcome::of_message(connected, metadata, message) == RPCOutcome::<
            Id,
            C,
            P,
        >::nothing(),
{
}

/// A range of blocks is handed on with its start unchanged and never asks for more blocks than
/// the peer did, unless it asked for none with a step of its own; with a step above one it asks
/// for a single block; with step zero it is dropped.
pub proof fn block_ranges_are_never_widened<P>(req: OldBlocksByRangeRequest)
    ensures
        ({
            let request = InboundRequest::<P>::BlocksByRange(req).propagated();
            &&& req.step == 0 <==> request is None
            &&& request matches Some(Request::BlocksByRange(range)) ==> {
                &&& range.start_slot == req.start_slot
                &&& req.count > 0 ==> range.count <= req.count
                &&& req.step > 1 ==> range.count == 1
                &&& req.step == 1 ==> range.count == req.count
            }
            &&& request matches Some(r) ==> r is BlocksByRange
        }),
{
}

/// The application learns of a failure if and only if a request of its own to a connected peer failed,
/// with that request and that peer.
pub proof fn failures_of_own_requests_are_propagated<Id, C, P>(
    connected: bool,
    metadata: MetaData<P>,
    message: RPCMessage<Id, C, P>,
    id: Id,
    peer_id: PeerId,
)
    ensures
        RPCOutcome::of_message(connected, metadata, message).event == Some(
            NetworkEvent::<Id, C, P>::RPCFailed { id, peer_id },
        ) <==> {
            &&& connected
            &&& peer_id == message.peer_id
            &&& message.event == Err::<RPCReceived<Id, P>, _>(
                HandlerErr::Outbound { id: RequestId::Application(id) },
            )
        },
{
}

/// The application is handed a status, roots or a bootstrap if and only if a connected peer asks with
/// that very body. The request is identified by the connection and the substream that it came on.
pub proof fn requests_are_propagated_as_they_come<Id, C, P>(
    connected: bool,
    metadata: MetaData<P>,
    message: RPCMessage<Id, C, P>,
    peer_id: PeerId,
    id: PeerRequestId<C>,
    body: P,
)
    ensures
        ({
            let event = RPCOutcome::of_message(connected, metadata, message).event;
            let came = |request: InboundRequest<P>|
                connected && peer_id == message.peer_id && id.0 == message.conn_id && message.event
                    == Ok::<_, HandlerErr<Id>>(RPCReceived::<Id, P>::Request(id.1, request));
            let handed = |request: Request<P>|
                event == Some(NetworkEvent::<Id, C, P>::RequestReceived { peer_id, id, request });
            &&& handed(Request::Status(body)) <==> came(InboundRequest::Status(body))
            &&& handed(Request::BlocksByRoot(body)) <==> came(InboundRequest::BlocksByRoot(body))
            &&& handed(Request::LightClientBootstrap(body)) <==> came(
                InboundRequest::LightClientBootstrap(body),
            )
        }),
{
}

/// The application is handed a range of blocks if and only if a connected peer asks for one from the
/// same start with a step. With step one the count is the peer's, and with a larger step it is one.
pub proof fn block_ranges_are_propagated_by_their_step<Id, C, P>(
    connected: bool,
    metadata: MetaData<P>,
    message: RPCMessage<Id, C, P>,
    peer_id: PeerId,
    id: PeerRequestId<C>,
    range: BlocksByRangeRequest,
)
    ensures
        RPCOutcome::of_message(connected, metadata, message).event == Some(
            NetworkEvent::<Id, C, P>::RequestReceived {
                peer_id,
                id,
                request: Request::BlocksByRange(range),
            },
        ) <==> ({
            let request = message.event->Ok_0->Request_1;
            let asked = request->BlocksByRange_0;
            &&& connected
            &&& peer_id == message.peer_id
            &&& id.0 == message.conn_id
            &&& message.event is Ok
            &&& message.event->Ok_0 is Request
            &&& message.event->Ok_0->Request_0 == id.1
            &&& request is BlocksByRange
            &&& asked.start_slot == range.start_slot
            &&& asked.step == 1 && range.count == asked.count || asked.step > 1 && range.count == 1
        }),
{
}

/// The application is handed a response if and only if a connected peer sent it, or ended its stream,
/// in answer to a request of the application's own, with that request and that peer. Bodies come
/// unchanged, and the end of a stream comes as a response without one.
pub proof fn responses_are_propagated_as_they_come<Id, C, P>(
    connected: bool,
    metadata: MetaData<P>,
    message: RPCMessage<Id, C, P>,
    peer_id: PeerId,
    id: Id,
    body: P,
)
    ensures
        ({
            let event = RPCOutcome::of_message(connected, metadata, message).event;
            let came = |received: RPCReceived<Id, P>|
                connected && peer_id == message.peer_id && message.event == Ok::<
                    _,
                    HandlerErr<Id>,
                >(received);
            let own = RequestId::Application(id);
            let handed = |response: Response<P>|
                event == Some(
                    NetworkEvent::<Id, C, P>::ResponseReceived { peer_id, id, response },
                );
            &&& handed(Response::Status(body)) <==> came(
                RPCReceived::Response(own, RPCResponse::Status(body)),
            )
            &&& handed(Response::BlocksByRange(Some(body))) <==> came(
                RPCReceived::Response(own, RPCResponse::BlocksByRange(body)),
            )
            &&& handed(Response::BlocksByRoot(Some(body))) <==> came(
                RPCReceived::Response(own, RPCResponse::BlocksByRoot(body)),
            )
            &&& handed(Response::LightClientBootstrap(body)) <==> came(
                RPCReceived::Response(own, RPCResponse::LightClientBootstrap(body)),
            )
            &&& handed(Response::BlocksByRange(None)) <==> came(
                RPCReceived::EndOfStream(own, ResponseTermination::BlocksByRange),
            )
            &&& handed(Response::BlocksByRoot(None)) <==> came(
                RPCReceived::EndOfStream(own, ResponseTermination::BlocksByRoot),
            )
        }),
{
}

/// What the application is handed of the RPC protocol is always a failure, a request or a response,
/// and it is handed something only of a connected peer.
pub proof fn only_rpc_events_are_propagated<Id, C, P>(
    connected: bool,
    metadata: MetaData<P>,
    message: RPCMessage<Id, C, P>,
)
    ensures
        ({
            let event = RPCOutcome::of_message(connected, metadata, message).event;
            event is Some ==> {
                &&& connected
                &&& event->0 is RPCFailed || event->0 is RequestReceived || event->0
                    is ResponseReceived
            }
        }),
{
}

/// The service answers a connected peer if and only if the peer pings, with the sequence number of the
/// local metadata and not with the peer's, or asks for metadata, with the local metadata. It answers
/// on the connection and the substream that the request came on, and sends nothing else.
pub proof fn service_answers_pings_and_metadata_alone<Id, C, P>(
    connected: bool,
    metadata: MetaData<P>,
    message: RPCMessage<Id, C, P>,
    peer_id: PeerId,
    id: PeerRequestId<C>,
    response: RPCCodedResponse<P>,
)
    ensures
        RPCOutcome::of_message(connected, metadata, message).command == Some(
            RPCCommand::<Id, C, P>::SendResponse { peer_id, id, response },
        ) <==> {
            &&& connected
            &&& peer_id == message.peer_id
            &&& id.0 == message.conn_id
            &&& message.event is Ok
            &&& message.event->Ok_0 is Request
            &&& message.event->Ok_0->Request_0 == id.1
            &&& {
                ||| message.event->Ok_0->Request_1 is Ping && response == RPCCodedResponse::<
                    P,
                >::Pong(metadata.seq_number)
                ||| message.event->Ok_0->Request_1 is MetaData && response
                    == RPCCodedResponse::MetaData(metadata)
            }
        },
        RPCOutcome::of_message(connected, metadata, message).command is Some ==> RPCOutcome::of_message(
            connected,
            metadata,
            message,
        ).command->0 is SendResponse,
{
}

/// A request is counted if and only if the application is handed it, under the name of its kind.
pub proof fn requests_are_counted_by_their_kind<Id, C, P>(
    connected: bool,
    metadata: MetaData<P>,
    message: RPCMessage<Id, C, P>,
)
    ensures
        ({
            let outcome = RPCOutcome::of_message(connected, metadata, message);
            let handed = outcome.event is Some && outcome.event->0 is RequestReceived;
            let request = outcome.event->0->RequestReceived_request;
            &&& outcome.metric is Some <==> handed
            &&& handed && request is Status ==> outcome.metric == Some(
                Metric::TotalRpcRequests { request: "status" },
            )
            &&& handed && request is BlocksByRange ==> outcome.metric == Some(
                Metric::TotalRpcRequests { request: "blocks_by_range" },
            )
            &&& handed && request is BlocksByRoot ==> outcome.metric == Some(
                Metric::TotalRpcRequests { request: "blocks_by_root" },
            )
            &&& handed && request is LightClientBootstrap ==> outcome.metric == Some(
                Metric::TotalRpcRequests { request: "light_client_bootstrap" },
            )
        }),
{
}

/// Each kind of request that the application can be handed has the name of its kind.
pub proof fn requests_are_named_by_their_kind<P>(request: Request<P>)
    ensures
        request is Status ==> request.label() == "status",
        request is BlocksByRange ==> request.label() == "blocks_by_range",
        request is BlocksByRoot ==> request.label() == "blocks_by_root",
        request is LightClientBootstrap ==> request.label() == "light_client_bootstrap",
{
}

/// A response is handed to the application that asked, and to nobody where the service asked.
pub proof fn responses_go_to_whom_they_were_asked_by<Id, C, P>(
    request_id: RequestId<Id>,
    peer_id: PeerId,
    response: Response<P>,
    id: Id,
)
    ensures
        RPCOutcome::<Id, C, P>::of_response(request_id, peer_id, Some(response)).event == Some(
            NetworkEvent::<Id, C, P>::ResponseReceived { peer_id, id, response },
        ) <==> request_id == RequestId::Application(id),
        RPCOutcome::<Id, C, P>::of_response(request_id, peer_id, Some(response)).event is None
            <==> request_id is Internal,
{
}

} // verus!
