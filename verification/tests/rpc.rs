use lighthouse_nym::peers::{Multiaddr, PeerId};
use lighthouse_nym::service::events::{
    Metric, NetworkEvent, OldBlocksByRangeRequest, Request, RequestId, Response, SubstreamId,
};
use lighthouse_nym::service::rpc::{
    HandlerErr, InboundRequest, MetaData, OutboundRequest, RPCCodedResponse, RPCCommand,
    RPCMessage, RPCOutcome, RPCReceived, RPCResponse, ResponseTermination,
};
use lighthouse_nym::service::{EnrForkId, Network};
use lighthouse_nym::slot::Slot;

type Id = u32;
type Conn = &'static str;
type Body = &'static str;
type Outcome = RPCOutcome<Id, Conn, Body>;
type Command = RPCCommand<Id, Conn, Body>;

fn node() -> Network {
    let address = Multiaddr { bytes: vec![1] };
    let local_peer_id = PeerId { bytes: vec![2] };
    Network::new(address, local_peer_id, EnrForkId { fork_digest: [0; 4] })
}

fn peer() -> PeerId {
    PeerId { bytes: vec![9] }
}

fn inject(connected: bool, event: Result<RPCReceived<Id, Body>, HandlerErr<Id>>) -> Outcome {
    let metadata = MetaData { seq_number: 77, body: "local metadata" };
    let message = RPCMessage { peer_id: peer(), conn_id: "conn", event };
    node().inject_rpc_event(connected, metadata, message)
}

fn request(request: InboundRequest<Body>) -> Outcome {
    inject(true, Ok(RPCReceived::Request(SubstreamId(4), request)))
}

fn response(id: RequestId<Id>, response: RPCResponse<Body>) -> Outcome {
    inject(true, Ok(RPCReceived::Response(id, response)))
}

fn is_nothing(outcome: &Outcome) -> bool {
    outcome.command.is_none() && outcome.metric.is_none() && outcome.event.is_none()
}

/// The request that the application is handed, with its label; the rest is checked.
fn propagated(outcome: Outcome) -> (Request<Body>, &'static str) {
    assert!(outcome.command.is_none());
    let label = match outcome.metric {
        Some(Metric::TotalRpcRequests { request }) => request,
        other => panic!("{:?}", other),
    };
    match outcome.event {
        Some(NetworkEvent::RequestReceived { peer_id, id, request }) => {
            assert!(peer_id.same(&peer()));
            assert_eq!(id, ("conn", SubstreamId(4)));
            (request, label)
        }
        other => panic!("{:?}", other),
    }
}

/// The response that the application is handed, with the identifier of its request.
fn received(outcome: Outcome) -> (Id, Response<Body>) {
    assert!(outcome.command.is_none() && outcome.metric.is_none());
    match outcome.event {
        Some(NetworkEvent::ResponseReceived { peer_id, id, response }) => {
            assert!(peer_id.same(&peer()));
            (id, response)
        }
        other => panic!("{:?}", other),
    }
}

fn range(count: u64, step: u64) -> InboundRequest<Body> {
    InboundRequest::BlocksByRange(OldBlocksByRangeRequest { start_slot: Slot(40), count, step })
}

#[test]
fn events_of_disconnected_peers_are_ignored() {
    let ping = Ok(RPCReceived::Request(SubstreamId(4), InboundRequest::Ping(3)));
    assert!(is_nothing(&inject(false, ping)));
    let failed = Err(HandlerErr::Outbound { id: RequestId::Application(1) });
    assert!(is_nothing(&inject(false, failed)));
}

#[test]
fn ping_is_answered_with_the_local_sequence_number() {
    let outcome = request(InboundRequest::Ping(3));
    assert!(outcome.event.is_none() && outcome.metric.is_none());
    match outcome.command {
        Some(RPCCommand::SendResponse { peer_id, id, response: RPCCodedResponse::Pong(n) }) => {
            assert!(peer_id.same(&peer()));
            assert_eq!(id, ("conn", SubstreamId(4)));
            assert_eq!(n, 77);
        }
        other => panic!("{:?}", other),
    }
}

#[test]
fn metadata_is_sent_on_request() {
    let outcome = request(InboundRequest::MetaData);
    assert!(outcome.event.is_none() && outcome.metric.is_none());
    match outcome.command {
        Some(RPCCommand::SendResponse { peer_id, id, response: RPCCodedResponse::MetaData(m) }) => {
            assert!(peer_id.same(&peer()));
            assert_eq!(id, ("conn", SubstreamId(4)));
            assert_eq!((m.seq_number, m.body), (77, "local metadata"));
        }
        other => panic!("{:?}", other),
    }
}

#[test]
fn goodbye_goes_no_further() {
    assert!(is_nothing(&request(InboundRequest::Goodbye("bye"))));
}

#[test]
fn requests_are_propagated_and_counted() {
    assert!(matches!(
        propagated(request(InboundRequest::Status("status body"))),
        (Request::Status("status body"), "status")
    ));
    assert!(matches!(
        propagated(request(InboundRequest::BlocksByRoot("roots"))),
        (Request::BlocksByRoot("roots"), "blocks_by_root")
    ));
    assert!(matches!(
        propagated(request(InboundRequest::LightClientBootstrap("root"))),
        (Request::LightClientBootstrap("root"), "light_client_bootstrap")
    ));
}

#[test]
fn block_ranges_with_a_step_are_cut_down_to_one_block() {
    for (count, step, expected) in [(10, 1, 10), (0, 1, 0), (10, 2, 1), (10, u64::MAX, 1), (0, 2, 1)] {
        match propagated(request(range(count, step))) {
            (Request::BlocksByRange(r), label) => {
                assert_eq!((r.start_slot, r.count), (Slot(40), expected));
                assert_eq!(label, "blocks_by_range");
            }
            other => panic!("{:?}", other),
        }
    }
}

#[test]
fn block_range_without_a_step_is_dropped() {
    assert!(is_nothing(&request(range(10, 0))));
}

#[test]
fn responses_to_the_application_are_propagated() {
    let id = || RequestId::Application(8);
    assert!(matches!(
        received(response(id(), RPCResponse::Status("s"))),
        (8, Response::Status("s"))
    ));
    assert!(matches!(
        received(response(id(), RPCResponse::BlocksByRange("b"))),
        (8, Response::BlocksByRange(Some("b")))
    ));
    assert!(matches!(
        received(response(id(), RPCResponse::BlocksByRoot("b"))),
        (8, Response::BlocksByRoot(Some("b")))
    ));
    assert!(matches!(
        received(response(id(), RPCResponse::LightClientBootstrap("l"))),
        (8, Response::LightClientBootstrap("l"))
    ));
}

#[test]
fn pongs_and_metadata_go_no_further() {
    assert!(is_nothing(&response(RequestId::Application(8), RPCResponse::Pong(1))));
    assert!(is_nothing(&response(RequestId::Application(8), RPCResponse::MetaData("m"))));
}

#[test]
fn ends_of_streams_are_propagated() {
    let end = |termination| {
        inject(true, Ok(RPCReceived::EndOfStream(RequestId::Application(8), termination)))
    };
    assert!(matches!(
        received(end(ResponseTermination::BlocksByRange)),
        (8, Response::BlocksByRange(None))
    ));
    assert!(matches!(
        received(end(ResponseTermination::BlocksByRoot)),
        (8, Response::BlocksByRoot(None))
    ));
}

#[test]
fn failures_of_the_applications_requests_are_propagated() {
    let outcome = inject(true, Err(HandlerErr::Outbound { id: RequestId::Application(8) }));
    assert!(outcome.command.is_none() && outcome.metric.is_none());
    match outcome.event {
        Some(NetworkEvent::RPCFailed { id, peer_id }) => {
            assert_eq!(id, 8);
            assert!(peer_id.same(&peer()));
        }
        other => panic!("{:?}", other),
    }
    assert!(is_nothing(&inject(true, Err(HandlerErr::Inbound { id: SubstreamId(1) }))));
}

#[test]
fn what_concerns_internal_requests_goes_no_further() {
    assert!(is_nothing(&response(RequestId::Internal, RPCResponse::Status("s"))));
    assert!(is_nothing(&inject(true, Err(HandlerErr::Outbound { id: RequestId::Internal }))));
    let end = RPCReceived::EndOfStream(RequestId::Internal, ResponseTermination::BlocksByRoot);
    assert!(is_nothing(&inject(true, Ok(end))));
}

#[test]
fn requests_are_sent() {
    let node = node();
    let command: Command = node.send_request(peer(), 5, Request::Status("s"));
    match command {
        RPCCommand::SendRequest { peer_id, id: RequestId::Application(id), request } => {
            assert!(peer_id.same(&peer()));
            assert_eq!(id, 5);
            assert!(matches!(request, OutboundRequest::Application(Request::Status("s"))));
        }
        other => panic!("{:?}", other),
    }
    let command: Command = node.ping(peer(), 6);
    assert!(matches!(
        command,
        RPCCommand::SendRequest { id: RequestId::Internal, request: OutboundRequest::Ping(6), .. }
    ));
    let command: Command = node.send_meta_data_request(peer());
    assert!(matches!(
        command,
        RPCCommand::SendRequest { id: RequestId::Internal, request: OutboundRequest::MetaData, .. }
    ));
}

#[test]
fn responses_are_sent() {
    let node = node();
    let id = || ("conn", SubstreamId(2));
    let command: Command = node.send_response(peer(), id(), Response::BlocksByRoot(None));
    match command {
        RPCCommand::SendResponse { peer_id, id, response } => {
            assert!(peer_id.same(&peer()));
            assert_eq!(id, ("conn", SubstreamId(2)));
            assert!(matches!(
                response,
                RPCCodedResponse::Application(Response::BlocksByRoot(None))
            ));
        }
        other => panic!("{:?}", other),
    }
    let command: Command = node.send_error_reponse(peer(), id(), 3, "busy".to_string());
    match command {
        RPCCommand::SendResponse { response: RPCCodedResponse::Error(code, reason), .. } => {
            assert_eq!((code, reason.as_str()), (3, "busy"));
        }
        other => panic!("{:?}", other),
    }
    let command: Command = node.pong(id(), peer(), 6);
    assert!(matches!(command, RPCCommand::SendResponse { response: RPCCodedResponse::Pong(6), .. }));
    let metadata = MetaData { seq_number: 9, body: "metadata" };
    let command: Command = node.send_meta_data_response(id(), peer(), metadata);
    assert!(matches!(
        command,
        RPCCommand::SendResponse {
            response: RPCCodedResponse::MetaData(MetaData { seq_number: 9, body: "metadata" }),
            ..
        }
    ));
}

#[test]
fn responses_are_built_for_the_application_alone() {
    let node = node();
    let built: Option<NetworkEvent<Id, Conn, Body>> =
        node.build_response(RequestId::Application(1), peer(), Response::Status("s"));
    assert!(matches!(built, Some(NetworkEvent::ResponseReceived { id: 1, .. })));
    let built: Option<NetworkEvent<Id, Conn, Body>> =
        node.build_response(RequestId::Internal, peer(), Response::Status("s"));
    assert!(built.is_none());
    let outcome: Outcome =
        node.build_request(("conn", SubstreamId(4)), peer(), Request::Status("s"));
    assert!(matches!(propagated(outcome), (Request::Status("s"), "status")));
}
