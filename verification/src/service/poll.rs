//! Polling the network service.
//!
//! A poll goes through the events of the swarm until one concerns the application or none is left,
//! then through the ticks of the score update, then through the messages that expired in the
//! gossip cache. Each step says what to poll next, and `Network::poll_network` takes what came of it
//! to the next step.
use crate::peers::{Multiaddr, PeerId};
use crate::service::dial::DialList;
use crate::service::events::{Metric, NetworkEvent};
use crate::service::gossip::{GossipOutcome, GossipsubEvent};
use crate::service::rpc::{MetaData, RPCMessage, RPCOutcome};
use crate::service::Network;
use crate::topics::{GossipKind, GossipTopic};
use vstd::prelude::*;

verus! {

/// An event of one of the protocols.
#[derive(Debug)]
pub enum BehaviourEvent<Id, C, P> {
    Gossipsub(GossipsubEvent<P>),
    Eth2Rpc(RPCMessage<Id, C, P>),
    Pm(Vec<(PeerId, Multiaddr)>),
    /// Relays are not supported yet.
    Relay,
}

/// An event of the swarm.
#[allow(inconsistent_fields)]
#[derive(Debug)]
pub enum SwarmEvent<Id, C, P> {
    Behaviour(BehaviourEvent<Id, C, P>),
    /// A connection to the peer was opened.
    ConnectionEstablished {
        peer_id: PeerId,
        /// Whether we dialed the peer, or the peer dialed us.
        outgoing: bool,
        /// How many connections to the peer there are, with this one.
        num_established: u32,
    },
    /// A connection to the peer was closed.
    ConnectionClosed {
        peer_id: PeerId,
        /// How many other connections to the peer are left.
        num_established: u32,
    },
    IncomingConnection,
    IncomingConnectionError,
    OutgoingConnectionError,
    BannedPeer,
    NewListenAddr(Multiaddr),
    ExpiredListenAddr,
    ListenerClosed,
    ListenerError,
    Dialing,
}

/// What the service needs to know of the node when it deals with an event of the swarm.
#[derive(Debug)]
pub struct NodeStatus<P> {
    /// Whether the peer of an RPC event is connected.
    pub connected: bool,
    /// The local metadata.
    pub metadata: MetaData<P>,
    /// How many listeners the node has.
    pub listeners: usize,
}

/// What becomes of an event of the swarm.
#[derive(Debug)]
pub enum SwarmOutcome<Id, C, P> {
    /// The application is handed the event, where there is one.
    Event(Option<NetworkEvent<Id, C, P>>),
    Gossip(GossipOutcome<Id, C, P>),
    Rpc(RPCOutcome<Id, C, P>),
    /// The peers are to be dialed.
    Dial(DialList),
}

impl<Id, C, P> SwarmEvent<Id, C, P> {
    /// What the application is handed of this event: the first connection to a peer and the loss
    /// of the last one, new listen addresses and the loss of the last listener, and what the
    /// protocols propagate.
    pub open spec fn propagated(self, status: NodeStatus<P>) -> Option<NetworkEvent<Id, C, P>> {
        match self {
            SwarmEvent::Behaviour(BehaviourEvent::Gossipsub(ge)) => GossipOutcome::<
                Id,
                C,
                P,
            >::of_event(ge).event,
            SwarmEvent::Behaviour(BehaviourEvent::Eth2Rpc(re)) => RPCOutcome::of_message(
                status.connected,
                status.metadata,
                re,
            ).event,
            SwarmEvent::ConnectionEstablished { peer_id, outgoing, num_established } => {
                if num_established != 1 {
                    None
                } else if outgoing {
                    Some(NetworkEvent::PeerConnectedOutgoing(peer_id))
                } else {
                    Some(NetworkEvent::PeerConnectedIncoming(peer_id))
                }
            },
            SwarmEvent::ConnectionClosed { peer_id, num_established } => if num_established == 0 {
                Some(NetworkEvent::PeerDisconnected(peer_id))
            } else {
                None
            },
            SwarmEvent::NewListenAddr(address) => Some(NetworkEvent::NewListenAddr(address)),
            SwarmEvent::ListenerClosed | SwarmEvent::ListenerError => if status.listeners == 0 {
                Some(NetworkEvent::ZeroListeners)
            } else {
                None
            },
            _ => None,
        }
    }
}

impl<Id, C, P> SwarmOutcome<Id, C, P> {
    /// The event that the application is handed, where there is one.
    pub open spec fn app_event(self) -> Option<NetworkEvent<Id, C, P>> {
        match self {
            SwarmOutcome::Event(event) => event,
            SwarmOutcome::Gossip(outcome) => outcome.event,
            SwarmOutcome::Rpc(outcome) => outcome.event,
            SwarmOutcome::Dial(_) => None,
        }
    }

    /// What is to be done besides.
    pub open spec fn without_event(self) -> Self {
        match self {
            SwarmOutcome::Event(_) => SwarmOutcome::Event(None),
            SwarmOutcome::Gossip(outcome) => SwarmOutcome::Gossip(
                GossipOutcome { event: None, ..outcome },
            ),
            SwarmOutcome::Rpc(outcome) => SwarmOutcome::Rpc(RPCOutcome { event: None, ..outcome }),
            SwarmOutcome::Dial(list) => SwarmOutcome::Dial(list),
        }
    }

    /// Takes the event for the application out: returns what is to be done besides, and the event.
    pub fn take_event(self) -> (parts: (Self, Option<NetworkEvent<Id, C, P>>))
        ensures
            parts.0 == self.without_event(),
            parts.1 == self.app_event(),
    {
        match self {
            SwarmOutcome::Event(event) => (SwarmOutcome::Event(None), event),
            SwarmOutcome::Gossip(outcome) => {
                let GossipOutcome { reject, add_subscription, remove_subscription, retry, event } =
                    outcome;
                let rest = GossipOutcome {
                    reject,
                    add_subscription,
                    remove_subscription,
                    retry,
                    event: None,
                };
                (SwarmOutcome::Gossip(rest), event)
            },
            SwarmOutcome::Rpc(outcome) => {
                let RPCOutcome { command, metric, event } = outcome;
                (SwarmOutcome::Rpc(RPCOutcome { command, metric, event: None }), event)
            },
            SwarmOutcome::Dial(list) => (SwarmOutcome::Dial(list), None),
        }
    }
}

/// Polls the swarm.
#[derive(Clone, Copy, Debug)]
pub struct PollSwarm;

/// Polls the interval of the score updates.
#[derive(Clone, Copy, Debug)]
pub struct PollScores;

/// Polls the gossip cache.
#[derive(Clone, Copy, Debug)]
pub struct PollCache;

/// A step of a poll of the service.
#[derive(Debug)]
pub enum PollStep<Ev> {
    Swarm(PollSwarm),
    Scores(PollScores),
    Cache(PollCache),
    /// The application is handed the event.
    Ready(Ev),
    /// Nothing is left to do for now.
    Pending,
}

/// What came of a poll of the swarm.
#[derive(Debug)]
pub enum SwarmPoll<Ev> {
    /// An event came and was dealt with; this is what the application is to be handed.
    Handled(Option<Ev>),
    /// No event is there, or none will ever come.
    Idle,
}

/// What came of a poll of the gossip cache.
#[derive(Debug)]
pub enum CachePoll {
    /// A message for the topic expired.
    Expired(GossipTopic),
    /// The cache failed.
    Failed,
    /// No message has expired.
    Idle,
}

/// What came of the step that a poll of the service was at.
#[derive(Debug)]
pub enum PollReply<Ev> {
    /// The poll begins.
    Start,
    /// The swarm was polled.
    Swarm(SwarmPoll<Ev>),
    /// The interval of the score updates was polled: whether it has ticked.
    Scores(bool),
    /// The gossip cache was polled.
    Cache(CachePoll),
}

impl<Ev> PollReply<Ev> {
    /// The step that follows, and the counter to be incremented, where there is one: events of the
    /// swarm come first, then the score updates, then the gossip cache.
    pub open spec fn next(self) -> (PollStep<Ev>, Option<Metric>) {
        match self {
            PollReply::Start => (PollStep::Swarm(PollSwarm), None),
            PollReply::Swarm(reply) => (PollSwarm.after(reply), None),
            PollReply::Scores(ticked) => (PollScores.after(ticked), None),
            PollReply::Cache(reply) => PollCache.after(reply),
        }
    }
}

impl PollSwarm {
    /// The step that follows `reply`.
    pub open spec fn after<Ev>(self, reply: SwarmPoll<Ev>) -> PollStep<Ev> {
        match reply {
            SwarmPoll::Handled(Some(event)) => PollStep::Ready(event),
            SwarmPoll::Handled(None) => PollStep::Swarm(PollSwarm),
            SwarmPoll::Idle => PollStep::Scores(PollScores),
        }
    }

    pub fn answer<Ev>(self, reply: SwarmPoll<Ev>) -> (step: PollStep<Ev>)
        ensures
            step == self.after(reply),
    {
        match reply {
            SwarmPoll::Handled(maybe_event) => {
                if let Some(ev) = maybe_event {
                    return PollStep::Ready(ev);
                }
                PollStep::Swarm(PollSwarm)
            },
            SwarmPoll::Idle => PollStep::Scores(PollScores),
        }
    }
}

impl PollScores {
    /// The step that follows, given whether the interval has ticked.
    pub open spec fn after<Ev>(self, ticked: bool) -> PollStep<Ev> {
        if ticked {
            PollStep::Scores(PollScores)
        } else {
            PollStep::Cache(PollCache)
        }
    }

    pub fn answer<Ev>(self, ticked: bool) -> (step: PollStep<Ev>)
        ensures
            step == self.after::<Ev>(ticked),
    {
        if ticked {
            PollStep::Scores(PollScores)
        } else {
            PollStep::Cache(PollCache)
        }
    }
}

impl PollCache {
    /// The step that follows `reply`, and the counter to be incremented, where there is one.
    pub open spec fn after<Ev>(self, reply: CachePoll) -> (PollStep<Ev>, Option<Metric>) {
        match reply {
            CachePoll::Expired(topic) => (
                PollStep::Cache(PollCache),
                Some(Metric::GossipExpiredLatePublishPerTopicKind { kind: topic.kind }),
            ),
            CachePoll::Failed => (PollStep::Cache(PollCache), None),
            CachePoll::Idle => (PollStep::Pending, None),
        }
    }

    pub fn answer<Ev>(self, reply: CachePoll) -> (next: (PollStep<Ev>, Option<Metric>))
        ensures
            next == self.after::<Ev>(reply),
    {
        match reply {
            CachePoll::Expired(expired_topic) => (
                PollStep::Cache(PollCache),
                Some(Metric::GossipExpiredLatePublishPerTopicKind { kind: expired_topic.kind }),
            ),
            CachePoll::Failed => (PollStep::Cache(PollCache), None),
            CachePoll::Idle => (PollStep::Pending, None),
        }
    }
}

impl Network {
    /// Poll the p2p networking stack.
    ///
    /// This will poll the swarm and do maintenance routines: takes what came of the last step to
    /// the next one, and says which counter is to be incremented, where there is one.
    pub fn poll_network<Ev>(&self, reply: PollReply<Ev>) -> (next: (PollStep<Ev>, Option<Metric>))
        ensures
            next == reply.next(),
    {
        match reply {
            PollReply::Start => (PollStep::Swarm(PollSwarm), None),
            PollReply::Swarm(reply) => (PollSwarm.answer(reply), None),
            PollReply::Scores(ticked) => (PollScores.answer(ticked), None),
            PollReply::Cache(reply) => PollCache.answer(reply),
        }
    }

    /// Deals with an event of the swarm. Events of relays cannot be dealt with.
    pub fn inject_swarm_event<Id, C, P>(
        &self,
        status: NodeStatus<P>,
        event: SwarmEvent<Id, C, P>,
    ) -> (outcome: SwarmOutcome<Id, C, P>)
        requires
            !(event matches SwarmEvent::Behaviour(BehaviourEvent::Relay)),
        ensures
            outcome.app_event() == event.propagated(status),
            match event {
                SwarmEvent::Behaviour(BehaviourEvent::Gossipsub(ge)) => outcome
                    == SwarmOutcome::Gossip(GossipOutcome::<Id, C, P>::of_event(ge)),
                SwarmEvent::Behaviour(BehaviourEvent::Eth2Rpc(re)) => outcome == SwarmOutcome::Rpc(
                    RPCOutcome::of_message(status.connected, status.metadata, re),
                ),
                SwarmEvent::Behaviour(BehaviourEvent::Pm(peers)) => outcome matches
                    SwarmOutcome::Dial(list) && list@ == crate::peers::peer_views(peers@),
                _ => outcome == SwarmOutcome::Event(event.propagated(status)),
            },
    {
        match event {
            SwarmEvent::Behaviour(behaviour_event) => match behaviour_event {
                // Handle sub-behaviour events.
                BehaviourEvent::Gossipsub(ge) => SwarmOutcome::Gossip(self.inject_gs_event(ge)),
                BehaviourEvent::Eth2Rpc(re) => SwarmOutcome::Rpc(
                    self.inject_rpc_event(status.connected, status.metadata, re),
                ),
                BehaviourEvent::Pm(pm) => SwarmOutcome::Dial(self.inject_pm_event(pm)),
                // Callers do not hand over events of relays.
                BehaviourEvent::Relay => SwarmOutcome::Event(None),
            },
            SwarmEvent::NewListenAddr(address) => SwarmOutcome::Event(
                Some(NetworkEvent::NewListenAddr(address)),
            ),
            SwarmEvent::ListenerClosed | SwarmEvent::ListenerError => {
                if status.listeners == 0 {
                    SwarmOutcome::Event(Some(NetworkEvent::ZeroListeners))
                } else {
                    SwarmOutcome::Event(None)
                }
            },
            SwarmEvent::ConnectionEstablished { peer_id, outgoing, num_established } => {
                SwarmOutcome::Event(
                    if num_established != 1 {
                        None
                    } else if outgoing {
                        Some(NetworkEvent::PeerConnectedOutgoing(peer_id))
                    } else {
                        Some(NetworkEvent::PeerConnectedIncoming(peer_id))
                    },
                )
            },
            SwarmEvent::ConnectionClosed { peer_id, num_established } => SwarmOutcome::Event(
                if num_established == 0 {
                    Some(NetworkEvent::PeerDisconnected(peer_id))
                } else {
                    None
                },
            ),
            SwarmEvent::IncomingConnection
            | SwarmEvent::IncomingConnectionError
            | SwarmEvent::OutgoingConnectionError
            | SwarmEvent::BannedPeer
            | SwarmEvent::ExpiredListenAddr
            | SwarmEvent::Dialing => SwarmOutcome::Event(None),
        }
    }
}

/// The poll that meets the end of the last connection to a peer hands the application the
/// disconnection of that peer.
pub proof fn disconnection_is_relayed<Id, C, P>(status: NodeStatus<P>, peer_id: PeerId)
    ensures
        ({
            let closed = SwarmEvent::<Id, C, P>::ConnectionClosed { peer_id, num_established: 0 };
            PollReply::Swarm(SwarmPoll::Handled(closed.propagated(status))).next() == (
                PollStep::Ready(NetworkEvent::<Id, C, P>::PeerDisconnected(peer_id)),
                None::<Metric>,
            )
        }),
{
}

/// The application is told that a peer has come once per peer, with its first connection, and that
/// it has gone once, with its last one: the connections in between go unseen.
pub proof fn peers_come_and_go_once<Id, C, P>(
    status: NodeStatus<P>,
    peer_id: PeerId,
    outgoing: bool,
    num_established: u32,
)
    ensures
        ({
            let opened = SwarmEvent::<Id, C, P>::ConnectionEstablished {
                peer_id,
                outgoing,
                num_established,
            };
            let closed = SwarmEvent::<Id, C, P>::ConnectionClosed { peer_id, num_established };
            &&& opened.propagated(status) is Some <==> num_established == 1
            &&& closed.propagated(status) is Some <==> num_established == 0
            &&& opened.propagated(status) matches Some(event) ==> event == if outgoing {
                NetworkEvent::<Id, C, P>::PeerConnectedOutgoing(peer_id)
            } else {
                NetworkEvent::<Id, C, P>::PeerConnectedIncoming(peer_id)
            }
            &&& closed.propagated(status) matches Some(event) ==> event == NetworkEvent::<
                Id,
                C,
                P,
            >::PeerDisconnected(peer_id)
        }),
{
}

/// What there is to poll: the events of the swarm, each with what the service knows of the node when
/// it deals with it, how often the interval has ticked, and what the gossip cache tells.
#[verifier::ext_equal]
pub struct PollWorld<Id, C, P> {
    pub events: Seq<(NodeStatus<P>, SwarmEvent<Id, C, P>)>,
    pub ticks: nat,
    pub cache: Seq<CachePoll>,
}

/// Where a poll ends: at which step, with what left to poll, and with which counters incremented.
#[verifier::ext_equal]
pub struct PollEnd<Id, C, P> {
    pub step: PollStep<NetworkEvent<Id, C, P>>,
    pub left: PollWorld<Id, C, P>,
    pub metrics: Seq<Metric>,
}

impl<Id, C, P> PollEnd<Id, C, P> {
    /// The end of a poll of `world` that hands the application the event at position `i`: the later
    /// events, the interval and the gossip cache are left as they are.
    pub open spec fn at_event(world: PollWorld<Id, C, P>, i: int) -> Self {
        PollEnd {
            step: PollStep::Ready(world.propagated(i)->0),
            left: PollWorld { events: world.events.skip(i + 1), ..world },
            metrics: Seq::empty(),
        }
    }

    /// The end of a poll of `world` that has gone through everything: nothing is left, and every
    /// message that expired was counted.
    pub open spec fn drained(world: PollWorld<Id, C, P>) -> Self {
        PollEnd {
            step: PollStep::Pending,
            left: PollWorld { events: Seq::empty(), ticks: 0, cache: Seq::empty() },
            metrics: expired_metrics(world.cache),
        }
    }
}

impl<Id, C, P> PollWorld<Id, C, P> {
    /// What the application is handed of the event at position `i`.
    pub open spec fn propagated(self, i: int) -> Option<NetworkEvent<Id, C, P>> {
        self.events[i].1.propagated(self.events[i].0)
    }

    /// Whether the event at position `i` is the first that concerns the application.
    pub open spec fn is_first(self, i: int) -> bool {
        &&& 0 <= i < self.events.len()
        &&& self.propagated(i) is Some
        &&& forall|j: int| 0 <= j < i ==> #[trigger] self.propagated(j) is None
    }

    /// Whether no event concerns the application.
    pub open spec fn is_quiet(self) -> bool {
        forall|i: int| 0 <= i < self.events.len() ==> #[trigger] self.propagated(i) is None
    }

    /// Whether every event can be dealt with, and the cache tells of something each time.
    pub open spec fn is_valid(self) -> bool {
        &&& forall|i: int|
            0 <= i < self.events.len() ==> !((#[trigger] self.events[i]).1 matches
                SwarmEvent::Behaviour(BehaviourEvent::Relay))
        &&& forall|i: int| 0 <= i < self.cache.len() ==> !((#[trigger] self.cache[i]) is Idle)
    }

    /// What comes of polling what `step` asks for, and what is left then.
    pub open spec fn polled(self, step: PollStep<NetworkEvent<Id, C, P>>) -> (
        PollReply<NetworkEvent<Id, C, P>>,
        Self,
    ) {
        match step {
            PollStep::Swarm(_) => if self.events.len() == 0 {
                (PollReply::Swarm(SwarmPoll::Idle), self)
            } else {
                (
                    PollReply::Swarm(SwarmPoll::Handled(self.propagated(0))),
                    PollWorld { events: self.events.skip(1), ..self },
                )
            },
            PollStep::Scores(_) => if self.ticks == 0 {
                (PollReply::Scores(false), self)
            } else {
                (PollReply::Scores(true), PollWorld { ticks: (self.ticks - 1) as nat, ..self })
            },
            PollStep::Cache(_) => if self.cache.len() == 0 {
                (PollReply::Cache(CachePoll::Idle), self)
            } else {
                (
                    PollReply::Cache(self.cache[0]),
                    PollWorld { cache: self.cache.skip(1), ..self },
                )
            },
            _ => (PollReply::Start, self),
        }
    }
}

/// Where a poll at `step` ends.
pub open spec fn run_poll<Id, C, P>(
    step: PollStep<NetworkEvent<Id, C, P>>,
    world: PollWorld<Id, C, P>,
) -> PollEnd<Id, C, P>
    decreases
            world.events.len() + world.ticks + world.cache.len(),
            (match step {
                PollStep::Swarm(_) => 3int,
                PollStep::Scores(_) => 2int,
                PollStep::Cache(_) => 1int,
                _ => 0int,
            }),
{
    if step is Ready || step is Pending {
        PollEnd { step, left: world, metrics: Seq::empty() }
    } else {
        let (reply, left) = world.polled(step);
        let (next, metric) = reply.next();
        let end = run_poll(next, left);
        let counted = match metric {
            Some(m) => seq![m],
            None => Seq::empty(),
        };
        PollEnd { metrics: counted + end.metrics, ..end }
    }
}

/// The test for replies that tell of an expired message.
pub open spec fn has_expired() -> spec_fn(CachePoll) -> bool {
    |reply: CachePoll| reply is Expired
}

/// The counter for a message that expired.
pub open spec fn expired_metric(reply: CachePoll) -> Metric {
    Metric::GossipExpiredLatePublishPerTopicKind { kind: reply->Expired_0.kind }
}

/// The counters for the messages that expired, in their order.
pub open spec fn expired_metrics(replies: Seq<CachePoll>) -> Seq<Metric> {
    replies.filter(has_expired()).map_values(|reply: CachePoll| expired_metric(reply))
}

/// A poll that has come to the gossip cache drains it: it counts every message that expired, once,
/// under the kind of its topic, and nothing else, and no failure of the cache ends it.
pub proof fn cache_is_drained<Id, C, P>(world: PollWorld<Id, C, P>)
    requires
        world.is_valid(),
    ensures
        run_poll(PollStep::Cache(PollCache), world) == (PollEnd {
            step: PollStep::Pending,
            left: PollWorld { cache: Seq::empty(), ..world },
            metrics: expired_metrics(world.cache),
        }),
    decreases world.cache.len(),
{
    reveal_with_fuel(run_poll, 2);
    let cache = world.cache;
    if cache.len() == 0 {
        crate::seqs::filter_none(cache, has_expired());
        assert(expired_metrics(cache) =~= Seq::empty());
    } else {
        let left = PollWorld { cache: cache.skip(1), ..world };
        assert forall|i: int| 0 <= i < left.cache.len() implies !((#[trigger] left.cache[i])
            is Idle) by {
            assert(left.cache[i] == cache[i + 1]);
        }
        cache_is_drained(left);
        assert(!(cache[0] is Idle));
        crate::seqs::filter_first(cache, has_expired());
        assert(cache.drop_first() =~= left.cache);
        if cache[0] is Expired {
            assert(expired_metrics(cache) =~= seq![expired_metric(cache[0])] + expired_metrics(
                left.cache,
            ));
        } else {
            assert(expired_metrics(cache) =~= Seq::empty() + expired_metrics(left.cache));
        }
    }
}

/// A poll that has come to the score updates goes through every tick of the interval and then
/// drains the gossip cache.
pub proof fn ticks_are_drained<Id, C, P>(world: PollWorld<Id, C, P>)
    requires
        world.is_valid(),
    ensures
        run_poll(PollStep::Scores(PollScores), world) == (PollEnd {
            step: PollStep::Pending,
            left: PollWorld { ticks: 0, cache: Seq::empty(), ..world },
            metrics: expired_metrics(world.cache),
        }),
    decreases world.ticks,
{
    if world.ticks == 0 {
        cache_is_drained(world);
    } else {
        ticks_are_drained(PollWorld { ticks: (world.ticks - 1) as nat, ..world });
    }
    assert(Seq::empty() + expired_metrics(world.cache) =~= expired_metrics(world.cache));
}

/// A poll that meets an event for the application hands it the first such event, and leaves the
/// later events, the interval and the gossip cache for the next poll.
proof fn poll_ends_with_the_first_event<Id, C, P>(world: PollWorld<Id, C, P>, i: int)
    requires
        world.is_first(i),
    ensures
        run_poll(PollStep::Swarm(PollSwarm), world) == PollEnd::at_event(world, i),
    decreases i,
{
    reveal_with_fuel(run_poll, 2);
    let left = PollWorld { events: world.events.skip(1), ..world };
    if i == 0 {
        assert(Seq::<Metric>::empty() + Seq::empty() =~= Seq::empty());
    } else {
        assert(world.propagated(0) is None);
        assert forall|j: int| 0 <= j < left.events.len() implies left.propagated(j)
            == world.propagated(j + 1) by {
            assert(left.events[j] == world.events[j + 1]);
        }
        assert(left.is_first(i - 1)) by {
            assert forall|j: int| 0 <= j < i - 1 implies #[trigger] left.propagated(j) is None by {
                assert(world.propagated(j + 1) is None);
            }
        }
        poll_ends_with_the_first_event(left, i - 1);
        assert(left.events.skip(i) =~= world.events.skip(i + 1));
        assert(Seq::<Metric>::empty() + Seq::empty() =~= Seq::empty());
    }
}

/// A poll that meets no event for the application goes through everything there is.
proof fn quiet_poll_drains_everything<Id, C, P>(world: PollWorld<Id, C, P>)
    requires
        world.is_valid(),
        world.is_quiet(),
    ensures
        run_poll(PollStep::Swarm(PollSwarm), world) == PollEnd::drained(world),
    decreases world.events.len(),
{
    if world.events.len() == 0 {
        ticks_are_drained(world);
        assert(world.events =~= Seq::empty());
    } else {
        let left = PollWorld { events: world.events.skip(1), ..world };
        assert(world.propagated(0) is None);
        assert forall|j: int| 0 <= j < left.events.len() implies !((
        #[trigger] left.events[j]).1 matches SwarmEvent::Behaviour(BehaviourEvent::Relay))
            && left.propagated(j) is None by {
            assert(left.events[j] == world.events[j + 1]);
            assert(world.propagated(j + 1) is None);
        }
        assert(left.is_quiet()) by {
            assert forall|j: int| 0 <= j < left.events.len() implies #[trigger] left.propagated(j)
                is None by {
                assert(left.events[j] == world.events[j + 1]);
            }
        }
        quiet_poll_drains_everything(left);
    }
    assert(Seq::empty() + expired_metrics(world.cache) =~= expired_metrics(world.cache));
}

/// Where some event concerns the application, there is a first one.
proof fn first_event<Id, C, P>(world: PollWorld<Id, C, P>, i: int) -> (first: int)
    requires
        0 <= i < world.events.len(),
        world.propagated(i) is Some,
    ensures
        world.is_first(first),
    decreases i,
{
    if exists|j: int| 0 <= j < i && #[trigger] world.propagated(j) is Some {
        let j = choose|j: int| 0 <= j < i && #[trigger] world.propagated(j) is Some;
        first_event(world, j)
    } else {
        i
    }
}

/// A poll is ready with the first event of the swarm that concerns the application; the later events,
/// the interval and the gossip cache wait for the next poll. It is pending if and only if no event
/// concerns the application, and then every event, every tick and the whole cache were gone
/// through, and every message that expired was counted once.
pub proof fn poll_yields_the_first_event_or_drains_everything<Id, C, P>(
    world: PollWorld<Id, C, P>,
)
    requires
        world.is_valid(),
    ensures
        ({
            let end = run_poll(PollReply::<NetworkEvent<Id, C, P>>::Start.next().0, world);
            &&& end.step is Pending <==> world.is_quiet()
            &&& world.is_quiet() ==> end == PollEnd::drained(world)
            &&& !world.is_quiet() ==> exists|i: int| #[trigger] world.is_first(i)
            &&& forall|i: int| #[trigger]
                world.is_first(i) ==> end == PollEnd::at_event(world, i)
        }),
{
    assert forall|i: int| #[trigger] world.is_first(i) implies run_poll(
        PollStep::Swarm(PollSwarm),
        world,
    ) == PollEnd::at_event(world, i) by {
        poll_ends_with_the_first_event(world, i);
    }
    if world.is_quiet() {
        quiet_poll_drains_everything(world);
    } else {
        let i = choose|i: int|
            0 <= i < world.events.len() && !(#[trigger] world.propagated(i) is None);
        let first = first_event(world, i);
        assert(world.is_first(first));
    }
}

/// The application is told that no listener is left if and only if a listener was closed or failed and
/// the node has none.
pub proof fn loss_of_the_last_listener_is_told<Id, C, P>(
    status: NodeStatus<P>,
    event: SwarmEvent<Id, C, P>,
)
    ensures
        event.propagated(status) == Some(NetworkEvent::<Id, C, P>::ZeroListeners) <==> {
            &&& event is ListenerClosed || event is ListenerError
            &&& status.listeners == 0
        },
        event is ListenerClosed || event is ListenerError ==> (event.propagated(status) is Some
            <==> status.listeners == 0),
{
}

/// The application is told that a peer has come if and only if the first connection to it was opened,
/// by the direction of that connection, and that it has gone if and only if the last one was closed.
pub proof fn peers_are_told_by_their_connections<Id, C, P>(
    status: NodeStatus<P>,
    event: SwarmEvent<Id, C, P>,
    peer_id: PeerId,
)
    ensures
        event.propagated(status) == Some(NetworkEvent::<Id, C, P>::PeerConnectedOutgoing(peer_id))
            <==> event == (SwarmEvent::<Id, C, P>::ConnectionEstablished {
            peer_id,
            outgoing: true,
            num_established: 1,
        }),
        event.propagated(status) == Some(NetworkEvent::<Id, C, P>::PeerConnectedIncoming(peer_id))
            <==> event == (SwarmEvent::<Id, C, P>::ConnectionEstablished {
            peer_id,
            outgoing: false,
            num_established: 1,
        }),
        event.propagated(status) == Some(NetworkEvent::<Id, C, P>::PeerDisconnected(peer_id))
            <==> event == (SwarmEvent::<Id, C, P>::ConnectionClosed { peer_id, num_established: 0 }),
{
}

/// The application is told of an address if and only if the node listens on it anew.
pub proof fn new_addresses_are_told<Id, C, P>(
    status: NodeStatus<P>,
    event: SwarmEvent<Id, C, P>,
    address: Multiaddr,
)
    ensures
        event.propagated(status) == Some(NetworkEvent::<Id, C, P>::NewListenAddr(address))
            <==> event == SwarmEvent::<Id, C, P>::NewListenAddr(address),
{
}

/// What the gossip and the RPC protocols have for the application reaches it unchanged, and other
/// events of the swarm never give it such events, nor any that it is not told of at all.
pub proof fn events_of_the_protocols_reach_the_application<Id, C, P>(
    status: NodeStatus<P>,
    event: SwarmEvent<Id, C, P>,
)
    ensures
        event matches SwarmEvent::Behaviour(BehaviourEvent::Gossipsub(ge)) ==> event.propagated(
            status,
        ) == GossipOutcome::<Id, C, P>::of_event(ge).event,
        event matches SwarmEvent::Behaviour(BehaviourEvent::Eth2Rpc(re)) ==> event.propagated(
            status,
        ) == RPCOutcome::of_message(status.connected, status.metadata, re).event,
        event matches SwarmEvent::Behaviour(BehaviourEvent::Pm(_)) ==> event.propagated(status)
            is None,
        event.propagated(status) is Some ==> {
            let handed = event.propagated(status)->0;
            &&& !(handed is PeerBanned || handed is PeerUnbanned || handed is StatusPeer)
            &&& handed is PubsubMessage ==> (event matches SwarmEvent::Behaviour(
                BehaviourEvent::Gossipsub(_),
            ))
            &&& handed is RPCFailed || handed is RequestReceived || handed is ResponseReceived ==> (
            event matches SwarmEvent::Behaviour(BehaviourEvent::Eth2Rpc(_)))
        },
{
}

/// Most events of the swarm do not concern the application.
pub proof fn other_events_are_not_told<Id, C, P>(
    status: NodeStatus<P>,
    event: SwarmEvent<Id, C, P>,
)
    requires
        event is IncomingConnection || event is IncomingConnectionError || event
            is OutgoingConnectionError || event is BannedPeer || event is ExpiredListenAddr || event
            is Dialing,
    ensures
        event.propagated(status) is None,
{
}

/// An outcome parts into the event for the application and the rest: the rest has no event and is in
/// all else the outcome itself, and the event is the one that the outcome held.
pub proof fn outcomes_part_into_event_and_rest<Id, C, P>(
    outcome: SwarmOutcome<Id, C, P>,
    event: NetworkEvent<Id, C, P>,
)
    ensures
        outcome.without_event().app_event() is None,
        outcome is Event ==> outcome.without_event() is Event && outcome.app_event()
            == outcome->Event_0,
        outcome is Gossip ==> ({
            let rest = outcome.without_event();
            &&& rest is Gossip
            &&& rest->Gossip_0.reject == outcome->Gossip_0.reject
            &&& rest->Gossip_0.add_subscription == outcome->Gossip_0.add_subscription
            &&& rest->Gossip_0.remove_subscription == outcome->Gossip_0.remove_subscription
            &&& rest->Gossip_0.retry == outcome->Gossip_0.retry
            &&& outcome.app_event() == outcome->Gossip_0.event
        }),
        outcome is Rpc ==> ({
            let rest = outcome.without_event();
            &&& rest is Rpc
            &&& rest->Rpc_0.command == outcome->Rpc_0.command
            &&& rest->Rpc_0.metric == outcome->Rpc_0.metric
            &&& outcome.app_event() == outcome->Rpc_0.event
        }),
        outcome is Dial ==> outcome.without_event() == outcome && outcome.app_event() is None,
{
}

/// A poll is ready with an event if and only if the swarm has just given that event, and pending if
/// and only if the gossip cache has just had nothing. It polls the swarm at its start and after an
/// event that does not concern the application, the interval once the swarm has nothing and after
/// each tick, and the cache once the interval has not ticked and after all that the cache tells.
pub proof fn each_reply_leads_to_one_step<Ev>(reply: PollReply<Ev>, event: Ev)
    ensures
        reply.next().0 == PollStep::Ready(event) <==> reply == PollReply::Swarm(
            SwarmPoll::Handled(Some(event)),
        ),
        reply.next().0 is Pending <==> (reply matches PollReply::Cache(CachePoll::Idle)),
        reply.next().0 is Swarm <==> reply is Start || (reply matches PollReply::Swarm(
            SwarmPoll::Handled(None),
        )),
        reply.next().0 is Scores <==> (reply matches PollReply::Swarm(SwarmPoll::Idle)) || reply
            == PollReply::<Ev>::Scores(true),
        reply.next().0 is Cache <==> reply == PollReply::<Ev>::Scores(false) || (reply
            matches PollReply::Cache(CachePoll::Failed)) || (reply matches PollReply::Cache(
            CachePoll::Expired(_),
        )),
{
}

/// A counter is incremented if and only if the gossip cache tells that a message has expired, under the
/// kind of the topic of that message.
pub proof fn expired_messages_alone_are_counted<Ev>(reply: PollReply<Ev>, kind: GossipKind)
    ensures
        reply.next().1 == Some(Metric::GossipExpiredLatePublishPerTopicKind { kind }) <==> (
        reply matches PollReply::Cache(CachePoll::Expired(topic)) && topic.kind == kind),
        reply.next().1 is Some <==> (reply matches PollReply::Cache(CachePoll::Expired(_))),
{
}

/// The steps by themselves go on as the poll does.
pub proof fn steps_go_on_as_the_poll_does<Ev>(
    swarm: SwarmPoll<Ev>,
    ticked: bool,
    cache: CachePoll,
    event: Ev,
)
    ensures
        PollSwarm.after(swarm) == PollStep::Ready(event) <==> swarm == SwarmPoll::Handled(
            Some(event),
        ),
        PollSwarm.after(swarm) is Swarm <==> (swarm matches SwarmPoll::Handled(None)),
        PollSwarm.after(swarm) is Scores <==> swarm is Idle,
        PollScores.after::<Ev>(ticked) is Scores <==> ticked,
        PollScores.after::<Ev>(ticked) is Cache <==> !ticked,
        PollCache.after::<Ev>(cache).0 is Pending <==> cache is Idle,
        PollCache.after::<Ev>(cache).0 is Cache <==> !(cache is Idle),
        PollCache.after::<Ev>(cache).1 is Some <==> cache is Expired,
        cache is Expired ==> PollCache.after::<Ev>(cache).1 == Some(
            Metric::GossipExpiredLatePublishPerTopicKind { kind: cache->Expired_0.kind },
        ),
{
}

} // verus!
