//! The topics that the node is subscribed to.
use crate::peers::Multiaddr;
use crate::service::Network;
use crate::topics::{same_digest, GossipEncoding, GossipKind, GossipTopic};
use vstd::prelude::*;

verus! {

/// What the gossip protocol is to do.
#[derive(Clone, Copy, Debug)]
pub enum GossipsubCommand {
    Subscribe(GossipTopic),
    Unsubscribe(GossipTopic),
}

impl GossipsubCommand {
    /// What the caller of `subscribe` or `unsubscribe` is told: a subscription succeeds unless
    /// the protocol fails, and the end of one succeeds if the protocol says so. `reply` is what
    /// the protocol returned.
    pub fn outcome<F>(&self, reply: Result<bool, F>) -> (success: bool)
        ensures
            success == (match (*self, reply) {
                (_, Err(_)) => false,
                (GossipsubCommand::Subscribe(_), Ok(_)) => true,
                (GossipsubCommand::Unsubscribe(_), Ok(v)) => v,
            }),
    {
        match reply {
            Err(_) => false,
            Ok(v) => match self {
                GossipsubCommand::Subscribe(_) => true,
                GossipsubCommand::Unsubscribe(_) => v,
            },
        }
    }
}

/// The commands that subscribe to each of the topics, in their order.
pub open spec fn subscribe_each(topics: Seq<GossipTopic>) -> Seq<GossipsubCommand> {
    topics.map_values(|t: GossipTopic| GossipsubCommand::Subscribe(t))
}

/// The commands that unsubscribe from each of the topics, in their order.
pub open spec fn unsubscribe_each(topics: Seq<GossipTopic>) -> Seq<GossipsubCommand> {
    topics.map_values(|t: GossipTopic| GossipsubCommand::Unsubscribe(t))
}

/// The topics of the kinds for the fork with digest `fork_digest`, in the default encoding.
pub open spec fn topics_of(kinds: Seq<GossipKind>, fork_digest: [u8; 4]) -> Seq<GossipTopic> {
    kinds.map_values(|k: GossipKind| GossipTopic::of_kind(k, fork_digest))
}

/// The topics, each for the fork with digest `fork_digest`.
pub open spec fn moved_to_fork(topics: Seq<GossipTopic>, fork_digest: [u8; 4]) -> Seq<GossipTopic> {
    topics.map_values(|t: GossipTopic| t.on_fork(fork_digest))
}

/// The topics that are required for a new fork: those there are, and the core topics of the fork.
pub open spec fn new_fork_topics(
    topics: Seq<GossipTopic>,
    core: Seq<GossipKind>,
    fork_digest: [u8; 4],
) -> Seq<GossipTopic> {
    moved_to_fork(topics, fork_digest) + topics_of(core, fork_digest)
}

/// The test for topics of other forks than that with digest `except`.
pub open spec fn is_of_other_fork(except: [u8; 4]) -> spec_fn(GossipTopic) -> bool {
    |t: GossipTopic| t.fork_digest != except
}

/// What a node does when it starts: the commands to be passed on to the gossip protocol and the
/// addresses to be dialed, each in its order.
#[derive(Debug)]
pub struct StartUp {
    pub commands: Vec<GossipsubCommand>,
    pub dials: Vec<Multiaddr>,
}

/// The error of a node that cannot listen.
pub const LISTEN_ERROR: &'static str = "Libp2p was unable to listen on the given listen address.";

impl Network {
    /// Puts `topics` into the set of subscriptions, in their order, and says what to tell the
    /// gossip protocol.
    fn subscribe_all(&mut self, topics: &Vec<GossipTopic>) -> (commands: Vec<GossipsubCommand>)
        ensures
            final(self).is_same_node(*old(self)),
            final(self).subscriptions() == old(self).subscriptions().union(topics@.to_set()),
            commands@ == subscribe_each(topics@),
    {
        let ghost start = *self;
        let mut commands: Vec<GossipsubCommand> = Vec::new();
        assert(commands@ =~= subscribe_each(topics@.take(0)));
        assert(self.subscriptions() =~= start.subscriptions().union(topics@.take(0).to_set()));
        for i in 0..topics.len()
            invariant
                self.is_same_node(start),
                self.subscriptions() == start.subscriptions().union(
                    topics@.take(i as int).to_set(),
                ),
                commands@ == subscribe_each(topics@.take(i as int)),
        {
            let ghost before = self.subscriptions();
            commands.push(self.subscribe(topics[i]));
            proof {
                let one_more = topics@.take(i + 1);
                assert(one_more =~= topics@.take(i as int).push(topics@[i as int]));
                assert(subscribe_each(one_more) =~= subscribe_each(topics@.take(i as int)).push(
                    GossipsubCommand::Subscribe(topics@[i as int]),
                ));
                crate::topics::push_membership(topics@.take(i as int), topics@[i as int]);
                assert(start.subscriptions().union(one_more.to_set())
                    =~= before.insert(topics@[i as int]));
            }
        }
        assert(topics@.take(topics@.len() as int) =~= topics@);
        commands
    }

    /// Starts the network, given whether the node could listen on its address:
    ///
    /// - Dials boot-nodes and libp2p peers, each of them.
    /// - Subscribes to starting gossipsub topics.
    pub fn start(
        &mut self,
        listening: bool,
        topics: &Vec<GossipKind>,
        boot_nodes: Vec<Multiaddr>,
        libp2p_nodes: Vec<Multiaddr>,
    ) -> (started: Result<StartUp, &'static str>)
        ensures
            final(self).is_same_node(*old(self)),
            started is Ok <==> listening,
            started matches Err(e) ==> e == LISTEN_ERROR && final(self).subscriptions() == old(
                self,
            ).subscriptions(),
            started matches Ok(s) ==> {
                let joined = topics_of(topics@, old(self).fork_digest());
                &&& s.commands@ == subscribe_each(joined)
                &&& s.dials@ == boot_nodes@ + libp2p_nodes@
                &&& final(self).subscriptions() == old(self).subscriptions().union(joined.to_set())
            },
    {
        if !listening {
            return Err(LISTEN_ERROR);
        }
        let joined = kinds_to_topics(topics, self.enr_fork_id.fork_digest);
        let commands = self.subscribe_all(&joined);
        let mut dials = boot_nodes;
        let mut others = libp2p_nodes;
        dials.append(&mut others);
        Ok(StartUp { commands, dials })
    }

    /// Subscribes to a gossipsub topic kind, letting the network service determine the
    /// encoding and fork version.
    pub fn subscribe_kind(&mut self, kind: GossipKind) -> (command: GossipsubCommand)
        ensures
            final(self).is_same_node(*old(self)),
            command == GossipsubCommand::Subscribe(
                GossipTopic::of_kind(kind, old(self).fork_digest()),
            ),
            final(self).subscriptions() == old(self).subscriptions().insert(
                GossipTopic::of_kind(kind, old(self).fork_digest()),
            ),
    {
        let gossip_topic = GossipTopic::new(
            kind,
            GossipEncoding::default(),
            self.enr_fork_id.fork_digest,
        );
        self.subscribe(gossip_topic)
    }

    /// Unsubscribes from a gossipsub topic kind, letting the network service determine the
    /// encoding and fork version.
    pub fn unsubscribe_kind(&mut self, kind: GossipKind) -> (command: GossipsubCommand)
        ensures
            final(self).is_same_node(*old(self)),
            command == GossipsubCommand::Unsubscribe(
                GossipTopic::of_kind(kind, old(self).fork_digest()),
            ),
            final(self).subscriptions() == old(self).subscriptions().remove(
                GossipTopic::of_kind(kind, old(self).fork_digest()),
            ),
    {
        let gossip_topic = GossipTopic::new(
            kind,
            GossipEncoding::default(),
            self.enr_fork_id.fork_digest,
        );
        self.unsubscribe(gossip_topic)
    }

    /// Subscribe to all required topics for a new fork with the given `new_fork_digest`.
    /// `core_topics` are the kinds that every node of the fork is subscribed to.
    pub fn subscribe_new_fork_topics(
        &mut self,
        core_topics: &Vec<GossipKind>,
        new_fork_digest: [u8; 4],
    ) -> (commands: Vec<GossipsubCommand>)
        ensures
            final(self).is_same_node(*old(self)),
            old(self).listed().no_duplicates(),
            commands@ == subscribe_each(
                new_fork_topics(old(self).listed(), core_topics@, new_fork_digest),
            ),
            final(self).subscriptions() == old(self).subscriptions().union(
                new_fork_topics(old(self).listed(), core_topics@, new_fork_digest).to_set(),
            ),
    {
        // Subscribe to existing topics with new fork digest
        let mut required = self.gossipsub_subscriptions.to_vec();
        let ghost existing = required@;
        let count: usize = required.len();
        for i in 0..count
            invariant
                count == existing.len(),
                required@.len() == existing.len(),
                forall|j: int|
                    0 <= j < existing.len() ==> #[trigger] required@[j] == if j < i {
                        existing[j].on_fork(new_fork_digest)
                    } else {
                        existing[j]
                    },
        {
            let mut topic = required[i];
            topic.fork_digest = new_fork_digest;
            required[i] = topic;
        }
        assert(required@ =~= moved_to_fork(existing, new_fork_digest));

        // Subscribe to core topics for the new fork
        let mut core = kinds_to_topics(core_topics, new_fork_digest);
        required.append(&mut core);
        assert(required@ =~= new_fork_topics(existing, core_topics@, new_fork_digest));
        self.subscribe_all(&required)
    }

    /// Unsubscribe from all topics that doesn't have the given fork_digest
    pub fn unsubscribe_from_fork_topics_except(&mut self, except: [u8; 4]) -> (commands: Vec<
        GossipsubCommand,
    >)
        ensures
            final(self).is_same_node(*old(self)),
            old(self).listed().no_duplicates(),
            commands@ == unsubscribe_each(old(self).listed().filter(is_of_other_fork(except))),
            final(self).subscriptions() == old(self).subscriptions().filter(
                |t: GossipTopic| t.fork_digest == except,
            ),
    {
        let ghost start = *self;
        let ghost other = is_of_other_fork(except);
        let topics = self.gossipsub_subscriptions.to_vec();
        let ghost listed = topics@;
        let mut commands: Vec<GossipsubCommand> = Vec::new();
        assert(commands@ =~= unsubscribe_each(listed.take(0).filter(other))) by {
            reveal(Seq::filter);
        }
        for i in 0..topics.len()
            invariant
                topics@ == listed,
                listed.to_set() == start.subscriptions(),
                other == is_of_other_fork(except),
                self.is_same_node(start),
                forall|t: GossipTopic| #[trigger]
                    self.subscriptions().contains(t) <==> start.subscriptions().contains(t) && !(
                    other(t) && listed.take(i as int).contains(t)),
                commands@ == unsubscribe_each(listed.take(i as int).filter(other)),
        {
            let ghost before = commands@;
            let ghost done = listed.take(i as int);
            proof {
                crate::seqs::filter_one_more(listed, i as int, other);
                assert(listed.take(i + 1) =~= done.push(listed[i as int]));
                crate::topics::push_membership(done, listed[i as int]);
            }
            if !same_digest(&topics[i].fork_digest, &except) {
                commands.push(self.unsubscribe(topics[i]));
                assert(commands@ =~= unsubscribe_each(done.filter(other).push(listed[i as int])));
            }
        }
        assert(listed.take(listed.len() as int) =~= listed);
        assert(self.subscriptions() =~= start.subscriptions().filter(
            |t: GossipTopic| t.fork_digest == except,
        ));
        commands
    }

    /// Subscribes to a gossipsub topic.
    ///
    /// The topic counts as subscribed whatever the gossip protocol makes of the command.
    pub fn subscribe(&mut self, topic: GossipTopic) -> (command: GossipsubCommand)
        ensures
            final(self).is_same_node(*old(self)),
            final(self).subscriptions() == old(self).subscriptions().insert(topic),
            command == GossipsubCommand::Subscribe(topic),
    {
        self.gossipsub_subscriptions.insert(topic);
        GossipsubCommand::Subscribe(topic)
    }

    /// Unsubscribe from a gossipsub topic.
    ///
    /// The topic does not count as subscribed any more, whatever the gossip protocol makes of the
    /// command.
    pub fn unsubscribe(&mut self, topic: GossipTopic) -> (command: GossipsubCommand)
        ensures
            final(self).is_same_node(*old(self)),
            final(self).subscriptions() == old(self).subscriptions().remove(topic),
            command == GossipsubCommand::Unsubscribe(topic),
    {
        self.gossipsub_subscriptions.remove(&topic);
        GossipsubCommand::Unsubscribe(topic)
    }

    /// Whether the topic counts as subscribed.
    pub fn is_subscribed(&self, topic: &GossipTopic) -> (b: bool)
        ensures
            b == self.subscriptions().contains(*topic),
    {
        self.gossipsub_subscriptions.contains(topic)
    }
}

/// The topics of the kinds for the fork with digest `fork_digest`, in the default encoding.
pub(crate) fn kinds_to_topics(kinds: &Vec<GossipKind>, fork_digest: [u8; 4]) -> (topics: Vec<
    GossipTopic,
>)
    ensures
        topics@ == topics_of(kinds@, fork_digest),
{
    let mut topics: Vec<GossipTopic> = Vec::new();
    assert(topics@ =~= topics_of(kinds@.take(0), fork_digest));
    for i in 0..kinds.len()
        invariant
            topics@ == topics_of(kinds@.take(i as int), fork_digest),
    {
        topics.push(GossipTopic::new(kinds[i], GossipEncoding::default(), fork_digest));
        assert(topics@ =~= topics_of(kinds@.take(i + 1), fork_digest));
    }
    assert(kinds@.take(kinds@.len() as int) =~= kinds@);
    topics
}

/// Subscribing to a topic and unsubscribing from it again restores the subscriptions, where the
/// topic was not among them.
pub proof fn unsubscribe_undoes_subscribe(before: Set<GossipTopic>, topic: GossipTopic)
    requires
        !before.contains(topic),
    ensures
        before.insert(topic).remove(topic) == before,
{
    assert(before.insert(topic).remove(topic) =~= before);
}

/// Once a node has subscribed to the topics of a new fork and left those of all others, it is
/// subscribed to the core topics of the new fork and to the topics it had, moved to the new fork,
/// and to nothing else.
pub proof fn fork_transition_keeps_every_kind(
    node: Network,
    core: Seq<GossipKind>,
    fork_digest: [u8; 4],
    topic: GossipTopic,
)
    ensures
        ({
            let joined = node.subscriptions().union(
                new_fork_topics(node.listed(), core, fork_digest).to_set(),
            );
            let left = joined.filter(|t: GossipTopic| t.fork_digest == fork_digest);
            left.contains(topic) <==> {
                &&& topic.fork_digest == fork_digest
                &&& {
                    ||| core.contains(topic.kind) && topic.encoding == GossipEncoding::SSZSnappy
                    ||| exists|t: GossipTopic| #[trigger]
                        node.subscriptions().contains(t) && t.on_fork(fork_digest) == topic
                }
            }
        }),
{
    let moved = moved_to_fork(node.listed(), fork_digest);
    let cores = topics_of(core, fork_digest);
    let required = new_fork_topics(node.listed(), core, fork_digest);
    assert forall|t: GossipTopic| node.listed().contains(t) <==> node.subscriptions().contains(
        t,
    ) by {
        crate::service::listed_topics_are_the_subscriptions(node, t);
    }
    if node.subscriptions().contains(topic) && topic.fork_digest == fork_digest {
        assert(topic.on_fork(fork_digest) == topic);
    }
    if required.contains(topic) {
        let i = choose|i: int| 0 <= i < required.len() && required[i] == topic;
        if i < moved.len() {
            assert(required[i] == moved[i]);
            let t = node.listed()[i];
            assert(node.listed().contains(t));
            assert(node.subscriptions().contains(t) && t.on_fork(fork_digest) == topic);
        } else {
            assert(required[i] == cores[i - moved.len()]);
            assert(core.contains(core[i - moved.len()]));
        }
    }
    if topic.fork_digest == fork_digest && core.contains(topic.kind) && topic.encoding
        == GossipEncoding::SSZSnappy {
        let i = choose|i: int| 0 <= i < core.len() && core[i] == topic.kind;
        assert(required[moved.len() + i] == topic);
    }
    if exists|t: GossipTopic| #[trigger]
        node.subscriptions().contains(t) && t.on_fork(fork_digest) == topic {
        let t = choose|t: GossipTopic| #[trigger]
            node.subscriptions().contains(t) && t.on_fork(fork_digest) == topic;
        let i = choose|i: int| 0 <= i < node.listed().len() && node.listed()[i] == t;
        assert(required[i] == topic);
    }
}

/// The gossip protocol is told to leave a topic if and only if the node was subscribed to it and it is
/// of another fork than the given one, whatever its kind; it is told nothing else. So it is told to
/// leave exactly the topics that are taken out of the node's subscriptions.
pub proof fn topics_of_other_forks_are_left(
    node: Network,
    except: [u8; 4],
    kept: Set<GossipTopic>,
    topic: GossipTopic,
)
    requires
        forall|t: GossipTopic| #[trigger]
            kept.contains(t) <==> node.subscriptions().contains(t) && t.fork_digest == except,
    ensures
        ({
            let commands = unsubscribe_each(node.listed().filter(is_of_other_fork(except)));
            &&& commands.contains(GossipsubCommand::Unsubscribe(topic))
                <==> node.gossipsub_subscriptions@.contains(topic) && topic.fork_digest != except
            &&& commands.contains(GossipsubCommand::Unsubscribe(topic))
                <==> node.gossipsub_subscriptions@.contains(topic) && !kept.contains(topic)
            &&& !commands.contains(GossipsubCommand::Subscribe(topic))
        }),
{
    let other = is_of_other_fork(except);
    let left = node.listed().filter(other);
    let commands = unsubscribe_each(left);
    crate::service::listed_topics_are_the_subscriptions(node, topic);
    crate::seqs::filter_membership(node.listed(), other, topic);
    if left.contains(topic) {
        let i = choose|i: int| 0 <= i < left.len() && left[i] == topic;
        assert(commands[i] == GossipsubCommand::Unsubscribe(topic));
    }
    if commands.contains(GossipsubCommand::Unsubscribe(topic)) {
        let i = choose|i: int|
            0 <= i < commands.len() && commands[i] == GossipsubCommand::Unsubscribe(topic);
        assert(left[i] == topic);
    }
}

/// The topics of other forks are left one after the other, in the order in which they are listed, each
/// as often as it is listed.
pub proof fn topics_are_left_in_their_order(
    first: Seq<GossipTopic>,
    second: Seq<GossipTopic>,
    topic: GossipTopic,
    except: [u8; 4],
)
    ensures
        ({
            let left = |topics: Seq<GossipTopic>|
                unsubscribe_each(topics.filter(is_of_other_fork(except)));
            &&& left(first + second) == left(first) + left(second)
            &&& left(seq![topic]) == if topic.fork_digest == except {
                Seq::empty()
            } else {
                seq![GossipsubCommand::Unsubscribe(topic)]
            }
            &&& left(Seq::empty()) == Seq::<GossipsubCommand>::empty()
        }),
{
    let other = is_of_other_fork(except);
    let none = Seq::<GossipTopic>::empty();
    let one = seq![topic];
    crate::seqs::filter_appended(first, second, other);
    assert(unsubscribe_each((first + second).filter(other)) =~= unsubscribe_each(
        first.filter(other),
    ) + unsubscribe_each(second.filter(other)));
    crate::seqs::filter_none(none, other);
    crate::seqs::filter_first(one, other);
    assert(one.drop_first() =~= none);
    assert(one + none =~= one);
    assert(unsubscribe_each(none) =~= Seq::empty());
    assert(unsubscribe_each(one) =~= seq![GossipsubCommand::Unsubscribe(topic)]);
}

/// Subscribing to topics tells the gossip protocol to subscribe to each of them, in their order, and
/// nothing else. The topics of a list of kinds are those kinds, in their order, on the given fork
/// and in the default encoding.
pub proof fn each_kind_is_subscribed_to(
    kinds: Seq<GossipKind>,
    topics: Seq<GossipTopic>,
    fork_digest: [u8; 4],
    i: int,
)
    ensures
        subscribe_each(topics).len() == topics.len(),
        0 <= i < topics.len() ==> subscribe_each(topics)[i] == GossipsubCommand::Subscribe(
            topics[i],
        ),
        topics_of(kinds, fork_digest).len() == kinds.len(),
        0 <= i < kinds.len() ==> ({
            let topic = topics_of(kinds, fork_digest)[i];
            &&& topic.kind == kinds[i]
            &&& topic.encoding == GossipEncoding::SSZSnappy
            &&& topic.fork_digest == fork_digest
        }),
{
}

/// For a new fork, each topic there is comes first, in its order and with nothing but its fork
/// changed, and then each core topic of the fork, in its order and in the default encoding.
pub proof fn each_topic_is_moved_to_the_new_fork(
    topics: Seq<GossipTopic>,
    core: Seq<GossipKind>,
    fork_digest: [u8; 4],
    i: int,
)
    ensures
        ({
            let required = new_fork_topics(topics, core, fork_digest);
            &&& required.len() == topics.len() + core.len()
            &&& 0 <= i < topics.len() ==> {
                &&& required[i].kind == topics[i].kind
                &&& required[i].encoding == topics[i].encoding
                &&& required[i].fork_digest == fork_digest
            }
            &&& 0 <= i < core.len() ==> {
                &&& required[topics.len() + i].kind == core[i]
                &&& required[topics.len() + i].encoding == GossipEncoding::SSZSnappy
                &&& required[topics.len() + i].fork_digest == fork_digest
            }
        }),
{
}

} // verus!
