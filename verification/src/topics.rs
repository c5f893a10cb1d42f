//! Gossip topics and the set of them that a node is subscribed to.
use vstd::prelude::*;

verus! {

/// The kinds of messages that are gossiped, each on topics of its own.
#[derive(Clone, Copy, Debug, PartialEq, Eq, Structural)]
pub enum GossipKind {
    BeaconBlock,
    BeaconAggregateAndProof,
    /// Attestations of the subnet with the given number.
    Attestation(u64),
    VoluntaryExit,
    ProposerSlashing,
    AttesterSlashing,
    SignedContributionAndProof,
    /// Sync committee messages of the subnet with the given number.
    SyncCommitteeMessage(u64),
    BlsToExecutionChange,
    LightClientFinalityUpdate,
    LightClientOptimisticUpdate,
}

/// How messages are encoded on a topic.
#[derive(Clone, Copy, Debug, PartialEq, Eq, Structural)]
pub enum GossipEncoding {
    SSZSnappy,
}

impl Default for GossipEncoding {
    fn default() -> (encoding: Self)
        ensures
            encoding == GossipEncoding::SSZSnappy,
    {
        GossipEncoding::SSZSnappy
    }
}

/// A gossip topic: a kind of message, in an encoding, for one fork.
#[derive(Clone, Copy, Debug)]
pub struct GossipTopic {
    pub kind: GossipKind,
    pub encoding: GossipEncoding,
    pub fork_digest: [u8; 4],
}

/// Whether two fork digests are the same.
pub fn same_digest(a: &[u8; 4], b: &[u8; 4]) -> (same: bool)
    ensures
        same == (*a == *b),
{
    let same = a[0] == b[0] && a[1] == b[1] && a[2] == b[2] && a[3] == b[3];
    proof {
        if same {
            assert(*a =~= *b) by {
                assert forall|i: int| 0 <= i < 4 implies a[i] == b[i] by {
                    assert(i == 0 || i == 1 || i == 2 || i == 3);
                }
            }
        }
    }
    same
}

impl GossipTopic {
    pub fn new(kind: GossipKind, encoding: GossipEncoding, fork_digest: [u8; 4]) -> (topic: Self)
        ensures
            topic == (GossipTopic { kind, encoding, fork_digest }),
    {
        GossipTopic { kind, encoding, fork_digest }
    }

    /// The topic of `kind` in the default encoding for the fork with digest `fork_digest`.
    pub open spec fn of_kind(kind: GossipKind, fork_digest: [u8; 4]) -> Self {
        GossipTopic { kind, encoding: GossipEncoding::SSZSnappy, fork_digest }
    }

    /// The same topic for another fork.
    pub open spec fn on_fork(self, fork_digest: [u8; 4]) -> Self {
        GossipTopic { kind: self.kind, encoding: self.encoding, fork_digest }
    }

    /// Whether two topics are the same.
    pub fn same(&self, other: &GossipTopic) -> (same: bool)
        ensures
            same == (*self == *other),
    {
        self.kind == other.kind && self.encoding == other.encoding && same_digest(
            &self.fork_digest,
            &other.fork_digest,
        )
    }
}

/// A set of topics. It is walked in the order in which its topics came in.
#[derive(Debug)]
pub struct Subscriptions {
    topics: Vec<GossipTopic>,
}

impl View for Subscriptions {
    type V = Set<GossipTopic>;

    closed spec fn view(&self) -> Set<GossipTopic> {
        self.topics@.to_set()
    }
}

impl Subscriptions {
    /// The topics of the set in the order in which it is walked.
    pub closed spec fn listed(self) -> Seq<GossipTopic> {
        self.topics@
    }

    #[verifier::type_invariant]
    spec fn each_topic_once(self) -> bool {
        self.topics@.no_duplicates()
    }

    pub fn new() -> (set: Self)
        ensures
            set@ == Set::<GossipTopic>::empty(),
            set.listed() == Seq::<GossipTopic>::empty(),
    {
        let set = Subscriptions { topics: Vec::new() };
        assert(set@ =~= Set::<GossipTopic>::empty());
        set
    }

    /// The position of `topic`, where it is in the set.
    fn position(&self, topic: &GossipTopic) -> (position: Option<usize>)
        ensures
            position matches Some(i) ==> i < self.topics@.len() && self.topics@[i as int] == *topic,
            position is None ==> !self.topics@.contains(*topic),
    {
        for i in 0..self.topics.len()
            invariant
                forall|j: int| 0 <= j < i ==> self.topics@[j] != *topic,
        {
            if self.topics[i].same(topic) {
                return Some(i);
            }
        }
        None
    }

    pub fn contains(&self, topic: &GossipTopic) -> (b: bool)
        ensures
            b == self@.contains(*topic),
    {
        match self.position(topic) {
            Some(i) => {
                assert(self.topics@.contains(self.topics@[i as int]));
                true
            },
            None => false,
        }
    }

    /// The number of topics in the set.
    pub fn len(&self) -> (n: usize)
        ensures
            n == self@.len(),
            n == self.listed().len(),
    {
        proof {
            use_type_invariant(self);
            self.topics@.unique_seq_to_set();
        }
        self.topics.len()
    }

    /// Adds `topic`; a topic that is there already stays where it is.
    pub fn insert(&mut self, topic: GossipTopic)
        ensures
            final(self)@ == old(self)@.insert(topic),
            final(self).listed() == if old(self)@.contains(topic) {
                old(self).listed()
            } else {
                old(self).listed().push(topic)
            },
    {
        proof {
            use_type_invariant(&*self);
        }
        let ghost before = self.topics@;
        if !self.contains(&topic) {
            let mut topics: Vec<GossipTopic> = Vec::new();
            std::mem::swap(&mut topics, &mut self.topics);
            topics.push(topic);
            self.topics = topics;
            assert(self.topics@.to_set() =~= before.to_set().insert(topic)) by {
                push_membership(before, topic);
            }
        } else {
            assert(before.to_set() =~= before.to_set().insert(topic));
        }
    }

    /// Takes `topic` out; the others stay in their order.
    pub fn remove(&mut self, topic: &GossipTopic)
        ensures
            final(self)@ == old(self)@.remove(*topic),
            final(self).listed() == old(self).listed().filter(|t: GossipTopic| t != *topic),
    {
        proof {
            use_type_invariant(&*self);
        }
        let ghost before = self.topics@;
        let ghost other = |t: GossipTopic| t != *topic;
        let mut kept: Vec<GossipTopic> = Vec::new();
        assert(kept@ =~= before.take(0).filter(other)) by {
            reveal(Seq::filter);
        }
        for i in 0..self.topics.len()
            invariant
                before == self.topics@,
                before.no_duplicates(),
                other == (|t: GossipTopic| t != *topic),
                kept@ == before.take(i as int).filter(other),
                kept@.no_duplicates(),
        {
            proof {
                crate::seqs::filter_one_more(before, i as int, other);
                crate::seqs::filter_membership(before.take(i as int), other, before[i as int]);
                assert(!before.take(i as int).contains(before[i as int]));
            }
            if !self.topics[i].same(topic) {
                kept.push(self.topics[i]);
            }
        }
        assert(before.take(before.len() as int) =~= before);
        self.topics = kept;
        assert(kept@.to_set() =~= before.to_set().remove(*topic)) by {
            assert forall|t: GossipTopic|
                kept@.to_set().contains(t) <==> before.to_set().remove(*topic).contains(t) by {
                crate::seqs::filter_membership(before, other, t);
            }
        }
    }

    /// The topics of the set, each once.
    pub fn to_vec(&self) -> (topics: Vec<GossipTopic>)
        ensures
            topics@ == self.listed(),
            topics@.no_duplicates(),
            topics@.to_set() == self@,
    {
        proof {
            use_type_invariant(self);
        }
        let mut topics: Vec<GossipTopic> = Vec::new();
        for i in 0..self.topics.len()
            invariant
                topics@ == self.topics@.take(i as int),
        {
            topics.push(self.topics[i]);
            assert(self.topics@.take(i + 1) =~= self.topics@.take(i as int).push(
                self.topics@[i as int],
            ));
        }
        assert(self.topics@.take(self.topics@.len() as int) =~= self.topics@);
        topics
    }
}

/// A sequence with one more item holds that item and what it held before.
pub(crate) proof fn push_membership(s: Seq<GossipTopic>, topic: GossipTopic)
    ensures
        forall|t: GossipTopic| #[trigger]
            s.push(topic).contains(t) <==> s.contains(t) || t == topic,
{
    assert forall|t: GossipTopic| #[trigger]
        s.push(topic).contains(t) <==> s.contains(t) || t == topic by {
        if s.contains(t) {
            let i = choose|i: int| 0 <= i < s.len() && s[i] == t;
            assert(s.push(topic)[i] == t);
        }
        assert(s.push(topic)[s.len() as int] == topic);
    }
}

/// The walk over a set of topics meets exactly the topics of the set.
pub proof fn listed_topics_are_the_set(set: Subscriptions, topic: GossipTopic)
    ensures
        set.listed().contains(topic) <==> set@.contains(topic),
{
}

/// The topic of a kind has that kind and that fork, in the default encoding, and a topic that is moved
/// to another fork changes in its fork alone.
pub proof fn topics_keep_their_parts(kind: GossipKind, topic: GossipTopic, fork_digest: [u8; 4])
    ensures
        GossipTopic::of_kind(kind, fork_digest).kind == kind,
        GossipTopic::of_kind(kind, fork_digest).fork_digest == fork_digest,
        GossipTopic::of_kind(kind, fork_digest).encoding == GossipEncoding::SSZSnappy,
        topic.on_fork(fork_digest).kind == topic.kind,
        topic.on_fork(fork_digest).encoding == topic.encoding,
        topic.on_fork(fork_digest).fork_digest == fork_digest,
{
}

} // verus!
