//! The gossip side of the network service: what is published, and what becomes of gossip events.
use crate::peers::{copy_bytes, PeerId};
use crate::service::events::{MessageId, Metric, NetworkEvent, TopicHash};
use crate::service::Network;
use crate::topics::{GossipEncoding, GossipKind, GossipTopic};
use vstd::prelude::*;

verus! {

/// A message to be gossiped: the kinds of the topics it belongs on, and its encoded form.
#[derive(Debug)]
pub struct PubsubMessage {
    pub kinds: Vec<GossipKind>,
    pub data: Vec<u8>,
}

/// The data to be published on a topic.
#[derive(Debug)]
pub struct Publication {
    pub topic: GossipTopic,
    pub data: Vec<u8>,
}

impl View for Publication {
    type V = (GossipTopic, Seq<u8>);

    open spec fn view(&self) -> (GossipTopic, Seq<u8>) {
        (self.topic, self.data@)
    }
}

/// What each publication of a list holds.
pub open spec fn publication_views(list: Seq<Publication>) -> Seq<(GossipTopic, Seq<u8>)> {
    list.map_values(|p: Publication| p@)
}

impl PubsubMessage {
    /// What is published of this message: its data on the topic of each of its kinds.
    pub open spec fn publications(self, fork_digest: [u8; 4]) -> Seq<(GossipTopic, Seq<u8>)> {
        self.kinds@.map_values(
            |k: GossipKind| (GossipTopic::of_kind(k, fork_digest), self.data@),
        )
    }
}

/// What is published of a list of messages: one message after the other.
pub open spec fn all_publications(
    messages: Seq<PubsubMessage>,
    fork_digest: [u8; 4],
) -> Seq<(GossipTopic, Seq<u8>)>
    decreases messages.len(),
{
    if messages.len() == 0 {
        Seq::empty()
    } else {
        all_publications(messages.drop_last(), fork_digest) + messages.last().publications(
            fork_digest,
        )
    }
}

/// Why a message could not be published.
#[derive(Clone, Copy, Debug, PartialEq, Eq, Structural)]
pub enum PublishError {
    Duplicate,
    SigningError,
    InsufficientPeers,
    MessageTooLarge,
    TransformFailed,
}

/// What is to be done about a publication that failed: a counter to be incremented, and the
/// publication to be cached, where it is.
#[derive(Debug)]
pub struct FailedPublish {
    pub metric: Metric,
    pub cached: Option<Publication>,
}

/// What the application makes of a message that was gossiped to us.
#[derive(Clone, Copy, Debug, PartialEq, Eq, Structural)]
pub enum MessageAcceptance {
    Accept,
    Reject,
    Ignore,
}

impl MessageAcceptance {
    /// The label under which messages that are not accepted are counted.
    pub open spec fn label(self) -> Option<&'static str> {
        match self {
            MessageAcceptance::Accept => None,
            MessageAcceptance::Ignore => Some("ignore"),
            MessageAcceptance::Reject => Some("reject"),
        }
    }
}

/// What is to be done about the result of a validation: a counter to be incremented, where there
/// is one, and the result to be told to the gossip protocol.
#[derive(Debug)]
pub struct ValidationReport {
    pub metric: Option<Metric>,
    pub message_id: MessageId,
    pub propagation_source: PeerId,
    pub validation_result: MessageAcceptance,
}

/// The sets of score parameters that depend on the number of validators.
#[derive(Clone, Copy, Debug, PartialEq, Eq, Structural)]
pub enum DynamicParams {
    BeaconBlock,
    BeaconAggregateAndProof,
    BeaconAttestationSubnet,
}

/// Score parameters to be set for a topic.
#[derive(Clone, Copy, Debug)]
pub struct TopicParams {
    pub topic: GossipTopic,
    pub params: DynamicParams,
}

/// The score parameters to be set on a fork with `subnets` attestation subnets, in the order in
/// which they are set: for blocks, for aggregates, and for the attestations of each subnet.
pub open spec fn dynamic_topic_params(fork_digest: [u8; 4], subnets: nat) -> Seq<TopicParams> {
    seq![
        TopicParams {
            topic: GossipTopic::of_kind(GossipKind::BeaconBlock, fork_digest),
            params: DynamicParams::BeaconBlock,
        },
        TopicParams {
            topic: GossipTopic::of_kind(GossipKind::BeaconAggregateAndProof, fork_digest),
            params: DynamicParams::BeaconAggregateAndProof,
        },
    ] + Seq::new(
        subnets,
        |i: int|
            TopicParams {
                topic: GossipTopic::of_kind(GossipKind::Attestation(i as u64), fork_digest),
                params: DynamicParams::BeaconAttestationSubnet,
            },
    )
}

/// Score parameters that are still to be set, one topic after the other.
#[derive(Debug)]
pub struct TopicParamsList {
    updates: Vec<TopicParams>,
    next: usize,
}

impl View for TopicParamsList {
    type V = Seq<TopicParams>;

    closed spec fn view(&self) -> Seq<TopicParams> {
        self.updates@.skip(self.next as int)
    }
}

/// A step of an update of score parameters.
#[derive(Debug)]
pub enum ParamsStep<E> {
    /// The parameters at the front of the list are to be set.
    Pending(TopicParamsList),
    /// The update has ended.
    Done(Result<(), E>),
}

/// What a step of an update of score parameters stands for: the parameters that are still to be
/// set, or the end of the update.
pub enum ParamsStepView<E> {
    Pending(Seq<TopicParams>),
    Done(Result<(), E>),
}

impl<E> View for ParamsStep<E> {
    type V = ParamsStepView<E>;

    open spec fn view(&self) -> ParamsStepView<E> {
        match *self {
            ParamsStep::Pending(list) => ParamsStepView::Pending(list@),
            ParamsStep::Done(result) => ParamsStepView::Done(result),
        }
    }
}

/// The step after the first of the parameters in `left` were set with the outcome `reply`: the first
/// failure ends the update with its error, and after the last parameters the update has succeeded.
pub open spec fn after_set<E>(left: Seq<TopicParams>, reply: Result<(), E>) -> ParamsStepView<E> {
    match reply {
        Err(e) => ParamsStepView::Done(Err(e)),
        Ok(()) => if left.len() == 1 {
            ParamsStepView::Done(Ok(()))
        } else {
            ParamsStepView::Pending(left.skip(1))
        },
    }
}

impl TopicParamsList {
    #[verifier::type_invariant]
    spec fn is_not_done(self) -> bool {
        self.next < self.updates@.len()
    }

    /// The parameters that are to be set now.
    pub fn current(&self) -> (update: TopicParams)
        ensures
            self@.len() > 0,
            update == self@[0],
    {
        proof {
            use_type_invariant(self);
        }
        self.updates[self.next]
    }

    /// Takes what came of setting the current parameters.
    pub fn answer<E>(self, reply: Result<(), E>) -> (step: ParamsStep<E>)
        ensures
            step@ == after_set(self@, reply),
    {
        proof {
            use_type_invariant(&self);
        }
        let ghost left = self@;
        match reply {
            Err(e) => ParamsStep::Done(Err(e)),
            Ok(()) => {
                let TopicParamsList { updates, next } = self;
                assert(next < updates.len());
                if next + 1 == updates.len() {
                    ParamsStep::Done(Ok(()))
                } else {
                    let list = TopicParamsList { updates, next: next + 1 };
                    assert(list@ =~= left.skip(1));
                    ParamsStep::Pending(list)
                }
            },
        }
    }
}

/// A subnet that peers subscribe to.
#[derive(Clone, Copy, Debug, PartialEq, Eq, Structural)]
pub enum Subnet {
    Attestation(u64),
    SyncCommittee(u64),
}

/// An event of the gossip protocol, with what decoding its parts gave.
#[allow(inconsistent_fields)]
#[derive(Debug)]
pub enum GossipsubEvent<P> {
    /// A message came in.
    Message {
        /// The peer that sent us the message, not the one that published it.
        propagation_source: PeerId,
        message_id: MessageId,
        topic: TopicHash,
        /// The message, where it could be decoded.
        decoded: Option<P>,
    },
    /// A peer subscribed to a topic.
    Subscribed {
        peer_id: PeerId,
        /// The topic, where it could be decoded, and its subnet, where it has one.
        topic: Option<(GossipTopic, Option<Subnet>)>,
    },
    /// A peer unsubscribed from a topic.
    Unsubscribed {
        peer_id: PeerId,
        /// The subnet of the topic, where it has one.
        subnet: Option<Subnet>,
    },
    /// A peer does not gossip.
    GossipsubNotSupported { peer_id: PeerId },
}

/// What becomes of a gossip event.
#[derive(Debug)]
pub struct GossipOutcome<Id, C, P> {
    /// The message is to be rejected, with the peer that sent it.
    pub reject: Option<(MessageId, PeerId)>,
    /// The peer is to be noted as subscribed to the subnet.
    pub add_subscription: Option<(PeerId, Subnet)>,
    /// The peer is to be noted as not subscribed to the subnet any more.
    pub remove_subscription: Option<(PeerId, Subnet)>,
    /// The messages that are cached for the topic are to be published.
    pub retry: Option<GossipTopic>,
    /// The application is to be handed the event.
    pub event: Option<NetworkEvent<Id, C, P>>,
}

impl<Id, C, P> GossipOutcome<Id, C, P> {
    /// Nothing is to be done.
    pub open spec fn nothing() -> Self {
        GossipOutcome {
            reject: None,
            add_subscription: None,
            remove_subscription: None,
            retry: None,
            event: None,
        }
    }

    /// What becomes of a gossip event.
    pub open spec fn of_event(event: GossipsubEvent<P>) -> Self {
        match event {
            GossipsubEvent::Message { propagation_source, message_id, topic, decoded } => {
                match decoded {
                    None => GossipOutcome {
                        reject: Some((message_id, propagation_source)),
                        ..Self::nothing()
                    },
                    Some(message) => GossipOutcome {
                        event: Some(
                            NetworkEvent::PubsubMessage {
                                id: message_id,
                                source: propagation_source,
                                topic,
                                message,
                            },
                        ),
                        ..Self::nothing()
                    },
                }
            },
            GossipsubEvent::Subscribed { peer_id, topic } => match topic {
                None => Self::nothing(),
                Some((topic, subnet)) => GossipOutcome {
                    add_subscription: match subnet {
                        Some(s) => Some((peer_id, s)),
                        None => None,
                    },
                    retry: Some(topic),
                    ..Self::nothing()
                },
            },
            GossipsubEvent::Unsubscribed { peer_id, subnet } => GossipOutcome {
                remove_subscription: match subnet {
                    Some(s) => Some((peer_id, s)),
                    None => None,
                },
                ..Self::nothing()
            },
            GossipsubEvent::GossipsubNotSupported { peer_id: _ } => Self::nothing(),
        }
    }
}

impl Network {
    /// Publishes a list of messages on the pubsub (gossipsub) behaviour, choosing the encoding.
    pub fn publish(&self, messages: &Vec<PubsubMessage>) -> (publications: Vec<Publication>)
        ensures
            publication_views(publications@) == all_publications(messages@, self.fork_digest()),
    {
        let ghost fork_digest = self.fork_digest();
        let mut publications: Vec<Publication> = Vec::new();
        assert(publication_views(publications@) =~= all_publications(
            messages@.take(0),
            fork_digest,
        ));
        for i in 0..messages.len()
            invariant
                fork_digest == self.fork_digest(),
                publication_views(publications@) == all_publications(
                    messages@.take(i as int),
                    fork_digest,
                ),
        {
            let message = &messages[i];
            let ghost before = publication_views(publications@);
            let ghost own = message.publications(fork_digest);
            assert(before =~= before + own.take(0));
            for j in 0..message.kinds.len()
                invariant
                    fork_digest == self.fork_digest(),
                    own == message.publications(fork_digest),
                    publication_views(publications@) == before + own.take(j as int),
            {
                let ghost so_far = publications@;
                let topic = GossipTopic::new(
                    message.kinds[j],
                    GossipEncoding::default(),
                    self.enr_fork_id.fork_digest,
                );
                publications.push(Publication { topic, data: copy_bytes(&message.data) });
                assert(publication_views(publications@) =~= publication_views(so_far).push(
                    own[j as int],
                ));
                assert(before + own.take(j + 1) =~= (before + own.take(j as int)).push(
                    own[j as int],
                ));
            }
            assert(own.take(own.len() as int) =~= own);
            assert(messages@.take(i + 1).drop_last() =~= messages@.take(i as int));
        }
        assert(messages@.take(messages@.len() as int) =~= messages@);
        publications
    }

    /// Deals with a publication that failed: it is counted, by subnet where it is an attestation
    /// and by kind otherwise, and it is cached where only peers were missing.
    pub fn publish_failed(&self, publication: Publication, error: PublishError) -> (failed:
        FailedPublish)
        ensures
            failed.metric == (match publication.topic.kind {
                GossipKind::Attestation(subnet_id) => Metric::FailedAttestationPublishesPerSubnet {
                    subnet_id,
                },
                kind => Metric::FailedPublishesPerMainTopic { kind },
            }),
            failed.cached == if error == PublishError::InsufficientPeers {
                Some(publication)
            } else {
                None
            },
    {
        let metric = match publication.topic.kind {
            GossipKind::Attestation(subnet_id) => Metric::FailedAttestationPublishesPerSubnet {
                subnet_id,
            },
            kind => Metric::FailedPublishesPerMainTopic { kind },
        };
        let cached = if let PublishError::InsufficientPeers = error {
            Some(publication)
        } else {
            None
        };
        FailedPublish { metric, cached }
    }

    /// Informs the gossipsub about the result of a message validation.
    /// If the message is valid it will get propagated by gossipsub.
    ///
    /// `client` names the client software of the peer, where the peer is known.
    pub fn report_message_validation_result(
        &self,
        propagation_source: PeerId,
        client: Option<String>,
        message_id: MessageId,
        validation_result: MessageAcceptance,
    ) -> (report: ValidationReport)
        ensures
            report.message_id == message_id,
            report.propagation_source == propagation_source,
            report.validation_result == validation_result,
            report.metric == (match (validation_result.label(), client) {
                (Some(result), Some(client)) => Some(
                    Metric::GossipUnacceptedMessagesPerClient { client, result },
                ),
                _ => None,
            }),
    {
        let label = match validation_result {
            MessageAcceptance::Accept => None,
            MessageAcceptance::Ignore => Some("ignore"),
            MessageAcceptance::Reject => Some("reject"),
        };
        let metric = match label {
            Some(result) => match client {
                Some(client) => Some(Metric::GossipUnacceptedMessagesPerClient { client, result }),
                None => None,
            },
            None => None,
        };
        ValidationReport { metric, message_id, propagation_source, validation_result }
    }

    /// Updates the current gossipsub scoring parameters based on the validator count and current
    /// slot. `params` says whether the new parameters could be had: where they could not, nothing
    /// is set.
    pub fn update_gossipsub_parameters<E>(
        &self,
        attestation_subnet_count: u64,
        params: Result<(), E>,
    ) -> (step: ParamsStep<E>)
        ensures
            step@ == first_params_step(
                self.fork_digest(),
                attestation_subnet_count as nat,
                params,
            ),
    {
        match params {
            Err(e) => ParamsStep::Done(Err(e)),
            Ok(()) => {
                let updates = self.topic_params(attestation_subnet_count);
                let ghost all = updates@;
                let list = TopicParamsList { updates, next: 0 };
                assert(list@ =~= all);
                ParamsStep::Pending(list)
            },
        }
    }

    /// The gossipsub scoring parameters that change with the validator count and the current
    /// slot, in the order in which they are to be set.
    fn topic_params(&self, attestation_subnet_count: u64) -> (updates: Vec<TopicParams>)
        ensures
            updates@ == dynamic_topic_params(self.fork_digest(), attestation_subnet_count as nat),
            updates@.len() >= 2,
    {
        let ghost fork_digest = self.fork_digest();
        let encoding = GossipEncoding::default();
        let digest = self.enr_fork_id.fork_digest;
        let mut updates: Vec<TopicParams> = Vec::new();
        updates.push(
            TopicParams {
                topic: GossipTopic::new(GossipKind::BeaconBlock, encoding, digest),
                params: DynamicParams::BeaconBlock,
            },
        );
        updates.push(
            TopicParams {
                topic: GossipTopic::new(GossipKind::BeaconAggregateAndProof, encoding, digest),
                params: DynamicParams::BeaconAggregateAndProof,
            },
        );
        assert(updates@ =~= dynamic_topic_params(fork_digest, 0));
        for i in 0..attestation_subnet_count
            invariant
                digest == fork_digest,
                encoding == GossipEncoding::SSZSnappy,
                updates@ == dynamic_topic_params(fork_digest, i as nat),
        {
            updates.push(
                TopicParams {
                    topic: GossipTopic::new(GossipKind::Attestation(i), encoding, digest),
                    params: DynamicParams::BeaconAttestationSubnet,
                },
            );
            assert(updates@ =~= dynamic_topic_params(fork_digest, (i + 1) as nat));
        }
        updates
    }

    /// Handle a gossipsub event.
    pub fn inject_gs_event<Id, C, P>(&self, event: GossipsubEvent<P>) -> (outcome: GossipOutcome<
        Id,
        C,
        P,
    >)
        ensures
            outcome == GossipOutcome::<Id, C, P>::of_event(event),
    {
        let mut outcome = GossipOutcome {
            reject: None,
            add_subscription: None,
            remove_subscription: None,
            retry: None,
            event: None,
        };
        match event {
            GossipsubEvent::Message { propagation_source, message_id, topic, decoded } => {
                // Note: We are keeping track here of the peer that sent us the message, not the
                // peer that originally published the message.
                match decoded {
                    None => {
                        outcome.reject = Some((message_id, propagation_source));
                    },
                    Some(message) => {
                        outcome.event = Some(
                            NetworkEvent::PubsubMessage {
                                id: message_id,
                                source: propagation_source,
                                topic,
                                message,
                            },
                        );
                    },
                }
            },
            GossipsubEvent::Subscribed { peer_id, topic } => {
                if let Some((topic, subnet)) = topic {
                    if let Some(subnet_id) = subnet {
                        outcome.add_subscription = Some((peer_id, subnet_id));
                    }
                    // Try to send the cached messages for this topic
                    outcome.retry = Some(topic);
                }
            },
            GossipsubEvent::Unsubscribed { peer_id, subnet } => {
                if let Some(subnet_id) = subnet {
                    outcome.remove_subscription = Some((peer_id, subnet_id));
                }
            },
            GossipsubEvent::GossipsubNotSupported { peer_id: _ } => {},
        }
        outcome
    }

    /// Publishes the messages that were cached for `topic`, where there are any.
    pub fn retry_cached(&self, topic: GossipTopic, messages: Option<Vec<Vec<u8>>>) -> (publications:
        Vec<Publication>)
        ensures
            publications@ == (match messages {
                Some(messages) => messages@.map_values(
                    |data: Vec<u8>| Publication { topic, data },
                ),
                None => Seq::empty(),
            }),
    {
        let mut publications: Vec<Publication> = Vec::new();
        if let Some(messages) = messages {
            let ghost all = messages@;
            for data in it: messages
                invariant
                    it.seq() == all,
                    publications@ == all.take(it.index() as int).map_values(
                        |data: Vec<u8>| Publication { topic, data },
                    ),
            {
                publications.push(Publication { topic, data });
                assert(all.take(it.index() + 1) =~= all.take(it.index() as int).push(
                    all[it.index() as int],
                ));
                assert(publications@ =~= all.take(it.index() + 1).map_values(
                    |data: Vec<u8>| Publication { topic, data },
                ));
            }
            assert(all.take(all.len() as int) =~= all);
        }
        publications
    }

    /// Counts another try to publish a cached message on `topic`.
    pub fn late_publish(&self, topic: &GossipTopic, published: bool) -> (metric: Metric)
        ensures
            metric == if published {
                Metric::GossipLatePublishPerTopicKind { kind: topic.kind }
            } else {
                Metric::GossipFailedLatePublishPerTopicKind { kind: topic.kind }
            },
    {
        if published {
            Metric::GossipLatePublishPerTopicKind { kind: topic.kind }
        } else {
            Metric::GossipFailedLatePublishPerTopicKind { kind: topic.kind }
        }
    }
}

/// The first step of an update of score parameters: with no parameters at hand it ends with the
/// error, else all of them are to be set.
pub open spec fn first_params_step<E>(
    fork_digest: [u8; 4],
    subnets: nat,
    params: Result<(), E>,
) -> ParamsStepView<E> {
    match params {
        Err(e) => ParamsStepView::Done(Err(e)),
        Ok(()) => ParamsStepView::Pending(dynamic_topic_params(fork_digest, subnets)),
    }
}

/// The parameters that an update at `step` goes on to set, where setting them gives `replies` in
/// turn, and its result, or `None` where it has not ended by then.
pub open spec fn run_update<E>(
    step: ParamsStepView<E>,
    replies: Seq<Result<(), E>>,
) -> (Seq<TopicParams>, Option<Result<(), E>>)
    decreases replies.len(),
{
    match step {
        ParamsStepView::Done(result) => (Seq::empty(), Some(result)),
        ParamsStepView::Pending(left) => if replies.len() == 0 {
            (Seq::empty(), None)
        } else {
            let rest = run_update(after_set(left, replies[0]), replies.skip(1));
            (seq![left[0]] + rest.0, rest.1)
        },
    }
}

/// Where the new parameters cannot be had, the update ends with that error and nothing is set.
pub proof fn nothing_is_set_without_parameters<E>(
    fork_digest: [u8; 4],
    subnets: nat,
    error: E,
    replies: Seq<Result<(), E>>,
)
    ensures
        run_update(first_params_step(fork_digest, subnets, Err(error)), replies) == (
            Seq::<TopicParams>::empty(),
            Some(Err::<(), E>(error)),
        ),
{
}

/// The first parameters that cannot be set end the update with their error: those before them were
/// set and stay so, and none are set after them.
pub proof fn first_failure_ends_the_update<E>(
    left: Seq<TopicParams>,
    replies: Seq<Result<(), E>>,
    k: int,
)
    requires
        0 <= k < left.len(),
        k < replies.len(),
        replies[k] is Err,
        forall|i: int| 0 <= i < k ==> (#[trigger] replies[i]) is Ok,
    ensures
        run_update(ParamsStepView::Pending(left), replies) == (
            left.take(k + 1),
            Some(Err::<(), E>(replies[k]->Err_0)),
        ),
    decreases k,
{
    reveal_with_fuel(run_update, 2);
    if k == 0 {
        assert(left.take(1) =~= seq![left[0]] + Seq::empty());
    } else {
        assert(replies[0] is Ok);
        let rest = replies.skip(1);
        assert forall|i: int| 0 <= i < k - 1 implies (#[trigger] rest[i]) is Ok by {
            assert(rest[i] == replies[i + 1]);
        }
        first_failure_ends_the_update(left.skip(1), rest, k - 1);
        assert(left.take(k + 1) =~= seq![left[0]] + left.skip(1).take(k));
    }
}

/// Where all parameters can be set, each of them is, once and in its turn, and the update succeeds.
pub proof fn update_without_failures_sets_everything<E>(
    left: Seq<TopicParams>,
    replies: Seq<Result<(), E>>,
)
    requires
        0 < left.len() <= replies.len(),
        forall|i: int| 0 <= i < left.len() ==> (#[trigger] replies[i]) is Ok,
    ensures
        run_update(ParamsStepView::Pending(left), replies) == (left, Some(Ok::<(), E>(()))),
    decreases left.len(),
{
    reveal_with_fuel(run_update, 2);
    assert(replies[0] is Ok);
    if left.len() == 1 {
        assert(left =~= seq![left[0]] + Seq::empty());
    } else {
        let rest = replies.skip(1);
        assert forall|i: int| 0 <= i < left.len() - 1 implies (#[trigger] rest[i]) is Ok by {
            assert(rest[i] == replies[i + 1]);
        }
        update_without_failures_sets_everything(left.skip(1), rest);
        assert(left =~= seq![left[0]] + left.skip(1));
    }
}

/// Data is published on a topic if and only if it is that of a message which belongs on the topic
/// of the node's own fork.
pub proof fn every_message_is_published_on_its_topics(
    messages: Seq<PubsubMessage>,
    fork_digest: [u8; 4],
    topic: GossipTopic,
    data: Seq<u8>,
)
    ensures
        all_publications(messages, fork_digest).contains((topic, data)) <==> exists|i: int|
            0 <= i < messages.len() && (#[trigger] messages[i]).data@ == data
                && messages[i].kinds@.contains(topic.kind) && topic == GossipTopic::of_kind(
                topic.kind,
                fork_digest,
            ),
    decreases messages.len(),
{
    if messages.len() > 0 {
        let init = messages.drop_last();
        let last = messages.last();
        let earlier = all_publications(init, fork_digest);
        let own = last.publications(fork_digest);
        let all = earlier + own;
        every_message_is_published_on_its_topics(init, fork_digest, topic, data);
        assert(own.contains((topic, data)) <==> last.data@ == data && last.kinds@.contains(
            topic.kind,
        ) && topic == GossipTopic::of_kind(topic.kind, fork_digest)) by {
            if own.contains((topic, data)) {
                let j = choose|j: int| 0 <= j < own.len() && own[j] == (topic, data);
                assert(last.kinds@[j] == topic.kind);
            }
            if last.data@ == data && last.kinds@.contains(topic.kind) && topic
                == GossipTopic::of_kind(topic.kind, fork_digest) {
                let j = choose|j: int|
                    0 <= j < last.kinds@.len() && last.kinds@[j] == topic.kind;
                assert(own[j] == (topic, data));
            }
        }
        assert(all.contains((topic, data)) <==> earlier.contains((topic, data)) || own.contains(
            (topic, data),
        )) by {
            if earlier.contains((topic, data)) {
                let j = choose|j: int| 0 <= j < earlier.len() && earlier[j] == (topic, data);
                assert(all[j] == (topic, data));
            }
            if own.contains((topic, data)) {
                let j = choose|j: int| 0 <= j < own.len() && own[j] == (topic, data);
                assert(all[earlier.len() + j] == (topic, data));
            }
            if all.contains((topic, data)) {
                let j = choose|j: int| 0 <= j < all.len() && all[j] == (topic, data);
                if j < earlier.len() {
                    assert(earlier[j] == (topic, data));
                } else {
                    assert(own[j - earlier.len()] == (topic, data));
                }
            }
        }
        let belongs = |m: PubsubMessage|
            m.data@ == data && m.kinds@.contains(topic.kind) && topic == GossipTopic::of_kind(
                topic.kind,
                fork_digest,
            );
        if exists|i: int| 0 <= i < init.len() && belongs(#[trigger] init[i]) {
            let i = choose|i: int| 0 <= i < init.len() && belongs(#[trigger] init[i]);
            assert(belongs(messages[i]));
        }
        if belongs(last) {
            assert(belongs(messages[messages.len() - 1]));
        }
        if exists|i: int| 0 <= i < messages.len() && belongs(#[trigger] messages[i]) {
            let i = choose|i: int| 0 <= i < messages.len() && belongs(#[trigger] messages[i]);
            if i < init.len() {
                assert(belongs(init[i]));
            }
        }
    }
}

/// A message that came in is either rejected or handed to the application: the former if and only
/// if it could not be decoded.
pub proof fn messages_are_rejected_or_propagated<Id, C, P>(
    propagation_source: PeerId,
    message_id: MessageId,
    topic: TopicHash,
    decoded: Option<P>,
)
    ensures
        ({
            let outcome = GossipOutcome::<Id, C, P>::of_event(
                GossipsubEvent::Message { propagation_source, message_id, topic, decoded },
            );
            &&& outcome.reject is Some <==> decoded is None
            &&& outcome.event is Some <==> decoded is Some
            &&& outcome.reject matches Some(r) ==> r == (message_id, propagation_source)
        }),
{
}

/// Every attestation subnet has its score parameters set, each exactly once.
pub proof fn every_subnet_is_scored_once(fork_digest: [u8; 4], subnets: nat, subnet: u64)
    requires
        subnets <= u64::MAX,
    ensures
        ({
            let updates = dynamic_topic_params(fork_digest, subnets);
            let topic = GossipTopic::of_kind(GossipKind::Attestation(subnet), fork_digest);
            &&& subnet < subnets ==> updates[subnet + 2].topic == topic
            &&& forall|i: int|
                0 <= i < updates.len() && (#[trigger] updates[i]).topic == topic ==> i == subnet + 2
        }),
{
}

/// A message is published once on the topic of each of its kinds, in their order, on the node's fork and
/// in the default encoding, each time with all of its data.
pub proof fn message_is_published_once_per_kind(
    message: PubsubMessage,
    fork_digest: [u8; 4],
    i: int,
)
    ensures
        message.publications(fork_digest).len() == message.kinds@.len(),
        0 <= i < message.kinds@.len() ==> ({
            let (topic, data) = message.publications(fork_digest)[i];
            &&& topic.kind == message.kinds@[i]
            &&& topic.encoding == GossipEncoding::SSZSnappy
            &&& topic.fork_digest == fork_digest
            &&& data == message.data@
        }),
{
}

/// Messages are published one after the other: first all of one list, then all of what follows it.
/// Publishing a single message is publishing it alone, and without messages nothing is published.
pub proof fn messages_are_published_in_their_order(
    first: Seq<PubsubMessage>,
    second: Seq<PubsubMessage>,
    message: PubsubMessage,
    fork_digest: [u8; 4],
)
    ensures
        all_publications(first + second, fork_digest) == all_publications(first, fork_digest)
            + all_publications(second, fork_digest),
        all_publications(seq![message], fork_digest) == message.publications(fork_digest),
        all_publications(Seq::empty(), fork_digest).len() == 0,
    decreases second.len(),
{
    reveal_with_fuel(all_publications, 2);
    assert(seq![message].drop_last() =~= Seq::empty());
    assert(Seq::empty() + message.publications(fork_digest) =~= message.publications(fork_digest));
    if second.len() == 0 {
        assert(first + second =~= first);
        assert(all_publications(first, fork_digest) + all_publications(second, fork_digest)
            =~= all_publications(first, fork_digest));
    } else {
        let init = second.drop_last();
        messages_are_published_in_their_order(first, init, message, fork_digest);
        assert((first + second).drop_last() =~= first + init);
        assert((first + second).last() == second.last());
        let own = second.last().publications(fork_digest);
        assert(all_publications(first, fork_digest) + all_publications(init, fork_digest) + own
            =~= all_publications(first, fork_digest) + (all_publications(init, fork_digest) + own));
    }
}

/// The views of publications stand for them one by one, topic and data alike.
pub proof fn views_stand_for_each_publication(list: Seq<Publication>, i: int)
    ensures
        publication_views(list).len() == list.len(),
        0 <= i < list.len() ==> publication_views(list)[i] == (list[i].topic, list[i].data@),
{
}

/// Messages that are accepted are not counted, and those that are ignored or rejected are counted as
/// what they are.
pub proof fn only_unaccepted_messages_are_counted(result: MessageAcceptance)
    ensures
        result.label() is None <==> result == MessageAcceptance::Accept,
        result == MessageAcceptance::Ignore ==> result.label() == Some("ignore"),
        result == MessageAcceptance::Reject ==> result.label() == Some("reject"),
{
}

/// The parameters for blocks are set first, then those for aggregates, and then those for the
/// attestations of each subnet, by the number of the subnet: each for its own topic on the node's
/// fork, in the default encoding.
pub proof fn parameters_are_set_for_their_topics(fork_digest: [u8; 4], subnets: nat, i: int)
    requires
        subnets <= u64::MAX,
    ensures
        ({
            let updates = dynamic_topic_params(fork_digest, subnets);
            &&& updates.len() == subnets + 2
            &&& updates[0].params == DynamicParams::BeaconBlock
            &&& updates[0].topic.kind == GossipKind::BeaconBlock
            &&& updates[1].params == DynamicParams::BeaconAggregateAndProof
            &&& updates[1].topic.kind == GossipKind::BeaconAggregateAndProof
            &&& 0 <= i < subnets ==> {
                &&& updates[i + 2].params == DynamicParams::BeaconAttestationSubnet
                &&& updates[i + 2].topic.kind is Attestation
                &&& updates[i + 2].topic.kind->Attestation_0 == i
            }
            &&& 0 <= i < updates.len() ==> {
                &&& updates[i].topic.encoding == GossipEncoding::SSZSnappy
                &&& updates[i].topic.fork_digest == fork_digest
            }
        }),
{
}

/// Setting parameters ends the update with the error if and only if it fails, and with success if and
/// only if they were the last ones. Otherwise the others are left to be set, in their order.
pub proof fn setting_decides_the_update<E>(
    first: TopicParams,
    others: Seq<TopicParams>,
    reply: Result<(), E>,
    left: Seq<TopicParams>,
    error: E,
)
    ensures
        ({
            let step = after_set(seq![first] + others, reply);
            &&& step == ParamsStepView::<E>::Done(Err(error)) <==> reply == Err::<(), E>(error)
            &&& step == ParamsStepView::<E>::Done(Ok(())) <==> reply is Ok && others.len() == 0
            &&& step == ParamsStepView::<E>::Pending(left) <==> reply is Ok && others.len() > 0
                && left == others
        }),
{
    assert((seq![first] + others).skip(1) =~= others);
}

/// An update begins with all of the parameters if and only if they could be had, and ends at once with
/// the error otherwise.
pub proof fn update_begins_with_all_parameters<E>(
    fork_digest: [u8; 4],
    subnets: nat,
    params: Result<(), E>,
    error: E,
)
    ensures
        first_params_step(fork_digest, subnets, params) == ParamsStepView::<E>::Pending(
            dynamic_topic_params(fork_digest, subnets),
        ) <==> params is Ok,
        first_params_step(fork_digest, subnets, params) == ParamsStepView::<E>::Done(Err(error))
            <==> params == Err::<(), E>(error),
{
}

/// A subscription is noted if and only if a peer subscribed to a topic that was decoded and has a
/// subnet, and it is noted of that very peer and that very subnet, of whichever kind. The cached
/// messages of a topic are retried if and only if a peer subscribed to it and it was decoded.
pub proof fn subscriptions_are_noted_as_they_come<Id, C, P>(
    event: GossipsubEvent<P>,
    peer_id: PeerId,
    subnet: Subnet,
    topic: GossipTopic,
)
    ensures
        GossipOutcome::<Id, C, P>::of_event(event).add_subscription == Some((peer_id, subnet))
            <==> {
            &&& event is Subscribed
            &&& event->Subscribed_peer_id == peer_id
            &&& event->Subscribed_topic is Some
            &&& (event->Subscribed_topic->0).1 == Some(subnet)
        },
        GossipOutcome::<Id, C, P>::of_event(event).retry == Some(topic) <==> {
            &&& event is Subscribed
            &&& event->Subscribed_topic is Some
            &&& (event->Subscribed_topic->0).0 == topic
        },
{
}

/// The end of a subscription is noted if and only if a peer unsubscribed from a topic with a subnet,
/// and it is noted of that very peer and that very subnet, of whichever kind.
pub proof fn ends_of_subscriptions_are_noted_as_they_come<Id, C, P>(
    event: GossipsubEvent<P>,
    peer_id: PeerId,
    subnet: Subnet,
)
    ensures
        GossipOutcome::<Id, C, P>::of_event(event).remove_subscription == Some((peer_id, subnet))
            <==> {
            &&& event is Unsubscribed
            &&& event->Unsubscribed_peer_id == peer_id
            &&& event->Unsubscribed_subnet == Some(subnet)
        },
{
}

/// A peer that subscribes to a topic and then unsubscribes from its subnet has nothing noted of it in
/// the end that was not noted before: what the one event adds the other takes away.
pub proof fn unsubscribing_undoes_subscribing<Id, C, P>(
    noted: Set<(PeerId, Subnet)>,
    peer_id: PeerId,
    topic: GossipTopic,
    subnet: Option<Subnet>,
)
    requires
        subnet is Some ==> !noted.contains((peer_id, subnet->0)),
    ensures
        ({
            let came = GossipOutcome::<Id, C, P>::of_event(
                GossipsubEvent::Subscribed { peer_id, topic: Some((topic, subnet)) },
            );
            let went = GossipOutcome::<Id, C, P>::of_event(
                GossipsubEvent::Unsubscribed { peer_id, subnet },
            );
            let with = match came.add_subscription {
                Some(added) => noted.insert(added),
                None => noted,
            };
            let without = match went.remove_subscription {
                Some(removed) => with.remove(removed),
                None => with,
            };
            &&& without == noted
            &&& came.add_subscription == went.remove_subscription
            &&& came.add_subscription is Some <==> subnet is Some
            &&& came.remove_subscription is None && went.add_subscription is None
        }),
{
    if let Some(s) = subnet {
        assert(noted.insert((peer_id, s)).remove((peer_id, s)) =~= noted);
    }
}

/// A message is rejected if and only if it came in and could not be decoded, with its identifier and
/// the peer that sent it. The application is handed a message if and only if it came in and was
/// decoded, as it was decoded, with its identifier, its topic and the peer that sent it; of no
/// other event is it handed anything.
pub proof fn messages_are_handed_on_as_they_come<Id, C, P>(
    event: GossipsubEvent<P>,
    id: MessageId,
    source: PeerId,
    topic: TopicHash,
    message: P,
)
    ensures
        GossipOutcome::<Id, C, P>::of_event(event).reject == Some((id, source)) <==> {
            &&& event is Message
            &&& event->Message_message_id == id
            &&& event->Message_propagation_source == source
            &&& event->Message_decoded is None
        },
        GossipOutcome::<Id, C, P>::of_event(event).event == Some(
            NetworkEvent::<Id, C, P>::PubsubMessage { id, source, topic, message },
        ) <==> {
            &&& event is Message
            &&& event->Message_message_id == id
            &&& event->Message_propagation_source == source
            &&& event->Message_topic == topic
            &&& event->Message_decoded == Some(message)
        },
        GossipOutcome::<Id, C, P>::of_event(event).event is Some <==> event is Message
            && event->Message_decoded is Some,
{
}

/// A step of an update stands for the parameters that its list still holds, or for its own result.
pub proof fn steps_stand_for_what_they_hold<E>(
    step: ParamsStep<E>,
    left: Seq<TopicParams>,
    result: Result<(), E>,
)
    ensures
        step@ == ParamsStepView::<E>::Pending(left) <==> step is Pending && step->Pending_0@ == left,
        step@ == ParamsStepView::<E>::Done(result) <==> step == ParamsStep::Done(result),
{
}

} // verus!
