//! Channel subscription and publication on top of gossipsub.
//!
//! The gossipsub behaviour is an outside value; of it the library sees the set
//! of topics it is subscribed to (the keys of its mesh) and the mesh size it
//! was configured with.

use vstd::prelude::*;
use crate::error::{AfriMeshError, AfriMeshResult};
use libp2p::gossipsub::{Behaviour, ConfigBuilder, MessageAuthenticity, ValidationMode};
use std::time::Duration;

verus! {

#[verifier::external_type_specification]
#[verifier::external_body]
#[verifier::reject_recursive_types(D)]
#[verifier::reject_recursive_types(F)]
pub struct ExGossipBehaviour<D, F>(libp2p::gossipsub::Behaviour<D, F>);

#[verifier::external_type_specification]
#[verifier::external_body]
pub struct ExIdentityTransform(libp2p::gossipsub::IdentityTransform);

#[verifier::external_type_specification]
#[verifier::external_body]
pub struct ExAllowAllSubscriptionFilter(libp2p::gossipsub::AllowAllSubscriptionFilter);

#[verifier::external_type_specification]
#[verifier::external_body]
pub struct ExMessageId(libp2p::gossipsub::MessageId);

#[verifier::external_type_specification]
#[verifier::external_body]
pub struct ExKeypair(libp2p::identity::Keypair);

/// How strictly a gossipsub behaviour checks the messages it receives: the
/// modes of `gossipsub::ValidationMode`.
#[derive(Debug, Clone, Copy, PartialEq, Eq, Structural)]
pub enum Validation {
    Strict,
    Permissive,
    Anonymous,
    Unchecked,
}

/// The topic of the classroom chat.
pub const CHAT_TOPIC: &'static str = "classroom-chat";

/// The topics (by their identity hash, the topic name itself) that the
/// behaviour is subscribed to: the keys of its mesh.
pub uninterp spec fn subscribed_topics(b: libp2p::gossipsub::Behaviour) -> Set<Seq<char>>;

/// The mesh size (`mesh_n`) of the configuration the behaviour was built with.
pub uninterp spec fn mesh_target(b: libp2p::gossipsub::Behaviour) -> nat;

/// The messages held in the behaviour's message cache, one entry per cached
/// message id, each as its topic (identity hash) and its data bytes.
pub uninterp spec fn cached_messages(b: libp2p::gossipsub::Behaviour) -> vstd::multiset::Multiset<
    (Seq<char>, Seq<u8>),
>;

/// The topics on which the behaviour knows subscribed peers (the keys of its
/// table of topic peers).
pub uninterp spec fn peered_topics(b: libp2p::gossipsub::Behaviour) -> Set<Seq<char>>;

/// Whether the behaviour signs what it publishes (it was built with
/// `MessageAuthenticity::Signed`) and its configuration keeps gossipsub's
/// default message-id function (the source peer id followed by the sequence
/// number). Then the sequence number and the message id of a publication
/// follow from the behaviour's state.
pub uninterp spec fn ids_from_state(b: libp2p::gossipsub::Behaviour) -> bool;

/// The largest message, in bytes, that the behaviour's configuration lets it
/// transmit (`max_transmit_size`).
pub uninterp spec fn max_transmit_size(b: libp2p::gossipsub::Behaviour) -> nat;

/// Whether a behaviour of which `ids_from_state` holds, in the state `b`,
/// accepts to publish `data` on `topic`: a function of its peers, scores,
/// caches, configuration, keys and sequence number.
pub uninterp spec fn publish_accepted(b: libp2p::gossipsub::Behaviour, topic: Seq<char>, data: Seq<
    u8,
>) -> bool;

/// The topics for which the behaviour keeps fanout peers: topics it
/// publishes on without being subscribed (the keys of its fanout table).
pub uninterp spec fn fanout_topics(b: libp2p::gossipsub::Behaviour) -> Set<Seq<char>>;

/// The publications waiting in the behaviour's queue of messages to peers,
/// each as its topic and data: one `RpcOut::Publish` per recipient peer.
pub uninterp spec fn queued_publications(b: libp2p::gossipsub::Behaviour) -> vstd::multiset::Multiset<
    (Seq<char>, Seq<u8>),
>;

/// What a publication may do to the message cache: on success it adds one
/// entry for the published message, or none when an entry with the same
/// message id is already cached; on failure it leaves the cache alone.
pub open spec fn publish_cache_effect(
    before: vstd::multiset::Multiset<(Seq<char>, Seq<u8>)>,
    after: vstd::multiset::Multiset<(Seq<char>, Seq<u8>)>,
    topic: Seq<char>,
    data: Seq<u8>,
    succeeded: bool,
) -> bool {
    if succeeded {
        after == before || after == before.insert((topic, data))
    } else {
        after == before
    }
}

/// The parts of the behaviour that neither subscribing nor publishing
/// changes: its configuration, its signing and id function, and the peers it
/// knows per topic.
pub open spec fn setup_kept(before: libp2p::gossipsub::Behaviour, after: libp2p::gossipsub::Behaviour) -> bool {
    &&& mesh_target(after) == mesh_target(before)
    &&& max_transmit_size(after) == max_transmit_size(before)
    &&& ids_from_state(after) == ids_from_state(before)
    &&& peered_topics(after) == peered_topics(before)
}

/// `after` is `before` with at least one more copy of `(topic, data)` and
/// nothing else changed.
pub open spec fn publication_queued(
    before: vstd::multiset::Multiset<(Seq<char>, Seq<u8>)>,
    after: vstd::multiset::Multiset<(Seq<char>, Seq<u8>)>,
    topic: Seq<char>,
    data: Seq<u8>,
) -> bool {
    &&& after.count((topic, data)) > before.count((topic, data))
    &&& forall|x: (Seq<char>, Seq<u8>)| x != (topic, data) ==> #[trigger] after.count(x) == before.count(x)
}

/// What publishing `data` on `topic` does to the behaviour: the
/// subscriptions and the setup stay, the topic may gain fanout peers; a
/// success queues the message for at least one peer and caches it at most
/// once; a failure queues and caches nothing.
pub open spec fn publish_effect(
    before: libp2p::gossipsub::Behaviour,
    after: libp2p::gossipsub::Behaviour,
    topic: Seq<char>,
    data: Seq<u8>,
    succeeded: bool,
) -> bool {
    &&& subscribed_topics(after) == subscribed_topics(before)
    &&& setup_kept(before, after)
    &&& fanout_topics(after) == fanout_topics(before) || fanout_topics(after) == fanout_topics(
        before,
    ).insert(topic)
    &&& publish_cache_effect(cached_messages(before), cached_messages(after), topic, data, succeeded)
    &&& if succeeded {
        publication_queued(queued_publications(before), queued_publications(after), topic, data)
    } else {
        queued_publications(after) == queued_publications(before)
    }
}

/// What subscribing to `topic` does to the behaviour: the setup, the cache and
/// the queued publications stay; an existing subscription changes nothing;
/// a new one drops the topic's fanout entry and adds the topic, which it
/// surely does when the configured mesh size is positive or the topic had
/// fanout peers.
pub open spec fn subscribe_effect(
    before: libp2p::gossipsub::Behaviour,
    after: libp2p::gossipsub::Behaviour,
    topic: Seq<char>,
) -> bool {
    &&& setup_kept(before, after)
    &&& cached_messages(after) == cached_messages(before)
    &&& queued_publications(after) == queued_publications(before)
    &&& if subscribed_topics(before).contains(topic) {
        &&& subscribed_topics(after) == subscribed_topics(before)
        &&& fanout_topics(after) == fanout_topics(before)
    } else {
        &&& fanout_topics(after) == fanout_topics(before).remove(topic)
        &&& subscribed_topics(after) == subscribed_topics(before).insert(topic)
            || subscribed_topics(after) == subscribed_topics(before)
        &&& mesh_target(before) > 0 || fanout_topics(before).contains(topic)
            ==> subscribed_topics(after) == subscribed_topics(before).insert(topic)
    }
}

/// Calls `gossipsub::Behaviour::subscribe` with `IdentTopic::new(topic)`.
/// Claimed, as its source shows for the allow-all subscription filter: it
/// succeeds, with `true` exactly when the topic was not yet in the mesh; it
/// adds at most that topic to the mesh, and adds it whenever the configured
/// mesh size is positive; the configuration is unchanged.
#[verifier::external_body]
fn gossip_subscribe(gossip: &mut libp2p::gossipsub::Behaviour, topic: &str) -> (r: Result<
    bool,
    libp2p::gossipsub::SubscriptionError,
>)
    ensures
        r == Ok::<bool, libp2p::gossipsub::SubscriptionError>(
            !subscribed_topics(*old(gossip)).contains(topic@),
        ),
        mesh_target(*final(gossip)) == mesh_target(*old(gossip)),
        max_transmit_size(*final(gossip)) == max_transmit_size(*old(gossip)),
        ids_from_state(*final(gossip)) == ids_from_state(*old(gossip)),
        peered_topics(*final(gossip)) == peered_topics(*old(gossip)),
        cached_messages(*final(gossip)) == cached_messages(*old(gossip)),
        queued_publications(*final(gossip)) == queued_publications(*old(gossip)),
        subscribed_topics(*old(gossip)).contains(topic@) ==> subscribed_topics(*final(gossip))
            == subscribed_topics(*old(gossip)) && fanout_topics(*final(gossip)) == fanout_topics(
            *old(gossip),
        ),
        !subscribed_topics(*old(gossip)).contains(topic@) ==> fanout_topics(*final(gossip))
            == fanout_topics(*old(gossip)).remove(topic@),
        subscribed_topics(*final(gossip)) == subscribed_topics(*old(gossip)).insert(topic@)
            || subscribed_topics(*final(gossip)) == subscribed_topics(*old(gossip)),
        mesh_target(*old(gossip)) > 0 || fanout_topics(*old(gossip)).contains(topic@)
            ==> subscribed_topics(*final(gossip)) == subscribed_topics(*old(gossip)).insert(topic@),
{
    gossip.subscribe(&libp2p::gossipsub::IdentTopic::new(topic))
}

/// Calls `gossipsub::Behaviour::publish` with `IdentTopic::new(topic)` and
/// the bytes `data`. Claimed, as its source shows for the identity data
/// transform: `publish_effect` holds (the subscriptions, the configuration,
/// the signing and the peers known per topic are unchanged; in the fanout
/// branch the topic enters the fanout table, success or not; a success sends
/// `RpcOut::Publish` of the message to each of its recipients, of which there
/// is at least one, and a failure returns before any send); it fails when no peer is known on the
/// topic, and when the data alone is longer than the configured transmit size
/// (the encoded message holding it is longer still); for a signing behaviour
/// with the default message-id function it succeeds exactly when
/// `publish_accepted` holds of its state, the topic and the data; a failure leaves the message
/// cache alone, and a success puts one entry for the message (topic and
/// unchanged data) in it unless its message id is already cached. It panics
/// only once the sequence numbers of a signing behaviour have run through the
/// 64-bit range, which is left unsaid.
#[verifier::external_body]
fn gossip_publish(gossip: &mut libp2p::gossipsub::Behaviour, topic: &str, data: &[u8]) -> (r: Result<
    libp2p::gossipsub::MessageId,
    libp2p::gossipsub::PublishError,
>)
    ensures
        subscribed_topics(*final(gossip)) == subscribed_topics(*old(gossip)),
        mesh_target(*final(gossip)) == mesh_target(*old(gossip)),
        max_transmit_size(*final(gossip)) == max_transmit_size(*old(gossip)),
        ids_from_state(*final(gossip)) == ids_from_state(*old(gossip)),
        peered_topics(*final(gossip)) == peered_topics(*old(gossip)),
        fanout_topics(*final(gossip)) == fanout_topics(*old(gossip)) || fanout_topics(*final(gossip))
            == fanout_topics(*old(gossip)).insert(topic@),
        r is Ok ==> cached_messages(*final(gossip)) == cached_messages(*old(gossip))
            || cached_messages(*final(gossip)) == cached_messages(*old(gossip)).insert(
            (topic@, data@),
        ),
        r is Ok ==> publication_queued(
            queued_publications(*old(gossip)),
            queued_publications(*final(gossip)),
            topic@,
            data@,
        ),
        r is Err ==> cached_messages(*final(gossip)) == cached_messages(*old(gossip))
            && queued_publications(*final(gossip)) == queued_publications(*old(gossip)),
        !peered_topics(*old(gossip)).contains(topic@) ==> r is Err,
        data@.len() > max_transmit_size(*old(gossip)) ==> r is Err,
        ids_from_state(*old(gossip)) ==> (r is Ok <==> publish_accepted(*old(gossip), topic@, data@)),
{
    gossip.publish(libp2p::gossipsub::IdentTopic::new(topic), data)
}

/// A behaviour fresh from construction with signing and the default
/// configuration: it signs with the default message-id function, has a mesh
/// size of 6 and a transmit limit of 65536 bytes, and has no subscription,
/// known peer, fanout, cached message or queued publication yet.
pub open spec fn fresh_signed(b: libp2p::gossipsub::Behaviour) -> bool {
    &&& ids_from_state(b)
    &&& mesh_target(b) == 6
    &&& max_transmit_size(b) == 65536
    &&& subscribed_topics(b).is_empty()
    &&& peered_topics(b).is_empty()
    &&& fanout_topics(b).is_empty()
    &&& cached_messages(b).len() == 0
    &&& queued_publications(b).len() == 0
}

/// Builds `gossipsub::ConfigBuilder::default()` with a heartbeat of
/// `heartbeat_secs` seconds and the validation mode `validation`, then
/// `gossipsub::Behaviour::new(MessageAuthenticity::Signed(key), config)`;
/// an error comes back as its text. Claimed, as the sources show: the
/// default configuration passes `build`'s checks (heartbeat and validation
/// mode take no part in them), and `Behaviour::new` refuses signing only
/// with the anonymous validation mode; the behaviour is then `fresh_signed`
/// (mesh size 6, transmit limit 65536, default message ids, every table
/// empty). Left unsaid: `new` reads the system clock for its first sequence
/// number and panics if the clock is set before 1970.
#[verifier::external_body]
fn signed_gossip(key: &libp2p::identity::Keypair, heartbeat_secs: u64, validation: Validation) -> (r:
    Result<libp2p::gossipsub::Behaviour, String>)
    requires
        heartbeat_secs > 0,
    ensures
        r is Ok <==> !(validation is Anonymous),
        r matches Ok(b) ==> ids_from_state(b) && mesh_target(b) == 6 && max_transmit_size(b)
            == 65536 && subscribed_topics(b).is_empty() && peered_topics(b).is_empty()
            && fanout_topics(b).is_empty() && cached_messages(b).len() == 0
            && queued_publications(b).len() == 0,
{
    let mode = match validation {
        Validation::Strict => ValidationMode::Strict,
        Validation::Permissive => ValidationMode::Permissive,
        Validation::Anonymous => ValidationMode::Anonymous,
        Validation::Unchecked => ValidationMode::None,
    };
    let built = ConfigBuilder::default().heartbeat_interval(Duration::from_secs(heartbeat_secs))
        .validation_mode(mode).build();
    match built {
        Ok(config) => match Behaviour::new(MessageAuthenticity::Signed(key.clone()), config) {
            Ok(b) => Ok(b),
            Err(e) => Err(e.to_string()),
        },
        Err(e) => Err(e.to_string()),
    }
}

/// An `std::io::Error` of kind `Other` with the message `msg`
/// (`std::io::Error::new`); nothing is claimed of it.
#[verifier::external_body]
fn other_io_error(msg: String) -> std::io::Error {
    std::io::Error::new(std::io::ErrorKind::Other, msg)
}

/// The gossipsub behaviour of a chat node: messages signed with `key`, a
/// heartbeat every second and strict validation of what is received. It is
/// always built, fresh.
pub fn chat_gossip(key: &libp2p::identity::Keypair) -> (r: AfriMeshResult<libp2p::gossipsub::Behaviour>)
    ensures
        r is Ok,
        r matches Ok(b) ==> fresh_signed(b),
{
    match signed_gossip(key, 1, Validation::Strict) {
        Ok(b) => Ok(b),
        Err(msg) => Err(AfriMeshError::Io(other_io_error(msg))),
    }
}

/// What a subscription reports: whether the topic is new.
pub open spec fn subscribe_reports(topics: Set<Seq<char>>, topic: Seq<char>) -> bool {
    !topics.contains(topic)
}

/// Subscribes the behaviour to the topic named `topic_name`. Returns
/// `Ok(true)` when the subscription is new and `Ok(false)` when it was
/// already there.
pub fn subscribe(gossip: &mut libp2p::gossipsub::Behaviour, topic_name: &str) -> (r: AfriMeshResult<bool>)
    ensures
        r == Ok::<bool, AfriMeshError>(
            subscribe_reports(subscribed_topics(*old(gossip)), topic_name@),
        ),
        subscribe_effect(*old(gossip), *final(gossip), topic_name@),
{
    match gossip_subscribe(gossip, topic_name) {
        Ok(fresh) => Ok(fresh),
        Err(e) => Err(AfriMeshError::SubscribeFailed(e)),
    }
}

/// What publication answers for each outcome of gossipsub: its message id,
/// or its refusal as `PublishFailed`.
pub fn publish_outcome(r: Result<libp2p::gossipsub::MessageId, libp2p::gossipsub::PublishError>) -> (out:
    AfriMeshResult<libp2p::gossipsub::MessageId>)
    ensures
        match r {
            Ok(id) => out == Ok::<libp2p::gossipsub::MessageId, AfriMeshError>(id),
            Err(e) => out == Err::<libp2p::gossipsub::MessageId, AfriMeshError>(
                AfriMeshError::PublishFailed(e),
            ),
        },
{
    match r {
        Ok(id) => Ok(id),
        Err(e) => Err(AfriMeshError::PublishFailed(e)),
    }
}

/// Publishes the UTF-8 bytes of `message` on the topic named `topic_name`.
/// A refusal of gossipsub comes back as `PublishFailed`. It is refused when no
/// peer is known on the topic and when its bytes exceed the configured
/// transmit size; a signing behaviour with the default message-id function
/// accepts it exactly when `publish_accepted` holds. A success queues the
/// message for at least one peer and caches it at most once; a failure
/// queues and caches nothing (`publish_effect`).
pub fn publish(gossip: &mut libp2p::gossipsub::Behaviour, topic_name: &str, message: String) -> (r:
    AfriMeshResult<libp2p::gossipsub::MessageId>)
    ensures
        r is Err ==> r->Err_0 is PublishFailed,
        publish_effect(
            *old(gossip),
            *final(gossip),
            topic_name@,
            vstd::utf8::encode_utf8(message@),
            r is Ok,
        ),
        !peered_topics(*old(gossip)).contains(topic_name@) ==> r is Err,
        vstd::utf8::encode_utf8(message@).len() > max_transmit_size(*old(gossip)) ==> r is Err,
        ids_from_state(*old(gossip)) ==> (r is Ok <==> publish_accepted(
            *old(gossip),
            topic_name@,
            vstd::utf8::encode_utf8(message@),
        )),
{
    let answer = gossip_publish(gossip, topic_name, message.as_str().as_bytes());
    publish_outcome(answer)
}

/// Subscribing is idempotent: once a subscription has been taken (with a
/// positive mesh size), subscribing to the same topic again reports that it
/// is not new and leaves the subscribed topics as they are.
pub proof fn lemma_subscribe_twice(topics: Set<Seq<char>>, topic: Seq<char>)
    ensures
        !subscribe_reports(topics.insert(topic), topic),
        topics.insert(topic).insert(topic) == topics.insert(topic),
{
    assert(topics.insert(topic).insert(topic) =~= topics.insert(topic));
}

/// On a fresh chat behaviour, the first subscription to a topic is new and
/// takes, and a second one reports that it is not new and changes nothing.
pub proof fn lemma_fresh_subscribe_twice(
    b0: libp2p::gossipsub::Behaviour,
    b1: libp2p::gossipsub::Behaviour,
    b2: libp2p::gossipsub::Behaviour,
    topic: Seq<char>,
)
    requires
        fresh_signed(b0),
        subscribe_effect(b0, b1, topic),
        subscribe_effect(b1, b2, topic),
    ensures
        subscribe_reports(subscribed_topics(b0), topic),
        subscribed_topics(b1) == set![topic],
        !subscribe_reports(subscribed_topics(b1), topic),
        subscribed_topics(b2) == subscribed_topics(b1),
{
    assert(subscribed_topics(b0).insert(topic) =~= set![topic]);
}

} // verus!
