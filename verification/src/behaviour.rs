//! The chat's gossip layer: gossipsub publishes messages to peers, and the peers that mDNS
//! finds on the local network become gossipsub's explicit peers. mDNS itself is opened and
//! asked by the program, since its type cannot be named here.
use vstd::prelude::*;
use vstd::utf8::{decode_utf8, valid_utf8};
use libp2p::gossipsub::{
    self, ConfigBuilderError, IdentTopic, MessageAuthenticity, MessageId, PublishError,
    ValidationMode,
};
use libp2p::identity::Keypair;
use libp2p::PeerId;
use crate::account::Account;
use crate::identity::{
    is_ed25519_public_key, keypair_public_key, peer_id_bytes_held, peer_id_of_public_key,
};
use crate::message_id::{is_generator_message_id, message_id_bytes_held, next_message_id};
use crate::numerals::{decimal_chars, decimal_string};

verus! {

#[verifier::external_type_specification]
#[verifier::external_body]
#[verifier::reject_recursive_types(D)]
#[verifier::reject_recursive_types(F)]
pub struct ExGossipsub<D, F>(gossipsub::Behaviour<D, F>);

#[verifier::external_type_specification]
#[verifier::external_body]
pub struct ExIdentityTransform(gossipsub::IdentityTransform);

#[verifier::external_type_specification]
#[verifier::external_body]
pub struct ExAllowAllSubscriptionFilter(gossipsub::AllowAllSubscriptionFilter);

#[verifier::external_type_specification]
#[verifier::external_body]
pub struct ExGossipConfig(gossipsub::Config);

#[verifier::external_type_specification]
#[verifier::external_body]
pub struct ExConfigBuilderError(gossipsub::ConfigBuilderError);

#[verifier::external_type_specification]
#[verifier::external_body]
pub struct ExValidationMode(gossipsub::ValidationMode);

#[verifier::external_type_specification]
#[verifier::external_body]
pub struct ExPublishError(gossipsub::PublishError);

/// The topic that broadcast messages are published to.
pub const CHAT_TOPIC: &'static str = "test-net";

/// The start of the name of the topic that the messages for one peer are published to.
pub const DIRECT_TOPIC: &'static str = "direct-messages";

/// How gossipsub checks the signature and author of the messages it receives.
#[derive(Clone, Copy)]
pub enum MessageValidation {
    /// Messages must be signed, with author and sequence number.
    Strict,
    /// Signatures are checked where present.
    Permissive,
    /// Messages must carry no signature, author or sequence number.
    Anonymous,
    /// Nothing is checked.
    Unchecked,
}

/// The gossipsub settings that the chat chooses; all others keep gossipsub's defaults.
pub struct GossipSettings {
    /// The time between two heartbeats, in seconds.
    pub heartbeat_secs: u64,
    pub validation: MessageValidation,
    /// The largest message that gossipsub sends or accepts, in bytes.
    pub max_transmit_size: usize,
}

/// The settings of the chat: a heartbeat every 10 seconds, so that the log stays readable;
/// strict validation, so that every message is signed; messages of at most 1 MiB.
pub fn chat_gossip_settings() -> (s: GossipSettings)
    ensures
        s.heartbeat_secs == 10,
        s.validation is Strict,
        s.max_transmit_size == 1_048_576,
{
    GossipSettings { heartbeat_secs: 10, validation: MessageValidation::Strict, max_transmit_size: 1_048_576 }
}

/// A gossipsub configuration, and the heartbeat, validation mode and largest message size it
/// was built with.
struct GossipConfig {
    config: gossipsub::Config,
    heartbeat_secs: u64,
    validation: MessageValidation,
    max_transmit_size: usize,
}

impl GossipConfig {
    /// The heartbeat interval, in seconds, that the configuration was built with.
    spec fn heartbeat(self) -> u64 {
        self.heartbeat_secs
    }

    /// The validation mode that the configuration was built with.
    spec fn validation(self) -> MessageValidation {
        self.validation
    }

    /// The largest message size that the configuration was built with.
    spec fn transmit_limit(self) -> usize {
        self.max_transmit_size
    }
}

/// Converts a validation mode to gossipsub's own enum, variant for variant.
#[verifier::external_body]
fn validation_mode(v: &MessageValidation) -> ValidationMode {
    match v {
        MessageValidation::Strict => ValidationMode::Strict,
        MessageValidation::Permissive => ValidationMode::Permissive,
        MessageValidation::Anonymous => ValidationMode::Anonymous,
        MessageValidation::Unchecked => ValidationMode::None,
    }
}

/// `ConfigBuilder::build`, on `ConfigBuilder::default()` with the heartbeat interval, the
/// validation mode and the largest message size of `settings` set, and with message ids drawn
/// by `next_message_id`, each a generator id, hashed, in decimal. Of the checks in
/// `build`, only the size is not met by the defaults: it succeeds exactly when the largest
/// message size is at least 100 bytes.
#[verifier::external_body]
fn build_gossip_config(settings: &GossipSettings) -> (r: Result<GossipConfig, ConfigBuilderError>)
    ensures
        r is Ok <==> settings.max_transmit_size >= 100,
        r matches Ok(c) ==> c.validation() == settings.validation && c.transmit_limit()
            == settings.max_transmit_size && c.heartbeat() == settings.heartbeat_secs
            && config_assigns_generator_ids(c.config),
{
    let mut builder = gossipsub::ConfigBuilder::default();
    builder.heartbeat_interval(std::time::Duration::from_secs(settings.heartbeat_secs))
        .validation_mode(validation_mode(&settings.validation))
        .max_transmit_size(settings.max_transmit_size)
        .message_id_fn(|_message: &gossipsub::Message| next_message_id());
    let (heartbeat_secs, validation) = (settings.heartbeat_secs, settings.validation);
    let max_transmit_size = settings.max_transmit_size;
    builder.build().map(
        |config| GossipConfig { config, heartbeat_secs, validation, max_transmit_size },
    )
}

/// `gossipsub::Behaviour::new` with `MessageAuthenticity::Signed(keys)`: messages are signed
/// with the key pair, whose public key the behaviour keeps, and name as their author the peer
/// id of that public key (`PublicKey::to_peer_id`). The source refuses the
/// configuration only when its validation mode is `Anonymous`, which forbids signatures. It
/// divides by the heartbeat interval and adds five seconds to it, so a heartbeat of zero, or
/// one within five seconds of `u64::MAX`, panics; `requires` leaves them out. A new behaviour
/// keeps the configuration's heartbeat, validation mode, largest message size and message-id
/// function (`Config::message_id` calls it for every message published), is
/// subscribed to no topic, knows no connected peer, no explicit peer, no message and no
/// published id.
#[verifier::external_body]
fn signed_gossipsub(keys: Keypair, config: GossipConfig) -> (r: Result<
    gossipsub::Behaviour,
    &'static str,
>)
    requires
        1 <= config.heartbeat() <= u64::MAX - 5,
    ensures
        r is Ok <==> !(config.validation() is Anonymous),
        r matches Ok(b) ==> {
            &&& explicit_peers(b) == Set::<Seq<u8>>::empty()
            &&& transmit_limit(b) == config.transmit_limit()
            &&& heartbeat_secs(b) == config.heartbeat()
            &&& validation_of(b) == config.validation()
            &&& signing_key(b) == Some(keypair_public_key(keys))
            &&& message_author(b) == Some(peer_id_of_public_key(keypair_public_key(keys)))
            &&& subscribed_topics(b) == Set::<Seq<char>>::empty()
            &&& connected_peers(b) == Set::<Seq<u8>>::empty()
            &&& message_cache(b) == Map::<Seq<u8>, (Seq<char>, Seq<u8>)>::empty()
            &&& published_ids(b) == Set::<Seq<u8>>::empty()
            &&& assigns_generator_ids(b) == config_assigns_generator_ids(config.config)
        },
{
    gossipsub::Behaviour::new(MessageAuthenticity::Signed(keys), config.config)
}

/// Whether the message-id function of a gossipsub configuration gives every message an id of
/// this chat (`is_generator_message_id`): a generator id, hashed, in decimal.
pub uninterp spec fn config_assigns_generator_ids(config: gossipsub::Config) -> bool;

/// Whether every id that a gossipsub gives the messages it publishes is an id of this chat
/// (`is_generator_message_id`): the ids of its configuration's message-id function.
pub uninterp spec fn assigns_generator_ids(gossipsub: gossipsub::Behaviour) -> bool;

/// The heartbeat interval of a gossipsub, in seconds, as configured.
pub uninterp spec fn heartbeat_secs(gossipsub: gossipsub::Behaviour) -> nat;

/// The validation mode of a gossipsub, as configured.
pub uninterp spec fn validation_of(gossipsub: gossipsub::Behaviour) -> MessageValidation;

/// The public key, in its protobuf encoding, with whose key pair a gossipsub signs the
/// messages it publishes; `None` when it does not sign.
pub uninterp spec fn signing_key(gossipsub: gossipsub::Behaviour) -> Option<Seq<u8>>;

/// The peer id, by its bytes, that a gossipsub names as the author of the messages it
/// publishes; `None` when it names none.
pub uninterp spec fn message_author(gossipsub: gossipsub::Behaviour) -> Option<Seq<u8>>;

/// The topics a gossipsub is subscribed to (those it keeps a mesh for), by name.
pub uninterp spec fn subscribed_topics(gossipsub: gossipsub::Behaviour) -> Set<Seq<char>>;

/// The peers a gossipsub is connected to, each by the bytes of its peer id.
pub uninterp spec fn connected_peers(gossipsub: gossipsub::Behaviour) -> Set<Seq<u8>>;

/// The messages a gossipsub keeps in its message cache, by the bytes of their message id:
/// the topic each was published on (by name) and its data.
pub uninterp spec fn message_cache(gossipsub: gossipsub::Behaviour) -> Map<
    Seq<u8>,
    (Seq<char>, Seq<u8>),
>;

/// The ids of the messages that gossipsub published or received lately (its duplicate cache),
/// each by its bytes. A message whose id is there is not published again.
pub uninterp spec fn published_ids(gossipsub: gossipsub::Behaviour) -> Set<Seq<u8>>;

/// The peers that gossipsub treats as explicit peers, each by the bytes of its peer id
/// (`PeerId::to_bytes`). Gossipsub changes this set only in `add_explicit_peer` and
/// `remove_explicit_peer`.
pub uninterp spec fn explicit_peers(gossipsub: gossipsub::Behaviour) -> Set<Seq<u8>>;

/// The largest message, in bytes, that gossipsub publishes: the size it was configured with,
/// which no call changes.
pub uninterp spec fn transmit_limit(gossipsub: gossipsub::Behaviour) -> nat;

/// Whether `bytes` are the byte form of a peer id, as `PeerId::from_bytes` reads one: a
/// multihash with the SHA-256 code (0x12) and a digest of at most 64 bytes, or with the
/// identity code (0) and an inlined key of at most 42 bytes, and no byte after the digest.
/// Both the code and the length fit in one varint byte, so the form is canonical: the peer id
/// read from such bytes has these same bytes.
pub open spec fn peer_id_bytes_are_valid(bytes: Seq<u8>) -> bool {
    &&& bytes.len() >= 2
    &&& (bytes[0] == 0x12 && bytes[1] <= 64) || (bytes[0] == 0 && bytes[1] <= 42)
    &&& bytes.len() == 2 + bytes[1]
}

/// Why gossipsub did not publish a message: `PublishError`, variant for variant, with the
/// debugging text of the outside error that two variants carry.
#[derive(Debug)]
pub enum PublishFailure {
    /// The message was published before.
    Duplicate,
    /// Signing the message failed.
    SigningError(String),
    /// No peer to send the message to.
    InsufficientPeers,
    /// The message is larger than the transmit limit.
    MessageTooLarge,
    /// Transforming the data failed.
    TransformFailed(String),
    /// The queues of all these many peers were full.
    AllQueuesFull(usize),
}

/// Whether a gossipsub signs the messages it publishes, with an Ed25519 key.
pub open spec fn signs_with_ed25519(gossipsub: gossipsub::Behaviour) -> bool {
    signing_key(gossipsub) matches Some(k) && is_ed25519_public_key(k)
}

/// What holds after `gossipsub` became `after` by publishing `data` on `topic` with result `r`.
/// The settings, the explicit peers and the signing key stay; a message published gets its id
/// from the configuration's message-id function. Data is refused as too large
/// exactly when it is larger than the transmit limit, and never fails to transform. Signing
/// with an Ed25519 key does not fail, and nothing is a duplicate while no id was published.
/// Without connected peers the message is refused, and neither the peers, the published ids
/// nor the message cache change. A message published has an id that was not among the
/// published ids, is then in the message cache and among the published ids under it, and if
/// the id was new to the cache, with its topic and data.
pub open spec fn publish_outcome(
    gossipsub: gossipsub::Behaviour,
    after: gossipsub::Behaviour,
    topic: Seq<char>,
    data: Seq<u8>,
    r: Result<MessageId, PublishFailure>,
) -> bool {
    &&& explicit_peers(after) == explicit_peers(gossipsub)
    &&& transmit_limit(after) == transmit_limit(gossipsub)
    &&& heartbeat_secs(after) == heartbeat_secs(gossipsub)
    &&& validation_of(after) == validation_of(gossipsub)
    &&& signing_key(after) == signing_key(gossipsub)
    &&& message_author(after) == message_author(gossipsub)
    &&& subscribed_topics(after) == subscribed_topics(gossipsub)
    &&& assigns_generator_ids(after) == assigns_generator_ids(gossipsub)
    &&& assigns_generator_ids(gossipsub) && r is Ok ==> is_generator_message_id(
        message_id_bytes_held(r->Ok_0),
    )
    &&& r is Ok ==> !published_ids(gossipsub).contains(message_id_bytes_held(r->Ok_0))
    &&& (r matches Err(PublishFailure::MessageTooLarge)) <==> data.len() > transmit_limit(gossipsub)
    &&& !(r matches Err(PublishFailure::TransformFailed(_)))
    &&& signs_with_ed25519(gossipsub) ==> !(r matches Err(PublishFailure::SigningError(_)))
    &&& published_ids(gossipsub) == Set::<Seq<u8>>::empty() ==> !(r matches Err(
        PublishFailure::Duplicate,
    ))
    &&& connected_peers(gossipsub) == Set::<Seq<u8>>::empty() ==> {
        &&& r is Err
        &&& !(r matches Err(PublishFailure::AllQueuesFull(_)))
        &&& connected_peers(after) == connected_peers(gossipsub)
        &&& published_ids(after) == published_ids(gossipsub)
        &&& message_cache(after) == message_cache(gossipsub)
    }
    &&& r is Ok ==> message_cache(after).dom().contains(message_id_bytes_held(r->Ok_0))
        && published_ids(after).contains(message_id_bytes_held(r->Ok_0))
    &&& r is Ok && !message_cache(gossipsub).dom().contains(message_id_bytes_held(r->Ok_0))
        ==> message_cache(after)[message_id_bytes_held(r->Ok_0)] == (topic, data)
    &&& caches_only(gossipsub, after, topic, data)
    &&& refused_before_caching(r) ==> message_cache(after) == message_cache(gossipsub)
        && published_ids(after) == published_ids(gossipsub)
}

/// Whether `after` holds every message that `gossipsub` held in its message cache, unchanged,
/// and any message it holds besides is `data` on `topic`: publishing caches no other message.
pub open spec fn caches_only(
    gossipsub: gossipsub::Behaviour,
    after: gossipsub::Behaviour,
    topic: Seq<char>,
    data: Seq<u8>,
) -> bool {
    &&& forall|k: Seq<u8>| #[trigger]
        message_cache(gossipsub).dom().contains(k) ==> message_cache(after).dom().contains(k)
            && message_cache(after)[k] == message_cache(gossipsub)[k]
    &&& forall|k: Seq<u8>| #[trigger]
        message_cache(after).dom().contains(k) && !message_cache(gossipsub).dom().contains(k)
            ==> message_cache(after)[k] == (topic, data)
}

/// Whether gossipsub refused a message before it cached it or noted its id: as a duplicate,
/// for failing to sign or transform it, or as too large. Only the refusals for want of peers
/// or of room in their queues can come after that.
pub open spec fn refused_before_caching(r: Result<MessageId, PublishFailure>) -> bool {
    ||| r matches Err(PublishFailure::Duplicate)
    ||| r matches Err(PublishFailure::SigningError(_))
    ||| r matches Err(PublishFailure::TransformFailed(_))
    ||| r matches Err(PublishFailure::MessageTooLarge)
}

/// `gossipsub::Behaviour::publish` of `data` to the topic named `topic` (`IdentTopic`, whose
/// hash is the name itself), its error converted variant for variant. The source, in order:
/// passes the data through the identity transform, which never fails; refuses data larger than
/// the transmit limit as too large; signs the message, which fails for no Ed25519 key; refuses
/// an id in the duplicate cache; refuses the message when no connected peer is subscribed to
/// the topic; then puts the id in the duplicate cache and, unless it is there already, the
/// message with its topic and data in the message cache, and sends it to the peers it picks.
/// Which peers those are, and whether their queues take the message, depends on the network,
/// so success is not stated; when it picks none, or no queue takes the message, the answer is
/// a refusal although the message is cached. The message cache loses nothing and gains no
/// other message. Publishing changes no setting, subscription, explicit peer or key.
#[verifier::external_body]
fn publish(gossipsub: &mut gossipsub::Behaviour, topic: &str, data: &[u8]) -> (r: Result<
    MessageId,
    PublishFailure,
>)
    ensures
        publish_outcome(*old(gossipsub), *final(gossipsub), topic@, data@, r),
{
    gossipsub.publish(IdentTopic::new(topic), data.to_vec()).map_err(|e| match e {
        PublishError::Duplicate => PublishFailure::Duplicate,
        PublishError::SigningError(e) => PublishFailure::SigningError(format!("{e:?}")),
        PublishError::InsufficientPeers => PublishFailure::InsufficientPeers,
        PublishError::MessageTooLarge => PublishFailure::MessageTooLarge,
        PublishError::TransformFailed(e) => PublishFailure::TransformFailed(format!("{e:?}")),
        PublishError::AllQueuesFull(n) => PublishFailure::AllQueuesFull(n),
    })
}

/// A gossipsub that knows no connected peer and no published id, and signs with an Ed25519
/// key, refuses every message within the transmit limit for want of peers, and after that is
/// still such a gossipsub.
pub proof fn lemma_publish_without_peers(
    gossipsub: gossipsub::Behaviour,
    after: gossipsub::Behaviour,
    topic: Seq<char>,
    data: Seq<u8>,
    r: Result<MessageId, PublishFailure>,
)
    requires
        publish_outcome(gossipsub, after, topic, data, r),
        connected_peers(gossipsub) == Set::<Seq<u8>>::empty(),
        published_ids(gossipsub) == Set::<Seq<u8>>::empty(),
        signs_with_ed25519(gossipsub),
        data.len() <= transmit_limit(gossipsub),
    ensures
        r matches Err(PublishFailure::InsufficientPeers),
        connected_peers(after) == Set::<Seq<u8>>::empty(),
        published_ids(after) == Set::<Seq<u8>>::empty(),
        signing_key(after) == signing_key(gossipsub),
        transmit_limit(after) == transmit_limit(gossipsub),
{
}

/// `PeerId::to_base58`: the base-58 text of a peer id.
#[verifier::external_body]
fn peer_id_base58(peer: &PeerId) -> (r: String)
    ensures
        r@ == base58_text(peer_id_bytes_held(*peer)),
{
    peer.to_base58()
}

/// The base-58 text of some bytes (Bitcoin's alphabet).
pub uninterp spec fn base58_text(bytes: Seq<u8>) -> Seq<char>;

/// Two messages published one after the other by the same gossipsub get different ids: the
/// first id is among the published ids when the second publishing starts, and a message with
/// such an id is not published.
pub proof fn lemma_published_ids_differ(
    g0: gossipsub::Behaviour,
    g1: gossipsub::Behaviour,
    g2: gossipsub::Behaviour,
    topic1: Seq<char>,
    data1: Seq<u8>,
    r1: Result<MessageId, PublishFailure>,
    topic2: Seq<char>,
    data2: Seq<u8>,
    r2: Result<MessageId, PublishFailure>,
)
    requires
        publish_outcome(g0, g1, topic1, data1, r1),
        publish_outcome(g1, g2, topic2, data2, r2),
        r1 is Ok,
        r2 is Ok,
    ensures
        message_id_bytes_held(r1->Ok_0) != message_id_bytes_held(r2->Ok_0),
{
}

/// Broadcasting caches no message but the one broadcast, on the chat's topic, and never one on
/// a peer's direct topic: whatever gossipsub answers, every message the cache gains is
/// `message` on `CHAT_TOPIC`, and the messages it held stay as they were.
pub proof fn lemma_broadcast_stays_on_chat_topic(
    gossipsub: gossipsub::Behaviour,
    after: gossipsub::Behaviour,
    message: Seq<u8>,
    r: Result<MessageId, PublishFailure>,
    peer: Seq<u8>,
)
    requires
        publish_outcome(gossipsub, after, CHAT_TOPIC@, message, r),
    ensures
        forall|k: Seq<u8>|
            #![trigger message_cache(after)[k]]
            message_cache(after).dom().contains(k) && !message_cache(gossipsub).dom().contains(k)
                ==> message_cache(after)[k] == (CHAT_TOPIC@, message) && message_cache(after)[k].0
                != direct_topic_name(peer),
        forall|k: Seq<u8>|
            #![trigger message_cache(gossipsub)[k]]
            message_cache(gossipsub).dom().contains(k) ==> message_cache(after)[k]
                == message_cache(gossipsub)[k],
{
    lemma_direct_topic_name_shape(peer);
}

/// A message for one peer is cached on that peer's direct topic and never on the chat's
/// broadcast topic: whatever gossipsub answers, every message the cache gains is `message` on
/// the direct topic of `peer`.
pub proof fn lemma_direct_message_stays_off_chat_topic(
    gossipsub: gossipsub::Behaviour,
    after: gossipsub::Behaviour,
    peer: Seq<u8>,
    message: Seq<u8>,
    r: Result<MessageId, PublishFailure>,
)
    requires
        publish_outcome(gossipsub, after, direct_topic_name(peer), message, r),
    ensures
        forall|k: Seq<u8>|
            #![trigger message_cache(after)[k]]
            message_cache(after).dom().contains(k) && !message_cache(gossipsub).dom().contains(k)
                ==> message_cache(after)[k].0 != CHAT_TOPIC@ && message_cache(after)[k].1
                == message,
{
    lemma_direct_topic_name_shape(peer);
}

/// The direct topic of a peer starts with `direct-messages/` and goes on with the peer id in
/// base 58 and nothing else; so it is never the broadcast topic `test-net`.
pub proof fn lemma_direct_topic_name_shape(peer: Seq<u8>)
    ensures
        direct_topic_name(peer).len() == 16 + base58_text(peer).len(),
        direct_topic_name(peer).take(16) == "direct-messages/"@,
        direct_topic_name(peer).skip(16) == base58_text(peer),
        direct_topic_name(peer) != CHAT_TOPIC@,
{
    reveal_strlit("direct-messages");
    reveal_strlit("direct-messages/");
    reveal_strlit("test-net");
    let t = direct_topic_name(peer);
    assert(t.take(16) =~= "direct-messages/"@);
    assert(t.skip(16) =~= base58_text(peer));
}

/// Two peers share a direct topic only when their peer ids have the same base-58 text, that is
/// (base 58 being one to one) only when they are the same peer.
pub proof fn lemma_direct_topics_differ(a: Seq<u8>, b: Seq<u8>)
    ensures
        direct_topic_name(a) == direct_topic_name(b) <==> base58_text(a) == base58_text(b),
{
    lemma_direct_topic_name_shape(a);
    lemma_direct_topic_name_shape(b);
    if base58_text(a) == base58_text(b) {
        assert(direct_topic_name(a) =~= direct_topic_name(b));
    }
}

/// Whether two gossipsubs agree in all that the contracts here speak of but their explicit
/// peers: settings, signing key, subscriptions, connected peers, messages and published ids.
pub open spec fn agree_but_explicit_peers(a: gossipsub::Behaviour, b: gossipsub::Behaviour) -> bool {
    &&& transmit_limit(a) == transmit_limit(b)
    &&& heartbeat_secs(a) == heartbeat_secs(b)
    &&& validation_of(a) == validation_of(b)
    &&& signing_key(a) == signing_key(b)
    &&& message_author(a) == message_author(b)
    &&& assigns_generator_ids(a) == assigns_generator_ids(b)
    &&& subscribed_topics(a) == subscribed_topics(b)
    &&& connected_peers(a) == connected_peers(b)
    &&& message_cache(a) == message_cache(b)
    &&& published_ids(a) == published_ids(b)
}

/// `gossipsub::Behaviour::add_explicit_peer` on the peer id read from `peer` by
/// `PeerId::from_bytes`: gossipsub keeps sending to that peer and keeps it connected. When the
/// bytes are no peer id, nothing is added and the result is `false`. The source inserts the
/// peer into the explicit peers and, when it is not connected, asks the swarm to dial it;
/// nothing else changes.
#[verifier::external_body]
fn add_explicit_peer(gossipsub: &mut gossipsub::Behaviour, peer: &[u8]) -> (added: bool)
    ensures
        added == peer_id_bytes_are_valid(peer@),
        explicit_peers(*final(gossipsub)) == if added {
            explicit_peers(*old(gossipsub)).insert(peer@)
        } else {
            explicit_peers(*old(gossipsub))
        },
        agree_but_explicit_peers(*old(gossipsub), *final(gossipsub)),
{
    match PeerId::from_bytes(peer) {
        Ok(id) => {
            gossipsub.add_explicit_peer(&id);
            true
        },
        Err(_) => false,
    }
}

/// `gossipsub::Behaviour::remove_explicit_peer` on the peer id read from `peer` by
/// `PeerId::from_bytes`: that peer is an explicit peer no more. When the bytes are no peer id,
/// nothing is removed and the result is `false`. The source removes the peer from the explicit
/// peers, and changes nothing else.
#[verifier::external_body]
fn remove_explicit_peer(gossipsub: &mut gossipsub::Behaviour, peer: &[u8]) -> (removed: bool)
    ensures
        removed == peer_id_bytes_are_valid(peer@),
        explicit_peers(*final(gossipsub)) == if removed {
            explicit_peers(*old(gossipsub)).remove(peer@)
        } else {
            explicit_peers(*old(gossipsub))
        },
        agree_but_explicit_peers(*old(gossipsub), *final(gossipsub)),
{
    match PeerId::from_bytes(peer) {
        Ok(id) => {
            gossipsub.remove_explicit_peer(&id);
            true
        },
        Err(_) => false,
    }
}

/// `String::from_utf8`: the text that `bytes` encode, when they are UTF-8.
#[verifier::external_body]
fn utf8_text(bytes: &[u8]) -> (r: Option<String>)
    ensures
        r is Some <==> valid_utf8(bytes@),
        r matches Some(s) ==> s@ == decode_utf8(bytes@),
{
    String::from_utf8(bytes.to_vec()).ok()
}

/// A peer whose mDNS record has expired, by the bytes of its peer id, and whether mDNS still
/// knows a node of that peer (by another address).
pub struct ExpiredPeer {
    pub peer: Vec<u8>,
    pub still_known: bool,
}

/// What mDNS reports, each peer by the bytes of its peer id.
pub enum MdnsEvent {
    /// Peers found on the local network.
    Discovered(Vec<Vec<u8>>),
    /// Peers whose record has expired.
    Expired(Vec<ExpiredPeer>),
}

/// A change to gossipsub's explicit peers, each peer by the bytes of its peer id.
pub enum PeerUpdate {
    Add(Vec<u8>),
    Remove(Vec<u8>),
}

/// The additions for discovered peers: each peer, in order.
pub open spec fn discovered_additions(peers: Seq<Vec<u8>>) -> Seq<Seq<u8>> {
    peers.map_values(|p: Vec<u8>| p@)
}

/// The removals for expired peers: each peer, in order, of which mDNS knows no node.
pub open spec fn expired_removals(expired: Seq<ExpiredPeer>) -> Seq<Seq<u8>>
    decreases expired.len(),
{
    if expired.len() == 0 {
        seq![]
    } else {
        let before = expired_removals(expired.drop_last());
        if expired.last().still_known {
            before
        } else {
            before.push(expired.last().peer@)
        }
    }
}

/// Whether an update adds its peer.
pub open spec fn is_addition(u: PeerUpdate) -> bool {
    u is Add
}

/// The bytes of the peer that an update is about.
pub open spec fn update_peer(u: PeerUpdate) -> Seq<u8> {
    match u {
        PeerUpdate::Add(p) => p@,
        PeerUpdate::Remove(p) => p@,
    }
}

/// The updates that add the peers `peers`, in order.
pub open spec fn additions(updates: Seq<PeerUpdate>, peers: Seq<Seq<u8>>) -> bool {
    &&& updates.len() == peers.len()
    &&& forall|i: int| 0 <= i < updates.len() ==> is_addition(#[trigger] updates[i]) && update_peer(updates[i]) == peers[i]
}

/// The updates that remove the peers `peers`, in order.
pub open spec fn removals(updates: Seq<PeerUpdate>, peers: Seq<Seq<u8>>) -> bool {
    &&& updates.len() == peers.len()
    &&& forall|i: int| 0 <= i < updates.len() ==> !is_addition(#[trigger] updates[i]) && update_peer(updates[i]) == peers[i]
}

/// The explicit peers after `updates`, from `peers`: each update, in order, adds or removes its
/// peer, when its bytes are a peer id.
pub open spec fn after_updates(peers: Set<Seq<u8>>, updates: Seq<PeerUpdate>) -> Set<Seq<u8>>
    decreases updates.len(),
{
    if updates.len() == 0 {
        peers
    } else {
        let before = after_updates(peers, updates.drop_last());
        let u = updates.last();
        if !peer_id_bytes_are_valid(update_peer(u)) {
            before
        } else if is_addition(u) {
            before.insert(update_peer(u))
        } else {
            before.remove(update_peer(u))
        }
    }
}

/// The explicit peers after adding `added` to `peers`, in order, each whose bytes are a peer id.
pub open spec fn after_additions(peers: Set<Seq<u8>>, added: Seq<Seq<u8>>) -> Set<Seq<u8>>
    decreases added.len(),
{
    if added.len() == 0 {
        peers
    } else {
        let before = after_additions(peers, added.drop_last());
        if peer_id_bytes_are_valid(added.last()) {
            before.insert(added.last())
        } else {
            before
        }
    }
}

/// The explicit peers after removing `removed` from `peers`, in order, each whose bytes are a
/// peer id.
pub open spec fn after_removals(peers: Set<Seq<u8>>, removed: Seq<Seq<u8>>) -> Set<Seq<u8>>
    decreases removed.len(),
{
    if removed.len() == 0 {
        peers
    } else {
        let before = after_removals(peers, removed.drop_last());
        if peer_id_bytes_are_valid(removed.last()) {
            before.remove(removed.last())
        } else {
            before
        }
    }
}

/// The explicit peers after handling what mDNS reports.
pub open spec fn after_mdns_event(peers: Set<Seq<u8>>, event: MdnsEvent) -> Set<Seq<u8>> {
    match event {
        MdnsEvent::Discovered(found) => after_additions(peers, discovered_additions(found@)),
        MdnsEvent::Expired(expired) => after_removals(peers, expired_removals(expired@)),
    }
}

/// Adding peers to a set keeps what it held and adds each of them whose bytes are a peer id,
/// and nothing else.
pub proof fn lemma_after_additions(peers: Set<Seq<u8>>, added: Seq<Seq<u8>>, p: Seq<u8>)
    ensures
        after_additions(peers, added).contains(p) <==> (peers.contains(p) || (
        peer_id_bytes_are_valid(p) && added.contains(p))),
    decreases added.len(),
{
    if added.len() > 0 {
        let rest = added.drop_last();
        lemma_after_additions(peers, rest, p);
        if rest.contains(p) {
            let i = choose|i: int| 0 <= i < rest.len() && rest[i] == p;
            assert(added[i] == p);
        }
        if added.contains(p) && p != added.last() {
            let i = choose|i: int| 0 <= i < added.len() && added[i] == p;
            assert(rest[i] == p);
        }
        assert(added[added.len() - 1] == added.last());
    }
}

/// Removing peers from a set takes out each of them whose bytes are a peer id, and keeps the
/// rest.
pub proof fn lemma_after_removals(peers: Set<Seq<u8>>, removed: Seq<Seq<u8>>, p: Seq<u8>)
    ensures
        after_removals(peers, removed).contains(p) <==> (peers.contains(p) && !(
        peer_id_bytes_are_valid(p) && removed.contains(p))),
    decreases removed.len(),
{
    if removed.len() > 0 {
        let rest = removed.drop_last();
        lemma_after_removals(peers, rest, p);
        if rest.contains(p) {
            let i = choose|i: int| 0 <= i < rest.len() && rest[i] == p;
            assert(removed[i] == p);
        }
        if removed.contains(p) && p != removed.last() {
            let i = choose|i: int| 0 <= i < removed.len() && removed[i] == p;
            assert(rest[i] == p);
        }
        assert(removed[removed.len() - 1] == removed.last());
    }
}

/// The peers that expired and of which mDNS knows no node.
pub proof fn lemma_expired_removals(expired: Seq<ExpiredPeer>, p: Seq<u8>)
    ensures
        expired_removals(expired).contains(p) <==> exists|i: int|
            0 <= i < expired.len() && !expired[i].still_known && #[trigger] expired[i].peer@ == p,
    decreases expired.len(),
{
    if expired.len() > 0 {
        let rest = expired.drop_last();
        lemma_expired_removals(rest, p);
        let before = expired_removals(rest);
        let last = expired[expired.len() - 1];
        assert(last == expired.last());
        if exists|i: int| 0 <= i < rest.len() && !rest[i].still_known && #[trigger] rest[i].peer@ == p {
            let i = choose|i: int| 0 <= i < rest.len() && !rest[i].still_known && #[trigger] rest[i].peer@ == p;
            assert(expired[i] == rest[i]);
        }
        if exists|i: int| 0 <= i < expired.len() && !expired[i].still_known && #[trigger] expired[i].peer@ == p {
            let i = choose|i: int| 0 <= i < expired.len() && !expired[i].still_known && #[trigger] expired[i].peer@ == p;
            if i < expired.len() - 1 {
                assert(rest[i] == expired[i]);
            }
        }
        if !last.still_known {
            let after = before.push(last.peer@);
            assert(expired_removals(expired) == after);
            if before.contains(p) {
                let j = choose|j: int| 0 <= j < before.len() && before[j] == p;
                assert(after[j] == p);
            }
            if after.contains(p) && p != last.peer@ {
                let j = choose|j: int| 0 <= j < after.len() && after[j] == p;
                assert(before[j] == p);
            }
            assert(after[before.len() as int] == last.peer@);
        }
    }
}

/// What the handling of an mDNS report makes of gossipsub's explicit peers: after a discovery,
/// they are those it had and every discovered peer whose bytes are a peer id; after an
/// expiry, they are those it had less every expired peer of which mDNS knows no node. Any
/// other peer keeps its place.
pub proof fn lemma_mdns_event_effect(peers: Set<Seq<u8>>, event: MdnsEvent, p: Seq<u8>)
    ensures
        after_mdns_event(peers, event).contains(p) <==> match event {
            MdnsEvent::Discovered(found) => peers.contains(p) || (peer_id_bytes_are_valid(p)
                && exists|i: int| 0 <= i < found.len() && #[trigger] found@[i]@ == p),
            MdnsEvent::Expired(expired) => peers.contains(p) && !(peer_id_bytes_are_valid(p)
                && exists|i: int|
                0 <= i < expired.len() && !expired@[i].still_known && #[trigger] expired@[i].peer@
                    == p),
        },
{
    match event {
        MdnsEvent::Discovered(found) => {
            let added = discovered_additions(found@);
            lemma_after_additions(peers, added, p);
            if added.contains(p) {
                let i = choose|i: int| 0 <= i < added.len() && added[i] == p;
                assert(found@[i]@ == p);
            }
            if exists|i: int| 0 <= i < found.len() && #[trigger] found@[i]@ == p {
                let i = choose|i: int| 0 <= i < found.len() && #[trigger] found@[i]@ == p;
                assert(added[i] == p);
            }
        },
        MdnsEvent::Expired(expired) => {
            lemma_after_removals(peers, expired_removals(expired@), p);
            lemma_expired_removals(expired@, p);
        },
    }
}

/// Carrying out additions is adding their peers.
proof fn lemma_additions(peers: Set<Seq<u8>>, updates: Seq<PeerUpdate>, added: Seq<Seq<u8>>)
    requires
        additions(updates, added),
    ensures
        after_updates(peers, updates) == after_additions(peers, added),
    decreases updates.len(),
{
    if updates.len() > 0 {
        assert(additions(updates.drop_last(), added.drop_last()));
        lemma_additions(peers, updates.drop_last(), added.drop_last());
        assert(is_addition(updates[updates.len() - 1]));
    }
}

/// Carrying out removals is removing their peers.
proof fn lemma_removals(peers: Set<Seq<u8>>, updates: Seq<PeerUpdate>, removed: Seq<Seq<u8>>)
    requires
        removals(updates, removed),
    ensures
        after_updates(peers, updates) == after_removals(peers, removed),
    decreases updates.len(),
{
    if updates.len() > 0 {
        assert(removals(updates.drop_last(), removed.drop_last()));
        lemma_removals(peers, updates.drop_last(), removed.drop_last());
        assert(!is_addition(updates[updates.len() - 1]));
    }
}

/// A copy of a peer's bytes.
fn copy_bytes(b: &Vec<u8>) -> (r: Vec<u8>)
    ensures
        r@ == b@,
{
    let mut r: Vec<u8> = Vec::new();
    let mut i: usize = 0;
    while i < b.len()
        invariant
            i <= b.len(),
            r@ == b@.take(i as int),
        decreases b.len() - i,
    {
        r.push(b[i]);
        i = i + 1;
        assert(r@ =~= b@.take(i as int));
    }
    assert(b@.take(b.len() as int) =~= b@);
    r
}

/// Every peer that mDNS discovered becomes an explicit peer of gossipsub, in order.
pub fn discovered_updates(peers: &Vec<Vec<u8>>) -> (r: Vec<PeerUpdate>)
    ensures
        additions(r@, discovered_additions(peers@)),
{
    let mut r: Vec<PeerUpdate> = Vec::new();
    let mut i: usize = 0;
    while i < peers.len()
        invariant
            i <= peers.len(),
            r.len() == i,
            forall|j: int| 0 <= j < i ==> is_addition(#[trigger] r@[j]) && update_peer(r@[j]) == peers@[j]@,
        decreases peers.len() - i,
    {
        r.push(PeerUpdate::Add(copy_bytes(&peers[i])));
        i = i + 1;
    }
    r
}

/// An expired peer stops being an explicit peer, unless mDNS still knows a node of it.
pub fn expired_updates(expired: &Vec<ExpiredPeer>) -> (r: Vec<PeerUpdate>)
    ensures
        removals(r@, expired_removals(expired@)),
{
    let mut r: Vec<PeerUpdate> = Vec::new();
    let mut i: usize = 0;
    while i < expired.len()
        invariant
            i <= expired.len(),
            removals(r@, expired_removals(expired@.take(i as int))),
        decreases expired.len() - i,
    {
        assert(expired@.take(i + 1).drop_last() =~= expired@.take(i as int));
        let ghost before = r@;
        if !expired[i].still_known {
            r.push(PeerUpdate::Remove(copy_bytes(&expired[i].peer)));
            assert(forall|j: int| 0 <= j < before.len() ==> r@[j] == before[j]);
        }
        i = i + 1;
    }
    assert(expired@.take(expired.len() as int) =~= expired@);
    r
}

/// Carries out changes to gossipsub's explicit peers, in order.
pub fn apply_peer_updates(gossipsub: &mut gossipsub::Behaviour, updates: &Vec<PeerUpdate>)
    ensures
        explicit_peers(*final(gossipsub)) == after_updates(explicit_peers(*old(gossipsub)), updates@),
        agree_but_explicit_peers(*old(gossipsub), *final(gossipsub)),
{
    let ghost start = explicit_peers(*gossipsub);
    let ghost before = *gossipsub;
    let mut i: usize = 0;
    assert(updates@.take(0) =~= Seq::<PeerUpdate>::empty());
    while i < updates.len()
        invariant
            i <= updates.len(),
            explicit_peers(*gossipsub) == after_updates(start, updates@.take(i as int)),
            agree_but_explicit_peers(before, *gossipsub),
        decreases updates.len() - i,
    {
        assert(updates@.take(i + 1).drop_last() =~= updates@.take(i as int));
        assert(updates@.take(i + 1).last() == updates@[i as int]);
        match &updates[i] {
            PeerUpdate::Add(p) => {
                add_explicit_peer(gossipsub, p.as_slice());
            },
            PeerUpdate::Remove(p) => {
                remove_explicit_peer(gossipsub, p.as_slice());
            },
        }
        i = i + 1;
    }
    assert(updates@.take(updates.len() as int) =~= updates@);
}

/// Handles what mDNS reports, for a gossipsub: every peer discovered becomes an explicit peer;
/// an expired peer stops being one, unless mDNS still knows a node of it.
pub fn on_mdns_event_for(gossipsub: &mut gossipsub::Behaviour, event: MdnsEvent)
    ensures
        explicit_peers(*final(gossipsub)) == after_mdns_event(explicit_peers(*old(gossipsub)), event),
        agree_but_explicit_peers(*old(gossipsub), *final(gossipsub)),
{
    let ghost start = explicit_peers(*gossipsub);
    match &event {
        MdnsEvent::Discovered(peers) => {
            let updates = discovered_updates(peers);
            apply_peer_updates(gossipsub, &updates);
            proof {
                lemma_additions(start, updates@, discovered_additions(peers@));
            }
        },
        MdnsEvent::Expired(expired) => {
            let updates = expired_updates(expired);
            apply_peer_updates(gossipsub, &updates);
            proof {
                lemma_removals(start, updates@, expired_removals(expired@));
            }
        },
    }
}

/// Publishes a message to every peer, on `CHAT_TOPIC`, and gives back what gossipsub answered.
pub fn broadcast_on(gossipsub: &mut gossipsub::Behaviour, message: &[u8]) -> (r: Result<
    MessageId,
    PublishFailure,
>)
    ensures
        publish_outcome(*old(gossipsub), *final(gossipsub), CHAT_TOPIC@, message@, r),
{
    publish(gossipsub, CHAT_TOPIC, message)
}

/// The name of the topic on which the messages for `peer` travel: `DIRECT_TOPIC`, a `/`, and
/// the base-58 text of the peer id.
pub open spec fn direct_topic_name(peer: Seq<u8>) -> Seq<char> {
    DIRECT_TOPIC@ + seq!['/'] + base58_text(peer)
}

/// The topic on which the messages for `peer` travel; a node subscribes to its own.
pub fn direct_topic(peer: &PeerId) -> (t: String)
    ensures
        t@ == direct_topic_name(peer_id_bytes_held(*peer)),
{
    let mut t = String::from_str(DIRECT_TOPIC);
    proof {
        reveal_strlit("/");
    }
    t.append("/");
    let id = peer_id_base58(peer);
    t.append(id.as_str());
    t
}

/// The text of a publishing failure, as gossipsub's `PublishError` writes it.
pub open spec fn publish_failure_text(f: PublishFailure) -> Seq<char> {
    match f {
        PublishFailure::Duplicate => "Duplicate"@,
        PublishFailure::SigningError(e) => "SigningError("@ + e@ + ")"@,
        PublishFailure::InsufficientPeers => "InsufficientPeers"@,
        PublishFailure::MessageTooLarge => "MessageTooLarge"@,
        PublishFailure::TransformFailed(e) => "TransformFailed("@ + e@ + ")"@,
        PublishFailure::AllQueuesFull(n) => "AllQueuesFull("@ + decimal_chars(n as nat) + ")"@,
    }
}

/// Writes a publishing failure as text.
pub fn publish_failure_string(f: &PublishFailure) -> (s: String)
    ensures
        s@ == publish_failure_text(*f),
{
    match f {
        PublishFailure::Duplicate => String::from_str("Duplicate"),
        PublishFailure::SigningError(e) => {
            let mut s = String::from_str("SigningError(");
            s.append(e.as_str());
            s.append(")");
            s
        },
        PublishFailure::InsufficientPeers => String::from_str("InsufficientPeers"),
        PublishFailure::MessageTooLarge => String::from_str("MessageTooLarge"),
        PublishFailure::TransformFailed(e) => {
            let mut s = String::from_str("TransformFailed(");
            s.append(e.as_str());
            s.append(")");
            s
        },
        PublishFailure::AllQueuesFull(n) => {
            let mut s = String::from_str("AllQueuesFull(");
            let count = decimal_string(*n as u64);
            s.append(count.as_str());
            s.append(")");
            s
        },
    }
}

/// What the sender of a message for one peer is told: `Ok` when gossipsub published it, and
/// otherwise the text of the failure.
pub open spec fn direct_outcome(published: Result<MessageId, PublishFailure>, r: Result<
    (),
    String,
>) -> bool {
    match published {
        Ok(_) => r is Ok,
        Err(f) => r matches Err(s) && s@ == publish_failure_text(f),
    }
}

/// Tells the sender of a message for one peer what became of it.
pub fn direct_message_outcome(published: Result<MessageId, PublishFailure>) -> (r: Result<
    (),
    String,
>)
    ensures
        direct_outcome(published, r),
{
    match published {
        Ok(_) => Ok(()),
        Err(f) => Err(publish_failure_string(&f)),
    }
}

/// Sends a message to one peer: it is published on that peer's own topic, which only that
/// peer subscribes to. The result is that of publishing, a failure given as its text.
pub fn send_direct_on(gossipsub: &mut gossipsub::Behaviour, peer: &PeerId, message: &[u8]) -> (r:
    Result<(), String>)
    ensures
        exists|published: Result<MessageId, PublishFailure>|
            publish_outcome(
                *old(gossipsub),
                *final(gossipsub),
                direct_topic_name(peer_id_bytes_held(*peer)),
                message@,
                published,
            ) && direct_outcome(published, r),
{
    let topic = direct_topic(peer);
    let published = publish(gossipsub, topic.as_str(), message);
    let ghost p = published;
    let r = direct_message_outcome(published);
    assert(direct_outcome(p, r));
    r
}

/// What gossipsub reports, as far as the chat reads it.
pub enum GossipEvent {
    /// A message arrived, with these bytes.
    Message { data: Vec<u8> },
    /// A peer subscribed to a topic.
    Subscribed,
    /// A peer unsubscribed from a topic.
    Unsubscribed,
    /// Anything else.
    Other,
}

/// The start of the line that reports a message that arrived.
pub const MESSAGE_REPORT_PREFIX: &'static str = "NetworkBehaviourEventProcess gossipsub: ";

/// The line that reports a subscription.
pub const SUBSCRIBED_REPORT: &'static str = "Subscribed to topic";

/// The line that reports that a subscription ended.
pub const UNSUBSCRIBED_REPORT: &'static str = "Unsubscribed from topic";

/// The line, if any, that the chat writes for what gossipsub reports: a message whose bytes
/// are UTF-8 is written after `MESSAGE_REPORT_PREFIX`, one whose bytes are not is not written,
/// and (un)subscriptions are announced.
pub fn gossip_event_report(event: &GossipEvent) -> (r: Option<String>)
    ensures
        match event {
            GossipEvent::Message { data } => {
                &&& r is Some <==> valid_utf8(data@)
                &&& r matches Some(s) ==> s@ == MESSAGE_REPORT_PREFIX@ + decode_utf8(data@)
            },
            GossipEvent::Subscribed => r matches Some(s) && s@ == SUBSCRIBED_REPORT@,
            GossipEvent::Unsubscribed => r matches Some(s) && s@ == UNSUBSCRIBED_REPORT@,
            GossipEvent::Other => r is None,
        },
{
    match event {
        GossipEvent::Message { data } => match utf8_text(data.as_slice()) {
            Some(text) => {
                let mut line = String::from_str(MESSAGE_REPORT_PREFIX);
                line.append(text.as_str());
                Some(line)
            },
            None => None,
        },
        GossipEvent::Subscribed => Some(String::from_str(SUBSCRIBED_REPORT)),
        GossipEvent::Unsubscribed => Some(String::from_str(UNSUBSCRIBED_REPORT)),
        GossipEvent::Other => None,
    }
}

/// The chat's gossip layer.
pub struct ChatBehaviour {
    /// Publishes messages to peers and receives theirs.
    pub gossipsub: gossipsub::Behaviour,
}

impl ChatBehaviour {
    /// The gossip layer of an account: gossipsub with the chat's settings (a heartbeat every
    /// 10 seconds, strict validation, messages of at most 1 MiB), which signs messages with
    /// the account's key pair, names the peer id of its public key as their author, and gives
    /// them the ids of `next_message_id`: a generator id, hashed, in decimal. The new layer is
    /// subscribed to no topic and knows no peer, no message and no published id.
    pub fn new(user: Account) -> (b: ChatBehaviour)
        ensures
            heartbeat_secs(b.gossipsub) == 10,
            validation_of(b.gossipsub) is Strict,
            transmit_limit(b.gossipsub) == 1_048_576,
            signing_key(b.gossipsub) == Some(keypair_public_key(user.id_keys)),
            message_author(b.gossipsub) == Some(
                peer_id_of_public_key(keypair_public_key(user.id_keys)),
            ),
            explicit_peers(b.gossipsub) == Set::<Seq<u8>>::empty(),
            subscribed_topics(b.gossipsub) == Set::<Seq<char>>::empty(),
            connected_peers(b.gossipsub) == Set::<Seq<u8>>::empty(),
            message_cache(b.gossipsub) == Map::<Seq<u8>, (Seq<char>, Seq<u8>)>::empty(),
            published_ids(b.gossipsub) == Set::<Seq<u8>>::empty(),
            assigns_generator_ids(b.gossipsub),
    {
        let settings = chat_gossip_settings();
        let config = match build_gossip_config(&settings) {
            Ok(config) => config,
            Err(_) => unreached(),
        };
        let gossipsub = match signed_gossipsub(user.id_keys, config) {
            Ok(gossipsub) => gossipsub,
            Err(_) => unreached(),
        };
        ChatBehaviour { gossipsub }
    }

    /// Broadcasts a message to all known peers, on `CHAT_TOPIC`, and gives back what gossipsub
    /// answered.
    pub fn broadcast_message(&mut self, message: &[u8]) -> (r: Result<MessageId, PublishFailure>)
        ensures
            publish_outcome(old(self).gossipsub, final(self).gossipsub, CHAT_TOPIC@, message@, r),
    {
        broadcast_on(&mut self.gossipsub, message)
    }

    /// Sends a message to the peer `peer_id` alone: it is published on that peer's own topic.
    /// The result is that of publishing, a failure given as its text.
    pub fn send_direct_message(&mut self, peer_id: PeerId, message: &[u8]) -> (r: Result<
        (),
        String,
    >)
        ensures
            exists|published: Result<MessageId, PublishFailure>|
                publish_outcome(
                    old(self).gossipsub,
                    final(self).gossipsub,
                    direct_topic_name(peer_id_bytes_held(peer_id)),
                    message@,
                    published,
                ) && direct_outcome(published, r),
    {
        send_direct_on(&mut self.gossipsub, &peer_id, message)
    }

    /// Handles what mDNS reports: every peer discovered becomes an explicit peer of
    /// gossipsub; an expired peer stops being one, unless mDNS still knows a node of it.
    pub fn on_mdns_event(&mut self, event: MdnsEvent)
        ensures
            explicit_peers(final(self).gossipsub) == after_mdns_event(
                explicit_peers(old(self).gossipsub),
                event,
            ),
            agree_but_explicit_peers(old(self).gossipsub, final(self).gossipsub),
    {
        on_mdns_event_for(&mut self.gossipsub, event)
    }
}

} // verus!
