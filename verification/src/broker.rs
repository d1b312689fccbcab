//! The broker client as this crate sees it. Everything here is trusted: Verus takes the
//! contracts below on faith and proves the rest of the crate from them.

use rdkafka::config::ClientConfig;
use rdkafka::consumer::{Consumer, DefaultConsumerContext, StreamConsumer};
use rdkafka::error::KafkaError;
use rdkafka::message::{BorrowedMessage, Message};
use rdkafka::util::NaiveRuntime;
use vstd::prelude::*;

verus! {

/// `rdkafka::config::ClientConfig`, known only through [`client_config_entries`].
#[verifier::external_type_specification]
#[verifier::external_body]
pub struct ExClientConfig(ClientConfig);

/// `rdkafka::error::KafkaError`, carried as it comes.
#[verifier::external_type_specification]
#[verifier::external_body]
pub struct ExKafkaError(KafkaError);

/// `rdkafka::message::BorrowedMessage`, read only through the functions below.
#[verifier::external_type_specification]
#[verifier::external_body]
pub struct ExBorrowedMessage<'a>(BorrowedMessage<'a>);

/// A live session with the brokers: the connections and the membership in the consumer
/// group. Opaque to the proofs, which only carry it from call to call.
///
/// The consumer runs on the thread-based runtime of the client library, so that a
/// session can be created outside of any scheduler.
#[verifier::external_body]
pub struct ConsumerSession {
    /// The client that owns the session. Message cursors borrow from it.
    pub consumer: StreamConsumer<DefaultConsumerContext, NaiveRuntime>,
}

/// The parameters that were set in a client configuration, by key.
pub uninterp spec fn client_config_entries(config: ClientConfig) -> Map<Seq<char>, Seq<char>>;

/// A configuration in which no parameter is set.
pub open spec fn no_entries() -> Map<Seq<char>, Seq<char>> {
    Map::empty()
}

/// `ClientConfig::new`. Trusted: a new configuration has no parameter set.
pub assume_specification[ ClientConfig::new ]() -> (config: ClientConfig)
    ensures
        client_config_entries(config) == no_entries(),
;

/// `ClientConfig::set`. Trusted: it sets `key` to `value`, replacing an earlier value of
/// `key`, and leaves every other parameter as it was.
#[verifier::external_body]
pub(crate) fn set_parameter(config: &mut ClientConfig, key: &str, value: &str)
    ensures
        client_config_entries(*final(config)) == client_config_entries(*old(config)).insert(
            key@,
            value@,
        ),
{
    config.set(key, value);
}

/// The parameters that a session was created with, by key.
pub uninterp spec fn session_parameters(session: ConsumerSession) -> Map<Seq<char>, Seq<char>>;

/// The topics that a session was last subscribed to, in the order they were given.
pub uninterp spec fn session_topics(session: ConsumerSession) -> Seq<Seq<char>>;

/// The payload that a message carries, if it carries one.
pub uninterp spec fn message_payload(message: BorrowedMessage<'_>) -> Option<Seq<u8>>;

/// The key that a message carries, if it carries one.
pub uninterp spec fn message_key(message: BorrowedMessage<'_>) -> Option<Seq<u8>>;

/// `ClientConfig::create`, for a stream consumer. Trusted: a session that comes back was
/// created with the parameters of `config`. Whether one comes back is for the client
/// library to say, which decides which parameters it accepts.
#[verifier::external_body]
pub(crate) fn create_session(config: &ClientConfig) -> (created: Result<
    ConsumerSession,
    KafkaError,
>)
    ensures
        created matches Ok(session) ==> session_parameters(session) == client_config_entries(
            *config,
        ),
{
    config.create().map(|consumer| ConsumerSession { consumer })
}

/// A topic name that can be handed to the client library: it holds no NUL character.
pub open spec fn is_topic_name(name: Seq<char>) -> bool {
    !name.contains('\0')
}

/// The names that string slices spell, in order.
pub open spec fn names_of(topics: Seq<&str>) -> Seq<Seq<char>> {
    Seq::new(topics.len(), |i: int| topics[i]@)
}

/// `Consumer::subscribe`. It panics on a name with a NUL character in it, so such names
/// are kept out. Trusted: where it answers `Ok`, the session is subscribed to the names
/// given, all of them and no other; and the parameters of the session are what they
/// were. Whether it answers `Ok` is for the client library to say.
#[verifier::external_body]
pub(crate) fn subscribe(session: &mut ConsumerSession, topics: &[&str]) -> (subscribed: Result<
    (),
    KafkaError,
>)
    requires
        forall|i: int| 0 <= i < topics@.len() ==> is_topic_name((#[trigger] topics@[i])@),
    ensures
        subscribed is Ok ==> session_topics(*final(session)) == names_of(topics@),
        session_parameters(*final(session)) == session_parameters(*old(session)),
{
    session.consumer.subscribe(topics)
}

/// `Message::payload_view`, as bytes. Trusted: it gives the payload of the message where
/// there is one, which as bytes can always be read, and `None` where there is none.
#[verifier::external_body]
pub(crate) fn payload_view<'a>(message: &'a BorrowedMessage<'_>) -> (view: Option<
    Result<&'a [u8], ()>,
>)
    ensures
        view is None <==> message_payload(*message) is None,
        view matches Some(read) ==> read matches Ok(bytes) && Some(bytes@) == message_payload(
            *message,
        ),
{
    message.payload_view::<[u8]>()
}

/// `Message::key_view`, as bytes. Trusted: it gives the key of the message where there is
/// one, which as bytes can always be read, and `None` where there is none.
#[verifier::external_body]
pub(crate) fn key_view<'a>(message: &'a BorrowedMessage<'_>) -> (view: Option<
    Result<&'a [u8], ()>,
>)
    ensures
        view is None <==> message_key(*message) is None,
        view matches Some(read) ==> read matches Ok(bytes) && Some(bytes@) == message_key(
            *message,
        ),
{
    message.key_view::<[u8]>()
}

/// `Consumer::store_offset`. Nothing is claimed of the outcome, which depends on the
/// state of the client.
#[verifier::external_body]
pub(crate) fn store_offset(session: &ConsumerSession, message: &BorrowedMessage<'_>) -> (stored:
    Result<(), KafkaError>) {
    session.consumer.store_offset(message)
}

} // verus!
