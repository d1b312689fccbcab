use crate::broker::{
    create_session, is_topic_name, names_of, session_parameters, session_topics, subscribe,
    ConsumerSession,
};
use crate::config::{client_config, client_parameters, KafkaSourceConfig};
use rdkafka::error::KafkaError;
use vstd::prelude::*;

verus! {

/// Why no session could be set up.
#[derive(Debug)]
pub enum BuildError {
    /// The broker client refused to create a consumer.
    KafkaCreateError { source: KafkaError },
    /// The broker client refused the subscription.
    KafkaSubscribeError { source: KafkaError },
    /// The topic at `index` has a NUL character in its name, which no client can take.
    TopicName { index: usize },
}

/// The place of the first name that is no topic name, if there is one.
pub open spec fn first_bad_topic(topics: Seq<String>) -> Option<usize> {
    if exists|i: int| 0 <= i < topics.len() && !is_topic_name((#[trigger] topics[i])@) {
        Some(
            (choose|i: int|
                0 <= i < topics.len() && !is_topic_name((#[trigger] topics[i])@) && forall|j: int|
                    0 <= j < i ==> is_topic_name((#[trigger] topics[j])@)) as usize,
        )
    } else {
        None
    }
}

/// Says whether `name` can be handed to the broker client as a topic name.
pub fn check_topic_name(name: &str) -> (ok: bool)
    ensures
        ok == is_topic_name(name@),
{
    let n: usize = name.unicode_len();
    let mut i: usize = 0;
    while i < n
        invariant
            n == name@.len(),
            i <= n,
            forall|j: int| 0 <= j < i ==> name@[j] != '\0',
        decreases n - i,
    {
        if name.get_char(i) == '\0' {
            assert(name@.contains('\0'));
            return false;
        }
        i += 1;
    }
    true
}

/// Borrows the topic names as string slices, or gives the place of the first one that is
/// no topic name.
pub fn topic_names(topics: &Vec<String>) -> (names: Result<Vec<&str>, usize>)
    ensures
        names is Err <==> first_bad_topic(topics@) is Some,
        names matches Err(index) ==> first_bad_topic(topics@) == Some(index),
        names matches Ok(slices) ==> slices@.len() == topics@.len() && forall|i: int|
            0 <= i < slices@.len() ==> (#[trigger] slices@[i])@ == topics@[i]@,
{
    let mut names: Vec<&str> = Vec::new();
    let mut i: usize = 0;
    while i < topics.len()
        invariant
            i <= topics@.len(),
            names@.len() == i,
            forall|j: int| 0 <= j < i ==> (#[trigger] names@[j])@ == topics@[j]@,
            forall|j: int| 0 <= j < i ==> is_topic_name((#[trigger] topics@[j])@),
        decreases topics@.len() - i,
    {
        let name = topics[i].as_str();
        if !check_topic_name(name) {
            proof {
                lemma_first_bad_topic(topics@, i as int);
            }
            return Err(i);
        }
        names.push(name);
        i += 1;
    }
    Ok(names)
}

/// What the answer of the broker client to the creation of a consumer means for the
/// source.
pub fn created(answer: Result<ConsumerSession, KafkaError>) -> (made: Result<
    ConsumerSession,
    BuildError,
>)
    ensures
        answer matches Ok(session) ==> made == Ok::<ConsumerSession, BuildError>(session),
        answer matches Err(source) ==> made == Err::<ConsumerSession, BuildError>(
            BuildError::KafkaCreateError { source },
        ),
{
    match answer {
        Ok(session) => Ok(session),
        Err(source) => Err(BuildError::KafkaCreateError { source }),
    }
}

/// What the answer of the broker client to the subscription means for the source.
pub fn subscribed(session: ConsumerSession, answer: Result<(), KafkaError>) -> (made: Result<
    ConsumerSession,
    BuildError,
>)
    ensures
        answer is Ok ==> made == Ok::<ConsumerSession, BuildError>(session),
        answer matches Err(source) ==> made == Err::<ConsumerSession, BuildError>(
            BuildError::KafkaSubscribeError { source },
        ),
{
    match answer {
        Ok(_) => Ok(session),
        Err(source) => Err(BuildError::KafkaSubscribeError { source }),
    }
}

/// What comes of setting up a session, given what the broker client answers: a refused
/// creation fails first, then a bad topic name, then a refused subscription. The answer
/// to the subscription counts only where it was asked for.
pub open spec fn built(
    creation: Result<ConsumerSession, KafkaError>,
    bad_topic: Option<usize>,
    subscription: Result<(), KafkaError>,
) -> Result<ConsumerSession, BuildError> {
    match creation {
        Err(source) => Err(BuildError::KafkaCreateError { source }),
        Ok(session) => match bad_topic {
            Some(index) => Err(BuildError::TopicName { index }),
            None => match subscription {
                Ok(_) => Ok(session),
                Err(source) => Err(BuildError::KafkaSubscribeError { source }),
            },
        },
    }
}

/// The names that the configured topics spell, in order.
pub open spec fn topic_views(topics: Seq<String>) -> Seq<Seq<char>> {
    Seq::new(topics.len(), |i: int| topics[i]@)
}

/// Creates a consumer with the parameters that [`client_parameters`] gives for `config`,
/// and subscribes it to all the topics of `config` in one call.
///
/// Whether the client accepts the parameters and the subscription is for the client to
/// say. Whatever it answers, the outcome is the one that [`built`] gives for its
/// answers, and a session that comes back was created with exactly those parameters and
/// is subscribed to exactly those topics. Nothing is tried twice.
pub fn create_consumer(config: KafkaSourceConfig) -> (made: Result<ConsumerSession, BuildError>)
    ensures
        exists|creation: Result<ConsumerSession, KafkaError>, subscription: Result<(), KafkaError>|
            made == #[trigger] built(creation, first_bad_topic(config.topics@), subscription),
        made matches Ok(session) ==> session_parameters(session) == client_parameters(config),
        made matches Ok(session) ==> session_topics(session) == topic_views(config.topics@),
{
    let client = client_config(&config);
    let creation = create_session(&client);
    let ghost bad_topic = first_bad_topic(config.topics@);
    let mut session = match created(creation) {
        Ok(session) => session,
        Err(error) => {
            assert(Err::<ConsumerSession, BuildError>(error) == built(creation, bad_topic, Ok(())));
            return Err(error);
        },
    };
    match topic_names(&config.topics) {
        Err(index) => {
            let made = Err(BuildError::TopicName { index });
            assert(made == built(creation, bad_topic, Ok(())));
            made
        },
        Ok(names) => {
            let subscription = subscribe(&mut session, names.as_slice());
            assert(names_of(names@) =~= topic_views(config.topics@));
            let ghost subscribed_session = session;
            let made = subscribed(session, subscription);
            assert(made == built(Ok(subscribed_session), bad_topic, subscription));
            made
        },
    }
}

/// The first bad topic is what [`first_bad_topic`] names.
proof fn lemma_first_bad_topic(topics: Seq<String>, index: int)
    requires
        0 <= index < topics.len(),
        !is_topic_name(topics[index]@),
        forall|j: int| 0 <= j < index ==> is_topic_name((#[trigger] topics[j])@),
    ensures
        first_bad_topic(topics) == Some(index as usize),
{
    let chosen = choose|i: int|
        0 <= i < topics.len() && !is_topic_name((#[trigger] topics[i])@) && forall|j: int|
            0 <= j < i ==> is_topic_name((#[trigger] topics[j])@);
    assert(!is_topic_name(topics[chosen]@));
    assert(chosen == index) by {
        if chosen < index {
            assert(is_topic_name(topics[chosen]@));
        } else if index < chosen {
            assert(is_topic_name(topics[index]@));
        }
    }
}

} // verus!
