use crate::broker::{
    key_view, message_key, message_payload, payload_view, store_offset, ConsumerSession,
};
use crate::event::{bytes_from_slice, Event, EventView};
use rdkafka::error::KafkaError;
use rdkafka::message::BorrowedMessage;
use vstd::prelude::*;

verus! {

/// What is read of one message: its payload and its key, each of which may be absent, or
/// present but not readable as bytes.
#[derive(Debug, Clone, Copy)]
pub struct RawMessage<'a> {
    pub payload: Option<Result<&'a [u8], ()>>,
    pub key: Option<Result<&'a [u8], ()>>,
}

/// Why a source stopped.
#[derive(Debug)]
pub enum SourceError {
    /// The broker delivered an error in place of a message.
    Delivery(KafkaError),
    /// A payload was present but could not be read.
    Payload,
    /// A key was present but could not be read.
    Key,
    /// The position of a message could not be stored.
    OffsetStore(KafkaError),
    /// The channel downstream closed or reported an error.
    Sink,
}

/// What became of one polled item.
#[derive(Debug)]
pub enum Transformed {
    /// The message gave this event.
    Event(Event),
    /// The message had no payload and is passed over.
    Skipped,
    /// The source cannot go on.
    Failed(SourceError),
}

/// What a [`Transformed`] stands for.
pub enum TransformedView {
    Event(EventView),
    Skipped,
    Failed(SourceError),
}

impl View for Transformed {
    type V = TransformedView;

    open spec fn view(&self) -> TransformedView {
        match *self {
            Transformed::Event(event) => TransformedView::Event(event@),
            Transformed::Skipped => TransformedView::Skipped,
            Transformed::Failed(error) => TransformedView::Failed(error),
        }
    }
}

/// The fields of an event made from a message with the given key, under the given
/// configured field name.
pub open spec fn key_fields(key_field: Option<String>, key: Option<Result<&[u8], ()>>) -> Map<
    Seq<char>,
    Seq<u8>,
> {
    match (key_field, key) {
        (Some(name), Some(Ok(bytes))) => Map::<Seq<char>, Seq<u8>>::empty().insert(
            name@,
            bytes@,
        ),
        _ => Map::<Seq<char>, Seq<u8>>::empty(),
    }
}

/// What a polled item becomes. The rules, in order: an error from the broker stops the
/// source; a message without payload is passed over; an unreadable payload stops the
/// source; so does an unreadable key, where a key field is configured; any other message
/// gives an event whose body is the payload and which carries the key, if there is one,
/// under the configured name.
pub open spec fn transformed(
    key_field: Option<String>,
    item: Result<RawMessage<'_>, KafkaError>,
) -> TransformedView {
    match item {
        Err(error) => TransformedView::Failed(SourceError::Delivery(error)),
        Ok(message) => match message.payload {
            None => TransformedView::Skipped,
            Some(Err(_)) => TransformedView::Failed(SourceError::Payload),
            Some(Ok(payload)) => if key_field is Some && message.key matches Some(Err(_)) {
                TransformedView::Failed(SourceError::Key)
            } else {
                TransformedView::Event(
                    EventView { body: payload@, fields: key_fields(key_field, message.key) },
                )
            },
        },
    }
}

/// Turns one polled item into an event, a skip or a failure.
pub fn transform(key_field: &Option<String>, item: Result<RawMessage<'_>, KafkaError>) -> (out:
    Transformed)
    ensures
        out@ == transformed(*key_field, item),
{
    let message = match item {
        Err(error) => {
            return Transformed::Failed(SourceError::Delivery(error));
        },
        Ok(message) => message,
    };
    let payload = match message.payload {
        None => {
            return Transformed::Skipped;
        },
        Some(Err(_)) => {
            return Transformed::Failed(SourceError::Payload);
        },
        Some(Ok(payload)) => bytes_from_slice(payload),
    };
    let mut event = Event::new(payload);
    if let Some(name) = key_field {
        match message.key {
            None => {},
            Some(Err(_)) => {
                return Transformed::Failed(SourceError::Key);
            },
            Some(Ok(key)) => {
                event.insert(name.clone(), bytes_from_slice(key));
            },
        }
    }
    Transformed::Event(event)
}

/// What a built event becomes once the store of its message's position has answered.
pub open spec fn confirmed(event: Event, stored: Result<(), KafkaError>) -> Transformed {
    match stored {
        Ok(_) => Transformed::Event(event),
        Err(error) => Transformed::Failed(SourceError::OffsetStore(error)),
    }
}

/// Lets an event through if the position of its message was stored, and fails otherwise.
pub fn confirm(event: Event, stored: Result<(), KafkaError>) -> (out: Transformed)
    ensures
        out == confirmed(event, stored),
{
    match stored {
        Ok(_) => Transformed::Event(event),
        Err(error) => Transformed::Failed(SourceError::OffsetStore(error)),
    }
}

/// What a polled item becomes, given what the store of its position answers where an
/// event was built: [`transformed`], then [`confirmed`].
pub open spec fn handled(
    key_field: Option<String>,
    item: Result<RawMessage<'_>, KafkaError>,
    stored: Result<(), KafkaError>,
) -> TransformedView {
    match transformed(key_field, item) {
        TransformedView::Event(event) => match stored {
            Ok(_) => TransformedView::Event(event),
            Err(error) => TransformedView::Failed(SourceError::OffsetStore(error)),
        },
        other => other,
    }
}

/// `raw` is what is read of `message`: its payload and, if `with_key` is set, its key,
/// each absent where the message has none and readable where it has one. Without
/// `with_key` the key is left unread.
pub open spec fn raw_of(message: BorrowedMessage<'_>, with_key: bool, raw: RawMessage<'_>) -> bool {
    &&& raw.payload is None <==> message_payload(message) is None
    &&& raw.payload matches Some(read) ==> read matches Ok(bytes) && Some(bytes@)
        == message_payload(message)
    &&& !with_key ==> raw.key is None
    &&& with_key ==> (raw.key is None <==> message_key(message) is None)
    &&& with_key ==> (raw.key matches Some(read) ==> read matches Ok(bytes) && Some(bytes@)
        == message_key(message))
}

/// Reads the payload of a message and, if `with_key` is set, its key.
pub fn read_message<'a>(message: &'a BorrowedMessage<'_>, with_key: bool) -> (raw: RawMessage<'a>)
    ensures
        raw_of(*message, with_key, raw),
{
    let payload = payload_view(message);
    let key = if with_key {
        key_view(message)
    } else {
        None
    };
    RawMessage { payload, key }
}

/// What a delivered message becomes, given what the store of its position answers. A
/// message without payload is passed over. Any other message gives an event whose body
/// is the payload and which carries the key, if the message has one and a key field is
/// configured, under the configured name; the event comes out if its position was
/// stored, and the source fails with the error of the store if it was not.
pub open spec fn delivered(
    key_field: Option<String>,
    message: BorrowedMessage<'_>,
    stored: Result<(), KafkaError>,
) -> TransformedView {
    match message_payload(message) {
        None => TransformedView::Skipped,
        Some(payload) => match stored {
            Err(error) => TransformedView::Failed(SourceError::OffsetStore(error)),
            Ok(_) => TransformedView::Event(
                EventView {
                    body: payload,
                    fields: match (key_field, message_key(message)) {
                        (Some(name), Some(key)) => Map::<Seq<char>, Seq<u8>>::empty().insert(
                            name@,
                            key,
                        ),
                        _ => Map::<Seq<char>, Seq<u8>>::empty(),
                    },
                },
            ),
        },
    }
}

/// What is read of a message gives, by the rules of [`handled`], what [`delivered`] says
/// of the message itself.
pub proof fn lemma_handled_is_delivered(
    key_field: Option<String>,
    message: BorrowedMessage<'_>,
    raw: RawMessage<'_>,
    stored: Result<(), KafkaError>,
)
    requires
        raw_of(message, key_field is Some, raw),
    ensures
        handled(key_field, Ok(raw), stored) == delivered(key_field, message, stored),
{
}

/// `outcome` is a possible outcome of handling `item`: an error from the broker fails
/// with that error, and a message gives what [`delivered`] says of it for some answer of
/// the offset store.
pub open spec fn handling(
    key_field: Option<String>,
    item: Result<BorrowedMessage<'_>, KafkaError>,
    outcome: Transformed,
) -> bool {
    match item {
        Err(error) => outcome == Transformed::Failed(SourceError::Delivery(error)),
        Ok(message) => exists|stored: Result<(), KafkaError>|
            outcome@ == #[trigger] delivered(key_field, message, stored),
    }
}

/// Handles one item polled from the broker: reads the message, builds the event and,
/// once the event is complete, stores the position of the message. The key is read only
/// where a key field is configured, and the position is stored only where an event was
/// built.
///
/// The outcome is fixed by the item but for what the offset store answers: an error
/// from the broker fails with that error; a message without payload is passed over; any
/// other message gives its event, or fails with the error of the store.
pub fn handle_item(
    key_field: &Option<String>,
    session: &ConsumerSession,
    item: Result<BorrowedMessage<'_>, KafkaError>,
) -> (out: Transformed)
    ensures
        handling(*key_field, item, out),
        item matches Err(error) ==> out == Transformed::Failed(SourceError::Delivery(error)),
        item matches Ok(message) ==> (message_payload(message) is None <==> out
            == Transformed::Skipped),
        item matches Ok(message) ==> (out matches Transformed::Event(event) ==> event@.body
            == message_payload(message)->Some_0),
        item is Ok ==> (out matches Transformed::Failed(error) ==> error is OffsetStore),
{
    match item {
        Err(error) => transform(key_field, Err(error)),
        Ok(message) => {
            let raw = read_message(&message, key_field.is_some());
            match transform(key_field, Ok(raw)) {
                Transformed::Event(event) => {
                    let stored = store_offset(session, &message);
                    let out = confirm(event, stored);
                    proof {
                        lemma_handled_is_delivered(*key_field, message, raw, stored);
                    }
                    assert(out@ == delivered(*key_field, message, stored));
                    out
                },
                other => {
                    proof {
                        lemma_handled_is_delivered(*key_field, message, raw, Ok(()));
                    }
                    assert(other@ == delivered(*key_field, message, Ok(())));
                    other
                },
            }
        },
    }
}

} // verus!
