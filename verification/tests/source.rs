use bytes::Bytes;
use kafka_source::broker::ConsumerSession;
use kafka_source::config::KafkaSourceConfig;
use kafka_source::consumer::create_consumer;
use kafka_source::event::Event;
use kafka_source::message::{
    confirm, handle_item, transform, RawMessage, SourceError, Transformed,
};
use kafka_source::source::{Action, Phase, Signal, Source};
use rdkafka::error::{KafkaError, RDKafkaErrorCode};

fn config(key_field: Option<&str>) -> KafkaSourceConfig {
    KafkaSourceConfig {
        bootstrap_servers: "localhost:9092".to_string(),
        topics: vec!["my-topic".to_string()],
        group_id: "group-id".to_string(),
        auto_offset_reset: "earliest".to_string(),
        session_timeout_ms: 10000,
        host_key: None,
        key_field: key_field.map(|name| name.to_string()),
    }
}

fn running(key_field: Option<&str>) -> Source {
    let mut source = Source::new(&config(key_field));
    assert!(matches!(source.step(Signal::Connected), Action::Start));
    assert!(matches!(source.step(Signal::Started), Action::Poll));
    source
}

/// Stands for the broker and the offset store: handles `item` as a session would whose
/// store answers `stored`.
fn deliver(
    source: &mut Source,
    item: Result<RawMessage<'_>, KafkaError>,
    stored: Result<(), KafkaError>,
) -> Action {
    let outcome = match transform(source.key_field(), item) {
        Transformed::Event(event) => confirm(event, stored),
        other => other,
    };
    source.step(Signal::Polled(outcome))
}

fn session() -> ConsumerSession {
    match create_consumer(config(None)) {
        Ok(session) => session,
        Err(error) => panic!("no session: {:?}", error),
    }
}

#[test]
fn handled_delivery_error_fails_with_that_error() {
    let session = session();
    let error = KafkaError::MessageConsumption(RDKafkaErrorCode::BrokerTransportFailure);
    match handle_item(&None, &session, Err(error.clone())) {
        Transformed::Failed(SourceError::Delivery(cause)) => assert_eq!(cause, error),
        other => panic!("no delivery error: {:?}", other),
    }
    let key_field = Some("message_key".to_string());
    match handle_item(&key_field, &session, Err(error.clone())) {
        Transformed::Failed(SourceError::Delivery(cause)) => assert_eq!(cause, error),
        other => panic!("no delivery error: {:?}", other),
    }
}

#[test]
fn received_delivery_error_terminates_a_running_source() {
    let session = session();
    let mut source = running(None);
    let error = KafkaError::MessageConsumption(RDKafkaErrorCode::AllBrokersDown);
    match source.receive(&session, Err(error.clone())) {
        Action::Stop(Some(SourceError::Delivery(cause))) => assert_eq!(cause, error),
        other => panic!("not stopped: {:?}", other),
    }
    assert_eq!(source.phase(), Phase::Terminated);
    assert!(matches!(
        source.receive(&session, Err(error.clone())),
        Action::Stop(None)
    ));
    assert_eq!(source.phase(), Phase::Terminated);
}

#[test]
fn received_item_is_left_alone_by_a_source_that_does_not_run() {
    let session = session();
    let error = KafkaError::NoMessageReceived;
    let mut source = Source::new(&config(None));
    assert!(matches!(
        source.receive(&session, Err(error.clone())),
        Action::Connect
    ));
    assert_eq!(source.phase(), Phase::Uninitialized);
    source.step(Signal::Connected);
    assert!(matches!(source.receive(&session, Err(error)), Action::Start));
    assert_eq!(source.phase(), Phase::Connected);
}

#[test]
fn source_starts_uninitialized_with_the_configured_key_field() {
    let source = Source::new(&config(Some("message_key")));
    assert_eq!(source.phase(), Phase::Uninitialized);
    assert_eq!(source.key_field(), &Some("message_key".to_string()));
    let source = Source::new(&config(None));
    assert_eq!(source.key_field(), &None);
}

#[test]
fn source_awaits_what_its_phase_calls_for() {
    let mut source = Source::new(&config(None));
    assert!(matches!(source.awaits(), Action::Connect));
    source.step(Signal::Connected);
    assert!(matches!(source.awaits(), Action::Start));
    source.step(Signal::Started);
    assert!(matches!(source.awaits(), Action::Poll));
    source.step(Signal::Ended);
    assert!(matches!(source.awaits(), Action::Stop(None)));
}

#[test]
fn source_connects_then_runs() {
    let mut source = Source::new(&config(None));
    assert!(matches!(source.step(Signal::Connected), Action::Start));
    assert_eq!(source.phase(), Phase::Connected);
    assert!(matches!(source.step(Signal::Started), Action::Poll));
    assert_eq!(source.phase(), Phase::Running);
}

#[test]
fn signals_out_of_turn_change_nothing() {
    let mut source = Source::new(&config(None));
    assert!(matches!(source.step(Signal::Started), Action::Connect));
    assert!(matches!(source.step(Signal::Polled(Transformed::Skipped)), Action::Connect));
    assert!(matches!(source.step(Signal::ChannelClosed), Action::Connect));
    assert!(matches!(source.step(Signal::Ended), Action::Connect));
    assert_eq!(source.phase(), Phase::Uninitialized);
    source.step(Signal::Connected);
    assert!(matches!(source.step(Signal::Connected), Action::Start));
    assert!(matches!(source.step(Signal::Forwarded), Action::Start));
    assert!(matches!(
        source.step(Signal::Polled(Transformed::Failed(SourceError::Payload))),
        Action::Start
    ));
    assert_eq!(source.phase(), Phase::Connected);
    source.step(Signal::Started);
    assert!(matches!(source.step(Signal::Connected), Action::Poll));
    assert!(matches!(source.step(Signal::Started), Action::Poll));
    assert_eq!(source.phase(), Phase::Running);
}

#[test]
fn event_is_forwarded_and_polling_goes_on() {
    let mut source = running(None);
    let event = Event::new(Bytes::from("my message"));
    match source.step(Signal::Polled(Transformed::Event(event))) {
        Action::Forward(event) => assert_eq!(event.body(), &Bytes::from("my message")),
        other => panic!("nothing to forward: {:?}", other),
    }
    assert_eq!(source.phase(), Phase::Running);
    assert!(matches!(source.step(Signal::Forwarded), Action::Poll));
    assert_eq!(source.phase(), Phase::Running);
}

#[test]
fn absent_payload_yields_no_event_and_the_next_message_is_processed() {
    let mut source = running(None);
    let empty = RawMessage { payload: None, key: None };
    assert!(matches!(deliver(&mut source, Ok(empty), Ok(())), Action::Poll));
    assert_eq!(source.phase(), Phase::Running);
    let next = RawMessage { payload: Some(Ok(b"next")), key: None };
    match deliver(&mut source, Ok(next), Ok(())) {
        Action::Forward(event) => assert_eq!(event.body(), &Bytes::from("next")),
        other => panic!("nothing to forward: {:?}", other),
    }
    assert_eq!(source.phase(), Phase::Running);
}

#[test]
fn delivery_error_terminates_and_nothing_is_polled_after_it() {
    let mut source = running(None);
    let error = KafkaError::MessageConsumption(RDKafkaErrorCode::AllBrokersDown);
    match deliver(&mut source, Err(error.clone()), Ok(())) {
        Action::Stop(Some(SourceError::Delivery(cause))) => assert_eq!(cause, error),
        other => panic!("not stopped: {:?}", other),
    }
    assert_eq!(source.phase(), Phase::Terminated);
    let later = RawMessage { payload: Some(Ok(b"later")), key: None };
    assert!(matches!(deliver(&mut source, Ok(later), Ok(())), Action::Stop(None)));
    assert!(matches!(source.step(Signal::Forwarded), Action::Stop(None)));
    assert!(matches!(source.step(Signal::Connected), Action::Stop(None)));
    assert!(matches!(source.step(Signal::Started), Action::Stop(None)));
    assert_eq!(source.phase(), Phase::Terminated);
}

#[test]
fn unreadable_payload_terminates() {
    let mut source = running(None);
    let bad = RawMessage { payload: Some(Err(())), key: None };
    assert!(matches!(
        deliver(&mut source, Ok(bad), Ok(())),
        Action::Stop(Some(SourceError::Payload))
    ));
    assert_eq!(source.phase(), Phase::Terminated);
}

#[test]
fn unreadable_key_terminates() {
    let mut source = running(Some("message_key"));
    let bad = RawMessage { payload: Some(Ok(b"my message")), key: Some(Err(())) };
    assert!(matches!(
        deliver(&mut source, Ok(bad), Ok(())),
        Action::Stop(Some(SourceError::Key))
    ));
    assert_eq!(source.phase(), Phase::Terminated);
}

#[test]
fn failed_offset_store_terminates_without_an_event() {
    let mut source = running(None);
    let raw = RawMessage { payload: Some(Ok(b"my message")), key: None };
    let error = KafkaError::StoreOffset(RDKafkaErrorCode::UnknownPartition);
    match deliver(&mut source, Ok(raw), Err(error.clone())) {
        Action::Stop(Some(SourceError::OffsetStore(cause))) => assert_eq!(cause, error),
        other => panic!("not stopped: {:?}", other),
    }
    assert_eq!(source.phase(), Phase::Terminated);
}

#[test]
fn closed_channel_terminates() {
    let mut source = running(None);
    let raw = RawMessage { payload: Some(Ok(b"my message")), key: None };
    assert!(matches!(deliver(&mut source, Ok(raw), Ok(())), Action::Forward(_)));
    assert!(matches!(
        source.step(Signal::ChannelClosed),
        Action::Stop(Some(SourceError::Sink))
    ));
    assert_eq!(source.phase(), Phase::Terminated);
    assert!(matches!(source.step(Signal::Forwarded), Action::Stop(None)));
}

#[test]
fn end_of_sequence_terminates_without_an_error() {
    let mut source = running(None);
    assert!(matches!(source.step(Signal::Ended), Action::Stop(None)));
    assert_eq!(source.phase(), Phase::Terminated);
}

#[test]
fn one_published_message_gives_exactly_one_event() {
    let mut source = running(Some("message_key"));
    let published = RawMessage { payload: Some(Ok(b"my message")), key: Some(Ok(b"my key")) };
    let mut events: Vec<Event> = Vec::new();
    let mut action = deliver(&mut source, Ok(published), Ok(()));
    loop {
        match action {
            Action::Forward(event) => {
                events.push(event);
                action = source.step(Signal::Forwarded);
            }
            Action::Poll => break,
            other => panic!("unexpected: {:?}", other),
        }
    }
    assert_eq!(events.len(), 1);
    assert_eq!(events[0].body(), &Bytes::from("my message"));
    assert_eq!(events[0].get("message_key"), Some(&Bytes::from("my key")));
    assert_eq!(events[0].field_count(), 1);
    assert_eq!(source.phase(), Phase::Running);
}

#[test]
fn events_come_out_in_the_order_of_delivery() {
    let mut source = running(None);
    let payloads: [&[u8]; 3] = [b"one", b"two", b"three"];
    let mut bodies: Vec<Vec<u8>> = Vec::new();
    for payload in payloads {
        let raw = RawMessage { payload: Some(Ok(payload)), key: None };
        match deliver(&mut source, Ok(raw), Ok(())) {
            Action::Forward(event) => bodies.push(event.body().to_vec()),
            other => panic!("nothing to forward: {:?}", other),
        }
        assert!(matches!(source.step(Signal::Forwarded), Action::Poll));
    }
    assert_eq!(bodies, vec![b"one".to_vec(), b"two".to_vec(), b"three".to_vec()]);
}
