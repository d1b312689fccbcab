use bytes::Bytes;
use kafka_source::event::Event;

#[test]
fn new_event_has_its_body_and_no_fields() {
    let event = Event::new(Bytes::from("my message"));
    assert_eq!(event.body(), &Bytes::from("my message"));
    assert_eq!(event.field_count(), 0);
    assert_eq!(event.get("message_key"), None);
}

#[test]
fn new_event_may_have_an_empty_body() {
    let event = Event::new(Bytes::new());
    assert_eq!(event.body().len(), 0);
    assert_eq!(event.field_count(), 0);
}

#[test]
fn inserted_field_is_found_under_its_name() {
    let mut event = Event::new(Bytes::from("body"));
    event.insert("message_key".to_string(), Bytes::from("my key"));
    assert_eq!(event.get("message_key"), Some(&Bytes::from("my key")));
    assert_eq!(event.get("message_ke"), None);
    assert_eq!(event.get("message_key "), None);
    assert_eq!(event.field_count(), 1);
    assert_eq!(event.body(), &Bytes::from("body"));
}

#[test]
fn inserting_under_a_used_name_replaces_the_value() {
    let mut event = Event::new(Bytes::from("body"));
    event.insert("a".to_string(), Bytes::from("1"));
    event.insert("b".to_string(), Bytes::from("2"));
    event.insert("a".to_string(), Bytes::from("3"));
    assert_eq!(event.field_count(), 2);
    assert_eq!(event.get("a"), Some(&Bytes::from("3")));
    assert_eq!(event.get("b"), Some(&Bytes::from("2")));
}

#[test]
fn fields_do_not_depend_on_the_order_of_insertion() {
    let mut first = Event::new(Bytes::from("body"));
    first.insert("a".to_string(), Bytes::from("1"));
    first.insert("b".to_string(), Bytes::from("2"));
    let mut second = Event::new(Bytes::from("body"));
    second.insert("b".to_string(), Bytes::from("2"));
    second.insert("a".to_string(), Bytes::from("1"));
    for name in ["a", "b", "c"] {
        assert_eq!(first.get(name), second.get(name));
    }
    assert_eq!(first.field_count(), second.field_count());
}

#[test]
fn field_names_and_values_may_be_empty() {
    let mut event = Event::new(Bytes::from("body"));
    event.insert(String::new(), Bytes::new());
    assert_eq!(event.field_count(), 1);
    assert_eq!(event.get(""), Some(&Bytes::new()));
}
