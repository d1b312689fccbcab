//! What holds of every source, whatever the broker delivers.

use crate::config::{client_parameters, KafkaSourceConfig};
use crate::decimal::{decimal, decimal_value, lemma_decimal_reads_back};
use crate::event::EventView;
use crate::message::{
    handled, transformed, RawMessage, SourceError, Transformed, TransformedView,
};
use crate::source::{actions, next_action, next_phase, run, Action, Phase, Signal};
use rdkafka::error::KafkaError;
use vstd::prelude::*;

verus! {

/// The broker client is given seven parameters and no other. The group, the broker
/// addresses and the offset-reset policy pass as they are configured, character for
/// character; the session timeout is written so that it reads back as the configured
/// number. Whatever the configuration, the client signals no end of partition and
/// commits no offset on its own, and its identifier is fixed.
pub proof fn law_client_parameters(config: KafkaSourceConfig)
    ensures
        client_parameters(config).dom() == set![
            "group.id"@,
            "bootstrap.servers"@,
            "auto.offset.reset"@,
            "session.timeout.ms"@,
            "enable.partition.eof"@,
            "enable.auto.commit"@,
            "client.id"@,
        ],
        client_parameters(config).dom().len() == 7,
        client_parameters(config)["group.id"@] == config.group_id@,
        client_parameters(config)["bootstrap.servers"@] == config.bootstrap_servers@,
        client_parameters(config)["auto.offset.reset"@] == config.auto_offset_reset@,
        client_parameters(config)["session.timeout.ms"@] == decimal(
            config.session_timeout_ms as nat,
        ),
        decimal_value(client_parameters(config)["session.timeout.ms"@])
            == config.session_timeout_ms,
        client_parameters(config)["enable.partition.eof"@] == "false"@,
        client_parameters(config)["enable.auto.commit"@] == "false"@,
        client_parameters(config)["client.id"@] == "vector"@,
{
    reveal_strlit("group.id");
    reveal_strlit("bootstrap.servers");
    reveal_strlit("auto.offset.reset");
    reveal_strlit("session.timeout.ms");
    reveal_strlit("enable.partition.eof");
    reveal_strlit("enable.auto.commit");
    reveal_strlit("client.id");
    let group = "group.id"@;
    let servers = "bootstrap.servers"@;
    let reset = "auto.offset.reset"@;
    let timeout = "session.timeout.ms"@;
    let eof = "enable.partition.eof"@;
    let commit = "enable.auto.commit"@;
    let client = "client.id"@;
    assert(group.len() == 8 && servers.len() == 17 && reset.len() == 17 && timeout.len() == 18);
    assert(eof.len() == 20 && commit.len() == 18 && client.len() == 9);
    assert(servers[0] != reset[0]);
    assert(timeout[0] != commit[0]);
    assert(servers != reset && timeout != commit);
    lemma_decimal_reads_back(config.session_timeout_ms as nat);
    let keys = set![group, servers, reset, timeout, eof, commit, client];
    assert(client_parameters(config).dom() =~= keys);
    let k1 = Set::<Seq<char>>::empty().insert(group);
    let k2 = k1.insert(servers);
    let k3 = k2.insert(reset);
    let k4 = k3.insert(timeout);
    let k5 = k4.insert(eof);
    let k6 = k5.insert(commit);
    let k7 = k6.insert(client);
    assert(k1.len() == 1);
    assert(k2.len() == 2);
    assert(k3.len() == 3);
    assert(k4.len() == 4);
    assert(k5.len() == 5);
    assert(k6.len() == 6);
    assert(k7.len() == 7);
    assert(keys =~= k7);
}

/// Without a configured key field, a message with a readable payload gives an event
/// whose body is the payload, byte for byte, and which has no field, whatever the key of
/// the message is.
pub proof fn law_body_is_payload(message: RawMessage<'_>, payload: &[u8])
    requires
        message.payload == Some(Ok::<&[u8], ()>(payload)),
    ensures
        transformed(None, Ok(message)) == TransformedView::Event(
            EventView { body: payload@, fields: Map::empty() },
        ),
{
}

/// With the key field `name` configured, a message with a readable payload and a readable
/// key gives an event whose body is the payload and whose only field is `name`, with the
/// key as its value.
pub proof fn law_key_is_field(name: String, message: RawMessage<'_>, payload: &[u8], key: &[u8])
    requires
        message.payload == Some(Ok::<&[u8], ()>(payload)),
        message.key == Some(Ok::<&[u8], ()>(key)),
    ensures
        transformed(Some(name), Ok(message)) == TransformedView::Event(
            EventView { body: payload@, fields: map![name@ => key@] },
        ),
{
}

/// With a key field configured, a message with a readable payload and no key gives an
/// event without fields: a missing key is no error.
pub proof fn law_missing_key_is_no_error(name: String, message: RawMessage<'_>, payload: &[u8])
    requires
        message.payload == Some(Ok::<&[u8], ()>(payload)),
        message.key is None,
    ensures
        transformed(Some(name), Ok(message)) == TransformedView::Event(
            EventView { body: payload@, fields: Map::empty() },
        ),
{
}

/// What the offset store answers bears on the outcome only where an event was built: a
/// message that is passed over, or that fails before its event is complete, comes out
/// the same whatever the store would say.
pub proof fn law_offset_follows_event(
    key_field: Option<String>,
    item: Result<RawMessage<'_>, KafkaError>,
    first: Result<(), KafkaError>,
    second: Result<(), KafkaError>,
)
    requires
        !(transformed(key_field, item) is Event),
    ensures
        handled(key_field, item, first) == transformed(key_field, item),
        handled(key_field, item, first) == handled(key_field, item, second),
{
}

/// An event whose offset was stored comes out as it was built, and one whose offset
/// could not be stored does not come out at all: the source fails with the error of the
/// store.
pub proof fn law_event_needs_stored_offset(
    key_field: Option<String>,
    item: Result<RawMessage<'_>, KafkaError>,
    error: KafkaError,
)
    requires
        transformed(key_field, item) is Event,
    ensures
        handled(key_field, item, Ok(())) == transformed(key_field, item),
        handled(key_field, item, Err(error)) == TransformedView::Failed(
            SourceError::OffsetStore(error),
        ),
{
}

/// A source that has terminated stays terminated whatever it is told, and asks for
/// nothing but to stop: it never polls and never forwards again.
pub proof fn law_terminated_is_final(signals: Seq<Signal>)
    ensures
        run(Phase::Terminated, signals) == Phase::Terminated,
        actions(Phase::Terminated, signals).len() == signals.len(),
        forall|i: int|
            0 <= i < signals.len() ==> #[trigger] actions(Phase::Terminated, signals)[i]
                == Action::Stop(None),
    decreases signals.len(),
{
    if signals.len() > 0 {
        law_terminated_is_final(signals.drop_first());
        let rest = actions(Phase::Terminated, signals.drop_first());
        assert forall|i: int| 0 <= i < signals.len() implies #[trigger] actions(
            Phase::Terminated,
            signals,
        )[i] == Action::Stop(None) by {
            if i > 0 {
                assert(actions(Phase::Terminated, signals)[i] == rest[i - 1]);
            }
        }
    }
}

/// A message without payload gives no event and does not stop a running source: the
/// source asks for the next item, and goes on from there exactly as if the message had
/// never been delivered.
pub proof fn law_absent_payload_is_passed_over(
    key_field: Option<String>,
    message: RawMessage<'_>,
    outcome: Transformed,
    later: Seq<Signal>,
)
    requires
        message.payload is None,
        outcome@ == transformed(key_field, Ok(message)),
    ensures
        outcome == Transformed::Skipped,
        next_phase(Phase::Running, Signal::Polled(outcome)) == Phase::Running,
        next_action(Phase::Running, Signal::Polled(outcome)) == Action::Poll,
        run(Phase::Running, seq![Signal::Polled(outcome)] + later) == run(Phase::Running, later),
        actions(Phase::Running, seq![Signal::Polled(outcome)] + later) == seq![Action::Poll]
            + actions(Phase::Running, later),
{
    let signals = seq![Signal::Polled(outcome)] + later;
    assert(signals[0] == Signal::Polled(outcome));
    assert(signals.drop_first() =~= later);
}

/// An error delivered by the broker stops a running source for good: the source asks to
/// stop with that error, and after it asks for nothing but to stop, so that no later
/// message is polled, transformed or forwarded.
pub proof fn law_delivery_error_terminates(
    key_field: Option<String>,
    error: KafkaError,
    outcome: Transformed,
    later: Seq<Signal>,
)
    requires
        outcome@ == transformed(key_field, Err(error)),
    ensures
        outcome == Transformed::Failed(SourceError::Delivery(error)),
        next_phase(Phase::Running, Signal::Polled(outcome)) == Phase::Terminated,
        next_action(Phase::Running, Signal::Polled(outcome)) == Action::Stop(
            Some(SourceError::Delivery(error)),
        ),
        run(Phase::Running, seq![Signal::Polled(outcome)] + later) == Phase::Terminated,
        actions(Phase::Running, seq![Signal::Polled(outcome)] + later).len() == later.len() + 1,
        forall|i: int|
            1 <= i <= later.len() ==> #[trigger] actions(
                Phase::Running,
                seq![Signal::Polled(outcome)] + later,
            )[i] == Action::Stop(None),
{
    let signals = seq![Signal::Polled(outcome)] + later;
    assert(signals[0] == Signal::Polled(outcome));
    assert(signals.drop_first() =~= later);
    law_terminated_is_final(later);
    let rest = actions(Phase::Terminated, later);
    assert forall|i: int| 1 <= i <= later.len() implies #[trigger] actions(
        Phase::Running,
        signals,
    )[i] == Action::Stop(None) by {
        assert(actions(Phase::Running, signals)[i] == rest[i - 1]);
    }
}

/// Any failure stops a running source for good, whichever stage it comes from: a payload
/// or a key that cannot be read, an offset that cannot be stored, or a channel that
/// closed.
pub proof fn law_first_failure_terminates(failure: Signal, later: Seq<Signal>)
    requires
        failure matches Signal::Polled(Transformed::Failed(_)) || failure
            == Signal::ChannelClosed,
    ensures
        next_phase(Phase::Running, failure) == Phase::Terminated,
        next_action(Phase::Running, failure) matches Action::Stop(Some(_)),
        run(Phase::Running, seq![failure] + later) == Phase::Terminated,
{
    let signals = seq![failure] + later;
    assert(signals[0] == failure);
    assert(signals.drop_first() =~= later);
    law_terminated_is_final(later);
}

} // verus!
