use crate::broker::ConsumerSession;
use crate::config::KafkaSourceConfig;
use crate::event::Event;
use crate::message::{handle_item, handling, SourceError, Transformed};
use rdkafka::error::KafkaError;
use rdkafka::message::BorrowedMessage;
use vstd::prelude::*;

verus! {

/// Where a source stands in its life. It only ever moves forward, and never leaves
/// `Terminated`.
#[derive(Debug, Clone, Copy, PartialEq, Eq, Structural)]
pub enum Phase {
    /// No session with the brokers yet.
    Uninitialized,
    /// The session exists and the topics are subscribed to.
    Connected,
    /// Messages are polled, transformed and forwarded.
    Running,
    /// The source has stopped for good.
    Terminated,
}

/// What the driver of a source reports to it.
#[derive(Debug)]
pub enum Signal {
    /// The session was created and the topics were subscribed to.
    Connected,
    /// The driver is ready to poll.
    Started,
    /// An item was polled and handled, with this outcome.
    Polled(Transformed),
    /// The channel downstream took the event that was handed to it.
    Forwarded,
    /// The channel downstream closed or reported an error.
    ChannelClosed,
    /// The sequence of messages came to an end.
    Ended,
}

/// What a source asks of its driver.
#[derive(Debug)]
pub enum Action {
    /// Create the session and subscribe.
    Connect,
    /// Begin to poll.
    Start,
    /// Poll the next item.
    Poll,
    /// Hand this event to the channel downstream, waiting while the channel is full.
    Forward(Event),
    /// Stop, for the given reason if the source stopped on an error at this very step.
    Stop(Option<SourceError>),
}

/// The phase after `signal` arrived in `phase`. A signal that the phase does not wait
/// for changes nothing.
pub open spec fn next_phase(phase: Phase, signal: Signal) -> Phase {
    match (phase, signal) {
        (Phase::Uninitialized, Signal::Connected) => Phase::Connected,
        (Phase::Connected, Signal::Started) => Phase::Running,
        (Phase::Running, Signal::Polled(Transformed::Failed(_))) => Phase::Terminated,
        (Phase::Running, Signal::ChannelClosed) => Phase::Terminated,
        (Phase::Running, Signal::Ended) => Phase::Terminated,
        _ => phase,
    }
}

/// What a source in `phase` waits for when nothing is at hand.
pub open spec fn awaited(phase: Phase) -> Action {
    match phase {
        Phase::Uninitialized => Action::Connect,
        Phase::Connected => Action::Start,
        Phase::Running => Action::Poll,
        Phase::Terminated => Action::Stop(None),
    }
}

/// What the source asks for after `signal` arrived in `phase`.
pub open spec fn next_action(phase: Phase, signal: Signal) -> Action {
    match (phase, signal) {
        (Phase::Running, Signal::Polled(Transformed::Event(event))) => Action::Forward(event),
        (Phase::Running, Signal::Polled(Transformed::Failed(error))) => Action::Stop(Some(error)),
        (Phase::Running, Signal::ChannelClosed) => Action::Stop(Some(SourceError::Sink)),
        (Phase::Running, Signal::Ended) => Action::Stop(None),
        _ => awaited(next_phase(phase, signal)),
    }
}

/// The phase after a whole sequence of signals, taken in order.
pub open spec fn run(phase: Phase, signals: Seq<Signal>) -> Phase
    decreases signals.len(),
{
    if signals.len() == 0 {
        phase
    } else {
        run(next_phase(phase, signals[0]), signals.drop_first())
    }
}

/// The actions that a whole sequence of signals draws, one for each signal.
pub open spec fn actions(phase: Phase, signals: Seq<Signal>) -> Seq<Action>
    decreases signals.len(),
{
    if signals.len() == 0 {
        Seq::empty()
    } else {
        seq![next_action(phase, signals[0])] + actions(
            next_phase(phase, signals[0]),
            signals.drop_first(),
        )
    }
}

/// The decisions of one source: it is told what happened and says what to do next.
#[derive(Debug)]
pub struct Source {
    phase: Phase,
    key_field: Option<String>,
}

/// What a [`Source`] stands for.
pub struct SourceView {
    pub phase: Phase,
    pub key_field: Option<String>,
}

impl View for Source {
    type V = SourceView;

    closed spec fn view(&self) -> SourceView {
        SourceView { phase: self.phase, key_field: self.key_field }
    }
}

impl Source {
    /// A source for `config` that has not connected yet.
    pub fn new(config: &KafkaSourceConfig) -> (source: Source)
        ensures
            source@ == (SourceView { phase: Phase::Uninitialized, key_field: config.key_field }),
    {
        Source { phase: Phase::Uninitialized, key_field: config.key_field.clone() }
    }

    /// The phase the source is in.
    pub fn phase(&self) -> (phase: Phase)
        ensures
            phase == self@.phase,
    {
        self.phase
    }

    /// The name of the field that receives the message key, if one is configured.
    pub fn key_field(&self) -> (key_field: &Option<String>)
        ensures
            *key_field == self@.key_field,
    {
        &self.key_field
    }

    /// What the source waits for in the phase it is in.
    pub fn awaits(&self) -> (action: Action)
        ensures
            action == awaited(self@.phase),
    {
        match self.phase {
            Phase::Uninitialized => Action::Connect,
            Phase::Connected => Action::Start,
            Phase::Running => Action::Poll,
            Phase::Terminated => Action::Stop(None),
        }
    }

    /// Takes one signal and says what to do next.
    pub fn step(&mut self, signal: Signal) -> (action: Action)
        ensures
            final(self)@.phase == next_phase(old(self)@.phase, signal),
            final(self)@.key_field == old(self)@.key_field,
            action == next_action(old(self)@.phase, signal),
    {
        match self.phase {
            Phase::Uninitialized => {
                if let Signal::Connected = signal {
                    self.phase = Phase::Connected;
                    Action::Start
                } else {
                    Action::Connect
                }
            },
            Phase::Connected => {
                if let Signal::Started = signal {
                    self.phase = Phase::Running;
                    Action::Poll
                } else {
                    Action::Start
                }
            },
            Phase::Running => match signal {
                Signal::Polled(Transformed::Event(event)) => Action::Forward(event),
                Signal::Polled(Transformed::Failed(error)) => {
                    self.phase = Phase::Terminated;
                    Action::Stop(Some(error))
                },
                Signal::ChannelClosed => {
                    self.phase = Phase::Terminated;
                    Action::Stop(Some(SourceError::Sink))
                },
                Signal::Ended => {
                    self.phase = Phase::Terminated;
                    Action::Stop(None)
                },
                _ => Action::Poll,
            },
            Phase::Terminated => Action::Stop(None),
        }
    }

    /// Takes one item polled from the broker. A running source handles the item and
    /// steps on its outcome; a source in any other phase leaves the item alone.
    pub fn receive(
        &mut self,
        session: &ConsumerSession,
        item: Result<BorrowedMessage<'_>, KafkaError>,
    ) -> (action: Action)
        ensures
            final(self)@.key_field == old(self)@.key_field,
            old(self)@.phase != Phase::Running ==> final(self)@.phase == old(self)@.phase
                && action == awaited(old(self)@.phase),
            old(self)@.phase == Phase::Running ==> exists|outcome: Transformed|
                handling(old(self)@.key_field, item, outcome) && final(self)@.phase
                    == #[trigger] next_phase(Phase::Running, Signal::Polled(outcome)) && action
                    == next_action(Phase::Running, Signal::Polled(outcome)),
    {
        if self.phase == Phase::Running {
            let outcome = handle_item(&self.key_field, session, item);
            proof {
                let signal = Signal::Polled(outcome);
                assert(handling(self.key_field, item, outcome));
                assert(next_phase(Phase::Running, signal) == next_phase(Phase::Running, signal));
            }
            self.step(Signal::Polled(outcome))
        } else {
            self.awaits()
        }
    }
}

} // verus!
