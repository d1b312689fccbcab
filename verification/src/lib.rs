//! The decisions of a source that reads messages from Kafka topics and sends them
//! downstream as events, with the contracts that Verus proves of them.
//!
//! - [`config`] holds the configuration and what it makes the broker client do.
//! - [`consumer`] creates the session with the brokers and subscribes to the topics.
//! - [`message`] turns one polled item into an event, a skip or a failure.
//! - [`source`] is the life of a source: told what happened, it says what to do next.
//! - [`laws`] states what holds of every source.
//! - [`event`] is the record that goes downstream, [`decimal`] writes numbers, and
//!   [`broker`] holds what is taken on trust of the broker client.
//!
//! Waiting is left to the caller: for the next message and for room downstream.

pub mod broker;
pub mod config;
pub mod consumer;
pub mod decimal;
pub mod event;
pub mod laws;
pub mod message;
pub mod source;
