//! Core of a realtime notification broker.
//!
//! Producers hand notification events to the broker, which serializes them,
//! optionally encrypts the payload with a symmetric secure cell, and publishes
//! them to a message-broker exchange.  Consumers bind a queue to the exchange,
//! stream deliveries, ack each one, optionally decrypt, and fan the decoded
//! notification out to a realtime channel, a TTL'd key/value cache, and a
//! durable store.
//!
//! This crate holds the verified core: the data model, the wire codec, the
//! key-mismatch and tamper checks, the cache layer's append-or-initialize
//! semantics, and the consumer session's state machine.  The unverified shell
//! around it performs the broker, cache, and cipher I/O and feeds the
//! outcomes back in as plain values.

pub mod error;
pub mod event;
pub mod hexcodec;
pub mod cipher;
pub mod cache;
pub mod commands;
pub mod consumer;
pub mod producer;
pub mod routes;
pub mod text;
