//! Core of a personal health-metrics logger.
//!
//! The library decides and computes; it performs no input or output. It
//! holds the decisions of a Bluetooth heart-rate session ([`session`],
//! [`device`], [`address`], [`notification`]), the run-length compaction of
//! recorded histories ([`compaction`], [`measured`], [`store`]), and what
//! the command line of the logger needs around them: the reading of
//! commands, the configuration, and the texts shown to the operator.

pub mod address;
pub mod bp;
pub mod chars;
pub mod clock;
pub mod command;
pub mod compaction;
pub mod config;
pub mod device;
pub mod error;
pub mod heartrate;
pub mod ingest;
pub mod measured;
pub mod mood;
pub mod notification;
pub mod script;
pub mod session;
pub mod stat;
pub mod store;
pub mod temperature;
pub mod text;
pub mod utils;
pub mod weight;
