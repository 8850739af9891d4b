//! Core of a small operational dashboard.
//!
//! The one piece with real engineering weight is the live telemetry path: a
//! background subscriber keeps a connection to a message broker's internal
//! status topics and is the sole writer of a shared cache of last-known
//! values, which any number of concurrent readers may snapshot at any time.
//! This crate holds that core — the snapshot, the reader/writer store, the
//! subscriber's state machine and message dispatch — together with the
//! configuration values the surrounding process builds it from.

pub mod config;
pub mod models;
pub mod parse;
pub mod search;
pub mod stats;
pub mod store;
pub mod subscriber;
