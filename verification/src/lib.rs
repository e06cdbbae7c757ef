//! Authenticated message exchange and tray event routing for a desktop
//! messenger shell.
//!
//! The crate has two independent halves. The first turns a user's secret
//! into a key, seals messages into tamper-evident envelopes and opens them
//! again, and offers both operations as text-in, text-out commands. The
//! second maps tray menu selections to the window and process actions that
//! the hosting shell has to perform.

pub mod dispatch;
pub mod encoding;
pub mod engine;
pub mod envelope;
pub mod error;
pub mod key;
pub mod tray;
pub mod trusted;
