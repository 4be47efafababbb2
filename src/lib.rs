//! Relay engine of a modmail bot: a private conversation between a user and
//! a staff team, mirrored between a direct-message channel and a staff-side
//! forum thread.
//!
//! The identity store (`store`) holds one ticket per user and the log that
//! pairs each private message with its staff-side mirror. Every operation
//! that needs the platform (relaying a message, an edit or a deletion,
//! opening and closing tickets, staff commands) is a state machine: it
//! changes the store, reports each change as a `StoreWrite` to be written to
//! storage, and hands out one `Request` at a time, whose `Outcome` the
//! caller feeds back. The caller does the network work; the decisions are
//! here.

pub mod ids;
pub mod store;
pub mod formatting;
pub mod config;
pub mod protocol;
pub mod relay;
pub mod lifecycle;
pub mod edits;
pub mod staff;
pub mod commands;
pub mod tasks;
pub mod user_info;
