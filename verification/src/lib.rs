//! A session store for tower-sessions whose decisions are separated from
//! the backend that carries them out.
//!
//! The store never talks to a database itself. Every operation is split in
//! two: a function that says which [`Command`] the backend has to run, and a
//! function that reads the backend's reply and gives the operation's result.
//! The caller owns the connection and the clock, runs the command, and hands
//! the reply back. What a backend is expected to do with a command is written
//! down once, as a mathematical model of one table, and the guarantees of the
//! store are proved against that model.

pub mod backend;
pub mod codec;
pub mod error;
pub mod laws;
pub mod record;
pub mod store;

pub use backend::Command;
pub use codec::SessionRecord;
pub use error::Error;
pub use record::{Id, Record, Timestamp};
pub use store::SurrealSessionStore;
