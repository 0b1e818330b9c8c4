//! The bridge protocol: remotes and their buttons, wire messages, errors and
//! the session state machine.

pub mod buffer;
pub mod connection;
pub mod error;
pub mod message;
pub mod remote;
pub mod transcript;
