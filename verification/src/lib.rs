//! Protocol engine for the line-oriented telnet control protocol of a
//! lighting-control bridge: the typed message model, the message decoder,
//! the frame reader and the login handshake, all free of I/O.
//!
//! The engine is driven from outside: a driver performs the transport
//! operation that the session asks for and hands back what happened.

pub mod caseta;
