//! The message bus between clients and the server: where it is reached,
//! how a message is wrapped, and what the server and a client make of a
//! message.

pub mod client;
pub mod common;
pub mod server;
