//! The connection to the reader: what a connection is, how a request is
//! repeated until the reader's answer settles it, and a connection that
//! needs no reader.

pub mod channel;
pub mod common;
pub mod ethernet;
pub mod exchange;
pub mod mock;
