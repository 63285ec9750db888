//! A dispatcher that accepts every message and does nothing, for serving
//! without a reader.

use super::common::{CommandMessage, Protocol};
use crate::conn::common::Connection;
use crate::error::Result;
use vstd::prelude::*;

verus! {

/// The dispatcher that accepts every message.
#[derive(Debug)]
pub struct MockProtocol {}

impl MockProtocol {
    /// A mock dispatcher. The connection is taken and not used.
    pub fn new<C: Connection>(_connection: C) -> MockProtocol {
        MockProtocol {  }
    }
}

impl Protocol for MockProtocol {
    open spec fn handled(&self, before: &Self, message: CommandMessage, result: Result<()>) -> bool {
        result is Ok
    }

    /// Accepts `message`.
    fn handle_message(&mut self, _message: &CommandMessage) -> (result: Result<()>) {
        Ok(())
    }
}

} // verus!
