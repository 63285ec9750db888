//! Where the reader is reached over the network.

use crate::error::Result;
use vstd::prelude::*;

verus! {

/// The address of a reader on the network.
#[derive(Debug)]
pub struct EthernetContext<'a> {
    /// The address, as `host:port`.
    pub addr: &'a str,
}

impl<'a> EthernetContext<'a> {
    /// The context for the reader at `addr`.
    pub fn new(addr: &'a str) -> (context: Result<EthernetContext<'a>>)
        ensures
            context is Ok,
            context->Ok_0.addr@ == addr@,
    {
        Ok(EthernetContext { addr })
    }
}

} // verus!
