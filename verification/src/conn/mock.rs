//! A connection without a reader: every request comes back as its own
//! response.

use super::common::{Connection, Context};
use crate::error::{InternalError, Result};
use crate::obid::advanced_protocol::{
    lemma_with_crc_matches, request_head, HostToReader, ReaderToHost, REQUEST_OVERHEAD,
};
use crate::obid::crc::crc16;
use crate::obid::endian::lemma_u16_of_bytes;
use crate::obid::protocol::{FrameError, FrameKind, ObidSerialReceivable, ObidSerialSendable};
use vstd::prelude::*;

verus! {

/// A connection that reads each request frame back as a response frame.
#[derive(Debug)]
pub struct MockConnection {}

/// The context that opens mock connections.
#[derive(Debug)]
pub struct MockContext {}

impl MockConnection {
    /// A mock connection.
    pub fn new() -> MockConnection {
        MockConnection {  }
    }
}

impl MockContext {
    /// A context for mock connections.
    pub fn new() -> MockContext {
        MockContext {  }
    }
}

/// What the mock connection answers to `request`: the frame of the
/// request, read as a response. The first byte of the payload is the
/// status and the rest is the payload; the address and the control byte
/// are those of the request, the length and the checksum those of its
/// frame. A request without payload is too short for a response.
pub open spec fn loops_back(request: HostToReader, response: Result<ReaderToHost>) -> bool {
    if request.data@.len() == 0 {
        response == Err::<ReaderToHost, InternalError>(
            InternalError::Frame(FrameError::FrameTooShort(FrameKind::ReaderToHost)),
        )
    } else {
        &&& response is Ok
        &&& response->Ok_0.is_parse_of(request.wire())
        &&& response->Ok_0.alength == request.data@.len() + REQUEST_OVERHEAD
        &&& response->Ok_0.com_adr == request.com_adr
        &&& response->Ok_0.control_byte == request.control_byte
        &&& response->Ok_0.status == request.data@[0]
        &&& response->Ok_0.data@ == request.data@.skip(1)
        &&& response->Ok_0.crc16 == crc16(
            request_head(request.com_adr, request.control_byte, request.data@),
        )
    }
}

impl Connection for MockConnection {
    open spec fn answered(&self, request: HostToReader, response: Result<ReaderToHost>) -> bool {
        loops_back(request, response)
    }

    /// Reads the frame of `serial_message` as a response.
    fn send_command(&mut self, serial_message: HostToReader) -> (response: Result<ReaderToHost>) {
        let mut serial_message = serial_message;
        let ghost sent = serial_message;
        let msg = serial_message.serialize();
        proof {
            let head = request_head(sent.com_adr, sent.control_byte, sent.data@);
            lemma_with_crc_matches(head);
            lemma_u16_of_bytes((sent.data@.len() + REQUEST_OVERHEAD) as u16);
            if sent.data@.len() > 0 {
                assert(msg@.subrange(6, msg@.len() - 2) == sent.data@.skip(1));
            }
        }
        match ReaderToHost::deserialize(msg.as_slice()) {
            Ok(response) => Ok(response),
            Err(error) => Err(InternalError::Frame(error)),
        }
    }
}

impl Context for MockContext {
    type Link = MockConnection;

    /// Opens a mock connection, which cannot fail.
    fn connection(&self) -> (link: Result<MockConnection>)
        ensures
            link is Ok,
    {
        Ok(MockConnection::new())
    }
}

} // verus!
