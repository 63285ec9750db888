//! The byte channel below a reader connection: a transport that takes
//! bytes to the reader and brings bytes back. What a channel does with
//! the bytes is its own; a caller is ready for whatever comes back.

use super::exchange::{decision, Decision, Exchange, Verdict};
use crate::error::{InternalError, Result};
use vstd::prelude::*;

verus! {

/// The endpoint of the reader that USB writes go to.
pub const USB_WRITE_ENDPOINT: u8 = 0x02;

/// The endpoint of the reader that USB reads come from.
pub const USB_READ_ENDPOINT: u8 = 0x81;

/// A bidirectional transport of bytes.
pub trait ByteChannel {
    /// Writes `bytes` within the timeout and returns the number of bytes
    /// written.
    fn write(&mut self, bytes: &[u8], timeout_ms: u64) -> (written: Result<usize>);

    /// Reads within the timeout and returns the bytes read.
    fn read(&mut self, timeout_ms: u64) -> (bytes: Result<Vec<u8>>);
}

/// The timeouts and pauses of a channel, in milliseconds.
#[derive(Debug, Clone, Copy, PartialEq, Eq, Structural)]
pub struct ChannelTiming {
    /// The pause before each write.
    pub pause_before_write_ms: u64,
    /// The time that a write may take.
    pub write_timeout_ms: u64,
    /// The time that a read may take.
    pub read_timeout_ms: u64,
    /// The pause after each read that has brought bytes.
    pub pause_after_read_ms: u64,
}

impl ChannelTiming {
    /// The timing of the USB bulk channel: the reader asks for at least
    /// five milliseconds between frames.
    pub fn usb() -> (timing: ChannelTiming)
        ensures
            timing == (ChannelTiming {
                pause_before_write_ms: 6,
                write_timeout_ms: 50,
                read_timeout_ms: 5000,
                pause_after_read_ms: 0,
            }),
    {
        ChannelTiming {
            pause_before_write_ms: 6,
            write_timeout_ms: 50,
            read_timeout_ms: 5000,
            pause_after_read_ms: 0,
        }
    }

    /// The timing of the TCP stream channel: no pause between frames, and
    /// a pause for the stream to settle after each read.
    pub fn tcp() -> (timing: ChannelTiming)
        ensures
            timing == (ChannelTiming {
                pause_before_write_ms: 0,
                write_timeout_ms: 50,
                read_timeout_ms: 5000,
                pause_after_read_ms: 50,
            }),
    {
        ChannelTiming {
            pause_before_write_ms: 0,
            write_timeout_ms: 50,
            read_timeout_ms: 5000,
            pause_after_read_ms: 50,
        }
    }
}

/// A channel without a reader behind it: what is written comes back with
/// the next read.
#[derive(Debug)]
pub struct MockChannel {
    held: Option<Vec<u8>>,
}

impl MockChannel {
    /// The bytes that the next read brings back, where any are held.
    pub closed spec fn held(&self) -> Option<Seq<u8>> {
        match self.held {
            Some(bytes) => Some(bytes@),
            None => None,
        }
    }

    /// A channel that holds nothing.
    pub fn new() -> (channel: MockChannel)
        ensures
            channel.held() is None,
    {
        MockChannel { held: None }
    }
}

impl ByteChannel for MockChannel {
    /// Keeps `bytes` for the next read.
    fn write(&mut self, bytes: &[u8], timeout_ms: u64) -> (written: Result<usize>)
        ensures
            written == Ok::<usize, InternalError>(bytes@.len() as usize),
            final(self).held() == Some(bytes@),
    {
        self.held = Some(vstd::slice::slice_to_vec(bytes));
        Ok(bytes.len())
    }

    /// Brings back what was written last, once; a read with nothing
    /// written before it fails.
    fn read(&mut self, timeout_ms: u64) -> (bytes: Result<Vec<u8>>)
        ensures
            final(self).held() is None,
            match old(self).held() {
                Some(held) => bytes is Ok && bytes->Ok_0@ == held,
                None => bytes matches Err(InternalError::Generic(_)),
            },
    {
        match self.held.take() {
            Some(bytes) => Ok(bytes),
            None => Err(InternalError::Generic(String::from_str("Nothing to read"))),
        }
    }
}

/// Whether `verdict` is what follows for `exchange` from one write and one
/// read. A write that fails ends the exchange with the channel's error.
/// After a write that succeeds, a read that fails counts for nothing and
/// the frame is written again; a read that brings bytes is judged as the
/// exchange judges it.
pub open spec fn follows(
    exchange: Exchange,
    written: Result<usize>,
    read: Result<Vec<u8>>,
    verdict: Verdict,
) -> bool {
    match written {
        Err(error) => verdict == Verdict::Failed(error),
        Ok(_) => match decision(
            exchange.attempts(),
            exchange.max_attempts(),
            exchange.device_required(),
            match read {
                Ok(bytes) => Some(bytes@),
                Err(_) => None,
            },
        ) {
            Decision::Resend { attempts, pause_ms } => {
                &&& verdict matches Verdict::Retry { exchange: next, pause_ms: pause }
                &&& pause == pause_ms
                &&& next.attempts() == attempts
                &&& next.wire() == exchange.wire()
                &&& next.device_required() == exchange.device_required()
                &&& next.max_attempts() == exchange.max_attempts()
            },
            Decision::Deliver => {
                &&& verdict matches Verdict::Done(response)
                &&& response.is_parse_of(read->Ok_0@)
            },
            Decision::Fail(error) => verdict == Verdict::Failed(error),
        },
    }
}

/// What follows for `exchange` from the result of the write and, where
/// the write succeeded, of the read after it.
pub fn judge(exchange: Exchange, written: Result<usize>, read: Result<Vec<u8>>) -> (verdict:
    Verdict)
    ensures
        follows(exchange, written, read, verdict),
{
    match written {
        Err(error) => Verdict::Failed(error),
        Ok(_) => match read {
            Ok(bytes) => exchange.on_read(Some(bytes.as_slice())),
            Err(_) => exchange.on_read(None),
        },
    }
}

/// Writes the frame of `exchange` to the channel once, reads once where
/// the write succeeded, and says what follows.
pub fn round<C: ByteChannel>(channel: &mut C, exchange: Exchange, timing: &ChannelTiming) -> (verdict:
    Verdict)
    ensures
        exists|written: Result<usize>, read: Result<Vec<u8>>|
            follows(exchange, written, read, verdict),
{
    let written = channel.write(exchange.frame(), timing.write_timeout_ms);
    let read = if written.is_ok() {
        channel.read(timing.read_timeout_ms)
    } else {
        Err(InternalError::Generic(String::new()))
    };
    let verdict = judge(exchange, written, read);
    proof {
        assert(follows(exchange, written, read, verdict));
    }
    verdict
}

} // verus!
