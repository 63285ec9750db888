//! One request on its way to an answer: what to do with each thing that
//! the reader sends back.
//!
//! The frame is written and a response is read. A read that fails is
//! followed by another write, and counts for nothing. A response that
//! says that no transponder is in the field is, for a request that needs
//! one, counted and followed by another write after a pause, until the
//! count reaches the limit. A response that warns of the RF hardware ends
//! the exchange with an error. Every other response is the answer.

use super::common::AntennaState;
use crate::error::InternalError;
use crate::obid::advanced_protocol::{crc_matches, HostToReader, ReaderToHost, RESPONSE_OVERHEAD};
use crate::obid::protocol::{FrameError, FrameKind, ObidSerialReceivable, ObidSerialSendable};
use crate::obid::status::{status_is_fatal, status_is_retryable, status_of, Status};
use vstd::prelude::*;

verus! {

/// The milliseconds of pause for each counted attempt.
pub const BACKOFF_MS: u64 = 8;

/// A request that has been framed and is waiting for its answer.
#[derive(Debug)]
pub struct Exchange {
    frame: Vec<u8>,
    device_required: bool,
    max_attempts: i32,
    attempts: i32,
}

/// What follows from one read.
#[derive(Debug)]
pub enum Verdict {
    /// The frame is to be written again after the pause.
    Retry { exchange: Exchange, pause_ms: u64 },
    /// The reader has answered.
    Done(ReaderToHost),
    /// The exchange has failed.
    Failed(InternalError),
}

/// What follows from one read, without the values that it carries.
pub enum Decision {
    /// Write the frame again, with this count of attempts, after the pause.
    Resend { attempts: int, pause_ms: int },
    /// Hand the response to the caller.
    Deliver,
    /// Fail with this error.
    Fail(InternalError),
}

/// What follows from a read after `attempts` counted attempts. `None`
/// stands for a read that failed.
pub open spec fn decision(
    attempts: int,
    max_attempts: int,
    device_required: bool,
    read: Option<Seq<u8>>,
) -> Decision {
    match read {
        None => Decision::Resend { attempts, pause_ms: 0 },
        Some(bytes) => if bytes.len() < RESPONSE_OVERHEAD {
            Decision::Fail(InternalError::Frame(FrameError::FrameTooShort(FrameKind::ReaderToHost)))
        } else if !crc_matches(bytes) {
            Decision::Fail(InternalError::Frame(FrameError::BadCrc(FrameKind::ReaderToHost)))
        } else if status_is_fatal(status_of(bytes[5])) {
            Decision::Fail(InternalError::RfWarning)
        } else if status_is_retryable(status_of(bytes[5]), device_required) {
            if attempts + 1 >= max_attempts {
                Decision::Fail(InternalError::NoDevice)
            } else {
                Decision::Resend { attempts: attempts + 1, pause_ms: BACKOFF_MS * (attempts + 1) }
            }
        } else {
            Decision::Deliver
        },
    }
}

/// The number of times that the frame is written when the reads after the
/// writes turn out as `reads` do, one after the other: one write before
/// each read, up to the read that ends the exchange.
pub open spec fn requests_sent(
    attempts: int,
    max_attempts: int,
    device_required: bool,
    reads: Seq<Option<Seq<u8>>>,
) -> nat
    decreases reads.len(),
{
    if reads.len() == 0 {
        0
    } else {
        match decision(attempts, max_attempts, device_required, reads[0]) {
            Decision::Resend { attempts, pause_ms } => 1 + requests_sent(
                attempts,
                max_attempts,
                device_required,
                reads.skip(1),
            ),
            _ => 1,
        }
    }
}

/// Whether `read` is a well-formed response with the given status.
pub open spec fn answers_with(read: Option<Seq<u8>>, status: Status) -> bool {
    &&& read is Some
    &&& read->Some_0.len() >= RESPONSE_OVERHEAD
    &&& crc_matches(read->Some_0)
    &&& status_of(read->Some_0[5]) == status
}

impl Exchange {
    #[verifier::type_invariant]
    spec fn counted(self) -> bool {
        0 <= self.attempts && (self.attempts == 0 || self.attempts < self.max_attempts)
    }

    /// The bytes that are written to the reader.
    pub closed spec fn wire(self) -> Seq<u8> {
        self.frame@
    }

    /// Whether the request needs a transponder in the field.
    pub closed spec fn device_required(self) -> bool {
        self.device_required
    }

    /// The number of counted attempts at which the exchange gives up.
    pub closed spec fn max_attempts(self) -> int {
        self.max_attempts as int
    }

    /// The number of responses so far that found no transponder.
    pub closed spec fn attempts(self) -> int {
        self.attempts as int
    }

    /// Frames `serial_message` and starts counting at zero.
    pub fn begin(state: &AntennaState, serial_message: HostToReader) -> (exchange: Exchange)
        requires
            serial_message.fits(),
        ensures
            exchange.wire() == serial_message.wire(),
            exchange.device_required() == serial_message.device_required,
            exchange.max_attempts() == state.max_attempts,
            exchange.attempts() == 0,
    {
        let mut serial_message = serial_message;
        let frame = serial_message.serialize();
        Exchange {
            frame,
            device_required: serial_message.device_required,
            max_attempts: state.max_attempts,
            attempts: 0,
        }
    }

    /// The bytes to write to the reader.
    pub fn frame(&self) -> (frame: &[u8])
        ensures
            frame@ == self.wire(),
    {
        self.frame.as_slice()
    }

    /// Decides what follows from a read. `None` stands for a read that
    /// failed, `Some` holds the bytes that were read.
    pub fn on_read(self, read: Option<&[u8]>) -> (verdict: Verdict)
        ensures
            match decision(
                self.attempts(),
                self.max_attempts(),
                self.device_required(),
                match read {
                    Some(bytes) => Some(bytes@),
                    None => None,
                },
            ) {
                Decision::Resend { attempts, pause_ms } => {
                    &&& verdict matches Verdict::Retry { exchange, pause_ms: pause }
                    &&& pause == pause_ms
                    &&& exchange.attempts() == attempts
                    &&& exchange.wire() == self.wire()
                    &&& exchange.device_required() == self.device_required()
                    &&& exchange.max_attempts() == self.max_attempts()
                },
                Decision::Deliver => {
                    &&& verdict matches Verdict::Done(response)
                    &&& response.is_parse_of(read->Some_0@)
                },
                Decision::Fail(error) => verdict == Verdict::Failed(error),
            },
    {
        proof {
            use_type_invariant(&self);
        }
        let bytes = match read {
            Some(bytes) => bytes,
            None => {
                return Verdict::Retry { exchange: self, pause_ms: 0 };
            },
        };
        let response = match ReaderToHost::deserialize(bytes) {
            Ok(response) => response,
            Err(error) => {
                return Verdict::Failed(InternalError::Frame(error));
            },
        };
        let status = Status::from(response.status);
        if status.is_fatal() {
            Verdict::Failed(InternalError::RfWarning)
        } else if status.is_retryable(self.device_required) {
            let attempts: i32 = self.attempts + 1;
            if attempts >= self.max_attempts {
                Verdict::Failed(InternalError::NoDevice)
            } else {
                let pause_ms: u64 = BACKOFF_MS * (attempts as u64);
                Verdict::Retry {
                    exchange: Exchange {
                        frame: self.frame,
                        device_required: self.device_required,
                        max_attempts: self.max_attempts,
                        attempts,
                    },
                    pause_ms,
                }
            }
        } else {
            Verdict::Done(response)
        }
    }
}

/// While every response says that no transponder is in the field, a
/// request that needs one is written at most as often as the limit
/// allows, however long the reader goes on.
pub proof fn lemma_retry_bound(attempts: int, max_attempts: int, reads: Seq<Option<Seq<u8>>>)
    requires
        0 <= attempts < max_attempts,
        forall|i: int| 0 <= i < reads.len() ==> answers_with(#[trigger] reads[i], Status::NoTransponder),
    ensures
        requests_sent(attempts, max_attempts, true, reads) <= max_attempts - attempts,
    decreases reads.len(),
{
    if reads.len() > 0 {
        assert(answers_with(reads[0], Status::NoTransponder));
        if attempts + 1 < max_attempts {
            let rest = reads.skip(1);
            assert forall|i: int| 0 <= i < rest.len() implies answers_with(
                #[trigger] rest[i],
                Status::NoTransponder,
            ) by {
                assert(rest[i] == reads[i + 1]);
            }
            lemma_retry_bound(attempts + 1, max_attempts, rest);
        }
    }
}

/// A request is written exactly once when the first response is one that
/// settles it: any well-formed response but the one that finds no
/// transponder for a request that needs one. The status `Ok` is among
/// them.
pub proof fn lemma_sent_once(
    attempts: int,
    max_attempts: int,
    device_required: bool,
    reads: Seq<Option<Seq<u8>>>,
    status: Status,
)
    requires
        reads.len() > 0,
        answers_with(reads[0], status),
        !(device_required && status == Status::NoTransponder),
    ensures
        requests_sent(attempts, max_attempts, device_required, reads) == 1,
{
}

} // verus!
