//! What the server does with each request: which answer it gives, and
//! whether it goes on serving.

use crate::error::{error_text, Result};
use crate::protocol::common::{CommandMessage, Protocol};
use vstd::prelude::*;

verus! {

/// The milliseconds that the reader is given to come back after a reset.
pub const RESET_PAUSE_MS: u64 = 1000;

/// What the serving loop does after it has answered a request.
#[derive(Debug, Clone, Copy, PartialEq, Eq, Structural)]
pub enum ServeNext {
    /// Waits for the next request.
    Continue,
    /// Ends, and is not to be started again.
    Stop,
    /// Ends, and is to be started again after the pause.
    Restart { pause_ms: u64 },
}

/// The answer to a request, and what the serving loop does after it.
#[derive(Debug)]
pub struct Served {
    /// The answer: `Success` or `Failure`.
    pub reply: CommandMessage,
    /// What the loop does next.
    pub next: ServeNext,
}

/// What the loop does after a request of the given kind.
pub open spec fn next_after(request: CommandMessage) -> ServeNext {
    match request {
        CommandMessage::Stop {  } => ServeNext::Stop,
        CommandMessage::SystemReset {  } => ServeNext::Restart { pause_ms: RESET_PAUSE_MS },
        _ => ServeNext::Continue,
    }
}

/// Whether the server hands a request of the given kind to its
/// dispatcher. `Stop` and `Success` are answered without it.
pub open spec fn is_dispatched(request: CommandMessage) -> bool {
    !(request is Stop) && !(request is Success)
}

/// Whether `reply` is the answer to a request that the dispatcher has
/// handled with `result`: `Success` for a success, and for a failure
/// `Failure` with the text of the error, whatever kind the request is of.
pub open spec fn is_reply(result: Result<()>, reply: CommandMessage) -> bool {
    match result {
        Ok(_) => reply is Success,
        Err(error) => {
            &&& reply matches CommandMessage::Failure { message }
            &&& message@ == error_text(error)
        },
    }
}

/// The answer to a request that the dispatcher has handled with `result`,
/// and what the serving loop does next. The kind of the request decides
/// what comes next, the result decides the answer.
pub fn conclude(request: &CommandMessage, result: Result<()>) -> (served: Served)
    ensures
        served.next == next_after(*request),
        is_reply(result, served.reply),
{
    let next = match request {
        CommandMessage::Stop {  } => ServeNext::Stop,
        CommandMessage::SystemReset {  } => ServeNext::Restart { pause_ms: RESET_PAUSE_MS },
        _ => ServeNext::Continue,
    };
    let reply = match result {
        Ok(_) => CommandMessage::Success {  },
        Err(error) => CommandMessage::Failure { message: error.message() },
    };
    Served { reply, next }
}

/// The answer to a request that could not be read as a message: a
/// `Failure` with the reason, after which the serving goes on.
pub fn refuse(reason: String) -> (served: Served)
    ensures
        served.reply == (CommandMessage::Failure { message: reason }),
        served.next == ServeNext::Continue,
{
    Served { reply: CommandMessage::Failure { message: reason }, next: ServeNext::Continue }
}

/// Serves one request: hands it to the dispatcher where it is a command,
/// and says what is answered and what the serving loop does next. `Stop`
/// and `Success` are answered with `Success` and leave the dispatcher as
/// it is.
pub fn serve_message<P: Protocol>(protocol: &mut P, request: &CommandMessage) -> (served: Served)
    ensures
        served.next == next_after(*request),
        !is_dispatched(*request) ==> served.reply is Success && *final(protocol) == *old(protocol),
        is_dispatched(*request) ==> exists|result: Result<()>|
            {
                &&& #[trigger] final(protocol).handled(old(protocol), *request, result)
                &&& is_reply(result, served.reply)
            },
{
    match request {
        CommandMessage::Stop {  } => conclude(request, Ok(())),
        CommandMessage::Success {  } => conclude(request, Ok(())),
        _ => {
            let result = protocol.handle_message(request);
            conclude(request, result)
        },
    }
}

} // verus!
