//! What a client makes of the server's answer.

use crate::error::{InternalError, Result};
use crate::protocol::common::CommandMessage;
use vstd::prelude::*;

verus! {

/// Confirms the answer to a request: a `Failure` is an error with the
/// text of the failure, every other message is a success.
pub fn confirm_response(response: CommandMessage) -> (result: Result<()>)
    ensures
        match response {
            CommandMessage::Failure { message } => result == Err::<(), InternalError>(
                InternalError::ServerFailure(message),
            ),
            _ => result is Ok,
        },
{
    match response {
        CommandMessage::Failure { message } => Err(InternalError::ServerFailure(message)),
        _ => Ok(()),
    }
}

} // verus!
