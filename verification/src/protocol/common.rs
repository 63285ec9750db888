//! What every dispatcher has in common: the messages that clients and
//! server exchange, and what a dispatcher and a fabric are.

use crate::error::{InternalError, Result};
use crate::protocol::haptic::v0::{ActuatorModeBlocks, OpModeBlock, TimerModeBlock};
use vstd::prelude::*;

verus! {

/// A message between a client and the server.
#[derive(Debug)]
pub enum CommandMessage {
    /// The server's answer to a command that failed.
    Failure { message: String },
    /// The server's answer to a command that succeeded.
    Success {  },
    /// Ends the serving.
    Stop {  },
    /// Resets the reader.
    SystemReset {  },
    /// Sets the RF power of the antenna: 0 for low power, else 2 to 12
    /// watts.
    SetRadioFreqPower { power_level: u8 },
    /// Sends a frame with the given control byte and payload.
    CustomCommand { control_byte: u8, data: String, device_required: bool },
    /// Switches the RF field.
    RfFieldState { state: u8 },
    /// Registers the transponders in the field as a fabric.
    AddFabric { fabric_name: String },
    /// Removes a fabric.
    RemoveFabric { fabric_name: String },
    /// Commands the actuators of a fabric.
    ActuatorsCommand {
        fabric_name: String,
        timer_mode_block: Option<TimerModeBlock>,
        actuator_mode_blocks: Option<ActuatorModeBlocks>,
        op_mode_block: Option<OpModeBlock>,
        use_cache: Option<bool>,
    },
}

/// A dispatcher: it carries out the commands of clients.
pub trait Protocol: Sized {
    /// What holds of the dispatcher and of the result once `message` has
    /// been handled by the dispatcher that was `before`.
    spec fn handled(&self, before: &Self, message: CommandMessage, result: Result<()>) -> bool;

    /// Carries out `message`.
    fn handle_message(&mut self, message: &CommandMessage) -> (result: Result<()>)
        ensures
            final(self).handled(old(self), *message, result),
    ;
}

/// A named group of transponders.
pub trait Fabric {
    /// The name of the fabric.
    spec fn named(&self) -> Seq<char>;

    /// The identifier of the fabric, where it has one.
    spec fn identified(&self) -> Option<Seq<u8>>;

    /// The number of transponders of the fabric.
    spec fn members(&self) -> nat;

    /// The name of the fabric.
    fn name(&self) -> (name: String)
        ensures
            name@ == self.named(),
    ;

    /// The identifier of the fabric. A fabric without one fails with the
    /// number of its transponders.
    fn identifier(&self) -> (identifier: Result<Vec<u8>>)
        ensures
            match self.identified() {
                Some(bytes) => identifier is Ok && identifier->Ok_0@ == bytes,
                None => identifier == Err::<Vec<u8>, InternalError>(
                    InternalError::NoIdentifier(self.members() as usize),
                ),
            },
    ;
}

} // verus!
