//! The blocks that an actuator command is made of.

use vstd::prelude::*;

verus! {

/// A command for the reader that is given by its control byte and its
/// payload in hexadecimal.
#[derive(Debug)]
pub struct CustomCommand {
    /// The control byte of the frame.
    pub control_byte: u8,
    /// The payload, two hexadecimal digits for each byte.
    pub data: String,
    /// Whether the request is repeated while no transponder answers.
    pub device_required: bool,
}

/// How the transponder is to read the rest of a message.
#[derive(Debug, Clone, Copy, PartialEq, Eq, Structural)]
pub struct OpModeBlock {
    /// The number of groups of eight actuators, 0 to 31.
    pub act_cnt8: u8,
    /// The class of the operation: 0 sets the timers, 1 is a preset, 2
    /// sets the actuators, 3 sets the timers and the actuators.
    pub cmd_op: u8,
    /// The code of the command.
    pub command: u8,
}

/// The enables of 32 actuators.
#[derive(Debug, Clone, Copy, PartialEq, Eq, Structural)]
pub struct ActuatorModeBlock {
    /// The first of the four bytes.
    pub b0: u8,
    /// The second of the four bytes.
    pub b1: u8,
    /// The third of the four bytes.
    pub b2: u8,
    /// The fourth of the four bytes.
    pub b3: u8,
}

/// The enables of the actuators 0 to 255, in eight blocks. A block that
/// is absent leaves its actuators as they are.
#[derive(Debug, Clone, Copy, PartialEq, Eq, Structural)]
pub struct ActuatorModeBlocks {
    /// The actuators 0 to 31.
    pub block0_31: Option<ActuatorModeBlock>,
    /// The actuators 32 to 63.
    pub block32_63: Option<ActuatorModeBlock>,
    /// The actuators 64 to 95.
    pub block64_95: Option<ActuatorModeBlock>,
    /// The actuators 96 to 127.
    pub block96_127: Option<ActuatorModeBlock>,
    /// The actuators 128 to 159.
    pub block128_159: Option<ActuatorModeBlock>,
    /// The actuators 160 to 191.
    pub block160_191: Option<ActuatorModeBlock>,
    /// The actuators 192 to 223.
    pub block192_223: Option<ActuatorModeBlock>,
    /// The actuators 224 to 255.
    pub block224_255: Option<ActuatorModeBlock>,
}

/// The six timers of a transponder, in milliseconds. Of each value the
/// low twelve bits are sent.
#[derive(Debug, Clone, Copy, PartialEq, Eq, Structural)]
pub struct TimerModeBlock {
    /// The length of a single pulse.
    pub t_pulse: u16,
    /// The pause after a single pulse.
    pub t_pause: u16,
    /// The on-time of the high-frequency signal.
    pub ton_high: u16,
    /// The period of the high-frequency signal.
    pub tperiod_high: u16,
    /// The on-time of the low-frequency signal.
    pub ton_low: u16,
    /// The period of the low-frequency signal.
    pub tperiod_low: u16,
}

/// What a client asks of the actuators of one fabric.
#[derive(Debug)]
pub struct ActuatorsCommand {
    /// The fabric that the command is for.
    pub fabric_name: String,
    /// How the transponder is to read the message.
    pub op_mode_block: Option<OpModeBlock>,
    /// The enables of the actuators.
    pub actuator_mode_blocks: Option<ActuatorModeBlocks>,
    /// The timers.
    pub timer_mode_block: Option<TimerModeBlock>,
    /// Whether the command may be cut down to what differs from the
    /// fabric's state; absent means that it may.
    pub use_cache: Option<bool>,
}

impl Default for OpModeBlock {
    /// The block with every field zero.
    fn default() -> (block: OpModeBlock)
        ensures
            block == (OpModeBlock { act_cnt8: 0, cmd_op: 0, command: 0 }),
    {
        OpModeBlock { act_cnt8: 0, cmd_op: 0, command: 0 }
    }
}

impl Default for ActuatorModeBlock {
    /// The block with every actuator off.
    fn default() -> (block: ActuatorModeBlock)
        ensures
            block == (ActuatorModeBlock { b0: 0, b1: 0, b2: 0, b3: 0 }),
    {
        ActuatorModeBlock { b0: 0, b1: 0, b2: 0, b3: 0 }
    }
}

impl Default for TimerModeBlock {
    /// The block with every timer zero.
    fn default() -> (block: TimerModeBlock)
        ensures
            block == (TimerModeBlock {
                t_pulse: 0,
                t_pause: 0,
                ton_high: 0,
                tperiod_high: 0,
                ton_low: 0,
                tperiod_low: 0,
            }),
    {
        TimerModeBlock {
            t_pulse: 0,
            t_pause: 0,
            ton_high: 0,
            tperiod_high: 0,
            ton_low: 0,
            tperiod_low: 0,
        }
    }
}

impl ActuatorModeBlock {
    /// The four bytes of the block, in the order in which they are sent.
    pub open spec fn bytes(self) -> Seq<u8> {
        seq![self.b0, self.b1, self.b2, self.b3]
    }
}

impl ActuatorModeBlocks {
    /// The eight blocks in ascending order of their actuators.
    pub open spec fn slots(self) -> Seq<Option<ActuatorModeBlock>> {
        seq![
            self.block0_31,
            self.block32_63,
            self.block64_95,
            self.block96_127,
            self.block128_159,
            self.block160_191,
            self.block192_223,
            self.block224_255,
        ]
    }

    /// The blocks of which none is present.
    pub open spec fn none() -> ActuatorModeBlocks {
        ActuatorModeBlocks {
            block0_31: None,
            block32_63: None,
            block64_95: None,
            block96_127: None,
            block128_159: None,
            block160_191: None,
            block192_223: None,
            block224_255: None,
        }
    }
}

} // verus!
