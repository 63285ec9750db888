//! Version 0 of the haptic protocol: the blocks of an actuator command,
//! the message that carries them to a transponder, the state that is kept
//! for each fabric, and the dispatcher.

pub mod blocks;
pub mod dispatcher;
pub mod fabric;
pub mod hexadecimal;
pub mod message;
pub mod payload;
pub mod registry;
pub mod state;

pub use blocks::{
    ActuatorModeBlock, ActuatorModeBlocks, ActuatorsCommand, CustomCommand, OpModeBlock,
    TimerModeBlock,
};
pub use dispatcher::HapticV0Protocol;
pub use fabric::{ObidTransponder, V0Fabric};
pub use message::HapticV0Message;
pub use state::V0FabricState;
