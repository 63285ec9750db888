//! The protocol of the haptic actuator blocks.

pub mod v0;
