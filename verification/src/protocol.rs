//! The dispatchers that turn a client's commands into reader frames.

pub mod common;
pub mod haptic;
pub mod mock;
