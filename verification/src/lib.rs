//! Host-side controller core for Feig/OBID LR-series readers that drive
//! wirelessly addressed haptic actuator blocks.
//!
//! The crate holds the reader's wire-frame codec, the status model, the
//! retry policy of the reader connection, the haptic payload encoder, the
//! per-fabric command cache and the command dispatcher.

pub mod conn;
pub mod error;
pub mod network;
pub mod obid;
pub mod text;
pub mod protocol;
