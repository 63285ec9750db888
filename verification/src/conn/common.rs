//! What every connection to a reader has in common.

use crate::error::Result;
use crate::obid::advanced_protocol::{HostToReader, ReaderToHost};
use crate::obid::protocol::ObidSerialSendable;
use vstd::prelude::*;

verus! {

/// How often a request is sent, by default, while no transponder answers.
pub const DEFAULT_MAX_ATTEMPTS: i32 = 5;

/// What a connection knows of the reader and its antenna.
#[derive(Debug)]
pub struct AntennaState {
    /// The antenna that the reader drives.
    pub antenna_id: Option<String>,
    /// The pulse mode of the antenna.
    pub pulse_mode: Option<i32>,
    /// The modulation of the high-frequency signal.
    pub hf_mod: Option<i32>,
    /// The modulation of the low-frequency signal.
    pub lf_mod: Option<i32>,
    /// The number of actuator blocks in the field.
    pub act_block_count: Option<i32>,
    /// The command that the antenna last carried.
    pub command: Option<String>,
    /// The class of the operation that the antenna last carried.
    pub cmd_op: Option<String>,
    /// How often a request is sent while no transponder answers.
    pub max_attempts: i32,
}

impl AntennaState {
    /// The state of a connection that has just been opened: nothing is
    /// known of the antenna, and a request is sent up to
    /// `DEFAULT_MAX_ATTEMPTS` times.
    pub fn new() -> (state: AntennaState)
        ensures
            state.antenna_id is None,
            state.pulse_mode is None,
            state.hf_mod is None,
            state.lf_mod is None,
            state.act_block_count is None,
            state.command is None,
            state.cmd_op is None,
            state.max_attempts == DEFAULT_MAX_ATTEMPTS,
    {
        AntennaState {
            antenna_id: None,
            pulse_mode: None,
            hf_mod: None,
            lf_mod: None,
            act_block_count: None,
            command: None,
            cmd_op: None,
            max_attempts: DEFAULT_MAX_ATTEMPTS,
        }
    }
}

/// A connection to a reader: it takes a request to the reader and brings
/// the reader's response back. What comes back is the reader's to decide;
/// a caller is ready for every response and every error, and learns of
/// the response only what the connection itself promises of it.
pub trait Connection {
    /// What this connection promises of the response that it brings back
    /// for `request`. A connection to a reader promises nothing; a
    /// connection without a reader says here what it answers.
    open spec fn answered(&self, request: HostToReader, response: Result<ReaderToHost>) -> bool {
        true
    }

    /// Sends `serial_message` and returns the response to it.
    fn send_command(&mut self, serial_message: HostToReader) -> (response: Result<ReaderToHost>)
        requires
            serial_message.fits(),
        ensures
            old(self).answered(serial_message, response),
    ;
}

/// Where connections come from.
pub trait Context {
    /// The connections that this context opens.
    type Link: Connection;

    /// Opens a connection.
    fn connection(&self) -> (link: Result<Self::Link>);
}

} // verus!
