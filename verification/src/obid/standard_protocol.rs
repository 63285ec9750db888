//! The standard protocol of the reader: frames with an 8-bit length. The
//! reader answers in it where it is asked in it and the answer fits. The
//! host never asks in it; the frames are described here for readers of
//! captured traffic.

use vstd::prelude::*;

verus! {

/// A request of the host in the standard protocol.
#[derive(Debug)]
pub struct HostToReader {
    /// The length of the whole frame.
    pub length: u8,
    /// The bus address of the reader.
    pub com_adr: u8,
    /// The command that the reader is to carry out.
    pub control_byte: u8,
    /// The payload of the command.
    pub data: Vec<u8>,
    /// The checksum of the frame.
    pub crc16: u16,
}

/// A response of the reader in the standard protocol.
#[derive(Debug)]
pub struct ReaderToHost {
    /// The length of the whole frame.
    pub length: u8,
    /// The bus address of the reader.
    pub com_adr: u8,
    /// The command that the reader has carried out.
    pub control_byte: u8,
    /// The raw status of the command.
    pub status: u8,
    /// The payload of the response.
    pub data: Vec<u8>,
    /// The checksum of the frame.
    pub crc16: u16,
}

} // verus!
