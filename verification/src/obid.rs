//! The reader's vocabulary: its status codes, its checksum and its framed
//! wire protocol.

pub mod advanced_protocol;
pub mod crc;
pub mod endian;
pub mod protocol;
pub mod standard_protocol;
pub mod status;

pub use crc::calc_crc16;
pub use status::Status;
