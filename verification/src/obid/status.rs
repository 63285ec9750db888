//! The status byte of a reader response and the kinds it stands for.

use vstd::prelude::*;
use vstd::std_specs::convert::FromSpecImpl;

verus! {

/// What a reader says about the command it has just handled.
#[derive(Debug, Clone, Copy, PartialEq, Eq, Structural)]
pub enum Status {
    /// A byte that is no status code of the reader.
    Invalid,
    /// Data or parameters were read or stored, or the command was executed.
    Okay,
    /// The reader is busy; the host should repeat the command later.
    Busy,
    /// The RF controller or its link is not working properly.
    HardwareWarning,
    /// The controller runs partly or wholly on default values.
    InitializationWarning,
    /// No transponder is within the detection range of the reader.
    NoTransponder,
    /// The received data failed its checksum.
    DataFalse,
    /// The written data failed the plausibility check.
    WriteError,
    /// The address is outside of the transponder's address space.
    AddressError,
    /// The command is not applicable to this transponder.
    WrongTransponderType,
    /// The EEPROM of the reader cannot be written.
    EepromFailure,
    /// A parameter was outside of its value range.
    ParameterRangeError,
    /// Configuration access without a login.
    LoginRequest,
    /// Login attempt with a wrong password.
    LoginError,
    /// The configuration block cannot be read.
    ReadProtect,
    /// The configuration block cannot be written.
    WriteProtect,
    /// The firmware has to be activated first.
    FirmwareActivationRequired,
    /// The firmware versions of the reader's parts conflict.
    WrongFirmware,
    /// The reader does not support the selected function.
    UnknownCommand,
    /// The protocol frame is too short or too long.
    LengthError,
    /// The command is not available in the reader's current mode.
    CommandNotAvailable,
    /// The communication between transponder and reader failed.
    RFCommError,
    /// The antenna or the RF power is not as configured.
    RFWarning,
    /// There is no valid data in the buffer.
    NoValidData,
    /// A data buffer overflowed.
    DataBufferOverflow,
    /// More data sets were requested than one response can carry.
    MoreData,
    /// The transponder sent an error code of its own.
    TagError,
}

/// The kind that a raw status byte stands for.
pub open spec fn status_of(code: u8) -> Status {
    if code == 0x00 {
        Status::Okay
    } else if code == 0x0F {
        Status::Busy
    } else if code == 0xF1 {
        Status::HardwareWarning
    } else if code == 0xF2 {
        Status::InitializationWarning
    } else if code == 0x01 {
        Status::NoTransponder
    } else if code == 0x02 {
        Status::DataFalse
    } else if code == 0x03 {
        Status::WriteError
    } else if code == 0x04 {
        Status::AddressError
    } else if code == 0x05 {
        Status::WrongTransponderType
    } else if code == 0x10 {
        Status::EepromFailure
    } else if code == 0x11 {
        Status::ParameterRangeError
    } else if code == 0x13 {
        Status::LoginRequest
    } else if code == 0x14 {
        Status::LoginError
    } else if code == 0x15 {
        Status::ReadProtect
    } else if code == 0x16 {
        Status::WriteProtect
    } else if code == 0x17 {
        Status::FirmwareActivationRequired
    } else if code == 0x18 {
        Status::WrongFirmware
    } else if code == 0x80 {
        Status::UnknownCommand
    } else if code == 0x81 {
        Status::LengthError
    } else if code == 0x82 {
        Status::CommandNotAvailable
    } else if code == 0x83 {
        Status::RFCommError
    } else if code == 0x84 {
        Status::RFWarning
    } else if code == 0x92 {
        Status::NoValidData
    } else if code == 0x93 {
        Status::DataBufferOverflow
    } else if code == 0x94 {
        Status::MoreData
    } else if code == 0x95 {
        Status::TagError
    } else {
        Status::Invalid
    }
}

/// The byte that the reader sends for a kind; `0xFF` stands for `Invalid`.
pub open spec fn code_of(status: Status) -> u8 {
    match status {
        Status::Invalid => 0xFF,
        Status::Okay => 0x00,
        Status::Busy => 0x0F,
        Status::HardwareWarning => 0xF1,
        Status::InitializationWarning => 0xF2,
        Status::NoTransponder => 0x01,
        Status::DataFalse => 0x02,
        Status::WriteError => 0x03,
        Status::AddressError => 0x04,
        Status::WrongTransponderType => 0x05,
        Status::EepromFailure => 0x10,
        Status::ParameterRangeError => 0x11,
        Status::LoginRequest => 0x13,
        Status::LoginError => 0x14,
        Status::ReadProtect => 0x15,
        Status::WriteProtect => 0x16,
        Status::FirmwareActivationRequired => 0x17,
        Status::WrongFirmware => 0x18,
        Status::UnknownCommand => 0x80,
        Status::LengthError => 0x81,
        Status::CommandNotAvailable => 0x82,
        Status::RFCommError => 0x83,
        Status::RFWarning => 0x84,
        Status::NoValidData => 0x92,
        Status::DataBufferOverflow => 0x93,
        Status::MoreData => 0x94,
        Status::TagError => 0x95,
    }
}

/// Whether a status ends the request at once: the reader answers every
/// command with `RFWarning` while its RF hardware is out of order.
pub open spec fn status_is_fatal(status: Status) -> bool {
    status == Status::RFWarning
}

/// Whether a request is repeated after a status: after `NoTransponder`,
/// where the request needs a transponder in the field.
pub open spec fn status_is_retryable(status: Status, device_required: bool) -> bool {
    device_required && status == Status::NoTransponder
}

impl From<u8> for Status {
    /// Maps a raw status byte to its kind; a byte outside of the reader's
    /// table becomes `Invalid`.
    fn from(code: u8) -> (status: Status)
        ensures
            status == status_of(code),
    {
        match code {
            0x00 => Status::Okay,
            0x0F => Status::Busy,
            0xF1 => Status::HardwareWarning,
            0xF2 => Status::InitializationWarning,
            0x01 => Status::NoTransponder,
            0x02 => Status::DataFalse,
            0x03 => Status::WriteError,
            0x04 => Status::AddressError,
            0x05 => Status::WrongTransponderType,
            0x10 => Status::EepromFailure,
            0x11 => Status::ParameterRangeError,
            0x13 => Status::LoginRequest,
            0x14 => Status::LoginError,
            0x15 => Status::ReadProtect,
            0x16 => Status::WriteProtect,
            0x17 => Status::FirmwareActivationRequired,
            0x18 => Status::WrongFirmware,
            0x80 => Status::UnknownCommand,
            0x81 => Status::LengthError,
            0x82 => Status::CommandNotAvailable,
            0x83 => Status::RFCommError,
            0x84 => Status::RFWarning,
            0x92 => Status::NoValidData,
            0x93 => Status::DataBufferOverflow,
            0x94 => Status::MoreData,
            0x95 => Status::TagError,
            _ => Status::Invalid,
        }
    }
}

impl FromSpecImpl<u8> for Status {
    open spec fn obeys_from_spec() -> bool {
        true
    }

    open spec fn from_spec(code: u8) -> Status {
        status_of(code)
    }
}

impl Status {
    /// The byte that the reader sends for this kind.
    pub fn code(&self) -> (code: u8)
        ensures
            code == code_of(*self),
    {
        match self {
            Status::Invalid => 0xFF,
            Status::Okay => 0x00,
            Status::Busy => 0x0F,
            Status::HardwareWarning => 0xF1,
            Status::InitializationWarning => 0xF2,
            Status::NoTransponder => 0x01,
            Status::DataFalse => 0x02,
            Status::WriteError => 0x03,
            Status::AddressError => 0x04,
            Status::WrongTransponderType => 0x05,
            Status::EepromFailure => 0x10,
            Status::ParameterRangeError => 0x11,
            Status::LoginRequest => 0x13,
            Status::LoginError => 0x14,
            Status::ReadProtect => 0x15,
            Status::WriteProtect => 0x16,
            Status::FirmwareActivationRequired => 0x17,
            Status::WrongFirmware => 0x18,
            Status::UnknownCommand => 0x80,
            Status::LengthError => 0x81,
            Status::CommandNotAvailable => 0x82,
            Status::RFCommError => 0x83,
            Status::RFWarning => 0x84,
            Status::NoValidData => 0x92,
            Status::DataBufferOverflow => 0x93,
            Status::MoreData => 0x94,
            Status::TagError => 0x95,
        }
    }

    /// Whether the status ends the request at once.
    pub fn is_fatal(&self) -> (fatal: bool)
        ensures
            fatal == status_is_fatal(*self),
    {
        match self {
            Status::RFWarning => true,
            _ => false,
        }
    }

    /// Whether a request is repeated after the status.
    pub fn is_retryable(&self, device_required: bool) -> (retryable: bool)
        ensures
            retryable == status_is_retryable(*self, device_required),
    {
        match self {
            Status::NoTransponder => device_required,
            _ => false,
        }
    }

    /// The name of the kind, as it appears in messages.
    pub fn name(&self) -> (name: &'static str)
        ensures
            name@ == status_name(*self),
    {
        match self {
            Status::Invalid => "Invalid",
            Status::Okay => "Ok",
            Status::Busy => "Busy",
            Status::HardwareWarning => "HardwareWarning",
            Status::InitializationWarning => "InitializationWarning",
            Status::NoTransponder => "NoTransponder",
            Status::DataFalse => "DataFalse",
            Status::WriteError => "WriteError",
            Status::AddressError => "AddressError",
            Status::WrongTransponderType => "WrongTransponderType",
            Status::EepromFailure => "EepromFailure",
            Status::ParameterRangeError => "ParameterRangeError",
            Status::LoginRequest => "LoginRequest",
            Status::LoginError => "LoginError",
            Status::ReadProtect => "ReadProtect",
            Status::WriteProtect => "WriteProtect",
            Status::FirmwareActivationRequired => "FirmwareActivationRequired",
            Status::WrongFirmware => "WrongFirmware",
            Status::UnknownCommand => "UnknownCommand",
            Status::LengthError => "LengthError",
            Status::CommandNotAvailable => "CommandNotAvailable",
            Status::RFCommError => "RFCommError",
            Status::RFWarning => "RFWarning",
            Status::NoValidData => "NoValidData",
            Status::DataBufferOverflow => "DataBufferOverflow",
            Status::MoreData => "MoreData",
            Status::TagError => "TagError",
        }
    }
}

/// The name of a kind as a sequence of characters.
pub open spec fn status_name(status: Status) -> Seq<char> {
    match status {
        Status::Invalid => "Invalid"@,
        Status::Okay => "Ok"@,
        Status::Busy => "Busy"@,
        Status::HardwareWarning => "HardwareWarning"@,
        Status::InitializationWarning => "InitializationWarning"@,
        Status::NoTransponder => "NoTransponder"@,
        Status::DataFalse => "DataFalse"@,
        Status::WriteError => "WriteError"@,
        Status::AddressError => "AddressError"@,
        Status::WrongTransponderType => "WrongTransponderType"@,
        Status::EepromFailure => "EepromFailure"@,
        Status::ParameterRangeError => "ParameterRangeError"@,
        Status::LoginRequest => "LoginRequest"@,
        Status::LoginError => "LoginError"@,
        Status::ReadProtect => "ReadProtect"@,
        Status::WriteProtect => "WriteProtect"@,
        Status::FirmwareActivationRequired => "FirmwareActivationRequired"@,
        Status::WrongFirmware => "WrongFirmware"@,
        Status::UnknownCommand => "UnknownCommand"@,
        Status::LengthError => "LengthError"@,
        Status::CommandNotAvailable => "CommandNotAvailable"@,
        Status::RFCommError => "RFCommError"@,
        Status::RFWarning => "RFWarning"@,
        Status::NoValidData => "NoValidData"@,
        Status::DataBufferOverflow => "DataBufferOverflow"@,
        Status::MoreData => "MoreData"@,
        Status::TagError => "TagError"@,
    }
}

/// Every kind is what its own byte maps to: the table of codes has one
/// byte for each kind, and `0xFF` is among the bytes that map to `Invalid`.
pub proof fn lemma_status_of_code(status: Status)
    ensures
        status_of(code_of(status)) == status,
{
}

/// A byte maps to a kind other than `Invalid` exactly when it is that
/// kind's byte in the table; every other byte maps to `Invalid`.
pub proof fn lemma_code_of_status(code: u8)
    ensures
        status_of(code) != Status::Invalid ==> code_of(status_of(code)) == code,
        status_of(code) == Status::Invalid <==> !is_status_code(code),
{
    if status_of(code) != Status::Invalid {
        assert(code_of(status_of(code)) == code);
    }
    if is_status_code(code) {
        let status = choose|status: Status|
            status != Status::Invalid && #[trigger] code_of(status) == code;
        lemma_status_of_code(status);
    }
}

/// Whether a byte is one of the reader's 26 status codes.
pub open spec fn is_status_code(code: u8) -> bool {
    exists|status: Status| status != Status::Invalid && #[trigger] code_of(status) == code
}

} // verus!
