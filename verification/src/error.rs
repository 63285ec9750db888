//! What can go wrong between a client's command and the reader's answer.

use crate::obid::protocol::{frame_error_text, FrameError};
use crate::obid::status::{status_name, Status};
use crate::protocol::haptic::v0::hexadecimal::{hex_failure_text, HexFailure};
use crate::text::{decimal, decimal_text};
use vstd::prelude::*;

verus! {

/// The result of the library's fallible operations.
pub type Result<T> = std::result::Result<T, InternalError>;

/// An error of the controller.
#[derive(Debug)]
pub enum InternalError {
    /// An error that is known by its text alone, such as a failure of the
    /// transport below the reader connection.
    Generic(String),
    /// The reader's bytes were no frame.
    Frame(FrameError),
    /// A payload was given as text that is no hexadecimal.
    HexError(HexFailure),
    /// The reader reported that its RF hardware is out of order.
    RfWarning,
    /// No transponder answered, as often as the request was repeated.
    NoDevice,
    /// The power level asked for is neither low power nor 2 to 12 watts.
    PowerLevelOutOfRange(u8),
    /// The reader refused the power level as out of range.
    PowerLevelRejected,
    /// The reader answered a system reset with a status other than `Ok`.
    SystemResetFailed(Status),
    /// The reader answered a command with a status other than `Ok`.
    CommandFailed(Status),
    /// The reader's inventory does not have the length that its count of
    /// transponders asks for.
    InventoryFormat,
    /// The inventory for a new fabric holds no transponder.
    EmptyInventory,
    /// A command names a fabric that is not registered.
    UnknownFabric(String),
    /// A fabric that is not registered was to be removed.
    NoFabricToRemove,
    /// A serial number does not have eight bytes.
    UidLength(usize),
    /// A fabric has the given number of transponders, which is neither one
    /// nor two, and so has no identifier.
    NoIdentifier(usize),
    /// A payload of the given length does not fit into a frame.
    PayloadTooLong(usize),
    /// A socket of a kind that the bus layer does not know was asked for.
    UnsupportedSocket(String),
    /// The server answered a command with a failure, whose text this is.
    ServerFailure(String),
}

/// The text of an error, as a client is told it.
pub open spec fn error_text(error: InternalError) -> Seq<char> {
    match error {
        InternalError::Generic(text) => text@,
        InternalError::Frame(error) => frame_error_text(error),
        InternalError::HexError(failure) => hex_failure_text(failure),
        InternalError::RfWarning =>
            "Generic Antenna Error: RF hardware monitor error status code 0x84"@,
        InternalError::NoDevice => "Failed to communicate with device in antenna"@,
        InternalError::PowerLevelOutOfRange(level) => "Value for power level ("@ + decimal_text(
            level as nat,
        ) + ") is outside acceptable range Low Power (0) or [2,12]."@,
        InternalError::PowerLevelRejected =>
            "A reasonableness check failed while writing the RF power parameter to the reader"@,
        InternalError::SystemResetFailed(status) => "System reset failed with status code: "@
            + status_name(status) + "."@,
        InternalError::CommandFailed(status) => "Command failed with status code: "@
            + status_name(status) + "."@,
        InternalError::InventoryFormat =>
            "Unexpected data format in response to inventory request"@,
        InternalError::EmptyInventory => "No transponder found for the fabric"@,
        InternalError::UnknownFabric(name) => "No existing fabric to write actuator command: "@
            + name@,
        InternalError::NoFabricToRemove =>
            "No existing fabric to remove for RemoveFabric command"@,
        InternalError::UidLength(found) =>
            "Expected UID, which is a serial number of 8 bytes, but found "@ + decimal_text(
                found as nat,
            ) + " bytes"@,
        InternalError::NoIdentifier(count) => "Cannot produce identifier with "@ + decimal_text(
            count as nat,
        ) + " transponders"@,
        InternalError::PayloadTooLong(length) => "Cannot frame a payload of "@ + decimal_text(
            length as nat,
        ) + " bytes"@,
        InternalError::UnsupportedSocket(kind) => "Unsupported socket type: "@ + kind@,
        InternalError::ServerFailure(text) => "Unexpected response from server: \""@ + text@
            + "\""@,
    }
}

impl InternalError {
    /// The text of the error, as a client is told it.
    pub fn message(&self) -> (text: String)
        ensures
            text@ == error_text(*self),
    {
        match self {
            InternalError::Generic(text) => text.clone(),
            InternalError::Frame(error) => error.message(),
            InternalError::HexError(failure) => failure.message(),
            InternalError::RfWarning => String::from_str(
                "Generic Antenna Error: RF hardware monitor error status code 0x84",
            ),
            InternalError::NoDevice => String::from_str(
                "Failed to communicate with device in antenna",
            ),
            InternalError::PowerLevelOutOfRange(level) => {
                String::from_str("Value for power level (").concat(
                    decimal(*level as u64).as_str(),
                ).concat(") is outside acceptable range Low Power (0) or [2,12].")
            },
            InternalError::PowerLevelRejected => String::from_str(
                "A reasonableness check failed while writing the RF power parameter to the reader",
            ),
            InternalError::SystemResetFailed(status) => {
                String::from_str("System reset failed with status code: ").concat(
                    status.name(),
                ).concat(".")
            },
            InternalError::CommandFailed(status) => {
                String::from_str("Command failed with status code: ").concat(
                    status.name(),
                ).concat(".")
            },
            InternalError::InventoryFormat => String::from_str(
                "Unexpected data format in response to inventory request",
            ),
            InternalError::EmptyInventory => String::from_str(
                "No transponder found for the fabric",
            ),
            InternalError::UnknownFabric(name) => {
                String::from_str("No existing fabric to write actuator command: ").concat(
                    name.as_str(),
                )
            },
            InternalError::NoFabricToRemove => String::from_str(
                "No existing fabric to remove for RemoveFabric command",
            ),
            InternalError::UidLength(found) => {
                String::from_str(
                    "Expected UID, which is a serial number of 8 bytes, but found ",
                ).concat(decimal(*found as u64).as_str()).concat(" bytes")
            },
            InternalError::NoIdentifier(count) => {
                String::from_str("Cannot produce identifier with ").concat(
                    decimal(*count as u64).as_str(),
                ).concat(" transponders")
            },
            InternalError::PayloadTooLong(length) => {
                String::from_str("Cannot frame a payload of ").concat(
                    decimal(*length as u64).as_str(),
                ).concat(" bytes")
            },
            InternalError::UnsupportedSocket(kind) => {
                String::from_str("Unsupported socket type: ").concat(kind.as_str())
            },
            InternalError::ServerFailure(text) => {
                String::from_str("Unexpected response from server: \"").concat(
                    text.as_str(),
                ).concat("\"")
            },
        }
    }
}

} // verus!
