use protocol_host_lib::error::InternalError;
use protocol_host_lib::obid::status::Status;
use protocol_host_lib::protocol::haptic::v0::hexadecimal::HexFailure;
use protocol_host_lib::text::{decimal, signed_decimal};

#[test]
fn decimal_writes_numbers_as_std_does() {
    for n in [0u64, 1, 9, 10, 11, 99, 100, 255, 1000, 65529, 4294967296, u64::MAX] {
        assert_eq!(n.to_string(), decimal(n));
    }
    for n in [0i32, -1, 1, -10, 32767, -32768, i32::MAX, i32::MIN] {
        assert_eq!(n.to_string(), signed_decimal(n));
    }
}

#[test]
fn errors_have_their_texts() {
    assert_eq!("free text", InternalError::Generic(String::from("free text")).message());
    assert_eq!(
        "Value for power level (13) is outside acceptable range Low Power (0) or [2,12].",
        InternalError::PowerLevelOutOfRange(13).message()
    );
    assert_eq!(
        "System reset failed with status code: NoTransponder.",
        InternalError::SystemResetFailed(Status::NoTransponder).message()
    );
    assert_eq!(
        "Command failed with status code: Invalid.",
        InternalError::CommandFailed(Status::Invalid).message()
    );
    assert_eq!(
        "No transponder found for the fabric",
        InternalError::EmptyInventory.message()
    );
    assert_eq!(
        "Cannot produce identifier with 0 transponders",
        InternalError::NoIdentifier(0).message()
    );
    assert_eq!(
        "Invalid character 'g' at position 3",
        InternalError::HexError(HexFailure::InvalidHexCharacter { c: 'g', index: 3 }).message()
    );
}

#[test]
fn hex_failures_are_worded_as_the_hex_crate_words_them() {
    assert_eq!("Odd number of digits", HexFailure::OddLength.message());
    assert_eq!(hex::FromHexError::OddLength.to_string(), HexFailure::OddLength.message());
    assert_eq!("Invalid string length", HexFailure::InvalidStringLength.message());
    assert_eq!(
        hex::FromHexError::InvalidStringLength.to_string(),
        HexFailure::InvalidStringLength.message()
    );
    for (c, index) in [('g', 0usize), (' ', 4), ('\n', 5), ('\'', 12345), ('\u{c3}', 7)] {
        assert_eq!(
            hex::FromHexError::InvalidHexCharacter { c, index }.to_string(),
            HexFailure::InvalidHexCharacter { c, index }.message()
        );
    }
    assert_eq!(
        "Invalid character '\\n' at position 5",
        HexFailure::InvalidHexCharacter { c: '\n', index: 5 }.message()
    );
}
