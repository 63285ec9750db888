use protocol_host_lib::obid::status::Status;

#[test]
fn status_code_valid_string() {
    let status: Status = Status::from(0x00);
    assert_eq!("Ok", status.name());
    assert_eq!("Ok", Status::Okay.name());
}

#[test]
fn status_code_invalid_string() {
    let status: Status = Status::from(0xFF);
    assert_eq!("Invalid", format!("{:?}", status));
    assert_eq!("Invalid", status.name());
}

#[test]
fn status_table_maps_each_code_to_its_kind() {
    let table: Vec<(u8, Status)> = vec![
        (0x00, Status::Okay),
        (0x0F, Status::Busy),
        (0xF1, Status::HardwareWarning),
        (0xF2, Status::InitializationWarning),
        (0x01, Status::NoTransponder),
        (0x02, Status::DataFalse),
        (0x03, Status::WriteError),
        (0x04, Status::AddressError),
        (0x05, Status::WrongTransponderType),
        (0x10, Status::EepromFailure),
        (0x11, Status::ParameterRangeError),
        (0x13, Status::LoginRequest),
        (0x14, Status::LoginError),
        (0x15, Status::ReadProtect),
        (0x16, Status::WriteProtect),
        (0x17, Status::FirmwareActivationRequired),
        (0x18, Status::WrongFirmware),
        (0x80, Status::UnknownCommand),
        (0x81, Status::LengthError),
        (0x82, Status::CommandNotAvailable),
        (0x83, Status::RFCommError),
        (0x84, Status::RFWarning),
        (0x92, Status::NoValidData),
        (0x93, Status::DataBufferOverflow),
        (0x94, Status::MoreData),
        (0x95, Status::TagError),
    ];
    assert_eq!(26, table.len());
    for (code, status) in table.iter() {
        assert_eq!(*status, Status::from(*code));
        assert_eq!(*code, status.code());
    }
    for code in 0u8..=255 {
        let listed = table.iter().any(|(c, _)| *c == code);
        if !listed {
            assert_eq!(Status::Invalid, Status::from(code));
        }
    }
    assert_eq!(0xFF, Status::Invalid.code());
}

#[test]
fn status_names_are_those_of_the_kinds() {
    assert_eq!("NoTransponder", Status::from(0x01).name());
    assert_eq!("RFWarning", Status::from(0x84).name());
    assert_eq!("RFCommError", Status::from(0x83).name());
    assert_eq!("ParameterRangeError", Status::from(0x11).name());
    assert_eq!("TagError", Status::from(0x95).name());
}

#[test]
fn only_rf_warning_is_fatal_and_only_no_transponder_is_retried() {
    for code in 0u8..=255 {
        let status = Status::from(code);
        assert_eq!(code == 0x84, status.is_fatal());
        assert_eq!(code == 0x01, status.is_retryable(true));
        assert!(!status.is_retryable(false));
    }
}
