use protocol_host_lib::obid::advanced_protocol::{HostToReader, ReaderToHost};
use protocol_host_lib::obid::crc::calc_crc16;
use protocol_host_lib::obid::protocol::{
    FrameError, FrameKind, ObidSerialReceivable, ObidSerialSendable,
};

#[test]
fn crc16_works() {
    let mut inventory_request =
        HostToReader::new(0, 0xFF, 0xB0, vec![0x01, 0x00].as_slice(), 0, false);
    let inventory_request = inventory_request.serialize();
    assert_eq!(
        0x4318,
        calc_crc16(&inventory_request[..inventory_request.len() - 2])
    );
}

#[test]
fn host_to_reader_no_data() {
    let data = vec![];
    let mut expected_msg = HostToReader::new(0, 0, 0, &data[..], 0, false);
    let marshalled_data = expected_msg.serialize();

    let msg = HostToReader::_deserialize(marshalled_data.as_slice()).unwrap();
    assert!(expected_msg == msg);
}

#[test]
fn host_to_reader_some_data() {
    let data = vec![1; 10];
    let mut expected_msg = HostToReader::new(0, 0, 0, &data[..], 0, false);
    let marshalled_data = expected_msg.serialize();

    let msg = HostToReader::_deserialize(marshalled_data.as_slice()).unwrap();
    assert!(expected_msg == msg);
}

#[test]
fn reader_to_host_no_data() {
    let data = vec![];
    let mut expected_msg = ReaderToHost::new(8, 0, 0, 0, &data[..], 0);
    let marshalled_data = expected_msg._serialize();

    let msg = ReaderToHost::deserialize(marshalled_data.as_slice()).unwrap();
    assert!(expected_msg == msg);
}

#[test]
fn reader_to_host_some_data() {
    let data = vec![1; 100];
    let mut expected_msg = ReaderToHost::new(8, 0, 0, 0, &data[..], 0);
    let marshalled_data = expected_msg._serialize();

    let msg = ReaderToHost::deserialize(marshalled_data.as_slice()).unwrap();
    assert!(expected_msg == msg);
}

#[test]
fn reader_to_host_alotta_data() {
    let data = vec![1; 10000];
    let mut expected_msg = ReaderToHost::new(8, 0, 0, 0, &data[..], 0);
    let marshalled_data = expected_msg._serialize();

    let msg = ReaderToHost::deserialize(marshalled_data.as_slice()).unwrap();
    assert!(expected_msg == msg)
}

#[test]
fn reader_to_host_bad_crc() {
    let data = vec![1; 100];
    let mut expected_msg = ReaderToHost::new(8, 0, 0, 0, &data[..], 0);
    let mut marshalled_data = expected_msg._serialize();

    let last = *marshalled_data.last().unwrap();
    *marshalled_data.last_mut().unwrap() = last + 1;
    let msg = ReaderToHost::deserialize(marshalled_data.as_slice());
    assert!(msg.is_err());
}

#[test]
fn reader_to_host_too_short() {
    let data = vec![1; 100];
    let mut expected_msg = ReaderToHost::new(8, 0, 0, 0, &data[..], 0);
    let marshalled_data = expected_msg._serialize();

    let msg = ReaderToHost::deserialize(&marshalled_data[0..7]);
    assert!(msg.is_err());
}

#[test]
fn inventory_request_frame_is_laid_out_byte_for_byte() {
    let mut request = HostToReader::new(0, 0xFF, 0xB0, &[0x01, 0x00], 0, true);
    let frame = request.serialize();
    assert_eq!(vec![0x02, 0x00, 0x09, 0xFF, 0xB0, 0x01, 0x00, 0x18, 0x43], frame);
    assert_eq!(9, request.alength);
    assert_eq!(0x4318, request.crc16);
    assert!(request.device_required);
}

#[test]
fn response_frame_is_laid_out_byte_for_byte() {
    let mut response = ReaderToHost::new(0, 0x00, 0xB0, 0x01, &[], 0);
    let frame = response._serialize();
    assert_eq!(8, frame.len());
    assert_eq!(&[0x02, 0x00, 0x08, 0x00, 0xB0, 0x01], &frame[..6]);
    let crc = calc_crc16(&frame[..6]);
    assert_eq!((crc & 0xff) as u8, frame[6]);
    assert_eq!((crc >> 8) as u8, frame[7]);
    assert_eq!(8, response.alength);
    assert_eq!(crc, response.crc16);
}

#[test]
fn length_field_is_big_endian() {
    let data = vec![0xAB; 0x0123 - 7];
    let mut request = HostToReader::new(0, 1, 2, &data, 0, false);
    let frame = request.serialize();
    assert_eq!(0x0123, frame.len());
    assert_eq!(0x01, frame[1]);
    assert_eq!(0x23, frame[2]);
    let parsed = HostToReader::_deserialize(&frame).unwrap();
    assert_eq!(0x0123, parsed.alength);
    assert_eq!(data, parsed.data);
    assert!(!parsed.device_required);
}

#[test]
fn crc16_of_nothing_is_the_initial_value() {
    assert_eq!(0xFFFF, calc_crc16(&[]));
}

#[test]
fn crc16_of_known_messages() {
    assert_eq!(0x6F91, calc_crc16(b"123456789"));
    assert_eq!(0x0F87, calc_crc16(&[0x00]));
}

#[test]
fn short_frames_are_refused() {
    for len in 0..8 {
        let bytes = vec![0u8; len];
        assert_eq!(
            Some(FrameError::FrameTooShort(FrameKind::ReaderToHost)),
            ReaderToHost::deserialize(&bytes).err()
        );
    }
    for len in 0..7 {
        let bytes = vec![0u8; len];
        assert_eq!(
            Some(FrameError::FrameTooShort(FrameKind::HostToReader)),
            HostToReader::_deserialize(&bytes).err()
        );
    }
}

#[test]
fn every_bit_flip_is_detected() {
    let mut response = ReaderToHost::new(0, 0xFF, 0xB0, 0x00, &[1, 2, 3, 4, 5], 0);
    let frame = response._serialize();
    assert!(ReaderToHost::deserialize(&frame).is_ok());
    for at in 0..frame.len() {
        for bit in 0..8 {
            let mut corrupted = frame.clone();
            corrupted[at] ^= 1 << bit;
            assert_eq!(
                Some(FrameError::BadCrc(FrameKind::ReaderToHost)),
                ReaderToHost::deserialize(&corrupted).err()
            );
        }
    }
    let mut request = HostToReader::new(0, 0xFF, 0xB0, &[1, 2, 3], 0, false);
    let frame = request.serialize();
    for at in 0..frame.len() {
        for bit in 0..8 {
            let mut corrupted = frame.clone();
            corrupted[at] ^= 1 << bit;
            assert_eq!(
                Some(FrameError::BadCrc(FrameKind::HostToReader)),
                HostToReader::_deserialize(&corrupted).err()
            );
        }
    }
}

#[test]
fn response_fields_are_read_from_their_places() {
    let mut response = ReaderToHost::new(0, 0x12, 0x34, 0x56, &[0x78, 0x9A], 0);
    let frame = response._serialize();
    let parsed = ReaderToHost::deserialize(&frame).unwrap();
    assert_eq!(10, parsed.alength);
    assert_eq!(0x12, parsed.com_adr);
    assert_eq!(0x34, parsed.control_byte);
    assert_eq!(0x56, parsed.status);
    assert_eq!(vec![0x78, 0x9A], parsed.data);
    assert_eq!(response.crc16, parsed.crc16);
}

#[test]
fn requests_differ_by_frame_and_not_by_repeat_flag() {
    let a = HostToReader::new(0, 1, 2, &[3], 0, true);
    let b = HostToReader::new(0, 1, 2, &[3], 0, false);
    let c = HostToReader::new(0, 1, 2, &[4], 0, true);
    assert!(a == b);
    assert!(a != c);
}

#[test]
fn frame_errors_have_their_texts() {
    assert_eq!(
        "Invalid (short) length for ReaderToHost message",
        FrameError::FrameTooShort(FrameKind::ReaderToHost).message()
    );
    assert_eq!(
        "Invalid CRC16 for ReaderToHost message",
        FrameError::BadCrc(FrameKind::ReaderToHost).message()
    );
    assert_eq!(
        "Invalid (short) length for HostToReader message",
        FrameError::FrameTooShort(FrameKind::HostToReader).message()
    );
    assert_eq!(
        "Invalid CRC16 for HostToReader message",
        FrameError::BadCrc(FrameKind::HostToReader).message()
    );
}
