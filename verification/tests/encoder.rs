use protocol_host_lib::protocol::haptic::v0::payload::actuators_payload;
use protocol_host_lib::protocol::haptic::v0::{
    ActuatorModeBlock, ActuatorModeBlocks, HapticV0Message, OpModeBlock, TimerModeBlock,
};

fn no_blocks() -> ActuatorModeBlocks {
    ActuatorModeBlocks {
        block0_31: None,
        block32_63: None,
        block64_95: None,
        block96_127: None,
        block128_159: None,
        block160_191: None,
        block192_223: None,
        block224_255: None,
    }
}

fn pulse_blocks() -> ActuatorModeBlocks {
    ActuatorModeBlocks {
        block0_31: Some(ActuatorModeBlock { b0: 0x11, b1: 0x22, b2: 0x44, b3: 0x88 }),
        block32_63: Some(Default::default()),
        block64_95: Some(Default::default()),
        block96_127: Some(Default::default()),
        block128_159: Some(Default::default()),
        block160_191: Some(Default::default()),
        block192_223: Some(Default::default()),
        block224_255: Some(Default::default()),
    }
}

fn pulse_timer() -> TimerModeBlock {
    let mut timer: TimerModeBlock = Default::default();
    timer.ton_high = 0x0fff & 50;
    timer.tperiod_high = 0x0fff & 100;
    timer
}

#[test]
fn actuator_pulse_message() {
    let op_mode = OpModeBlock { act_cnt8: 5, cmd_op: 3, command: 2 };
    let only_first = ActuatorModeBlocks {
        block0_31: Some(ActuatorModeBlock { b0: 0x11, b1: 0x22, b2: 0x44, b3: 0x88 }),
        ..no_blocks()
    };
    let message =
        HapticV0Message::new(&Some(pulse_timer()), &Some(only_first), &Some(op_mode)).unwrap();
    assert_eq!(
        vec![
            16, 0x65, 0x02, 0x00, 0x00, 0x00, 0x03, 0x20, 0x64, 0x00, 0x00, 0x00, 0x11, 0x22,
            0x44, 0x88
        ],
        message.marshalled()
    );
}

#[test]
fn actuator_pulse_message_with_all_blocks() {
    let op_mode = OpModeBlock { act_cnt8: 5, cmd_op: 3, command: 2 };
    let message =
        HapticV0Message::new(&Some(pulse_timer()), &Some(pulse_blocks()), &Some(op_mode)).unwrap();
    let packed = message.marshalled();
    assert_eq!(3 + 9 + 32, packed.len());
    assert_eq!(44, packed[0]);
    assert_eq!(0x65, packed[1]);
    assert_eq!(0x02, packed[2]);
    assert_eq!(&[0x00, 0x00, 0x00, 0x03, 0x20, 0x64, 0x00, 0x00, 0x00], &packed[3..12]);
    assert_eq!(&[0x11, 0x22, 0x44, 0x88], &packed[12..16]);
    assert!(packed[16..].iter().all(|byte| *byte == 0));
}

#[test]
fn op_mode_byte_packs_class_and_count() {
    for cmd_op in 0u8..=255 {
        for act_cnt8 in [0u8, 1, 5, 0x1F, 0x20, 0x3F, 0xFF] {
            let op_mode = OpModeBlock { act_cnt8, cmd_op, command: 7 };
            let message = HapticV0Message::new(&None, &None, &Some(op_mode)).unwrap();
            let packed = message.marshalled();
            assert_eq!((cmd_op << 5) | (act_cnt8 & 0x1F), packed[1]);
            assert_eq!(7, packed[2]);
        }
    }
}

#[test]
fn absent_op_mode_stands_for_five_groups_and_class_zero() {
    let message = HapticV0Message::new(&None, &None, &None).unwrap();
    assert_eq!(vec![3, 0x05, 0x00], message.marshalled());
}

#[test]
fn timing_block_packs_twelve_bit_pairs_big_endian() {
    let timer = TimerModeBlock {
        t_pulse: 0x123,
        t_pause: 0x456,
        ton_high: 0x789,
        tperiod_high: 0xABC,
        ton_low: 0xDEF,
        tperiod_low: 0x0FF,
    };
    let op_mode = OpModeBlock { act_cnt8: 1, cmd_op: 0, command: 0 };
    let message = HapticV0Message::new(&Some(timer), &None, &Some(op_mode)).unwrap();
    assert_eq!(
        vec![12, 0x01, 0x00, 0x12, 0x34, 0x56, 0x78, 0x9A, 0xBC, 0xDE, 0xF0, 0xFF],
        message.marshalled()
    );
}

#[test]
fn timer_values_beyond_twelve_bits_are_masked() {
    let wide = TimerModeBlock {
        t_pulse: 0xF123,
        t_pause: 0xF456,
        ton_high: 0xF789,
        tperiod_high: 0xFABC,
        ton_low: 0xFDEF,
        tperiod_low: 0xF0FF,
    };
    let op_mode = OpModeBlock { act_cnt8: 1, cmd_op: 1, command: 0 };
    let message = HapticV0Message::new(&Some(wide), &None, &Some(op_mode)).unwrap();
    assert_eq!(
        vec![12, 0x21, 0x00, 0x12, 0x34, 0x56, 0x78, 0x9A, 0xBC, 0xDE, 0xF0, 0xFF],
        message.marshalled()
    );
}

#[test]
fn class_two_sends_actuators_without_timers() {
    let op_mode = OpModeBlock { act_cnt8: 2, cmd_op: 2, command: 9 };
    let blocks = ActuatorModeBlocks {
        block32_63: Some(ActuatorModeBlock { b0: 1, b1: 2, b2: 3, b3: 4 }),
        ..no_blocks()
    };
    let message =
        HapticV0Message::new(&Some(pulse_timer()), &Some(blocks), &Some(op_mode)).unwrap();
    assert_eq!(
        vec![11, 0x42, 0x09, 0, 0, 0, 0, 1, 2, 3, 4],
        message.marshalled()
    );
}

#[test]
fn class_beyond_three_has_no_data() {
    let op_mode = OpModeBlock { act_cnt8: 2, cmd_op: 4, command: 9 };
    let message =
        HapticV0Message::new(&Some(pulse_timer()), &Some(pulse_blocks()), &Some(op_mode)).unwrap();
    assert_eq!(vec![3, 0x82, 0x09], message.marshalled());
}

#[test]
fn highest_present_block_defines_the_length() {
    let op_mode = OpModeBlock { act_cnt8: 2, cmd_op: 2, command: 0 };
    let probe = HapticV0Message::new(&None, &None, &Some(op_mode)).unwrap();
    let blocks = ActuatorModeBlocks {
        block0_31: Some(ActuatorModeBlock { b0: 0xA0, b1: 0xA1, b2: 0xA2, b3: 0xA3 }),
        block64_95: Some(ActuatorModeBlock { b0: 0xC0, b1: 0xC1, b2: 0xC2, b3: 0xC3 }),
        ..no_blocks()
    };
    assert_eq!(
        vec![0xA0, 0xA1, 0xA2, 0xA3, 0, 0, 0, 0, 0xC0, 0xC1, 0xC2, 0xC3],
        probe.get_actuators_data(&Some(blocks))
    );
    let last = ActuatorModeBlocks {
        block224_255: Some(ActuatorModeBlock { b0: 1, b1: 2, b2: 3, b3: 4 }),
        ..no_blocks()
    };
    let data = probe.get_actuators_data(&Some(last));
    assert_eq!(32, data.len());
    assert!(data[..28].iter().all(|byte| *byte == 0));
    assert_eq!(&[1, 2, 3, 4], &data[28..]);
    assert!(probe.get_actuators_data(&Some(no_blocks())).is_empty());
    assert!(probe.get_actuators_data(&None).is_empty());
}

#[test]
fn append_blk_fills_up_and_writes_in_place() {
    let probe = HapticV0Message::new(&None, &None, &None).unwrap();
    let mut data: Vec<u8> = vec![];
    probe.append_blk(&mut data, &None, 3);
    assert!(data.is_empty());
    probe.append_blk(&mut data, &Some(ActuatorModeBlock { b0: 1, b1: 2, b2: 3, b3: 4 }), 1);
    assert_eq!(vec![0, 0, 0, 0, 1, 2, 3, 4], data);
    probe.append_blk(&mut data, &Some(ActuatorModeBlock { b0: 5, b1: 6, b2: 7, b3: 8 }), 0);
    assert_eq!(vec![5, 6, 7, 8, 1, 2, 3, 4], data);
}

#[test]
fn timing_data_for_each_command_code() {
    let timer = TimerModeBlock {
        t_pulse: 0x123,
        t_pause: 0x456,
        ton_high: 0x789,
        tperiod_high: 0xABC,
        ton_low: 0xDEF,
        tperiod_low: 0x0FF,
    };
    let timing = |command: u8, block: &Option<TimerModeBlock>, all: bool| {
        let op_mode = OpModeBlock { act_cnt8: 0, cmd_op: 7, command };
        let mut message = HapticV0Message::new(&None, &None, &Some(op_mode)).unwrap();
        message.get_timing_data(all, block)
    };
    let some = Some(timer);
    assert_eq!(
        vec![0x12, 0x34, 0x56, 0x78, 0x9A, 0xBC, 0xDE, 0xF0, 0xFF],
        timing(1, &some, true)
    );
    assert!(timing(1, &None, true).is_empty());
    assert!(timing(1, &some, false).is_empty());
    assert_eq!(vec![0x78, 0x9A, 0xBC], timing(2, &some, false));
    assert_eq!(vec![0x78, 0x9A, 0xBC, 0xDE, 0xF0, 0xFF], timing(3, &some, false));
    assert_eq!(vec![0x12, 0x30], timing(4, &some, false));
    assert_eq!(vec![0x12, 0x37, 0x89, 0xAB, 0xC0], timing(5, &some, false));
    assert_eq!(vec![0x12, 0x34, 0x56], timing(0x86, &some, false));
    assert_eq!(vec![0x12, 0x34, 0x56], timing(0x8F, &some, false));
    assert!(timing(0x85, &some, false).is_empty());
    assert!(timing(0x90, &some, false).is_empty());
    assert!(timing(0, &some, false).is_empty());
    assert_eq!(vec![0, 0, 0], timing(2, &None, false));
}

#[test]
fn write_blocks_payload_layout() {
    let uid = [0xE0, 0x04, 0x01, 0x02, 0x03, 0x04, 0x05, 0x06];
    let op_mode = OpModeBlock { act_cnt8: 5, cmd_op: 3, command: 2 };
    let only_first = ActuatorModeBlocks {
        block0_31: Some(ActuatorModeBlock { b0: 0x11, b1: 0x22, b2: 0x44, b3: 0x88 }),
        ..no_blocks()
    };
    let payload =
        actuators_payload(&uid, &Some(pulse_timer()), &Some(only_first), &Some(op_mode)).unwrap();
    let mut expected = vec![0x24, 0x01, 4, 0x04, 0x00];
    expected.extend_from_slice(&uid);
    expected.extend_from_slice(&[
        16, 0x65, 0x02, 0x00, 0x00, 0x00, 0x03, 0x20, 0x64, 0x00, 0x00, 0x00, 0x11, 0x22, 0x44,
        0x88,
    ]);
    assert_eq!(expected, payload);
}

#[test]
fn protocol_message_is_padded_to_whole_blocks() {
    let uid = [1u8, 2, 3, 4, 5, 6, 7, 8];
    let payload = actuators_payload(&uid, &None, &None, &None).unwrap();
    let mut expected = vec![0x24, 0x01, 1, 0x04, 0x00];
    expected.extend_from_slice(&uid);
    expected.extend_from_slice(&[3, 0x05, 0x00, 0x00]);
    assert_eq!(expected, payload);

    for cmd_op in 0u8..4 {
        let op_mode = OpModeBlock { act_cnt8: 5, cmd_op, command: 2 };
        for blocks in [None, Some(no_blocks()), Some(pulse_blocks())] {
            for timer in [None, Some(pulse_timer())] {
                let payload = actuators_payload(&uid, &timer, &blocks, &Some(op_mode)).unwrap();
                let message = &payload[13..];
                assert_eq!(0, message.len() % 4);
                assert_eq!(message.len(), (payload[2] as usize) * 4);
                let stated = message[0] as usize;
                assert!(stated <= message.len() && message.len() - stated < 4);
                assert!(message[stated..].iter().all(|byte| *byte == 0));
            }
        }
    }
}

#[test]
fn serial_number_must_have_eight_bytes() {
    let error = actuators_payload(&[1, 2, 3], &None, &None, &None).unwrap_err();
    assert_eq!(
        "Expected UID, which is a serial number of 8 bytes, but found 3 bytes",
        error.message()
    );
    let error = actuators_payload(&[0; 9], &None, &None, &None).unwrap_err();
    assert_eq!(
        "Expected UID, which is a serial number of 8 bytes, but found 9 bytes",
        error.message()
    );
}

#[test]
fn default_blocks_are_zero() {
    let op_mode: OpModeBlock = Default::default();
    assert_eq!(OpModeBlock { act_cnt8: 0, cmd_op: 0, command: 0 }, op_mode);
    let block: ActuatorModeBlock = Default::default();
    assert_eq!(ActuatorModeBlock { b0: 0, b1: 0, b2: 0, b3: 0 }, block);
    let timer: TimerModeBlock = Default::default();
    assert_eq!(0, timer.t_pulse + timer.t_pause + timer.ton_high);
    assert_eq!(0, timer.tperiod_high + timer.ton_low + timer.tperiod_low);
}
