use protocol_host_lib::conn::channel::{
    judge, round, ByteChannel, ChannelTiming, MockChannel, USB_READ_ENDPOINT, USB_WRITE_ENDPOINT,
};
use protocol_host_lib::conn::common::{AntennaState, DEFAULT_MAX_ATTEMPTS};
use protocol_host_lib::conn::exchange::{Exchange, Verdict};
use protocol_host_lib::error::InternalError;
use protocol_host_lib::obid::advanced_protocol::{HostToReader, ReaderToHost};
use protocol_host_lib::obid::protocol::{FrameError, FrameKind, ObidSerialReceivable};

fn answer(status: u8, data: &[u8]) -> Vec<u8> {
    ReaderToHost::new(0, 0xFF, 0xB0, status, data, 0)._serialize()
}

fn inventory(device_required: bool) -> HostToReader {
    HostToReader::new(0, 0xFF, 0xB0, &[0x01, 0x00], 0, device_required)
}

/// Runs an exchange against a reader that answers in turn with `reads`,
/// and returns the number of writes, the pauses and the end.
fn run(
    max_attempts: i32,
    device_required: bool,
    reads: Vec<Option<Vec<u8>>>,
) -> (usize, Vec<u64>, Option<Result<ReaderToHost, InternalError>>) {
    let mut state = AntennaState::new();
    state.max_attempts = max_attempts;
    let mut exchange = Exchange::begin(&state, inventory(device_required));
    let mut writes = 0;
    let mut pauses = vec![];
    for read in reads {
        assert_eq!(
            &[0x02, 0x00, 0x09, 0xFF, 0xB0, 0x01, 0x00, 0x18, 0x43],
            exchange.frame()
        );
        writes += 1;
        match exchange.on_read(read.as_deref()) {
            Verdict::Retry { exchange: next, pause_ms } => {
                pauses.push(pause_ms);
                exchange = next;
            }
            Verdict::Done(response) => return (writes, pauses, Some(Ok(response))),
            Verdict::Failed(error) => return (writes, pauses, Some(Err(error))),
        }
    }
    (writes, pauses, None)
}

#[test]
fn antenna_state_starts_with_five_attempts() {
    let state = AntennaState::new();
    assert_eq!(5, state.max_attempts);
    assert_eq!(5, DEFAULT_MAX_ATTEMPTS);
    assert!(state.antenna_id.is_none());
    assert!(state.pulse_mode.is_none());
    assert!(state.hf_mod.is_none());
    assert!(state.lf_mod.is_none());
    assert!(state.act_block_count.is_none());
    assert!(state.command.is_none());
    assert!(state.cmd_op.is_none());
}

#[test]
fn ok_answer_is_delivered_after_one_write() {
    let (writes, pauses, end) = run(5, true, vec![Some(answer(0x00, &[7, 8]))]);
    assert_eq!(1, writes);
    assert!(pauses.is_empty());
    let response = end.unwrap().unwrap();
    assert_eq!(0x00, response.status);
    assert_eq!(vec![7, 8], response.data);
}

#[test]
fn no_transponder_is_retried_up_to_the_limit() {
    let reads = vec![Some(answer(0x01, &[])); 20];
    let (writes, pauses, end) = run(5, true, reads);
    assert_eq!(5, writes);
    assert_eq!(vec![8, 16, 24, 32], pauses);
    let error = end.unwrap().unwrap_err();
    assert!(matches!(error, InternalError::NoDevice));
    assert_eq!("Failed to communicate with device in antenna", error.message());
}

#[test]
fn retry_limit_bounds_the_writes() {
    for max_attempts in 1..10 {
        let reads = vec![Some(answer(0x01, &[])); 30];
        let (writes, pauses, end) = run(max_attempts, true, reads);
        assert_eq!(max_attempts as usize, writes);
        assert_eq!(max_attempts as usize - 1, pauses.len());
        assert!(matches!(end, Some(Err(InternalError::NoDevice))));
    }
    for max_attempts in [0, -1, i32::MIN] {
        let reads = vec![Some(answer(0x01, &[])); 3];
        let (writes, _, end) = run(max_attempts, true, reads);
        assert_eq!(1, writes);
        assert!(matches!(end, Some(Err(InternalError::NoDevice))));
    }
}

#[test]
fn no_transponder_is_the_answer_where_no_device_is_required() {
    let (writes, pauses, end) = run(5, false, vec![Some(answer(0x01, &[]))]);
    assert_eq!(1, writes);
    assert!(pauses.is_empty());
    assert_eq!(0x01, end.unwrap().unwrap().status);
}

#[test]
fn transponder_that_shows_up_ends_the_retries() {
    let reads = vec![Some(answer(0x01, &[])), Some(answer(0x01, &[])), Some(answer(0x00, &[1]))];
    let (writes, pauses, end) = run(5, true, reads);
    assert_eq!(3, writes);
    assert_eq!(vec![8, 16], pauses);
    assert_eq!(vec![1], end.unwrap().unwrap().data);
}

#[test]
fn failed_reads_count_for_nothing() {
    let mut reads = vec![None; 12];
    reads.extend(vec![Some(answer(0x01, &[])); 2]);
    reads.push(None);
    reads.extend(vec![Some(answer(0x01, &[])); 5]);
    let (writes, pauses, end) = run(5, true, reads);
    assert_eq!(12 + 2 + 1 + 3, writes);
    assert_eq!(
        vec![0, 0, 0, 0, 0, 0, 0, 0, 0, 0, 0, 0, 8, 16, 0, 24, 32],
        pauses
    );
    assert!(matches!(end, Some(Err(InternalError::NoDevice))));
}

#[test]
fn rf_warning_is_fatal() {
    for device_required in [true, false] {
        let (writes, _, end) = run(5, device_required, vec![Some(answer(0x84, &[]))]);
        assert_eq!(1, writes);
        let error = end.unwrap().unwrap_err();
        assert!(matches!(error, InternalError::RfWarning));
        assert_eq!(
            "Generic Antenna Error: RF hardware monitor error status code 0x84",
            error.message()
        );
    }
}

#[test]
fn other_statuses_are_the_callers_to_judge() {
    for status in [0x02u8, 0x0F, 0x11, 0x80, 0x95, 0xAA] {
        let (writes, _, end) = run(5, true, vec![Some(answer(status, &[]))]);
        assert_eq!(1, writes);
        assert_eq!(status, end.unwrap().unwrap().status);
    }
}

#[test]
fn broken_frames_are_fatal() {
    let (writes, _, end) = run(5, true, vec![Some(vec![0x02, 0x00, 0x07, 0xFF, 0xB0, 0x00, 0x00])]);
    assert_eq!(1, writes);
    assert!(matches!(
        end,
        Some(Err(InternalError::Frame(FrameError::FrameTooShort(FrameKind::ReaderToHost))))
    ));
    let mut frame = answer(0x00, &[1, 2, 3]);
    frame[6] ^= 0x10;
    let (writes, _, end) = run(5, true, vec![Some(frame)]);
    assert_eq!(1, writes);
    assert!(matches!(
        end,
        Some(Err(InternalError::Frame(FrameError::BadCrc(FrameKind::ReaderToHost))))
    ));
}

#[test]
fn mock_channel_brings_back_what_was_written() {
    let mut channel = MockChannel::new();
    assert!(channel.read(10).is_err());
    assert_eq!(3, channel.write(&[1, 2, 3], 10).unwrap());
    assert_eq!(vec![1, 2, 3], channel.read(10).unwrap());
    assert!(channel.read(10).is_err());
    assert_eq!(1, channel.write(&[9], 10).unwrap());
    assert_eq!(2, channel.write(&[7, 8], 10).unwrap());
    assert_eq!(vec![7, 8], channel.read(10).unwrap());
}

#[test]
fn channel_timings_are_those_of_the_transports() {
    let usb = ChannelTiming::usb();
    assert!(usb.pause_before_write_ms >= 5);
    assert_eq!(50, usb.write_timeout_ms);
    assert_eq!(5000, usb.read_timeout_ms);
    assert_eq!(0, usb.pause_after_read_ms);
    let tcp = ChannelTiming::tcp();
    assert_eq!(0, tcp.pause_before_write_ms);
    assert_eq!(50, tcp.pause_after_read_ms);
    assert_eq!(0x02, USB_WRITE_ENDPOINT);
    assert_eq!(0x81, USB_READ_ENDPOINT);
}

#[test]
fn round_on_the_mock_channel_reads_the_request_back() {
    let state = AntennaState::new();
    let mut channel = MockChannel::new();
    let exchange = Exchange::begin(&state, inventory(false));
    match round(&mut channel, exchange, &ChannelTiming::tcp()) {
        Verdict::Done(response) => {
            assert_eq!(0x01, response.status);
            assert_eq!(vec![0x00], response.data);
            assert_eq!(0xB0, response.control_byte);
        }
        other => panic!("unexpected end: {:?}", other),
    }
    let exchange = Exchange::begin(&state, inventory(true));
    match round(&mut channel, exchange, &ChannelTiming::tcp()) {
        Verdict::Retry { exchange, pause_ms } => {
            assert_eq!(8, pause_ms);
            assert_eq!(9, exchange.frame().len());
        }
        other => panic!("unexpected end: {:?}", other),
    }
}

#[test]
fn failed_write_is_fatal_and_failed_read_is_not() {
    let state = AntennaState::new();
    let exchange = Exchange::begin(&state, inventory(true));
    let broken = Err(InternalError::Generic(String::from("broken pipe")));
    match judge(exchange, broken, Ok(answer(0x00, &[]))) {
        Verdict::Failed(error) => assert_eq!("broken pipe", error.message()),
        other => panic!("unexpected end: {:?}", other),
    }
    let exchange = Exchange::begin(&state, inventory(true));
    let timed_out = Err(InternalError::Generic(String::from("timed out")));
    match judge(exchange, Ok(9), timed_out) {
        Verdict::Retry { pause_ms, .. } => assert_eq!(0, pause_ms),
        other => panic!("unexpected end: {:?}", other),
    }
    let exchange = Exchange::begin(&state, inventory(true));
    match judge(exchange, Ok(9), Ok(answer(0x00, &[5]))) {
        Verdict::Done(response) => assert_eq!(vec![5], response.data),
        other => panic!("unexpected end: {:?}", other),
    }
}
