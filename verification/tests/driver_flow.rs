use passthru_driver::channels::{build_filter_payload, build_ioctl_get_payload,
    build_ioctl_set_payload, build_open_channel_payload, build_transmit_payload,
    parse_ioctl_value};
use passthru_driver::comm::SerialLink;
use passthru_driver::frame::{push_u32_le, CommMsg, MsgType};
use passthru_driver::ioctl::parse_vbatt;
use passthru_driver::j2534::{FilterType, PassthruError, PassthruMsg, Protocol, SConfig};
use passthru_driver::logger::{level_prefix, LogLevel, Logger};
use passthru_driver::passthru_drv::{
    api_version, com_port_from_config, del_channel_filter, dll_version, passthru_close,
    passthru_connect, passthru_disconnect, passthru_get_last_error, passthru_ioctl,
    passthru_open, passthru_read_version, passthru_set_programming_voltage,
    passthru_start_periodic_msg, passthru_stop_periodic_msg, read_msgs, set_channel_filter,
    write_msgs, DriverState, IoctlInput, IoctlOutput,
};

/// A link that answers every request from a script of response payloads; an
/// exhausted script answers plain NOERROR, an empty entry simulates a timeout.
struct ScriptLink {
    sent: Vec<Vec<u8>>,
    script: Vec<Vec<u8>>,
    open_ok: bool,
    send_ok: bool,
}

impl ScriptLink {
    fn ok() -> ScriptLink {
        ScriptLink { sent: Vec::new(), script: Vec::new(), open_ok: true, send_ok: true }
    }
}

impl SerialLink for ScriptLink {
    fn send(&mut self, bytes: &Vec<u8>) -> bool {
        self.sent.push(bytes.clone());
        self.send_ok
    }

    fn wait_response(&mut self, msg_id: u8, _timeout_ms: u32) -> Option<CommMsg> {
        if self.script.is_empty() {
            Some(CommMsg { msg_id, msg_type: MsgType::StatusMsg, args: vec![0] })
        } else {
            let args = self.script.remove(0);
            if args.is_empty() {
                None
            } else {
                Some(CommMsg { msg_id, msg_type: MsgType::StatusMsg, args })
            }
        }
    }

    fn open(&mut self) -> bool {
        self.open_ok
    }

    fn close(&mut self) {}
}

fn can_msg(data: &[u8]) -> PassthruMsg {
    PassthruMsg {
        protocol_id: 5,
        rx_status: 0,
        tx_flags: 0,
        timestamp: 0,
        extra_data_size: 0,
        data: data.to_vec(),
    }
}

fn rx_frame(channel: u32, flags: u32, data: &[u8]) -> CommMsg {
    let mut args: Vec<u8> = Vec::new();
    push_u32_le(&mut args, channel);
    push_u32_le(&mut args, flags);
    args.extend_from_slice(data);
    CommMsg { msg_id: 0, msg_type: MsgType::ReceiveChannelData, args }
}

#[test]
fn open_close_idempotence() {
    let mut drv = DriverState::new();
    let mut link = ScriptLink::ok();
    let mut log = Logger::new();
    assert_eq!(passthru_open(&mut drv, &mut link, &mut log), Ok(0x1234));
    assert_eq!(
        passthru_open(&mut drv, &mut link, &mut log),
        Err(PassthruError::ERR_DEVICE_IN_USE)
    );
    assert_eq!(
        passthru_close(&mut drv, &mut link, &mut log, 0x1234),
        PassthruError::STATUS_NOERROR
    );
    // Closing an already-closed device still succeeds.
    assert_eq!(
        passthru_close(&mut drv, &mut link, &mut log, 0x1234),
        PassthruError::STATUS_NOERROR
    );
    // A foreign device id is refused.
    assert_eq!(
        passthru_close(&mut drv, &mut link, &mut log, 0x9999),
        PassthruError::ERR_INVALID_DEVICE_ID
    );
}

#[test]
fn open_failure_sets_last_error() {
    let mut drv = DriverState::new();
    let mut link = ScriptLink::ok();
    link.open_ok = false;
    let mut log = Logger::new();
    assert_eq!(
        passthru_open(&mut drv, &mut link, &mut log),
        Err(PassthruError::ERR_DEVICE_NOT_CONNECTED)
    );
    assert_eq!(passthru_get_last_error(&drv), "Serial port open failed");
}

#[test]
fn connect_validates_device_and_protocol() {
    let mut drv = DriverState::new();
    let mut link = ScriptLink::ok();
    let mut log = Logger::new();
    assert_eq!(
        passthru_connect(&mut drv, &mut link, &mut log, 0x9999, 5, 0, 500000),
        Err(PassthruError::ERR_INVALID_DEVICE_ID)
    );
    assert_eq!(
        passthru_connect(&mut drv, &mut link, &mut log, 0x1234, 0xEE, 0, 500000),
        Err(PassthruError::ERR_INVALID_PROTOCOL_ID)
    );
    // No open device yet.
    assert_eq!(
        passthru_connect(&mut drv, &mut link, &mut log, 0x1234, 5, 0, 500000),
        Err(PassthruError::ERR_DEVICE_NOT_CONNECTED)
    );
}

#[test]
fn channel_slots_are_released_on_disconnect() {
    let mut drv = DriverState::new();
    let mut link = ScriptLink::ok();
    let mut log = Logger::new();
    passthru_open(&mut drv, &mut link, &mut log).unwrap();
    // CAN and ISO15765 share the family slot 0.
    assert_eq!(passthru_connect(&mut drv, &mut link, &mut log, 0x1234, 5, 0, 500000), Ok(0));
    assert_eq!(
        passthru_connect(&mut drv, &mut link, &mut log, 0x1234, 6, 0, 500000),
        Err(PassthruError::ERR_CHANNEL_IN_USE)
    );
    // K-line lives in its own slot.
    assert_eq!(passthru_connect(&mut drv, &mut link, &mut log, 0x1234, 3, 0, 10400), Ok(1));
    assert_eq!(
        passthru_disconnect(&mut drv, &mut link, &mut log, 0),
        PassthruError::STATUS_NOERROR
    );
    // The slot is free again: a second create succeeds.
    assert_eq!(passthru_connect(&mut drv, &mut link, &mut log, 0x1234, 5, 0, 500000), Ok(0));
    assert_eq!(
        passthru_disconnect(&mut drv, &mut link, &mut log, 3),
        PassthruError::ERR_INVALID_CHANNEL_ID
    );
    assert_eq!(
        passthru_disconnect(&mut drv, &mut link, &mut log, 9),
        PassthruError::ERR_INVALID_CHANNEL_ID
    );
}

#[test]
fn protocol_mismatch_on_write() {
    let mut drv = DriverState::new();
    let mut link = ScriptLink::ok();
    let mut log = Logger::new();
    passthru_open(&mut drv, &mut link, &mut log).unwrap();
    assert_eq!(passthru_connect(&mut drv, &mut link, &mut log, 0x1234, 5, 0, 500000), Ok(0));
    let frames_before = link.sent.len();
    // The channel speaks CAN (5); the message claims ISO15765 (6).
    let mut msg = can_msg(&[1, 2, 3]);
    msg.protocol_id = 6;
    let (status, count) = write_msgs(&mut drv, &mut link, 0, &vec![msg], 100);
    assert_eq!(status, PassthruError::ERR_MSG_PROTOCOL_ID);
    assert_eq!(count, 0);
    // Nothing reached the transport.
    assert_eq!(link.sent.len(), frames_before);
}

#[test]
fn filter_slot_exhaustion() {
    let mut drv = DriverState::new();
    let mut link = ScriptLink::ok();
    let mut log = Logger::new();
    passthru_open(&mut drv, &mut link, &mut log).unwrap();
    assert_eq!(passthru_connect(&mut drv, &mut link, &mut log, 0x1234, 5, 0, 500000), Ok(0));
    let mask = can_msg(&[0xFF, 0xFF, 0xFF, 0xFF]);
    let ptn = can_msg(&[0x00, 0x00, 0x03, 0x08]);
    // Ten filters take slots 0..=9 in order.
    for expected in 0..10u32 {
        let r = set_channel_filter(
            &mut drv,
            &mut link,
            0,
            FilterType::PASS_FILTER,
            Some(&mask),
            Some(&ptn),
            None,
        );
        assert_eq!(r, Ok(expected));
    }
    // The eleventh is refused.
    let r = set_channel_filter(
        &mut drv,
        &mut link,
        0,
        FilterType::PASS_FILTER,
        Some(&mask),
        Some(&ptn),
        None,
    );
    assert_eq!(r, Err(PassthruError::ERR_EXCEEDED_LIMIT));
    // Freeing slot 3 makes it the next choice.
    assert_eq!(del_channel_filter(&mut drv, &mut link, 0, 3), PassthruError::STATUS_NOERROR);
    let r = set_channel_filter(
        &mut drv,
        &mut link,
        0,
        FilterType::PASS_FILTER,
        Some(&mask),
        Some(&ptn),
        None,
    );
    assert_eq!(r, Ok(3));
    // Removing a free slot is an error.
    assert_eq!(del_channel_filter(&mut drv, &mut link, 0, 20), PassthruError::ERR_INVALID_MSG_ID);
}

#[test]
fn filter_requires_mask_pattern_and_flow_control() {
    let mut drv = DriverState::new();
    let mut link = ScriptLink::ok();
    let mut log = Logger::new();
    passthru_open(&mut drv, &mut link, &mut log).unwrap();
    passthru_connect(&mut drv, &mut link, &mut log, 0x1234, 5, 0, 500000).unwrap();
    let m = can_msg(&[0xFF]);
    assert_eq!(
        set_channel_filter(&mut drv, &mut link, 0, FilterType::PASS_FILTER, None, Some(&m), None),
        Err(PassthruError::ERR_NULL_PARAMETER)
    );
    assert_eq!(
        set_channel_filter(
            &mut drv,
            &mut link,
            0,
            FilterType::FLOW_CONTROL_FILTER,
            Some(&m),
            Some(&m),
            None
        ),
        Err(PassthruError::ERR_NULL_PARAMETER)
    );
}

#[test]
fn large_transmit_payload_layout() {
    let mut drv = DriverState::new();
    let mut link = ScriptLink::ok();
    let mut log = Logger::new();
    passthru_open(&mut drv, &mut link, &mut log).unwrap();
    // ISO15765 channel in family slot 0.
    assert_eq!(passthru_connect(&mut drv, &mut link, &mut log, 0x1234, 6, 0, 500000), Ok(0));
    let data: Vec<u8> = (0..4100u32).map(|i| (i % 251) as u8).collect();
    let mut msg = can_msg(&data);
    msg.protocol_id = 6;
    msg.tx_flags = 0x40;
    let (status, count) = write_msgs(&mut drv, &mut link, 0, &vec![msg], 100);
    assert_eq!(status, PassthruError::STATUS_NOERROR);
    assert_eq!(count, 1);
    // The last frame on the wire carries channel_id(4) | tx_flags(4) | data.
    let frame = link.sent.last().unwrap();
    let payload = &frame[4..];
    assert_eq!(payload.len(), 8 + 4100);
    assert_eq!(&payload[0..4], &[0, 0, 0, 0]);
    assert_eq!(&payload[4..8], &[0x40, 0, 0, 0]);
    assert_eq!(&payload[8..], &data[..]);
    // And the same bytes come from the payload builder.
    assert_eq!(payload, &build_transmit_payload(0, 0x40, &data)[..]);
}

#[test]
fn receive_queue_overflow_drops_newest() {
    let mut drv = DriverState::new();
    let mut link = ScriptLink::ok();
    let mut log = Logger::new();
    passthru_open(&mut drv, &mut link, &mut log).unwrap();
    assert_eq!(passthru_connect(&mut drv, &mut link, &mut log, 0x1234, 5, 0, 500000), Ok(0));
    // Feed 600 frames for channel 0 without the host reading.
    for i in 0..600u32 {
        let frame = rx_frame(0, 0, &[(i % 256) as u8, (i / 256) as u8]);
        drv.channels.receive_channel_data(&mut log, &frame, i);
    }
    // Exactly 500 messages survive; the 100 dropped each left a warning.
    let (status, msgs) = read_msgs(&mut drv, 0, 1000, 0);
    assert_eq!(status, PassthruError::ERR_BUFFER_EMPTY);
    assert_eq!(msgs.len(), 500);
    assert_eq!(log.count_level(LogLevel::Warn), 100);
    // Oldest first, stamped with the channel's protocol and the feed order.
    assert_eq!(msgs[0].data, vec![0, 0]);
    assert_eq!(msgs[0].timestamp, 0);
    assert_eq!(msgs[499].data, vec![(499u32 % 256) as u8, 1]);
    assert!(msgs.iter().all(|m| m.protocol_id == 5));
}

#[test]
fn read_msgs_respects_count_and_order() {
    let mut drv = DriverState::new();
    let mut link = ScriptLink::ok();
    let mut log = Logger::new();
    passthru_open(&mut drv, &mut link, &mut log).unwrap();
    passthru_connect(&mut drv, &mut link, &mut log, 0x1234, 5, 0, 500000).unwrap();
    for i in 0..5u8 {
        let frame = rx_frame(0, 7, &[i]);
        drv.channels.receive_channel_data(&mut log, &frame, 100 + i as u32);
    }
    let (status, msgs) = read_msgs(&mut drv, 0, 3, 0);
    assert_eq!(status, PassthruError::STATUS_NOERROR);
    assert_eq!(msgs.len(), 3);
    assert_eq!(msgs[0].data, vec![0]);
    assert_eq!(msgs[2].data, vec![2]);
    assert_eq!(msgs[0].rx_status, 7);
    assert_eq!(msgs[0].timestamp, 100);
    // The rest stays queued.
    let (status, rest) = read_msgs(&mut drv, 0, 10, 0);
    assert_eq!(status, PassthruError::ERR_BUFFER_EMPTY);
    assert_eq!(rest.len(), 2);
    assert_eq!(rest[0].data, vec![3]);
    // An unknown channel is refused.
    let (status, none) = read_msgs(&mut drv, 2, 10, 0);
    assert_eq!(status, PassthruError::ERR_INVALID_CHANNEL_ID);
    assert!(none.is_empty());
}

#[test]
fn read_version_uses_constants() {
    let mut drv = DriverState::new();
    let mut link = ScriptLink::ok();
    let mut log = Logger::new();
    assert_eq!(
        passthru_read_version(&mut drv, &mut link, &mut log),
        Err(PassthruError::ERR_DEVICE_NOT_CONNECTED)
    );
    passthru_open(&mut drv, &mut link, &mut log).unwrap();
    link.script.push(vec![0, b'M', b'2', b'v', b'1']);
    let (fw, dll, api) = passthru_read_version(&mut drv, &mut link, &mut log).unwrap();
    assert_eq!(fw, "M2v1");
    assert_eq!(dll, "1.0.0");
    assert_eq!(api, "04.04");
    assert_eq!(dll_version(), "1.0.0");
    assert_eq!(api_version(), "04.04");
}

#[test]
fn ioctl_read_vbatt_round_trip() {
    let mut drv = DriverState::new();
    let mut link = ScriptLink::ok();
    let mut log = Logger::new();
    passthru_open(&mut drv, &mut link, &mut log).unwrap();
    // 12345 mV, little-endian after the status byte.
    link.script.push(vec![0, 0x39, 0x30, 0, 0]);
    let (status, out) = passthru_ioctl(
        &mut drv,
        &mut link,
        &mut log,
        0,
        0x03,
        IoctlInput::NoInput,
        true,
    );
    assert_eq!(status, PassthruError::STATUS_NOERROR);
    assert!(matches!(out, IoctlOutput::Value(12345)));
    // A null output pointer is refused before any transport work.
    let (status, _) = passthru_ioctl(
        &mut drv,
        &mut link,
        &mut log,
        0,
        0x03,
        IoctlInput::NoInput,
        false,
    );
    assert_eq!(status, PassthruError::ERR_NULL_PARAMETER);
    // An unknown IOCTL id is refused.
    let (status, _) = passthru_ioctl(
        &mut drv,
        &mut link,
        &mut log,
        0,
        0xEE,
        IoctlInput::NoInput,
        true,
    );
    assert_eq!(status, PassthruError::ERR_INVALID_IOCTL_ID);
}

#[test]
fn ioctl_timeout_propagates() {
    let mut drv = DriverState::new();
    let mut link = ScriptLink::ok();
    let mut log = Logger::new();
    passthru_open(&mut drv, &mut link, &mut log).unwrap();
    // An empty script entry simulates a response that never arrives.
    link.script.push(vec![]);
    let (status, out) = passthru_ioctl(
        &mut drv,
        &mut link,
        &mut log,
        0,
        0x03,
        IoctlInput::NoInput,
        true,
    );
    assert_eq!(status, PassthruError::ERR_TIMEOUT);
    assert!(matches!(out, IoctlOutput::NoOutput));
}

#[test]
fn ioctl_config_lists() {
    let mut drv = DriverState::new();
    let mut link = ScriptLink::ok();
    let mut log = Logger::new();
    passthru_open(&mut drv, &mut link, &mut log).unwrap();
    passthru_connect(&mut drv, &mut link, &mut log, 0x1234, 5, 0, 500000).unwrap();
    // GET_CONFIG fills values; the adapter answers 7 for the one parameter.
    link.script.push(vec![0, 7, 0, 0, 0]);
    let list = vec![SConfig { parameter: 0x01, value: 0 }];
    let (status, out) = passthru_ioctl(
        &mut drv,
        &mut link,
        &mut log,
        0,
        0x01,
        IoctlInput::Config(list),
        false,
    );
    assert_eq!(status, PassthruError::STATUS_NOERROR);
    match out {
        IoctlOutput::Config(cfg) => {
            assert_eq!(cfg.len(), 1);
            assert_eq!(cfg[0].parameter, 0x01);
            assert_eq!(cfg[0].value, 7);
        },
        _ => panic!("expected a config list back"),
    }
    // SET_CONFIG with a parameter code the J2534 enum does not define.
    let bad = vec![SConfig { parameter: 0x02, value: 1 }];
    let (status, _) = passthru_ioctl(
        &mut drv,
        &mut link,
        &mut log,
        0,
        0x02,
        IoctlInput::Config(bad),
        false,
    );
    assert_eq!(status, PassthruError::ERR_NOT_SUPPORTED);
    // Null input pointers are refused.
    let (status, _) = passthru_ioctl(
        &mut drv,
        &mut link,
        &mut log,
        0,
        0x02,
        IoctlInput::NoInput,
        false,
    );
    assert_eq!(status, PassthruError::ERR_NULL_PARAMETER);
}

#[test]
fn ioctl_clear_rx_buffer_empties_queue() {
    let mut drv = DriverState::new();
    let mut link = ScriptLink::ok();
    let mut log = Logger::new();
    passthru_open(&mut drv, &mut link, &mut log).unwrap();
    passthru_connect(&mut drv, &mut link, &mut log, 0x1234, 5, 0, 500000).unwrap();
    for i in 0..4u8 {
        let frame = rx_frame(0, 0, &[i]);
        drv.channels.receive_channel_data(&mut log, &frame, 0);
    }
    let (status, _) = passthru_ioctl(
        &mut drv,
        &mut link,
        &mut log,
        0,
        0x08,
        IoctlInput::NoInput,
        false,
    );
    assert_eq!(status, PassthruError::STATUS_NOERROR);
    let (status, msgs) = read_msgs(&mut drv, 0, 10, 0);
    assert_eq!(status, PassthruError::ERR_BUFFER_EMPTY);
    assert!(msgs.is_empty());
    // The stubbed clears report success without transport work.
    let (status, _) = passthru_ioctl(
        &mut drv,
        &mut link,
        &mut log,
        0,
        0x09,
        IoctlInput::NoInput,
        false,
    );
    assert_eq!(status, PassthruError::STATUS_NOERROR);
}

#[test]
fn payload_builders_match_wire_layout() {
    assert_eq!(
        build_open_channel_payload(0, Protocol::CAN, 500000, 0x800),
        {
            let mut v: Vec<u8> = Vec::new();
            push_u32_le(&mut v, 0);
            push_u32_le(&mut v, 5);
            push_u32_le(&mut v, 500000);
            push_u32_le(&mut v, 0x800);
            v
        }
    );
    let fp = build_filter_payload(0, 3, FilterType::FLOW_CONTROL_FILTER, &[1, 2], &[3], &[4, 5, 6]);
    let mut expected: Vec<u8> = Vec::new();
    for w in [0u32, 3, 3, 2, 1, 3] {
        push_u32_le(&mut expected, w);
    }
    expected.extend_from_slice(&[1, 2, 3, 4, 5, 6]);
    assert_eq!(fp, expected);
    // IOCTL payloads carry the channel id as a single byte.
    assert_eq!(build_ioctl_set_payload(2, 0x01, 250000), {
        let mut v: Vec<u8> = vec![2];
        push_u32_le(&mut v, 0x01);
        push_u32_le(&mut v, 250000);
        v
    });
    assert_eq!(build_ioctl_get_payload(1, 0x03), {
        let mut v: Vec<u8> = vec![1];
        push_u32_le(&mut v, 0x03);
        v
    });
}

#[test]
fn response_value_parsers() {
    assert_eq!(parse_ioctl_value(&vec![1, 0, 0, 0]), Ok(1));
    assert_eq!(parse_ioctl_value(&vec![1, 0, 0]), Err(PassthruError::ERR_FAILED));
    assert_eq!(parse_vbatt(&vec![0x10, 0x27, 0, 0], 999), 10000);
    assert_eq!(parse_vbatt(&vec![1, 2], 999), 999);
}

#[test]
fn com_port_config_lookup() {
    assert_eq!(
        com_port_from_config("{\"COM-PORT\": \"/dev/ttyACM0\"}"),
        Some("/dev/ttyACM0".to_string())
    );
    assert_eq!(com_port_from_config("{\"OTHER\": 1}"), None);
    assert_eq!(com_port_from_config("not json"), None);
    assert_eq!(com_port_from_config("{\"COM-PORT\": 5}"), None);
}

#[test]
fn log_levels_have_fixed_prefixes() {
    assert_eq!(level_prefix(LogLevel::Debug), "[DEBUG] - ");
    assert_eq!(level_prefix(LogLevel::Info), "[INFO ] - ");
    assert_eq!(level_prefix(LogLevel::Warn), "[WARN ] - ");
    assert_eq!(level_prefix(LogLevel::Error), "[ERROR] - ");
    assert_eq!(level_prefix(LogLevel::M2Log), "[M2LOG] - ");
}

#[test]
fn adapter_refusal_surfaces_status_and_text() {
    let mut drv = DriverState::new();
    let mut link = ScriptLink::ok();
    let mut log = Logger::new();
    passthru_open(&mut drv, &mut link, &mut log).unwrap();
    // The adapter refuses the channel with CHANNEL_IN_USE (0x14) and a note.
    link.script.push(vec![0x14, b'b', b'u', b's', b'y']);
    assert_eq!(
        passthru_connect(&mut drv, &mut link, &mut log, 0x1234, 5, 0, 500000),
        Err(PassthruError::ERR_CHANNEL_IN_USE)
    );
    assert_eq!(passthru_get_last_error(&drv), "busy");
    // The slot stayed empty, so a retry can succeed.
    assert_eq!(passthru_connect(&mut drv, &mut link, &mut log, 0x1234, 5, 0, 500000), Ok(0));
}

#[test]
fn ioctl_fast_init_payload() {
    let mut drv = DriverState::new();
    let mut link = ScriptLink::ok();
    let mut log = Logger::new();
    passthru_open(&mut drv, &mut link, &mut log).unwrap();
    passthru_connect(&mut drv, &mut link, &mut log, 0x1234, 4, 0, 10400).unwrap();
    // ISO14230 lives in the K-line slot, channel id 1.
    let mut init = can_msg(&[0xC1, 0x33, 0xF1, 0x81]);
    init.protocol_id = 4;
    let (status, _) = passthru_ioctl(
        &mut drv,
        &mut link,
        &mut log,
        1,
        0x05,
        IoctlInput::Msg(init),
        true,
    );
    assert_eq!(status, PassthruError::STATUS_NOERROR);
    // InitLinChannel payload: channel id, the fast-init selector byte, data.
    let frame = link.sent.last().unwrap();
    assert_eq!(frame[3], 0x0A);
    let payload = &frame[4..];
    assert_eq!(&payload[0..4], &[1, 0, 0, 0]);
    assert_eq!(payload[4], 1);
    assert_eq!(&payload[5..], &[0xC1, 0x33, 0xF1, 0x81]);
    // A null input pointer is refused.
    let (status, _) = passthru_ioctl(
        &mut drv,
        &mut link,
        &mut log,
        1,
        0x05,
        IoctlInput::NoInput,
        true,
    );
    assert_eq!(status, PassthruError::ERR_NULL_PARAMETER);
}

#[test]
fn zero_timeout_write_is_fire_and_forget() {
    let mut drv = DriverState::new();
    let mut link = ScriptLink::ok();
    let mut log = Logger::new();
    passthru_open(&mut drv, &mut link, &mut log).unwrap();
    passthru_connect(&mut drv, &mut link, &mut log, 0x1234, 5, 0, 500000).unwrap();
    // With a zero timeout the message goes out with correlation id 0.
    let (status, count) = write_msgs(&mut drv, &mut link, 0, &vec![can_msg(&[1, 2])], 0);
    assert_eq!(status, PassthruError::STATUS_NOERROR);
    assert_eq!(count, 1);
    assert_eq!(link.sent.last().unwrap()[2], 0);
    // With a nonzero timeout it carries the next allocated id (open used none,
    // connect used 2, so the transmit gets 3).
    let (status, _) = write_msgs(&mut drv, &mut link, 0, &vec![can_msg(&[1, 2])], 50);
    assert_eq!(status, PassthruError::STATUS_NOERROR);
    assert_eq!(link.sent.last().unwrap()[2], 3);
}

#[test]
fn open_and_close_bracket_with_status_frames() {
    let mut drv = DriverState::new();
    let mut link = ScriptLink::ok();
    let mut log = Logger::new();
    passthru_open(&mut drv, &mut link, &mut log).unwrap();
    // The hello frame: one payload byte 0x01, type StatusMsg (0xAA), id 0.
    assert_eq!(link.sent[0], vec![0x03, 0x00, 0x00, 0xAA, 0x01]);
    passthru_close(&mut drv, &mut link, &mut log, 0x1234);
    // The exit frame carries 0x00 instead.
    assert_eq!(link.sent.last().unwrap(), &vec![0x03, 0x00, 0x00, 0xAA, 0x00]);
}

#[test]
fn stub_entry_points() {
    assert_eq!(passthru_start_periodic_msg(), PassthruError::STATUS_NOERROR);
    assert_eq!(passthru_stop_periodic_msg(), PassthruError::STATUS_NOERROR);
    let mut last_error = String::new();
    let mut log = Logger::new();
    assert_eq!(
        passthru_set_programming_voltage(&mut last_error, &mut log),
        PassthruError::ERR_FAILED
    );
    assert_eq!(last_error, "Programming voltage is not supported");
    assert_eq!(log.lines.len(), 1);
    assert_eq!(log.lines[0].level, LogLevel::Error);
}

#[test]
fn zero_timeout_write_failure_is_not_a_timeout() {
    let mut drv = DriverState::new();
    let mut link = ScriptLink::ok();
    let mut log = Logger::new();
    passthru_open(&mut drv, &mut link, &mut log).unwrap();
    passthru_connect(&mut drv, &mut link, &mut log, 0x1234, 5, 0, 500000).unwrap();
    // A dead writer queue fails the fire-and-forget send with FAILED, never TIMEOUT.
    link.send_ok = false;
    let (status, count) = write_msgs(&mut drv, &mut link, 0, &vec![can_msg(&[1])], 0);
    assert_eq!(status, PassthruError::ERR_FAILED);
    assert_eq!(count, 0);
}

#[test]
fn write_msgs_success_means_full_batch() {
    let mut drv = DriverState::new();
    let mut link = ScriptLink::ok();
    let mut log = Logger::new();
    passthru_open(&mut drv, &mut link, &mut log).unwrap();
    passthru_connect(&mut drv, &mut link, &mut log, 0x1234, 5, 0, 500000).unwrap();
    let batch = vec![can_msg(&[1]), can_msg(&[2]), can_msg(&[3])];
    let frames_before = link.sent.len();
    let (status, count) = write_msgs(&mut drv, &mut link, 0, &batch, 100);
    assert_eq!(status, PassthruError::STATUS_NOERROR);
    assert_eq!(count, 3);
    assert_eq!(link.sent.len(), frames_before + 3);
    // An adapter refusal mid-batch stops it with that status and a short count.
    link.script.push(vec![0]);
    link.script.push(vec![0x07]);
    let (status, count) = write_msgs(&mut drv, &mut link, 0, &batch, 100);
    assert_eq!(status, PassthruError::ERR_FAILED);
    assert_eq!(count, 1);
}

#[test]
fn ioctl_lookup_table_stubs_check_input() {
    let mut drv = DriverState::new();
    let mut link = ScriptLink::ok();
    let mut log = Logger::new();
    let (status, _) = passthru_ioctl(
        &mut drv,
        &mut link,
        &mut log,
        0,
        0x0C,
        IoctlInput::Bytes(vec![1, 2]),
        false,
    );
    assert_eq!(status, PassthruError::STATUS_NOERROR);
    let (status, _) = passthru_ioctl(
        &mut drv,
        &mut link,
        &mut log,
        0,
        0x0C,
        IoctlInput::NoInput,
        false,
    );
    assert_eq!(status, PassthruError::ERR_NULL_PARAMETER);
    let (status, _) = passthru_ioctl(
        &mut drv,
        &mut link,
        &mut log,
        0,
        0x0D,
        IoctlInput::NoInput,
        false,
    );
    assert_eq!(status, PassthruError::ERR_NULL_PARAMETER);
}
