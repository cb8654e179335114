use passthru_driver::frame::{
    push_u16_le, push_u32_le, read_u16_le, read_u32_le, CommMsg, DecodeOutcome, MsgType,
    COMM_MSG_ARG_SIZE, COMM_MSG_SIZE,
};
use passthru_driver::logger::{LogLevel, Logger};

fn le32(v: u32) -> Vec<u8> {
    let mut out = Vec::new();
    push_u32_le(&mut out, v);
    out
}

#[test]
fn encode_known_frame() {
    let mut msg = CommMsg::new_with_args(MsgType::OpenChannel, &[0xDE, 0xAD]);
    msg.msg_id = 5;
    let bytes = msg.to_slice();
    // length field = payload + id/type bytes = 4, little-endian.
    assert_eq!(bytes, vec![0x04, 0x00, 0x05, 0x02, 0xDE, 0xAD]);
}

#[test]
fn encode_empty_frame() {
    let msg = CommMsg::new(MsgType::ReadBatt);
    let bytes = msg.to_slice();
    assert_eq!(bytes, vec![0x02, 0x00, 0x00, 0x08]);
}

#[test]
fn decode_roundtrip() {
    let bytes = vec![0x05, 0x00, 0x07, 0x06, 0x01, 0x02, 0x03];
    match CommMsg::from_vec(&bytes) {
        DecodeOutcome::Frame { msg, used } => {
            assert_eq!(used, 7);
            assert_eq!(msg.msg_id, 7);
            assert_eq!(msg.msg_type, MsgType::TransmitChannelData);
            assert_eq!(msg.args, vec![0x01, 0x02, 0x03]);
            // Re-encoding a decoded well-formed frame gives the bytes back.
            assert_eq!(msg.to_slice(), bytes);
        },
        _ => panic!("expected a complete frame"),
    }
}

#[test]
fn decode_needs_more_bytes() {
    assert!(matches!(CommMsg::from_vec(&[]), DecodeOutcome::NeedMore));
    assert!(matches!(CommMsg::from_vec(&[0x05]), DecodeOutcome::NeedMore));
    // Announces 3 payload-ish bytes but only one arrived so far.
    assert!(matches!(
        CommMsg::from_vec(&[0x05, 0x00, 0x07, 0x06, 0x01]),
        DecodeOutcome::NeedMore
    ));
}

#[test]
fn decode_malformed_length() {
    // Length below 2 cannot even hold the id and type bytes.
    assert!(matches!(
        CommMsg::from_vec(&[0x01, 0x00, 0x00, 0x00]),
        DecodeOutcome::Malformed
    ));
    // Length beyond a block's payload capacity.
    assert!(matches!(
        CommMsg::from_vec(&[0xFF, 0xFF, 0x00, 0x00]),
        DecodeOutcome::Malformed
    ));
}

#[test]
fn block_roundtrip() {
    let mut msg = CommMsg::new_with_args(MsgType::SetChannelFilter, &[9, 8, 7, 6]);
    msg.msg_id = 42;
    let block = msg.to_block();
    assert_eq!(block.len(), COMM_MSG_SIZE);
    assert_eq!(&block[0..8], &[0x06, 0x00, 42, 0x04, 9, 8, 7, 6]);
    assert!(block[8..].iter().all(|b| *b == 0));
    let back = CommMsg::from_block(&block).expect("block holds a frame");
    assert_eq!(back.msg_id, 42);
    assert_eq!(back.msg_type, MsgType::SetChannelFilter);
    assert_eq!(back.args, vec![9, 8, 7, 6]);
}

#[test]
fn new_with_args_truncates_oversized_payload() {
    let big = vec![0xAA; COMM_MSG_ARG_SIZE + 100];
    let msg = CommMsg::new_with_args(MsgType::LogMsg, &big);
    assert_eq!(msg.args.len(), COMM_MSG_ARG_SIZE);
}

#[test]
fn put_args_overwrites_front() {
    let mut msg = CommMsg::new_with_args(MsgType::LogMsg, &[1, 2, 3, 4, 5]);
    msg.put_args(&[9, 9]);
    assert_eq!(msg.args, vec![9, 9, 3, 4, 5]);
}

#[test]
fn set_type_changes_only_type() {
    let mut msg = CommMsg::new_with_args(MsgType::LogMsg, &[1]);
    msg.set_type(MsgType::StatusMsg);
    assert_eq!(msg.msg_type, MsgType::StatusMsg);
    assert_eq!(msg.args, vec![1]);
    assert_eq!(msg.msg_id, 0);
}

#[test]
fn extract_frames_drains_stream() {
    let mut log = Logger::new();
    let mut buf: Vec<u8> = Vec::new();
    // Two complete frames and the first half of a third.
    buf.extend_from_slice(&[0x02, 0x00, 0x01, 0x08]);
    buf.extend_from_slice(&[0x03, 0x00, 0x02, 0x03, 0x55]);
    buf.extend_from_slice(&[0x04, 0x00, 0x03]);
    let frames = passthru_driver::frame::extract_frames(&mut buf, &mut log);
    assert_eq!(frames.len(), 2);
    assert_eq!(frames[0].msg_id, 1);
    assert_eq!(frames[0].msg_type, MsgType::ReadBatt);
    assert_eq!(frames[1].msg_id, 2);
    assert_eq!(frames[1].args, vec![0x55]);
    // The incomplete tail stays for the next read.
    assert_eq!(buf, vec![0x04, 0x00, 0x03]);
    assert_eq!(log.lines.len(), 0);
}

#[test]
fn extract_frames_clears_malformed_stream() {
    let mut log = Logger::new();
    let mut buf: Vec<u8> = vec![0x00, 0x00, 0x55, 0x66];
    let frames = passthru_driver::frame::extract_frames(&mut buf, &mut log);
    assert_eq!(frames.len(), 0);
    assert!(buf.is_empty());
    assert_eq!(log.lines.len(), 1);
    assert_eq!(log.lines[0].level, LogLevel::Warn);
}

#[test]
fn little_endian_roundtrips() {
    let mut out: Vec<u8> = Vec::new();
    push_u16_le(&mut out, 0xBEEF);
    assert_eq!(out, vec![0xEF, 0xBE]);
    assert_eq!(read_u16_le(&out, 0), 0xBEEF);
    assert_eq!(le32(0x12345678), vec![0x78, 0x56, 0x34, 0x12]);
    assert_eq!(read_u32_le(&le32(0x12345678), 0), 0x12345678);
}

#[test]
fn msg_type_codes_invert() {
    let all = [
        MsgType::Unknown,
        MsgType::LogMsg,
        MsgType::OpenChannel,
        MsgType::CloseChannel,
        MsgType::SetChannelFilter,
        MsgType::RemoveChannelFilter,
        MsgType::TransmitChannelData,
        MsgType::ReceiveChannelData,
        MsgType::ReadBatt,
        MsgType::IoctlSet,
        MsgType::InitLinChannel,
        MsgType::IoctlGet,
        MsgType::StatusMsg,
        MsgType::GetFwVersion,
    ];
    for t in all {
        assert_eq!(MsgType::from_u8(t.code()), t);
    }
    assert_eq!(MsgType::from_u8(0x77), MsgType::Unknown);
    assert_eq!(MsgType::from_u8(0x10), MsgType::IoctlGet);
    assert_eq!(MsgType::from_u8(0x0A), MsgType::InitLinChannel);
}
