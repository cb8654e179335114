use passthru_driver::comm::{
    classify_frame, parse_response, FrameAction, M2Resp, MacchinaM2, SerialLink,
};
use passthru_driver::frame::{push_u32_le, CommMsg, MsgType};
use passthru_driver::ioctl::read_vbatt;
use passthru_driver::j2534::PassthruError;

/// A link whose inbox routes responses by correlation id, like the real
/// per-id mailboxes; arrival order does not matter.
struct RoutingLink {
    sent: Vec<Vec<u8>>,
    inbox: Vec<CommMsg>,
}

impl SerialLink for RoutingLink {
    fn send(&mut self, bytes: &Vec<u8>) -> bool {
        self.sent.push(bytes.clone());
        true
    }

    fn wait_response(&mut self, msg_id: u8, _timeout_ms: u32) -> Option<CommMsg> {
        let pos = self.inbox.iter().position(|m| m.msg_id == msg_id)?;
        Some(self.inbox.remove(pos))
    }

    fn open(&mut self) -> bool {
        true
    }

    fn close(&mut self) {}
}

fn batt_response(msg_id: u8, millivolts: u32) -> CommMsg {
    let mut args = vec![0u8];
    push_u32_le(&mut args, millivolts);
    CommMsg { msg_id, msg_type: MsgType::ReadBatt, args }
}

#[test]
fn id_allocation_is_round_robin() {
    let mut m2 = MacchinaM2::new();
    // The counter starts at 1, so the first allocated id is 2.
    assert_eq!(m2.get_id(), 2);
    assert_eq!(m2.get_id(), 3);
    for _ in 0..95 {
        m2.get_id();
    }
    assert_eq!(m2.get_id(), 99);
    // 99 wraps back to 1: ids stay inside 1..=99.
    assert_eq!(m2.get_id(), 1);
    assert_eq!(m2.get_id(), 2);
}

#[test]
fn call_installs_and_vacates_one_mailbox() {
    let mut m2 = MacchinaM2::new();
    let mut link = RoutingLink { sent: Vec::new(), inbox: vec![batt_response(2, 12000)] };
    let mut msg = CommMsg::new(MsgType::ReadBatt);
    let r = m2.write_and_read(&mut link, &mut msg, 100);
    assert!(r.is_ok());
    assert_eq!(msg.msg_id, 2);
    // The mailbox table leaves the call exactly as it entered it.
    assert!(m2.pending.iter().all(|p| !p));
    // A timed-out call also vacates its mailbox.
    let mut msg2 = CommMsg::new(MsgType::ReadBatt);
    let r2 = m2.write_and_read(&mut link, &mut msg2, 100);
    assert_eq!(r2.unwrap_err(), PassthruError::ERR_TIMEOUT);
    assert!(m2.pending.iter().all(|p| !p));
}

#[test]
fn response_id_routing() {
    // Two battery reads; the responses sit in the inbox in reversed order.
    let mut m2 = MacchinaM2::new();
    let mut link = RoutingLink {
        sent: Vec::new(),
        // The first call will allocate id 2, the second id 3; the response for
        // id 3 "arrives" first.
        inbox: vec![batt_response(3, 8400), batt_response(2, 12600)],
    };
    let mut last_error = String::new();
    let mut last_vbatt = 0u32;
    let first = read_vbatt(&mut m2, &mut link, &mut last_error, &mut last_vbatt);
    let second = read_vbatt(&mut m2, &mut link, &mut last_error, &mut last_vbatt);
    assert_eq!(first.unwrap(), 12600);
    assert_eq!(second.unwrap(), 8400);
    assert_eq!(last_vbatt, 8400);
}

#[test]
fn fire_and_forget_forces_id_zero() {
    let m2 = MacchinaM2::new();
    let mut link = RoutingLink { sent: Vec::new(), inbox: Vec::new() };
    let mut last_error = String::new();
    let mut msg = CommMsg::new_with_args(MsgType::TransmitChannelData, &[1, 2, 3]);
    msg.msg_id = 55;
    assert!(m2.write_comm_struct(&mut link, &mut last_error, msg).is_ok());
    assert_eq!(link.sent.len(), 1);
    // Wire layout: length, then msg_id at offset 2 — forced to 0.
    assert_eq!(link.sent[0][2], 0);
}

#[test]
fn parse_response_success_and_errors() {
    // NOERROR status with trailing payload.
    let ok = CommMsg { msg_id: 2, msg_type: MsgType::ReadBatt, args: vec![0x00, 0xAA, 0xBB] };
    match parse_response(&ok) {
        M2Resp::Success(v) => assert_eq!(v, vec![0xAA, 0xBB]),
        _ => panic!("expected success"),
    }
    // A J2534 error status with UTF-8 text.
    let err = CommMsg {
        msg_id: 2,
        msg_type: MsgType::ReadBatt,
        args: vec![0x09, b'l', b'a', b't', b'e'],
    };
    match parse_response(&err) {
        M2Resp::Failure { status, string } => {
            assert_eq!(status, PassthruError::ERR_TIMEOUT);
            assert_eq!(string, "late");
        },
        _ => panic!("expected failure"),
    }
    // A status byte outside the J2534 enum names the offending code.
    let bad = CommMsg { msg_id: 2, msg_type: MsgType::ReadBatt, args: vec![0xEE] };
    match parse_response(&bad) {
        M2Resp::Failure { status, string } => {
            assert_eq!(status, PassthruError::ERR_FAILED);
            assert_eq!(string, "Unrecognized status 238");
        },
        _ => panic!("expected failure"),
    }
    let bad_small = CommMsg { msg_id: 2, msg_type: MsgType::ReadBatt, args: vec![0x63] };
    match parse_response(&bad_small) {
        M2Resp::Failure { status, string } => {
            assert_eq!(status, PassthruError::ERR_FAILED);
            assert_eq!(string, "Unrecognized status 99");
        },
        _ => panic!("expected failure"),
    }
    // An empty response payload.
    let empty = CommMsg { msg_id: 2, msg_type: MsgType::ReadBatt, args: vec![] };
    match parse_response(&empty) {
        M2Resp::Failure { status, .. } => assert_eq!(status, PassthruError::ERR_FAILED),
        _ => panic!("expected failure"),
    }
}

#[test]
fn classify_frame_routes_by_type_and_id() {
    let log = CommMsg { msg_id: 0, msg_type: MsgType::LogMsg, args: b"hi".to_vec() };
    match classify_frame(log) {
        FrameAction::LogText { text } => assert_eq!(text, "hi"),
        _ => panic!("expected log text"),
    }
    let chan = CommMsg { msg_id: 0, msg_type: MsgType::ReceiveChannelData, args: vec![1] };
    assert!(matches!(classify_frame(chan), FrameAction::ChannelData { .. }));
    let resp = CommMsg { msg_id: 7, msg_type: MsgType::ReadBatt, args: vec![0] };
    match classify_frame(resp) {
        FrameAction::Response { id, msg } => {
            assert_eq!(id, 7);
            assert_eq!(msg.args, vec![0]);
        },
        _ => panic!("expected response routing"),
    }
    // Ids outside 1..=99 are dropped.
    let stray = CommMsg { msg_id: 0, msg_type: MsgType::ReadBatt, args: vec![0] };
    assert!(matches!(classify_frame(stray), FrameAction::Discard));
    let stray_hi = CommMsg { msg_id: 200, msg_type: MsgType::ReadBatt, args: vec![0] };
    assert!(matches!(classify_frame(stray_hi), FrameAction::Discard));
}

#[test]
fn stop_clears_running_flag() {
    let mut m2 = MacchinaM2::new();
    assert!(m2.is_running);
    m2.stop();
    assert!(!m2.is_running);
}

/// A link that answers every wait with a frame carrying a foreign id.
struct StrayLink {
    sent: Vec<Vec<u8>>,
}

impl SerialLink for StrayLink {
    fn send(&mut self, bytes: &Vec<u8>) -> bool {
        self.sent.push(bytes.clone());
        true
    }

    fn wait_response(&mut self, _msg_id: u8, _timeout_ms: u32) -> Option<CommMsg> {
        Some(CommMsg { msg_id: 77, msg_type: MsgType::ReadBatt, args: vec![0] })
    }

    fn open(&mut self) -> bool {
        true
    }

    fn close(&mut self) {}
}

#[test]
fn frame_with_foreign_id_is_not_a_response() {
    let mut m2 = MacchinaM2::new();
    let mut link = StrayLink { sent: Vec::new() };
    let mut msg = CommMsg::new(MsgType::ReadBatt);
    // The call allocates id 2; a frame claiming id 77 is dropped like a
    // response that never arrived.
    let r = m2.write_and_read(&mut link, &mut msg, 100);
    assert_eq!(msg.msg_id, 2);
    assert_eq!(r.unwrap_err(), PassthruError::ERR_TIMEOUT);
    assert!(m2.pending.iter().all(|p| !p));
}
