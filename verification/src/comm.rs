//! Transport: request/response correlation over a serial link.
//!
//! The byte pump — the port itself, the writer, reader and dispatcher threads
//! — sits outside the library behind the `SerialLink` trait, which promises
//! nothing; everything proved here holds whatever the link returns.  The
//! library owns the correlation state: the round-robin id allocator and the
//! table of 99 single-shot response mailboxes.

use vstd::pervasive::VecAdditionalExecFns;
use vstd::prelude::*;
use vstd::string::StringExecFns;

use crate::frame::{CommMsg, MsgType};
use crate::j2534::{spec_error_from_raw, PassthruError};

verus! {

/// Default deadline for one request/response exchange, in milliseconds.
pub const M2_CMD_TIMEOUT_MS: u32 = 2000;

/// Number of reusable request ids (1..=99).
pub const MAX_INFLIGHT_IDS: usize = 99;

/// The serial pump, as the library sees it.  Implementations own the port and
/// the threads; the library states nothing about them and proves its
/// guarantees for every possible behaviour of the link.
pub trait SerialLink {
    /// Hands one encoded frame to the writer queue; `false` when the link is
    /// down.
    fn send(&mut self, bytes: &Vec<u8>) -> bool;

    /// Blocks up to `timeout_ms` for the response frame carrying `msg_id`.
    fn wait_response(&mut self, msg_id: u8, timeout_ms: u32) -> Option<CommMsg>;

    /// Resolves and opens the device and starts the pump threads.
    fn open(&mut self) -> bool;

    /// Stops the pump threads and releases the device.
    fn close(&mut self);
}

/// Text decoded from bytes by UTF-8 (lossy): a function of the bytes alone.
pub uninterp spec fn utf8_text_of(b: Seq<u8>) -> Seq<char>;

/// Relies on `String::from_utf8_lossy`: the text depends on the bytes alone,
/// and an empty byte string decodes to the empty text.
#[verifier::external_body]
pub(crate) fn utf8_lossy(b: &[u8]) -> (r: String)
    ensures
        r@ == utf8_text_of(b@),
        b@.len() == 0 ==> r@ == Seq::<char>::empty(),
{
    String::from_utf8_lossy(b).into_owned()
}

/// The parts of the transport state a command exchange must not disturb: the
/// mailbox table and the running flag (only the id allocator advances).
pub open spec fn spec_transport_preserved(before: MacchinaM2, after: MacchinaM2) -> bool {
    &&& after.pending@ == before.pending@
    &&& after.is_running == before.is_running
}

/// Outcome of one command exchange, after the status byte is parsed.
#[derive(Debug, Clone)]
pub enum M2Resp {
    Success(Vec<u8>),
    Failure { status: PassthruError, string: String },
}

/// Correlation state of the transport: the id allocator, the mailbox table,
/// and the running flag the pump threads observe.
pub struct MacchinaM2 {
    /// Last allocated request id.
    pub msg_id_counter: u8,
    /// `pending[i]` holds while a call awaits the response with id `i + 1`.
    pub pending: Vec<bool>,
    /// Cleared on shutdown so the pump threads exit.
    pub is_running: bool,
}

impl MacchinaM2 {
    /// The correlation state is well formed: one mailbox slot per id, and the
    /// allocator inside 1..=99.
    pub open spec fn wf(self) -> bool {
        &&& self.pending@.len() == MAX_INFLIGHT_IDS
        &&& 1 <= self.msg_id_counter <= MAX_INFLIGHT_IDS
    }

    /// No call is in flight: every mailbox slot is vacant.
    pub open spec fn quiescent(self) -> bool {
        forall|i: int| 0 <= i < self.pending@.len() ==> !self.pending@[i]
    }

    /// Fresh transport state: allocator at 1, no mailbox installed, running.
    pub fn new() -> (r: MacchinaM2)
        ensures
            r.wf(),
            r.quiescent(),
            r.msg_id_counter == 1,
            r.is_running,
    {
        let mut pending: Vec<bool> = Vec::new();
        let mut k: usize = 0;
        while k < MAX_INFLIGHT_IDS
            invariant
                k <= MAX_INFLIGHT_IDS,
                pending@.len() == k,
                forall|i: int| 0 <= i < k ==> !pending@[i],
            decreases MAX_INFLIGHT_IDS - k,
        {
            pending.push(false);
            k += 1;
        }
        MacchinaM2 { msg_id_counter: 1, pending, is_running: true }
    }

    /// Allocates the next request id, round robin over 1..=99.
    pub fn get_id(&mut self) -> (r: u8)
        requires
            old(self).wf(),
        ensures
            final(self).wf(),
            r == if old(self).msg_id_counter >= 99 {
                1u8
            } else {
                (old(self).msg_id_counter + 1) as u8
            },
            1 <= r <= 99,
            final(self).msg_id_counter == r,
            final(self).pending@ == old(self).pending@,
            final(self).is_running == old(self).is_running,
    {
        let next = if self.msg_id_counter >= 99 {
            1
        } else {
            self.msg_id_counter + 1
        };
        self.msg_id_counter = next;
        next
    }

    /// Marks the mailbox for `id` as awaiting a response.
    fn install_mailbox(&mut self, id: u8)
        requires
            old(self).wf(),
            1 <= id <= 99,
        ensures
            final(self).wf(),
            final(self).pending@ == old(self).pending@.update(id - 1, true),
            final(self).msg_id_counter == old(self).msg_id_counter,
            final(self).is_running == old(self).is_running,
    {
        let idx = (id - 1) as usize;
        self.pending.set(idx, true);
    }

    /// Vacates the mailbox for `id`, whether a response arrived or the wait
    /// timed out.
    fn vacate_mailbox(&mut self, id: u8)
        requires
            old(self).wf(),
            1 <= id <= 99,
        ensures
            final(self).wf(),
            final(self).pending@ == old(self).pending@.update(id - 1, false),
            final(self).msg_id_counter == old(self).msg_id_counter,
            final(self).is_running == old(self).is_running,
    {
        let idx = (id - 1) as usize;
        self.pending.set(idx, false);
    }

    /// Sends a fire-and-forget frame: id 0, no reply expected.
    pub fn write_comm_struct<L: SerialLink>(
        &self,
        link: &mut L,
        last_error: &mut String,
        s: CommMsg,
    ) -> (r: Result<(), PassthruError>)
        requires
            s.wf(),
        ensures
            r matches Err(e) ==> e == PassthruError::ERR_FAILED,
            r is Ok ==> final(last_error)@ == old(last_error)@,
    {
        let mut msg = s;
        msg.msg_id = 0;
        let bytes = msg.to_slice();
        if link.send(&bytes) {
            Ok(())
        } else {
            crate::passthru_drv::set_error_string(
                last_error,
                "Error sending data to M2 TxChannel".to_owned(),
            );
            Err(PassthruError::ERR_FAILED)
        }
    }

    /// Sends a request and waits for the response carrying the same id.
    ///
    /// Exactly one mailbox is installed for the allocated id and vacated again
    /// on either response or timeout, so the table leaves the call as it
    /// entered it.
    pub fn write_and_read<L: SerialLink>(
        &mut self,
        link: &mut L,
        msg: &mut CommMsg,
        timeout_ms: u32,
    ) -> (r: Result<CommMsg, PassthruError>)
        requires
            old(self).wf(),
            old(self).quiescent(),
            old(msg).wf(),
        ensures
            final(self).wf(),
            final(self).quiescent(),
            final(self).pending@ == old(self).pending@,
            final(self).is_running == old(self).is_running,
            final(msg).msg_type == old(msg).msg_type,
            final(msg).args@ == old(msg).args@,
            1 <= final(msg).msg_id <= 99,
            final(msg).msg_id == if old(self).msg_id_counter >= 99 {
                1u8
            } else {
                (old(self).msg_id_counter + 1) as u8
            },
            final(self).msg_id_counter == final(msg).msg_id,
            r matches Ok(m) ==> m.msg_id == final(msg).msg_id,
            r matches Err(e) ==> (e == PassthruError::ERR_FAILED || e
                == PassthruError::ERR_TIMEOUT),
    {
        let query_id = self.get_id();
        msg.msg_id = query_id;
        let bytes = msg.to_slice();
        if !link.send(&bytes) {
            return Err(PassthruError::ERR_FAILED);
        }
        self.install_mailbox(query_id);
        let resp = link.wait_response(query_id, timeout_ms);
        self.vacate_mailbox(query_id);
        proof {
            assert(self.pending@ =~= old(self).pending@);
        }
        match resp {
            // A frame with a foreign id is a stray; correlation is by id, never
            // by arrival order, so it is dropped like a response that never came.
            Some(m) => if m.msg_id == query_id {
                Ok(m)
            } else {
                Err(PassthruError::ERR_TIMEOUT)
            },
            None => Err(PassthruError::ERR_TIMEOUT),
        }
    }

    /// Sends a request and parses the response's status byte into an `M2Resp`;
    /// `parse_response` fixes exactly how the payload is read.
    pub fn write_and_read_ptcmd<L: SerialLink>(
        &mut self,
        link: &mut L,
        msg: &mut CommMsg,
        timeout_ms: u32,
    ) -> (r: M2Resp)
        requires
            old(self).wf(),
            old(self).quiescent(),
            old(msg).wf(),
        ensures
            final(self).wf(),
            final(self).quiescent(),
            final(self).pending@ == old(self).pending@,
            final(self).is_running == old(self).is_running,
            final(msg).msg_type == old(msg).msg_type,
            final(msg).args@ == old(msg).args@,
            r matches M2Resp::Failure { status, string } ==> status
                != PassthruError::STATUS_NOERROR,
    {
        match self.write_and_read(link, msg, timeout_ms) {
            Err(e) => M2Resp::Failure {
                status: e,
                string: "M2 communication failure".to_owned(),
            },
            Ok(resp) => parse_response(&resp),
        }
    }

    /// Asks the pump threads to exit.
    pub fn stop(&mut self)
        requires
            old(self).wf(),
        ensures
            final(self).wf(),
            !final(self).is_running,
            final(self).pending@ == old(self).pending@,
            final(self).msg_id_counter == old(self).msg_id_counter,
    {
        self.is_running = false;
    }
}

/// The decimal digit as text.
pub open spec fn spec_digit_str(d: int) -> Seq<char> {
    if d == 0 { "0"@ }
    else if d == 1 { "1"@ }
    else if d == 2 { "2"@ }
    else if d == 3 { "3"@ }
    else if d == 4 { "4"@ }
    else if d == 5 { "5"@ }
    else if d == 6 { "6"@ }
    else if d == 7 { "7"@ }
    else if d == 8 { "8"@ }
    else { "9"@ }
}

/// The decimal rendering of a byte, without leading zeros.
pub open spec fn spec_u8_decimal(v: int) -> Seq<char> {
    if v < 10 {
        spec_digit_str(v)
    } else if v < 100 {
        spec_digit_str(v / 10) + spec_digit_str(v % 10)
    } else {
        spec_digit_str(v / 100) + spec_digit_str((v / 10) % 10) + spec_digit_str(v % 10)
    }
}

/// The diagnostic for a status byte outside the J2534 enum.
pub open spec fn spec_unrecognized_status_text(code: u8) -> Seq<char> {
    "Unrecognized status "@ + spec_u8_decimal(code as int)
}

fn digit_str(d: u8) -> (r: String)
    requires
        d < 10,
    ensures
        r@ == spec_digit_str(d as int),
{
    if d == 0 { "0".to_owned() }
    else if d == 1 { "1".to_owned() }
    else if d == 2 { "2".to_owned() }
    else if d == 3 { "3".to_owned() }
    else if d == 4 { "4".to_owned() }
    else if d == 5 { "5".to_owned() }
    else if d == 6 { "6".to_owned() }
    else if d == 7 { "7".to_owned() }
    else if d == 8 { "8".to_owned() }
    else { "9".to_owned() }
}

/// Renders a byte in decimal, for diagnostics.
pub fn u8_decimal(v: u8) -> (r: String)
    ensures
        r@ == spec_u8_decimal(v as int),
{
    if v < 10 {
        digit_str(v)
    } else if v < 100 {
        let mut s = digit_str(v / 10);
        s.append(digit_str(v % 10).as_str());
        s
    } else {
        let mut s = digit_str(v / 100);
        s.append(digit_str((v / 10) % 10).as_str());
        s.append(digit_str(v % 10).as_str());
        s
    }
}

/// Reads a response frame per the wire convention: the first payload byte is
/// the status, the rest is the operation's data (on success) or UTF-8 error
/// text (on failure).
pub fn parse_response(resp: &CommMsg) -> (r: M2Resp)
    ensures
        r matches M2Resp::Failure { status, string } ==> status
            != PassthruError::STATUS_NOERROR,
        resp.args@.len() == 0 ==> (r matches M2Resp::Failure { status, string } && status
            == PassthruError::ERR_FAILED),
        resp.args@.len() > 0 ==> match spec_error_from_raw(resp.args@[0] as u32) {
            Option::None => r matches M2Resp::Failure { status, string } && status
                == PassthruError::ERR_FAILED && string@ == spec_unrecognized_status_text(
                resp.args@[0],
            ),
            Option::Some(st) => if st == PassthruError::STATUS_NOERROR {
                r matches M2Resp::Success(v) && v@ == resp.args@.skip(1)
            } else {
                r matches M2Resp::Failure { status, string } && status == st && string@
                    == utf8_text_of(resp.args@.skip(1))
            },
        },
{
    if resp.args.len() == 0 {
        return M2Resp::Failure {
            status: PassthruError::ERR_FAILED,
            string: "Empty response from adapter".to_owned(),
        };
    }
    let status_raw = resp.args[0] as u32;
    match PassthruError::from_raw(status_raw) {
        None => {
            let mut text = "Unrecognized status ".to_owned();
            text.append(u8_decimal(resp.args[0]).as_str());
            M2Resp::Failure { status: PassthruError::ERR_FAILED, string: text }
        },
        Some(st) => {
            proof {
                assert(resp.args@.subrange(1, resp.args@.len() as int) =~= resp.args@.skip(1));
            }
            if st == PassthruError::STATUS_NOERROR {
                let tail = vstd::slice::slice_to_vec(
                    vstd::slice::slice_subrange(resp.args.as_slice(), 1, resp.args.len()),
                );
                M2Resp::Success(tail)
            } else {
                let text = utf8_lossy(
                    vstd::slice::slice_subrange(resp.args.as_slice(), 1, resp.args.len()),
                );
                M2Resp::Failure { status: st, string: text }
            }
        },
    }
}

/// Where the reader hands one incoming frame: the log sink, the channel
/// dispatcher, a response mailbox, or nowhere.
pub enum FrameAction {
    LogText { text: String },
    ChannelData { msg: CommMsg },
    Response { id: u8, msg: CommMsg },
    Discard,
}

/// Classifies one frame read off the wire, as the reader thread must route it:
/// adapter log text to the log sink, unsolicited channel data to the
/// dispatcher, anything else to the mailbox its id names — and ids outside
/// 1..=99 are dropped.
pub fn classify_frame(msg: CommMsg) -> (r: FrameAction)
    ensures
        msg.msg_type == MsgType::LogMsg ==> (r matches FrameAction::LogText { text } && text@
            == utf8_text_of(msg.args@)),
        msg.msg_type == MsgType::ReceiveChannelData ==> (r matches FrameAction::ChannelData {
            msg: m,
        } && m == msg),
        msg.msg_type != MsgType::LogMsg && msg.msg_type != MsgType::ReceiveChannelData && 1
            <= msg.msg_id <= 99 ==> (r matches FrameAction::Response { id, msg: m } && id
            == msg.msg_id && m == msg),
        msg.msg_type != MsgType::LogMsg && msg.msg_type != MsgType::ReceiveChannelData && !(1
            <= msg.msg_id <= 99) ==> r is Discard,
{
    match msg.msg_type {
        MsgType::LogMsg => {
            let text = utf8_lossy(msg.args.as_slice());
            FrameAction::LogText { text }
        },
        MsgType::ReceiveChannelData => FrameAction::ChannelData { msg },
        _ => {
            if msg.msg_id >= 1 && msg.msg_id <= 99 {
                FrameAction::Response { id: msg.msg_id, msg }
            } else {
                FrameAction::Discard
            }
        },
    }
}

/// Law: installing the mailbox for one id marks exactly that id — every other
/// slot keeps its value — and vacating it on response or timeout restores the
/// table exactly.
pub proof fn lemma_mailbox_discipline(table: Seq<bool>, i: int)
    requires
        0 <= i < table.len(),
        !table[i],
    ensures
        table.update(i, true)[i],
        forall|j: int| 0 <= j < table.len() && j != i ==> table.update(i, true)[j] == table[j],
        table.update(i, true).update(i, false) == table,
{
    assert(table.update(i, true).update(i, false) =~= table);
}

} // verus!
