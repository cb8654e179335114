//! Serial frame codec.
//!
//! Every frame on the wire is `length (u16 LE) | msg_id (u8) | msg_type (u8) |
//! payload`, where the length field counts the id and type bytes together with
//! the payload.  The length-prefixed variant sends exactly those bytes; the
//! fixed-block variant pads each frame to an 8192-byte block.

use vstd::pervasive::VecAdditionalExecFns;
use vstd::prelude::*;

use crate::logger::{log_warn_str, Logger};

verus! {

/// Size of one fixed block on the wire.
pub const COMM_MSG_SIZE: usize = 8192;

/// Largest payload a frame may carry: a block minus the length, id and type bytes.
pub const COMM_MSG_ARG_SIZE: usize = COMM_MSG_SIZE - 4;

/// Message types of the wire protocol, as the adapter firmware defines them.
#[derive(Clone, Copy, Debug, PartialEq, Eq, Structural)]
pub enum MsgType {
    Unknown,
    LogMsg,
    OpenChannel,
    CloseChannel,
    SetChannelFilter,
    RemoveChannelFilter,
    TransmitChannelData,
    ReceiveChannelData,
    ReadBatt,
    IoctlSet,
    InitLinChannel,
    IoctlGet,
    StatusMsg,
    GetFwVersion,
}

pub open spec fn spec_msg_type_code(t: MsgType) -> u8 {
    match t {
        MsgType::Unknown => 0x00,
        MsgType::LogMsg => 0x01,
        MsgType::OpenChannel => 0x02,
        MsgType::CloseChannel => 0x03,
        MsgType::SetChannelFilter => 0x04,
        MsgType::RemoveChannelFilter => 0x05,
        MsgType::TransmitChannelData => 0x06,
        MsgType::ReceiveChannelData => 0x07,
        MsgType::ReadBatt => 0x08,
        MsgType::IoctlSet => 0x09,
        MsgType::InitLinChannel => 0x0A,
        MsgType::IoctlGet => 0x10,
        MsgType::StatusMsg => 0xAA,
        MsgType::GetFwVersion => 0xAB,
    }
}

pub open spec fn spec_msg_type_from_u8(v: u8) -> MsgType {
    if v == 0x01 { MsgType::LogMsg }
    else if v == 0x02 { MsgType::OpenChannel }
    else if v == 0x03 { MsgType::CloseChannel }
    else if v == 0x04 { MsgType::SetChannelFilter }
    else if v == 0x05 { MsgType::RemoveChannelFilter }
    else if v == 0x06 { MsgType::TransmitChannelData }
    else if v == 0x07 { MsgType::ReceiveChannelData }
    else if v == 0x08 { MsgType::ReadBatt }
    else if v == 0x09 { MsgType::IoctlSet }
    else if v == 0x0A { MsgType::InitLinChannel }
    else if v == 0x10 { MsgType::IoctlGet }
    else if v == 0xAA { MsgType::StatusMsg }
    else if v == 0xAB { MsgType::GetFwVersion }
    else { MsgType::Unknown }
}

impl MsgType {
    /// The raw type byte written on the wire.
    pub fn code(self) -> (r: u8)
        ensures
            r == spec_msg_type_code(self),
    {
        match self {
            MsgType::Unknown => 0x00,
            MsgType::LogMsg => 0x01,
            MsgType::OpenChannel => 0x02,
            MsgType::CloseChannel => 0x03,
            MsgType::SetChannelFilter => 0x04,
            MsgType::RemoveChannelFilter => 0x05,
            MsgType::TransmitChannelData => 0x06,
            MsgType::ReceiveChannelData => 0x07,
            MsgType::ReadBatt => 0x08,
            MsgType::IoctlSet => 0x09,
            MsgType::InitLinChannel => 0x0A,
            MsgType::IoctlGet => 0x10,
            MsgType::StatusMsg => 0xAA,
            MsgType::GetFwVersion => 0xAB,
        }
    }

    /// Reads a raw type byte; anything the firmware does not define is `Unknown`.
    pub fn from_u8(v: u8) -> (r: MsgType)
        ensures
            r == spec_msg_type_from_u8(v),
    {
        if v == 0x01 { MsgType::LogMsg }
        else if v == 0x02 { MsgType::OpenChannel }
        else if v == 0x03 { MsgType::CloseChannel }
        else if v == 0x04 { MsgType::SetChannelFilter }
        else if v == 0x05 { MsgType::RemoveChannelFilter }
        else if v == 0x06 { MsgType::TransmitChannelData }
        else if v == 0x07 { MsgType::ReceiveChannelData }
        else if v == 0x08 { MsgType::ReadBatt }
        else if v == 0x09 { MsgType::IoctlSet }
        else if v == 0x0A { MsgType::InitLinChannel }
        else if v == 0x10 { MsgType::IoctlGet }
        else if v == 0xAA { MsgType::StatusMsg }
        else if v == 0xAB { MsgType::GetFwVersion }
        else { MsgType::Unknown }
    }
}

/// Reading the type byte of any `MsgType` gives that `MsgType` back.
pub proof fn lemma_msg_type_code_inverse(t: MsgType)
    ensures
        spec_msg_type_from_u8(spec_msg_type_code(t)) == t,
{
}

// ----------------------------------------------------------------------------
// Little-endian integers
// ----------------------------------------------------------------------------

/// Value of two little-endian bytes.
pub open spec fn le16(s: Seq<u8>) -> int
    recommends
        s.len() == 2,
{
    s[0] + 256 * s[1]
}

/// Value of four little-endian bytes.
pub open spec fn le32(s: Seq<u8>) -> int
    recommends
        s.len() == 4,
{
    s[0] + 256 * s[1] + 65536 * s[2] + 16777216 * s[3]
}

/// The two little-endian bytes of a 16-bit value.
pub open spec fn spec_u16_le(v: u16) -> Seq<u8> {
    seq![(v % 256) as u8, (v / 256) as u8]
}

/// The four little-endian bytes of a 32-bit value.
pub open spec fn spec_u32_le(v: u32) -> Seq<u8> {
    seq![
        (v % 256) as u8,
        ((v / 256) % 256) as u8,
        ((v / 65536) % 256) as u8,
        ((v / 16777216) % 256) as u8,
    ]
}

/// Encoding a 16-bit value and reading it back is the identity.
pub proof fn lemma_u16_le_roundtrip(v: u16)
    ensures
        le16(spec_u16_le(v)) == v,
{
    assert((v % 256) + 256 * (v / 256) == v) by (nonlinear_arith);
}

/// Encoding a 32-bit value and reading it back is the identity.
pub proof fn lemma_u32_le_roundtrip(v: u32)
    ensures
        le32(spec_u32_le(v)) == v,
{
    assert((v % 256) + 256 * ((v / 256) % 256) + 65536 * ((v / 65536) % 256) + 16777216 * ((v
        / 16777216) % 256) == v) by (nonlinear_arith);
}

/// Two little-endian bytes encode their own value: reading then writing is the identity.
pub proof fn lemma_u16_le_inverse(s: Seq<u8>)
    requires
        s.len() == 2,
    ensures
        0 <= le16(s) < 65536,
        spec_u16_le(le16(s) as u16) == s,
{
    let v = le16(s);
    assert(0 <= v < 65536);
    assert(v as u16 == v);
    assert((v % 256) == s[0] && (v / 256) == s[1]) by (nonlinear_arith)
        requires
            v == s[0] + 256 * s[1],
            0 <= s[0] < 256,
            0 <= s[1] < 256,
    ;
    assert(spec_u16_le(v as u16) =~= s);
}

/// Appends the two little-endian bytes of `v`.
pub fn push_u16_le(dst: &mut Vec<u8>, v: u16)
    ensures
        final(dst)@ == old(dst)@ + spec_u16_le(v),
{
    dst.push((v % 256) as u8);
    dst.push((v / 256) as u8);
    assert(dst@ =~= old(dst)@ + spec_u16_le(v));
}

/// Appends the four little-endian bytes of `v`.
pub fn push_u32_le(dst: &mut Vec<u8>, v: u32)
    ensures
        final(dst)@ == old(dst)@ + spec_u32_le(v),
{
    dst.push((v % 256) as u8);
    dst.push(((v / 256) % 256) as u8);
    dst.push(((v / 65536) % 256) as u8);
    dst.push(((v / 16777216) % 256) as u8);
    assert(dst@ =~= old(dst)@ + spec_u32_le(v));
}

/// Appends every byte of `src`.
pub fn push_bytes(dst: &mut Vec<u8>, src: &[u8])
    ensures
        final(dst)@ == old(dst)@ + src@,
{
    let mut k: usize = 0;
    while k < src.len()
        invariant
            k <= src@.len(),
            dst@ == old(dst)@ + src@.take(k as int),
        decreases src@.len() - k,
    {
        let v = src[k];
        dst.push(v);
        proof {
            assert(src@.take(k + 1) =~= src@.take(k as int) + seq![src@[k as int]]);
            assert(dst@ =~= old(dst)@ + src@.take(k + 1));
        }
        k += 1;
    }
    proof {
        assert(src@.take(src@.len() as int) =~= src@);
        assert(dst@ =~= old(dst)@ + src@);
    }
}

/// Reads a 16-bit little-endian value at offset `i`.
pub fn read_u16_le(b: &[u8], i: usize) -> (r: u16)
    requires
        i + 2 <= b@.len(),
    ensures
        r == le16(b@.subrange(i as int, i + 2)),
{
    let lo = b[i];
    let hi = b[i + 1];
    let r = lo as u16 + 256 * (hi as u16);
    proof {
        let s = b@.subrange(i as int, i + 2);
        assert(s[0] == b@[i as int] && s[1] == b@[i + 1]);
    }
    r
}

/// Reads a 32-bit little-endian value at offset `i`.
pub fn read_u32_le(b: &[u8], i: usize) -> (r: u32)
    requires
        i + 4 <= b@.len(),
    ensures
        r == le32(b@.subrange(i as int, i + 4)),
{
    let b0 = b[i] as u32;
    let b1 = b[i + 1] as u32;
    let b2 = b[i + 2] as u32;
    let b3 = b[i + 3] as u32;
    let r = b0 + 256 * b1 + 65536 * b2 + 16777216 * b3;
    proof {
        let s = b@.subrange(i as int, i + 4);
        assert(s[0] == b@[i as int] && s[1] == b@[i + 1] && s[2] == b@[i + 2] && s[3] == b@[i + 3]);
    }
    r
}

// ----------------------------------------------------------------------------
// Frames
// ----------------------------------------------------------------------------

/// One frame exchanged with the adapter: a correlation id, a type, and a payload.
#[derive(Clone, Debug)]
pub struct CommMsg {
    /// Correlation id: 0 for fire-and-forget, 1..=99 for requests awaiting a reply.
    pub msg_id: u8,
    /// Message type.
    pub msg_type: MsgType,
    /// Payload bytes.
    pub args: Vec<u8>,
}

/// The wire bytes of a frame with the given fields.
pub open spec fn spec_frame_bytes(id: u8, t: MsgType, args: Seq<u8>) -> Seq<u8> {
    spec_u16_le((args.len() + 2) as u16) + seq![id, spec_msg_type_code(t)] + args
}

impl CommMsg {
    /// A frame is well formed when its payload fits one block.
    pub open spec fn wf(self) -> bool {
        self.args@.len() <= COMM_MSG_ARG_SIZE
    }

    /// The exact bytes this frame occupies on the wire (length-prefixed variant).
    pub open spec fn spec_bytes(self) -> Seq<u8> {
        spec_frame_bytes(self.msg_id, self.msg_type, self.args@)
    }

    /// An empty frame of the given type, not yet assigned a correlation id.
    pub fn new(msg_type: MsgType) -> (r: CommMsg)
        ensures
            r.msg_id == 0,
            r.msg_type == msg_type,
            r.args@ == Seq::<u8>::empty(),
            r.wf(),
    {
        CommMsg { msg_id: 0, msg_type, args: Vec::new() }
    }

    /// A frame of the given type carrying `args_array`, truncated to the
    /// largest payload a block can hold.
    pub fn new_with_args(msg_type: MsgType, args_array: &[u8]) -> (r: CommMsg)
        ensures
            r.msg_id == 0,
            r.msg_type == msg_type,
            r.args@ == if args_array@.len() <= COMM_MSG_ARG_SIZE {
                args_array@
            } else {
                args_array@.subrange(0, COMM_MSG_ARG_SIZE as int)
            },
            r.wf(),
    {
        let n = args_array.len();
        let max_copy = if n < COMM_MSG_ARG_SIZE {
            n
        } else {
            COMM_MSG_ARG_SIZE
        };
        let args = vstd::slice::slice_to_vec(vstd::slice::slice_subrange(args_array, 0, max_copy));
        proof {
            if args_array@.len() <= COMM_MSG_ARG_SIZE {
                assert(args_array@.subrange(0, max_copy as int) =~= args_array@);
            }
        }
        CommMsg { msg_id: 0, msg_type, args }
    }

    /// Overwrites the front of the payload in place with `args`, which must fit
    /// in the payload already held.
    pub fn put_args(&mut self, args: &[u8])
        requires
            args@.len() <= old(self).args@.len() || COMM_MSG_ARG_SIZE <= old(self).args@.len(),
        ensures
            final(self).msg_id == old(self).msg_id,
            final(self).msg_type == old(self).msg_type,
            final(self).args@.len() == old(self).args@.len(),
            ({
                let n = if args@.len() <= COMM_MSG_ARG_SIZE {
                    args@.len() as int
                } else {
                    COMM_MSG_ARG_SIZE as int
                };
                final(self).args@ == args@.subrange(0, n) + old(self).args@.skip(n)
            }),
    {
        let n = args.len();
        let max_copy = if n < COMM_MSG_ARG_SIZE {
            n
        } else {
            COMM_MSG_ARG_SIZE
        };
        let mut k: usize = 0;
        while k < max_copy
            invariant
                k <= max_copy,
                max_copy <= args@.len(),
                max_copy <= self.args@.len(),
                self.args@.len() == old(self).args@.len(),
                self.msg_id == old(self).msg_id,
                self.msg_type == old(self).msg_type,
                forall|i: int| 0 <= i < k ==> self.args@[i] == args@[i],
                forall|i: int| k <= i < self.args@.len() ==> self.args@[i] == old(self).args@[i],
            decreases max_copy - k,
        {
            let v = args[k];
            self.args.set(k, v);
            k += 1;
        }
        assert(self.args@ =~= args@.subrange(0, max_copy as int) + old(self).args@.skip(
            max_copy as int,
        ));
    }

    /// Changes the message type, leaving id and payload alone.
    pub fn set_type(&mut self, msg_type: MsgType)
        ensures
            final(self).msg_id == old(self).msg_id,
            final(self).msg_type == msg_type,
            final(self).args@ == old(self).args@,
    {
        self.msg_type = msg_type;
    }

    /// Encodes the frame into its exact wire bytes (length-prefixed variant).
    pub fn to_slice(&self) -> (r: Vec<u8>)
        requires
            self.wf(),
        ensures
            r@ == self.spec_bytes(),
            r@.len() == self.args@.len() + 4,
    {
        let mut out: Vec<u8> = Vec::new();
        let len_field = (self.args.len() + 2) as u16;
        push_u16_le(&mut out, len_field);
        out.push(self.msg_id);
        out.push(self.msg_type.code());
        let mut k: usize = 0;
        while k < self.args.len()
            invariant
                k <= self.args@.len(),
                self.wf(),
                out@ == spec_u16_le((self.args@.len() + 2) as u16) + seq![
                    self.msg_id,
                    spec_msg_type_code(self.msg_type),
                ] + self.args@.take(k as int),
            decreases self.args@.len() - k,
        {
            let v = self.args[k];
            out.push(v);
            proof {
                assert(self.args@.take(k + 1) =~= self.args@.take(k as int) + seq![self.args@[k as int]]);
                assert(out@ =~= spec_u16_le((self.args@.len() + 2) as u16) + seq![
                    self.msg_id,
                    spec_msg_type_code(self.msg_type),
                ] + self.args@.take(k + 1));
            }
            k += 1;
        }
        proof {
            assert(self.args@.take(self.args@.len() as int) =~= self.args@);
            assert(out@ =~= self.spec_bytes());
        }
        out
    }

    /// Encodes the frame into one fixed 8192-byte block, zero-padded after the
    /// frame bytes (fixed-block variant).
    pub fn to_block(&self) -> (r: Vec<u8>)
        requires
            self.wf(),
        ensures
            r@.len() == COMM_MSG_SIZE,
            r@.subrange(0, self.spec_bytes().len() as int) == self.spec_bytes(),
            forall|i: int| self.spec_bytes().len() <= i < COMM_MSG_SIZE ==> r@[i] == 0u8,
    {
        let mut out = self.to_slice();
        while out.len() < COMM_MSG_SIZE
            invariant
                self.spec_bytes().len() <= out@.len() <= COMM_MSG_SIZE,
                out@.subrange(0, self.spec_bytes().len() as int) == self.spec_bytes(),
                forall|i: int| self.spec_bytes().len() <= i < out@.len() ==> out@[i] == 0u8,
            decreases COMM_MSG_SIZE - out@.len(),
        {
            out.push(0u8);
            assert(out@.subrange(0, self.spec_bytes().len() as int) =~= self.spec_bytes());
        }
        out
    }
}

// ----------------------------------------------------------------------------
// Decoding
// ----------------------------------------------------------------------------

/// What decoding a byte string yields: a frame with the number of bytes it
/// consumed, a request for more bytes, or a malformed prefix.
pub enum DecodeOutcome {
    Frame { msg: CommMsg, used: usize },
    NeedMore,
    Malformed,
}

/// Total frame size announced by the length field: the two length bytes plus
/// the length value itself.
pub open spec fn spec_frame_total_len(b: Seq<u8>) -> int
    recommends
        b.len() >= 2,
{
    2 + le16(b.subrange(0, 2))
}

/// The length field is out of range: shorter than the id and type bytes, or
/// longer than a block can carry.
pub open spec fn spec_decode_malformed(b: Seq<u8>) -> bool {
    b.len() >= 2 && !(2 <= le16(b.subrange(0, 2)) <= 2 + COMM_MSG_ARG_SIZE)
}

/// The byte string starts with a complete, well-sized frame.
pub open spec fn spec_decode_ready(b: Seq<u8>) -> bool {
    &&& b.len() >= 2
    &&& 2 <= le16(b.subrange(0, 2)) <= 2 + COMM_MSG_ARG_SIZE
    &&& b.len() >= spec_frame_total_len(b)
}

pub open spec fn spec_frame_id(b: Seq<u8>) -> u8
    recommends
        spec_decode_ready(b),
{
    b[2]
}

pub open spec fn spec_frame_type(b: Seq<u8>) -> MsgType
    recommends
        spec_decode_ready(b),
{
    spec_msg_type_from_u8(b[3])
}

pub open spec fn spec_frame_args(b: Seq<u8>) -> Seq<u8>
    recommends
        spec_decode_ready(b),
{
    b.subrange(4, spec_frame_total_len(b))
}

/// A byte string that is exactly one frame whose type byte the firmware
/// defines.
pub open spec fn spec_wf_frame_bytes(b: Seq<u8>) -> bool {
    &&& spec_decode_ready(b)
    &&& b.len() == spec_frame_total_len(b)
    &&& spec_msg_type_code(spec_msg_type_from_u8(b[3])) == b[3]
}

impl CommMsg {
    /// Decodes one frame from the front of `buf`.
    pub fn from_vec(buf: &[u8]) -> (r: DecodeOutcome)
        ensures
            buf@.len() < 2 ==> r is NeedMore,
            spec_decode_malformed(buf@) ==> r is Malformed,
            r is Malformed ==> spec_decode_malformed(buf@),
            buf@.len() >= 2 && !spec_decode_malformed(buf@) && buf@.len() < spec_frame_total_len(
                buf@,
            ) ==> r is NeedMore,
            r is Frame ==> spec_decode_ready(buf@),
            spec_decode_ready(buf@) ==> (r matches DecodeOutcome::Frame { msg, used }
                && used == spec_frame_total_len(buf@)
                && msg.msg_id == spec_frame_id(buf@)
                && msg.msg_type == spec_frame_type(buf@)
                && msg.args@ == spec_frame_args(buf@)
                && msg.wf()),
    {
        if buf.len() < 2 {
            return DecodeOutcome::NeedMore;
        }
        let len_field = read_u16_le(buf, 0) as usize;
        if len_field < 2 || len_field > 2 + COMM_MSG_ARG_SIZE {
            return DecodeOutcome::Malformed;
        }
        if buf.len() < 2 + len_field {
            return DecodeOutcome::NeedMore;
        }
        let used = 2 + len_field;
        let msg_id = buf[2];
        let msg_type = MsgType::from_u8(buf[3]);
        let args = vstd::slice::slice_to_vec(vstd::slice::slice_subrange(buf, 4, used));
        let msg = CommMsg { msg_id, msg_type, args };
        DecodeOutcome::Frame { msg, used }
    }

    /// Decodes the frame held in one fixed 8192-byte block, ignoring the
    /// padding after it; `None` when the length field is out of range.
    pub fn from_block(buf: &[u8]) -> (r: Option<CommMsg>)
        requires
            buf@.len() == COMM_MSG_SIZE,
        ensures
            spec_decode_ready(buf@) ==> (r matches Some(msg) && msg.msg_id == spec_frame_id(buf@)
                && msg.msg_type == spec_frame_type(buf@) && msg.args@ == spec_frame_args(buf@)
                && msg.wf()),
            !spec_decode_ready(buf@) ==> r is None,
    {
        match CommMsg::from_vec(buf) {
            DecodeOutcome::Frame { msg, used: _ } => Some(msg),
            DecodeOutcome::NeedMore => None,
            DecodeOutcome::Malformed => None,
        }
    }
}

/// Law: re-encoding the frame decoded from a well-formed frame byte string
/// yields exactly the original bytes.
pub proof fn lemma_encode_decode_roundtrip(b: Seq<u8>)
    requires
        spec_wf_frame_bytes(b),
    ensures
        spec_frame_bytes(spec_frame_id(b), spec_frame_type(b), spec_frame_args(b)) == b,
{
    let n = spec_frame_total_len(b);
    let args = spec_frame_args(b);
    assert(args.len() == n - 4);
    assert(le16(b.subrange(0, 2)) == n - 2);
    lemma_u16_le_inverse(b.subrange(0, 2));
    assert((args.len() + 2) as u16 == n - 2);
    assert(spec_u16_le((args.len() + 2) as u16) == b.subrange(0, 2));
    assert(spec_frame_bytes(spec_frame_id(b), spec_frame_type(b), args) =~= b);
}

/// Law: decoding the encoding of any well-formed frame returns the frame.
pub proof fn lemma_decode_encode_roundtrip(id: u8, t: MsgType, args: Seq<u8>)
    requires
        args.len() <= COMM_MSG_ARG_SIZE,
    ensures
        spec_wf_frame_bytes(spec_frame_bytes(id, t, args)),
        spec_frame_id(spec_frame_bytes(id, t, args)) == id,
        spec_frame_type(spec_frame_bytes(id, t, args)) == t,
        spec_frame_args(spec_frame_bytes(id, t, args)) == args,
{
    let b = spec_frame_bytes(id, t, args);
    let v = (args.len() + 2) as u16;
    assert(args.len() + 2 < 65536);
    assert(v == args.len() + 2);
    lemma_u16_le_roundtrip(v);
    assert(b.subrange(0, 2) =~= spec_u16_le(v));
    assert(le16(b.subrange(0, 2)) == args.len() + 2);
    assert(b.len() == args.len() + 4);
    assert(spec_frame_total_len(b) == args.len() + 4);
    assert(b[2] == id);
    assert(b[3] == spec_msg_type_code(t));
    lemma_msg_type_code_inverse(t);
    assert(spec_frame_args(b) =~= args);
}

// ----------------------------------------------------------------------------
// Stream extraction
// ----------------------------------------------------------------------------

/// The frames obtained by repeatedly decoding the front of a byte stream:
/// the decoded frame fields in order, the bytes left waiting for more input,
/// and whether a malformed prefix was hit (which empties the buffer).
pub open spec fn spec_extract(b: Seq<u8>) -> (Seq<(u8, MsgType, Seq<u8>)>, Seq<u8>, bool)
    decreases b.len(),
{
    if spec_decode_ready(b) {
        let n = spec_frame_total_len(b);
        let rest = spec_extract(b.skip(n));
        (seq![(spec_frame_id(b), spec_frame_type(b), spec_frame_args(b))] + rest.0, rest.1, rest.2)
    } else if spec_decode_malformed(b) {
        (Seq::empty(), Seq::empty(), true)
    } else {
        (Seq::empty(), b, false)
    }
}

/// Drains every complete frame from the front of `buf` (length-prefixed
/// variant).  A malformed length field empties the buffer and logs a warning;
/// otherwise the incomplete tail stays for the next read.
pub fn extract_frames(buf: &mut Vec<u8>, log: &mut Logger) -> (r: Vec<CommMsg>)
    ensures
        r@.map_values(|m: CommMsg| (m.msg_id, m.msg_type, m.args@)) == spec_extract(
            old(buf)@,
        ).0,
        final(buf)@ == spec_extract(old(buf)@).1,
        spec_extract(old(buf)@).2 ==> crate::logger::spec_logged(
            old(log).lines@,
            final(log).lines@,
            crate::logger::LogLevel::Warn,
        ),
        !spec_extract(old(buf)@).2 ==> final(log).lines@ == old(log).lines@,
        forall|i: int| 0 <= i < r@.len() ==> (#[trigger] r@[i]).wf(),
{
    let mut out: Vec<CommMsg> = Vec::new();
    let mut pos: usize = 0;
    proof {
        assert(buf@.skip(0) =~= buf@);
        assert(out@.map_values(|m: CommMsg| (m.msg_id, m.msg_type, m.args@)) =~= Seq::<(
            u8,
            MsgType,
            Seq<u8>,
        )>::empty());
        assert(Seq::<(u8, MsgType, Seq<u8>)>::empty() + spec_extract(buf@).0 =~= spec_extract(
            buf@,
        ).0);
    }
    loop
        invariant
            pos <= buf@.len(),
            buf@ == old(buf)@,
            log.lines@ == old(log).lines@,
            spec_extract(old(buf)@).0 == out@.map_values(|m: CommMsg| (m.msg_id, m.msg_type, m.args@))
                + spec_extract(buf@.skip(pos as int)).0,
            spec_extract(old(buf)@).1 == spec_extract(buf@.skip(pos as int)).1,
            spec_extract(old(buf)@).2 == spec_extract(buf@.skip(pos as int)).2,
            forall|i: int| 0 <= i < out@.len() ==> (#[trigger] out@[i]).wf(),
        decreases buf@.len() - pos,
    {
        let tail = vstd::slice::slice_subrange(buf.as_slice(), pos, buf.len());
        match CommMsg::from_vec(tail) {
            DecodeOutcome::Frame { msg, used } => {
                proof {
                    let t = buf@.skip(pos as int);
                    assert(spec_decode_ready(t));
                    assert(t.skip(spec_frame_total_len(t)) =~= buf@.skip(pos + used));
                    assert((out@.push(msg)).map_values(|m: CommMsg| (m.msg_id, m.msg_type, m.args@))
                        =~= out@.map_values(|m: CommMsg| (m.msg_id, m.msg_type, m.args@)).push(
                        (msg.msg_id, msg.msg_type, msg.args@)));
                    assert(out@.map_values(|m: CommMsg| (m.msg_id, m.msg_type, m.args@)).push(
                        (msg.msg_id, msg.msg_type, msg.args@)) + spec_extract(buf@.skip(pos + used)).0
                        =~= out@.map_values(|m: CommMsg| (m.msg_id, m.msg_type, m.args@)) + spec_extract(t).0);
                }
                out.push(msg);
                pos = pos + used;
            },
            DecodeOutcome::NeedMore => {
                let rest = vstd::slice::slice_to_vec(
                    vstd::slice::slice_subrange(buf.as_slice(), pos, buf.len()),
                );
                proof {
                    assert(buf@.subrange(pos as int, buf@.len() as int) =~= buf@.skip(pos as int));
                }
                *buf = rest;
                return out;
            },
            DecodeOutcome::Malformed => {
                log_warn_str(log, "Malformed frame received; dropping buffered bytes");
                *buf = Vec::new();
                assert(buf@ =~= Seq::<u8>::empty());
                return out;
            },
        }
    }
}

/// Law: a stream that starts with the encoding of a well-formed frame decodes
/// to exactly that frame followed by whatever the rest of the stream yields.
pub proof fn lemma_extract_frame_prefix(id: u8, t: MsgType, args: Seq<u8>, rest: Seq<u8>)
    requires
        args.len() <= COMM_MSG_ARG_SIZE,
    ensures
        ({
            let b = spec_frame_bytes(id, t, args) + rest;
            &&& spec_extract(b).0 == seq![(id, t, args)] + spec_extract(rest).0
            &&& spec_extract(b).1 == spec_extract(rest).1
            &&& spec_extract(b).2 == spec_extract(rest).2
        }),
{
    let f = spec_frame_bytes(id, t, args);
    let b = f + rest;
    lemma_decode_encode_roundtrip(id, t, args);
    assert(b.subrange(0, 2) =~= f.subrange(0, 2));
    assert(spec_decode_ready(b));
    let n = spec_frame_total_len(b);
    assert(n == f.len());
    assert(spec_frame_id(b) == id);
    assert(spec_frame_type(b) == spec_msg_type_from_u8(f[3]));
    lemma_msg_type_code_inverse(t);
    assert(spec_frame_args(b) =~= args);
    assert(b.skip(n) =~= rest);
}

} // verus!
