//! Logical bus channels.
//!
//! Four exclusive channel slots, one per protocol family, each with a ten-slot
//! filter table and a bounded receive queue.  Commands that reach the adapter
//! go through the transport; everything the library decides — slot
//! exclusivity, filter allocation, the drop-newest queue policy, protocol
//! checks, and the exact command payloads — is verified.

use std::collections::VecDeque;

use vstd::pervasive::VecAdditionalExecFns;
use vstd::prelude::*;

use crate::comm::{spec_transport_preserved, M2Resp, MacchinaM2, SerialLink};
use crate::frame::{le32, push_bytes, push_u32_le, read_u32_le, spec_u32_le, CommMsg, MsgType};
use crate::j2534::{
    spec_filter_type_code, spec_protocol_code, FilterType, PassthruError, PassthruMsg, Protocol,
    PASSTHRU_MSG_DATA_SIZE,
};
use crate::logger::{log_error, log_warn_str, spec_logged, LogLevel, Logger};
use crate::passthru_drv::set_error_string;

verus! {

/// Filter slots per channel, fixed by the J2534 specification.
pub const MAX_FILTERS_PER_CHANNEL: usize = 10;

/// Receive-queue bound per channel; a frame arriving at a full queue is dropped.
pub const MAX_QUEUE_MSGS: usize = 500;

/// Number of channel families, and so of channel slots.
pub const NUM_CHANNELS: usize = 4;

/// The four protocol families; a channel's id is its family's index.
#[derive(Clone, Copy, Debug, PartialEq, Eq, Structural)]
pub enum ChannelID {
    Can,
    Kline,
    J1850,
    Sci,
}

pub open spec fn spec_channel_index(c: ChannelID) -> u32 {
    match c {
        ChannelID::Can => 0,
        ChannelID::Kline => 1,
        ChannelID::J1850 => 2,
        ChannelID::Sci => 3,
    }
}

/// Every protocol maps to exactly one family; the mapping is total.
pub open spec fn spec_family_of(p: Protocol) -> ChannelID {
    match p {
        Protocol::ISO15765 | Protocol::CAN => ChannelID::Can,
        Protocol::ISO14230 | Protocol::ISO9141 => ChannelID::Kline,
        Protocol::J1850PWM | Protocol::J1850VPW => ChannelID::J1850,
        Protocol::SCI_A_ENGINE | Protocol::SCI_A_TRANS | Protocol::SCI_B_ENGINE
            | Protocol::SCI_B_TRANS => ChannelID::Sci,
    }
}

impl ChannelID {
    /// The family's index, which is the channel id the host sees.
    pub fn index(self) -> (r: u32)
        ensures
            r == spec_channel_index(self),
            r < 4,
    {
        match self {
            ChannelID::Can => 0,
            ChannelID::Kline => 1,
            ChannelID::J1850 => 2,
            ChannelID::Sci => 3,
        }
    }

    /// Reads a channel id from the host; ids outside 0..=3 are invalid.
    pub fn from_u32(id: u32) -> (r: Result<ChannelID, PassthruError>)
        ensures
            id < 4 ==> (r matches Ok(c) && spec_channel_index(c) == id),
            id >= 4 ==> (r matches Err(e) && e == PassthruError::ERR_INVALID_CHANNEL_ID),
    {
        if id == 0 { Ok(ChannelID::Can) }
        else if id == 1 { Ok(ChannelID::Kline) }
        else if id == 2 { Ok(ChannelID::J1850) }
        else if id == 3 { Ok(ChannelID::Sci) }
        else { Err(PassthruError::ERR_INVALID_CHANNEL_ID) }
    }

    /// The family a protocol belongs to.
    pub fn from_protocol(id: Protocol) -> (r: ChannelID)
        ensures
            r == spec_family_of(id),
    {
        match id {
            Protocol::ISO15765 | Protocol::CAN => ChannelID::Can,
            Protocol::ISO14230 | Protocol::ISO9141 => ChannelID::Kline,
            Protocol::J1850PWM | Protocol::J1850VPW => ChannelID::J1850,
            Protocol::SCI_A_ENGINE | Protocol::SCI_A_TRANS | Protocol::SCI_B_ENGINE
                | Protocol::SCI_B_TRANS => ChannelID::Sci,
        }
    }
}

// ----------------------------------------------------------------------------
// Command payloads
// ----------------------------------------------------------------------------

/// `OpenChannel` payload: id, protocol, baud and flags, each 32-bit little-endian.
pub open spec fn spec_open_channel_payload(
    id: u32,
    protocol: Protocol,
    baud: u32,
    flags: u32,
) -> Seq<u8> {
    spec_u32_le(id) + spec_u32_le(spec_protocol_code(protocol)) + spec_u32_le(baud) + spec_u32_le(
        flags,
    )
}

/// `SetChannelFilter` payload: six little-endian words — channel, slot, kind,
/// and the three byte lengths — then mask, pattern and flow-control bytes.
pub open spec fn spec_filter_payload(
    id: u32,
    slot: u32,
    kind: FilterType,
    mask: Seq<u8>,
    ptn: Seq<u8>,
    fc: Seq<u8>,
) -> Seq<u8> {
    spec_u32_le(id) + spec_u32_le(slot) + spec_u32_le(spec_filter_type_code(kind)) + spec_u32_le(
        mask.len() as u32,
    ) + spec_u32_le(ptn.len() as u32) + spec_u32_le(fc.len() as u32) + mask + ptn + fc
}

/// `RemoveChannelFilter` payload: channel id and slot, 32-bit little-endian.
pub open spec fn spec_remove_filter_payload(id: u32, slot: u32) -> Seq<u8> {
    spec_u32_le(id) + spec_u32_le(slot)
}

/// `CloseChannel` payload: the channel id, 32-bit little-endian.
pub open spec fn spec_close_channel_payload(id: u32) -> Seq<u8> {
    spec_u32_le(id)
}

/// `TransmitChannelData` payload: channel id and tx flags, then the data bytes.
pub open spec fn spec_transmit_payload(id: u32, tx_flags: u32, data: Seq<u8>) -> Seq<u8> {
    spec_u32_le(id) + spec_u32_le(tx_flags) + data
}

/// `IoctlSet` payload: the channel id as one byte, then parameter and value.
pub open spec fn spec_ioctl_set_payload(id: u32, param: u32, value: u32) -> Seq<u8> {
    seq![id as u8] + spec_u32_le(param) + spec_u32_le(value)
}

/// `IoctlGet` payload: the channel id as one byte, then the parameter.
pub open spec fn spec_ioctl_get_payload(id: u32, param: u32) -> Seq<u8> {
    seq![id as u8] + spec_u32_le(param)
}

/// Builds the exact `TransmitChannelData` payload.
pub fn build_transmit_payload(id: u32, tx_flags: u32, data: &[u8]) -> (r: Vec<u8>)
    ensures
        r@ == spec_transmit_payload(id, tx_flags, data@),
{
    let mut dst: Vec<u8> = Vec::new();
    push_u32_le(&mut dst, id);
    push_u32_le(&mut dst, tx_flags);
    push_bytes(&mut dst, data);
    assert(dst@ =~= spec_transmit_payload(id, tx_flags, data@));
    dst
}

/// Builds the exact `SetChannelFilter` payload.  Each byte string fits the
/// host-message buffer, as the ABI guarantees.
pub fn build_filter_payload(
    id: u32,
    slot: u32,
    kind: FilterType,
    mask: &[u8],
    ptn: &[u8],
    fc: &[u8],
) -> (r: Vec<u8>)
    requires
        mask@.len() <= PASSTHRU_MSG_DATA_SIZE,
        ptn@.len() <= PASSTHRU_MSG_DATA_SIZE,
        fc@.len() <= PASSTHRU_MSG_DATA_SIZE,
    ensures
        r@ == spec_filter_payload(id, slot, kind, mask@, ptn@, fc@),
{
    let mut dst: Vec<u8> = Vec::new();
    push_u32_le(&mut dst, id);
    push_u32_le(&mut dst, slot);
    push_u32_le(&mut dst, kind.code());
    push_u32_le(&mut dst, mask.len() as u32);
    push_u32_le(&mut dst, ptn.len() as u32);
    push_u32_le(&mut dst, fc.len() as u32);
    push_bytes(&mut dst, mask);
    push_bytes(&mut dst, ptn);
    push_bytes(&mut dst, fc);
    assert(dst@ =~= spec_filter_payload(id, slot, kind, mask@, ptn@, fc@));
    dst
}

/// Builds the exact `OpenChannel` payload.
pub fn build_open_channel_payload(id: u32, protocol: Protocol, baud: u32, flags: u32) -> (r: Vec<
    u8,
>)
    ensures
        r@ == spec_open_channel_payload(id, protocol, baud, flags),
{
    let mut dst: Vec<u8> = Vec::new();
    push_u32_le(&mut dst, id);
    push_u32_le(&mut dst, protocol.code());
    push_u32_le(&mut dst, baud);
    push_u32_le(&mut dst, flags);
    assert(dst@ =~= spec_open_channel_payload(id, protocol, baud, flags));
    dst
}

/// Builds the exact `IoctlSet` payload.
pub fn build_ioctl_set_payload(id: u32, param: u32, value: u32) -> (r: Vec<u8>)
    requires
        id < 256,
    ensures
        r@ == spec_ioctl_set_payload(id, param, value),
{
    let mut dst: Vec<u8> = Vec::new();
    dst.push(id as u8);
    push_u32_le(&mut dst, param);
    push_u32_le(&mut dst, value);
    assert(dst@ =~= spec_ioctl_set_payload(id, param, value));
    dst
}

/// Builds the exact `IoctlGet` payload.
pub fn build_ioctl_get_payload(id: u32, param: u32) -> (r: Vec<u8>)
    requires
        id < 256,
    ensures
        r@ == spec_ioctl_get_payload(id, param),
{
    let mut dst: Vec<u8> = Vec::new();
    dst.push(id as u8);
    push_u32_le(&mut dst, param);
    assert(dst@ =~= spec_ioctl_get_payload(id, param));
    dst
}

/// Reads the 4-byte little-endian value an `IoctlGet` response must carry;
/// any other length is a fault of the adapter.
pub fn parse_ioctl_value(v: &Vec<u8>) -> (r: Result<u32, PassthruError>)
    ensures
        v@.len() == 4 ==> (r matches Ok(x) && x == le32(v@)),
        v@.len() != 4 ==> (r matches Err(e) && e == PassthruError::ERR_FAILED),
{
    if v.len() != 4 {
        Err(PassthruError::ERR_FAILED)
    } else {
        let x = read_u32_le(v.as_slice(), 0);
        proof {
            assert(v@.subrange(0, 4) =~= v@);
        }
        Ok(x)
    }
}

// ----------------------------------------------------------------------------
// Channel
// ----------------------------------------------------------------------------

/// One logical bus channel.
#[derive(Debug)]
pub struct Channel {
    /// The family index, 0..=3; this is the channel id the host sees.
    pub id: u32,
    /// The exact protocol chosen at creation.
    pub protocol: Protocol,
    pub baud_rate: u32,
    pub flags: u32,
    /// Ten filter slots; a used slot holds `true`.
    pub filters: Vec<bool>,
    /// Bounded receive queue, oldest first.
    pub rx_data: VecDeque<PassthruMsg>,
}

impl Channel {
    /// Channel invariant: ten filter slots, a bounded queue, and every queued
    /// message stamped with this channel's protocol and fitting the ABI buffer.
    pub open spec fn wf(self) -> bool {
        &&& self.filters@.len() == MAX_FILTERS_PER_CHANNEL
        &&& self.rx_data@.len() <= MAX_QUEUE_MSGS
        &&& forall|i: int|
            0 <= i < self.rx_data@.len() ==> (#[trigger] self.rx_data@[i]).protocol_id
                == spec_protocol_code(self.protocol) && self.rx_data@[i].wf()
    }

    /// The channel's settings and filter table; receive traffic leaves these alone.
    pub open spec fn spec_config(self) -> (u32, Protocol, u32, u32, Seq<bool>) {
        (self.id, self.protocol, self.baud_rate, self.flags, self.filters@)
    }

    /// Opens a channel on the adapter: sends `OpenChannel` with the exact
    /// id/protocol/baud/flags payload and builds the empty channel state on
    /// success.  On an adapter error the error text becomes the last error.
    pub fn new<L: SerialLink>(
        m2: &mut MacchinaM2,
        link: &mut L,
        last_error: &mut String,
        id: u32,
        protocol: Protocol,
        baud_rate: u32,
        flags: u32,
    ) -> (r: Result<Channel, PassthruError>)
        requires
            old(m2).wf(),
            old(m2).quiescent(),
        ensures
            final(m2).wf(),
            final(m2).quiescent(),
            spec_transport_preserved(*old(m2), *final(m2)),
            r matches Ok(c) ==> ({
                &&& c.wf()
                &&& c.id == id
                &&& c.protocol == protocol
                &&& c.baud_rate == baud_rate
                &&& c.flags == flags
                &&& c.rx_data@.len() == 0
                &&& forall|i: int| 0 <= i < MAX_FILTERS_PER_CHANNEL ==> !c.filters@[i]
            }),
            r matches Err(e) ==> e != PassthruError::STATUS_NOERROR,
    {
        let dst = build_open_channel_payload(id, protocol, baud_rate, flags);
        let mut msg = CommMsg::new_with_args(MsgType::OpenChannel, dst.as_slice());
        match m2.write_and_read_ptcmd(link, &mut msg, 100) {
            M2Resp::Success(_) => {
                let filters = make_filter_table();
                Ok(Channel {
                    id,
                    protocol,
                    baud_rate,
                    flags,
                    filters,
                    rx_data: VecDeque::new(),
                })
            },
            M2Resp::Failure { status, string } => {
                set_error_string(last_error, string);
                Err(status)
            },
        }
    }

    /// Installs a filter in the lowest free slot.
    ///
    /// All ten slots used means `EXCEEDED_LIMIT` without touching the adapter;
    /// otherwise `SetChannelFilter` goes out with the slot, kind and the three
    /// byte strings, and only the adapter's agreement marks the slot used.
    pub fn add_filter<L: SerialLink>(
        &mut self,
        m2: &mut MacchinaM2,
        link: &mut L,
        last_error: &mut String,
        filter_type: FilterType,
        mask_bytes: &[u8],
        pattern_bytes: &[u8],
        fc_bytes: &[u8],
    ) -> (r: Result<u32, PassthruError>)
        requires
            old(self).wf(),
            old(m2).wf(),
            old(m2).quiescent(),
            mask_bytes@.len() <= PASSTHRU_MSG_DATA_SIZE,
            pattern_bytes@.len() <= PASSTHRU_MSG_DATA_SIZE,
            fc_bytes@.len() <= PASSTHRU_MSG_DATA_SIZE,
        ensures
            final(self).wf(),
            final(m2).wf(),
            final(m2).quiescent(),
            spec_transport_preserved(*old(m2), *final(m2)),
            final(self).id == old(self).id,
            final(self).protocol == old(self).protocol,
            final(self).baud_rate == old(self).baud_rate,
            final(self).flags == old(self).flags,
            final(self).rx_data@ == old(self).rx_data@,
            (forall|j: int| 0 <= j < MAX_FILTERS_PER_CHANNEL ==> old(self).filters@[j]) ==> ((
            r matches Err(e) && e == PassthruError::ERR_EXCEEDED_LIMIT) && *final(m2) == *old(m2)),
            r matches Ok(slot) ==> ({
                &&& slot < MAX_FILTERS_PER_CHANNEL
                &&& !old(self).filters@[slot as int]
                &&& forall|j: int| 0 <= j < slot ==> old(self).filters@[j]
                &&& final(self).filters@ == old(self).filters@.update(slot as int, true)
            }),
            r is Err ==> final(self).filters@ == old(self).filters@,
            r matches Err(e) ==> e != PassthruError::STATUS_NOERROR,
    {
        let mut free_id: usize = 0;
        while free_id < MAX_FILTERS_PER_CHANNEL && self.filters[free_id]
            invariant
                free_id <= MAX_FILTERS_PER_CHANNEL,
                self.filters@.len() == MAX_FILTERS_PER_CHANNEL,
                forall|j: int| 0 <= j < free_id ==> self.filters@[j],
            decreases MAX_FILTERS_PER_CHANNEL - free_id,
        {
            free_id += 1;
        }
        if free_id >= MAX_FILTERS_PER_CHANNEL {
            return Err(PassthruError::ERR_EXCEEDED_LIMIT);
        }
        let dst = build_filter_payload(
            self.id,
            free_id as u32,
            filter_type,
            mask_bytes,
            pattern_bytes,
            fc_bytes,
        );
        let mut msg = CommMsg::new_with_args(MsgType::SetChannelFilter, dst.as_slice());
        match m2.write_and_read_ptcmd(link, &mut msg, 250) {
            M2Resp::Success(_) => {
                self.filters.set(free_id, true);
                Ok(free_id as u32)
            },
            M2Resp::Failure { status, string } => {
                set_error_string(last_error, string);
                Err(status)
            },
        }
    }

    /// Frees a filter slot: `INVALID_MSG_ID` when the slot is not a used slot,
    /// else `RemoveChannelFilter` goes out and the adapter's agreement frees it.
    pub fn remove_filter<L: SerialLink>(
        &mut self,
        m2: &mut MacchinaM2,
        link: &mut L,
        last_error: &mut String,
        id: usize,
    ) -> (r: Result<(), PassthruError>)
        requires
            old(self).wf(),
            old(m2).wf(),
            old(m2).quiescent(),
        ensures
            final(self).wf(),
            final(m2).wf(),
            final(m2).quiescent(),
            spec_transport_preserved(*old(m2), *final(m2)),
            final(self).id == old(self).id,
            final(self).protocol == old(self).protocol,
            final(self).baud_rate == old(self).baud_rate,
            final(self).flags == old(self).flags,
            final(self).rx_data@ == old(self).rx_data@,
            id >= MAX_FILTERS_PER_CHANNEL || !old(self).filters@[id as int] ==> ((
            r matches Err(e) && e == PassthruError::ERR_INVALID_MSG_ID) && *final(m2) == *old(m2)),
            r is Ok ==> id < MAX_FILTERS_PER_CHANNEL && old(self).filters@[id as int]
                && final(self).filters@ == old(self).filters@.update(id as int, false),
            r is Err ==> final(self).filters@ == old(self).filters@,
            r matches Err(e) ==> e != PassthruError::STATUS_NOERROR,
    {
        if id >= MAX_FILTERS_PER_CHANNEL {
            return Err(PassthruError::ERR_INVALID_MSG_ID);
        }
        if !self.filters[id] {
            return Err(PassthruError::ERR_INVALID_MSG_ID);
        }
        let mut dst: Vec<u8> = Vec::new();
        push_u32_le(&mut dst, self.id);
        push_u32_le(&mut dst, id as u32);
        assert(dst@ =~= spec_remove_filter_payload(self.id, id as u32));
        let mut msg = CommMsg::new_with_args(MsgType::RemoveChannelFilter, dst.as_slice());
        match m2.write_and_read_ptcmd(link, &mut msg, 100) {
            M2Resp::Success(_) => {
                self.filters.set(id, false);
                Ok(())
            },
            M2Resp::Failure { status, string } => {
                set_error_string(last_error, string);
                Err(status)
            },
        }
    }

    /// Asks the adapter to close the channel.  A refusal or timeout is logged
    /// and treated as success, so a wedged adapter cannot leak the slot.
    pub fn destroy<L: SerialLink>(
        &self,
        m2: &mut MacchinaM2,
        link: &mut L,
        log: &mut Logger,
    ) -> (r: Result<(), PassthruError>)
        requires
            old(m2).wf(),
            old(m2).quiescent(),
        ensures
            final(m2).wf(),
            final(m2).quiescent(),
            spec_transport_preserved(*old(m2), *final(m2)),
            r is Ok,
    {
        let mut dst: Vec<u8> = Vec::new();
        push_u32_le(&mut dst, self.id);
        assert(dst@ =~= spec_close_channel_payload(self.id));
        let mut msg = CommMsg::new_with_args(MsgType::CloseChannel, dst.as_slice());
        match m2.write_and_read_ptcmd(link, &mut msg, 250) {
            M2Resp::Success(_) => Ok(()),
            M2Resp::Failure { status: _, string: _ } => {
                log_error(
                    log,
                    "M2 failed to respond to close channel; assuming close was OK".to_owned(),
                );
                Ok(())
            },
        }
    }

    /// Transmits one host message on this channel.
    ///
    /// A message whose protocol differs from the channel's is rejected with
    /// `MSG_PROTOCOL_ID` before anything reaches the transport.  Otherwise the
    /// exact `channel | tx_flags | data` payload goes out, synchronously or
    /// fire-and-forget.
    pub fn transmit_data<L: SerialLink>(
        &self,
        m2: &mut MacchinaM2,
        link: &mut L,
        last_error: &mut String,
        ptmsg: &PassthruMsg,
        require_response: bool,
    ) -> (r: Result<(), PassthruError>)
        requires
            old(m2).wf(),
            old(m2).quiescent(),
            ptmsg.wf(),
        ensures
            final(m2).wf(),
            final(m2).quiescent(),
            spec_transport_preserved(*old(m2), *final(m2)),
            ptmsg.protocol_id != spec_protocol_code(self.protocol) ==> ((r matches Err(e) && e
                == PassthruError::ERR_MSG_PROTOCOL_ID) && *final(m2) == *old(m2)
                && final(last_error)@ == old(last_error)@),
            r matches Err(e) ==> e != PassthruError::STATUS_NOERROR,
            !require_response ==> (r matches Err(e) ==> (e == PassthruError::ERR_MSG_PROTOCOL_ID
                || e == PassthruError::ERR_FAILED)),
    {
        if ptmsg.protocol_id != self.protocol.code() {
            return Err(PassthruError::ERR_MSG_PROTOCOL_ID);
        }
        let dst = build_transmit_payload(self.id, ptmsg.tx_flags, ptmsg.data.as_slice());
        let mut msg = CommMsg::new_with_args(MsgType::TransmitChannelData, dst.as_slice());
        if require_response {
            match m2.write_and_read_ptcmd(link, &mut msg, 100) {
                M2Resp::Success(_) => Ok(()),
                M2Resp::Failure { status, string } => {
                    set_error_string(last_error, string);
                    Err(status)
                },
            }
        } else {
            m2.write_comm_struct(link, last_error, msg)
        }
    }

    /// Takes the oldest queued message, if any.
    pub fn pop_rx_queue(&mut self) -> (r: Option<PassthruMsg>)
        requires
            old(self).wf(),
        ensures
            final(self).wf(),
            final(self).spec_config() == old(self).spec_config(),
            old(self).rx_data@.len() == 0 ==> r is None && final(self).rx_data@ == old(self).rx_data@,
            old(self).rx_data@.len() > 0 ==> (r matches Some(m) && m == old(self).rx_data@[0]
                && final(self).rx_data@ == old(self).rx_data@.skip(1) && m.protocol_id
                == spec_protocol_code(old(self).protocol) && m.wf()),
    {
        let r = self.rx_data.pop_front();
        proof {
            if old(self).rx_data@.len() > 0 {
                assert(old(self).rx_data@.subrange(1, old(self).rx_data@.len() as int) =~= old(self).rx_data@.skip(1));
            }
        }
        r
    }

    /// Number of messages waiting in the receive queue.
    pub fn rx_available(&self) -> (r: usize)
        ensures
            r == self.rx_data@.len(),
    {
        self.rx_data.len()
    }

    /// Accepts one frame of bus traffic from the dispatcher.
    ///
    /// Below the bound the message is stamped with the channel's protocol and
    /// appended; at the bound the newest frame is dropped and a warning logged,
    /// and the queue never grows past 500.
    pub fn on_receive_data(
        &mut self,
        log: &mut Logger,
        rx_status: u32,
        data: &[u8],
        timestamp: u32,
    )
        requires
            old(self).wf(),
            data@.len() <= PASSTHRU_MSG_DATA_SIZE,
        ensures
            final(self).wf(),
            final(self).spec_config() == old(self).spec_config(),
            old(self).rx_data@.len() < MAX_QUEUE_MSGS ==> ({
                &&& final(self).rx_data@.len() == old(self).rx_data@.len() + 1
                &&& final(self).rx_data@.subrange(0, old(self).rx_data@.len() as int) == old(self).rx_data@
                &&& final(self).rx_data@.last().protocol_id == spec_protocol_code(old(self).protocol)
                &&& final(self).rx_data@.last().rx_status == rx_status
                &&& final(self).rx_data@.last().tx_flags == 0
                &&& final(self).rx_data@.last().timestamp == timestamp
                &&& final(self).rx_data@.last().data@ == data@
                &&& final(log).lines@ == old(log).lines@
            }),
            old(self).rx_data@.len() == MAX_QUEUE_MSGS ==> ({
                &&& final(self).rx_data@ == old(self).rx_data@
                &&& spec_logged(old(log).lines@, final(log).lines@, LogLevel::Warn)
            }),
    {
        if self.rx_data.len() < MAX_QUEUE_MSGS {
            let msg = PassthruMsg {
                protocol_id: self.protocol.code(),
                rx_status,
                tx_flags: 0,
                timestamp,
                extra_data_size: 0,
                data: vstd::slice::slice_to_vec(data),
            };
            self.rx_data.push_back(msg);
            proof {
                assert(self.rx_data@.subrange(0, old(self).rx_data@.len() as int) =~= old(self).rx_data@);
            }
        } else {
            log_warn_str(log, "Rx queue in channel is full. Data has been lost!");
        }
    }

    /// Empties the receive queue.
    pub fn clear_rx_buffer(&mut self) -> (r: PassthruError)
        requires
            old(self).wf(),
        ensures
            final(self).wf(),
            final(self).spec_config() == old(self).spec_config(),
            final(self).rx_data@.len() == 0,
            r == PassthruError::STATUS_NOERROR,
    {
        self.rx_data.clear();
        PassthruError::STATUS_NOERROR
    }

    /// Transmission is synchronous, so there is no transmit queue to clear.
    pub fn clear_tx_buffer(&mut self) -> (r: PassthruError)
        requires
            old(self).wf(),
        ensures
            *final(self) == *old(self),
            r == PassthruError::STATUS_NOERROR,
    {
        PassthruError::STATUS_NOERROR
    }

    /// Sets one configuration parameter on the adapter (`IoctlSet`): the
    /// channel id as one byte, then parameter and value words.
    pub fn ioctl_set_config<L: SerialLink>(
        &mut self,
        m2: &mut MacchinaM2,
        link: &mut L,
        last_error: &mut String,
        pname: u32,
        pvalue: u32,
    ) -> (r: Result<(), PassthruError>)
        requires
            old(self).wf(),
            old(self).id < 4,
            old(m2).wf(),
            old(m2).quiescent(),
        ensures
            *final(self) == *old(self),
            final(m2).wf(),
            final(m2).quiescent(),
            spec_transport_preserved(*old(m2), *final(m2)),
            r matches Err(e) ==> e != PassthruError::STATUS_NOERROR,
    {
        let dst = build_ioctl_set_payload(self.id, pname, pvalue);
        let mut msg = CommMsg::new_with_args(MsgType::IoctlSet, dst.as_slice());
        match m2.write_and_read_ptcmd(link, &mut msg, 100) {
            M2Resp::Success(_) => Ok(()),
            M2Resp::Failure { status, string } => {
                set_error_string(last_error, string);
                Err(status)
            },
        }
    }

    /// Reads one configuration parameter from the adapter (`IoctlGet`); the
    /// response must be exactly a 4-byte little-endian value.
    pub fn ioctl_get_config<L: SerialLink>(
        &mut self,
        m2: &mut MacchinaM2,
        link: &mut L,
        last_error: &mut String,
        pname: u32,
    ) -> (r: Result<u32, PassthruError>)
        requires
            old(self).wf(),
            old(self).id < 4,
            old(m2).wf(),
            old(m2).quiescent(),
        ensures
            *final(self) == *old(self),
            final(m2).wf(),
            final(m2).quiescent(),
            spec_transport_preserved(*old(m2), *final(m2)),
            r matches Err(e) ==> e != PassthruError::STATUS_NOERROR,
    {
        let dst = build_ioctl_get_payload(self.id, pname);
        let mut msg = CommMsg::new_with_args(MsgType::IoctlGet, dst.as_slice());
        match m2.write_and_read_ptcmd(link, &mut msg, 100) {
            M2Resp::Success(v) => {
                match parse_ioctl_value(&v) {
                    Ok(x) => Ok(x),
                    Err(e) => {
                        set_error_string(
                            last_error,
                            "IOCTL Get response was an invalid length".to_owned(),
                        );
                        Err(e)
                    },
                }
            },
            M2Resp::Failure { status, string } => {
                set_error_string(last_error, string);
                Err(status)
            },
        }
    }
}

// ----------------------------------------------------------------------------
// Channel manager
// ----------------------------------------------------------------------------

/// The settings of two channels coincide.
pub open spec fn spec_chan_config_eq(a: Channel, b: Channel) -> bool {
    &&& a.id == b.id
    &&& a.protocol == b.protocol
    &&& a.baud_rate == b.baud_rate
    &&& a.flags == b.flags
}

/// Channel views coincide field by field.
pub open spec fn spec_chan_eq(a: Channel, b: Channel) -> bool {
    &&& a.id == b.id
    &&& a.protocol == b.protocol
    &&& a.baud_rate == b.baud_rate
    &&& a.flags == b.flags
    &&& a.filters@ == b.filters@
    &&& a.rx_data@ == b.rx_data@
}

/// The four exclusive channel slots, indexed by protocol family.
pub struct ChannelComm {
    pub slots: Vec<Option<Channel>>,
}

impl ChannelComm {
    /// Manager invariant: four slots, and a slot's channel is well formed,
    /// carries the slot's index as its id, and belongs to the slot's family.
    pub open spec fn wf(self) -> bool {
        &&& self.slots@.len() == NUM_CHANNELS
        &&& forall|i: int|
            0 <= i < NUM_CHANNELS ==> ((#[trigger] self.slots@[i]) matches Some(c) ==> c.wf()
                && c.id == i && spec_channel_index(spec_family_of(c.protocol)) == i)
    }

    /// All four slots empty.
    pub fn new() -> (r: ChannelComm)
        ensures
            r.wf(),
            forall|i: int| 0 <= i < NUM_CHANNELS ==> (#[trigger] r.slots@[i]) is None,
    {
        let mut slots: Vec<Option<Channel>> = Vec::new();
        slots.push(None);
        slots.push(None);
        slots.push(None);
        slots.push(None);
        ChannelComm { slots }
    }

    /// Creates the channel for a protocol's family: `CHANNEL_IN_USE` when the
    /// family's slot is occupied, else an `OpenChannel` exchange, and only the
    /// adapter's agreement fills the slot.  Returns the family index as the
    /// channel id.
    pub fn create_channel<L: SerialLink>(
        &mut self,
        m2: &mut MacchinaM2,
        link: &mut L,
        last_error: &mut String,
        protocol: Protocol,
        baud_rate: u32,
        flags: u32,
    ) -> (r: Result<u32, PassthruError>)
        requires
            old(self).wf(),
            old(m2).wf(),
            old(m2).quiescent(),
        ensures
            final(self).wf(),
            final(m2).wf(),
            final(m2).quiescent(),
            spec_transport_preserved(*old(m2), *final(m2)),
            old(self).slots@[spec_channel_index(spec_family_of(protocol)) as int] is Some ==> ((
            r matches Err(e) && e == PassthruError::ERR_CHANNEL_IN_USE) && final(self).slots@
                == old(self).slots@ && *final(m2) == *old(m2)),
            r matches Ok(id) ==> ({
                let idx = spec_channel_index(spec_family_of(protocol)) as int;
                &&& id == spec_channel_index(spec_family_of(protocol))
                &&& old(self).slots@[idx] is None
                &&& (final(self).slots@[idx] matches Some(c) && c.protocol == protocol
                    && c.baud_rate == baud_rate && c.flags == flags && c.rx_data@.len() == 0
                    && (forall|j: int| 0 <= j < MAX_FILTERS_PER_CHANNEL ==> !c.filters@[j]))
                &&& forall|j: int|
                    0 <= j < NUM_CHANNELS && j != idx ==> final(self).slots@[j] == old(self).slots@[j]
            }),
            r is Err ==> final(self).slots@ == old(self).slots@,
            r matches Err(e) ==> e != PassthruError::STATUS_NOERROR,
    {
        let family = ChannelID::from_protocol(protocol);
        let idx = family.index() as usize;
        if self.slots[idx].is_some() {
            return Err(PassthruError::ERR_CHANNEL_IN_USE);
        }
        match Channel::new(m2, link, last_error, idx as u32, protocol, baud_rate, flags) {
            Ok(chan) => {
                self.slots.set(idx, Some(chan));
                Ok(idx as u32)
            },
            Err(e) => {
                proof {
                    assert(final(self).slots@ =~= old(self).slots@);
                }
                Err(e)
            },
        }
    }

    /// Empties every slot without any device round trip; used when the host
    /// closes the device and the transport is about to be torn down.
    pub fn force_destroy_all_channels(&mut self)
        requires
            old(self).wf(),
        ensures
            final(self).wf(),
            forall|i: int| 0 <= i < NUM_CHANNELS ==> (#[trigger] final(self).slots@[i]) is None,
    {
        self.slots.set(0, None);
        self.slots.set(1, None);
        self.slots.set(2, None);
        self.slots.set(3, None);
    }

    /// Destroys the channel in a slot.  The slot is freed whatever the adapter
    /// answers, so a wedged adapter cannot leak it; an unknown id or an empty
    /// slot is `INVALID_CHANNEL_ID`.
    pub fn destroy_channel<L: SerialLink>(
        &mut self,
        m2: &mut MacchinaM2,
        link: &mut L,
        log: &mut Logger,
        channel_id: u32,
    ) -> (r: Result<(), PassthruError>)
        requires
            old(self).wf(),
            old(m2).wf(),
            old(m2).quiescent(),
        ensures
            final(self).wf(),
            final(m2).wf(),
            final(m2).quiescent(),
            spec_transport_preserved(*old(m2), *final(m2)),
            channel_id >= 4 || old(self).slots@[channel_id as int] is None ==> ((r matches Err(e)
                && e == PassthruError::ERR_INVALID_CHANNEL_ID) && final(self).slots@ == old(self).slots@ && *final(m2) == *old(m2)),
            channel_id < 4 && old(self).slots@[channel_id as int] is Some ==> (r is Ok && final(self).slots@[channel_id as int] is None && (forall|j: int|
                0 <= j < NUM_CHANNELS && j != channel_id ==> final(self).slots@[j] == old(self).slots@[j])),
    {
        let cid = match ChannelID::from_u32(channel_id) {
            Ok(c) => c,
            Err(e) => {
                return Err(e);
            },
        };
        let idx = cid.index() as usize;
        let mut slot: Option<Channel> = None;
        self.slots.set_and_swap(idx, &mut slot);
        match slot {
            Some(c) => c.destroy(m2, link, log),
            None => {
                proof {
                    assert(self.slots@ =~= old(self).slots@);
                }
                Err(PassthruError::ERR_INVALID_CHANNEL_ID)
            },
        }
    }

    /// Adds a filter on the channel in a slot; see `Channel::add_filter` for
    /// the slot-allocation contract this lifts.
    pub fn create_channel_filter<L: SerialLink>(
        &mut self,
        m2: &mut MacchinaM2,
        link: &mut L,
        last_error: &mut String,
        channel_id: u32,
        filter_type: FilterType,
        mask_bytes: &[u8],
        pattern_bytes: &[u8],
        fc_bytes: &[u8],
    ) -> (r: Result<u32, PassthruError>)
        requires
            old(self).wf(),
            old(m2).wf(),
            old(m2).quiescent(),
            mask_bytes@.len() <= PASSTHRU_MSG_DATA_SIZE,
            pattern_bytes@.len() <= PASSTHRU_MSG_DATA_SIZE,
            fc_bytes@.len() <= PASSTHRU_MSG_DATA_SIZE,
        ensures
            final(self).wf(),
            final(m2).wf(),
            final(m2).quiescent(),
            spec_transport_preserved(*old(m2), *final(m2)),
            channel_id >= 4 || old(self).slots@[channel_id as int] is None ==> ((r matches Err(e)
                && e == PassthruError::ERR_INVALID_CHANNEL_ID) && final(self).slots@ == old(self).slots@ && *final(m2) == *old(m2)),
            channel_id < 4 ==> (old(self).slots@[channel_id as int] matches Some(c0) ==> ({
                &&& (forall|j: int| 0 <= j < MAX_FILTERS_PER_CHANNEL ==> c0.filters@[j]) ==> ((
                r matches Err(e) && e == PassthruError::ERR_EXCEEDED_LIMIT) && *final(m2) == *old(m2))
                &&& (r matches Ok(slot) ==> ({
                    &&& slot < MAX_FILTERS_PER_CHANNEL
                    &&& !c0.filters@[slot as int]
                    &&& forall|j: int| 0 <= j < slot ==> c0.filters@[j]
                    &&& (final(self).slots@[channel_id as int] matches Some(c1)
                        && spec_chan_config_eq(c1, c0) && c1.rx_data@ == c0.rx_data@
                        && c1.filters@ == c0.filters@.update(slot as int, true))
                }))
                &&& (r is Err ==> (final(self).slots@[channel_id as int] matches Some(c1)
                    && spec_chan_eq(c1, c0)))
                &&& forall|j: int|
                    0 <= j < NUM_CHANNELS && j != channel_id ==> final(self).slots@[j] == old(self).slots@[j]
            })),
            r matches Err(e) ==> e != PassthruError::STATUS_NOERROR,
    {
        let cid = match ChannelID::from_u32(channel_id) {
            Ok(c) => c,
            Err(e) => {
                return Err(e);
            },
        };
        let idx = cid.index() as usize;
        let mut slot: Option<Channel> = None;
        self.slots.set_and_swap(idx, &mut slot);
        match slot {
            Some(mut c) => {
                let r = c.add_filter(
                    m2,
                    link,
                    last_error,
                    filter_type,
                    mask_bytes,
                    pattern_bytes,
                    fc_bytes,
                );
                self.slots.set(idx, Some(c));
                r
            },
            None => {
                proof {
                    assert(self.slots@ =~= old(self).slots@);
                }
                Err(PassthruError::ERR_INVALID_CHANNEL_ID)
            },
        }
    }

    /// Removes a filter from the channel in a slot; see `Channel::remove_filter`.
    pub fn remove_filter<L: SerialLink>(
        &mut self,
        m2: &mut MacchinaM2,
        link: &mut L,
        last_error: &mut String,
        channel_id: u32,
        filter_id: u32,
    ) -> (r: Result<(), PassthruError>)
        requires
            old(self).wf(),
            old(m2).wf(),
            old(m2).quiescent(),
        ensures
            final(self).wf(),
            final(m2).wf(),
            final(m2).quiescent(),
            spec_transport_preserved(*old(m2), *final(m2)),
            channel_id >= 4 || old(self).slots@[channel_id as int] is None ==> ((r matches Err(e)
                && e == PassthruError::ERR_INVALID_CHANNEL_ID) && final(self).slots@ == old(self).slots@ && *final(m2) == *old(m2)),
            channel_id < 4 ==> (old(self).slots@[channel_id as int] matches Some(c0) ==> ({
                &&& (filter_id >= MAX_FILTERS_PER_CHANNEL || !c0.filters@[filter_id as int]
                    ==> ((r matches Err(e) && e == PassthruError::ERR_INVALID_MSG_ID) && *final(m2)
                    == *old(m2)))
                &&& (r is Ok ==> filter_id < MAX_FILTERS_PER_CHANNEL
                    && c0.filters@[filter_id as int] && (final(self).slots@[channel_id as int] matches Some(c1) && spec_chan_config_eq(c1, c0)
                    && c1.rx_data@ == c0.rx_data@ && c1.filters@ == c0.filters@.update(
                    filter_id as int,
                    false,
                )))
                &&& (r is Err ==> (final(self).slots@[channel_id as int] matches Some(c1)
                    && spec_chan_eq(c1, c0)))
                &&& forall|j: int|
                    0 <= j < NUM_CHANNELS && j != channel_id ==> final(self).slots@[j] == old(self).slots@[j]
            })),
            r matches Err(e) ==> e != PassthruError::STATUS_NOERROR,
    {
        let cid = match ChannelID::from_u32(channel_id) {
            Ok(c) => c,
            Err(e) => {
                return Err(e);
            },
        };
        let idx = cid.index() as usize;
        let mut slot: Option<Channel> = None;
        self.slots.set_and_swap(idx, &mut slot);
        match slot {
            Some(mut c) => {
                let r = c.remove_filter(m2, link, last_error, filter_id as usize);
                self.slots.set(idx, Some(c));
                r
            },
            None => {
                proof {
                    assert(self.slots@ =~= old(self).slots@);
                }
                Err(PassthruError::ERR_INVALID_CHANNEL_ID)
            },
        }
    }

    /// Transmits one host message on the channel in a slot; a protocol
    /// mismatch is `MSG_PROTOCOL_ID` before anything reaches the transport.
    pub fn write_channel_data<L: SerialLink>(
        &mut self,
        m2: &mut MacchinaM2,
        link: &mut L,
        last_error: &mut String,
        channel_id: u32,
        msg: &PassthruMsg,
        require_response: bool,
    ) -> (r: Result<(), PassthruError>)
        requires
            old(self).wf(),
            old(m2).wf(),
            old(m2).quiescent(),
            msg.wf(),
        ensures
            final(self).wf(),
            final(m2).wf(),
            final(m2).quiescent(),
            spec_transport_preserved(*old(m2), *final(m2)),
            final(self).slots@ == old(self).slots@,
            channel_id >= 4 || old(self).slots@[channel_id as int] is None ==> ((r matches Err(e)
                && e == PassthruError::ERR_INVALID_CHANNEL_ID) && *final(m2) == *old(m2)),
            channel_id < 4 ==> (old(self).slots@[channel_id as int] matches Some(c0) ==> (
            msg.protocol_id != spec_protocol_code(c0.protocol) ==> ((r matches Err(e) && e
                == PassthruError::ERR_MSG_PROTOCOL_ID) && *final(m2) == *old(m2)))),
            r matches Err(e) ==> e != PassthruError::STATUS_NOERROR,
            !require_response ==> (r matches Err(e) ==> (e == PassthruError::ERR_MSG_PROTOCOL_ID
                || e == PassthruError::ERR_FAILED || e == PassthruError::ERR_INVALID_CHANNEL_ID)),
    {
        let cid = match ChannelID::from_u32(channel_id) {
            Ok(c) => c,
            Err(e) => {
                return Err(e);
            },
        };
        let idx = cid.index() as usize;
        let mut slot: Option<Channel> = None;
        self.slots.set_and_swap(idx, &mut slot);
        match slot {
            Some(c) => {
                let r = c.transmit_data(m2, link, last_error, msg, require_response);
                self.slots.set(idx, Some(c));
                proof {
                    assert(self.slots@ =~= old(self).slots@);
                }
                r
            },
            None => {
                proof {
                    assert(self.slots@ =~= old(self).slots@);
                }
                Err(PassthruError::ERR_INVALID_CHANNEL_ID)
            },
        }
    }

    /// Reads one configuration parameter of the channel in a slot.
    pub fn ioctl_get_cfg<L: SerialLink>(
        &mut self,
        m2: &mut MacchinaM2,
        link: &mut L,
        last_error: &mut String,
        channel_id: u32,
        param_name: u32,
    ) -> (r: Result<u32, PassthruError>)
        requires
            old(self).wf(),
            old(m2).wf(),
            old(m2).quiescent(),
        ensures
            final(self).wf(),
            final(m2).wf(),
            final(m2).quiescent(),
            spec_transport_preserved(*old(m2), *final(m2)),
            final(self).slots@ == old(self).slots@,
            channel_id >= 4 || old(self).slots@[channel_id as int] is None ==> ((r matches Err(e)
                && e == PassthruError::ERR_INVALID_CHANNEL_ID) && *final(m2) == *old(m2)),
            r matches Err(e) ==> e != PassthruError::STATUS_NOERROR,
    {
        let cid = match ChannelID::from_u32(channel_id) {
            Ok(c) => c,
            Err(e) => {
                return Err(e);
            },
        };
        let idx = cid.index() as usize;
        let mut slot: Option<Channel> = None;
        self.slots.set_and_swap(idx, &mut slot);
        match slot {
            Some(mut c) => {
                let r = c.ioctl_get_config(m2, link, last_error, param_name);
                self.slots.set(idx, Some(c));
                proof {
                    assert(self.slots@ =~= old(self).slots@);
                }
                r
            },
            None => {
                proof {
                    assert(self.slots@ =~= old(self).slots@);
                }
                Err(PassthruError::ERR_INVALID_CHANNEL_ID)
            },
        }
    }

    /// Sets one configuration parameter of the channel in a slot.
    pub fn ioctl_set_cfg<L: SerialLink>(
        &mut self,
        m2: &mut MacchinaM2,
        link: &mut L,
        last_error: &mut String,
        channel_id: u32,
        param_name: u32,
        value: u32,
    ) -> (r: Result<(), PassthruError>)
        requires
            old(self).wf(),
            old(m2).wf(),
            old(m2).quiescent(),
        ensures
            final(self).wf(),
            final(m2).wf(),
            final(m2).quiescent(),
            spec_transport_preserved(*old(m2), *final(m2)),
            final(self).slots@ == old(self).slots@,
            channel_id >= 4 || old(self).slots@[channel_id as int] is None ==> ((r matches Err(e)
                && e == PassthruError::ERR_INVALID_CHANNEL_ID) && *final(m2) == *old(m2)),
            r matches Err(e) ==> e != PassthruError::STATUS_NOERROR,
    {
        let cid = match ChannelID::from_u32(channel_id) {
            Ok(c) => c,
            Err(e) => {
                return Err(e);
            },
        };
        let idx = cid.index() as usize;
        let mut slot: Option<Channel> = None;
        self.slots.set_and_swap(idx, &mut slot);
        match slot {
            Some(mut c) => {
                let r = c.ioctl_set_config(m2, link, last_error, param_name, value);
                self.slots.set(idx, Some(c));
                proof {
                    assert(self.slots@ =~= old(self).slots@);
                }
                r
            },
            None => {
                proof {
                    assert(self.slots@ =~= old(self).slots@);
                }
                Err(PassthruError::ERR_INVALID_CHANNEL_ID)
            },
        }
    }

    /// Empties the receive queue of the channel in a slot.
    pub fn clear_rx_buffer(&mut self, channel_id: u32) -> (r: PassthruError)
        requires
            old(self).wf(),
        ensures
            final(self).wf(),
            channel_id >= 4 || old(self).slots@[channel_id as int] is None ==> r
                == PassthruError::ERR_INVALID_CHANNEL_ID && final(self).slots@ == old(self).slots@,
            channel_id < 4 ==> (old(self).slots@[channel_id as int] matches Some(c0) ==> (r
                == PassthruError::STATUS_NOERROR && (final(self).slots@[channel_id as int] matches Some(c1) && spec_chan_config_eq(c1, c0)
                && c1.filters@ == c0.filters@ && c1.rx_data@.len() == 0) && (forall|j: int|
                0 <= j < NUM_CHANNELS && j != channel_id ==> final(self).slots@[j] == old(self).slots@[j]))),
    {
        let cid = match ChannelID::from_u32(channel_id) {
            Ok(c) => c,
            Err(e) => {
                return e;
            },
        };
        let idx = cid.index() as usize;
        let mut slot: Option<Channel> = None;
        self.slots.set_and_swap(idx, &mut slot);
        match slot {
            Some(mut c) => {
                let r = c.clear_rx_buffer();
                self.slots.set(idx, Some(c));
                r
            },
            None => {
                proof {
                    assert(self.slots@ =~= old(self).slots@);
                }
                PassthruError::ERR_INVALID_CHANNEL_ID
            },
        }
    }

    /// Nothing is buffered for transmit; succeeds when the channel exists.
    pub fn clear_tx_buffer(&mut self, channel_id: u32) -> (r: PassthruError)
        requires
            old(self).wf(),
        ensures
            final(self).wf(),
            final(self).slots@ == old(self).slots@,
            channel_id >= 4 || old(self).slots@[channel_id as int] is None ==> r
                == PassthruError::ERR_INVALID_CHANNEL_ID,
            channel_id < 4 && old(self).slots@[channel_id as int] is Some ==> r
                == PassthruError::STATUS_NOERROR,
    {
        let cid = match ChannelID::from_u32(channel_id) {
            Ok(c) => c,
            Err(e) => {
                return e;
            },
        };
        let idx = cid.index() as usize;
        let mut slot: Option<Channel> = None;
        self.slots.set_and_swap(idx, &mut slot);
        match slot {
            Some(mut c) => {
                let r = c.clear_tx_buffer();
                self.slots.set(idx, Some(c));
                proof {
                    assert(self.slots@ =~= old(self).slots@);
                }
                r
            },
            None => {
                proof {
                    assert(self.slots@ =~= old(self).slots@);
                }
                PassthruError::ERR_INVALID_CHANNEL_ID
            },
        }
    }

    /// Takes the oldest received message of the channel in a slot: `Ok(None)`
    /// when its queue is empty, and every message handed out carries the
    /// channel's protocol.
    pub fn read_channel_data(&mut self, channel_id: u32) -> (r: Result<
        Option<PassthruMsg>,
        PassthruError,
    >)
        requires
            old(self).wf(),
        ensures
            final(self).wf(),
            channel_id >= 4 || old(self).slots@[channel_id as int] is None ==> ((r matches Err(e)
                && e == PassthruError::ERR_INVALID_CHANNEL_ID) && final(self).slots@ == old(self).slots@),
            channel_id < 4 ==> (old(self).slots@[channel_id as int] matches Some(c0) ==> ({
                &&& (c0.rx_data@.len() == 0 ==> (r matches Ok(m) && m is None))
                &&& (c0.rx_data@.len() > 0 ==> (r matches Ok(m) && m matches Some(pm) && pm
                    == c0.rx_data@[0] && pm.protocol_id == spec_protocol_code(c0.protocol)
                    && pm.wf()))
                &&& (final(self).slots@[channel_id as int] matches Some(c1)
                    && spec_chan_config_eq(c1, c0) && c1.filters@ == c0.filters@ && c1.rx_data@
                    == c0.rx_data@.skip(if c0.rx_data@.len() == 0 { 0int } else { 1int }))
                &&& forall|j: int|
                    0 <= j < NUM_CHANNELS && j != channel_id ==> final(self).slots@[j] == old(self).slots@[j]
            })),
    {
        let cid = match ChannelID::from_u32(channel_id) {
            Ok(c) => c,
            Err(e) => {
                return Err(e);
            },
        };
        let idx = cid.index() as usize;
        let mut slot: Option<Channel> = None;
        self.slots.set_and_swap(idx, &mut slot);
        match slot {
            Some(mut c) => {
                let r = c.pop_rx_queue();
                self.slots.set(idx, Some(c));
                proof {
                    if old(self).slots@[channel_id as int]->Some_0.rx_data@.len() == 0 {
                        assert(c.rx_data@.skip(0) =~= c.rx_data@);
                    }
                }
                Ok(r)
            },
            None => {
                proof {
                    assert(self.slots@ =~= old(self).slots@);
                }
                Err(PassthruError::ERR_INVALID_CHANNEL_ID)
            },
        }
    }

    /// Hands one unsolicited `ReceiveChannelData` frame to its channel, as the
    /// dispatcher thread does: the first four payload bytes name the channel,
    /// the next four carry the receive flags, the rest is the bus data.
    /// Unknown channels, empty slots and short frames are ignored; data too
    /// large for a host message is dropped with a warning.
    pub fn receive_channel_data(&mut self, log: &mut Logger, msg: &CommMsg, timestamp: u32)
        requires
            old(self).wf(),
        ensures
            final(self).wf(),
            msg.args@.len() < 8 ==> final(self).slots@ == old(self).slots@ && final(log).lines@
                == old(log).lines@,
            msg.args@.len() >= 8 ==> ({
                let cid = le32(msg.args@.subrange(0, 4));
                let flags = le32(msg.args@.subrange(4, 8));
                let data = msg.args@.skip(8);
                &&& (cid >= 4 || (0 <= cid < 4 && old(self).slots@[cid as int] is None)
                    ==> final(self).slots@ == old(self).slots@ && final(log).lines@ == old(log).lines@)
                &&& (0 <= cid < 4 ==> (old(self).slots@[cid as int] matches Some(c0) ==> ({
                    &&& (data.len() > PASSTHRU_MSG_DATA_SIZE ==> final(self).slots@ == old(self).slots@ && spec_logged(old(log).lines@, final(log).lines@, LogLevel::Warn))
                    &&& (data.len() <= PASSTHRU_MSG_DATA_SIZE && c0.rx_data@.len()
                        < MAX_QUEUE_MSGS ==> ((final(self).slots@[cid as int] matches Some(c1)
                        && spec_chan_config_eq(c1, c0) && c1.filters@ == c0.filters@
                        && c1.rx_data@.len() == c0.rx_data@.len() + 1 && c1.rx_data@.subrange(
                        0,
                        c0.rx_data@.len() as int,
                    ) == c0.rx_data@ && c1.rx_data@.last().protocol_id == spec_protocol_code(
                        c0.protocol,
                    ) && c1.rx_data@.last().rx_status == flags && c1.rx_data@.last().timestamp
                        == timestamp && c1.rx_data@.last().data@ == data) && final(log).lines@
                        == old(log).lines@))
                    &&& (data.len() <= PASSTHRU_MSG_DATA_SIZE && c0.rx_data@.len()
                        == MAX_QUEUE_MSGS ==> ((final(self).slots@[cid as int] matches Some(c1)
                        && spec_chan_eq(c1, c0)) && spec_logged(
                        old(log).lines@,
                        final(log).lines@,
                        LogLevel::Warn,
                    )))
                    &&& forall|j: int|
                        0 <= j < NUM_CHANNELS && j != cid ==> final(self).slots@[j] == old(self).slots@[j]
                })))
            }),
    {
        if msg.args.len() < 8 {
            return ;
        }
        let cid_raw = read_u32_le(msg.args.as_slice(), 0);
        let flags = read_u32_le(msg.args.as_slice(), 4);
        let cid = match ChannelID::from_u32(cid_raw) {
            Ok(c) => c,
            Err(_) => {
                return ;
            },
        };
        let idx = cid.index() as usize;
        let data = vstd::slice::slice_subrange(msg.args.as_slice(), 8, msg.args.len());
        proof {
            assert(msg.args@.subrange(8, msg.args@.len() as int) =~= msg.args@.skip(8));
        }
        if data.len() > PASSTHRU_MSG_DATA_SIZE {
            let mut slot: Option<Channel> = None;
            self.slots.set_and_swap(idx, &mut slot);
            match slot {
                Some(c) => {
                    self.slots.set(idx, Some(c));
                    proof {
                        assert(self.slots@ =~= old(self).slots@);
                    }
                    log_warn_str(log, "Incoming channel data exceeds the host message buffer");
                },
                None => {
                    proof {
                        assert(self.slots@ =~= old(self).slots@);
                    }
                },
            }
            return ;
        }
        let mut slot: Option<Channel> = None;
        self.slots.set_and_swap(idx, &mut slot);
        match slot {
            Some(mut c) => {
                c.on_receive_data(log, flags, data, timestamp);
                self.slots.set(idx, Some(c));
            },
            None => {
                proof {
                    assert(self.slots@ =~= old(self).slots@);
                }
            },
        }
    }
}

/// Law: when every one of the ten filter slots is used, no free slot exists,
/// so the next filter request must be refused with `EXCEEDED_LIMIT`.
pub proof fn lemma_filter_exhaustion(filters: Seq<bool>)
    requires
        filters.len() == MAX_FILTERS_PER_CHANNEL,
        forall|j: int| 0 <= j < MAX_FILTERS_PER_CHANNEL ==> filters[j],
    ensures
        !exists|j: int| 0 <= j < MAX_FILTERS_PER_CHANNEL && !filters[j],
{
}

/// Law: removing a filter frees exactly its slot, so a later add finds a free
/// slot again.
pub proof fn lemma_filter_slot_reuse(filters: Seq<bool>, k: int)
    requires
        filters.len() == MAX_FILTERS_PER_CHANNEL,
        0 <= k < MAX_FILTERS_PER_CHANNEL,
    ensures
        !filters.update(k, false)[k],
        exists|j: int| 0 <= j < MAX_FILTERS_PER_CHANNEL && !filters.update(k, false)[j],
        forall|j: int|
            0 <= j < MAX_FILTERS_PER_CHANNEL && j != k ==> filters.update(k, false)[j]
                == filters[j],
{
    assert(!filters.update(k, false)[k]);
}


/// Ten vacant filter slots.
fn make_filter_table() -> (r: Vec<bool>)
    ensures
        r@.len() == MAX_FILTERS_PER_CHANNEL,
        forall|i: int| 0 <= i < MAX_FILTERS_PER_CHANNEL ==> !r@[i],
{
    let mut filters: Vec<bool> = Vec::new();
    let mut k: usize = 0;
    while k < MAX_FILTERS_PER_CHANNEL
        invariant
            k <= MAX_FILTERS_PER_CHANNEL,
            filters@.len() == k,
            forall|i: int| 0 <= i < k ==> !filters@[i],
        decreases MAX_FILTERS_PER_CHANNEL - k,
    {
        filters.push(false);
        k += 1;
    }
    filters
}

} // verus!
