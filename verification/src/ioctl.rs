//! IOCTL operations: battery and programming-voltage reads, configuration
//! get/set loops, bus init requests, and the clear operations.

use vstd::pervasive::VecAdditionalExecFns;
use vstd::prelude::*;

use crate::channels::ChannelComm;
use crate::comm::{spec_transport_preserved, M2Resp, MacchinaM2, SerialLink};
use crate::frame::{le32, push_bytes, push_u32_le, read_u32_le, spec_u32_le, CommMsg, MsgType};
use crate::j2534::{
    ioctl_param_valid, spec_ioctl_param_valid, PassthruError, PassthruMsg, SConfig,
};
use crate::logger::{log_warn_str, spec_logged, LogLevel, Logger};
use crate::passthru_drv::set_error_string;

verus! {

/// Parameter codes at or above this are reserved or tool specific; the driver
/// skips them with a warning instead of forwarding them.
pub const RESERVED_PARAM_FLOOR: u32 = 0x20;

/// `InitLinChannel` payload: the channel id, one byte selecting five-baud (0)
/// or fast (1) init, then the init data.
pub open spec fn spec_init_payload(id: u32, fast: bool, data: Seq<u8>) -> Seq<u8> {
    spec_u32_le(id) + seq![if fast { 1u8 } else { 0u8 }] + data
}

/// Builds the exact `InitLinChannel` payload.
pub fn build_init_payload(id: u32, fast: bool, data: &[u8]) -> (r: Vec<u8>)
    ensures
        r@ == spec_init_payload(id, fast, data@),
{
    let mut dst: Vec<u8> = Vec::new();
    push_u32_le(&mut dst, id);
    if fast {
        dst.push(1u8);
    } else {
        dst.push(0u8);
    }
    push_bytes(&mut dst, data);
    assert(dst@ =~= spec_init_payload(id, fast, data@));
    dst
}

/// Reads the battery voltage from a `ReadBatt` response: the first four bytes,
/// little-endian, in millivolts; a short response falls back to the last
/// reading so a loaded adapter cannot fault the host.
pub fn parse_vbatt(args: &Vec<u8>, last: u32) -> (r: u32)
    ensures
        args@.len() < 4 ==> r == last,
        args@.len() >= 4 ==> r == le32(args@.subrange(0, 4)),
{
    if args.len() < 4 {
        last
    } else {
        read_u32_le(args.as_slice(), 0)
    }
}

/// Asks the adapter for the battery voltage in millivolts.  On success the
/// reading also becomes the new fallback value.
pub fn read_vbatt<L: SerialLink>(
    m2: &mut MacchinaM2,
    link: &mut L,
    last_error: &mut String,
    last_vbatt: &mut u32,
) -> (r: Result<u32, PassthruError>)
    requires
        old(m2).wf(),
        old(m2).quiescent(),
    ensures
        final(m2).wf(),
        final(m2).quiescent(),
        spec_transport_preserved(*old(m2), *final(m2)),
        r matches Ok(v) ==> *final(last_vbatt) == v,
        r is Err ==> *final(last_vbatt) == *old(last_vbatt),
        r matches Err(e) ==> e != PassthruError::STATUS_NOERROR,
{
    let mut msg = CommMsg::new(MsgType::ReadBatt);
    match m2.write_and_read_ptcmd(link, &mut msg, 250) {
        M2Resp::Success(args) => {
            let v = parse_vbatt(&args, *last_vbatt);
            *last_vbatt = v;
            Ok(v)
        },
        M2Resp::Failure { status, string } => {
            set_error_string(last_error, string);
            Err(status)
        },
    }
}

/// Reading the programming voltage is not supported by the adapter; the stub
/// warns and reports success without transport I/O.
pub fn read_prog_voltage(log: &mut Logger) -> (r: PassthruError)
    ensures
        r == PassthruError::STATUS_NOERROR,
        spec_logged(old(log).lines@, final(log).lines@, LogLevel::Warn),
{
    log_warn_str(log, "Read programming voltage unimplemented");
    PassthruError::STATUS_NOERROR
}

/// Sets every parameter of a `SET_CONFIG` list on a channel, in order.
/// Reserved codes (at or above 0x20) are skipped with a warning; a code the
/// J2534 enum does not define stops the loop with `NOT_SUPPORTED`; an adapter
/// refusal stops it with that error.
pub fn set_config<L: SerialLink>(
    channels: &mut ChannelComm,
    m2: &mut MacchinaM2,
    link: &mut L,
    last_error: &mut String,
    log: &mut Logger,
    channel_id: u32,
    params: &Vec<SConfig>,
) -> (r: PassthruError)
    requires
        old(channels).wf(),
        old(m2).wf(),
        old(m2).quiescent(),
    ensures
        final(channels).wf(),
        final(channels).slots@ == old(channels).slots@,
        final(m2).wf(),
        final(m2).quiescent(),
        spec_transport_preserved(*old(m2), *final(m2)),
        params@.len() == 0 ==> r == PassthruError::STATUS_NOERROR,
        (forall|i: int|
            0 <= i < params@.len() ==> (#[trigger] params@[i]).parameter
                >= RESERVED_PARAM_FLOOR) ==> r == PassthruError::STATUS_NOERROR,
        params@.len() > 0 && params@[0].parameter < RESERVED_PARAM_FLOOR
            && !spec_ioctl_param_valid(params@[0].parameter) ==> r
            == PassthruError::ERR_NOT_SUPPORTED,
        channel_id >= 4 || old(channels).slots@[channel_id as int] is None ==> (r
            == PassthruError::STATUS_NOERROR || r == PassthruError::ERR_NOT_SUPPORTED || r
            == PassthruError::ERR_INVALID_CHANNEL_ID),
        r == PassthruError::STATUS_NOERROR ==> (forall|i: int|
            0 <= i < params@.len() ==> (#[trigger] params@[i]).parameter >= RESERVED_PARAM_FLOOR
                || spec_ioctl_param_valid(params@[i].parameter)),
{
    let mut i: usize = 0;
    while i < params.len()
        invariant
            i <= params@.len(),
            channels.wf(),
            channels.slots@ == old(channels).slots@,
            m2.wf(),
            m2.quiescent(),
            spec_transport_preserved(*old(m2), *m2),
            forall|j: int|
                0 <= j < i ==> (#[trigger] params@[j]).parameter >= RESERVED_PARAM_FLOOR
                    || spec_ioctl_param_valid(params@[j].parameter),
        decreases params@.len() - i,
    {
        let param = params[i];
        if param.parameter >= RESERVED_PARAM_FLOOR {
            log_warn_str(log, "setconfig param name is reserved / tool specific");
        } else if ioctl_param_valid(param.parameter) {
            match channels.ioctl_set_cfg(m2, link, last_error, channel_id, param.parameter,
                param.value) {
                Ok(()) => {},
                Err(e) => {
                    return e;
                },
            }
        } else {
            return PassthruError::ERR_NOT_SUPPORTED;
        }
        i += 1;
    }
    PassthruError::STATUS_NOERROR
}

/// Fills every parameter of a `GET_CONFIG` list from the channel, in order.
/// Reserved codes are skipped with a warning, unknown codes stop the loop with
/// `NOT_SUPPORTED`, and any adapter fault stops it with `FAILED`.  Parameter
/// codes are never rewritten, only values.
pub fn get_config<L: SerialLink>(
    channels: &mut ChannelComm,
    m2: &mut MacchinaM2,
    link: &mut L,
    last_error: &mut String,
    log: &mut Logger,
    channel_id: u32,
    cfg: &mut Vec<SConfig>,
) -> (r: PassthruError)
    requires
        old(channels).wf(),
        old(m2).wf(),
        old(m2).quiescent(),
    ensures
        final(channels).wf(),
        final(channels).slots@ == old(channels).slots@,
        final(m2).wf(),
        final(m2).quiescent(),
        spec_transport_preserved(*old(m2), *final(m2)),
        final(cfg)@.len() == old(cfg)@.len(),
        forall|i: int|
            0 <= i < old(cfg)@.len() ==> (#[trigger] final(cfg)@[i]).parameter == old(cfg)@[i].parameter,
        forall|i: int|
            0 <= i < old(cfg)@.len() && old(cfg)@[i].parameter >= RESERVED_PARAM_FLOOR ==> (
            #[trigger] final(cfg)@[i]).value == old(cfg)@[i].value,
        old(cfg)@.len() == 0 ==> r == PassthruError::STATUS_NOERROR,
        old(cfg)@.len() > 0 && old(cfg)@[0].parameter < RESERVED_PARAM_FLOOR
            && !spec_ioctl_param_valid(old(cfg)@[0].parameter) ==> r
            == PassthruError::ERR_NOT_SUPPORTED,
        r == PassthruError::STATUS_NOERROR ==> (forall|i: int|
            0 <= i < old(cfg)@.len() ==> (#[trigger] old(cfg)@[i]).parameter
                >= RESERVED_PARAM_FLOOR || spec_ioctl_param_valid(old(cfg)@[i].parameter)),
{
    let mut i: usize = 0;
    while i < cfg.len()
        invariant
            i <= cfg@.len(),
            cfg@.len() == old(cfg)@.len(),
            channels.wf(),
            channels.slots@ == old(channels).slots@,
            m2.wf(),
            m2.quiescent(),
            spec_transport_preserved(*old(m2), *m2),
            forall|j: int|
                0 <= j < cfg@.len() ==> (#[trigger] cfg@[j]).parameter == old(cfg)@[j].parameter,
            forall|j: int|
                i <= j < cfg@.len() ==> (#[trigger] cfg@[j]).value == old(cfg)@[j].value,
            forall|j: int|
                0 <= j < cfg@.len() && old(cfg)@[j].parameter >= RESERVED_PARAM_FLOOR ==> (
                #[trigger] cfg@[j]).value == old(cfg)@[j].value,
            forall|j: int|
                0 <= j < i ==> (#[trigger] old(cfg)@[j]).parameter >= RESERVED_PARAM_FLOOR
                    || spec_ioctl_param_valid(old(cfg)@[j].parameter),
        decreases cfg@.len() - i,
    {
        let param = cfg[i];
        if param.parameter >= RESERVED_PARAM_FLOOR {
            log_warn_str(log, "get config param name is reserved / tool specific");
        } else if ioctl_param_valid(param.parameter) {
            match channels.ioctl_get_cfg(m2, link, last_error, channel_id, param.parameter) {
                Ok(v) => {
                    cfg.set(i, SConfig { parameter: param.parameter, value: v });
                },
                Err(_) => {
                    return PassthruError::ERR_FAILED;
                },
            }
        } else {
            return PassthruError::ERR_NOT_SUPPORTED;
        }
        i += 1;
    }
    PassthruError::STATUS_NOERROR
}

/// Requests a five-baud bus init (`InitLinChannel`, init byte 0).  The host's
/// init payload is stubbed empty today; the adapter's response bytes are
/// returned for the caller to surface.
pub fn five_baud_init<L: SerialLink>(
    m2: &mut MacchinaM2,
    link: &mut L,
    last_error: &mut String,
    channel_id: u32,
) -> (r: Result<Vec<u8>, PassthruError>)
    requires
        old(m2).wf(),
        old(m2).quiescent(),
    ensures
        final(m2).wf(),
        final(m2).quiescent(),
        spec_transport_preserved(*old(m2), *final(m2)),
        r matches Err(e) ==> e != PassthruError::STATUS_NOERROR,
{
    let empty: Vec<u8> = Vec::new();
    let dst = build_init_payload(channel_id, false, empty.as_slice());
    let mut req = CommMsg::new_with_args(MsgType::InitLinChannel, dst.as_slice());
    match m2.write_and_read_ptcmd(link, &mut req, 10000) {
        M2Resp::Success(res) => Ok(res),
        M2Resp::Failure { status, string } => {
            set_error_string(last_error, string);
            Err(status)
        },
    }
}

/// Requests a fast bus init (`InitLinChannel`, init byte 1) carrying the host
/// message's data; the adapter's response bytes are returned for the caller.
pub fn fast_init<L: SerialLink>(
    m2: &mut MacchinaM2,
    link: &mut L,
    last_error: &mut String,
    channel_id: u32,
    input: &PassthruMsg,
) -> (r: Result<Vec<u8>, PassthruError>)
    requires
        old(m2).wf(),
        old(m2).quiescent(),
        input.wf(),
    ensures
        final(m2).wf(),
        final(m2).quiescent(),
        spec_transport_preserved(*old(m2), *final(m2)),
        r matches Err(e) ==> e != PassthruError::STATUS_NOERROR,
{
    let dst = build_init_payload(channel_id, true, input.data.as_slice());
    let mut req = CommMsg::new_with_args(MsgType::InitLinChannel, dst.as_slice());
    match m2.write_and_read_ptcmd(link, &mut req, 10000) {
        M2Resp::Success(res) => Ok(res),
        M2Resp::Failure { status, string } => {
            set_error_string(last_error, string);
            Err(status)
        },
    }
}

/// Clears the transmit side of a channel; nothing is buffered, so this only
/// checks the channel exists.
pub fn clear_tx_buffer(channels: &mut ChannelComm, channel_id: u32) -> (r: PassthruError)
    requires
        old(channels).wf(),
    ensures
        final(channels).wf(),
        final(channels).slots@ == old(channels).slots@,
        channel_id >= 4 || old(channels).slots@[channel_id as int] is None ==> r
            == PassthruError::ERR_INVALID_CHANNEL_ID,
        channel_id < 4 && old(channels).slots@[channel_id as int] is Some ==> r
            == PassthruError::STATUS_NOERROR,
{
    channels.clear_tx_buffer(channel_id)
}

/// Empties the receive queue of a channel.
pub fn clear_rx_buffer(channels: &mut ChannelComm, channel_id: u32) -> (r: PassthruError)
    requires
        old(channels).wf(),
    ensures
        final(channels).wf(),
        channel_id >= 4 || old(channels).slots@[channel_id as int] is None ==> r
            == PassthruError::ERR_INVALID_CHANNEL_ID && final(channels).slots@ == old(channels).slots@,
        channel_id < 4 && old(channels).slots@[channel_id as int] is Some ==> r
            == PassthruError::STATUS_NOERROR && (final(channels).slots@[channel_id as int] matches Some(c1) && c1.rx_data@.len() == 0),
{
    channels.clear_rx_buffer(channel_id)
}

/// Periodic messages are not scheduled by this driver; the stub warns and
/// reports success without transport I/O.
#[allow(unused_variables)]
pub fn clear_periodic_msgs(log: &mut Logger, channel_id: u32) -> (r: PassthruError)
    ensures
        r == PassthruError::STATUS_NOERROR,
        spec_logged(old(log).lines@, final(log).lines@, LogLevel::Warn),
{
    log_warn_str(log, "Clear periodic messages unimplemented");
    PassthruError::STATUS_NOERROR
}

/// Filters are cleared one by one by the host today; the bulk stub warns and
/// reports success without transport I/O.
#[allow(unused_variables)]
pub fn clear_msg_filters(log: &mut Logger, channel_id: u32) -> (r: PassthruError)
    ensures
        r == PassthruError::STATUS_NOERROR,
        spec_logged(old(log).lines@, final(log).lines@, LogLevel::Warn),
{
    log_warn_str(log, "Clear message filters unimplemented");
    PassthruError::STATUS_NOERROR
}

/// Functional-message lookup tables are not kept by this driver; the stub
/// warns and reports success without transport I/O.
#[allow(unused_variables)]
pub fn clear_funct_msg_lookup_table(log: &mut Logger, channel_id: u32) -> (r: PassthruError)
    ensures
        r == PassthruError::STATUS_NOERROR,
        spec_logged(old(log).lines@, final(log).lines@, LogLevel::Warn),
{
    log_warn_str(log, "Clear message lookup table unimplemented");
    PassthruError::STATUS_NOERROR
}

/// See `clear_funct_msg_lookup_table`: the table is not kept, so adding is a
/// warned stub that reports success.
#[allow(unused_variables)]
pub fn add_to_funct_msg_lookup_table(log: &mut Logger, channel_id: u32, input: &Vec<u8>) -> (r:
    PassthruError)
    ensures
        r == PassthruError::STATUS_NOERROR,
        spec_logged(old(log).lines@, final(log).lines@, LogLevel::Warn),
{
    log_warn_str(log, "Add to function message lookup table unimplemented");
    PassthruError::STATUS_NOERROR
}

/// See `clear_funct_msg_lookup_table`: the table is not kept, so deleting is a
/// warned stub that reports success.
#[allow(unused_variables)]
pub fn delete_from_funct_msg_lookup_table(log: &mut Logger, channel_id: u32, input: &Vec<u8>) -> (
    r: PassthruError)
    ensures
        r == PassthruError::STATUS_NOERROR,
        spec_logged(old(log).lines@, final(log).lines@, LogLevel::Warn),
{
    log_warn_str(log, "Delete from function message lookup table unimplemented");
    PassthruError::STATUS_NOERROR
}

} // verus!
