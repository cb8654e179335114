//! The PassThru call surface: the process-wide driver state and the operations
//! the ABI entry points delegate to.  Pointer marshalling stays outside the
//! library; these functions take and return owned values.

use vstd::prelude::*;

use crate::channels::{spec_channel_index, spec_chan_config_eq, spec_family_of, ChannelComm,
    MAX_FILTERS_PER_CHANNEL, NUM_CHANNELS};
use crate::comm::{spec_transport_preserved, MacchinaM2, SerialLink};
use crate::frame::{CommMsg, MsgType};
use crate::ioctl;
use crate::j2534::{
    spec_ioctl_id_from_raw, spec_protocol_code, spec_protocol_from_raw, FilterType, IoctlID,
    PassthruError, PassthruMsg, Protocol, SConfig,
};
use crate::logger::{log_error_str, log_info_str, Logger};

verus! {

/// The device id this driver hands to the host on open.
pub const DEVICE_ID: u32 = 0x1234;

/// Records a description of the last failure; the host reads it back through
/// `passthru_get_last_error`.
pub fn set_error_string(last_error: &mut String, input: String)
    ensures
        final(last_error)@ == input@,
{
    *last_error = input;
}

/// The J2534 API version this driver implements.
pub fn api_version() -> (r: String)
    ensures
        r@ == "04.04"@,
{
    "04.04".to_owned()
}

/// This driver's own version.
pub fn dll_version() -> (r: String)
    ensures
        r@ == "1.0.0"@,
{
    "1.0.0".to_owned()
}

// ----------------------------------------------------------------------------
// Configuration lookup
// ----------------------------------------------------------------------------

/// The `COM-PORT` string field of a JSON configuration text: a function of the
/// text alone.
pub uninterp spec fn config_com_port(s: Seq<char>) -> Option<Seq<char>>;

/// Relies on serde_json (`from_str`, `Value::get`, `Value::as_str`): reads the
/// `COM-PORT` string field of a JSON document; the result depends on the text
/// alone.
#[verifier::external_body]
fn json_com_port(text: &str) -> (r: Option<String>)
    ensures
        r matches Some(p) ==> config_com_port(text@) == Some(p@),
        r is None ==> config_com_port(text@) is None,
{
    match serde_json::from_str::<serde_json::Value>(text) {
        Ok(v) => v.get("COM-PORT").and_then(|p| p.as_str()).map(String::from),
        Err(_) => None,
    }
}

/// Reads the serial device path from the adapter's configuration text (the
/// JSON file on Unix; the registry value arrives as the same shape of text).
pub fn com_port_from_config(text: &str) -> (r: Option<String>)
    ensures
        r matches Some(p) ==> config_com_port(text@) == Some(p@),
        r is None ==> config_com_port(text@) is None,
{
    json_com_port(text)
}

// ----------------------------------------------------------------------------
// Driver state
// ----------------------------------------------------------------------------

/// Everything the driver holds for the process: the transport (present while
/// the host keeps the device open), the channel slots, the last-error text and
/// the last battery reading.
pub struct DriverState {
    pub m2: Option<MacchinaM2>,
    pub channels: ChannelComm,
    pub last_error: String,
    pub last_vbatt: u32,
}

impl DriverState {
    /// Driver invariant: the channel table is well formed, an open transport
    /// is well formed and quiescent between calls, and no channel outlives the
    /// transport.
    pub open spec fn wf(self) -> bool {
        &&& self.channels.wf()
        &&& (self.m2 matches Some(t) ==> t.wf() && t.quiescent())
        &&& (self.m2 is None ==> forall|i: int|
            0 <= i < NUM_CHANNELS ==> (#[trigger] self.channels.slots@[i]) is None)
    }

    /// The state before the host opens the device.
    pub fn new() -> (r: DriverState)
        ensures
            r.wf(),
            r.m2 is None,
            r.last_error@ == Seq::<char>::empty(),
            r.last_vbatt == 0,
    {
        DriverState {
            m2: None,
            channels: ChannelComm::new(),
            last_error: String::new(),
            last_vbatt: 0,
        }
    }
}

// ----------------------------------------------------------------------------
// Open / close
// ----------------------------------------------------------------------------

/// Opens the device: refuses a second open with `DEVICE_IN_USE`, else opens
/// the link, sends the hello frame (`StatusMsg` 0x01), and hands the host the
/// constant device id 0x1234.
pub fn passthru_open<L: SerialLink>(drv: &mut DriverState, link: &mut L, log: &mut Logger) -> (r:
    Result<u32, PassthruError>)
    requires
        old(drv).wf(),
    ensures
        final(drv).wf(),
        old(drv).m2 is Some ==> ((r matches Err(e) && e == PassthruError::ERR_DEVICE_IN_USE)
            && final(drv).m2 == old(drv).m2 && final(drv).channels.slots@ == old(drv).channels.slots@),
        r matches Ok(id) ==> (id == DEVICE_ID && (final(drv).m2 matches Some(t) && t.is_running
            && t.quiescent() && t.msg_id_counter == 1) && final(drv).channels.slots@ == old(
            drv,
        ).channels.slots@),
        r is Err && old(drv).m2 is None ==> final(drv).m2 is None,
        old(drv).m2 is None ==> (r matches Err(e) ==> e
            == PassthruError::ERR_DEVICE_NOT_CONNECTED),
        r matches Err(e) ==> (e == PassthruError::ERR_DEVICE_IN_USE || e
            == PassthruError::ERR_DEVICE_NOT_CONNECTED),
{
    log_info_str(log, "PassthruOpen called");
    if drv.m2.is_some() {
        return Err(PassthruError::ERR_DEVICE_IN_USE);
    }
    if !link.open() {
        set_error_string(&mut drv.last_error, "Serial port open failed".to_owned());
        return Err(PassthruError::ERR_DEVICE_NOT_CONNECTED);
    }
    let mut hello_args: Vec<u8> = Vec::new();
    hello_args.push(0x01);
    let hello = CommMsg::new_with_args(MsgType::StatusMsg, hello_args.as_slice());
    let bytes = hello.to_slice();
    if !link.send(&bytes) {
        link.close();
        set_error_string(&mut drv.last_error, "Timeout writing init struct".to_owned());
        return Err(PassthruError::ERR_DEVICE_NOT_CONNECTED);
    }
    drv.m2 = Some(MacchinaM2::new());
    Ok(DEVICE_ID)
}

/// Closes the device.  A foreign device id is `INVALID_DEVICE_ID`; otherwise
/// the transport is stopped, the exit frame (`StatusMsg` 0x00) is sent best
/// effort, every channel slot is emptied without a round trip, and closing an
/// already-closed device still succeeds.
pub fn passthru_close<L: SerialLink>(
    drv: &mut DriverState,
    link: &mut L,
    log: &mut Logger,
    device_id: u32,
) -> (r: PassthruError)
    requires
        old(drv).wf(),
    ensures
        final(drv).wf(),
        (device_id != DEVICE_ID) <==> r == PassthruError::ERR_INVALID_DEVICE_ID,
        device_id != DEVICE_ID ==> final(drv).m2 == old(drv).m2 && final(drv).channels.slots@
            == old(drv).channels.slots@,
        device_id == DEVICE_ID ==> (r == PassthruError::STATUS_NOERROR && final(drv).m2 is None
            && (forall|i: int|
            0 <= i < NUM_CHANNELS ==> (#[trigger] final(drv).channels.slots@[i]) is None)),
{
    log_info_str(log, "PassthruClose called");
    if device_id != DEVICE_ID {
        return PassthruError::ERR_INVALID_DEVICE_ID;
    }
    match &mut drv.m2 {
        Some(dev) => {
            dev.stop();
            let mut exit_args: Vec<u8> = Vec::new();
            exit_args.push(0x00);
            let exit_msg = CommMsg::new_with_args(MsgType::StatusMsg, exit_args.as_slice());
            match dev.write_comm_struct(link, &mut drv.last_error, exit_msg) {
                Ok(()) => {},
                Err(_) => {
                    log_error_str(log, "Could not write exit message to M2");
                },
            }
            link.close();
            drv.channels.force_destroy_all_channels();
            drv.m2 = None;
            PassthruError::STATUS_NOERROR
        },
        None => PassthruError::STATUS_NOERROR,
    }
}

// ----------------------------------------------------------------------------
// Connect / disconnect
// ----------------------------------------------------------------------------

/// Connects a logical channel: validates the device id and the protocol, then
/// claims the protocol family's slot.  The returned channel id is the family
/// index 0..=3.
pub fn passthru_connect<L: SerialLink>(
    drv: &mut DriverState,
    link: &mut L,
    log: &mut Logger,
    device_id: u32,
    protocol_id: u32,
    flags: u32,
    baud_rate: u32,
) -> (r: Result<u32, PassthruError>)
    requires
        old(drv).wf(),
    ensures
        final(drv).wf(),
        (final(drv).m2 is Some) == (old(drv).m2 is Some),
        old(drv).m2 matches Some(t0) ==> (final(drv).m2 matches Some(t1)
            && spec_transport_preserved(t0, t1)),
        device_id != DEVICE_ID ==> ((r matches Err(e) && e == PassthruError::ERR_INVALID_DEVICE_ID)
            && final(drv).channels.slots@ == old(drv).channels.slots@),
        device_id == DEVICE_ID && spec_protocol_from_raw(protocol_id) is None ==> ((r matches Err(
            e,
        ) && e == PassthruError::ERR_INVALID_PROTOCOL_ID) && final(drv).channels.slots@ == old(drv).channels.slots@),
        device_id == DEVICE_ID && spec_protocol_from_raw(protocol_id) is Some && old(drv).m2
            is None ==> ((r matches Err(e) && e == PassthruError::ERR_DEVICE_NOT_CONNECTED)
            && final(drv).channels.slots@ == old(drv).channels.slots@),
        device_id == DEVICE_ID ==> (spec_protocol_from_raw(protocol_id) matches Some(p) ==> ({
            &&& (old(drv).m2 is Some && old(drv).channels.slots@[spec_channel_index(
                spec_family_of(p),
            ) as int] is Some ==> ((r matches Err(e) && e == PassthruError::ERR_CHANNEL_IN_USE)
                && final(drv).channels.slots@ == old(drv).channels.slots@))
            &&& (r matches Ok(id) ==> ({
                let idx = spec_channel_index(spec_family_of(p)) as int;
                &&& id == spec_channel_index(spec_family_of(p))
                &&& old(drv).channels.slots@[idx] is None
                &&& (final(drv).channels.slots@[idx] matches Some(c) && c.protocol == p
                    && c.baud_rate == baud_rate && c.flags == flags && c.rx_data@.len() == 0 && (
                forall|j: int| 0 <= j < MAX_FILTERS_PER_CHANNEL ==> !c.filters@[j]))
                &&& (forall|j: int|
                    0 <= j < NUM_CHANNELS && j != idx ==> final(drv).channels.slots@[j] == old(drv).channels.slots@[j])
            }))
        })),
        r is Err ==> final(drv).channels.slots@ == old(drv).channels.slots@,
{
    if device_id != DEVICE_ID {
        set_error_string(&mut drv.last_error, "Not M2s device ID".to_owned());
        return Err(PassthruError::ERR_INVALID_DEVICE_ID);
    }
    match Protocol::from_raw(protocol_id) {
        None => {
            log_error_str(log, "Protocol ID is not recognised");
            Err(PassthruError::ERR_INVALID_PROTOCOL_ID)
        },
        Some(protocol) => {
            match &mut drv.m2 {
                None => Err(PassthruError::ERR_DEVICE_NOT_CONNECTED),
                Some(dev) => {
                    drv.channels.create_channel(
                        dev,
                        link,
                        &mut drv.last_error,
                        protocol,
                        baud_rate,
                        flags,
                    )
                },
            }
        },
    }
}

/// Destroys the channel the host names; the slot is released whatever the
/// adapter answers.
pub fn passthru_disconnect<L: SerialLink>(
    drv: &mut DriverState,
    link: &mut L,
    log: &mut Logger,
    channel_id: u32,
) -> (r: PassthruError)
    requires
        old(drv).wf(),
    ensures
        final(drv).wf(),
        (final(drv).m2 is Some) == (old(drv).m2 is Some),
        old(drv).m2 matches Some(t0) ==> (final(drv).m2 matches Some(t1)
            && spec_transport_preserved(t0, t1)),
        channel_id >= 4 || old(drv).channels.slots@[channel_id as int] is None ==> (r
            == PassthruError::ERR_INVALID_CHANNEL_ID && final(drv).channels.slots@ == old(drv).channels.slots@),
        channel_id < 4 && old(drv).channels.slots@[channel_id as int] is Some ==> (r
            == PassthruError::STATUS_NOERROR && final(drv).channels.slots@[channel_id as int]
            is None && (forall|j: int|
            0 <= j < NUM_CHANNELS && j != channel_id ==> final(drv).channels.slots@[j] == old(drv).channels.slots@[j])),
{
    match &mut drv.m2 {
        None => PassthruError::ERR_INVALID_CHANNEL_ID,
        Some(dev) => {
            match drv.channels.destroy_channel(dev, link, log, channel_id) {
                Ok(()) => PassthruError::STATUS_NOERROR,
                Err(e) => e,
            }
        },
    }
}

// ----------------------------------------------------------------------------
// Version and last error
// ----------------------------------------------------------------------------

/// Queries the adapter's firmware version and pairs it with the driver and API
/// version constants.
pub fn passthru_read_version<L: SerialLink>(drv: &mut DriverState, link: &mut L, log: &mut Logger)
    -> (r: Result<(String, String, String), PassthruError>)
    requires
        old(drv).wf(),
    ensures
        final(drv).wf(),
        final(drv).channels.slots@ == old(drv).channels.slots@,
        old(drv).m2 matches Some(t0) ==> (final(drv).m2 matches Some(t1)
            && spec_transport_preserved(t0, t1)),
        old(drv).m2 is None ==> (r matches Err(e) && e == PassthruError::ERR_DEVICE_NOT_CONNECTED),
        r matches Ok(v) ==> (v.1@ == "1.0.0"@ && v.2@ == "04.04"@),
{
    match &mut drv.m2 {
        None => Err(PassthruError::ERR_DEVICE_NOT_CONNECTED),
        Some(dev) => {
            let mut msg = CommMsg::new(MsgType::GetFwVersion);
            match dev.write_and_read_ptcmd(link, &mut msg, 250) {
                crate::comm::M2Resp::Success(args) => {
                    let fw = crate::comm::utf8_lossy(args.as_slice());
                    Ok((fw, dll_version(), api_version()))
                },
                crate::comm::M2Resp::Failure { status, string: _ } => {
                    log_error_str(log, "M2 failed to respond to FW_VERSION request");
                    Err(status)
                },
            }
        },
    }
}

/// Hands back the process-wide last-error text.
pub fn passthru_get_last_error(drv: &DriverState) -> (r: String)
    ensures
        r@ == drv.last_error@,
{
    drv.last_error.clone()
}

// ----------------------------------------------------------------------------
// Filters
// ----------------------------------------------------------------------------

/// Installs a message filter: mask and pattern are mandatory, flow control
/// only for a flow-control filter; the filter id handed back is the slot, the
/// lowest free one.
pub fn set_channel_filter<L: SerialLink>(
    drv: &mut DriverState,
    link: &mut L,
    channel_id: u32,
    filter_type: FilterType,
    mask: Option<&PassthruMsg>,
    pattern: Option<&PassthruMsg>,
    fc: Option<&PassthruMsg>,
) -> (r: Result<u32, PassthruError>)
    requires
        old(drv).wf(),
        mask matches Some(m) ==> m.wf(),
        pattern matches Some(m) ==> m.wf(),
        fc matches Some(m) ==> m.wf(),
    ensures
        final(drv).wf(),
        (final(drv).m2 is Some) == (old(drv).m2 is Some),
        old(drv).m2 matches Some(t0) ==> (final(drv).m2 matches Some(t1)
            && spec_transport_preserved(t0, t1)),
        mask is None || pattern is None ==> ((r matches Err(e) && e
            == PassthruError::ERR_NULL_PARAMETER) && final(drv).channels.slots@ == old(drv).channels.slots@),
        mask is Some && pattern is Some && filter_type == FilterType::FLOW_CONTROL_FILTER && fc
            is None ==> ((r matches Err(e) && e == PassthruError::ERR_NULL_PARAMETER) && final(drv).channels.slots@ == old(drv).channels.slots@),
        mask is Some && pattern is Some && old(drv).m2 is None ==> (r is Err && final(drv).channels.slots@ == old(drv).channels.slots@),
        channel_id >= 4 || old(drv).channels.slots@[channel_id as int] is None ==> (r is Err
            && final(drv).channels.slots@ == old(drv).channels.slots@),
        channel_id < 4 ==> (old(drv).channels.slots@[channel_id as int] matches Some(c0) ==> ({
            &&& (mask is Some && pattern is Some && old(drv).m2 is Some && (forall|j: int|
                0 <= j < MAX_FILTERS_PER_CHANNEL ==> c0.filters@[j]) && !(filter_type
                == FilterType::FLOW_CONTROL_FILTER && fc is None) ==> (r matches Err(e) && e
                == PassthruError::ERR_EXCEEDED_LIMIT))
            &&& (r matches Ok(slot) ==> ({
                &&& slot < MAX_FILTERS_PER_CHANNEL
                &&& !c0.filters@[slot as int]
                &&& forall|j: int| 0 <= j < slot ==> c0.filters@[j]
                &&& (final(drv).channels.slots@[channel_id as int] matches Some(c1)
                    && spec_chan_config_eq(c1, c0) && c1.rx_data@ == c0.rx_data@ && c1.filters@
                    == c0.filters@.update(slot as int, true))
            }))
        })),
{
    if mask.is_none() || pattern.is_none() {
        return Err(PassthruError::ERR_NULL_PARAMETER);
    }
    if filter_type == FilterType::FLOW_CONTROL_FILTER && fc.is_none() {
        return Err(PassthruError::ERR_NULL_PARAMETER);
    }
    let mask_msg = mask.unwrap();
    let pattern_msg = pattern.unwrap();
    match &mut drv.m2 {
        None => Err(PassthruError::ERR_DEVICE_NOT_CONNECTED),
        Some(dev) => {
            match fc {
                Some(fc_msg) => {
                    drv.channels.create_channel_filter(
                        dev,
                        link,
                        &mut drv.last_error,
                        channel_id,
                        filter_type,
                        mask_msg.data.as_slice(),
                        pattern_msg.data.as_slice(),
                        fc_msg.data.as_slice(),
                    )
                },
                None => {
                    let empty: Vec<u8> = Vec::new();
                    drv.channels.create_channel_filter(
                        dev,
                        link,
                        &mut drv.last_error,
                        channel_id,
                        filter_type,
                        mask_msg.data.as_slice(),
                        pattern_msg.data.as_slice(),
                        empty.as_slice(),
                    )
                },
            }
        },
    }
}

/// Removes a message filter by its slot id.
pub fn del_channel_filter<L: SerialLink>(
    drv: &mut DriverState,
    link: &mut L,
    channel_id: u32,
    filter_id: u32,
) -> (r: PassthruError)
    requires
        old(drv).wf(),
    ensures
        final(drv).wf(),
        (final(drv).m2 is Some) == (old(drv).m2 is Some),
        old(drv).m2 matches Some(t0) ==> (final(drv).m2 matches Some(t1)
            && spec_transport_preserved(t0, t1)),
        old(drv).m2 is None ==> r != PassthruError::STATUS_NOERROR && final(drv).channels.slots@
            == old(drv).channels.slots@,
        channel_id >= 4 || old(drv).channels.slots@[channel_id as int] is None ==> (r
            == PassthruError::ERR_INVALID_CHANNEL_ID && final(drv).channels.slots@ == old(drv).channels.slots@),
        channel_id < 4 ==> (old(drv).channels.slots@[channel_id as int] matches Some(c0) ==> ({
            &&& (old(drv).m2 is Some && (filter_id >= MAX_FILTERS_PER_CHANNEL
                || !c0.filters@[filter_id as int]) ==> r == PassthruError::ERR_INVALID_MSG_ID)
            &&& (r == PassthruError::STATUS_NOERROR ==> filter_id < MAX_FILTERS_PER_CHANNEL
                && c0.filters@[filter_id as int] && (final(drv).channels.slots@[channel_id as int] matches Some(c1) && spec_chan_config_eq(c1, c0)
                && c1.rx_data@ == c0.rx_data@ && c1.filters@ == c0.filters@.update(
                filter_id as int,
                false,
            )))
        })),
{
    match &mut drv.m2 {
        None => PassthruError::ERR_INVALID_CHANNEL_ID,
        Some(dev) => {
            match drv.channels.remove_filter(dev, link, &mut drv.last_error, channel_id, filter_id)
            {
                Ok(()) => PassthruError::STATUS_NOERROR,
                Err(e) => e,
            }
        },
    }
}

// ----------------------------------------------------------------------------
// Batch reads and writes
// ----------------------------------------------------------------------------

/// Transmits a batch of host messages in order.  A zero timeout means
/// fire-and-forget transmission; otherwise each message waits for the
/// adapter's answer.  The count of messages actually sent comes back with the
/// status, and the batch stops at the first failure.
#[verifier::loop_isolation(false)]
pub fn write_msgs<L: SerialLink>(
    drv: &mut DriverState,
    link: &mut L,
    channel_id: u32,
    msgs: &Vec<PassthruMsg>,
    timeout_ms: u32,
) -> (r: (PassthruError, u32))
    requires
        old(drv).wf(),
        forall|i: int| 0 <= i < msgs@.len() ==> (#[trigger] msgs@[i]).wf(),
        msgs@.len() <= 0xFFFF_FFFF,
    ensures
        final(drv).wf(),
        (final(drv).m2 is Some) == (old(drv).m2 is Some),
        old(drv).m2 matches Some(t0) ==> (final(drv).m2 matches Some(t1)
            && spec_transport_preserved(t0, t1)),
        final(drv).channels.slots@ == old(drv).channels.slots@,
        r.1 <= msgs@.len(),
        r.0 == PassthruError::STATUS_NOERROR ==> r.1 == msgs@.len(),
        timeout_ms == 0 ==> r.0 != PassthruError::ERR_TIMEOUT,
        msgs@.len() == 0 ==> r.0 == PassthruError::STATUS_NOERROR && r.1 == 0,
        old(drv).m2 is None && msgs@.len() > 0 ==> (r.0 == PassthruError::ERR_DEVICE_NOT_CONNECTED
            && r.1 == 0),
        old(drv).m2 is Some && msgs@.len() > 0 && (channel_id >= 4 || old(drv).channels.slots@[channel_id as int] is None) ==> (r.0
            == PassthruError::ERR_INVALID_CHANNEL_ID && r.1 == 0),
        old(drv).m2 is Some && msgs@.len() > 0 && channel_id < 4 ==> (old(drv).channels.slots@[channel_id as int] matches Some(c0) ==> (msgs@[0].protocol_id
            != spec_protocol_code(c0.protocol) ==> (r.0 == PassthruError::ERR_MSG_PROTOCOL_ID
            && r.1 == 0))),
{
    if msgs.len() == 0 {
        return (PassthruError::STATUS_NOERROR, 0);
    }
    let mut dev = match drv.m2.take() {
        None => {
            return (PassthruError::ERR_DEVICE_NOT_CONNECTED, 0);
        },
        Some(d) => d,
    };
    let mut count: u32 = 0;
    let mut i: usize = 0;
    while i < msgs.len()
        invariant
            i <= msgs@.len(),
            msgs@.len() <= 0xFFFF_FFFF,
            count == i,
            forall|k: int| 0 <= k < msgs@.len() ==> (#[trigger] msgs@[k]).wf(),
            drv.channels.wf(),
            drv.channels.slots@ == old(drv).channels.slots@,
            dev.wf(),
            dev.quiescent(),
            old(drv).m2 matches Some(t0) ==> spec_transport_preserved(t0, dev),
            i > 0 ==> channel_id < 4 && old(drv).channels.slots@[channel_id as int] is Some,
            i > 0 && channel_id < 4 ==> (old(drv).channels.slots@[channel_id as int] matches Some(
                c0,
            ) ==> msgs@[0].protocol_id == spec_protocol_code(c0.protocol)),
        decreases msgs@.len() - i,
    {
        match drv.channels.write_channel_data(
            &mut dev,
            link,
            &mut drv.last_error,
            channel_id,
            &msgs[i],
            timeout_ms != 0,
        ) {
            Ok(()) => {},
            Err(e) => {
                drv.m2 = Some(dev);
                return (e, count);
            },
        }
        count += 1;
        i += 1;
    }
    drv.m2 = Some(dev);
    (PassthruError::STATUS_NOERROR, count)
}

/// Reads up to `max_msgs` messages from a channel's receive queue, oldest
/// first: exactly the queue's prefix comes back and the queue keeps the rest.
/// With a zero timeout an exhausted queue reports `BUFFER_EMPTY`; with a
/// nonzero timeout the caller keeps polling until its deadline.
#[verifier::loop_isolation(false)]
pub fn read_msgs(drv: &mut DriverState, channel_id: u32, max_msgs: u32, timeout_ms: u32) -> (r: (
    PassthruError,
    Vec<PassthruMsg>,
))
    requires
        old(drv).wf(),
    ensures
        final(drv).wf(),
        final(drv).m2 == old(drv).m2,
        channel_id >= 4 ==> (r.0 == PassthruError::ERR_INVALID_CHANNEL_ID && r.1@.len() == 0
            && final(drv).channels.slots@ == old(drv).channels.slots@),
        channel_id < 4 && max_msgs > 0 && old(drv).channels.slots@[channel_id as int] is None
            ==> (r.0 == PassthruError::ERR_INVALID_CHANNEL_ID && r.1@.len() == 0 && final(drv).channels.slots@ == old(drv).channels.slots@),
        channel_id < 4 && max_msgs == 0 ==> (r.0 == PassthruError::STATUS_NOERROR && r.1@.len()
            == 0 && final(drv).channels.slots@ == old(drv).channels.slots@),
        channel_id < 4 ==> (old(drv).channels.slots@[channel_id as int] matches Some(c0) ==> ({
            let n = if c0.rx_data@.len() <= max_msgs {
                c0.rx_data@.len() as int
            } else {
                max_msgs as int
            };
            &&& r.1@ == c0.rx_data@.take(n)
            &&& (final(drv).channels.slots@[channel_id as int] matches Some(c1)
                && spec_chan_config_eq(c1, c0) && c1.filters@ == c0.filters@ && c1.rx_data@
                == c0.rx_data@.skip(n))
            &&& (forall|j: int|
                0 <= j < NUM_CHANNELS && j != channel_id ==> final(drv).channels.slots@[j] == old(drv).channels.slots@[j])
            &&& r.0 == if c0.rx_data@.len() >= max_msgs {
                PassthruError::STATUS_NOERROR
            } else if timeout_ms == 0 {
                PassthruError::ERR_BUFFER_EMPTY
            } else {
                PassthruError::STATUS_NOERROR
            }
        })),
{
    let mut out: Vec<PassthruMsg> = Vec::new();
    if channel_id >= 4 {
        return (PassthruError::ERR_INVALID_CHANNEL_ID, out);
    }
    let ghost c0_opt = drv.channels.slots@[channel_id as int];
    let mut i: u32 = 0;
    proof {
        if c0_opt is Some {
            let c0 = c0_opt->Some_0;
            assert(c0.rx_data@.skip(0) =~= c0.rx_data@);
            assert(out@ =~= c0.rx_data@.take(0));
        }
    }
    while i < max_msgs
        invariant
            drv.channels.wf(),
            drv.m2 == old(drv).m2,
            drv.last_error == old(drv).last_error,
            drv.last_vbatt == old(drv).last_vbatt,
            channel_id < 4,
            c0_opt == old(drv).channels.slots@[channel_id as int],
            c0_opt is None ==> i == 0 && out@.len() == 0,
            i == 0 ==> drv.channels.slots@ == old(drv).channels.slots@ && out@.len() == 0,
            c0_opt matches Some(c0) ==> ({
                &&& i <= c0.rx_data@.len()
                &&& i <= max_msgs
                &&& out@ == c0.rx_data@.take(i as int)
                &&& (drv.channels.slots@[channel_id as int] matches Some(c1)
                    && spec_chan_config_eq(c1, c0) && c1.filters@ == c0.filters@ && c1.rx_data@
                    == c0.rx_data@.skip(i as int))
                &&& (forall|j: int|
                    0 <= j < NUM_CHANNELS && j != channel_id ==> drv.channels.slots@[j] == old(drv).channels.slots@[j])
            }),
            old(drv).wf(),
        decreases max_msgs - i,
    {
        match drv.channels.read_channel_data(channel_id) {
            Err(e) => {
                return (e, out);
            },
            Ok(Some(m)) => {
                proof {
                    let c0 = c0_opt->Some_0;
                    assert(c0.rx_data@.skip(i as int)[0] == c0.rx_data@[i as int]);
                    assert(c0.rx_data@.take(i as int).push(c0.rx_data@[i as int]) =~= c0.rx_data@.take(i + 1));
                    assert(c0.rx_data@.skip(i as int).skip(1) =~= c0.rx_data@.skip(i + 1));
                }
                out.push(m);
                i += 1;
            },
            Ok(None) => {
                proof {
                    let c0 = c0_opt->Some_0;
                    assert(c0.rx_data@.take(i as int) =~= c0.rx_data@.take(
                        if c0.rx_data@.len() <= max_msgs {
                            c0.rx_data@.len() as int
                        } else {
                            max_msgs as int
                        },
                    ));
                }
                if timeout_ms == 0 {
                    return (PassthruError::ERR_BUFFER_EMPTY, out);
                } else {
                    return (PassthruError::STATUS_NOERROR, out);
                }
            },
        }
    }
    (PassthruError::STATUS_NOERROR, out)
}

// ----------------------------------------------------------------------------
// IOCTL dispatch
// ----------------------------------------------------------------------------

/// What the host's IOCTL input pointer held, already marshalled to owned
/// values; `NoInput` stands for a null pointer.
pub enum IoctlInput {
    NoInput,
    Config(Vec<SConfig>),
    Bytes(Vec<u8>),
    Msg(PassthruMsg),
}

/// What the driver writes back through the host's IOCTL output pointer;
/// `NoOutput` means the pointer is left alone.
pub enum IoctlOutput {
    NoOutput,
    Value(u32),
    Config(Vec<SConfig>),
}

/// Dispatches one IOCTL per the J2534 table: validates the IOCTL id and the
/// required input and output pointers, then runs the operation against the
/// channel or the adapter.
pub fn passthru_ioctl<L: SerialLink>(
    drv: &mut DriverState,
    link: &mut L,
    log: &mut Logger,
    handle_id: u32,
    ioctl_id: u32,
    input: IoctlInput,
    output_present: bool,
) -> (r: (PassthruError, IoctlOutput))
    requires
        old(drv).wf(),
        input matches IoctlInput::Msg(m) ==> m.wf(),
    ensures
        final(drv).wf(),
        spec_ioctl_id_from_raw(ioctl_id) is None ==> (r.0 == PassthruError::ERR_INVALID_IOCTL_ID
            && r.1 is NoOutput),
        spec_ioctl_id_from_raw(ioctl_id) == Some(IoctlID::READ_VBATT) ==> ({
            &&& (!output_present ==> r.0 == PassthruError::ERR_NULL_PARAMETER)
            &&& (output_present && old(drv).m2 is None ==> r.0
                == PassthruError::ERR_DEVICE_NOT_CONNECTED)
            &&& (output_present && r.0 == PassthruError::STATUS_NOERROR ==> (r.1 matches
                IoctlOutput::Value(v) && final(drv).last_vbatt == v))
        }),
        spec_ioctl_id_from_raw(ioctl_id) == Some(IoctlID::READ_PROG_VOLTAGE) ==> ({
            &&& (!output_present ==> r.0 == PassthruError::ERR_NULL_PARAMETER)
            &&& (output_present ==> r.0 == PassthruError::STATUS_NOERROR)
        }),
        spec_ioctl_id_from_raw(ioctl_id) == Some(IoctlID::SET_CONFIG) && !(input matches
            IoctlInput::Config(l)) ==> r.0 == PassthruError::ERR_NULL_PARAMETER,
        spec_ioctl_id_from_raw(ioctl_id) == Some(IoctlID::GET_CONFIG) ==> ({
            &&& (!(input matches IoctlInput::Config(l)) ==> r.0
                == PassthruError::ERR_NULL_PARAMETER)
            &&& (input matches IoctlInput::Config(list) ==> (old(drv).m2 is Some ==> (r.1 matches
                IoctlOutput::Config(out) && out@.len() == list@.len() && (forall|i: int|
                0 <= i < list@.len() ==> (#[trigger] out@[i]).parameter == list@[i].parameter))))
        }),
        spec_ioctl_id_from_raw(ioctl_id) == Some(IoctlID::FIVE_BAUD_INIT) && (!(input matches
            IoctlInput::Bytes(b)) || !output_present) ==> r.0
            == PassthruError::ERR_NULL_PARAMETER,
        spec_ioctl_id_from_raw(ioctl_id) == Some(IoctlID::FAST_INIT) && (!(input matches
            IoctlInput::Msg(m)) || !output_present) ==> r.0 == PassthruError::ERR_NULL_PARAMETER,
        spec_ioctl_id_from_raw(ioctl_id) == Some(IoctlID::CLEAR_TX_BUFFER) ==> ({
            &&& (handle_id >= 4 || old(drv).channels.slots@[handle_id as int] is None ==> r.0
                == PassthruError::ERR_INVALID_CHANNEL_ID)
            &&& (handle_id < 4 && old(drv).channels.slots@[handle_id as int] is Some ==> r.0
                == PassthruError::STATUS_NOERROR)
        }),
        spec_ioctl_id_from_raw(ioctl_id) == Some(IoctlID::CLEAR_RX_BUFFER) ==> ({
            &&& (handle_id >= 4 || old(drv).channels.slots@[handle_id as int] is None ==> r.0
                == PassthruError::ERR_INVALID_CHANNEL_ID)
            &&& (handle_id < 4 && old(drv).channels.slots@[handle_id as int] is Some ==> (r.0
                == PassthruError::STATUS_NOERROR && (final(drv).channels.slots@[handle_id as int] matches Some(c1) && c1.rx_data@.len() == 0)))
        }),
        spec_ioctl_id_from_raw(ioctl_id) == Some(IoctlID::CLEAR_PERIODIC_MSGS)
            || spec_ioctl_id_from_raw(ioctl_id) == Some(IoctlID::CLEAR_MSG_FILTERS)
            || spec_ioctl_id_from_raw(ioctl_id) == Some(IoctlID::CLEAR_FUNCT_MSG_LOOKUP_TABLE)
            ==> r.0 == PassthruError::STATUS_NOERROR,
        spec_ioctl_id_from_raw(ioctl_id) == Some(IoctlID::ADD_TO_FUNCT_MSG_LOOKUP_TABLE)
            || spec_ioctl_id_from_raw(ioctl_id) == Some(
            IoctlID::DELETE_FROM_FUNCT_MSG_LOOKUP_TABLE,
        ) ==> ({
            &&& (!(input matches IoctlInput::Bytes(b)) ==> r.0
                == PassthruError::ERR_NULL_PARAMETER)
            &&& (input matches IoctlInput::Bytes(b) ==> r.0 == PassthruError::STATUS_NOERROR)
        }),
{
    let op = match IoctlID::from_raw(ioctl_id) {
        Some(p) => p,
        None => {
            log_error_str(log, "IOCTL ID is invalid");
            return (PassthruError::ERR_INVALID_IOCTL_ID, IoctlOutput::NoOutput);
        },
    };
    match op {
        IoctlID::READ_VBATT => {
            if !output_present {
                log_error_str(log, "Cannot read battery voltage. Output ptr is null");
                return (PassthruError::ERR_NULL_PARAMETER, IoctlOutput::NoOutput);
            }
            match &mut drv.m2 {
                None => (PassthruError::ERR_DEVICE_NOT_CONNECTED, IoctlOutput::NoOutput),
                Some(dev) => {
                    match ioctl::read_vbatt(dev, link, &mut drv.last_error, &mut drv.last_vbatt) {
                        Ok(v) => (PassthruError::STATUS_NOERROR, IoctlOutput::Value(v)),
                        Err(e) => (e, IoctlOutput::NoOutput),
                    }
                },
            }
        },
        IoctlID::READ_PROG_VOLTAGE => {
            if !output_present {
                log_error_str(log, "Cannot read programming voltage. Output ptr is null");
                return (PassthruError::ERR_NULL_PARAMETER, IoctlOutput::NoOutput);
            }
            (ioctl::read_prog_voltage(log), IoctlOutput::NoOutput)
        },
        IoctlID::SET_CONFIG => {
            match input {
                IoctlInput::Config(list) => {
                    match &mut drv.m2 {
                        None => (PassthruError::ERR_DEVICE_NOT_CONNECTED, IoctlOutput::NoOutput),
                        Some(dev) => {
                            let st = ioctl::set_config(
                                &mut drv.channels,
                                dev,
                                link,
                                &mut drv.last_error,
                                log,
                                handle_id,
                                &list,
                            );
                            (st, IoctlOutput::NoOutput)
                        },
                    }
                },
                _ => {
                    log_error_str(log, "Cannot set config. Input ptr is null");
                    (PassthruError::ERR_NULL_PARAMETER, IoctlOutput::NoOutput)
                },
            }
        },
        IoctlID::GET_CONFIG => {
            match input {
                IoctlInput::Config(list) => {
                    match &mut drv.m2 {
                        None => (PassthruError::ERR_DEVICE_NOT_CONNECTED, IoctlOutput::NoOutput),
                        Some(dev) => {
                            let mut list = list;
                            let st = ioctl::get_config(
                                &mut drv.channels,
                                dev,
                                link,
                                &mut drv.last_error,
                                log,
                                handle_id,
                                &mut list,
                            );
                            (st, IoctlOutput::Config(list))
                        },
                    }
                },
                _ => {
                    log_error_str(log, "Cannot get config. Input ptr is null");
                    (PassthruError::ERR_NULL_PARAMETER, IoctlOutput::NoOutput)
                },
            }
        },
        IoctlID::FIVE_BAUD_INIT => {
            match input {
                IoctlInput::Bytes(_) => {
                    if !output_present {
                        log_error_str(log, "Cannot run five baud init. Output ptr is null");
                        return (PassthruError::ERR_NULL_PARAMETER, IoctlOutput::NoOutput);
                    }
                    match &mut drv.m2 {
                        None => (PassthruError::ERR_DEVICE_NOT_CONNECTED, IoctlOutput::NoOutput),
                        Some(dev) => {
                            match ioctl::five_baud_init(dev, link, &mut drv.last_error, handle_id)
                            {
                                Ok(_) => (PassthruError::STATUS_NOERROR, IoctlOutput::NoOutput),
                                Err(e) => (e, IoctlOutput::NoOutput),
                            }
                        },
                    }
                },
                _ => {
                    log_error_str(log, "Cannot run five baud init. Input ptr is null");
                    (PassthruError::ERR_NULL_PARAMETER, IoctlOutput::NoOutput)
                },
            }
        },
        IoctlID::FAST_INIT => {
            match input {
                IoctlInput::Msg(m) => {
                    if !output_present {
                        log_error_str(log, "Cannot run fast init. Output ptr is null");
                        return (PassthruError::ERR_NULL_PARAMETER, IoctlOutput::NoOutput);
                    }
                    match &mut drv.m2 {
                        None => (PassthruError::ERR_DEVICE_NOT_CONNECTED, IoctlOutput::NoOutput),
                        Some(dev) => {
                            match ioctl::fast_init(dev, link, &mut drv.last_error, handle_id, &m) {
                                Ok(_) => (PassthruError::STATUS_NOERROR, IoctlOutput::NoOutput),
                                Err(e) => (e, IoctlOutput::NoOutput),
                            }
                        },
                    }
                },
                _ => {
                    log_error_str(log, "Cannot run fast init. Input ptr is null");
                    (PassthruError::ERR_NULL_PARAMETER, IoctlOutput::NoOutput)
                },
            }
        },
        IoctlID::CLEAR_TX_BUFFER => (
            ioctl::clear_tx_buffer(&mut drv.channels, handle_id),
            IoctlOutput::NoOutput,
        ),
        IoctlID::CLEAR_RX_BUFFER => (
            ioctl::clear_rx_buffer(&mut drv.channels, handle_id),
            IoctlOutput::NoOutput,
        ),
        IoctlID::CLEAR_PERIODIC_MSGS => (ioctl::clear_periodic_msgs(log, handle_id),
            IoctlOutput::NoOutput,
        ),
        IoctlID::CLEAR_MSG_FILTERS => (ioctl::clear_msg_filters(log, handle_id),
            IoctlOutput::NoOutput,
        ),
        IoctlID::CLEAR_FUNCT_MSG_LOOKUP_TABLE => (
            ioctl::clear_funct_msg_lookup_table(log, handle_id),
            IoctlOutput::NoOutput,
        ),
        IoctlID::ADD_TO_FUNCT_MSG_LOOKUP_TABLE => {
            match input {
                IoctlInput::Bytes(b) => (
                    ioctl::add_to_funct_msg_lookup_table(log, handle_id, &b),
                    IoctlOutput::NoOutput,
                ),
                _ => {
                    log_error_str(
                        log,
                        "Cannot add to function message lookup table. Input ptr is null",
                    );
                    (PassthruError::ERR_NULL_PARAMETER, IoctlOutput::NoOutput)
                },
            }
        },
        IoctlID::DELETE_FROM_FUNCT_MSG_LOOKUP_TABLE => {
            match input {
                IoctlInput::Bytes(b) => (
                    ioctl::delete_from_funct_msg_lookup_table(log, handle_id, &b),
                    IoctlOutput::NoOutput,
                ),
                _ => {
                    log_error_str(
                        log,
                        "Cannot delete from function message lookup table. Input ptr is null",
                    );
                    (PassthruError::ERR_NULL_PARAMETER, IoctlOutput::NoOutput)
                },
            }
        },
    }
}


// ----------------------------------------------------------------------------
// Stub entry points
// ----------------------------------------------------------------------------

/// Periodic messages are not scheduled by this driver; starting one reports
/// success without contacting the adapter.
pub fn passthru_start_periodic_msg() -> (r: PassthruError)
    ensures
        r == PassthruError::STATUS_NOERROR,
{
    PassthruError::STATUS_NOERROR
}

/// Periodic messages are not scheduled by this driver; stopping one reports
/// success without contacting the adapter.
pub fn passthru_stop_periodic_msg() -> (r: PassthruError)
    ensures
        r == PassthruError::STATUS_NOERROR,
{
    PassthruError::STATUS_NOERROR
}

/// The adapter hardware cannot drive a programming voltage: the call fails
/// with a descriptive last error, per the error-reporting policy.
pub fn passthru_set_programming_voltage(last_error: &mut String, log: &mut Logger) -> (r:
    PassthruError)
    ensures
        r == PassthruError::ERR_FAILED,
        final(last_error)@ == "Programming voltage is not supported"@,
        crate::logger::spec_logged(old(log).lines@, final(log).lines@,
            crate::logger::LogLevel::Error),
{
    log_error_str(log, "Programming voltage setting not supported");
    set_error_string(last_error, "Programming voltage is not supported".to_owned());
    PassthruError::ERR_FAILED
}


} // verus!
