//! The J2534 vocabulary: status codes, protocols, filter kinds, IOCTL ids and
//! parameters, and the host-facing message record.  Raw codes follow the SAE
//! J2534 header.

use vstd::prelude::*;

verus! {

/// Largest data payload a host-facing message may carry, fixed by the J2534 ABI.
pub const PASSTHRU_MSG_DATA_SIZE: usize = 4128;

/// J2534 status codes returned by every PassThru entry point.
#[allow(non_camel_case_types)]
#[derive(Clone, Copy, Debug, PartialEq, Eq, Structural)]
pub enum PassthruError {
    STATUS_NOERROR,
    ERR_NOT_SUPPORTED,
    ERR_INVALID_CHANNEL_ID,
    ERR_INVALID_PROTOCOL_ID,
    ERR_NULL_PARAMETER,
    ERR_INVALID_IOCTL_VALUE,
    ERR_INVALID_FLAGS,
    ERR_FAILED,
    ERR_DEVICE_NOT_CONNECTED,
    ERR_TIMEOUT,
    ERR_INVALID_MSG,
    ERR_INVALID_TIME_INTERVAL,
    ERR_EXCEEDED_LIMIT,
    ERR_INVALID_MSG_ID,
    ERR_DEVICE_IN_USE,
    ERR_INVALID_IOCTL_ID,
    ERR_BUFFER_EMPTY,
    ERR_BUFFER_FULL,
    ERR_BUFFER_OVERFLOW,
    ERR_PIN_INVALID,
    ERR_CHANNEL_IN_USE,
    ERR_MSG_PROTOCOL_ID,
    ERR_INVALID_FILTER_ID,
    ERR_NO_FLOW_CONTROL,
    ERR_NOT_UNIQUE,
    ERR_INVALID_BAUDRATE,
    ERR_INVALID_DEVICE_ID,
}

pub open spec fn spec_error_code(e: PassthruError) -> u32 {
    match e {
        PassthruError::STATUS_NOERROR => 0x00,
        PassthruError::ERR_NOT_SUPPORTED => 0x01,
        PassthruError::ERR_INVALID_CHANNEL_ID => 0x02,
        PassthruError::ERR_INVALID_PROTOCOL_ID => 0x03,
        PassthruError::ERR_NULL_PARAMETER => 0x04,
        PassthruError::ERR_INVALID_IOCTL_VALUE => 0x05,
        PassthruError::ERR_INVALID_FLAGS => 0x06,
        PassthruError::ERR_FAILED => 0x07,
        PassthruError::ERR_DEVICE_NOT_CONNECTED => 0x08,
        PassthruError::ERR_TIMEOUT => 0x09,
        PassthruError::ERR_INVALID_MSG => 0x0A,
        PassthruError::ERR_INVALID_TIME_INTERVAL => 0x0B,
        PassthruError::ERR_EXCEEDED_LIMIT => 0x0C,
        PassthruError::ERR_INVALID_MSG_ID => 0x0D,
        PassthruError::ERR_DEVICE_IN_USE => 0x0E,
        PassthruError::ERR_INVALID_IOCTL_ID => 0x0F,
        PassthruError::ERR_BUFFER_EMPTY => 0x10,
        PassthruError::ERR_BUFFER_FULL => 0x11,
        PassthruError::ERR_BUFFER_OVERFLOW => 0x12,
        PassthruError::ERR_PIN_INVALID => 0x13,
        PassthruError::ERR_CHANNEL_IN_USE => 0x14,
        PassthruError::ERR_MSG_PROTOCOL_ID => 0x15,
        PassthruError::ERR_INVALID_FILTER_ID => 0x16,
        PassthruError::ERR_NO_FLOW_CONTROL => 0x17,
        PassthruError::ERR_NOT_UNIQUE => 0x18,
        PassthruError::ERR_INVALID_BAUDRATE => 0x19,
        PassthruError::ERR_INVALID_DEVICE_ID => 0x1A,
    }
}

pub open spec fn spec_error_from_raw(v: u32) -> Option<PassthruError> {
    if v == 0x00 { Some(PassthruError::STATUS_NOERROR) }
    else if v == 0x01 { Some(PassthruError::ERR_NOT_SUPPORTED) }
    else if v == 0x02 { Some(PassthruError::ERR_INVALID_CHANNEL_ID) }
    else if v == 0x03 { Some(PassthruError::ERR_INVALID_PROTOCOL_ID) }
    else if v == 0x04 { Some(PassthruError::ERR_NULL_PARAMETER) }
    else if v == 0x05 { Some(PassthruError::ERR_INVALID_IOCTL_VALUE) }
    else if v == 0x06 { Some(PassthruError::ERR_INVALID_FLAGS) }
    else if v == 0x07 { Some(PassthruError::ERR_FAILED) }
    else if v == 0x08 { Some(PassthruError::ERR_DEVICE_NOT_CONNECTED) }
    else if v == 0x09 { Some(PassthruError::ERR_TIMEOUT) }
    else if v == 0x0A { Some(PassthruError::ERR_INVALID_MSG) }
    else if v == 0x0B { Some(PassthruError::ERR_INVALID_TIME_INTERVAL) }
    else if v == 0x0C { Some(PassthruError::ERR_EXCEEDED_LIMIT) }
    else if v == 0x0D { Some(PassthruError::ERR_INVALID_MSG_ID) }
    else if v == 0x0E { Some(PassthruError::ERR_DEVICE_IN_USE) }
    else if v == 0x0F { Some(PassthruError::ERR_INVALID_IOCTL_ID) }
    else if v == 0x10 { Some(PassthruError::ERR_BUFFER_EMPTY) }
    else if v == 0x11 { Some(PassthruError::ERR_BUFFER_FULL) }
    else if v == 0x12 { Some(PassthruError::ERR_BUFFER_OVERFLOW) }
    else if v == 0x13 { Some(PassthruError::ERR_PIN_INVALID) }
    else if v == 0x14 { Some(PassthruError::ERR_CHANNEL_IN_USE) }
    else if v == 0x15 { Some(PassthruError::ERR_MSG_PROTOCOL_ID) }
    else if v == 0x16 { Some(PassthruError::ERR_INVALID_FILTER_ID) }
    else if v == 0x17 { Some(PassthruError::ERR_NO_FLOW_CONTROL) }
    else if v == 0x18 { Some(PassthruError::ERR_NOT_UNIQUE) }
    else if v == 0x19 { Some(PassthruError::ERR_INVALID_BAUDRATE) }
    else if v == 0x1A { Some(PassthruError::ERR_INVALID_DEVICE_ID) }
    else { None }
}

impl PassthruError {
    /// The raw 32-bit status code handed across the ABI.
    pub fn code(self) -> (r: u32)
        ensures
            r == spec_error_code(self),
    {
        match self {
            PassthruError::STATUS_NOERROR => 0x00,
            PassthruError::ERR_NOT_SUPPORTED => 0x01,
            PassthruError::ERR_INVALID_CHANNEL_ID => 0x02,
            PassthruError::ERR_INVALID_PROTOCOL_ID => 0x03,
            PassthruError::ERR_NULL_PARAMETER => 0x04,
            PassthruError::ERR_INVALID_IOCTL_VALUE => 0x05,
            PassthruError::ERR_INVALID_FLAGS => 0x06,
            PassthruError::ERR_FAILED => 0x07,
            PassthruError::ERR_DEVICE_NOT_CONNECTED => 0x08,
            PassthruError::ERR_TIMEOUT => 0x09,
            PassthruError::ERR_INVALID_MSG => 0x0A,
            PassthruError::ERR_INVALID_TIME_INTERVAL => 0x0B,
            PassthruError::ERR_EXCEEDED_LIMIT => 0x0C,
            PassthruError::ERR_INVALID_MSG_ID => 0x0D,
            PassthruError::ERR_DEVICE_IN_USE => 0x0E,
            PassthruError::ERR_INVALID_IOCTL_ID => 0x0F,
            PassthruError::ERR_BUFFER_EMPTY => 0x10,
            PassthruError::ERR_BUFFER_FULL => 0x11,
            PassthruError::ERR_BUFFER_OVERFLOW => 0x12,
            PassthruError::ERR_PIN_INVALID => 0x13,
            PassthruError::ERR_CHANNEL_IN_USE => 0x14,
            PassthruError::ERR_MSG_PROTOCOL_ID => 0x15,
            PassthruError::ERR_INVALID_FILTER_ID => 0x16,
            PassthruError::ERR_NO_FLOW_CONTROL => 0x17,
            PassthruError::ERR_NOT_UNIQUE => 0x18,
            PassthruError::ERR_INVALID_BAUDRATE => 0x19,
            PassthruError::ERR_INVALID_DEVICE_ID => 0x1A,
        }
    }

    /// Parses a raw status code; `None` when the code is not in the J2534 enum.
    pub fn from_raw(v: u32) -> (r: Option<PassthruError>)
        ensures
            r == spec_error_from_raw(v),
    {
        if v == 0x00 { Some(PassthruError::STATUS_NOERROR) }
        else if v == 0x01 { Some(PassthruError::ERR_NOT_SUPPORTED) }
        else if v == 0x02 { Some(PassthruError::ERR_INVALID_CHANNEL_ID) }
        else if v == 0x03 { Some(PassthruError::ERR_INVALID_PROTOCOL_ID) }
        else if v == 0x04 { Some(PassthruError::ERR_NULL_PARAMETER) }
        else if v == 0x05 { Some(PassthruError::ERR_INVALID_IOCTL_VALUE) }
        else if v == 0x06 { Some(PassthruError::ERR_INVALID_FLAGS) }
        else if v == 0x07 { Some(PassthruError::ERR_FAILED) }
        else if v == 0x08 { Some(PassthruError::ERR_DEVICE_NOT_CONNECTED) }
        else if v == 0x09 { Some(PassthruError::ERR_TIMEOUT) }
        else if v == 0x0A { Some(PassthruError::ERR_INVALID_MSG) }
        else if v == 0x0B { Some(PassthruError::ERR_INVALID_TIME_INTERVAL) }
        else if v == 0x0C { Some(PassthruError::ERR_EXCEEDED_LIMIT) }
        else if v == 0x0D { Some(PassthruError::ERR_INVALID_MSG_ID) }
        else if v == 0x0E { Some(PassthruError::ERR_DEVICE_IN_USE) }
        else if v == 0x0F { Some(PassthruError::ERR_INVALID_IOCTL_ID) }
        else if v == 0x10 { Some(PassthruError::ERR_BUFFER_EMPTY) }
        else if v == 0x11 { Some(PassthruError::ERR_BUFFER_FULL) }
        else if v == 0x12 { Some(PassthruError::ERR_BUFFER_OVERFLOW) }
        else if v == 0x13 { Some(PassthruError::ERR_PIN_INVALID) }
        else if v == 0x14 { Some(PassthruError::ERR_CHANNEL_IN_USE) }
        else if v == 0x15 { Some(PassthruError::ERR_MSG_PROTOCOL_ID) }
        else if v == 0x16 { Some(PassthruError::ERR_INVALID_FILTER_ID) }
        else if v == 0x17 { Some(PassthruError::ERR_NO_FLOW_CONTROL) }
        else if v == 0x18 { Some(PassthruError::ERR_NOT_UNIQUE) }
        else if v == 0x19 { Some(PassthruError::ERR_INVALID_BAUDRATE) }
        else if v == 0x1A { Some(PassthruError::ERR_INVALID_DEVICE_ID) }
        else { None }
    }
}

/// J2534 bus protocols.
#[allow(non_camel_case_types)]
#[derive(Clone, Copy, Debug, PartialEq, Eq, Structural)]
pub enum Protocol {
    J1850VPW,
    J1850PWM,
    ISO9141,
    ISO14230,
    CAN,
    ISO15765,
    SCI_A_ENGINE,
    SCI_A_TRANS,
    SCI_B_ENGINE,
    SCI_B_TRANS,
}

pub open spec fn spec_protocol_code(p: Protocol) -> u32 {
    match p {
        Protocol::J1850VPW => 0x01,
        Protocol::J1850PWM => 0x02,
        Protocol::ISO9141 => 0x03,
        Protocol::ISO14230 => 0x04,
        Protocol::CAN => 0x05,
        Protocol::ISO15765 => 0x06,
        Protocol::SCI_A_ENGINE => 0x07,
        Protocol::SCI_A_TRANS => 0x08,
        Protocol::SCI_B_ENGINE => 0x09,
        Protocol::SCI_B_TRANS => 0x0A,
    }
}

pub open spec fn spec_protocol_from_raw(v: u32) -> Option<Protocol> {
    if v == 0x01 { Some(Protocol::J1850VPW) }
    else if v == 0x02 { Some(Protocol::J1850PWM) }
    else if v == 0x03 { Some(Protocol::ISO9141) }
    else if v == 0x04 { Some(Protocol::ISO14230) }
    else if v == 0x05 { Some(Protocol::CAN) }
    else if v == 0x06 { Some(Protocol::ISO15765) }
    else if v == 0x07 { Some(Protocol::SCI_A_ENGINE) }
    else if v == 0x08 { Some(Protocol::SCI_A_TRANS) }
    else if v == 0x09 { Some(Protocol::SCI_B_ENGINE) }
    else if v == 0x0A { Some(Protocol::SCI_B_TRANS) }
    else { None }
}

impl Protocol {
    /// The raw J2534 protocol id.
    pub fn code(self) -> (r: u32)
        ensures
            r == spec_protocol_code(self),
    {
        match self {
            Protocol::J1850VPW => 0x01,
            Protocol::J1850PWM => 0x02,
            Protocol::ISO9141 => 0x03,
            Protocol::ISO14230 => 0x04,
            Protocol::CAN => 0x05,
            Protocol::ISO15765 => 0x06,
            Protocol::SCI_A_ENGINE => 0x07,
            Protocol::SCI_A_TRANS => 0x08,
            Protocol::SCI_B_ENGINE => 0x09,
            Protocol::SCI_B_TRANS => 0x0A,
        }
    }

    /// Parses a raw protocol id; `None` when it is not in the J2534 enum.
    pub fn from_raw(v: u32) -> (r: Option<Protocol>)
        ensures
            r == spec_protocol_from_raw(v),
    {
        if v == 0x01 { Some(Protocol::J1850VPW) }
        else if v == 0x02 { Some(Protocol::J1850PWM) }
        else if v == 0x03 { Some(Protocol::ISO9141) }
        else if v == 0x04 { Some(Protocol::ISO14230) }
        else if v == 0x05 { Some(Protocol::CAN) }
        else if v == 0x06 { Some(Protocol::ISO15765) }
        else if v == 0x07 { Some(Protocol::SCI_A_ENGINE) }
        else if v == 0x08 { Some(Protocol::SCI_A_TRANS) }
        else if v == 0x09 { Some(Protocol::SCI_B_ENGINE) }
        else if v == 0x0A { Some(Protocol::SCI_B_TRANS) }
        else { None }
    }
}

/// Message filter kinds.
#[allow(non_camel_case_types)]
#[derive(Clone, Copy, Debug, PartialEq, Eq, Structural)]
pub enum FilterType {
    PASS_FILTER,
    BLOCK_FILTER,
    FLOW_CONTROL_FILTER,
}

pub open spec fn spec_filter_type_code(f: FilterType) -> u32 {
    match f {
        FilterType::PASS_FILTER => 0x01,
        FilterType::BLOCK_FILTER => 0x02,
        FilterType::FLOW_CONTROL_FILTER => 0x03,
    }
}

impl FilterType {
    /// The raw J2534 filter-type code.
    pub fn code(self) -> (r: u32)
        ensures
            r == spec_filter_type_code(self),
    {
        match self {
            FilterType::PASS_FILTER => 0x01,
            FilterType::BLOCK_FILTER => 0x02,
            FilterType::FLOW_CONTROL_FILTER => 0x03,
        }
    }

    /// Parses a raw filter type; `None` when it is not in the J2534 enum.
    pub fn from_raw(v: u32) -> (r: Option<FilterType>)
        ensures
            v == 0x01 ==> r == Some(FilterType::PASS_FILTER),
            v == 0x02 ==> r == Some(FilterType::BLOCK_FILTER),
            v == 0x03 ==> r == Some(FilterType::FLOW_CONTROL_FILTER),
            !(1 <= v <= 3) ==> r is None,
    {
        if v == 0x01 { Some(FilterType::PASS_FILTER) }
        else if v == 0x02 { Some(FilterType::BLOCK_FILTER) }
        else if v == 0x03 { Some(FilterType::FLOW_CONTROL_FILTER) }
        else { None }
    }
}

/// J2534 IOCTL operation ids.
#[allow(non_camel_case_types)]
#[derive(Clone, Copy, Debug, PartialEq, Eq, Structural)]
pub enum IoctlID {
    GET_CONFIG,
    SET_CONFIG,
    READ_VBATT,
    FIVE_BAUD_INIT,
    FAST_INIT,
    CLEAR_TX_BUFFER,
    CLEAR_RX_BUFFER,
    CLEAR_PERIODIC_MSGS,
    CLEAR_MSG_FILTERS,
    CLEAR_FUNCT_MSG_LOOKUP_TABLE,
    ADD_TO_FUNCT_MSG_LOOKUP_TABLE,
    DELETE_FROM_FUNCT_MSG_LOOKUP_TABLE,
    READ_PROG_VOLTAGE,
}

pub open spec fn spec_ioctl_id_from_raw(v: u32) -> Option<IoctlID> {
    if v == 0x01 { Some(IoctlID::GET_CONFIG) }
    else if v == 0x02 { Some(IoctlID::SET_CONFIG) }
    else if v == 0x03 { Some(IoctlID::READ_VBATT) }
    else if v == 0x04 { Some(IoctlID::FIVE_BAUD_INIT) }
    else if v == 0x05 { Some(IoctlID::FAST_INIT) }
    else if v == 0x07 { Some(IoctlID::CLEAR_TX_BUFFER) }
    else if v == 0x08 { Some(IoctlID::CLEAR_RX_BUFFER) }
    else if v == 0x09 { Some(IoctlID::CLEAR_PERIODIC_MSGS) }
    else if v == 0x0A { Some(IoctlID::CLEAR_MSG_FILTERS) }
    else if v == 0x0B { Some(IoctlID::CLEAR_FUNCT_MSG_LOOKUP_TABLE) }
    else if v == 0x0C { Some(IoctlID::ADD_TO_FUNCT_MSG_LOOKUP_TABLE) }
    else if v == 0x0D { Some(IoctlID::DELETE_FROM_FUNCT_MSG_LOOKUP_TABLE) }
    else if v == 0x0E { Some(IoctlID::READ_PROG_VOLTAGE) }
    else { None }
}

impl IoctlID {
    /// Parses a raw IOCTL id; `None` when it is not in the J2534 enum.
    pub fn from_raw(v: u32) -> (r: Option<IoctlID>)
        ensures
            r == spec_ioctl_id_from_raw(v),
    {
        if v == 0x01 { Some(IoctlID::GET_CONFIG) }
        else if v == 0x02 { Some(IoctlID::SET_CONFIG) }
        else if v == 0x03 { Some(IoctlID::READ_VBATT) }
        else if v == 0x04 { Some(IoctlID::FIVE_BAUD_INIT) }
        else if v == 0x05 { Some(IoctlID::FAST_INIT) }
        else if v == 0x07 { Some(IoctlID::CLEAR_TX_BUFFER) }
        else if v == 0x08 { Some(IoctlID::CLEAR_RX_BUFFER) }
        else if v == 0x09 { Some(IoctlID::CLEAR_PERIODIC_MSGS) }
        else if v == 0x0A { Some(IoctlID::CLEAR_MSG_FILTERS) }
        else if v == 0x0B { Some(IoctlID::CLEAR_FUNCT_MSG_LOOKUP_TABLE) }
        else if v == 0x0C { Some(IoctlID::ADD_TO_FUNCT_MSG_LOOKUP_TABLE) }
        else if v == 0x0D { Some(IoctlID::DELETE_FROM_FUNCT_MSG_LOOKUP_TABLE) }
        else if v == 0x0E { Some(IoctlID::READ_PROG_VOLTAGE) }
        else { None }
    }
}

/// Configuration parameters for `SET_CONFIG` / `GET_CONFIG`.
///
/// The driver forwards the raw parameter code to the adapter, so the library
/// keeps the parsed parameter together with its code rather than enumerating
/// every name; a code is valid when the J2534 enum defines it.
pub open spec fn spec_ioctl_param_valid(v: u32) -> bool {
    (0x01 <= v <= 0x25 && v != 0x02) || v == 0x8000
}

/// Checks a raw configuration-parameter code against the J2534 enum.
pub fn ioctl_param_valid(v: u32) -> (r: bool)
    ensures
        r == spec_ioctl_param_valid(v),
{
    (0x01 <= v && v <= 0x25 && v != 0x02) || v == 0x8000
}

/// One `SET_CONFIG` / `GET_CONFIG` entry: a parameter code and its value.
#[derive(Clone, Copy, Debug, PartialEq, Eq, Structural)]
pub struct SConfig {
    pub parameter: u32,
    pub value: u32,
}

/// The host-facing message record, with the payload held as an owned vector.
/// The C ABI's fixed 4128-byte inline buffer is marshalled to and from this
/// record at the ABI boundary.
#[derive(Clone, Debug)]
pub struct PassthruMsg {
    pub protocol_id: u32,
    pub rx_status: u32,
    pub tx_flags: u32,
    pub timestamp: u32,
    pub extra_data_size: u32,
    pub data: Vec<u8>,
}

impl PassthruMsg {
    /// A message is well formed when its payload fits the ABI buffer.
    pub open spec fn wf(self) -> bool {
        self.data@.len() <= PASSTHRU_MSG_DATA_SIZE
    }

    /// Number of payload bytes (the ABI's `data_size` field).
    pub fn data_size(&self) -> (r: usize)
        ensures
            r == self.data@.len(),
    {
        self.data.len()
    }
}

} // verus!
