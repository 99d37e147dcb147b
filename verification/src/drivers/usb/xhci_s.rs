//! xHC Data Structures: transfer request blocks and device contexts.

use vstd::prelude::*;
use vstd::std_specs::convert::FromSpecImpl;
use crate::num::NonZeroU8;
use crate::hal::PhysicalAddress;
use crate::drivers::usb::UsbError;
use crate::drivers::usb::usb::{
    PSIV, UsbControlSetupData, UsbControlRequestBitmap, UsbControlRequest, UsbLength,
    UsbEndpointAddress, UsbEndpointType, UsbHubPortNumber, UsbRouteString,
};

verus! {

broadcast use PhysicalAddress::lemma_spec_new, NonZeroU8::lemma_view_injective, NonZeroU8::lemma_spec_new;

/// xHCI Port Id
#[derive(Debug, Clone, Copy, PartialEq, Eq, PartialOrd, Ord, Structural)]
pub struct PortId(pub NonZeroU8);

impl From<UsbHubPortNumber> for PortId {
    fn from(value: UsbHubPortNumber) -> (r: Self) {
        Self(value.0)
    }
}

impl FromSpecImpl<UsbHubPortNumber> for PortId {
    open spec fn obeys_from_spec() -> bool {
        true
    }

    open spec fn from_spec(v: UsbHubPortNumber) -> Self {
        PortId(v.0)
    }
}

/// xHCI Slot Id
#[derive(Debug, Clone, Copy, PartialEq, Eq, PartialOrd, Ord, Structural)]
pub struct SlotId(pub NonZeroU8);

/// xHCI Device Context Index (Endpoint Id)
#[derive(Debug, Clone, Copy, PartialEq, Eq, PartialOrd, Ord, Structural)]
pub struct DCI(pub NonZeroU8);

impl DCI {
    /// The default control endpoint.
    pub fn control() -> (r: Self)
        ensures
            r.0@ == 1,
    {
        match NonZeroU8::new(1) {
            Some(v) => Self(v),
            None => vstd::pervasive::unreached(),
        }
    }

    /// The context index of OUT endpoint `epno` (1 to 15).
    pub fn ep_out(epno: u8) -> (r: Option<Self>)
        ensures
            1 <= epno <= 15 ==> r is Some && r.unwrap().0@ == epno * 2,
            !(1 <= epno <= 15) ==> r is None,
    {
        if epno >= 1 && epno <= 15 {
            match NonZeroU8::new(epno * 2) {
                Some(v) => Some(Self(v)),
                None => None,
            }
        } else {
            None
        }
    }

    /// The context index of IN endpoint `epno` (1 to 15).
    pub fn ep_in(epno: u8) -> (r: Option<Self>)
        ensures
            1 <= epno <= 15 ==> r is Some && r.unwrap().0@ == epno * 2 + 1,
            !(1 <= epno <= 15) ==> r is None,
    {
        if epno >= 1 && epno <= 15 {
            match NonZeroU8::new(epno * 2 + 1) {
                Some(v) => Some(Self(v)),
                None => None,
            }
        } else {
            None
        }
    }

    pub fn is_control(&self) -> (r: bool)
        ensures
            r == (self.0@ == 1),
    {
        self.0.get() == 1
    }

    pub fn can_read(&self) -> (r: bool)
        ensures
            r == (self.0@ > 1 && self.0@ % 2 == 1),
    {
        self.0.get() > 1 && (self.0.get() % 2) != 0
    }

    pub fn can_write(&self) -> (r: bool)
        ensures
            r == (self.0@ > 1 && self.0@ % 2 == 0),
    {
        self.0.get() > 1 && (self.0.get() % 2) == 0
    }

    pub fn ep_no(&self) -> (r: usize)
        ensures
            r == self.0@ / 2,
    {
        (self.0.get() / 2) as usize
    }
}

/// The context index that an endpoint address stands for: the direction bit below the
/// endpoint number. (Endpoint 0 OUT has no context index of its own and is given
/// the default control endpoint.)
pub open spec fn dci_of_address(val: UsbEndpointAddress) -> int {
    (if val.0@ >= 0x80 { 1int } else { 0 }) + (val.0@ % 16) * 2
}

impl From<UsbEndpointAddress> for DCI {
    fn from(val: UsbEndpointAddress) -> (r: Self) {
        let v: u8 = (if val.is_dir_in() { 1u8 } else { 0u8 }) + (val.ep_no() as u8) * 2;
        match NonZeroU8::new(v) {
            Some(nz) => Self(nz),
            None => DCI::control(),
        }
    }
}

impl FromSpecImpl<UsbEndpointAddress> for DCI {
    open spec fn obeys_from_spec() -> bool {
        true
    }

    open spec fn from_spec(v: UsbEndpointAddress) -> Self {
        match NonZeroU8::spec_new(dci_of_address(v) as u8) {
            Some(nz) => DCI(nz),
            None => DCI(NonZeroU8::spec_new(1).unwrap()),
        }
    }
}

/// The cycle state of a ring.
#[derive(Debug)]
pub struct CycleBit(bool);

impl View for CycleBit {
    type V = bool;

    closed spec fn view(&self) -> bool {
        self.0
    }
}

impl CycleBit {
    pub fn new() -> (r: Self)
        ensures
            r@ == false,
    {
        Self(false)
    }

    pub fn reset(&mut self)
        ensures
            final(self)@ == true,
    {
        self.0 = true;
    }

    pub fn set(&mut self, val: bool)
        ensures
            final(self)@ == val,
    {
        self.0 = val;
    }

    pub fn value(&self) -> (r: bool)
        ensures
            r == self@,
    {
        self.0
    }

    pub fn tr_value(&self) -> (r: u64)
        ensures
            r == if self@ { 1u64 } else { 0u64 },
    {
        if self.0 { 1 } else { 0 }
    }

    pub fn trb_value(&self) -> (r: u32)
        ensures
            r == if self@ { 1u32 } else { 0u32 },
    {
        if self.0 { 1 } else { 0 }
    }

    pub fn toggle(&mut self)
        ensures
            final(self)@ == !old(self)@,
    {
        self.0 = !self.0;
    }
}

impl From<bool> for CycleBit {
    fn from(val: bool) -> (r: Self) {
        Self(val)
    }
}

impl FromSpecImpl<bool> for CycleBit {
    open spec fn obeys_from_spec() -> bool {
        true
    }

    closed spec fn from_spec(v: bool) -> Self {
        CycleBit(v)
    }
}

impl PartialEq for CycleBit {
    fn eq(&self, other: &Self) -> (r: bool) {
        self.0 == other.0
    }
}

impl vstd::std_specs::cmp::PartialEqSpecImpl for CycleBit {
    open spec fn obeys_eq_spec() -> bool {
        true
    }

    open spec fn eq_spec(&self, other: &Self) -> bool {
        self@ == other@
    }
}

/// TRB Types
#[derive(Debug, Clone, Copy, PartialEq, Eq, PartialOrd, Ord, Structural)]
#[allow(non_camel_case_types)]
pub enum TrbType {
    RESERVED,
    NORMAL,
    SETUP,
    DATA,
    STATUS,
    ISOCH,
    LINK,
    EVENT_DATA,
    NOP,
    ENABLE_SLOT_COMMAND,
    DISABLE_SLOT_COMMAND,
    ADDRESS_DEVICE_COMMAND,
    CONFIGURE_ENDPOINT_COMMAND,
    EVALUATE_CONTEXT_COMMAND,
    RESET_ENDPOINT_COMMAND,
    NOP_COMMAND,
    TRANSFER_EVENT,
    COMMAND_COMPLETION_EVENT,
    PORT_STATUS_CHANGE_EVENT,
    BANDWIDTH_REQUEST_EVENT,
    DOORBELL_EVENT,
    HOST_CONTROLLER_EVENT,
    DEVICE_NOTIFICATION_EVENT,
    MFINDEX_WRAP_EVENT,
}

impl TrbType {
    /// The numeric code of each variant.
    pub open spec fn spec_code(self) -> u32 {
        match self {
            TrbType::RESERVED => 0,
            TrbType::NORMAL => 1,
            TrbType::SETUP => 2,
            TrbType::DATA => 3,
            TrbType::STATUS => 4,
            TrbType::ISOCH => 5,
            TrbType::LINK => 6,
            TrbType::EVENT_DATA => 7,
            TrbType::NOP => 8,
            TrbType::ENABLE_SLOT_COMMAND => 9,
            TrbType::DISABLE_SLOT_COMMAND => 10,
            TrbType::ADDRESS_DEVICE_COMMAND => 11,
            TrbType::CONFIGURE_ENDPOINT_COMMAND => 12,
            TrbType::EVALUATE_CONTEXT_COMMAND => 13,
            TrbType::RESET_ENDPOINT_COMMAND => 14,
            TrbType::NOP_COMMAND => 23,
            TrbType::TRANSFER_EVENT => 32,
            TrbType::COMMAND_COMPLETION_EVENT => 33,
            TrbType::PORT_STATUS_CHANGE_EVENT => 34,
            TrbType::BANDWIDTH_REQUEST_EVENT => 35,
            TrbType::DOORBELL_EVENT => 36,
            TrbType::HOST_CONTROLLER_EVENT => 37,
            TrbType::DEVICE_NOTIFICATION_EVENT => 38,
            TrbType::MFINDEX_WRAP_EVENT => 39,
        }
    }

    /// The variant with code `v`, if there is one.
    pub open spec fn spec_from_code(v: u32) -> Option<Self> {
        if v == 0 {
            Some(TrbType::RESERVED)
        } else if v == 1 {
            Some(TrbType::NORMAL)
        } else if v == 2 {
            Some(TrbType::SETUP)
        } else if v == 3 {
            Some(TrbType::DATA)
        } else if v == 4 {
            Some(TrbType::STATUS)
        } else if v == 5 {
            Some(TrbType::ISOCH)
        } else if v == 6 {
            Some(TrbType::LINK)
        } else if v == 7 {
            Some(TrbType::EVENT_DATA)
        } else if v == 8 {
            Some(TrbType::NOP)
        } else if v == 9 {
            Some(TrbType::ENABLE_SLOT_COMMAND)
        } else if v == 10 {
            Some(TrbType::DISABLE_SLOT_COMMAND)
        } else if v == 11 {
            Some(TrbType::ADDRESS_DEVICE_COMMAND)
        } else if v == 12 {
            Some(TrbType::CONFIGURE_ENDPOINT_COMMAND)
        } else if v == 13 {
            Some(TrbType::EVALUATE_CONTEXT_COMMAND)
        } else if v == 14 {
            Some(TrbType::RESET_ENDPOINT_COMMAND)
        } else if v == 23 {
            Some(TrbType::NOP_COMMAND)
        } else if v == 32 {
            Some(TrbType::TRANSFER_EVENT)
        } else if v == 33 {
            Some(TrbType::COMMAND_COMPLETION_EVENT)
        } else if v == 34 {
            Some(TrbType::PORT_STATUS_CHANGE_EVENT)
        } else if v == 35 {
            Some(TrbType::BANDWIDTH_REQUEST_EVENT)
        } else if v == 36 {
            Some(TrbType::DOORBELL_EVENT)
        } else if v == 37 {
            Some(TrbType::HOST_CONTROLLER_EVENT)
        } else if v == 38 {
            Some(TrbType::DEVICE_NOTIFICATION_EVENT)
        } else if v == 39 {
            Some(TrbType::MFINDEX_WRAP_EVENT)
        } else {
            None
        }
    }

    pub fn code(&self) -> (r: u32)
        ensures
            r == self.spec_code(),
    {
        match self {
            TrbType::RESERVED => 0,
            TrbType::NORMAL => 1,
            TrbType::SETUP => 2,
            TrbType::DATA => 3,
            TrbType::STATUS => 4,
            TrbType::ISOCH => 5,
            TrbType::LINK => 6,
            TrbType::EVENT_DATA => 7,
            TrbType::NOP => 8,
            TrbType::ENABLE_SLOT_COMMAND => 9,
            TrbType::DISABLE_SLOT_COMMAND => 10,
            TrbType::ADDRESS_DEVICE_COMMAND => 11,
            TrbType::CONFIGURE_ENDPOINT_COMMAND => 12,
            TrbType::EVALUATE_CONTEXT_COMMAND => 13,
            TrbType::RESET_ENDPOINT_COMMAND => 14,
            TrbType::NOP_COMMAND => 23,
            TrbType::TRANSFER_EVENT => 32,
            TrbType::COMMAND_COMPLETION_EVENT => 33,
            TrbType::PORT_STATUS_CHANGE_EVENT => 34,
            TrbType::BANDWIDTH_REQUEST_EVENT => 35,
            TrbType::DOORBELL_EVENT => 36,
            TrbType::HOST_CONTROLLER_EVENT => 37,
            TrbType::DEVICE_NOTIFICATION_EVENT => 38,
            TrbType::MFINDEX_WRAP_EVENT => 39,
        }
    }

    /// Converts a code to its variant. Other codes have no variant.
    pub fn from_code(v: u32) -> (r: Option<Self>)
        ensures
            r == Self::spec_from_code(v),
    {
        if v == 0 {
            Some(TrbType::RESERVED)
        } else if v == 1 {
            Some(TrbType::NORMAL)
        } else if v == 2 {
            Some(TrbType::SETUP)
        } else if v == 3 {
            Some(TrbType::DATA)
        } else if v == 4 {
            Some(TrbType::STATUS)
        } else if v == 5 {
            Some(TrbType::ISOCH)
        } else if v == 6 {
            Some(TrbType::LINK)
        } else if v == 7 {
            Some(TrbType::EVENT_DATA)
        } else if v == 8 {
            Some(TrbType::NOP)
        } else if v == 9 {
            Some(TrbType::ENABLE_SLOT_COMMAND)
        } else if v == 10 {
            Some(TrbType::DISABLE_SLOT_COMMAND)
        } else if v == 11 {
            Some(TrbType::ADDRESS_DEVICE_COMMAND)
        } else if v == 12 {
            Some(TrbType::CONFIGURE_ENDPOINT_COMMAND)
        } else if v == 13 {
            Some(TrbType::EVALUATE_CONTEXT_COMMAND)
        } else if v == 14 {
            Some(TrbType::RESET_ENDPOINT_COMMAND)
        } else if v == 23 {
            Some(TrbType::NOP_COMMAND)
        } else if v == 32 {
            Some(TrbType::TRANSFER_EVENT)
        } else if v == 33 {
            Some(TrbType::COMMAND_COMPLETION_EVENT)
        } else if v == 34 {
            Some(TrbType::PORT_STATUS_CHANGE_EVENT)
        } else if v == 35 {
            Some(TrbType::BANDWIDTH_REQUEST_EVENT)
        } else if v == 36 {
            Some(TrbType::DOORBELL_EVENT)
        } else if v == 37 {
            Some(TrbType::HOST_CONTROLLER_EVENT)
        } else if v == 38 {
            Some(TrbType::DEVICE_NOTIFICATION_EVENT)
        } else if v == 39 {
            Some(TrbType::MFINDEX_WRAP_EVENT)
        } else {
            None
        }
    }
}

impl TrbType {
    pub fn is_event(&self) -> (r: bool)
        ensures
            r == (32 <= self.spec_code() <= 39),
    {
        let c = self.code();
        c >= 32 && c <= 39
    }

    pub fn is_command(&self) -> (r: bool)
        ensures
            r == (self.spec_code() == 6 || (9 <= self.spec_code() < 32)),
    {
        let c = self.code();
        c == 6 || (c >= 9 && c < 32)
    }

    pub fn is_transfer(&self) -> (r: bool)
        ensures
            r == (1 <= self.spec_code() <= 8),
    {
        let c = self.code();
        c >= 1 && c <= 8
    }
}

/// TRB Completion Codes
#[derive(Debug, Clone, Copy, PartialEq, Eq, PartialOrd, Ord, Structural)]
#[allow(non_camel_case_types)]
pub enum TrbCompletionCode {
    INVALID,
    SUCCESS,
    DATA_BUFFER_ERROR,
    BABBLE_DETECTED,
    USB_TRANSACTION_ERROR,
    TRB_ERROR,
    STALL,
    RESOURCE_ERROR,
    BANDWIDTH_ERROR,
    NO_SLOTS_AVAILABLE,
    INVALID_STREAM_TYPE,
    SLOT_NOT_ENABLED,
    ENDPOINT_NOT_ENABLED,
    SHORT_PACKET,
    RING_UNDERRUN,
    RING_OVERRUN,
    VF_EVENT_RING_FULL,
    PARAMETER_ERROR,
    BANDWIDTH_OVERRUN,
    CONTEXT_STATE_ERROR,
    NO_PING_RESPONSE,
    EVENT_RING_FULL,
    IMCOMPATIBLE_DEVICE,
    MISSED_SERVICE,
    COMMAND_RING_STOPPED,
    COMMAND_ABORTED,
    STOPPED,
    STOPPED_LENGTH_INVALID,
    STOPPED_SHORT_PACKET,
    MAX_EXIT_LATENCY_TOO_LARGE,
    ISOCH_BUFFER_OVERRUN,
    EVENT_LOST,
    UNDEFINED_ERROR,
    INVALID_STREAM_ID,
    SECONDARY_BANDWIDTH,
    SPLIT_TRANSACTION,
}

impl TrbCompletionCode {
    /// The numeric code of each variant.
    pub open spec fn spec_code(self) -> u32 {
        match self {
            TrbCompletionCode::INVALID => 0,
            TrbCompletionCode::SUCCESS => 1,
            TrbCompletionCode::DATA_BUFFER_ERROR => 2,
            TrbCompletionCode::BABBLE_DETECTED => 3,
            TrbCompletionCode::USB_TRANSACTION_ERROR => 4,
            TrbCompletionCode::TRB_ERROR => 5,
            TrbCompletionCode::STALL => 6,
            TrbCompletionCode::RESOURCE_ERROR => 7,
            TrbCompletionCode::BANDWIDTH_ERROR => 8,
            TrbCompletionCode::NO_SLOTS_AVAILABLE => 9,
            TrbCompletionCode::INVALID_STREAM_TYPE => 10,
            TrbCompletionCode::SLOT_NOT_ENABLED => 11,
            TrbCompletionCode::ENDPOINT_NOT_ENABLED => 12,
            TrbCompletionCode::SHORT_PACKET => 13,
            TrbCompletionCode::RING_UNDERRUN => 14,
            TrbCompletionCode::RING_OVERRUN => 15,
            TrbCompletionCode::VF_EVENT_RING_FULL => 16,
            TrbCompletionCode::PARAMETER_ERROR => 17,
            TrbCompletionCode::BANDWIDTH_OVERRUN => 18,
            TrbCompletionCode::CONTEXT_STATE_ERROR => 19,
            TrbCompletionCode::NO_PING_RESPONSE => 20,
            TrbCompletionCode::EVENT_RING_FULL => 21,
            TrbCompletionCode::IMCOMPATIBLE_DEVICE => 22,
            TrbCompletionCode::MISSED_SERVICE => 23,
            TrbCompletionCode::COMMAND_RING_STOPPED => 24,
            TrbCompletionCode::COMMAND_ABORTED => 25,
            TrbCompletionCode::STOPPED => 26,
            TrbCompletionCode::STOPPED_LENGTH_INVALID => 27,
            TrbCompletionCode::STOPPED_SHORT_PACKET => 28,
            TrbCompletionCode::MAX_EXIT_LATENCY_TOO_LARGE => 29,
            TrbCompletionCode::ISOCH_BUFFER_OVERRUN => 31,
            TrbCompletionCode::EVENT_LOST => 32,
            TrbCompletionCode::UNDEFINED_ERROR => 33,
            TrbCompletionCode::INVALID_STREAM_ID => 34,
            TrbCompletionCode::SECONDARY_BANDWIDTH => 35,
            TrbCompletionCode::SPLIT_TRANSACTION => 36,
        }
    }

    /// The variant with code `v`, if there is one.
    pub open spec fn spec_from_code(v: u32) -> Option<Self> {
        if v == 0 {
            Some(TrbCompletionCode::INVALID)
        } else if v == 1 {
            Some(TrbCompletionCode::SUCCESS)
        } else if v == 2 {
            Some(TrbCompletionCode::DATA_BUFFER_ERROR)
        } else if v == 3 {
            Some(TrbCompletionCode::BABBLE_DETECTED)
        } else if v == 4 {
            Some(TrbCompletionCode::USB_TRANSACTION_ERROR)
        } else if v == 5 {
            Some(TrbCompletionCode::TRB_ERROR)
        } else if v == 6 {
            Some(TrbCompletionCode::STALL)
        } else if v == 7 {
            Some(TrbCompletionCode::RESOURCE_ERROR)
        } else if v == 8 {
            Some(TrbCompletionCode::BANDWIDTH_ERROR)
        } else if v == 9 {
            Some(TrbCompletionCode::NO_SLOTS_AVAILABLE)
        } else if v == 10 {
            Some(TrbCompletionCode::INVALID_STREAM_TYPE)
        } else if v == 11 {
            Some(TrbCompletionCode::SLOT_NOT_ENABLED)
        } else if v == 12 {
            Some(TrbCompletionCode::ENDPOINT_NOT_ENABLED)
        } else if v == 13 {
            Some(TrbCompletionCode::SHORT_PACKET)
        } else if v == 14 {
            Some(TrbCompletionCode::RING_UNDERRUN)
        } else if v == 15 {
            Some(TrbCompletionCode::RING_OVERRUN)
        } else if v == 16 {
            Some(TrbCompletionCode::VF_EVENT_RING_FULL)
        } else if v == 17 {
            Some(TrbCompletionCode::PARAMETER_ERROR)
        } else if v == 18 {
            Some(TrbCompletionCode::BANDWIDTH_OVERRUN)
        } else if v == 19 {
            Some(TrbCompletionCode::CONTEXT_STATE_ERROR)
        } else if v == 20 {
            Some(TrbCompletionCode::NO_PING_RESPONSE)
        } else if v == 21 {
            Some(TrbCompletionCode::EVENT_RING_FULL)
        } else if v == 22 {
            Some(TrbCompletionCode::IMCOMPATIBLE_DEVICE)
        } else if v == 23 {
            Some(TrbCompletionCode::MISSED_SERVICE)
        } else if v == 24 {
            Some(TrbCompletionCode::COMMAND_RING_STOPPED)
        } else if v == 25 {
            Some(TrbCompletionCode::COMMAND_ABORTED)
        } else if v == 26 {
            Some(TrbCompletionCode::STOPPED)
        } else if v == 27 {
            Some(TrbCompletionCode::STOPPED_LENGTH_INVALID)
        } else if v == 28 {
            Some(TrbCompletionCode::STOPPED_SHORT_PACKET)
        } else if v == 29 {
            Some(TrbCompletionCode::MAX_EXIT_LATENCY_TOO_LARGE)
        } else if v == 31 {
            Some(TrbCompletionCode::ISOCH_BUFFER_OVERRUN)
        } else if v == 32 {
            Some(TrbCompletionCode::EVENT_LOST)
        } else if v == 33 {
            Some(TrbCompletionCode::UNDEFINED_ERROR)
        } else if v == 34 {
            Some(TrbCompletionCode::INVALID_STREAM_ID)
        } else if v == 35 {
            Some(TrbCompletionCode::SECONDARY_BANDWIDTH)
        } else if v == 36 {
            Some(TrbCompletionCode::SPLIT_TRANSACTION)
        } else {
            None
        }
    }

    pub fn code(&self) -> (r: u32)
        ensures
            r == self.spec_code(),
    {
        match self {
            TrbCompletionCode::INVALID => 0,
            TrbCompletionCode::SUCCESS => 1,
            TrbCompletionCode::DATA_BUFFER_ERROR => 2,
            TrbCompletionCode::BABBLE_DETECTED => 3,
            TrbCompletionCode::USB_TRANSACTION_ERROR => 4,
            TrbCompletionCode::TRB_ERROR => 5,
            TrbCompletionCode::STALL => 6,
            TrbCompletionCode::RESOURCE_ERROR => 7,
            TrbCompletionCode::BANDWIDTH_ERROR => 8,
            TrbCompletionCode::NO_SLOTS_AVAILABLE => 9,
            TrbCompletionCode::INVALID_STREAM_TYPE => 10,
            TrbCompletionCode::SLOT_NOT_ENABLED => 11,
            TrbCompletionCode::ENDPOINT_NOT_ENABLED => 12,
            TrbCompletionCode::SHORT_PACKET => 13,
            TrbCompletionCode::RING_UNDERRUN => 14,
            TrbCompletionCode::RING_OVERRUN => 15,
            TrbCompletionCode::VF_EVENT_RING_FULL => 16,
            TrbCompletionCode::PARAMETER_ERROR => 17,
            TrbCompletionCode::BANDWIDTH_OVERRUN => 18,
            TrbCompletionCode::CONTEXT_STATE_ERROR => 19,
            TrbCompletionCode::NO_PING_RESPONSE => 20,
            TrbCompletionCode::EVENT_RING_FULL => 21,
            TrbCompletionCode::IMCOMPATIBLE_DEVICE => 22,
            TrbCompletionCode::MISSED_SERVICE => 23,
            TrbCompletionCode::COMMAND_RING_STOPPED => 24,
            TrbCompletionCode::COMMAND_ABORTED => 25,
            TrbCompletionCode::STOPPED => 26,
            TrbCompletionCode::STOPPED_LENGTH_INVALID => 27,
            TrbCompletionCode::STOPPED_SHORT_PACKET => 28,
            TrbCompletionCode::MAX_EXIT_LATENCY_TOO_LARGE => 29,
            TrbCompletionCode::ISOCH_BUFFER_OVERRUN => 31,
            TrbCompletionCode::EVENT_LOST => 32,
            TrbCompletionCode::UNDEFINED_ERROR => 33,
            TrbCompletionCode::INVALID_STREAM_ID => 34,
            TrbCompletionCode::SECONDARY_BANDWIDTH => 35,
            TrbCompletionCode::SPLIT_TRANSACTION => 36,
        }
    }

    /// Converts a code to its variant. Other codes have no variant.
    pub fn from_code(v: u32) -> (r: Option<Self>)
        ensures
            r == Self::spec_from_code(v),
    {
        if v == 0 {
            Some(TrbCompletionCode::INVALID)
        } else if v == 1 {
            Some(TrbCompletionCode::SUCCESS)
        } else if v == 2 {
            Some(TrbCompletionCode::DATA_BUFFER_ERROR)
        } else if v == 3 {
            Some(TrbCompletionCode::BABBLE_DETECTED)
        } else if v == 4 {
            Some(TrbCompletionCode::USB_TRANSACTION_ERROR)
        } else if v == 5 {
            Some(TrbCompletionCode::TRB_ERROR)
        } else if v == 6 {
            Some(TrbCompletionCode::STALL)
        } else if v == 7 {
            Some(TrbCompletionCode::RESOURCE_ERROR)
        } else if v == 8 {
            Some(TrbCompletionCode::BANDWIDTH_ERROR)
        } else if v == 9 {
            Some(TrbCompletionCode::NO_SLOTS_AVAILABLE)
        } else if v == 10 {
            Some(TrbCompletionCode::INVALID_STREAM_TYPE)
        } else if v == 11 {
            Some(TrbCompletionCode::SLOT_NOT_ENABLED)
        } else if v == 12 {
            Some(TrbCompletionCode::ENDPOINT_NOT_ENABLED)
        } else if v == 13 {
            Some(TrbCompletionCode::SHORT_PACKET)
        } else if v == 14 {
            Some(TrbCompletionCode::RING_UNDERRUN)
        } else if v == 15 {
            Some(TrbCompletionCode::RING_OVERRUN)
        } else if v == 16 {
            Some(TrbCompletionCode::VF_EVENT_RING_FULL)
        } else if v == 17 {
            Some(TrbCompletionCode::PARAMETER_ERROR)
        } else if v == 18 {
            Some(TrbCompletionCode::BANDWIDTH_OVERRUN)
        } else if v == 19 {
            Some(TrbCompletionCode::CONTEXT_STATE_ERROR)
        } else if v == 20 {
            Some(TrbCompletionCode::NO_PING_RESPONSE)
        } else if v == 21 {
            Some(TrbCompletionCode::EVENT_RING_FULL)
        } else if v == 22 {
            Some(TrbCompletionCode::IMCOMPATIBLE_DEVICE)
        } else if v == 23 {
            Some(TrbCompletionCode::MISSED_SERVICE)
        } else if v == 24 {
            Some(TrbCompletionCode::COMMAND_RING_STOPPED)
        } else if v == 25 {
            Some(TrbCompletionCode::COMMAND_ABORTED)
        } else if v == 26 {
            Some(TrbCompletionCode::STOPPED)
        } else if v == 27 {
            Some(TrbCompletionCode::STOPPED_LENGTH_INVALID)
        } else if v == 28 {
            Some(TrbCompletionCode::STOPPED_SHORT_PACKET)
        } else if v == 29 {
            Some(TrbCompletionCode::MAX_EXIT_LATENCY_TOO_LARGE)
        } else if v == 31 {
            Some(TrbCompletionCode::ISOCH_BUFFER_OVERRUN)
        } else if v == 32 {
            Some(TrbCompletionCode::EVENT_LOST)
        } else if v == 33 {
            Some(TrbCompletionCode::UNDEFINED_ERROR)
        } else if v == 34 {
            Some(TrbCompletionCode::INVALID_STREAM_ID)
        } else if v == 35 {
            Some(TrbCompletionCode::SECONDARY_BANDWIDTH)
        } else if v == 36 {
            Some(TrbCompletionCode::SPLIT_TRANSACTION)
        } else {
            None
        }
    }
}

/// The error that a completion code stands for.
pub open spec fn usb_error_of(value: TrbCompletionCode) -> UsbError {
    match value {
        TrbCompletionCode::INVALID => UsbError::InvalidParameter,
        TrbCompletionCode::USB_TRANSACTION_ERROR => UsbError::UsbTransactionError,
        TrbCompletionCode::SHORT_PACKET => UsbError::ShortPacket,
        _ => UsbError::ControllerError(value.spec_code() as usize),
    }
}

impl TrbCompletionCode {
    /// The USB error that this completion code stands for.
    pub fn to_usb_error(self) -> (r: UsbError)
        ensures
            r == usb_error_of(self),
    {
        match self {
            TrbCompletionCode::INVALID => UsbError::InvalidParameter,
            TrbCompletionCode::USB_TRANSACTION_ERROR => UsbError::UsbTransactionError,
            TrbCompletionCode::SHORT_PACKET => UsbError::ShortPacket,
            _ => UsbError::ControllerError(self.code() as usize),
        }
    }
}



/// Facts on the bits of a freshly zeroed dword.
proof fn lemma_fresh_word_bits()
    by (bit_vector)
    ensures
        0u32 & 0xFFFE_0000 == 0,
        forall|x: u32| #[trigger] (0u32 | x) == x,
        (8usize & 0x0001_FFFF) as u32 == 8,
{
}

/// The TRB type field of a block's last dword.
pub open spec fn spec_trb_type_code(raw: Seq<u32>) -> u32 {
    (raw[3] >> 10u32) & 0x3F
}

/// The dword that a flag bit `bit` of value `value` leaves in `x`.
pub open spec fn with_flag(x: u32, bit: u32, value: bool) -> u32 {
    if value {
        x | bit
    } else {
        x & !bit
    }
}

/// A transfer request block: four dwords as the controller reads them.
pub trait TrbBase: Sized {
    /// The four dwords of the block.
    spec fn spec_raw(&self) -> Seq<u32>;

    fn raw_data(&self) -> (r: &[u32; 4])
        ensures
            r@ == self.spec_raw(),
    ;

    /// Stores `value` in dword `index`.
    fn set_raw_word(&mut self, index: usize, value: u32)
        requires
            index < 4,
        ensures
            final(self).spec_raw() == old(self).spec_raw().update(index as int, value),
    ;

    fn has_known_type(&self) -> (r: bool)
        ensures
            r == (TrbType::spec_from_code(spec_trb_type_code(self.spec_raw())) is Some
                && spec_trb_type_code(self.spec_raw()) != 0),
    {
        match self.trb_type() {
            Some(v) => v.code() != 0,
            None => false,
        }
    }

    fn cycle_bit(&self) -> (r: bool)
        ensures
            r == (self.spec_raw()[3] & 1 != 0),
    {
        (self.raw_data()[3] & 0x01) != 0
    }

    fn trb_type(&self) -> (r: Option<TrbType>)
        ensures
            r == TrbType::spec_from_code(spec_trb_type_code(self.spec_raw())),
    {
        let val = (self.raw_data()[3] >> 10u32) & 0x3F;
        TrbType::from_code(val)
    }

    /// Copies the block `src` with the cycle bit replaced by `cycle`.
    fn copy(&mut self, src: &Trb, cycle: &CycleBit)
        ensures
            final(self).spec_raw() == seq![
                src.spec_dwords()[0],
                src.spec_dwords()[1],
                src.spec_dwords()[2],
                (src.spec_dwords()[3] & 0xFFFF_FFFE) | if cycle@ { 1u32 } else { 0u32 },
            ],
    {
        let s = src.0;
        let ghost old_raw = self.spec_raw();
        let r = *self.raw_data();
        self.set_raw_word(0, s[0]);
        self.set_raw_word(1, s[1]);
        self.set_raw_word(2, s[2]);
        self.set_raw_word(3, s[3] & 0xFFFF_FFFE | cycle.trb_value());
        proof {
            assert(self.spec_raw() =~= seq![
                src.spec_dwords()[0],
                src.spec_dwords()[1],
                src.spec_dwords()[2],
                (src.spec_dwords()[3] & 0xFFFF_FFFE) | if cycle@ { 1u32 } else { 0u32 },
            ]);
        }
    }

    /// Copies the block `src` but keeps this block's cycle bit.
    fn copy_without_cycle(&mut self, src: &Trb)
        ensures
            final(self).spec_raw() == seq![
                src.spec_dwords()[0],
                src.spec_dwords()[1],
                src.spec_dwords()[2],
                (src.spec_dwords()[3] & 0xFFFF_FFFE) | (old(self).spec_raw()[3] & 1),
            ],
    {
        let s = src.0;
        let d = *self.raw_data();
        self.set_raw_word(0, s[0]);
        self.set_raw_word(1, s[1]);
        self.set_raw_word(2, s[2]);
        self.set_raw_word(3, (s[3] & 0xFFFF_FFFE) | (d[3] & 0x0000_0001));
        proof {
            assert(self.spec_raw() =~= seq![
                src.spec_dwords()[0],
                src.spec_dwords()[1],
                src.spec_dwords()[2],
                (src.spec_dwords()[3] & 0xFFFF_FFFE) | (old(self).spec_raw()[3] & 1),
            ]);
        }
    }

    /// Copies all four dwords of `src`.
    fn raw_copy(&mut self, src: &Trb)
        ensures
            final(self).spec_raw() == src.spec_dwords(),
    {
        let s = src.0;
        let d = *self.raw_data();
        self.set_raw_word(0, s[0]);
        self.set_raw_word(1, s[1]);
        self.set_raw_word(2, s[2]);
        self.set_raw_word(3, s[3]);
        proof {
            assert(self.spec_raw() =~= src.spec_dwords());
        }
    }

    /// A plain block with the same dwords.
    fn clone(&self) -> (r: Trb)
        ensures
            r.spec_dwords() == self.spec_raw(),
    {
        Trb(*self.raw_data())
    }

    /// This block seen as a plain block.
    fn as_trb(&self) -> (r: Trb)
        ensures
            r.spec_dwords() == self.spec_raw(),
    {
        Trb(*self.raw_data())
    }

    /// The event that the block holds, if it is of one of the event types the driver handles.
    fn as_event(&self) -> (r: Option<TrbEvent>)
        ensures
            match r {
                Some(e) => e.spec_raw() == self.spec_raw() && e.spec_type_code() == spec_trb_type_code(
                    self.spec_raw(),
                ),
                None => !(spec_trb_type_code(self.spec_raw()) == 32 || spec_trb_type_code(self.spec_raw())
                    == 33 || spec_trb_type_code(self.spec_raw()) == 34 || spec_trb_type_code(
                    self.spec_raw(),
                ) == 38),
            },
    {
        let raw = *self.raw_data();
        let code = (raw[3] >> 10u32) & 0x3F;
        if code == 33 {
            Some(TrbEvent::CommandCompletion(TrbCommandCompletionEvent(raw)))
        } else if code == 34 {
            Some(TrbEvent::PortStatusChange(TrbPortStatusChangeEvent(raw)))
        } else if code == 32 {
            Some(TrbEvent::Transfer(TrbTransferEvent(raw)))
        } else if code == 38 {
            Some(TrbEvent::DeviceNotification(TrbDeviceNotificationEvent(raw)))
        } else {
            None
        }
    }
}

/// Blocks that carry a 64-bit pointer in their first two dwords.
pub trait TrbPtr: TrbBase {
    fn ptr(&self) -> (r: PhysicalAddress)
        ensures
            r@ == (self.spec_raw()[0] as u64) | ((self.spec_raw()[1] as u64) << 32u64),
    {
        let low = self.raw_data()[0] as u64;
        let high = self.raw_data()[1] as u64;
        PhysicalAddress::new(low | (high << 32u64))
    }

    fn set_ptr(&mut self, val: PhysicalAddress)
        ensures
            final(self).spec_raw() == old(self).spec_raw().update(0, val@ as u32).update(
                1,
                (val@ >> 32u64) as u32,
            ),
    {
        let val = val.as_u64();
        let low = val as u32;
        let high = (val >> 32u64) as u32;
        self.set_raw_word(0, low);
        self.set_raw_word(1, high);
    }
}

/// Blocks that carry a completion code.
pub trait TrbCC: TrbBase {
    fn completion_code(&self) -> (r: Option<TrbCompletionCode>)
        ensures
            r == TrbCompletionCode::spec_from_code((self.spec_raw()[2] >> 24u32) & 0xFF),
    {
        let val = (self.raw_data()[2] >> 24u32) & 0xFF;
        TrbCompletionCode::from_code(val)
    }

    fn to_usb_error(&self) -> (r: UsbError)
        ensures
            r == match TrbCompletionCode::spec_from_code((self.spec_raw()[2] >> 24u32) & 0xFF) {
                Some(cc) => usb_error_of(cc),
                None => UsbError::General,
            },
    {
        match self.completion_code() {
            Some(err) => err.to_usb_error(),
            None => UsbError::General,
        }
    }
}

/// Blocks that carry a port id in bits 24-31 of the first dword.
pub trait TrbPortId: TrbBase {
    fn port_id(&self) -> (r: Option<PortId>)
        ensures
            match r {
                Some(p) => p.0@ == (self.spec_raw()[0] >> 24u32) as u8 && p.0@ != 0,
                None => (self.spec_raw()[0] >> 24u32) as u8 == 0,
            },
    {
        match NonZeroU8::new((self.raw_data()[0] >> 24u32) as u8) {
            Some(v) => Some(PortId(v)),
            None => None,
        }
    }
}

/// Blocks that carry a slot id in bits 24-31 of the last dword.
pub trait TrbSlotId: TrbBase {
    fn slot_id(&self) -> (r: Option<SlotId>)
        ensures
            match r {
                Some(p) => p.0@ == (self.spec_raw()[3] >> 24u32) as u8 && p.0@ != 0,
                None => (self.spec_raw()[3] >> 24u32) as u8 == 0,
            },
    {
        match NonZeroU8::new((self.raw_data()[3] >> 24u32) as u8) {
            Some(v) => Some(SlotId(v)),
            None => None,
        }
    }

    fn set_slot_id(&mut self, slot_id: SlotId)
        ensures
            final(self).spec_raw() == old(self).spec_raw().update(
                3,
                (old(self).spec_raw()[3] & 0x00FF_FFFF) | ((slot_id.0@ as u32) << 24u32),
            ),
    {
        let v = (self.raw_data()[3] & 0x00FF_FFFF) | ((slot_id.0.get() as u32) << 24u32);
        self.set_raw_word(3, v);
    }
}

/// Blocks that carry an endpoint id in bits 16-20 of the last dword.
pub trait TrbDci: TrbBase {
    fn dci(&self) -> (r: Option<DCI>)
        ensures
            match r {
                Some(p) => p.0@ == (0x1F & ((self.spec_raw()[3] >> 16u32) as u8)) && p.0@ != 0,
                None => 0x1F & ((self.spec_raw()[3] >> 16u32) as u8) == 0,
            },
    {
        match NonZeroU8::new(0x1F & ((self.raw_data()[3] >> 16u32) as u8)) {
            Some(v) => Some(DCI(v)),
            None => None,
        }
    }

    fn set_dci(&mut self, dci: DCI)
        ensures
            final(self).spec_raw() == old(self).spec_raw().update(
                3,
                (old(self).spec_raw()[3] & 0xFFE0_FFFF) | ((dci.0@ as u32) << 16u32),
            ),
    {
        let v = (self.raw_data()[3] & 0xFFE0_FFFF) | ((dci.0.get() as u32) << 16u32);
        self.set_raw_word(3, v);
    }
}

/// Blocks that carry a transfer length in bits 0-16 of the third dword.
pub trait TrbXferLen: TrbBase {
    fn xfer_len(&self) -> (r: usize)
        ensures
            r == self.spec_raw()[2] & 0x0001_FFFF,
    {
        (self.raw_data()[2] & 0x0001_FFFF) as usize
    }

    fn set_xfer_len(&mut self, xfer_len: usize)
        ensures
            final(self).spec_raw() == old(self).spec_raw().update(
                2,
                (old(self).spec_raw()[2] & 0xFFFE_0000) | ((xfer_len & 0x0001_FFFF) as u32),
            ),
    {
        let v = (self.raw_data()[2] & 0xFFFE_0000) | ((xfer_len & 0x0001_FFFF) as u32);
        self.set_raw_word(2, v);
    }
}

/// Interrupt on Short Packet
pub trait TrbIsp: TrbBase {
    fn isp(&self) -> (r: bool)
        ensures
            r == (self.spec_raw()[3] & 0x0000_0004 != 0),
    {
        (self.raw_data()[3] & 0x0000_0004) != 0
    }

    fn set_isp(&mut self, value: bool)
        ensures
            final(self).spec_raw() == old(self).spec_raw().update(3, with_flag(old(self).spec_raw()[3], 0x0000_0004, value)),
    {
        let bit: u32 = 0x0000_0004;
        let cur = self.raw_data()[3];
        if value {
            self.set_raw_word(3, cur | bit);
        } else {
            self.set_raw_word(3, cur & !bit);
        }
    }
}

/// Interrupt on Completion
pub trait TrbIoC: TrbBase {
    fn ioc(&self) -> (r: bool)
        ensures
            r == (self.spec_raw()[3] & 0x0000_0020 != 0),
    {
        (self.raw_data()[3] & 0x0000_0020) != 0
    }

    fn set_ioc(&mut self, value: bool)
        ensures
            final(self).spec_raw() == old(self).spec_raw().update(3, with_flag(old(self).spec_raw()[3], 0x0000_0020, value)),
    {
        let bit: u32 = 0x0000_0020;
        let cur = self.raw_data()[3];
        if value {
            self.set_raw_word(3, cur | bit);
        } else {
            self.set_raw_word(3, cur & !bit);
        }
    }
}

/// Immediate Data
pub trait TrbIDt: TrbBase {
    fn idt(&self) -> (r: bool)
        ensures
            r == (self.spec_raw()[3] & 0x0000_0040 != 0),
    {
        (self.raw_data()[3] & 0x0000_0040) != 0
    }

    fn set_idt(&mut self, value: bool)
        ensures
            final(self).spec_raw() == old(self).spec_raw().update(3, with_flag(old(self).spec_raw()[3], 0x0000_0040, value)),
    {
        let bit: u32 = 0x0000_0040;
        let cur = self.raw_data()[3];
        if value {
            self.set_raw_word(3, cur | bit);
        } else {
            self.set_raw_word(3, cur & !bit);
        }
    }
}

/// Direction is device to host
pub trait TrbDir: TrbBase {
    fn dir(&self) -> (r: bool)
        ensures
            r == (self.spec_raw()[3] & 0x0001_0000 != 0),
    {
        (self.raw_data()[3] & 0x0001_0000) != 0
    }

    fn set_dir(&mut self, value: bool)
        ensures
            final(self).spec_raw() == old(self).spec_raw().update(3, with_flag(old(self).spec_raw()[3], 0x0001_0000, value)),
    {
        let bit: u32 = 0x0001_0000;
        let cur = self.raw_data()[3];
        if value {
            self.set_raw_word(3, cur | bit);
        } else {
            self.set_raw_word(3, cur & !bit);
        }
    }
}

/// xHCI Common Transfer Request Block
pub struct Trb([u32; 4]);

impl Trb {
    /// The four dwords of the block.
    pub closed spec fn spec_dwords(&self) -> Seq<u32> {
        self.0@
    }
}

impl TrbBase for Trb {
    open spec fn spec_raw(&self) -> Seq<u32> {
        self.spec_dwords()
    }

    fn raw_data(&self) -> (r: &[u32; 4]) {
        &self.0
    }

    fn set_raw_word(&mut self, index: usize, value: u32) {
        self.0[index] = value;
    }
}

impl Trb {
    /// A block of the given type with all other fields zero.
    pub fn new(trb_type: TrbType) -> (r: Self)
        ensures
            r.spec_raw() == seq![0u32, 0, 0, trb_type.spec_code() << 10u32],
    {
        let r = Trb([0, 0, 0, trb_type.code() << 10u32]);
        proof {
            assert(r.spec_raw() =~= seq![0u32, 0, 0, trb_type.spec_code() << 10u32]);
        }
        r
    }

    pub fn empty() -> (r: Self)
        ensures
            r.spec_raw() == seq![0u32, 0, 0, 0],
    {
        let r = Trb([0, 0, 0, 0]);
        proof {
            assert(r.spec_raw() =~= seq![0u32, 0, 0, 0]);
        }
        r
    }

    /// A block with the given dwords, as read from a ring.
    pub fn from_raw_data(raw: [u32; 4]) -> (r: Self)
        ensures
            r.spec_raw() == raw@,
    {
        Trb(raw)
    }

    pub fn set_trb_type(&mut self, trb_type: TrbType)
        ensures
            final(self).spec_raw() == old(self).spec_raw().update(
                3,
                (old(self).spec_raw()[3] & 0xFFFF_03FF) | (trb_type.spec_code() << 10u32),
            ),
    {
        let val = (self.0[3] & 0xFFFF_03FF) | (trb_type.code() << 10u32);
        self.0[3] = val;
    }
}

/// TRB for LINK
pub struct TrbLink([u32; 4]);

impl TrbLink {
    /// The four dwords of the block.
    pub closed spec fn spec_dwords(&self) -> Seq<u32> {
        self.0@
    }
}

impl TrbBase for TrbLink {
    open spec fn spec_raw(&self) -> Seq<u32> {
        self.spec_dwords()
    }

    fn raw_data(&self) -> (r: &[u32; 4]) {
        &self.0
    }

    fn set_raw_word(&mut self, index: usize, value: u32) {
        self.0[index] = value;
    }
}

impl TrbPtr for TrbLink {

}

impl TrbLink {
    pub fn new(ptr: PhysicalAddress, toggle_cycle: bool) -> (r: Self)
        ensures
            r.spec_raw() == seq![
                ptr@ as u32,
                (ptr@ >> 32u64) as u32,
                0u32,
                if toggle_cycle { (6u32 << 10u32) | 0x02 } else { 6u32 << 10u32 },
            ],
    {
        let mut result = TrbLink([0, 0, 0, 6u32 << 10u32]);
        result.set_ptr(ptr);
        if toggle_cycle {
            let v = result.0[3] | 0x02;
            result.0[3] = v;
        }
        proof {
            assert(result.spec_raw() =~= seq![
                ptr@ as u32,
                (ptr@ >> 32u64) as u32,
                0u32,
                if toggle_cycle { (6u32 << 10u32) | 0x02 } else { 6u32 << 10u32 },
            ]);
        }
        result
    }
}

/// TRB for NOP
pub struct TrbNop([u32; 4]);

impl TrbNop {
    /// The four dwords of the block.
    pub closed spec fn spec_dwords(&self) -> Seq<u32> {
        self.0@
    }
}

impl TrbBase for TrbNop {
    open spec fn spec_raw(&self) -> Seq<u32> {
        self.spec_dwords()
    }

    fn raw_data(&self) -> (r: &[u32; 4]) {
        &self.0
    }

    fn set_raw_word(&mut self, index: usize, value: u32) {
        self.0[index] = value;
    }
}

impl TrbNop {
    pub fn new() -> (r: Self)
        ensures
            r.spec_raw() == seq![0u32, 0, 0, 8u32 << 10u32],
    {
        let r = TrbNop([0, 0, 0, 8u32 << 10u32]);
        proof {
            assert(r.spec_raw() =~= seq![0u32, 0, 0, 8u32 << 10u32]);
        }
        r
    }
}

/// TRB for NORMAL
pub struct TrbNormal([u32; 4]);

impl TrbNormal {
    /// The four dwords of the block.
    pub closed spec fn spec_dwords(&self) -> Seq<u32> {
        self.0@
    }
}

impl TrbBase for TrbNormal {
    open spec fn spec_raw(&self) -> Seq<u32> {
        self.spec_dwords()
    }

    fn raw_data(&self) -> (r: &[u32; 4]) {
        &self.0
    }

    fn set_raw_word(&mut self, index: usize, value: u32) {
        self.0[index] = value;
    }
}

impl TrbPtr for TrbNormal {

}

impl TrbXferLen for TrbNormal {

}

impl TrbIsp for TrbNormal {

}

impl TrbIoC for TrbNormal {

}

impl TrbIDt for TrbNormal {

}

impl TrbNormal {
    pub fn new(ptr: PhysicalAddress, xfer_len: usize, ioc: bool, isp: bool) -> (r: Self)
        ensures
            r.spec_raw() == seq![
                ptr@ as u32,
                (ptr@ >> 32u64) as u32,
                (xfer_len & 0x0001_FFFF) as u32,
                with_flag(with_flag(1u32 << 10u32, 0x20, ioc), 0x04, isp),
            ],
    {
        let mut result = TrbNormal([0, 0, 0, 1u32 << 10u32]);
        result.set_ptr(ptr);
        result.set_xfer_len(xfer_len);
        result.set_ioc(ioc);
        result.set_isp(isp);
        proof {
            lemma_fresh_word_bits();
            assert(result.spec_raw() =~= seq![
                ptr@ as u32,
                (ptr@ >> 32u64) as u32,
                (xfer_len & 0x0001_FFFF) as u32,
                with_flag(with_flag(1u32 << 10u32, 0x20, ioc), 0x04, isp),
            ]);
        }
        result
    }
}

/// The first setup dword: request type, request and value, as the setup packet is laid out.
pub open spec fn setup_word0(setup: UsbControlSetupData) -> u32 {
    (setup.bmRequestType.0 as int + setup.bRequest.0 as int * 0x100 + setup.wValue as int * 0x1_0000) as u32
}

/// The second setup dword: index and length.
pub open spec fn setup_word1(setup: UsbControlSetupData) -> u32 {
    (setup.wIndex as int + setup.wLength.0 as int * 0x1_0000) as u32
}

/// TRB for SETUP
pub struct TrbSetupStage([u32; 4]);

impl TrbSetupStage {
    /// The four dwords of the block.
    pub closed spec fn spec_dwords(&self) -> Seq<u32> {
        self.0@
    }
}

impl TrbBase for TrbSetupStage {
    open spec fn spec_raw(&self) -> Seq<u32> {
        self.spec_dwords()
    }

    fn raw_data(&self) -> (r: &[u32; 4]) {
        &self.0
    }

    fn set_raw_word(&mut self, index: usize, value: u32) {
        self.0[index] = value;
    }
}

impl TrbXferLen for TrbSetupStage {

}

impl TrbIDt for TrbSetupStage {

}

impl TrbSetupStage {
    /// The setup stage of a control transfer: the eight setup bytes as immediate data.
    pub fn new(trt: TrbTranfserType, setup: UsbControlSetupData) -> (r: Self)
        ensures
            r.spec_raw() == seq![
                setup_word0(setup),
                setup_word1(setup),
                8u32,
                with_flag(2u32 << 10u32, 0x40, true) | (trt.spec_code() << 16u32),
            ],
    {
        let w0: u32 = (setup.bmRequestType.0 as u32) + (setup.bRequest.0 as u32) * 0x100 + (setup.wValue as u32)
            * 0x1_0000;
        let w1: u32 = (setup.wIndex as u32) + (setup.wLength.0 as u32) * 0x1_0000;
        let mut result = TrbSetupStage([w0, w1, 0, 2u32 << 10u32]);
        result.set_xfer_len(8);
        result.set_idt(true);
        let v = result.0[3] | (trt.code() << 16u32);
        result.0[3] = v;
        proof {
            lemma_fresh_word_bits();
            assert(result.spec_raw() =~= seq![
                setup_word0(setup),
                setup_word1(setup),
                8u32,
                with_flag(2u32 << 10u32, 0x40, true) | (trt.spec_code() << 16u32),
            ]);
        }
        result
    }

    /// The setup data held in the first two dwords.
    pub fn setup_data(&self) -> (r: UsbControlSetupData)
        ensures
            setup_word0(r) == self.spec_raw()[0],
            setup_word1(r) == self.spec_raw()[1],
    {
        let w0 = self.0[0];
        let w1 = self.0[1];
        UsbControlSetupData {
            bmRequestType: UsbControlRequestBitmap((w0 % 0x100) as u8),
            bRequest: UsbControlRequest(((w0 / 0x100) % 0x100) as u8),
            wValue: (w0 / 0x1_0000) as u16,
            wIndex: (w1 % 0x1_0000) as u16,
            wLength: UsbLength((w1 / 0x1_0000) as u16),
        }
    }
}

/// TRB for DATA
pub struct TrbDataStage([u32; 4]);

impl TrbDataStage {
    /// The four dwords of the block.
    pub closed spec fn spec_dwords(&self) -> Seq<u32> {
        self.0@
    }
}

impl TrbBase for TrbDataStage {
    open spec fn spec_raw(&self) -> Seq<u32> {
        self.spec_dwords()
    }

    fn raw_data(&self) -> (r: &[u32; 4]) {
        &self.0
    }

    fn set_raw_word(&mut self, index: usize, value: u32) {
        self.0[index] = value;
    }
}

impl TrbPtr for TrbDataStage {

}

impl TrbXferLen for TrbDataStage {

}

impl TrbIsp for TrbDataStage {

}

impl TrbIoC for TrbDataStage {

}

impl TrbDir for TrbDataStage {

}

impl TrbDataStage {
    pub fn new(ptr: PhysicalAddress, xfer_len: usize, dir: bool, isp: bool) -> (r: Self)
        ensures
            r.spec_raw() == seq![
                ptr@ as u32,
                (ptr@ >> 32u64) as u32,
                (xfer_len & 0x0001_FFFF) as u32,
                with_flag(with_flag(3u32 << 10u32, 0x0001_0000, dir), 0x04, isp),
            ],
    {
        let mut result = TrbDataStage([0, 0, 0, 3u32 << 10u32]);
        result.set_ptr(ptr);
        result.set_xfer_len(xfer_len);
        result.set_dir(dir);
        result.set_isp(isp);
        proof {
            lemma_fresh_word_bits();
            assert(result.spec_raw() =~= seq![
                ptr@ as u32,
                (ptr@ >> 32u64) as u32,
                (xfer_len & 0x0001_FFFF) as u32,
                with_flag(with_flag(3u32 << 10u32, 0x0001_0000, dir), 0x04, isp),
            ]);
        }
        result
    }
}

/// TRB for STATUS
pub struct TrbStatusStage([u32; 4]);

impl TrbStatusStage {
    /// The four dwords of the block.
    pub closed spec fn spec_dwords(&self) -> Seq<u32> {
        self.0@
    }
}

impl TrbBase for TrbStatusStage {
    open spec fn spec_raw(&self) -> Seq<u32> {
        self.spec_dwords()
    }

    fn raw_data(&self) -> (r: &[u32; 4]) {
        &self.0
    }

    fn set_raw_word(&mut self, index: usize, value: u32) {
        self.0[index] = value;
    }
}

impl TrbIoC for TrbStatusStage {

}

impl TrbDir for TrbStatusStage {

}

impl TrbStatusStage {
    pub fn new(dir: bool) -> (r: Self)
        ensures
            r.spec_raw() == seq![0u32, 0, 0, with_flag(with_flag(4u32 << 10u32, 0x0001_0000, dir), 0x20, true)],
    {
        let mut result = TrbStatusStage([0, 0, 0, 4u32 << 10u32]);
        result.set_dir(dir);
        result.set_ioc(true);
        proof {
            assert(result.spec_raw() =~= seq![
                0u32,
                0,
                0,
                with_flag(with_flag(4u32 << 10u32, 0x0001_0000, dir), 0x20, true),
            ]);
        }
        result
    }
}

/// An event taken from the event ring.
pub enum TrbEvent {
    CommandCompletion(TrbCommandCompletionEvent),
    PortStatusChange(TrbPortStatusChangeEvent),
    Transfer(TrbTransferEvent),
    DeviceNotification(TrbDeviceNotificationEvent),
}

impl TrbEvent {
    /// The dwords of the event block.
    pub open spec fn spec_raw(&self) -> Seq<u32> {
        match self {
            TrbEvent::CommandCompletion(v) => v.spec_dwords(),
            TrbEvent::PortStatusChange(v) => v.spec_dwords(),
            TrbEvent::Transfer(v) => v.spec_dwords(),
            TrbEvent::DeviceNotification(v) => v.spec_dwords(),
        }
    }

    /// The TRB type code of each kind of event.
    pub open spec fn spec_type_code(&self) -> u32 {
        match self {
            TrbEvent::CommandCompletion(_) => 33,
            TrbEvent::PortStatusChange(_) => 34,
            TrbEvent::Transfer(_) => 32,
            TrbEvent::DeviceNotification(_) => 38,
        }
    }

    pub fn completion_code(&self) -> (r: Option<TrbCompletionCode>)
        ensures
            r == TrbCompletionCode::spec_from_code((self.spec_raw()[2] >> 24u32) & 0xFF),
    {
        match self {
            TrbEvent::CommandCompletion(v) => v.completion_code(),
            TrbEvent::PortStatusChange(v) => v.completion_code(),
            TrbEvent::Transfer(v) => v.completion_code(),
            TrbEvent::DeviceNotification(v) => v.completion_code(),
        }
    }
}

/// TRB for COMMAND_COMPLETION_EVENT
pub struct TrbCommandCompletionEvent([u32; 4]);

impl TrbCommandCompletionEvent {
    /// The four dwords of the block.
    pub closed spec fn spec_dwords(&self) -> Seq<u32> {
        self.0@
    }
}

impl TrbBase for TrbCommandCompletionEvent {
    open spec fn spec_raw(&self) -> Seq<u32> {
        self.spec_dwords()
    }

    fn raw_data(&self) -> (r: &[u32; 4]) {
        &self.0
    }

    fn set_raw_word(&mut self, index: usize, value: u32) {
        self.0[index] = value;
    }
}

impl TrbCC for TrbCommandCompletionEvent {

}

impl TrbSlotId for TrbCommandCompletionEvent {

}

impl TrbPtr for TrbCommandCompletionEvent {

}

impl TrbCommandCompletionEvent {
    pub fn empty() -> (r: Self)
        ensures
            r.spec_raw() == seq![0u32, 0, 0, 0],
    {
        let r = Self([0, 0, 0, 0]);
        proof {
            assert(r.spec_raw() =~= seq![0u32, 0, 0, 0]);
        }
        r
    }

    pub fn copied(&self) -> (r: Self)
        ensures
            r.spec_raw() == self.spec_raw(),
    {
        let mut result = Self::empty();
        result.raw_copy(&self.as_trb());
        result
    }
}

/// TRB for PORT_STATUS_CHANGE_EVENT
pub struct TrbPortStatusChangeEvent([u32; 4]);

impl TrbPortStatusChangeEvent {
    /// The four dwords of the block.
    pub closed spec fn spec_dwords(&self) -> Seq<u32> {
        self.0@
    }
}

impl TrbBase for TrbPortStatusChangeEvent {
    open spec fn spec_raw(&self) -> Seq<u32> {
        self.spec_dwords()
    }

    fn raw_data(&self) -> (r: &[u32; 4]) {
        &self.0
    }

    fn set_raw_word(&mut self, index: usize, value: u32) {
        self.0[index] = value;
    }
}

impl TrbCC for TrbPortStatusChangeEvent {

}

impl TrbPortId for TrbPortStatusChangeEvent {

}

/// TRB for TRANSFER_EVENT
pub struct TrbTransferEvent([u32; 4]);

impl TrbTransferEvent {
    /// The four dwords of the block.
    pub closed spec fn spec_dwords(&self) -> Seq<u32> {
        self.0@
    }
}

impl TrbBase for TrbTransferEvent {
    open spec fn spec_raw(&self) -> Seq<u32> {
        self.spec_dwords()
    }

    fn raw_data(&self) -> (r: &[u32; 4]) {
        &self.0
    }

    fn set_raw_word(&mut self, index: usize, value: u32) {
        self.0[index] = value;
    }
}

impl TrbCC for TrbTransferEvent {

}

impl TrbSlotId for TrbTransferEvent {

}

impl TrbPtr for TrbTransferEvent {

}

impl TrbDci for TrbTransferEvent {

}

impl TrbTransferEvent {
    pub fn empty() -> (r: Self)
        ensures
            r.spec_raw() == seq![0u32, 0, 0, 0],
    {
        let r = Self([0, 0, 0, 0]);
        proof {
            assert(r.spec_raw() =~= seq![0u32, 0, 0, 0]);
        }
        r
    }

    pub fn copied(&self) -> (r: Self)
        ensures
            r.spec_raw() == self.spec_raw(),
    {
        let mut result = Self::empty();
        result.raw_copy(&self.as_trb());
        result
    }

    /// The residual length of the transfer (bits 0-23 of the third dword).
    pub fn transfer_length(&self) -> (r: usize)
        ensures
            r == self.spec_raw()[2] & 0x00FF_FFFF,
    {
        (self.0[2] & 0x00FF_FFFF) as usize
    }

    pub fn is_event_data(&self) -> (r: bool)
        ensures
            r == (self.spec_raw()[3] & 4 != 0),
    {
        (self.0[3] & 4) != 0
    }
}

/// TRB for DEVICE_NOTIFICATION_EVENT
pub struct TrbDeviceNotificationEvent([u32; 4]);

impl TrbDeviceNotificationEvent {
    /// The four dwords of the block.
    pub closed spec fn spec_dwords(&self) -> Seq<u32> {
        self.0@
    }
}

impl TrbBase for TrbDeviceNotificationEvent {
    open spec fn spec_raw(&self) -> Seq<u32> {
        self.spec_dwords()
    }

    fn raw_data(&self) -> (r: &[u32; 4]) {
        &self.0
    }

    fn set_raw_word(&mut self, index: usize, value: u32) {
        self.0[index] = value;
    }
}

impl TrbCC for TrbDeviceNotificationEvent {

}

impl TrbSlotId for TrbDeviceNotificationEvent {

}

impl TrbPtr for TrbDeviceNotificationEvent {

}

impl TrbDeviceNotificationEvent {
    pub fn empty() -> (r: Self)
        ensures
            r.spec_raw() == seq![0u32, 0, 0, 0],
    {
        let r = Self([0, 0, 0, 0]);
        proof {
            assert(r.spec_raw() =~= seq![0u32, 0, 0, 0]);
        }
        r
    }

    pub fn copied(&self) -> (r: Self)
        ensures
            r.spec_raw() == self.spec_raw(),
    {
        let mut result = Self::empty();
        result.raw_copy(&self.as_trb());
        result
    }
}

/// TRB for ADDRESS_DEVICE_COMMAND
pub struct TrbAddressDeviceCommand([u32; 4]);

impl TrbAddressDeviceCommand {
    /// The four dwords of the block.
    pub closed spec fn spec_dwords(&self) -> Seq<u32> {
        self.0@
    }
}

impl TrbBase for TrbAddressDeviceCommand {
    open spec fn spec_raw(&self) -> Seq<u32> {
        self.spec_dwords()
    }

    fn raw_data(&self) -> (r: &[u32; 4]) {
        &self.0
    }

    fn set_raw_word(&mut self, index: usize, value: u32) {
        self.0[index] = value;
    }
}

impl TrbSlotId for TrbAddressDeviceCommand {

}

impl TrbPtr for TrbAddressDeviceCommand {

}

impl TrbAddressDeviceCommand {
    pub fn new(slot_id: SlotId, input_context_ptr: PhysicalAddress) -> (r: Self)
        ensures
            r.spec_raw() == seq![
                input_context_ptr@ as u32,
                (input_context_ptr@ >> 32u64) as u32,
                0u32,
                ((11u32 << 10u32) & 0x00FF_FFFF) | ((slot_id.0@ as u32) << 24u32),
            ],
    {
        let mut result = TrbAddressDeviceCommand([0, 0, 0, 11u32 << 10u32]);
        result.set_slot_id(slot_id);
        result.set_ptr(input_context_ptr);
        proof {
            assert(result.spec_raw() =~= seq![
                input_context_ptr@ as u32,
                (input_context_ptr@ >> 32u64) as u32,
                0u32,
                ((11u32 << 10u32) & 0x00FF_FFFF) | ((slot_id.0@ as u32) << 24u32),
            ]);
        }
        result
    }
}

/// TRB for CONFIGURE_ENDPOINT_COMMAND
pub struct TrbConfigureEndpointCommand([u32; 4]);

impl TrbConfigureEndpointCommand {
    /// The four dwords of the block.
    pub closed spec fn spec_dwords(&self) -> Seq<u32> {
        self.0@
    }
}

impl TrbBase for TrbConfigureEndpointCommand {
    open spec fn spec_raw(&self) -> Seq<u32> {
        self.spec_dwords()
    }

    fn raw_data(&self) -> (r: &[u32; 4]) {
        &self.0
    }

    fn set_raw_word(&mut self, index: usize, value: u32) {
        self.0[index] = value;
    }
}

impl TrbSlotId for TrbConfigureEndpointCommand {

}

impl TrbPtr for TrbConfigureEndpointCommand {

}

impl TrbConfigureEndpointCommand {
    pub fn new(slot_id: SlotId, input_context_ptr: PhysicalAddress) -> (r: Self)
        ensures
            r.spec_raw() == seq![
                input_context_ptr@ as u32,
                (input_context_ptr@ >> 32u64) as u32,
                0u32,
                ((12u32 << 10u32) & 0x00FF_FFFF) | ((slot_id.0@ as u32) << 24u32),
            ],
    {
        let mut result = TrbConfigureEndpointCommand([0, 0, 0, 12u32 << 10u32]);
        result.set_slot_id(slot_id);
        result.set_ptr(input_context_ptr);
        proof {
            assert(result.spec_raw() =~= seq![
                input_context_ptr@ as u32,
                (input_context_ptr@ >> 32u64) as u32,
                0u32,
                ((12u32 << 10u32) & 0x00FF_FFFF) | ((slot_id.0@ as u32) << 24u32),
            ]);
        }
        result
    }
}

/// TRB for EVALUATE_CONTEXT_COMMAND
pub struct TrbEvaluateContextCommand([u32; 4]);

impl TrbEvaluateContextCommand {
    /// The four dwords of the block.
    pub closed spec fn spec_dwords(&self) -> Seq<u32> {
        self.0@
    }
}

impl TrbBase for TrbEvaluateContextCommand {
    open spec fn spec_raw(&self) -> Seq<u32> {
        self.spec_dwords()
    }

    fn raw_data(&self) -> (r: &[u32; 4]) {
        &self.0
    }

    fn set_raw_word(&mut self, index: usize, value: u32) {
        self.0[index] = value;
    }
}

impl TrbSlotId for TrbEvaluateContextCommand {

}

impl TrbPtr for TrbEvaluateContextCommand {

}

impl TrbEvaluateContextCommand {
    pub fn new(slot_id: SlotId, input_context_ptr: PhysicalAddress) -> (r: Self)
        ensures
            r.spec_raw() == seq![
                input_context_ptr@ as u32,
                (input_context_ptr@ >> 32u64) as u32,
                0u32,
                ((13u32 << 10u32) & 0x00FF_FFFF) | ((slot_id.0@ as u32) << 24u32),
            ],
    {
        let mut result = TrbEvaluateContextCommand([0, 0, 0, 13u32 << 10u32]);
        result.set_slot_id(slot_id);
        result.set_ptr(input_context_ptr);
        proof {
            assert(result.spec_raw() =~= seq![
                input_context_ptr@ as u32,
                (input_context_ptr@ >> 32u64) as u32,
                0u32,
                ((13u32 << 10u32) & 0x00FF_FFFF) | ((slot_id.0@ as u32) << 24u32),
            ]);
        }
        result
    }
}

/// TRB for RESET_ENDPOINT_COMMAND
pub struct TrbResetEndpointCommand([u32; 4]);

impl TrbResetEndpointCommand {
    /// The four dwords of the block.
    pub closed spec fn spec_dwords(&self) -> Seq<u32> {
        self.0@
    }
}

impl TrbBase for TrbResetEndpointCommand {
    open spec fn spec_raw(&self) -> Seq<u32> {
        self.spec_dwords()
    }

    fn raw_data(&self) -> (r: &[u32; 4]) {
        &self.0
    }

    fn set_raw_word(&mut self, index: usize, value: u32) {
        self.0[index] = value;
    }
}

impl TrbSlotId for TrbResetEndpointCommand {

}

impl TrbDci for TrbResetEndpointCommand {

}

impl TrbResetEndpointCommand {
    pub fn new(slot_id: SlotId, dci: DCI) -> (r: Self)
        ensures
            r.spec_raw() == seq![
                0u32,
                0,
                0,
                ((((14u32 << 10u32) & 0x00FF_FFFF) | ((slot_id.0@ as u32) << 24u32)) & 0xFFE0_FFFF)
                    | ((dci.0@ as u32) << 16u32),
            ],
    {
        let mut result = TrbResetEndpointCommand([0, 0, 0, 14u32 << 10u32]);
        result.set_slot_id(slot_id);
        result.set_dci(dci);
        proof {
            assert(result.spec_raw() =~= seq![
                0u32,
                0,
                0,
                ((((14u32 << 10u32) & 0x00FF_FFFF) | ((slot_id.0@ as u32) << 24u32)) & 0xFFE0_FFFF)
                    | ((dci.0@ as u32) << 16u32),
            ]);
        }
        result
    }
}

/// Transfer type of a setup stage
#[derive(Debug, Clone, Copy, PartialEq, Eq, PartialOrd, Ord, Structural)]
pub enum TrbTranfserType {
    NoData,
    ControlOut,
    ControlIn,
}

impl TrbTranfserType {
    /// The numeric code of each variant.
    pub open spec fn spec_code(self) -> u32 {
        match self {
            TrbTranfserType::NoData => 0,
            TrbTranfserType::ControlOut => 2,
            TrbTranfserType::ControlIn => 3,
        }
    }

    /// The variant with code `v`, if there is one.
    pub open spec fn spec_from_code(v: u32) -> Option<Self> {
        if v == 0 {
            Some(TrbTranfserType::NoData)
        } else if v == 2 {
            Some(TrbTranfserType::ControlOut)
        } else if v == 3 {
            Some(TrbTranfserType::ControlIn)
        } else {
            None
        }
    }

    pub fn code(&self) -> (r: u32)
        ensures
            r == self.spec_code(),
    {
        match self {
            TrbTranfserType::NoData => 0,
            TrbTranfserType::ControlOut => 2,
            TrbTranfserType::ControlIn => 3,
        }
    }

    /// Converts a code to its variant. Other codes have no variant.
    pub fn from_code(v: u32) -> (r: Option<Self>)
        ensures
            r == Self::spec_from_code(v),
    {
        if v == 0 {
            Some(TrbTranfserType::NoData)
        } else if v == 2 {
            Some(TrbTranfserType::ControlOut)
        } else if v == 3 {
            Some(TrbTranfserType::ControlIn)
        } else {
            None
        }
    }
}


/// xHC Event Ring Segment Table Entry
pub struct EventRingSegmentTableEntry {
    base: u64,
    size: u16,
    _rsrv: [u8; 6],
}

impl EventRingSegmentTableEntry {
    pub closed spec fn spec_base(&self) -> u64 {
        self.base
    }

    pub closed spec fn spec_size(&self) -> u16 {
        self.size
    }

    pub fn new(base: PhysicalAddress, size: u16) -> (r: Self)
        ensures
            r.spec_base() == base@,
            r.spec_size() == size,
    {
        Self { base: base.as_u64(), size, _rsrv: [0; 6] }
    }

    pub fn base(&self) -> (r: PhysicalAddress)
        ensures
            r@ == self.spec_base(),
    {
        PhysicalAddress::new(self.base)
    }

    pub fn size(&self) -> (r: u16)
        ensures
            r == self.spec_size(),
    {
        self.size
    }
}

/// Input Control Context: which contexts the controller drops and adds.
pub struct InputControlContext {
    drop: u32,
    add: u32,
    _reserved: [u32; 5],
    _word7: u32,
}

impl InputControlContext {
    /// The eight dwords of the context.
    pub closed spec fn spec_data(&self) -> Seq<u32> {
        seq![self.drop, self.add] + self._reserved@ + seq![self._word7]
    }

    /// A context with all dwords zero.
    pub fn zeroed() -> (r: Self)
        ensures
            r.spec_data() == Seq::new(8, |i: int| 0u32),
    {
        let r = Self { drop: 0, add: 0, _reserved: [0; 5], _word7: 0 };
        proof {
            assert(r.spec_data() =~= Seq::new(8, |i: int| 0u32));
        }
        r
    }

    pub fn clear(&mut self)
        ensures
            final(self).spec_data() == Seq::new(8, |i: int| 0u32),
    {
        *self = Self::zeroed();
    }

    pub fn set_add(&mut self, val: u32)
        ensures
            final(self).spec_data() == old(self).spec_data().update(1, val),
    {
        self.add = val;
        proof {
            assert(self.spec_data() =~= old(self).spec_data().update(1, val));
        }
    }

    pub fn set_drop(&mut self, val: u32)
        ensures
            final(self).spec_data() == old(self).spec_data().update(0, val),
    {
        self.drop = val;
        proof {
            assert(self.spec_data() =~= old(self).spec_data().update(0, val));
        }
    }
}

/// Slot Context: eight dwords describing a device to the controller.
pub struct SlotContext {
    data: [u32; 8],
}

impl SlotContext {
    pub closed spec fn spec_data(&self) -> Seq<u32> {
        self.data@
    }

    /// A slot context holds eight dwords.
    pub proof fn lemma_data_len(&self)
        ensures
            self.spec_data().len() == 8,
    {
    }

    /// A context with the given dwords, as they stand in memory.
    pub fn from_data(data: [u32; 8]) -> (r: Self)
        ensures
            r.spec_data() == data@,
    {
        Self { data }
    }

    /// The dwords of the context, as they go to memory.
    pub fn data(&self) -> (r: [u32; 8])
        ensures
            r@ == self.spec_data(),
    {
        self.data
    }

    pub fn route_string(&self) -> (r: UsbRouteString)
        ensures
            r@ == self.spec_data()[0] % 0x10_0000,
    {
        UsbRouteString::from_raw(self.data[0])
    }

    /// Writes the route string into bits 0-19 of the first dword. A route of
    /// twenty bits reads back as written, and the speed, MTT, hub and
    /// context-entry bits (20-31) and the other seven dwords stay as they were.
    pub fn set_route_string(&mut self, route: UsbRouteString)
        ensures
            final(self).spec_data() == old(self).spec_data().update(0, (old(self).spec_data()[0] & 0xFFF0_0000) | route@),
            final(self).spec_data().len() == 8,
            final(self).spec_data().subrange(1, 8) == old(self).spec_data().subrange(1, 8),
            route@ <= 0xF_FFFF ==> final(self).spec_data()[0] % 0x10_0000 == route@,
            route@ <= 0xF_FFFF ==> final(self).spec_data()[0] & 0xFFF0_0000 == old(self).spec_data()[0] & 0xFFF0_0000,
    {
        let old0 = self.data[0];
        let r = route.as_u32();
        self.data[0] = old0 & 0xFFF0_0000 | r;
        proof {
            let new0 = (old0 & 0xFFF0_0000) | r;
            assert(r <= 0xF_FFFF ==> new0 % 0x10_0000 == r && new0 & 0xFFF0_0000 == old0 & 0xFFF0_0000) by (bit_vector)
                requires
                    new0 == (old0 & 0xFFF0_0000) | r,
            ;
            assert(self.spec_data().subrange(1, 8) =~= old(self).spec_data().subrange(1, 8));
        }
    }

    pub fn set_speed(&mut self, speed: PSIV)
        ensures
            final(self).spec_data() == old(self).spec_data().update(
                0,
                (old(self).spec_data()[0] & 0xFF0F_FFFF) | ((speed.spec_code() as u32) << 20u32),
            ),
    {
        self.data[0] = self.data[0] & 0xFF0F_FFFF | ((speed.code() as u32) << 20u32);
    }

    /// The speed field (bits 20-23), which holds a speed once one was set.
    pub fn speed(&self) -> (r: PSIV)
        requires
            ((self.spec_data()[0] >> 20u32) as u8) % 16 != 0,
        ensures
            PSIV::spec_from_code(((self.spec_data()[0] >> 20u32) as u8) % 16) == Some(r),
    {
        let v = ((self.data[0] >> 20u32) as u8) % 16;
        match PSIV::from_code(v) {
            Some(s) => s,
            None => vstd::pervasive::unreached(),
        }
    }

    pub fn set_is_mtt(&mut self, value: bool)
        ensures
            final(self).spec_data() == old(self).spec_data().update(0, with_flag(old(self).spec_data()[0], 1u32 << 25u32, value)),
    {
        let bit: u32 = 1u32 << 25u32;
        if value {
            self.data[0] = self.data[0] | bit;
        } else {
            self.data[0] = self.data[0] & !bit;
        }
    }

    pub fn set_is_hub(&mut self, value: bool)
        ensures
            final(self).spec_data() == old(self).spec_data().update(0, with_flag(old(self).spec_data()[0], 1u32 << 26u32, value)),
    {
        let bit: u32 = 1u32 << 26u32;
        if value {
            self.data[0] = self.data[0] | bit;
        } else {
            self.data[0] = self.data[0] & !bit;
        }
    }

    pub fn context_entries(&self) -> (r: usize)
        ensures
            r == self.spec_data()[0] >> 27u32,
    {
        (self.data[0] >> 27u32) as usize
    }

    pub fn set_context_entries(&mut self, val: usize)
        ensures
            final(self).spec_data() == old(self).spec_data().update(0, (old(self).spec_data()[0] & 0x07FF_FFFF) | ((val as u32) << 27u32)),
    {
        self.data[0] = self.data[0] & 0x07FF_FFFF | ((val as u32) << 27u32);
    }

    pub fn max_exit_latency(&mut self) -> (r: usize)
        ensures
            r == old(self).spec_data()[1] & 0xFFFF,
            final(self).spec_data() == old(self).spec_data(),
    {
        (self.data[1] & 0xFFFF) as usize
    }

    pub fn set_max_exit_latency(&mut self, val: usize)
        ensures
            final(self).spec_data() == old(self).spec_data().update(1, (old(self).spec_data()[1] & 0xFFFF_0000) | ((val & 0xFFFF) as u32)),
    {
        self.data[1] = self.data[1] & 0xFFFF_0000 | ((val & 0xFFFF) as u32);
    }

    pub fn root_hub_port(&self) -> (r: Option<PortId>)
        ensures
            match r {
                Some(p) => p.0@ == (self.spec_data()[1] >> 16u32) as u8 && p.0@ != 0,
                None => (self.spec_data()[1] >> 16u32) as u8 == 0,
            },
    {
        match NonZeroU8::new((self.data[1] >> 16u32) as u8) {
            Some(v) => Some(PortId(v)),
            None => None,
        }
    }

    pub fn set_root_hub_port(&mut self, port_id: PortId)
        ensures
            final(self).spec_data() == old(self).spec_data().update(1, (old(self).spec_data()[1] & 0xFF00_FFFF) | ((port_id.0@ as u32) << 16u32)),
    {
        self.data[1] = self.data[1] & 0xFF00_FFFF | ((port_id.0.get() as u32) << 16u32);
    }

    pub fn num_ports(&mut self) -> (r: usize)
        ensures
            r == old(self).spec_data()[1] >> 24u32,
            final(self).spec_data() == old(self).spec_data(),
    {
        (self.data[1] >> 24u32) as usize
    }

    pub fn set_num_ports(&mut self, num: usize)
        ensures
            final(self).spec_data() == old(self).spec_data().update(1, (old(self).spec_data()[1] & 0x00FF_FFFF) | ((num as u32) << 24u32)),
    {
        self.data[1] = self.data[1] & 0x00FF_FFFF | ((num as u32) << 24u32);
    }

    pub fn set_parent_hub_slot_id(&mut self, slot_id: SlotId)
        ensures
            final(self).spec_data() == old(self).spec_data().update(2, (old(self).spec_data()[2] & 0xFFFF_FF00) | (slot_id.0@ as u32)),
    {
        self.data[2] = self.data[2] & 0xFFFF_FF00 | (slot_id.0.get() as u32);
    }

    pub fn set_parent_port_id(&mut self, port_id: UsbHubPortNumber)
        ensures
            final(self).spec_data() == old(self).spec_data().update(2, (old(self).spec_data()[2] & 0xFFFF_00FF) | ((port_id.0@ as u32) << 8u32)),
    {
        self.data[2] = self.data[2] & 0xFFFF_00FF | ((port_id.0.get() as u32) << 8u32);
    }

    pub fn set_ttt(&mut self, ttt: usize)
        ensures
            final(self).spec_data() == old(self).spec_data().update(2, (old(self).spec_data()[2] & 0xFFFC_FFFF) | ((ttt as u32) << 16u32)),
    {
        self.data[2] = self.data[2] & 0xFFFC_FFFF | ((ttt as u32) << 16u32);
    }
}

/// Endpoint Context: eight dwords describing an endpoint to the controller.
pub struct EndpointContext {
    data: [u32; 8],
}

impl EndpointContext {
    pub closed spec fn spec_data(&self) -> Seq<u32> {
        self.data@
    }

    /// An endpoint context holds eight dwords.
    pub proof fn lemma_data_len(&self)
        ensures
            self.spec_data().len() == 8,
    {
    }

    /// A context with the given dwords, as they stand in memory.
    pub fn from_data(data: [u32; 8]) -> (r: Self)
        ensures
            r.spec_data() == data@,
    {
        Self { data }
    }

    /// The dwords of the context, as they go to memory.
    pub fn data(&self) -> (r: [u32; 8])
        ensures
            r@ == self.spec_data(),
    {
        self.data
    }

    pub fn set_interval(&mut self, value: u8)
        ensures
            final(self).spec_data() == old(self).spec_data().update(0, (old(self).spec_data()[0] & 0xFF00_FFFF) | ((value as u32) << 16u32)),
    {
        self.data[0] = self.data[0] & 0xFF00_FFFF | ((value as u32) << 16u32);
    }

    pub fn set_ep_type(&mut self, ep_type: EpType)
        ensures
            final(self).spec_data() == old(self).spec_data().update(1, (old(self).spec_data()[1] & 0xFFFF_FFC7) | (ep_type.spec_code() << 3u32)),
    {
        self.data[1] = self.data[1] & 0xFFFF_FFC7 | (ep_type.code() << 3u32);
    }

    pub fn set_max_packet_size(&mut self, max_packet_size: UsbLength)
        ensures
            final(self).spec_data() == old(self).spec_data().update(1, (old(self).spec_data()[1] & 0x0000_FFFF) | ((max_packet_size.0 as u32) << 16u32)),
    {
        self.data[1] = self.data[1] & 0x0000_FFFF | ((max_packet_size.0 as u32) << 16u32);
    }

    pub fn set_max_burst_size(&mut self, max_burst_size: usize)
        ensures
            final(self).spec_data() == old(self).spec_data().update(1, (old(self).spec_data()[1] & 0xFFFF_00FF) | ((max_burst_size as u32) << 8u32)),
    {
        self.data[1] = self.data[1] & 0xFFFF_00FF | ((max_burst_size as u32) << 8u32);
    }

    pub fn set_average_trb_len(&mut self, average_trb_len: usize)
        ensures
            final(self).spec_data() == old(self).spec_data().update(4, (old(self).spec_data()[4] & 0xFFFF_0000) | (average_trb_len as u32)),
    {
        self.data[4] = self.data[4] & 0xFFFF_0000 | (average_trb_len as u32);
    }

    /// Sets the error count (bits 1-2); the count is doubled into place, which must fit.
    pub fn set_error_count(&mut self, cerr: usize)
        requires
            (cerr as u32) < 0x8000_0000,
        ensures
            final(self).spec_data() == old(self).spec_data().update(1, (old(self).spec_data()[1] & 0xFFFF_FFF9) | ((cerr as u32) * 2) as u32),
    {
        self.data[1] = self.data[1] & 0xFFFF_FFF9 | (cerr as u32 * 2);
    }

    pub fn set_trdp(&mut self, dp: PhysicalAddress)
        ensures
            final(self).spec_data() == old(self).spec_data().update(2, dp@ as u32).update(3, (dp@ >> 32u64) as u32),
    {
        let dp = dp.as_u64();
        self.data[2] = dp as u32;
        self.data[3] = (dp >> 32u64) as u32;
    }

    /// The dequeue pointer as this context reads it back: the third dword plus the
    /// fourth one times 0x10000.
    pub fn trdp(&self) -> (r: u64)
        ensures
            r == self.spec_data()[2] + self.spec_data()[3] * 0x10000,
    {
        (self.data[2] as u64) + (self.data[3] as u64) * 0x10000
    }
}

/// Endpoint Type
#[derive(Debug, Clone, Copy, PartialEq, Eq, PartialOrd, Ord, Structural)]
pub enum EpType {
    Invalid,
    IsochOut,
    BulkOut,
    InterruptOut,
    Control,
    IsochIn,
    BulkIn,
    InterruptIn,
}

impl EpType {
    /// The numeric code of each variant.
    pub open spec fn spec_code(self) -> u32 {
        match self {
            EpType::Invalid => 0,
            EpType::IsochOut => 1,
            EpType::BulkOut => 2,
            EpType::InterruptOut => 3,
            EpType::Control => 4,
            EpType::IsochIn => 5,
            EpType::BulkIn => 6,
            EpType::InterruptIn => 7,
        }
    }

    /// The variant with code `v`, if there is one.
    pub open spec fn spec_from_code(v: u32) -> Option<Self> {
        if v == 0 {
            Some(EpType::Invalid)
        } else if v == 1 {
            Some(EpType::IsochOut)
        } else if v == 2 {
            Some(EpType::BulkOut)
        } else if v == 3 {
            Some(EpType::InterruptOut)
        } else if v == 4 {
            Some(EpType::Control)
        } else if v == 5 {
            Some(EpType::IsochIn)
        } else if v == 6 {
            Some(EpType::BulkIn)
        } else if v == 7 {
            Some(EpType::InterruptIn)
        } else {
            None
        }
    }

    pub fn code(&self) -> (r: u32)
        ensures
            r == self.spec_code(),
    {
        match self {
            EpType::Invalid => 0,
            EpType::IsochOut => 1,
            EpType::BulkOut => 2,
            EpType::InterruptOut => 3,
            EpType::Control => 4,
            EpType::IsochIn => 5,
            EpType::BulkIn => 6,
            EpType::InterruptIn => 7,
        }
    }

    /// Converts a code to its variant. Other codes have no variant.
    pub fn from_code(v: u32) -> (r: Option<Self>)
        ensures
            r == Self::spec_from_code(v),
    {
        if v == 0 {
            Some(EpType::Invalid)
        } else if v == 1 {
            Some(EpType::IsochOut)
        } else if v == 2 {
            Some(EpType::BulkOut)
        } else if v == 3 {
            Some(EpType::InterruptOut)
        } else if v == 4 {
            Some(EpType::Control)
        } else if v == 5 {
            Some(EpType::IsochIn)
        } else if v == 6 {
            Some(EpType::BulkIn)
        } else if v == 7 {
            Some(EpType::InterruptIn)
        } else {
            None
        }
    }
}

impl EpType {
    /// The context endpoint type of a USB endpoint type in a direction (`dir` true for IN).
    pub open spec fn spec_from_usb(usb_ep_type: UsbEndpointType, dir: bool) -> Self {
        match (dir, usb_ep_type) {
            (false, UsbEndpointType::Control) => Self::Invalid,
            (false, UsbEndpointType::Isochronous) => Self::IsochOut,
            (false, UsbEndpointType::Bulk) => Self::BulkOut,
            (false, UsbEndpointType::Interrupt) => Self::InterruptOut,
            (true, UsbEndpointType::Control) => Self::Control,
            (true, UsbEndpointType::Isochronous) => Self::IsochIn,
            (true, UsbEndpointType::Bulk) => Self::BulkIn,
            (true, UsbEndpointType::Interrupt) => Self::InterruptIn,
        }
    }

    pub fn from_usb_ep_type(usb_ep_type: UsbEndpointType, dir: bool) -> (r: Self)
        ensures
            r == Self::spec_from_usb(usb_ep_type, dir),
    {
        match (dir, usb_ep_type) {
            (false, UsbEndpointType::Control) => Self::Invalid,
            (false, UsbEndpointType::Isochronous) => Self::IsochOut,
            (false, UsbEndpointType::Bulk) => Self::BulkOut,
            (false, UsbEndpointType::Interrupt) => Self::InterruptOut,
            (true, UsbEndpointType::Control) => Self::Control,
            (true, UsbEndpointType::Isochronous) => Self::IsochIn,
            (true, UsbEndpointType::Bulk) => Self::BulkIn,
            (true, UsbEndpointType::Interrupt) => Self::InterruptIn,
        }
    }

    pub fn is_control(&self) -> (r: bool)
        ensures
            r == (*self == EpType::Control),
    {
        match self {
            EpType::Control => true,
            _ => false,
        }
    }

    pub fn is_isochronous(&self) -> (r: bool)
        ensures
            r == (*self == EpType::IsochOut || *self == EpType::IsochIn),
    {
        match self {
            EpType::IsochOut | EpType::IsochIn => true,
            _ => false,
        }
    }

    pub fn is_bulk(&self) -> (r: bool)
        ensures
            r == (*self == EpType::BulkOut || *self == EpType::BulkIn),
    {
        match self {
            EpType::BulkOut | EpType::BulkIn => true,
            _ => false,
        }
    }

    pub fn is_interrupt(&self) -> (r: bool)
        ensures
            r == (*self == EpType::InterruptOut || *self == EpType::InterruptIn),
    {
        match self {
            EpType::InterruptOut | EpType::InterruptIn => true,
            _ => false,
        }
    }
}

/// xHCI Supported Protocol Capability: the first three dwords of the capability,
/// as read from the controller's extended capabilities.
#[derive(Debug, Clone, Copy)]
pub struct XhciSupportedProtocolCapability(pub [u32; 3]);

impl XhciSupportedProtocolCapability {
    pub fn rev_minor(&self) -> (r: u8)
        ensures
            r == (self.0[0] >> 16u32) as u8,
    {
        (self.0[0] >> 16u32) as u8
    }

    pub fn rev_major(&self) -> (r: u8)
        ensures
            r == (self.0[0] >> 24u32) as u8,
    {
        (self.0[0] >> 24u32) as u8
    }

    /// The name string: the four bytes of the second dword in memory order
    /// (`b"USB "` for USB).
    pub fn name(&self) -> (r: [u8; 4])
        ensures
            r@ == seq![
                (self.0[1] % 0x100) as u8,
                ((self.0[1] / 0x100) % 0x100) as u8,
                ((self.0[1] / 0x1_0000) % 0x100) as u8,
                (self.0[1] / 0x100_0000) as u8,
            ],
    {
        let d = self.0[1];
        let r = [
            (d % 0x100) as u8,
            ((d / 0x100) % 0x100) as u8,
            ((d / 0x1_0000) % 0x100) as u8,
            (d / 0x100_0000) as u8,
        ];
        proof {
            assert(r@ =~= seq![
                (self.0[1] % 0x100) as u8,
                ((self.0[1] / 0x100) % 0x100) as u8,
                ((self.0[1] / 0x1_0000) % 0x100) as u8,
                (self.0[1] / 0x100_0000) as u8,
            ]);
        }
        r
    }

    pub fn compatible_port_offset(&self) -> (r: u8)
        ensures
            r == (self.0[2] & 0xFF) as u8,
    {
        (self.0[2] & 0xFF) as u8
    }

    pub fn compatible_port_count(&self) -> (r: u8)
        ensures
            r == ((self.0[2] >> 8u32) & 0xFF) as u8,
    {
        ((self.0[2] >> 8u32) & 0xFF) as u8
    }
}


proof fn lemma_trb_field_bits(x: u32, s: u32, d: u32, len: usize, t: u32)
    by (bit_vector)
    requires
        s < 256,
        d < 32,
        t < 64,
    ensures
        (((x & 0x00FF_FFFF) | (s << 24u32)) >> 24u32) as u8 == s,
        ((x & 0x00FF_FFFF) | (s << 24u32)) & 0x00FF_FFFF == x & 0x00FF_FFFF,
        0x1F & ((((x & 0xFFE0_FFFF) | (d << 16u32)) >> 16u32) as u8) == d,
        ((x & 0xFFE0_FFFF) | (d << 16u32)) & 0xFFE0_FFFF == x & 0xFFE0_FFFF,
        ((x & 0xFFFE_0000) | ((len & 0x0001_FFFF) as u32)) & 0x0001_FFFF == (len & 0x0001_FFFF) as u32,
        ((x & 0xFFFE_0000) | ((len & 0x0001_FFFF) as u32)) & 0xFFFE_0000 == x & 0xFFFE_0000,
        (((x & 0xFFFF_03FF) | (t << 10u32)) >> 10u32) & 0x3F == t,
        ((x & 0xFFFF_03FF) | (t << 10u32)) & 0xFFFF_03FF == x & 0xFFFF_03FF,
        (x | 0x04) & 0x04 != 0,
        (x & !0x04u32) & 0x04 == 0,
        (x | 0x20) & 0x20 != 0,
        (x & !0x20u32) & 0x20 == 0,
        (x | 0x40) & 0x40 != 0,
        (x & !0x40u32) & 0x40 == 0,
        (x | 0x0001_0000) & 0x0001_0000 != 0,
        (x & !0x0001_0000u32) & 0x0001_0000 == 0,
{
}

/// What `set_slot_id` stores is what `slot_id` reads back, and the rest of the dword stays.
pub proof fn lemma_slot_id_set_get(raw3: u32, slot_id: SlotId)
    ensures
        ({
            let w = (raw3 & 0x00FF_FFFF) | ((slot_id.0@ as u32) << 24u32);
            &&& (w >> 24u32) as u8 == slot_id.0@
            &&& w & 0x00FF_FFFF == raw3 & 0x00FF_FFFF
        }),
{
    lemma_trb_field_bits(raw3, slot_id.0@ as u32, 0, 0, 0);
}

/// What `set_dci` stores is what `dci` reads back for a context index below 32, and the
/// rest of the dword stays.
pub proof fn lemma_dci_set_get(raw3: u32, dci: DCI)
    requires
        dci.0@ < 32,
    ensures
        ({
            let w = (raw3 & 0xFFE0_FFFF) | ((dci.0@ as u32) << 16u32);
            &&& 0x1F & ((w >> 16u32) as u8) == dci.0@
            &&& w & 0xFFE0_FFFF == raw3 & 0xFFE0_FFFF
        }),
{
    lemma_trb_field_bits(raw3, 0, dci.0@ as u32, 0, 0);
}

/// What `set_xfer_len` stores is the length's low 17 bits, which `xfer_len` reads back; the
/// rest of the dword stays.
pub proof fn lemma_xfer_len_set_get(raw2: u32, xfer_len: usize)
    ensures
        ({
            let w = (raw2 & 0xFFFE_0000) | ((xfer_len & 0x0001_FFFF) as u32);
            &&& w & 0x0001_FFFF == (xfer_len & 0x0001_FFFF) as u32
            &&& w & 0xFFFE_0000 == raw2 & 0xFFFE_0000
        }),
{
    lemma_trb_field_bits(raw2, 0, 0, xfer_len, 0);
}

/// What `set_trb_type` stores is what `trb_type` reads back; the rest of the dword stays.
pub proof fn lemma_trb_type_set_get(raw3: u32, trb_type: TrbType)
    ensures
        ({
            let w = (raw3 & 0xFFFF_03FF) | (trb_type.spec_code() << 10u32);
            &&& (w >> 10u32) & 0x3F == trb_type.spec_code()
            &&& w & 0xFFFF_03FF == raw3 & 0xFFFF_03FF
        }),
{
    lemma_trb_field_bits(raw3, 0, 0, 0, trb_type.spec_code());
}

/// What `set_ptr` stores is what `ptr` reads back.
pub proof fn lemma_ptr_set_get(val: u64)
    ensures
        ((val as u32) as u64) | ((((val >> 32u64) as u32) as u64) << 32u64) == val,
{
    assert(((val as u32) as u64) | ((((val >> 32u64) as u32) as u64) << 32u64) == val) by (bit_vector);
}

/// The flag setters (`set_isp`, `set_ioc`, `set_idt`, `set_dir`) store what the flag
/// getters read back.
pub proof fn lemma_flag_set_get(x: u32, value: bool)
    ensures
        (with_flag(x, 0x04, value) & 0x04 != 0) == value,
        (with_flag(x, 0x20, value) & 0x20 != 0) == value,
        (with_flag(x, 0x40, value) & 0x40 != 0) == value,
        (with_flag(x, 0x0001_0000, value) & 0x0001_0000 != 0) == value,
{
    lemma_trb_field_bits(x, 0, 0, 0, 0);
}

/// The setup data is determined by the two dwords that a setup stage holds, so
/// `setup_data` gives back the setup data that the stage was made with.
pub proof fn lemma_setup_words_injective(a: UsbControlSetupData, b: UsbControlSetupData)
    requires
        setup_word0(a) == setup_word0(b),
        setup_word1(a) == setup_word1(b),
    ensures
        a == b,
{
}


/// An endpoint context keeps the direction and the transfer kind of its USB
/// endpoint: IN endpoints have codes 4 to 7 and OUT endpoints 0 to 3, and the
/// code within each half is the kind as the endpoint descriptor encodes it
/// (control 0, isochronous 1, bulk 2, interrupt 3).
pub proof fn lemma_ep_type_keeps_direction(usb_ep_type: UsbEndpointType, dir: bool)
    ensures
        EpType::spec_from_usb(usb_ep_type, dir).spec_code() == (if dir { 4int } else { 0int }) + usb_ep_type.spec_code(),
        (EpType::spec_from_usb(usb_ep_type, dir).spec_code() < 4) == !dir,
{
}

} // verus!
