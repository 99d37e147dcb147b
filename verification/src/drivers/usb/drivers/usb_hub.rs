//! USB Hub Class Driver (09_xx_xx): hub requests, port status and the decisions that
//! the hub tasks take on port events.

use vstd::prelude::*;
use crate::drivers::usb::UsbError;
use crate::num::NonZeroU8;
use vstd::arithmetic::power2::{pow2, lemma_pow2_unfold, lemma2_to64};
use crate::drivers::usb::usb::{
    PSIV, Usb3LinkState, UsbClass, UsbControlRequest, UsbControlRequestBitmap, UsbControlSetupData,
    UsbHubPortNumber, UsbLength, UsbRouteString, route_depth,
};

verus! {

/// USB2 Hub Port Status Bits
#[derive(Debug, Clone, Copy, PartialEq, Eq, Structural)]
pub struct UsbHub2PortStatusBit(pub u16);

impl UsbHub2PortStatusBit {
    pub const PORT_CONNECTION: u16 = 0b0000_0000_0000_0001;
    pub const PORT_ENABLE: u16 = 0b0000_0000_0000_0010;
    pub const PORT_SUSPEND: u16 = 0b0000_0000_0000_0100;
    pub const PORT_OVER_CURRENT: u16 = 0b0000_0000_0000_1000;
    pub const PORT_RESET: u16 = 0b0000_0000_0001_0000;
    pub const PORT_POWER: u16 = 0b0000_0001_0000_0000;
    pub const PORT_LOW_SPEED: u16 = 0b0000_0010_0000_0000;
    pub const PORT_HIGH_SPEED: u16 = 0b0000_0100_0000_0000;
    pub const PORT_TEST: u16 = 0b0000_1000_0000_0000;
    pub const PORT_INDICATOR: u16 = 0b0001_0000_0000_0000;

    pub fn bits(&self) -> (r: u16)
        ensures
            r == self.0,
    {
        self.0
    }

    pub fn from_bits_retain(bits: u16) -> (r: Self)
        ensures
            r.0 == bits,
    {
        Self(bits)
    }

    pub fn empty() -> (r: Self)
        ensures
            r.0 == 0,
    {
        Self(0)
    }

    pub fn is_empty(&self) -> (r: bool)
        ensures
            r == (self.0 == 0),
    {
        self.0 == 0
    }

    pub fn contains(&self, other: Self) -> (r: bool)
        ensures
            r == (self.0 & other.0 == other.0),
    {
        self.0 & other.0 == other.0
    }

    pub fn union(self, other: Self) -> (r: Self)
        ensures
            r.0 == self.0 | other.0,
    {
        Self(self.0 | other.0)
    }

    pub fn intersection(self, other: Self) -> (r: Self)
        ensures
            r.0 == self.0 & other.0,
    {
        Self(self.0 & other.0)
    }

    pub fn difference(self, other: Self) -> (r: Self)
        ensures
            r.0 == self.0 & !other.0,
    {
        Self(self.0 & !other.0)
    }

    /// The speed of the attached device: low speed, else high speed, else full speed.
    pub fn speed(&self) -> (r: PSIV)
        ensures
            r == if self.0 & 0x0200 == 0x0200 {
                PSIV::LS
            } else if self.0 & 0x0400 == 0x0400 {
                PSIV::HS
            } else {
                PSIV::FS
            },
    {
        if self.contains(Self::from_bits_retain(Self::PORT_LOW_SPEED)) {
            PSIV::LS
        } else if self.contains(Self::from_bits_retain(Self::PORT_HIGH_SPEED)) {
            PSIV::HS
        } else {
            PSIV::FS
        }
    }
}

/// USB2 Hub Port Status Change Bits
#[derive(Debug, Clone, Copy, PartialEq, Eq, Structural)]
pub struct UsbHub2PortChangeBit(pub u16);

impl UsbHub2PortChangeBit {
    pub const C_PORT_CONNECTION: u16 = 0b0000_0000_0000_0001;
    pub const C_PORT_ENABLE: u16 = 0b0000_0000_0000_0010;
    pub const C_PORT_SUSPEND: u16 = 0b0000_0000_0000_0100;
    pub const C_PORT_OVER_CURRENT: u16 = 0b0000_0000_0000_1000;
    pub const C_PORT_RESET: u16 = 0b0000_0000_0001_0000;

    pub fn bits(&self) -> (r: u16)
        ensures
            r == self.0,
    {
        self.0
    }

    pub fn from_bits_retain(bits: u16) -> (r: Self)
        ensures
            r.0 == bits,
    {
        Self(bits)
    }

    pub fn empty() -> (r: Self)
        ensures
            r.0 == 0,
    {
        Self(0)
    }

    pub fn is_empty(&self) -> (r: bool)
        ensures
            r == (self.0 == 0),
    {
        self.0 == 0
    }

    pub fn contains(&self, other: Self) -> (r: bool)
        ensures
            r == (self.0 & other.0 == other.0),
    {
        self.0 & other.0 == other.0
    }

    pub fn union(self, other: Self) -> (r: Self)
        ensures
            r.0 == self.0 | other.0,
    {
        Self(self.0 | other.0)
    }

    pub fn intersection(self, other: Self) -> (r: Self)
        ensures
            r.0 == self.0 & other.0,
    {
        Self(self.0 & other.0)
    }

    pub fn difference(self, other: Self) -> (r: Self)
        ensures
            r.0 == self.0 & !other.0,
    {
        Self(self.0 & !other.0)
    }
}

/// USB3 Hub Port Status Bits
#[derive(Debug, Clone, Copy, PartialEq, Eq, Structural)]
pub struct UsbHub3PortStatusBit(pub u16);

impl UsbHub3PortStatusBit {
    pub const PORT_CONNECTION: u16 = 0b0000_0000_0000_0001;
    pub const PORT_ENABLE: u16 = 0b0000_0000_0000_0010;
    pub const PORT_OVER_CURRENT: u16 = 0b0000_0000_0000_1000;
    pub const PORT_RESET: u16 = 0b0000_0000_0001_0000;
    pub const PORT_LINK_STATE: u16 = 0b0000_0001_1110_0000;
    pub const PORT_POWER: u16 = 0b0000_0010_0000_0000;
    pub const PORT_SPEED: u16 = 0b0001_1100_0000_0000;

    pub fn bits(&self) -> (r: u16)
        ensures
            r == self.0,
    {
        self.0
    }

    pub fn from_bits_retain(bits: u16) -> (r: Self)
        ensures
            r.0 == bits,
    {
        Self(bits)
    }

    pub fn empty() -> (r: Self)
        ensures
            r.0 == 0,
    {
        Self(0)
    }

    pub fn is_empty(&self) -> (r: bool)
        ensures
            r == (self.0 == 0),
    {
        self.0 == 0
    }

    pub fn contains(&self, other: Self) -> (r: bool)
        ensures
            r == (self.0 & other.0 == other.0),
    {
        self.0 & other.0 == other.0
    }

    pub fn union(self, other: Self) -> (r: Self)
        ensures
            r.0 == self.0 | other.0,
    {
        Self(self.0 | other.0)
    }

    pub fn intersection(self, other: Self) -> (r: Self)
        ensures
            r.0 == self.0 & other.0,
    {
        Self(self.0 & other.0)
    }

    pub fn difference(self, other: Self) -> (r: Self)
        ensures
            r.0 == self.0 & !other.0,
    {
        Self(self.0 & !other.0)
    }

    pub fn link_state_raw(&self) -> (r: usize)
        ensures
            r == (self.0 & 0b0000_0001_1110_0000) >> 5u16,
    {
        ((self.bits() & Self::PORT_LINK_STATE) >> 5u16) as usize
    }

    pub fn link_state(&self) -> (r: Option<Usb3LinkState>)
        ensures
            r == Usb3LinkState::spec_from_code(((self.0 & 0b0000_0001_1110_0000) >> 5u16) as u8),
    {
        Usb3LinkState::from_code(self.link_state_raw() as u8)
    }
}

/// USB3 Hub Port Status Change Bits
#[derive(Debug, Clone, Copy, PartialEq, Eq, Structural)]
pub struct UsbHub3PortChangeBit(pub u16);

impl UsbHub3PortChangeBit {
    pub const C_PORT_CONNECTION: u16 = 0b0000_0000_0000_0001;
    pub const C_PORT_OVER_CURRENT: u16 = 0b0000_0000_0000_1000;
    pub const C_PORT_RESET: u16 = 0b0000_0000_0001_0000;
    pub const C_BH_PORT_RESET: u16 = 0b0000_0000_0010_0000;
    pub const C_PORT_LINK_STATE: u16 = 0b0000_0000_0100_0000;
    pub const C_PORT_CONFIG_ERROR: u16 = 0b0000_0000_1000_0000;

    pub fn bits(&self) -> (r: u16)
        ensures
            r == self.0,
    {
        self.0
    }

    pub fn from_bits_retain(bits: u16) -> (r: Self)
        ensures
            r.0 == bits,
    {
        Self(bits)
    }

    pub fn empty() -> (r: Self)
        ensures
            r.0 == 0,
    {
        Self(0)
    }

    pub fn is_empty(&self) -> (r: bool)
        ensures
            r == (self.0 == 0),
    {
        self.0 == 0
    }

    pub fn contains(&self, other: Self) -> (r: bool)
        ensures
            r == (self.0 & other.0 == other.0),
    {
        self.0 & other.0 == other.0
    }

    pub fn union(self, other: Self) -> (r: Self)
        ensures
            r.0 == self.0 | other.0,
    {
        Self(self.0 | other.0)
    }

    pub fn intersection(self, other: Self) -> (r: Self)
        ensures
            r.0 == self.0 & other.0,
    {
        Self(self.0 & other.0)
    }

    pub fn difference(self, other: Self) -> (r: Self)
        ensures
            r.0 == self.0 & !other.0,
    {
        Self(self.0 & !other.0)
    }
}

/// Status of a USB2 hub port as GET_STATUS returns it.
#[derive(Debug, Clone, Copy, PartialEq, Eq, Structural)]
pub struct UsbHub2PortStatus {
    pub status: UsbHub2PortStatusBit,
    pub change: UsbHub2PortChangeBit,
}

impl UsbHub2PortStatus {
    pub fn empty() -> (r: Self)
        ensures
            r.status.0 == 0,
            r.change.0 == 0,
    {
        Self { status: UsbHub2PortStatusBit::empty(), change: UsbHub2PortChangeBit::empty() }
    }

    pub fn changes(change: UsbHub2PortChangeBit) -> (r: Self)
        ensures
            r.status.0 == 0,
            r.change == change,
    {
        Self { status: UsbHub2PortStatusBit::empty(), change }
    }

    /// The four status bytes as one little-endian dword: status, then change.
    pub fn as_u32(&self) -> (r: u32)
        ensures
            r == self.status.0 as int + self.change.0 as int * 0x1_0000,
    {
        (self.status.0 as u32) + (self.change.0 as u32) * 0x1_0000
    }

    /// The status that the four bytes of a GET_STATUS answer give.
    pub fn from_bytes(data: [u8; 4]) -> (r: Self)
        ensures
            r.status.0 == data[0] as int + data[1] as int * 256,
            r.change.0 == data[2] as int + data[3] as int * 256,
    {
        Self {
            status: UsbHub2PortStatusBit((data[0] as u16) + (data[1] as u16) * 256),
            change: UsbHub2PortChangeBit((data[2] as u16) + (data[3] as u16) * 256),
        }
    }
}

/// Status of a USB3 hub port as GET_STATUS returns it.
#[derive(Debug, Clone, Copy, PartialEq, Eq, Structural)]
pub struct UsbHub3PortStatus {
    pub status: UsbHub3PortStatusBit,
    pub change: UsbHub3PortChangeBit,
}

impl UsbHub3PortStatus {
    pub fn empty() -> (r: Self)
        ensures
            r.status.0 == 0,
            r.change.0 == 0,
    {
        Self { status: UsbHub3PortStatusBit::empty(), change: UsbHub3PortChangeBit::empty() }
    }

    /// The four status bytes as one little-endian dword: status, then change.
    pub fn as_u32(&self) -> (r: u32)
        ensures
            r == self.status.0 as int + self.change.0 as int * 0x1_0000,
    {
        (self.status.0 as u32) + (self.change.0 as u32) * 0x1_0000
    }

    /// The status that the four bytes of a GET_STATUS answer give.
    pub fn from_bytes(data: [u8; 4]) -> (r: Self)
        ensures
            r.status.0 == data[0] as int + data[1] as int * 256,
            r.change.0 == data[2] as int + data[3] as int * 256,
    {
        Self {
            status: UsbHub3PortStatusBit((data[0] as u16) + (data[1] as u16) * 256),
            change: UsbHub3PortChangeBit((data[2] as u16) + (data[3] as u16) * 256),
        }
    }
}

/// USB Hub Feature Selector
#[derive(Debug, Clone, Copy, PartialEq, Eq, PartialOrd, Ord, Structural)]
#[allow(non_camel_case_types)]
pub enum UsbHubFeatureSel {
    C_HUB_LOCAL_POWER,
    C_HUB_OVER_CURRENT,
}

impl UsbHubFeatureSel {
    /// The numeric code of each variant.
    pub open spec fn spec_code(self) -> u16 {
        match self {
            UsbHubFeatureSel::C_HUB_LOCAL_POWER => 0,
            UsbHubFeatureSel::C_HUB_OVER_CURRENT => 1,
        }
    }

    /// The variant with code `v`, if there is one.
    pub open spec fn spec_from_code(v: u16) -> Option<Self> {
        if v == 0 {
            Some(UsbHubFeatureSel::C_HUB_LOCAL_POWER)
        } else if v == 1 {
            Some(UsbHubFeatureSel::C_HUB_OVER_CURRENT)
        } else {
            None
        }
    }

    pub fn code(&self) -> (r: u16)
        ensures
            r == self.spec_code(),
    {
        match self {
            UsbHubFeatureSel::C_HUB_LOCAL_POWER => 0,
            UsbHubFeatureSel::C_HUB_OVER_CURRENT => 1,
        }
    }

    /// Converts a code to its variant. Other codes have no variant.
    pub fn from_code(v: u16) -> (r: Option<Self>)
        ensures
            r == Self::spec_from_code(v),
    {
        if v == 0 {
            Some(UsbHubFeatureSel::C_HUB_LOCAL_POWER)
        } else if v == 1 {
            Some(UsbHubFeatureSel::C_HUB_OVER_CURRENT)
        } else {
            None
        }
    }
}
/// USB2 Hub Port Feature Selector
#[derive(Debug, Clone, Copy, PartialEq, Eq, PartialOrd, Ord, Structural)]
#[allow(non_camel_case_types)]
pub enum UsbHub2PortFeatureSel {
    PORT_CONNECTION,
    PORT_ENABLE,
    PORT_SUSPEND,
    PORT_OVER_CURRENT,
    PORT_RESET,
    PORT_POWER,
    PORT_LOW_SPEED,
    C_PORT_CONNECTION,
    C_PORT_ENABLE,
    C_PORT_SUSPEND,
    C_PORT_OVER_CURRENT,
    C_PORT_RESET,
    PORT_TEST,
    PORT_INDICATOR,
}

impl UsbHub2PortFeatureSel {
    /// The numeric code of each variant.
    pub open spec fn spec_code(self) -> u16 {
        match self {
            UsbHub2PortFeatureSel::PORT_CONNECTION => 0,
            UsbHub2PortFeatureSel::PORT_ENABLE => 1,
            UsbHub2PortFeatureSel::PORT_SUSPEND => 2,
            UsbHub2PortFeatureSel::PORT_OVER_CURRENT => 3,
            UsbHub2PortFeatureSel::PORT_RESET => 4,
            UsbHub2PortFeatureSel::PORT_POWER => 8,
            UsbHub2PortFeatureSel::PORT_LOW_SPEED => 9,
            UsbHub2PortFeatureSel::C_PORT_CONNECTION => 16,
            UsbHub2PortFeatureSel::C_PORT_ENABLE => 17,
            UsbHub2PortFeatureSel::C_PORT_SUSPEND => 18,
            UsbHub2PortFeatureSel::C_PORT_OVER_CURRENT => 19,
            UsbHub2PortFeatureSel::C_PORT_RESET => 20,
            UsbHub2PortFeatureSel::PORT_TEST => 21,
            UsbHub2PortFeatureSel::PORT_INDICATOR => 22,
        }
    }

    /// The variant with code `v`, if there is one.
    pub open spec fn spec_from_code(v: u16) -> Option<Self> {
        if v == 0 {
            Some(UsbHub2PortFeatureSel::PORT_CONNECTION)
        } else if v == 1 {
            Some(UsbHub2PortFeatureSel::PORT_ENABLE)
        } else if v == 2 {
            Some(UsbHub2PortFeatureSel::PORT_SUSPEND)
        } else if v == 3 {
            Some(UsbHub2PortFeatureSel::PORT_OVER_CURRENT)
        } else if v == 4 {
            Some(UsbHub2PortFeatureSel::PORT_RESET)
        } else if v == 8 {
            Some(UsbHub2PortFeatureSel::PORT_POWER)
        } else if v == 9 {
            Some(UsbHub2PortFeatureSel::PORT_LOW_SPEED)
        } else if v == 16 {
            Some(UsbHub2PortFeatureSel::C_PORT_CONNECTION)
        } else if v == 17 {
            Some(UsbHub2PortFeatureSel::C_PORT_ENABLE)
        } else if v == 18 {
            Some(UsbHub2PortFeatureSel::C_PORT_SUSPEND)
        } else if v == 19 {
            Some(UsbHub2PortFeatureSel::C_PORT_OVER_CURRENT)
        } else if v == 20 {
            Some(UsbHub2PortFeatureSel::C_PORT_RESET)
        } else if v == 21 {
            Some(UsbHub2PortFeatureSel::PORT_TEST)
        } else if v == 22 {
            Some(UsbHub2PortFeatureSel::PORT_INDICATOR)
        } else {
            None
        }
    }

    pub fn code(&self) -> (r: u16)
        ensures
            r == self.spec_code(),
    {
        match self {
            UsbHub2PortFeatureSel::PORT_CONNECTION => 0,
            UsbHub2PortFeatureSel::PORT_ENABLE => 1,
            UsbHub2PortFeatureSel::PORT_SUSPEND => 2,
            UsbHub2PortFeatureSel::PORT_OVER_CURRENT => 3,
            UsbHub2PortFeatureSel::PORT_RESET => 4,
            UsbHub2PortFeatureSel::PORT_POWER => 8,
            UsbHub2PortFeatureSel::PORT_LOW_SPEED => 9,
            UsbHub2PortFeatureSel::C_PORT_CONNECTION => 16,
            UsbHub2PortFeatureSel::C_PORT_ENABLE => 17,
            UsbHub2PortFeatureSel::C_PORT_SUSPEND => 18,
            UsbHub2PortFeatureSel::C_PORT_OVER_CURRENT => 19,
            UsbHub2PortFeatureSel::C_PORT_RESET => 20,
            UsbHub2PortFeatureSel::PORT_TEST => 21,
            UsbHub2PortFeatureSel::PORT_INDICATOR => 22,
        }
    }

    /// Converts a code to its variant. Other codes have no variant.
    pub fn from_code(v: u16) -> (r: Option<Self>)
        ensures
            r == Self::spec_from_code(v),
    {
        if v == 0 {
            Some(UsbHub2PortFeatureSel::PORT_CONNECTION)
        } else if v == 1 {
            Some(UsbHub2PortFeatureSel::PORT_ENABLE)
        } else if v == 2 {
            Some(UsbHub2PortFeatureSel::PORT_SUSPEND)
        } else if v == 3 {
            Some(UsbHub2PortFeatureSel::PORT_OVER_CURRENT)
        } else if v == 4 {
            Some(UsbHub2PortFeatureSel::PORT_RESET)
        } else if v == 8 {
            Some(UsbHub2PortFeatureSel::PORT_POWER)
        } else if v == 9 {
            Some(UsbHub2PortFeatureSel::PORT_LOW_SPEED)
        } else if v == 16 {
            Some(UsbHub2PortFeatureSel::C_PORT_CONNECTION)
        } else if v == 17 {
            Some(UsbHub2PortFeatureSel::C_PORT_ENABLE)
        } else if v == 18 {
            Some(UsbHub2PortFeatureSel::C_PORT_SUSPEND)
        } else if v == 19 {
            Some(UsbHub2PortFeatureSel::C_PORT_OVER_CURRENT)
        } else if v == 20 {
            Some(UsbHub2PortFeatureSel::C_PORT_RESET)
        } else if v == 21 {
            Some(UsbHub2PortFeatureSel::PORT_TEST)
        } else if v == 22 {
            Some(UsbHub2PortFeatureSel::PORT_INDICATOR)
        } else {
            None
        }
    }
}
/// USB3 Hub Port Feature Selector
#[derive(Debug, Clone, Copy, PartialEq, Eq, PartialOrd, Ord, Structural)]
#[allow(non_camel_case_types)]
pub enum UsbHub3PortFeatureSel {
    PORT_CONNECTION,
    PORT_OVER_CURRENT,
    PORT_RESET,
    PORT_LINK_STATE,
    PORT_POWER,
    C_PORT_CONNECTION,
    C_PORT_OVER_CURRENT,
    C_PORT_RESET,
    PORT_U1_TIMEOUT,
    PORT_U2_TIMEOUT,
    C_PORT_LINK_STATE,
    C_PORT_CONFIG_ERROR,
    PORT_REMOTE_WAKE_MASK,
    BH_PORT_RESET,
    C_BH_PORT_RESET,
    FORCE_LINKPM_ACCEPT,
}

impl UsbHub3PortFeatureSel {
    /// The numeric code of each variant.
    pub open spec fn spec_code(self) -> u16 {
        match self {
            UsbHub3PortFeatureSel::PORT_CONNECTION => 0,
            UsbHub3PortFeatureSel::PORT_OVER_CURRENT => 3,
            UsbHub3PortFeatureSel::PORT_RESET => 4,
            UsbHub3PortFeatureSel::PORT_LINK_STATE => 5,
            UsbHub3PortFeatureSel::PORT_POWER => 8,
            UsbHub3PortFeatureSel::C_PORT_CONNECTION => 16,
            UsbHub3PortFeatureSel::C_PORT_OVER_CURRENT => 19,
            UsbHub3PortFeatureSel::C_PORT_RESET => 20,
            UsbHub3PortFeatureSel::PORT_U1_TIMEOUT => 23,
            UsbHub3PortFeatureSel::PORT_U2_TIMEOUT => 24,
            UsbHub3PortFeatureSel::C_PORT_LINK_STATE => 25,
            UsbHub3PortFeatureSel::C_PORT_CONFIG_ERROR => 26,
            UsbHub3PortFeatureSel::PORT_REMOTE_WAKE_MASK => 27,
            UsbHub3PortFeatureSel::BH_PORT_RESET => 28,
            UsbHub3PortFeatureSel::C_BH_PORT_RESET => 29,
            UsbHub3PortFeatureSel::FORCE_LINKPM_ACCEPT => 30,
        }
    }

    /// The variant with code `v`, if there is one.
    pub open spec fn spec_from_code(v: u16) -> Option<Self> {
        if v == 0 {
            Some(UsbHub3PortFeatureSel::PORT_CONNECTION)
        } else if v == 3 {
            Some(UsbHub3PortFeatureSel::PORT_OVER_CURRENT)
        } else if v == 4 {
            Some(UsbHub3PortFeatureSel::PORT_RESET)
        } else if v == 5 {
            Some(UsbHub3PortFeatureSel::PORT_LINK_STATE)
        } else if v == 8 {
            Some(UsbHub3PortFeatureSel::PORT_POWER)
        } else if v == 16 {
            Some(UsbHub3PortFeatureSel::C_PORT_CONNECTION)
        } else if v == 19 {
            Some(UsbHub3PortFeatureSel::C_PORT_OVER_CURRENT)
        } else if v == 20 {
            Some(UsbHub3PortFeatureSel::C_PORT_RESET)
        } else if v == 23 {
            Some(UsbHub3PortFeatureSel::PORT_U1_TIMEOUT)
        } else if v == 24 {
            Some(UsbHub3PortFeatureSel::PORT_U2_TIMEOUT)
        } else if v == 25 {
            Some(UsbHub3PortFeatureSel::C_PORT_LINK_STATE)
        } else if v == 26 {
            Some(UsbHub3PortFeatureSel::C_PORT_CONFIG_ERROR)
        } else if v == 27 {
            Some(UsbHub3PortFeatureSel::PORT_REMOTE_WAKE_MASK)
        } else if v == 28 {
            Some(UsbHub3PortFeatureSel::BH_PORT_RESET)
        } else if v == 29 {
            Some(UsbHub3PortFeatureSel::C_BH_PORT_RESET)
        } else if v == 30 {
            Some(UsbHub3PortFeatureSel::FORCE_LINKPM_ACCEPT)
        } else {
            None
        }
    }

    pub fn code(&self) -> (r: u16)
        ensures
            r == self.spec_code(),
    {
        match self {
            UsbHub3PortFeatureSel::PORT_CONNECTION => 0,
            UsbHub3PortFeatureSel::PORT_OVER_CURRENT => 3,
            UsbHub3PortFeatureSel::PORT_RESET => 4,
            UsbHub3PortFeatureSel::PORT_LINK_STATE => 5,
            UsbHub3PortFeatureSel::PORT_POWER => 8,
            UsbHub3PortFeatureSel::C_PORT_CONNECTION => 16,
            UsbHub3PortFeatureSel::C_PORT_OVER_CURRENT => 19,
            UsbHub3PortFeatureSel::C_PORT_RESET => 20,
            UsbHub3PortFeatureSel::PORT_U1_TIMEOUT => 23,
            UsbHub3PortFeatureSel::PORT_U2_TIMEOUT => 24,
            UsbHub3PortFeatureSel::C_PORT_LINK_STATE => 25,
            UsbHub3PortFeatureSel::C_PORT_CONFIG_ERROR => 26,
            UsbHub3PortFeatureSel::PORT_REMOTE_WAKE_MASK => 27,
            UsbHub3PortFeatureSel::BH_PORT_RESET => 28,
            UsbHub3PortFeatureSel::C_BH_PORT_RESET => 29,
            UsbHub3PortFeatureSel::FORCE_LINKPM_ACCEPT => 30,
        }
    }

    /// Converts a code to its variant. Other codes have no variant.
    pub fn from_code(v: u16) -> (r: Option<Self>)
        ensures
            r == Self::spec_from_code(v),
    {
        if v == 0 {
            Some(UsbHub3PortFeatureSel::PORT_CONNECTION)
        } else if v == 3 {
            Some(UsbHub3PortFeatureSel::PORT_OVER_CURRENT)
        } else if v == 4 {
            Some(UsbHub3PortFeatureSel::PORT_RESET)
        } else if v == 5 {
            Some(UsbHub3PortFeatureSel::PORT_LINK_STATE)
        } else if v == 8 {
            Some(UsbHub3PortFeatureSel::PORT_POWER)
        } else if v == 16 {
            Some(UsbHub3PortFeatureSel::C_PORT_CONNECTION)
        } else if v == 19 {
            Some(UsbHub3PortFeatureSel::C_PORT_OVER_CURRENT)
        } else if v == 20 {
            Some(UsbHub3PortFeatureSel::C_PORT_RESET)
        } else if v == 23 {
            Some(UsbHub3PortFeatureSel::PORT_U1_TIMEOUT)
        } else if v == 24 {
            Some(UsbHub3PortFeatureSel::PORT_U2_TIMEOUT)
        } else if v == 25 {
            Some(UsbHub3PortFeatureSel::C_PORT_LINK_STATE)
        } else if v == 26 {
            Some(UsbHub3PortFeatureSel::C_PORT_CONFIG_ERROR)
        } else if v == 27 {
            Some(UsbHub3PortFeatureSel::PORT_REMOTE_WAKE_MASK)
        } else if v == 28 {
            Some(UsbHub3PortFeatureSel::BH_PORT_RESET)
        } else if v == 29 {
            Some(UsbHub3PortFeatureSel::C_BH_PORT_RESET)
        } else if v == 30 {
            Some(UsbHub3PortFeatureSel::FORCE_LINKPM_ACCEPT)
        } else {
            None
        }
    }
}

impl UsbHub2PortFeatureSel {
    /// The change bit that a change feature acknowledges; none for the other features.
    pub open spec fn spec_status_change_bit(&self) -> u16 {
        match *self {
            UsbHub2PortFeatureSel::C_PORT_CONNECTION => UsbHub2PortChangeBit::C_PORT_CONNECTION,
            UsbHub2PortFeatureSel::C_PORT_ENABLE => UsbHub2PortChangeBit::C_PORT_ENABLE,
            UsbHub2PortFeatureSel::C_PORT_SUSPEND => UsbHub2PortChangeBit::C_PORT_SUSPEND,
            UsbHub2PortFeatureSel::C_PORT_OVER_CURRENT => UsbHub2PortChangeBit::C_PORT_OVER_CURRENT,
            UsbHub2PortFeatureSel::C_PORT_RESET => UsbHub2PortChangeBit::C_PORT_RESET,
            _ => 0,
        }
    }

    pub fn status_change_bit(&self) -> (r: UsbHub2PortChangeBit)
        ensures
            r.0 == self.spec_status_change_bit(),
    {
        match *self {
            UsbHub2PortFeatureSel::C_PORT_CONNECTION => UsbHub2PortChangeBit(UsbHub2PortChangeBit::C_PORT_CONNECTION),
            UsbHub2PortFeatureSel::C_PORT_ENABLE => UsbHub2PortChangeBit(UsbHub2PortChangeBit::C_PORT_ENABLE),
            UsbHub2PortFeatureSel::C_PORT_SUSPEND => UsbHub2PortChangeBit(UsbHub2PortChangeBit::C_PORT_SUSPEND),
            UsbHub2PortFeatureSel::C_PORT_OVER_CURRENT => UsbHub2PortChangeBit(UsbHub2PortChangeBit::C_PORT_OVER_CURRENT),
            UsbHub2PortFeatureSel::C_PORT_RESET => UsbHub2PortChangeBit(UsbHub2PortChangeBit::C_PORT_RESET),
            _ => UsbHub2PortChangeBit::empty(),
        }
    }
}

impl UsbHub3PortFeatureSel {
    /// The change bit that a change feature acknowledges; none for the other features.
    pub open spec fn spec_status_change_bit(&self) -> u16 {
        match *self {
            UsbHub3PortFeatureSel::C_PORT_CONNECTION => UsbHub3PortChangeBit::C_PORT_CONNECTION,
            UsbHub3PortFeatureSel::C_PORT_OVER_CURRENT => UsbHub3PortChangeBit::C_PORT_OVER_CURRENT,
            UsbHub3PortFeatureSel::C_PORT_RESET => UsbHub3PortChangeBit::C_PORT_RESET,
            UsbHub3PortFeatureSel::C_PORT_LINK_STATE => UsbHub3PortChangeBit::C_PORT_LINK_STATE,
            UsbHub3PortFeatureSel::C_PORT_CONFIG_ERROR => UsbHub3PortChangeBit::C_PORT_CONFIG_ERROR,
            UsbHub3PortFeatureSel::C_BH_PORT_RESET => UsbHub3PortChangeBit::C_BH_PORT_RESET,
            _ => 0,
        }
    }

    pub fn status_change_bit(&self) -> (r: UsbHub3PortChangeBit)
        ensures
            r.0 == self.spec_status_change_bit(),
    {
        match *self {
            UsbHub3PortFeatureSel::C_PORT_CONNECTION => UsbHub3PortChangeBit(UsbHub3PortChangeBit::C_PORT_CONNECTION),
            UsbHub3PortFeatureSel::C_PORT_OVER_CURRENT => UsbHub3PortChangeBit(UsbHub3PortChangeBit::C_PORT_OVER_CURRENT),
            UsbHub3PortFeatureSel::C_PORT_RESET => UsbHub3PortChangeBit(UsbHub3PortChangeBit::C_PORT_RESET),
            UsbHub3PortFeatureSel::C_PORT_LINK_STATE => UsbHub3PortChangeBit(UsbHub3PortChangeBit::C_PORT_LINK_STATE),
            UsbHub3PortFeatureSel::C_PORT_CONFIG_ERROR => UsbHub3PortChangeBit(UsbHub3PortChangeBit::C_PORT_CONFIG_ERROR),
            UsbHub3PortFeatureSel::C_BH_PORT_RESET => UsbHub3PortChangeBit(UsbHub3PortChangeBit::C_BH_PORT_RESET),
            _ => UsbHub3PortChangeBit::empty(),
        }
    }
}

impl From<UsbHub2PortFeatureSel> for u16 {
    fn from(val: UsbHub2PortFeatureSel) -> (r: Self) {
        val.code()
    }
}

impl vstd::std_specs::convert::FromSpecImpl<UsbHub2PortFeatureSel> for u16 {
    open spec fn obeys_from_spec() -> bool {
        true
    }

    open spec fn from_spec(v: UsbHub2PortFeatureSel) -> u16 {
        v.spec_code()
    }
}

impl From<UsbHub3PortFeatureSel> for u16 {
    fn from(val: UsbHub3PortFeatureSel) -> (r: Self) {
        val.code()
    }
}

impl vstd::std_specs::convert::FromSpecImpl<UsbHub3PortFeatureSel> for u16 {
    open spec fn obeys_from_spec() -> bool {
        true
    }

    open spec fn from_spec(v: UsbHub3PortFeatureSel) -> u16 {
        v.spec_code()
    }
}


/// Whether bit `p` of `bitmap` is set.
pub open spec fn bit_set(bitmap: u32, p: nat) -> bool {
    (bitmap as nat / pow2(p)) % 2 == 1
}

/// The ports among `1..=n` whose bit is set in `bitmap`, in increasing order.
pub open spec fn changed_port_numbers(bitmap: u32, n: nat) -> Seq<u8>
    decreases n,
{
    if n == 0 {
        Seq::empty()
    } else {
        changed_port_numbers(bitmap, (n - 1) as nat) + if bit_set(bitmap, n) {
            seq![n as u8]
        } else {
            Seq::empty()
        }
    }
}

/// Builds the hub requests that the hub drivers send.
pub struct UsbHubCommon;

impl UsbHubCommon {
    /// SET_FEATURE for a hub feature.
    pub fn set_hub_feature_request(feature_sel: UsbHubFeatureSel) -> (r: UsbControlSetupData)
        ensures
            r == (UsbControlSetupData {
                bmRequestType: UsbControlRequestBitmap(0x20),
                bRequest: UsbControlRequest(3),
                wValue: feature_sel.spec_code(),
                wIndex: 0,
                wLength: UsbLength(0),
            }),
    {
        UsbControlSetupData::request(UsbControlRequestBitmap(0x20), UsbControlRequest(3)).value(feature_sel.code())
    }

    /// CLEAR_FEATURE for a hub feature.
    pub fn clear_hub_feature_request(feature_sel: UsbHubFeatureSel) -> (r: UsbControlSetupData)
        ensures
            r == (UsbControlSetupData {
                bmRequestType: UsbControlRequestBitmap(0x20),
                bRequest: UsbControlRequest(1),
                wValue: feature_sel.spec_code(),
                wIndex: 0,
                wLength: UsbLength(0),
            }),
    {
        UsbControlSetupData::request(UsbControlRequestBitmap(0x20), UsbControlRequest(1)).value(feature_sel.code())
    }

    /// SET_FEATURE for a port feature (its selector `feature_sel`) of port `port`.
    pub fn set_port_feature_request(feature_sel: u16, port: UsbHubPortNumber) -> (r: UsbControlSetupData)
        ensures
            r == (UsbControlSetupData {
                bmRequestType: UsbControlRequestBitmap(0x23),
                bRequest: UsbControlRequest(3),
                wValue: feature_sel,
                wIndex: port.0@ as u16,
                wLength: UsbLength(0),
            }),
    {
        UsbControlSetupData::request(UsbControlRequestBitmap(0x23), UsbControlRequest(3)).value(feature_sel).index(
            port.0.get() as u16,
        )
    }

    /// CLEAR_FEATURE for a port feature (its selector `feature_sel`) of port `port`.
    pub fn clear_port_feature_request(feature_sel: u16, port: UsbHubPortNumber) -> (r: UsbControlSetupData)
        ensures
            r == (UsbControlSetupData {
                bmRequestType: UsbControlRequestBitmap(0x23),
                bRequest: UsbControlRequest(1),
                wValue: feature_sel,
                wIndex: port.0@ as u16,
                wLength: UsbLength(0),
            }),
    {
        UsbControlSetupData::request(UsbControlRequestBitmap(0x23), UsbControlRequest(1)).value(feature_sel).index(
            port.0.get() as u16,
        )
    }

    /// GET_STATUS for port `port`.
    pub fn get_port_status_request(port: UsbHubPortNumber) -> (r: UsbControlSetupData)
        ensures
            r == (UsbControlSetupData {
                bmRequestType: UsbControlRequestBitmap(0xA3),
                bRequest: UsbControlRequest(0),
                wValue: 0,
                wIndex: port.0@ as u16,
                wLength: UsbLength(0),
            }),
    {
        UsbControlSetupData::request(UsbControlRequestBitmap(0xA3), UsbControlRequest(0)).value(0).index(
            port.0.get() as u16,
        )
    }

    /// The ports that a port change report names: bit `p` of the two report bytes (little
    /// endian) stands for port `p`. Hubs with more than 15 ports are not handled.
    pub fn changed_ports(port_event: [u8; 2], num_ports: u8) -> (r: Vec<UsbHubPortNumber>)
        requires
            num_ports < 16,
        ensures
            r@.len() == changed_port_numbers((port_event[0] as u32 + port_event[1] as u32 * 256) as u32, num_ports as nat).len(),
            forall|i: int| 0 <= i < r@.len() ==> #[trigger] r@[i].0@ == changed_port_numbers(
                (port_event[0] as u32 + port_event[1] as u32 * 256) as u32,
                num_ports as nat,
            )[i],
    {
        let bitmap: u32 = (port_event[0] as u32) + (port_event[1] as u32) * 256;
        let mut v: Vec<UsbHubPortNumber> = Vec::new();
        let mut p: u8 = 1;
        let mut unit: u32 = 2;
        proof {
            lemma2_to64();
        }
        while p <= num_ports
            invariant
                1 <= p <= num_ports + 1,
                num_ports < 16,
                unit == pow2(p as nat),
                unit >= 2,
                unit <= 0x1_0000,
                v@.len() == changed_port_numbers(bitmap, (p - 1) as nat).len(),
                forall|i: int| 0 <= i < v@.len() ==> #[trigger] v@[i].0@ == changed_port_numbers(bitmap, (p - 1) as nat)[i],
            decreases num_ports + 1 - p,
        {
            let ghost before = changed_port_numbers(bitmap, (p - 1) as nat);
            if (bitmap / unit) % 2 == 1 {
                let port = match NonZeroU8::new(p) {
                    Some(nz) => UsbHubPortNumber(nz),
                    None => vstd::pervasive::unreached(),
                };
                v.push(port);
            }
            proof {
                assert(changed_port_numbers(bitmap, p as nat) == before + if bit_set(bitmap, p as nat) {
                    seq![p as u8]
                } else {
                    Seq::empty()
                });
                lemma_pow2_unfold((p + 1) as nat);
                lemma2_to64();
            }
            p = p + 1;
            unit = unit * 2;
        }
        v
    }
}

/// What a USB2 hub task does for a port that reported a change.
#[derive(Debug)]
pub enum UsbHub2PortAction {
    /// The connection changed and a device is now attached: acknowledge, then attach it.
    Attach,
    /// The connection changed and no device is attached: acknowledge, then detach.
    Detach,
    /// Acknowledge these other changes.
    ClearChanges(Vec<UsbHub2PortFeatureSel>),
}

/// What a USB3 hub task does for a port that reported a change.
#[derive(Debug)]
pub enum UsbHub3PortAction {
    /// The connection changed and a device is now attached: acknowledge, then attach it.
    Attach,
    /// The connection changed and no device is attached: acknowledge, then detach.
    Detach,
    /// Acknowledge these other changes.
    ClearChanges(Vec<UsbHub3PortFeatureSel>),
}

/// The features of `features` whose change bit `change` has, in order.
pub open spec fn hub2_changes_to_clear(change: u16, features: Seq<UsbHub2PortFeatureSel>) -> Seq<UsbHub2PortFeatureSel>
    decreases features.len(),
{
    if features.len() == 0 {
        Seq::empty()
    } else {
        hub2_changes_to_clear(change, features.drop_last()) + if change & features.last().spec_status_change_bit()
            == features.last().spec_status_change_bit() {
            seq![features.last()]
        } else {
            Seq::empty()
        }
    }
}

/// The features of `features` whose change bit `change` has, in order.
pub open spec fn hub3_changes_to_clear(change: u16, features: Seq<UsbHub3PortFeatureSel>) -> Seq<UsbHub3PortFeatureSel>
    decreases features.len(),
{
    if features.len() == 0 {
        Seq::empty()
    } else {
        hub3_changes_to_clear(change, features.drop_last()) + if change & features.last().spec_status_change_bit()
            == features.last().spec_status_change_bit() {
            seq![features.last()]
        } else {
            Seq::empty()
        }
    }
}

/// The USB2 hub driver's decisions.
pub struct UsbHub2Driver;

impl UsbHub2Driver {
    /// The change features to acknowledge: those of `features` whose change the status
    /// reports. Each feature must be a change feature.
    pub fn clear_status_changes(status: UsbHub2PortStatus, features: &[UsbHub2PortFeatureSel]) -> (r: Vec<UsbHub2PortFeatureSel>)
        requires
            forall|i: int| 0 <= i < features@.len() ==> (#[trigger] features@[i]).spec_status_change_bit() != 0,
        ensures
            r@ == hub2_changes_to_clear(status.change.0, features@),
    {
        let mut v: Vec<UsbHub2PortFeatureSel> = Vec::new();
        let mut i: usize = 0;
        while i < features.len()
            invariant
                i <= features@.len(),
                v@ == hub2_changes_to_clear(status.change.0, features@.subrange(0, i as int)),
            decreases features@.len() - i,
        {
            let feature = features[i];
            let changes = feature.status_change_bit();
            proof {
                assert(features@.subrange(0, i + 1).drop_last() =~= features@.subrange(0, i as int));
                assert(features@.subrange(0, i + 1).last() == feature);
            }
            if status.change.contains(changes) {
                v.push(feature);
            }
            i = i + 1;
        }
        proof {
            assert(features@.subrange(0, features@.len() as int) =~= features@);
        }
        v
    }

    /// What to do for a port whose change was reported, given its status.
    pub fn port_change_action(status: UsbHub2PortStatus) -> (r: UsbHub2PortAction)
        ensures
            status.change.0 & 0x01 == 0x01 ==> r == if status.status.0 & 0x01 == 0x01 {
                UsbHub2PortAction::Attach
            } else {
                UsbHub2PortAction::Detach
            },
            status.change.0 & 0x01 != 0x01 ==> (r matches UsbHub2PortAction::ClearChanges(v) && v@ == hub2_changes_to_clear(
                status.change.0,
                seq![
                    UsbHub2PortFeatureSel::C_PORT_ENABLE,
                    UsbHub2PortFeatureSel::C_PORT_SUSPEND,
                    UsbHub2PortFeatureSel::C_PORT_OVER_CURRENT,
                    UsbHub2PortFeatureSel::C_PORT_RESET,
                ],
            )),
    {
        if status.change.contains(UsbHub2PortChangeBit(UsbHub2PortChangeBit::C_PORT_CONNECTION)) {
            if status.status.contains(UsbHub2PortStatusBit(UsbHub2PortStatusBit::PORT_CONNECTION)) {
                UsbHub2PortAction::Attach
            } else {
                UsbHub2PortAction::Detach
            }
        } else {
            let features = [
                UsbHub2PortFeatureSel::C_PORT_ENABLE,
                UsbHub2PortFeatureSel::C_PORT_SUSPEND,
                UsbHub2PortFeatureSel::C_PORT_OVER_CURRENT,
                UsbHub2PortFeatureSel::C_PORT_RESET,
            ];
            let v = Self::clear_status_changes(status, features.as_slice());
            proof {
                assert(features@ =~= seq![
                    UsbHub2PortFeatureSel::C_PORT_ENABLE,
                    UsbHub2PortFeatureSel::C_PORT_SUSPEND,
                    UsbHub2PortFeatureSel::C_PORT_OVER_CURRENT,
                    UsbHub2PortFeatureSel::C_PORT_RESET,
                ]);
            }
            UsbHub2PortAction::ClearChanges(v)
        }
    }

    /// The speed at which a reset port's device is attached, when the port reports a
    /// connected and enabled device.
    pub fn attach_speed(status: UsbHub2PortStatus) -> (r: Result<PSIV, UsbError>)
        ensures
            status.status.0 & 0x03 == 0x03 ==> r == Ok::<PSIV, UsbError>(
                if status.status.0 & 0x0200 == 0x0200 {
                    PSIV::LS
                } else if status.status.0 & 0x0400 == 0x0400 {
                    PSIV::HS
                } else {
                    PSIV::FS
                },
            ),
            status.status.0 & 0x03 != 0x03 ==> r == Err::<PSIV, UsbError>(UsbError::InvalidParameter),
    {
        if status.status.contains(UsbHub2PortStatusBit(0x03)) {
            Ok(status.status.speed())
        } else {
            Err(UsbError::InvalidParameter)
        }
    }
}

/// The USB3 hub driver's decisions.
pub struct UsbHub3Driver;

impl UsbHub3Driver {
    /// The change features to acknowledge: those of `features` whose change the status
    /// reports. Each feature must be a change feature.
    pub fn clear_status_changes(status: UsbHub3PortStatus, features: &[UsbHub3PortFeatureSel]) -> (r: Vec<UsbHub3PortFeatureSel>)
        requires
            forall|i: int| 0 <= i < features@.len() ==> (#[trigger] features@[i]).spec_status_change_bit() != 0,
        ensures
            r@ == hub3_changes_to_clear(status.change.0, features@),
    {
        let mut v: Vec<UsbHub3PortFeatureSel> = Vec::new();
        let mut i: usize = 0;
        while i < features.len()
            invariant
                i <= features@.len(),
                v@ == hub3_changes_to_clear(status.change.0, features@.subrange(0, i as int)),
            decreases features@.len() - i,
        {
            let feature = features[i];
            let changes = feature.status_change_bit();
            proof {
                assert(features@.subrange(0, i + 1).drop_last() =~= features@.subrange(0, i as int));
                assert(features@.subrange(0, i + 1).last() == feature);
            }
            if status.change.contains(changes) {
                v.push(feature);
            }
            i = i + 1;
        }
        proof {
            assert(features@.subrange(0, features@.len() as int) =~= features@);
        }
        v
    }

    /// What to do for a port whose change was reported, given its status.
    pub fn port_change_action(status: UsbHub3PortStatus) -> (r: UsbHub3PortAction)
        ensures
            status.change.0 & 0x01 == 0x01 ==> r == if status.status.0 & 0x01 == 0x01 {
                UsbHub3PortAction::Attach
            } else {
                UsbHub3PortAction::Detach
            },
            status.change.0 & 0x01 != 0x01 ==> (r matches UsbHub3PortAction::ClearChanges(v) && v@ == hub3_changes_to_clear(
                status.change.0,
                seq![
                    UsbHub3PortFeatureSel::C_BH_PORT_RESET,
                    UsbHub3PortFeatureSel::C_PORT_RESET,
                    UsbHub3PortFeatureSel::C_PORT_OVER_CURRENT,
                    UsbHub3PortFeatureSel::C_PORT_LINK_STATE,
                    UsbHub3PortFeatureSel::C_PORT_CONFIG_ERROR,
                ],
            )),
    {
        if status.change.contains(UsbHub3PortChangeBit(UsbHub3PortChangeBit::C_PORT_CONNECTION)) {
            if status.status.contains(UsbHub3PortStatusBit(UsbHub3PortStatusBit::PORT_CONNECTION)) {
                UsbHub3PortAction::Attach
            } else {
                UsbHub3PortAction::Detach
            }
        } else {
            let features = [
                UsbHub3PortFeatureSel::C_BH_PORT_RESET,
                UsbHub3PortFeatureSel::C_PORT_RESET,
                UsbHub3PortFeatureSel::C_PORT_OVER_CURRENT,
                UsbHub3PortFeatureSel::C_PORT_LINK_STATE,
                UsbHub3PortFeatureSel::C_PORT_CONFIG_ERROR,
            ];
            let v = Self::clear_status_changes(status, features.as_slice());
            proof {
                assert(features@ =~= seq![
                    UsbHub3PortFeatureSel::C_BH_PORT_RESET,
                    UsbHub3PortFeatureSel::C_PORT_RESET,
                    UsbHub3PortFeatureSel::C_PORT_OVER_CURRENT,
                    UsbHub3PortFeatureSel::C_PORT_LINK_STATE,
                    UsbHub3PortFeatureSel::C_PORT_CONFIG_ERROR,
                ]);
            }
            UsbHub3PortAction::ClearChanges(v)
        }
    }

    /// Whether the wait after a warm reset is over: the port reports a connected and
    /// enabled device, or the deadline passed.
    pub fn reset_wait_done(status: UsbHub3PortStatus, deadline_expired: bool) -> (r: bool)
        ensures
            r == (deadline_expired || status.status.0 & 0x03 == 0x03),
    {
        deadline_expired || status.status.contains(UsbHub3PortStatusBit(0x03))
    }

    /// A device on a USB3 hub port is attached at SuperSpeed once the port reports it
    /// connected and enabled.
    pub fn attach_speed(status: UsbHub3PortStatus) -> (r: Result<PSIV, UsbError>)
        ensures
            status.status.0 & 0x03 == 0x03 ==> r == Ok::<PSIV, UsbError>(PSIV::SS),
            status.status.0 & 0x03 != 0x03 ==> r == Err::<PSIV, UsbError>(UsbError::InvalidParameter),
    {
        if status.status.contains(UsbHub3PortStatusBit(0x03)) {
            Ok(PSIV::SS)
        } else {
            Err(UsbError::InvalidParameter)
        }
    }

    /// SET_HUB_DEPTH with the hub's depth in the tree: the depth of its route string.
    pub fn set_hub_depth_request(route: UsbRouteString) -> (r: UsbControlSetupData)
        ensures
            r == (UsbControlSetupData {
                bmRequestType: UsbControlRequestBitmap(0x20),
                bRequest: UsbControlRequest(12),
                wValue: route_depth(route@) as u16,
                wIndex: 0,
                wLength: UsbLength(0),
            }),
    {
        UsbControlSetupData::request(UsbControlRequestBitmap(0x20), UsbControlRequest(12)).value(
            route.depth() as u16,
        )
    }
}

/// The kind of hub a device class names.
#[derive(Debug, Clone, Copy, PartialEq, Eq, Structural)]
pub enum UsbHubKind {
    /// USB2 hub (full speed, high speed single or multiple TT).
    Usb2,
    /// USB3 hub (SuperSpeed).
    Usb3,
}

/// Starts the hub driver for hub devices.
pub struct UsbHubStarter;

impl UsbHubStarter {
    /// Which hub driver a device of class `class` gets, if it is a hub.
    pub fn hub_kind(class: UsbClass) -> (r: Option<UsbHubKind>)
        ensures
            r == if class.0 == 0x09_00_00 || class.0 == 0x09_00_01 || class.0 == 0x09_00_02 {
                Some(UsbHubKind::Usb2)
            } else if class.0 == 0x09_00_03 {
                Some(UsbHubKind::Usb3)
            } else {
                None::<UsbHubKind>
            },
    {
        if class.0 == 0x09_00_00 || class.0 == 0x09_00_01 || class.0 == 0x09_00_02 {
            Some(UsbHubKind::Usb2)
        } else if class.0 == 0x09_00_03 {
            Some(UsbHubKind::Usb3)
        } else {
            None
        }
    }

    /// A hub's status change endpoint must not use packets above eight bytes.
    pub fn check_packet_size(ps: UsbLength) -> (r: Result<(), UsbError>)
        ensures
            ps.0 > 8 ==> r == Err::<(), UsbError>(UsbError::InvalidDescriptor),
            ps.0 <= 8 ==> r is Ok,
    {
        if ps.0 > 8 {
            Err(UsbError::InvalidDescriptor)
        } else {
            Ok(())
        }
    }
}


/// The requests that a USB2 hub task sends when it starts, in order: power
/// every port, then (after the hub's power-on time) acknowledge the connection
/// change of every port, then ask every port for its status; a port whose
/// status shows a connection is then attached.
pub struct UsbHub2Startup {
    pub power: Vec<UsbControlSetupData>,
    pub clear_connection: Vec<UsbControlSetupData>,
    pub status: Vec<UsbControlSetupData>,
}

impl UsbHubCommon {
    pub fn hub2_startup(ports: &Vec<UsbHubPortNumber>) -> (r: UsbHub2Startup)
        ensures
            r.power@.len() == ports@.len(),
            r.clear_connection@.len() == ports@.len(),
            r.status@.len() == ports@.len(),
            forall|i: int| 0 <= i < ports@.len() ==> #[trigger] r.power@[i] == (UsbControlSetupData {
                bmRequestType: UsbControlRequestBitmap(0x23),
                bRequest: UsbControlRequest(3),
                wValue: UsbHub2PortFeatureSel::PORT_POWER.spec_code(),
                wIndex: ports@[i].0@ as u16,
                wLength: UsbLength(0),
            }),
            forall|i: int| 0 <= i < ports@.len() ==> #[trigger] r.clear_connection@[i] == (UsbControlSetupData {
                bmRequestType: UsbControlRequestBitmap(0x23),
                bRequest: UsbControlRequest(1),
                wValue: UsbHub2PortFeatureSel::C_PORT_CONNECTION.spec_code(),
                wIndex: ports@[i].0@ as u16,
                wLength: UsbLength(0),
            }),
            forall|i: int| 0 <= i < ports@.len() ==> #[trigger] r.status@[i] == (UsbControlSetupData {
                bmRequestType: UsbControlRequestBitmap(0xA3),
                bRequest: UsbControlRequest(0),
                wValue: 0,
                wIndex: ports@[i].0@ as u16,
                wLength: UsbLength(0),
            }),
    {
        let power_sel = UsbHub2PortFeatureSel::PORT_POWER.code();
        let clear_sel = UsbHub2PortFeatureSel::C_PORT_CONNECTION.code();
        let mut power: Vec<UsbControlSetupData> = Vec::new();
        let mut clear_connection: Vec<UsbControlSetupData> = Vec::new();
        let mut status: Vec<UsbControlSetupData> = Vec::new();
        let mut i: usize = 0;
        while i < ports.len()
            invariant
                i <= ports@.len(),
                power_sel == UsbHub2PortFeatureSel::PORT_POWER.spec_code(),
                clear_sel == UsbHub2PortFeatureSel::C_PORT_CONNECTION.spec_code(),
                power@.len() == i,
                clear_connection@.len() == i,
                status@.len() == i,
                forall|j: int| 0 <= j < i ==> #[trigger] power@[j] == (UsbControlSetupData {
                    bmRequestType: UsbControlRequestBitmap(0x23),
                    bRequest: UsbControlRequest(3),
                    wValue: power_sel,
                    wIndex: ports@[j].0@ as u16,
                    wLength: UsbLength(0),
                }),
                forall|j: int| 0 <= j < i ==> #[trigger] clear_connection@[j] == (UsbControlSetupData {
                    bmRequestType: UsbControlRequestBitmap(0x23),
                    bRequest: UsbControlRequest(1),
                    wValue: clear_sel,
                    wIndex: ports@[j].0@ as u16,
                    wLength: UsbLength(0),
                }),
                forall|j: int| 0 <= j < i ==> #[trigger] status@[j] == (UsbControlSetupData {
                    bmRequestType: UsbControlRequestBitmap(0xA3),
                    bRequest: UsbControlRequest(0),
                    wValue: 0,
                    wIndex: ports@[j].0@ as u16,
                    wLength: UsbLength(0),
                }),
            decreases ports@.len() - i,
        {
            let port = ports[i];
            power.push(Self::set_port_feature_request(power_sel, port));
            clear_connection.push(Self::clear_port_feature_request(clear_sel, port));
            status.push(Self::get_port_status_request(port));
            i += 1;
        }
        UsbHub2Startup { power, clear_connection, status }
    }
}

} // verus!
