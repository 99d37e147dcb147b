//! Universal Serial Bus: descriptors, identifiers and control requests.

use vstd::prelude::*;
use vstd::std_specs::convert::FromSpecImpl;
use crate::num::NonZeroU8;

verus! {

/// The little-endian value of the two bytes `lo`, `hi`.
pub open spec fn le16(lo: u8, hi: u8) -> u16 {
    (lo as int + hi as int * 256) as u16
}

/// USB specification release number in binary-coded decimal.
#[derive(Debug, Clone, Copy, PartialEq, Eq, PartialOrd, Ord, Structural)]
pub struct UsbVersion(pub u16);

impl UsbVersion {
    /// The major version number as printed, e.g. `2` for `0x0200` and `10` for `0x1000`.
    pub open spec fn spec_major(&self) -> int {
        (self.0 / 4096) % 16 * 10 + (self.0 / 256) % 16
    }

    /// The minor version number as printed.
    pub open spec fn spec_minor(&self) -> int {
        ((self.0 / 16) % 16) as int
    }

    /// The two numbers that the version is printed as (`major.minor`).
    pub fn display_parts(&self) -> (r: (u16, u16))
        ensures
            r.0 == self.spec_major(),
            r.1 == self.spec_minor(),
    {
        let part1 = (self.0 / 4096) % 16;
        let part2 = (self.0 / 256) % 16;
        let part3 = (self.0 / 16) % 16;
        (part1 * 10 + part2, part3)
    }
}

/// Valid USB bus addresses are 1 to 127.
#[derive(Debug, Clone, Copy, PartialEq, Eq, PartialOrd, Ord, Structural)]
pub struct UsbAddress(NonZeroU8);

impl View for UsbAddress {
    type V = u8;

    closed spec fn view(&self) -> u8 {
        self.0@
    }
}

impl UsbAddress {
    #[verifier::type_invariant]
    spec fn inv(self) -> bool {
        0 < self.0@ < 128
    }

    pub fn from_nonzero(v: NonZeroU8) -> (r: Option<Self>)
        ensures
            match r {
                Some(a) => a@ == v@ && v@ < 128,
                None => v@ >= 128,
            },
    {
        Self::from_u8(v.get())
    }

    /// Returns `Some` exactly for the valid addresses 1 to 127.
    pub fn from_u8(v: u8) -> (r: Option<Self>)
        ensures
            match r {
                Some(a) => a@ == v && 0 < v < 128,
                None => v == 0 || v >= 128,
            },
    {
        if v > 0 && v < 128 {
            match NonZeroU8::new(v) {
                Some(nz) => Some(Self(nz)),
                None => None,
            }
        } else {
            None
        }
    }

    pub fn as_u8(&self) -> (r: u8)
        ensures
            r == self@,
            0 < r < 128,
    {
        proof {
            use_type_invariant(self);
        }
        self.0.get()
    }
}

/// 16-bit word type used in the USB descriptor (little-endian bytes).
#[derive(Debug, Clone, Copy, PartialEq, Eq, Structural)]
pub struct UsbWord {
    lo: u8,
    hi: u8,
}

impl View for UsbWord {
    type V = u16;

    closed spec fn view(&self) -> u16 {
        le16(self.lo, self.hi)
    }
}

impl UsbWord {
    /// The word made of the bytes `lo`, `hi` as they stand in a descriptor.
    pub closed spec fn spec_from_bytes(lo: u8, hi: u8) -> Self {
        UsbWord { lo, hi }
    }

    /// The word's value is the little-endian value of its bytes.
    pub broadcast proof fn lemma_from_bytes(lo: u8, hi: u8)
        ensures
            #[trigger] Self::spec_from_bytes(lo, hi)@ == le16(lo, hi),
    {
    }

    /// Makes a word from its two bytes in memory order.
    pub fn from_bytes(lo: u8, hi: u8) -> (r: Self)
        ensures
            r == Self::spec_from_bytes(lo, hi),
            r@ == le16(lo, hi),
    {
        UsbWord { lo, hi }
    }

    pub fn from_u16(val: u16) -> (r: Self)
        ensures
            r@ == val,
    {
        UsbWord { lo: (val % 256) as u8, hi: (val / 256) as u8 }
    }

    pub fn as_u16(&self) -> (r: u16)
        ensures
            r == self@,
    {
        (self.lo as u16) + (self.hi as u16) * 256
    }

    pub fn as_length(&self) -> (r: UsbLength)
        ensures
            r.0 == self@,
    {
        UsbLength(self.as_u16())
    }
}

impl From<UsbWord> for u16 {
    fn from(v: UsbWord) -> (r: Self) {
        v.as_u16()
    }
}

impl FromSpecImpl<UsbWord> for u16 {
    open spec fn obeys_from_spec() -> bool {
        true
    }

    open spec fn from_spec(v: UsbWord) -> u16 {
        v@
    }
}

/// USB Vendor Id
#[derive(Debug, Clone, Copy, PartialEq, Eq, PartialOrd, Ord, Structural)]
pub struct UsbVendorId(pub u16);

/// USB Product Id
#[derive(Debug, Clone, Copy, PartialEq, Eq, PartialOrd, Ord, Structural)]
pub struct UsbProductId(pub u16);

#[derive(Debug, Clone, Copy, PartialEq, Eq, PartialOrd, Ord, Structural)]
pub struct UsbBaseClass(pub u8);

#[derive(Debug, Clone, Copy, PartialEq, Eq, PartialOrd, Ord, Structural)]
pub struct UsbSubClass(pub u8);

#[derive(Debug, Clone, Copy, PartialEq, Eq, PartialOrd, Ord, Structural)]
pub struct UsbProtocolCode(pub u8);

#[derive(Debug, Clone, Copy, PartialEq, Eq, PartialOrd, Ord, Structural)]
pub struct UsbConfigurationValue(pub u8);

#[derive(Debug, Clone, Copy, PartialEq, Eq, PartialOrd, Ord, Structural)]
pub struct UsbInterfaceNumber(pub u8);

#[derive(Debug, Clone, Copy, PartialEq, Eq, PartialOrd, Ord, Structural)]
pub struct UsbAlternateSettingNumber(pub u8);

#[derive(Debug, Clone, Copy, PartialEq, Eq, PartialOrd, Ord, Structural)]
pub struct UsbLangId(pub u16);

#[derive(Debug, Clone, Copy, PartialEq, Eq, PartialOrd, Ord, Structural)]
pub struct UsbLength(pub u16);

impl UsbLength {
    pub fn as_usize(&self) -> (r: usize)
        ensures
            r == self.0,
    {
        self.0 as usize
    }

    pub fn is_empty(&self) -> (r: bool)
        ensures
            r == (self.0 == 0),
    {
        self.0 == 0
    }

    pub fn is_zero(&self) -> (r: bool)
        ensures
            r == (self.0 == 0),
    {
        self.0 == 0
    }

    pub fn zero() -> (r: Self)
        ensures
            r.0 == 0,
    {
        Self(0)
    }
}

/// USB Class code (BaseClass - SubClass - Protocol)
#[derive(Debug, Clone, Copy, PartialEq, Eq, PartialOrd, Ord, Structural)]
pub struct UsbClass(pub u32);

/// The class code made of a base class, a subclass and a protocol.
pub open spec fn class_code(base: u8, sub: u8, protocol: u8) -> u32 {
    (base as int * 0x10000 + sub as int * 0x100 + protocol as int) as u32
}

impl UsbClass {
    pub fn new(base_class: UsbBaseClass, sub_class: UsbSubClass, protocol: UsbProtocolCode) -> (r: Self)
        ensures
            r.0 == class_code(base_class.0, sub_class.0, protocol.0),
    {
        Self((base_class.0 as u32) * 0x10000 + (sub_class.0 as u32) * 0x100 + (protocol.0 as u32))
    }

    pub fn base_class(&self) -> (r: UsbBaseClass)
        ensures
            r.0 == (self.0 / 0x10000) % 0x100,
    {
        UsbBaseClass(((self.0 / 0x10000) % 0x100) as u8)
    }

    pub fn sub_class(&self) -> (r: UsbSubClass)
        ensures
            r.0 == (self.0 / 0x100) % 0x100,
    {
        UsbSubClass(((self.0 / 0x100) % 0x100) as u8)
    }

    pub fn protocol(&self) -> (r: UsbProtocolCode)
        ensures
            r.0 == self.0 % 0x100,
    {
        UsbProtocolCode((self.0 % 0x100) as u8)
    }
}


/// The name of a full class code (base class, subclass and protocol), where one is known.
pub open spec fn full_class_name(code: u32) -> Option<Seq<char>> {
    if code == 0x010300 {
        Some("MIDI Streaming"@)
    } else if code == 0x030101 {
        Some("HID Keyboard"@)
    } else if code == 0x030102 {
        Some("HID Mouse"@)
    } else if code == 0x080650 {
        Some("Mass Storage Device"@)
    } else if code == 0x080400 {
        Some("Floppy Drive"@)
    } else if code == 0x060101 {
        Some("Still Imaging Device"@)
    } else if code == 0x090000 {
        Some("USB1 Hub"@)
    } else if code == 0x090001 {
        Some("USB2 Hub"@)
    } else if code == 0x090002 {
        Some("USB2 Hub with MTT"@)
    } else if code == 0x090003 {
        Some("USB3 Hub"@)
    } else if code == 0xE00101 {
        Some("Bluetooth Interface"@)
    } else if code == 0xEF0201 {
        Some("Interface Association Descriptor"@)
    } else if code == 0xFF5D01 {
        Some("XInput Device"@)
    } else {
        None
    }
}

/// The name of a base class, where one is known for a device (`is_interface` false)
/// or for an interface (`is_interface` true).
pub open spec fn base_class_name(base: u8, is_interface: bool) -> Option<Seq<char>> {
    if base == 0x00 && !is_interface {
        Some("Composite Device"@)
    } else if base == 0x01 && is_interface {
        Some("Audio Device"@)
    } else if base == 0x02 && true {
        Some("Communication Device"@)
    } else if base == 0x03 && is_interface {
        Some("Human Interface Device"@)
    } else if base == 0x07 && is_interface {
        Some("Printer"@)
    } else if base == 0x08 && is_interface {
        Some("Storage Device"@)
    } else if base == 0x09 && !is_interface {
        Some("Hub"@)
    } else if base == 0x0A && is_interface {
        Some("CDC Data"@)
    } else if base == 0x0E && is_interface {
        Some("Video Device"@)
    } else if base == 0x10 && is_interface {
        Some("Audio/Video Device"@)
    } else if base == 0x11 && !is_interface {
        Some("Billboard Device"@)
    } else if base == 0x12 && is_interface {
        Some("Type-C Bridge"@)
    } else if base == 0xDC && true {
        Some("Diagnostic Device"@)
    } else if base == 0xE0 && is_interface {
        Some("Wireless Device"@)
    } else if base == 0xFE && is_interface {
        Some("Application Specific"@)
    } else if base == 0xFF && true {
        Some("Vendor Specific"@)
    } else {
        None
    }
}

impl UsbClass {
    /// A human-readable name of the class: the name of the full class code where one
    /// is known, else the name of its base class.
    pub fn class_string(&self, is_interface: bool) -> (r: Option<&'static str>)
        ensures
            match full_class_name(self.0) {
                Some(name) => r is Some && r.unwrap()@ == name,
                None => match base_class_name(((self.0 / 0x10000) % 0x100) as u8, is_interface) {
                    Some(name) => r is Some && r.unwrap()@ == name,
                    None => r is None,
                },
            },
    {
        let code = self.0;
        if code == 0x010300 {
            return Some("MIDI Streaming");
        } else if code == 0x030101 {
            return Some("HID Keyboard");
        } else if code == 0x030102 {
            return Some("HID Mouse");
        } else if code == 0x080650 {
            return Some("Mass Storage Device");
        } else if code == 0x080400 {
            return Some("Floppy Drive");
        } else if code == 0x060101 {
            return Some("Still Imaging Device");
        } else if code == 0x090000 {
            return Some("USB1 Hub");
        } else if code == 0x090001 {
            return Some("USB2 Hub");
        } else if code == 0x090002 {
            return Some("USB2 Hub with MTT");
        } else if code == 0x090003 {
            return Some("USB3 Hub");
        } else if code == 0xE00101 {
            return Some("Bluetooth Interface");
        } else if code == 0xEF0201 {
            return Some("Interface Association Descriptor");
        } else if code == 0xFF5D01 {
            return Some("XInput Device");
        }
        let base = self.base_class().0;
        if base == 0x00 && !is_interface {
            Some("Composite Device")
        } else if base == 0x01 && is_interface {
            Some("Audio Device")
        } else if base == 0x02 && true {
            Some("Communication Device")
        } else if base == 0x03 && is_interface {
            Some("Human Interface Device")
        } else if base == 0x07 && is_interface {
            Some("Printer")
        } else if base == 0x08 && is_interface {
            Some("Storage Device")
        } else if base == 0x09 && !is_interface {
            Some("Hub")
        } else if base == 0x0A && is_interface {
            Some("CDC Data")
        } else if base == 0x0E && is_interface {
            Some("Video Device")
        } else if base == 0x10 && is_interface {
            Some("Audio/Video Device")
        } else if base == 0x11 && !is_interface {
            Some("Billboard Device")
        } else if base == 0x12 && is_interface {
            Some("Type-C Bridge")
        } else if base == 0xDC && true {
            Some("Diagnostic Device")
        } else if base == 0xE0 && is_interface {
            Some("Wireless Device")
        } else if base == 0xFE && is_interface {
            Some("Application Specific")
        } else if base == 0xFF && true {
            Some("Vendor Specific")
        } else {
            None
        }
    }
}

/// USB Descriptor type
#[derive(Debug, Clone, Copy, PartialEq, Eq, PartialOrd, Ord, Structural)]
pub enum UsbDescriptorType {
    Device,
    Configuration,
    String,
    Interface,
    Endpoint,
    DeviceQualifier,
    InterfaceAssociation,
    BinaryObjectStore,
    DeviceCapability,
    HidClass,
    HidReport,
    HidPhysical,
    Hub,
    Hub3,
    SuperspeedUsbEndpointCompanion,
    SuperspeedplusIsochronousEndpointCompanion,
}

impl UsbDescriptorType {
    /// The numeric code of each variant.
    pub open spec fn spec_code(self) -> u8 {
        match self {
            UsbDescriptorType::Device => 1,
            UsbDescriptorType::Configuration => 2,
            UsbDescriptorType::String => 3,
            UsbDescriptorType::Interface => 4,
            UsbDescriptorType::Endpoint => 5,
            UsbDescriptorType::DeviceQualifier => 6,
            UsbDescriptorType::InterfaceAssociation => 11,
            UsbDescriptorType::BinaryObjectStore => 15,
            UsbDescriptorType::DeviceCapability => 16,
            UsbDescriptorType::HidClass => 33,
            UsbDescriptorType::HidReport => 34,
            UsbDescriptorType::HidPhysical => 35,
            UsbDescriptorType::Hub => 41,
            UsbDescriptorType::Hub3 => 42,
            UsbDescriptorType::SuperspeedUsbEndpointCompanion => 48,
            UsbDescriptorType::SuperspeedplusIsochronousEndpointCompanion => 49,
        }
    }

    /// The variant with code `v`, if there is one.
    pub open spec fn spec_from_code(v: u8) -> Option<Self> {
        if v == 1 {
            Some(UsbDescriptorType::Device)
        } else if v == 2 {
            Some(UsbDescriptorType::Configuration)
        } else if v == 3 {
            Some(UsbDescriptorType::String)
        } else if v == 4 {
            Some(UsbDescriptorType::Interface)
        } else if v == 5 {
            Some(UsbDescriptorType::Endpoint)
        } else if v == 6 {
            Some(UsbDescriptorType::DeviceQualifier)
        } else if v == 11 {
            Some(UsbDescriptorType::InterfaceAssociation)
        } else if v == 15 {
            Some(UsbDescriptorType::BinaryObjectStore)
        } else if v == 16 {
            Some(UsbDescriptorType::DeviceCapability)
        } else if v == 33 {
            Some(UsbDescriptorType::HidClass)
        } else if v == 34 {
            Some(UsbDescriptorType::HidReport)
        } else if v == 35 {
            Some(UsbDescriptorType::HidPhysical)
        } else if v == 41 {
            Some(UsbDescriptorType::Hub)
        } else if v == 42 {
            Some(UsbDescriptorType::Hub3)
        } else if v == 48 {
            Some(UsbDescriptorType::SuperspeedUsbEndpointCompanion)
        } else if v == 49 {
            Some(UsbDescriptorType::SuperspeedplusIsochronousEndpointCompanion)
        } else {
            None
        }
    }

    pub fn code(&self) -> (r: u8)
        ensures
            r == self.spec_code(),
    {
        match self {
            UsbDescriptorType::Device => 1,
            UsbDescriptorType::Configuration => 2,
            UsbDescriptorType::String => 3,
            UsbDescriptorType::Interface => 4,
            UsbDescriptorType::Endpoint => 5,
            UsbDescriptorType::DeviceQualifier => 6,
            UsbDescriptorType::InterfaceAssociation => 11,
            UsbDescriptorType::BinaryObjectStore => 15,
            UsbDescriptorType::DeviceCapability => 16,
            UsbDescriptorType::HidClass => 33,
            UsbDescriptorType::HidReport => 34,
            UsbDescriptorType::HidPhysical => 35,
            UsbDescriptorType::Hub => 41,
            UsbDescriptorType::Hub3 => 42,
            UsbDescriptorType::SuperspeedUsbEndpointCompanion => 48,
            UsbDescriptorType::SuperspeedplusIsochronousEndpointCompanion => 49,
        }
    }

    /// Converts a code to its variant. Other codes have no variant.
    pub fn from_code(v: u8) -> (r: Option<Self>)
        ensures
            r == Self::spec_from_code(v),
    {
        if v == 1 {
            Some(UsbDescriptorType::Device)
        } else if v == 2 {
            Some(UsbDescriptorType::Configuration)
        } else if v == 3 {
            Some(UsbDescriptorType::String)
        } else if v == 4 {
            Some(UsbDescriptorType::Interface)
        } else if v == 5 {
            Some(UsbDescriptorType::Endpoint)
        } else if v == 6 {
            Some(UsbDescriptorType::DeviceQualifier)
        } else if v == 11 {
            Some(UsbDescriptorType::InterfaceAssociation)
        } else if v == 15 {
            Some(UsbDescriptorType::BinaryObjectStore)
        } else if v == 16 {
            Some(UsbDescriptorType::DeviceCapability)
        } else if v == 33 {
            Some(UsbDescriptorType::HidClass)
        } else if v == 34 {
            Some(UsbDescriptorType::HidReport)
        } else if v == 35 {
            Some(UsbDescriptorType::HidPhysical)
        } else if v == 41 {
            Some(UsbDescriptorType::Hub)
        } else if v == 42 {
            Some(UsbDescriptorType::Hub3)
        } else if v == 48 {
            Some(UsbDescriptorType::SuperspeedUsbEndpointCompanion)
        } else if v == 49 {
            Some(UsbDescriptorType::SuperspeedplusIsochronousEndpointCompanion)
        } else {
            None
        }
    }
}

impl UsbDescriptorType {
    /// Converts a descriptor type code; only the codes of the variants are accepted.
    pub fn from_u8(v: u8) -> (r: Self)
        requires
            Self::spec_from_code(v) is Some,
        ensures
            Self::spec_from_code(v) == Some(r),
            r.spec_code() == v,
    {
        match Self::from_code(v) {
            Some(t) => t,
            None => UsbDescriptorType::Device,
        }
    }
}

/// USB Device Capability type
#[derive(Debug, Clone, Copy, PartialEq, Eq, PartialOrd, Ord, Structural)]
pub enum UsbDeviceCapabilityType {
    WirelessUsb,
    Usb2_0Extention,
    SuperspeedUsb,
    ContainerId,
    Platform,
    PowerDelivery,
    BatteryInfo,
    PdConsumerPort,
    PdProviderPort,
    SuperspeedPlus,
    PrecisionTimeMeasurement,
    WirelessUsbExt,
    Billboard,
    Authentication,
    BillboardEx,
    ConfigurationSummary,
}

impl UsbDeviceCapabilityType {
    /// The numeric code of each variant.
    pub open spec fn spec_code(self) -> u8 {
        match self {
            UsbDeviceCapabilityType::WirelessUsb => 1,
            UsbDeviceCapabilityType::Usb2_0Extention => 2,
            UsbDeviceCapabilityType::SuperspeedUsb => 3,
            UsbDeviceCapabilityType::ContainerId => 4,
            UsbDeviceCapabilityType::Platform => 5,
            UsbDeviceCapabilityType::PowerDelivery => 6,
            UsbDeviceCapabilityType::BatteryInfo => 7,
            UsbDeviceCapabilityType::PdConsumerPort => 8,
            UsbDeviceCapabilityType::PdProviderPort => 9,
            UsbDeviceCapabilityType::SuperspeedPlus => 10,
            UsbDeviceCapabilityType::PrecisionTimeMeasurement => 11,
            UsbDeviceCapabilityType::WirelessUsbExt => 12,
            UsbDeviceCapabilityType::Billboard => 13,
            UsbDeviceCapabilityType::Authentication => 14,
            UsbDeviceCapabilityType::BillboardEx => 15,
            UsbDeviceCapabilityType::ConfigurationSummary => 16,
        }
    }

    /// The variant with code `v`, if there is one.
    pub open spec fn spec_from_code(v: u8) -> Option<Self> {
        if v == 1 {
            Some(UsbDeviceCapabilityType::WirelessUsb)
        } else if v == 2 {
            Some(UsbDeviceCapabilityType::Usb2_0Extention)
        } else if v == 3 {
            Some(UsbDeviceCapabilityType::SuperspeedUsb)
        } else if v == 4 {
            Some(UsbDeviceCapabilityType::ContainerId)
        } else if v == 5 {
            Some(UsbDeviceCapabilityType::Platform)
        } else if v == 6 {
            Some(UsbDeviceCapabilityType::PowerDelivery)
        } else if v == 7 {
            Some(UsbDeviceCapabilityType::BatteryInfo)
        } else if v == 8 {
            Some(UsbDeviceCapabilityType::PdConsumerPort)
        } else if v == 9 {
            Some(UsbDeviceCapabilityType::PdProviderPort)
        } else if v == 10 {
            Some(UsbDeviceCapabilityType::SuperspeedPlus)
        } else if v == 11 {
            Some(UsbDeviceCapabilityType::PrecisionTimeMeasurement)
        } else if v == 12 {
            Some(UsbDeviceCapabilityType::WirelessUsbExt)
        } else if v == 13 {
            Some(UsbDeviceCapabilityType::Billboard)
        } else if v == 14 {
            Some(UsbDeviceCapabilityType::Authentication)
        } else if v == 15 {
            Some(UsbDeviceCapabilityType::BillboardEx)
        } else if v == 16 {
            Some(UsbDeviceCapabilityType::ConfigurationSummary)
        } else {
            None
        }
    }

    pub fn code(&self) -> (r: u8)
        ensures
            r == self.spec_code(),
    {
        match self {
            UsbDeviceCapabilityType::WirelessUsb => 1,
            UsbDeviceCapabilityType::Usb2_0Extention => 2,
            UsbDeviceCapabilityType::SuperspeedUsb => 3,
            UsbDeviceCapabilityType::ContainerId => 4,
            UsbDeviceCapabilityType::Platform => 5,
            UsbDeviceCapabilityType::PowerDelivery => 6,
            UsbDeviceCapabilityType::BatteryInfo => 7,
            UsbDeviceCapabilityType::PdConsumerPort => 8,
            UsbDeviceCapabilityType::PdProviderPort => 9,
            UsbDeviceCapabilityType::SuperspeedPlus => 10,
            UsbDeviceCapabilityType::PrecisionTimeMeasurement => 11,
            UsbDeviceCapabilityType::WirelessUsbExt => 12,
            UsbDeviceCapabilityType::Billboard => 13,
            UsbDeviceCapabilityType::Authentication => 14,
            UsbDeviceCapabilityType::BillboardEx => 15,
            UsbDeviceCapabilityType::ConfigurationSummary => 16,
        }
    }

    /// Converts a code to its variant. Other codes have no variant.
    pub fn from_code(v: u8) -> (r: Option<Self>)
        ensures
            r == Self::spec_from_code(v),
    {
        if v == 1 {
            Some(UsbDeviceCapabilityType::WirelessUsb)
        } else if v == 2 {
            Some(UsbDeviceCapabilityType::Usb2_0Extention)
        } else if v == 3 {
            Some(UsbDeviceCapabilityType::SuperspeedUsb)
        } else if v == 4 {
            Some(UsbDeviceCapabilityType::ContainerId)
        } else if v == 5 {
            Some(UsbDeviceCapabilityType::Platform)
        } else if v == 6 {
            Some(UsbDeviceCapabilityType::PowerDelivery)
        } else if v == 7 {
            Some(UsbDeviceCapabilityType::BatteryInfo)
        } else if v == 8 {
            Some(UsbDeviceCapabilityType::PdConsumerPort)
        } else if v == 9 {
            Some(UsbDeviceCapabilityType::PdProviderPort)
        } else if v == 10 {
            Some(UsbDeviceCapabilityType::SuperspeedPlus)
        } else if v == 11 {
            Some(UsbDeviceCapabilityType::PrecisionTimeMeasurement)
        } else if v == 12 {
            Some(UsbDeviceCapabilityType::WirelessUsbExt)
        } else if v == 13 {
            Some(UsbDeviceCapabilityType::Billboard)
        } else if v == 14 {
            Some(UsbDeviceCapabilityType::Authentication)
        } else if v == 15 {
            Some(UsbDeviceCapabilityType::BillboardEx)
        } else if v == 16 {
            Some(UsbDeviceCapabilityType::ConfigurationSummary)
        } else {
            None
        }
    }
}

impl UsbDeviceCapabilityType {
    /// Converts a capability type code; only the codes of the variants are accepted.
    pub fn from_u8(v: u8) -> (r: Self)
        requires
            Self::spec_from_code(v) is Some,
        ensures
            Self::spec_from_code(v) == Some(r),
            r.spec_code() == v,
    {
        match Self::from_code(v) {
            Some(t) => t,
            None => UsbDeviceCapabilityType::WirelessUsb,
        }
    }
}

/// Type of a control request
#[derive(Debug, Clone, Copy, PartialEq, Eq, PartialOrd, Ord, Structural)]
pub enum UsbControlRequestType {
    Standard,
    Class,
    Vendor,
}

impl UsbControlRequestType {
    /// The numeric code of each variant.
    pub open spec fn spec_code(self) -> u8 {
        match self {
            UsbControlRequestType::Standard => 0,
            UsbControlRequestType::Class => 1,
            UsbControlRequestType::Vendor => 2,
        }
    }

    /// The variant with code `v`, if there is one.
    pub open spec fn spec_from_code(v: u8) -> Option<Self> {
        if v == 0 {
            Some(UsbControlRequestType::Standard)
        } else if v == 1 {
            Some(UsbControlRequestType::Class)
        } else if v == 2 {
            Some(UsbControlRequestType::Vendor)
        } else {
            None
        }
    }

    pub fn code(&self) -> (r: u8)
        ensures
            r == self.spec_code(),
    {
        match self {
            UsbControlRequestType::Standard => 0,
            UsbControlRequestType::Class => 1,
            UsbControlRequestType::Vendor => 2,
        }
    }

    /// Converts a code to its variant. Other codes have no variant.
    pub fn from_code(v: u8) -> (r: Option<Self>)
        ensures
            r == Self::spec_from_code(v),
    {
        if v == 0 {
            Some(UsbControlRequestType::Standard)
        } else if v == 1 {
            Some(UsbControlRequestType::Class)
        } else if v == 2 {
            Some(UsbControlRequestType::Vendor)
        } else {
            None
        }
    }
}

/// Recipient of a control request
#[derive(Debug, Clone, Copy, PartialEq, Eq, PartialOrd, Ord, Structural)]
pub enum UsbControlRequestTarget {
    Device,
    Interface,
    Endpoint,
    Other,
}

impl UsbControlRequestTarget {
    /// The numeric code of each variant.
    pub open spec fn spec_code(self) -> u8 {
        match self {
            UsbControlRequestTarget::Device => 0,
            UsbControlRequestTarget::Interface => 1,
            UsbControlRequestTarget::Endpoint => 2,
            UsbControlRequestTarget::Other => 3,
        }
    }

    /// The variant with code `v`, if there is one.
    pub open spec fn spec_from_code(v: u8) -> Option<Self> {
        if v == 0 {
            Some(UsbControlRequestTarget::Device)
        } else if v == 1 {
            Some(UsbControlRequestTarget::Interface)
        } else if v == 2 {
            Some(UsbControlRequestTarget::Endpoint)
        } else if v == 3 {
            Some(UsbControlRequestTarget::Other)
        } else {
            None
        }
    }

    pub fn code(&self) -> (r: u8)
        ensures
            r == self.spec_code(),
    {
        match self {
            UsbControlRequestTarget::Device => 0,
            UsbControlRequestTarget::Interface => 1,
            UsbControlRequestTarget::Endpoint => 2,
            UsbControlRequestTarget::Other => 3,
        }
    }

    /// Converts a code to its variant. Other codes have no variant.
    pub fn from_code(v: u8) -> (r: Option<Self>)
        ensures
            r == Self::spec_from_code(v),
    {
        if v == 0 {
            Some(UsbControlRequestTarget::Device)
        } else if v == 1 {
            Some(UsbControlRequestTarget::Interface)
        } else if v == 2 {
            Some(UsbControlRequestTarget::Endpoint)
        } else if v == 3 {
            Some(UsbControlRequestTarget::Other)
        } else {
            None
        }
    }
}

/// Device feature selector
#[derive(Debug, Clone, Copy, PartialEq, Eq, PartialOrd, Ord, Structural)]
#[allow(non_camel_case_types)]
pub enum UsbDeviceFeatureSel {
    DEVICE_REMOTE_WAKEUP,
}

impl UsbDeviceFeatureSel {
    /// The numeric code of each variant.
    pub open spec fn spec_code(self) -> u16 {
        match self {
            UsbDeviceFeatureSel::DEVICE_REMOTE_WAKEUP => 1,
        }
    }

    /// The variant with code `v`, if there is one.
    pub open spec fn spec_from_code(v: u16) -> Option<Self> {
        if v == 1 {
            Some(UsbDeviceFeatureSel::DEVICE_REMOTE_WAKEUP)
        } else {
            None
        }
    }

    pub fn code(&self) -> (r: u16)
        ensures
            r == self.spec_code(),
    {
        match self {
            UsbDeviceFeatureSel::DEVICE_REMOTE_WAKEUP => 1,
        }
    }

    /// Converts a code to its variant. Other codes have no variant.
    pub fn from_code(v: u16) -> (r: Option<Self>)
        ensures
            r == Self::spec_from_code(v),
    {
        if v == 1 {
            Some(UsbDeviceFeatureSel::DEVICE_REMOTE_WAKEUP)
        } else {
            None
        }
    }
}

/// Protocol Speed Identifier
#[derive(Debug, Clone, Copy, PartialEq, Eq, PartialOrd, Ord, Structural)]
pub enum PSIV {
    /// USB1 FullSpeed 12Mbps
    FS,
    /// USB1 LowSpeed 1.5Mbps
    LS,
    /// USB2 HighSpeed 480Mbps
    HS,
    /// USB3 SuperSpeed 5Gbps
    SS,
    PSIV5,
    PSIV6,
    PSIV7,
    PSIV8,
    PSIV9,
    PSIV10,
    PSIV11,
    PSIV12,
    PSIV13,
    PSIV14,
    PSIV15,
}

impl PSIV {
    /// The numeric code of each variant.
    pub open spec fn spec_code(self) -> u8 {
        match self {
            PSIV::FS => 1,
            PSIV::LS => 2,
            PSIV::HS => 3,
            PSIV::SS => 4,
            PSIV::PSIV5 => 5,
            PSIV::PSIV6 => 6,
            PSIV::PSIV7 => 7,
            PSIV::PSIV8 => 8,
            PSIV::PSIV9 => 9,
            PSIV::PSIV10 => 10,
            PSIV::PSIV11 => 11,
            PSIV::PSIV12 => 12,
            PSIV::PSIV13 => 13,
            PSIV::PSIV14 => 14,
            PSIV::PSIV15 => 15,
        }
    }

    /// The variant with code `v`, if there is one.
    pub open spec fn spec_from_code(v: u8) -> Option<Self> {
        if v == 1 {
            Some(PSIV::FS)
        } else if v == 2 {
            Some(PSIV::LS)
        } else if v == 3 {
            Some(PSIV::HS)
        } else if v == 4 {
            Some(PSIV::SS)
        } else if v == 5 {
            Some(PSIV::PSIV5)
        } else if v == 6 {
            Some(PSIV::PSIV6)
        } else if v == 7 {
            Some(PSIV::PSIV7)
        } else if v == 8 {
            Some(PSIV::PSIV8)
        } else if v == 9 {
            Some(PSIV::PSIV9)
        } else if v == 10 {
            Some(PSIV::PSIV10)
        } else if v == 11 {
            Some(PSIV::PSIV11)
        } else if v == 12 {
            Some(PSIV::PSIV12)
        } else if v == 13 {
            Some(PSIV::PSIV13)
        } else if v == 14 {
            Some(PSIV::PSIV14)
        } else if v == 15 {
            Some(PSIV::PSIV15)
        } else {
            None
        }
    }

    pub fn code(&self) -> (r: u8)
        ensures
            r == self.spec_code(),
    {
        match self {
            PSIV::FS => 1,
            PSIV::LS => 2,
            PSIV::HS => 3,
            PSIV::SS => 4,
            PSIV::PSIV5 => 5,
            PSIV::PSIV6 => 6,
            PSIV::PSIV7 => 7,
            PSIV::PSIV8 => 8,
            PSIV::PSIV9 => 9,
            PSIV::PSIV10 => 10,
            PSIV::PSIV11 => 11,
            PSIV::PSIV12 => 12,
            PSIV::PSIV13 => 13,
            PSIV::PSIV14 => 14,
            PSIV::PSIV15 => 15,
        }
    }

    /// Converts a code to its variant. Other codes have no variant.
    pub fn from_code(v: u8) -> (r: Option<Self>)
        ensures
            r == Self::spec_from_code(v),
    {
        if v == 1 {
            Some(PSIV::FS)
        } else if v == 2 {
            Some(PSIV::LS)
        } else if v == 3 {
            Some(PSIV::HS)
        } else if v == 4 {
            Some(PSIV::SS)
        } else if v == 5 {
            Some(PSIV::PSIV5)
        } else if v == 6 {
            Some(PSIV::PSIV6)
        } else if v == 7 {
            Some(PSIV::PSIV7)
        } else if v == 8 {
            Some(PSIV::PSIV8)
        } else if v == 9 {
            Some(PSIV::PSIV9)
        } else if v == 10 {
            Some(PSIV::PSIV10)
        } else if v == 11 {
            Some(PSIV::PSIV11)
        } else if v == 12 {
            Some(PSIV::PSIV12)
        } else if v == 13 {
            Some(PSIV::PSIV13)
        } else if v == 14 {
            Some(PSIV::PSIV14)
        } else if v == 15 {
            Some(PSIV::PSIV15)
        } else {
            None
        }
    }
}

/// USB3 link state
#[derive(Debug, Clone, Copy, PartialEq, Eq, PartialOrd, Ord, Structural)]
pub enum Usb3LinkState {
    U0,
    U1,
    U2,
    U3,
    Disabled,
    RxDetect,
    Inactive,
    Polling,
    Recovery,
    HotReset,
    ComplianceMode,
    TestMode,
    Resume,
}

impl Usb3LinkState {
    /// The numeric code of each variant.
    pub open spec fn spec_code(self) -> u8 {
        match self {
            Usb3LinkState::U0 => 0,
            Usb3LinkState::U1 => 1,
            Usb3LinkState::U2 => 2,
            Usb3LinkState::U3 => 3,
            Usb3LinkState::Disabled => 4,
            Usb3LinkState::RxDetect => 5,
            Usb3LinkState::Inactive => 6,
            Usb3LinkState::Polling => 7,
            Usb3LinkState::Recovery => 8,
            Usb3LinkState::HotReset => 9,
            Usb3LinkState::ComplianceMode => 10,
            Usb3LinkState::TestMode => 11,
            Usb3LinkState::Resume => 15,
        }
    }

    /// The variant with code `v`, if there is one.
    pub open spec fn spec_from_code(v: u8) -> Option<Self> {
        if v == 0 {
            Some(Usb3LinkState::U0)
        } else if v == 1 {
            Some(Usb3LinkState::U1)
        } else if v == 2 {
            Some(Usb3LinkState::U2)
        } else if v == 3 {
            Some(Usb3LinkState::U3)
        } else if v == 4 {
            Some(Usb3LinkState::Disabled)
        } else if v == 5 {
            Some(Usb3LinkState::RxDetect)
        } else if v == 6 {
            Some(Usb3LinkState::Inactive)
        } else if v == 7 {
            Some(Usb3LinkState::Polling)
        } else if v == 8 {
            Some(Usb3LinkState::Recovery)
        } else if v == 9 {
            Some(Usb3LinkState::HotReset)
        } else if v == 10 {
            Some(Usb3LinkState::ComplianceMode)
        } else if v == 11 {
            Some(Usb3LinkState::TestMode)
        } else if v == 15 {
            Some(Usb3LinkState::Resume)
        } else {
            None
        }
    }

    pub fn code(&self) -> (r: u8)
        ensures
            r == self.spec_code(),
    {
        match self {
            Usb3LinkState::U0 => 0,
            Usb3LinkState::U1 => 1,
            Usb3LinkState::U2 => 2,
            Usb3LinkState::U3 => 3,
            Usb3LinkState::Disabled => 4,
            Usb3LinkState::RxDetect => 5,
            Usb3LinkState::Inactive => 6,
            Usb3LinkState::Polling => 7,
            Usb3LinkState::Recovery => 8,
            Usb3LinkState::HotReset => 9,
            Usb3LinkState::ComplianceMode => 10,
            Usb3LinkState::TestMode => 11,
            Usb3LinkState::Resume => 15,
        }
    }

    /// Converts a code to its variant. Other codes have no variant.
    pub fn from_code(v: u8) -> (r: Option<Self>)
        ensures
            r == Self::spec_from_code(v),
    {
        if v == 0 {
            Some(Usb3LinkState::U0)
        } else if v == 1 {
            Some(Usb3LinkState::U1)
        } else if v == 2 {
            Some(Usb3LinkState::U2)
        } else if v == 3 {
            Some(Usb3LinkState::U3)
        } else if v == 4 {
            Some(Usb3LinkState::Disabled)
        } else if v == 5 {
            Some(Usb3LinkState::RxDetect)
        } else if v == 6 {
            Some(Usb3LinkState::Inactive)
        } else if v == 7 {
            Some(Usb3LinkState::Polling)
        } else if v == 8 {
            Some(Usb3LinkState::Recovery)
        } else if v == 9 {
            Some(Usb3LinkState::HotReset)
        } else if v == 10 {
            Some(Usb3LinkState::ComplianceMode)
        } else if v == 11 {
            Some(Usb3LinkState::TestMode)
        } else if v == 15 {
            Some(Usb3LinkState::Resume)
        } else {
            None
        }
    }
}

/// Transfer type of an endpoint
#[derive(Debug, Clone, Copy, PartialEq, Eq, PartialOrd, Ord, Structural)]
pub enum UsbEndpointType {
    Control,
    Isochronous,
    Bulk,
    Interrupt,
}

impl UsbEndpointType {
    /// The numeric code of each variant.
    pub open spec fn spec_code(self) -> u8 {
        match self {
            UsbEndpointType::Control => 0,
            UsbEndpointType::Isochronous => 1,
            UsbEndpointType::Bulk => 2,
            UsbEndpointType::Interrupt => 3,
        }
    }

    /// The variant with code `v`, if there is one.
    pub open spec fn spec_from_code(v: u8) -> Option<Self> {
        if v == 0 {
            Some(UsbEndpointType::Control)
        } else if v == 1 {
            Some(UsbEndpointType::Isochronous)
        } else if v == 2 {
            Some(UsbEndpointType::Bulk)
        } else if v == 3 {
            Some(UsbEndpointType::Interrupt)
        } else {
            None
        }
    }

    pub fn code(&self) -> (r: u8)
        ensures
            r == self.spec_code(),
    {
        match self {
            UsbEndpointType::Control => 0,
            UsbEndpointType::Isochronous => 1,
            UsbEndpointType::Bulk => 2,
            UsbEndpointType::Interrupt => 3,
        }
    }

    /// Converts a code to its variant. Other codes have no variant.
    pub fn from_code(v: u8) -> (r: Option<Self>)
        ensures
            r == Self::spec_from_code(v),
    {
        if v == 0 {
            Some(UsbEndpointType::Control)
        } else if v == 1 {
            Some(UsbEndpointType::Isochronous)
        } else if v == 2 {
            Some(UsbEndpointType::Bulk)
        } else if v == 3 {
            Some(UsbEndpointType::Interrupt)
        } else {
            None
        }
    }
}

impl UsbEndpointType {
    /// The transfer type in the two low bits of an endpoint's attributes.
    pub fn from_u8(v: u8) -> (r: Self)
        ensures
            Self::spec_from_code(v % 4) == Some(r),
    {
        let t = v % 4;
        if t == 0 {
            Self::Control
        } else if t == 1 {
            Self::Isochronous
        } else if t == 2 {
            Self::Bulk
        } else {
            Self::Interrupt
        }
    }
}

impl PSIV {
    pub fn max_packet_size(&self) -> (r: UsbLength)
        ensures
            r.0 == match self {
                PSIV::FS | PSIV::LS => 8u16,
                PSIV::HS => 64u16,
                _ => 512u16,
            },
    {
        match self {
            PSIV::FS | PSIV::LS => UsbLength(8),
            PSIV::HS => UsbLength(64),
            _ => UsbLength(512),
        }
    }

    /// Bits per second of the speed; zero where the speed is not a fixed one.
    pub fn protocol_speed(&self) -> (r: u64)
        ensures
            r == match self {
                PSIV::FS => 12_000_000u64,
                PSIV::LS => 1_500_000u64,
                PSIV::HS => 480_000_000u64,
                PSIV::SS => 5_000_000_000u64,
                _ => 0u64,
            },
    {
        match self {
            PSIV::FS => 12_000_000,
            PSIV::LS => 1_500_000,
            PSIV::HS => 480_000_000,
            PSIV::SS => 5_000_000_000,
            _ => 0,
        }
    }
}


/// Whether `b` starts with a descriptor header of type `ty` whose length fits in `b`,
/// and `b` holds at least the `size` bytes that a descriptor of that kind occupies.
pub open spec fn descriptor_header_ok(b: Seq<u8>, ty: UsbDescriptorType, size: nat) -> bool {
    &&& b.len() >= 2
    &&& b[0] as nat <= b.len()
    &&& b[1] == ty.spec_code()
    &&& b.len() >= size
}

fn descriptor_header_check(slice: &[u8], ty: UsbDescriptorType, size: usize) -> (r: bool)
    ensures
        r == descriptor_header_ok(slice@, ty, size as nat),
{
    slice.len() >= 2 && (slice[0] as usize) <= slice.len() && slice[1] == ty.code() && slice.len() >= size
}

/// A type compatible with standard USB descriptors: it is read from the bytes that a
/// device sends.
pub trait UsbDescriptor: Sized {
    /// The descriptor type that a descriptor of this kind carries.
    spec fn spec_descriptor_type() -> UsbDescriptorType;

    /// Whether `b` holds a descriptor of this kind.
    spec fn spec_accepts(b: Seq<u8>) -> bool;

    /// Whether `d` is the descriptor that `b` holds.
    spec fn spec_parsed(b: Seq<u8>, d: Self) -> bool;

    /// The length that the descriptor declares of itself.
    spec fn spec_len(&self) -> u8;

    fn len(&self) -> (r: usize)
        ensures
            r == self.spec_len(),
    ;

    fn descriptor_type(&self) -> (r: UsbDescriptorType);

    /// Reads a descriptor of this kind from the start of `slice`.
    fn from_slice(slice: &[u8]) -> (r: Option<Self>)
        ensures
            match r {
                Some(d) => Self::spec_accepts(slice@) && Self::spec_parsed(slice@, d),
                None => !Self::spec_accepts(slice@),
            },
    ;
}

/// A type compatible with standard USB device capabilities.
pub trait UsbDeviceCapabilityDescriptor: UsbDescriptor {
    /// The capability type of this kind of descriptor.
    spec fn spec_capability_kind() -> UsbDeviceCapabilityType;

    /// The capability type that the descriptor declares.
    fn capability_type(&self) -> (r: UsbDeviceCapabilityType);
}

/// USB Device Descriptor
#[allow(non_snake_case)]
#[derive(Debug, Clone, Copy)]
pub struct UsbDeviceDescriptor {
    pub bLength: u8,
    pub bDescriptorType: UsbDescriptorType,
    pub bcdUSB: UsbWord,
    pub bDeviceClass: UsbBaseClass,
    pub bDeviceSubClass: UsbSubClass,
    pub bDeviceProtocol: UsbProtocolCode,
    pub bMaxPacketSize0: u8,
    pub idVendor: UsbWord,
    pub idProduct: UsbWord,
    pub bcdDevice: UsbWord,
    pub iManufacturer: u8,
    pub iProduct: u8,
    pub iSerialNumber: u8,
    pub bNumConfigurations: u8,
}

impl UsbDescriptor for UsbDeviceDescriptor {
    open spec fn spec_descriptor_type() -> UsbDescriptorType {
        UsbDescriptorType::Device
    }

    open spec fn spec_accepts(b: Seq<u8>) -> bool {
        descriptor_header_ok(b, UsbDescriptorType::Device, 18)
    }

    open spec fn spec_parsed(b: Seq<u8>, d: Self) -> bool {
        &&& d.bLength == b[0]
        &&& d.bDescriptorType == UsbDescriptorType::Device
        &&& d.bcdUSB == UsbWord::spec_from_bytes(b[2], b[3])
        &&& d.bDeviceClass == UsbBaseClass(b[4])
        &&& d.bDeviceSubClass == UsbSubClass(b[5])
        &&& d.bDeviceProtocol == UsbProtocolCode(b[6])
        &&& d.bMaxPacketSize0 == b[7]
        &&& d.idVendor == UsbWord::spec_from_bytes(b[8], b[9])
        &&& d.idProduct == UsbWord::spec_from_bytes(b[10], b[11])
        &&& d.bcdDevice == UsbWord::spec_from_bytes(b[12], b[13])
        &&& d.iManufacturer == b[14]
        &&& d.iProduct == b[15]
        &&& d.iSerialNumber == b[16]
        &&& d.bNumConfigurations == b[17]
    }

    open spec fn spec_len(&self) -> u8 {
        self.bLength
    }

    fn len(&self) -> (r: usize) {
        self.bLength as usize
    }

    fn descriptor_type(&self) -> (r: UsbDescriptorType)
        ensures
            r == self.bDescriptorType,
    {
        self.bDescriptorType
    }

    fn from_slice(slice: &[u8]) -> (r: Option<Self>) {
        if descriptor_header_check(slice, UsbDescriptorType::Device, 18) {
            Some(UsbDeviceDescriptor {
                bLength: slice[0],
                bDescriptorType: UsbDescriptorType::Device,
                bcdUSB: UsbWord::from_bytes(slice[2], slice[3]),
                bDeviceClass: UsbBaseClass(slice[4]),
                bDeviceSubClass: UsbSubClass(slice[5]),
                bDeviceProtocol: UsbProtocolCode(slice[6]),
                bMaxPacketSize0: slice[7],
                idVendor: UsbWord::from_bytes(slice[8], slice[9]),
                idProduct: UsbWord::from_bytes(slice[10], slice[11]),
                bcdDevice: UsbWord::from_bytes(slice[12], slice[13]),
                iManufacturer: slice[14],
                iProduct: slice[15],
                iSerialNumber: slice[16],
                bNumConfigurations: slice[17],
            })
        } else {
            None
        }
    }
}

/// USB Configuration Descriptor
#[allow(non_snake_case)]
#[derive(Debug, Clone, Copy)]
pub struct UsbConfigurationDescriptor {
    pub bLength: u8,
    pub bDescriptorType: UsbDescriptorType,
    pub wTotalLength: UsbWord,
    pub bNumInterface: u8,
    pub bConfigurationValue: UsbConfigurationValue,
    pub iConfiguration: u8,
    pub bmAttributes: u8,
    pub bMaxPower: u8,
}

impl UsbDescriptor for UsbConfigurationDescriptor {
    open spec fn spec_descriptor_type() -> UsbDescriptorType {
        UsbDescriptorType::Configuration
    }

    open spec fn spec_accepts(b: Seq<u8>) -> bool {
        descriptor_header_ok(b, UsbDescriptorType::Configuration, 9)
    }

    open spec fn spec_parsed(b: Seq<u8>, d: Self) -> bool {
        &&& d.bLength == b[0]
        &&& d.bDescriptorType == UsbDescriptorType::Configuration
        &&& d.wTotalLength == UsbWord::spec_from_bytes(b[2], b[3])
        &&& d.bNumInterface == b[4]
        &&& d.bConfigurationValue == UsbConfigurationValue(b[5])
        &&& d.iConfiguration == b[6]
        &&& d.bmAttributes == b[7]
        &&& d.bMaxPower == b[8]
    }

    open spec fn spec_len(&self) -> u8 {
        self.bLength
    }

    fn len(&self) -> (r: usize) {
        self.bLength as usize
    }

    fn descriptor_type(&self) -> (r: UsbDescriptorType)
        ensures
            r == self.bDescriptorType,
    {
        self.bDescriptorType
    }

    fn from_slice(slice: &[u8]) -> (r: Option<Self>) {
        if descriptor_header_check(slice, UsbDescriptorType::Configuration, 9) {
            Some(UsbConfigurationDescriptor {
                bLength: slice[0],
                bDescriptorType: UsbDescriptorType::Configuration,
                wTotalLength: UsbWord::from_bytes(slice[2], slice[3]),
                bNumInterface: slice[4],
                bConfigurationValue: UsbConfigurationValue(slice[5]),
                iConfiguration: slice[6],
                bmAttributes: slice[7],
                bMaxPower: slice[8],
            })
        } else {
            None
        }
    }
}

/// USB String Descriptor (the header of string zero)
#[allow(non_snake_case)]
#[derive(Debug, Clone, Copy)]
pub struct UsbStringDescriptor {
    pub bLength: u8,
    pub bDescriptorType: UsbDescriptorType,
    pub wLangId: UsbWord,
}

impl UsbDescriptor for UsbStringDescriptor {
    open spec fn spec_descriptor_type() -> UsbDescriptorType {
        UsbDescriptorType::String
    }

    open spec fn spec_accepts(b: Seq<u8>) -> bool {
        descriptor_header_ok(b, UsbDescriptorType::String, 4)
    }

    open spec fn spec_parsed(b: Seq<u8>, d: Self) -> bool {
        &&& d.bLength == b[0]
        &&& d.bDescriptorType == UsbDescriptorType::String
        &&& d.wLangId == UsbWord::spec_from_bytes(b[2], b[3])
    }

    open spec fn spec_len(&self) -> u8 {
        self.bLength
    }

    fn len(&self) -> (r: usize) {
        self.bLength as usize
    }

    fn descriptor_type(&self) -> (r: UsbDescriptorType)
        ensures
            r == self.bDescriptorType,
    {
        self.bDescriptorType
    }

    fn from_slice(slice: &[u8]) -> (r: Option<Self>) {
        if descriptor_header_check(slice, UsbDescriptorType::String, 4) {
            Some(UsbStringDescriptor {
                bLength: slice[0],
                bDescriptorType: UsbDescriptorType::String,
                wLangId: UsbWord::from_bytes(slice[2], slice[3]),
            })
        } else {
            None
        }
    }
}

/// USB Interface Descriptor
#[allow(non_snake_case)]
#[derive(Debug, Clone, Copy)]
pub struct UsbInterfaceDescriptor {
    pub bLength: u8,
    pub bDescriptorType: UsbDescriptorType,
    pub bInterfaceNumber: UsbInterfaceNumber,
    pub bAlternateSetting: UsbAlternateSettingNumber,
    pub bNumEndpoints: u8,
    pub bInterfaceClass: UsbBaseClass,
    pub bInterfaceSubClass: UsbSubClass,
    pub bInterfaceProtocol: UsbProtocolCode,
    pub iInterface: u8,
}

impl UsbDescriptor for UsbInterfaceDescriptor {
    open spec fn spec_descriptor_type() -> UsbDescriptorType {
        UsbDescriptorType::Interface
    }

    open spec fn spec_accepts(b: Seq<u8>) -> bool {
        descriptor_header_ok(b, UsbDescriptorType::Interface, 9)
    }

    open spec fn spec_parsed(b: Seq<u8>, d: Self) -> bool {
        &&& d.bLength == b[0]
        &&& d.bDescriptorType == UsbDescriptorType::Interface
        &&& d.bInterfaceNumber == UsbInterfaceNumber(b[2])
        &&& d.bAlternateSetting == UsbAlternateSettingNumber(b[3])
        &&& d.bNumEndpoints == b[4]
        &&& d.bInterfaceClass == UsbBaseClass(b[5])
        &&& d.bInterfaceSubClass == UsbSubClass(b[6])
        &&& d.bInterfaceProtocol == UsbProtocolCode(b[7])
        &&& d.iInterface == b[8]
    }

    open spec fn spec_len(&self) -> u8 {
        self.bLength
    }

    fn len(&self) -> (r: usize) {
        self.bLength as usize
    }

    fn descriptor_type(&self) -> (r: UsbDescriptorType)
        ensures
            r == self.bDescriptorType,
    {
        self.bDescriptorType
    }

    fn from_slice(slice: &[u8]) -> (r: Option<Self>) {
        if descriptor_header_check(slice, UsbDescriptorType::Interface, 9) {
            Some(UsbInterfaceDescriptor {
                bLength: slice[0],
                bDescriptorType: UsbDescriptorType::Interface,
                bInterfaceNumber: UsbInterfaceNumber(slice[2]),
                bAlternateSetting: UsbAlternateSettingNumber(slice[3]),
                bNumEndpoints: slice[4],
                bInterfaceClass: UsbBaseClass(slice[5]),
                bInterfaceSubClass: UsbSubClass(slice[6]),
                bInterfaceProtocol: UsbProtocolCode(slice[7]),
                iInterface: slice[8],
            })
        } else {
            None
        }
    }
}

/// USB Endpoint Descriptor
#[allow(non_snake_case)]
#[derive(Debug, Clone, Copy)]
pub struct UsbEndpointDescriptor {
    pub bLength: u8,
    pub bDescriptorType: UsbDescriptorType,
    pub bEndpointAddress: u8,
    pub bmAttributes: u8,
    pub wMaxPacketSize: UsbWord,
    pub bInterval: u8,
}

impl UsbDescriptor for UsbEndpointDescriptor {
    open spec fn spec_descriptor_type() -> UsbDescriptorType {
        UsbDescriptorType::Endpoint
    }

    open spec fn spec_accepts(b: Seq<u8>) -> bool {
        descriptor_header_ok(b, UsbDescriptorType::Endpoint, 7)
    }

    open spec fn spec_parsed(b: Seq<u8>, d: Self) -> bool {
        &&& d.bLength == b[0]
        &&& d.bDescriptorType == UsbDescriptorType::Endpoint
        &&& d.bEndpointAddress == b[2]
        &&& d.bmAttributes == b[3]
        &&& d.wMaxPacketSize == UsbWord::spec_from_bytes(b[4], b[5])
        &&& d.bInterval == b[6]
    }

    open spec fn spec_len(&self) -> u8 {
        self.bLength
    }

    fn len(&self) -> (r: usize) {
        self.bLength as usize
    }

    fn descriptor_type(&self) -> (r: UsbDescriptorType)
        ensures
            r == self.bDescriptorType,
    {
        self.bDescriptorType
    }

    fn from_slice(slice: &[u8]) -> (r: Option<Self>) {
        if descriptor_header_check(slice, UsbDescriptorType::Endpoint, 7) {
            Some(UsbEndpointDescriptor {
                bLength: slice[0],
                bDescriptorType: UsbDescriptorType::Endpoint,
                bEndpointAddress: slice[2],
                bmAttributes: slice[3],
                wMaxPacketSize: UsbWord::from_bytes(slice[4], slice[5]),
                bInterval: slice[6],
            })
        } else {
            None
        }
    }
}

/// USB Device Qualifier Descriptor
#[allow(non_snake_case)]
#[derive(Debug, Clone, Copy)]
pub struct UsbDeviceQualifierDescriptor {
    pub bLength: u8,
    pub bDescriptorType: UsbDescriptorType,
    pub bcdUSB: UsbWord,
    pub bDeviceClass: UsbBaseClass,
    pub bDeviceSubClass: UsbSubClass,
    pub bDeviceProtocol: UsbProtocolCode,
    pub bMaxPacketSize0: u8,
    pub bNumConfigurations: u8,
    pub bReserved: u8,
}

impl UsbDescriptor for UsbDeviceQualifierDescriptor {
    open spec fn spec_descriptor_type() -> UsbDescriptorType {
        UsbDescriptorType::DeviceQualifier
    }

    open spec fn spec_accepts(b: Seq<u8>) -> bool {
        descriptor_header_ok(b, UsbDescriptorType::DeviceQualifier, 10)
    }

    open spec fn spec_parsed(b: Seq<u8>, d: Self) -> bool {
        &&& d.bLength == b[0]
        &&& d.bDescriptorType == UsbDescriptorType::DeviceQualifier
        &&& d.bcdUSB == UsbWord::spec_from_bytes(b[2], b[3])
        &&& d.bDeviceClass == UsbBaseClass(b[4])
        &&& d.bDeviceSubClass == UsbSubClass(b[5])
        &&& d.bDeviceProtocol == UsbProtocolCode(b[6])
        &&& d.bMaxPacketSize0 == b[7]
        &&& d.bNumConfigurations == b[8]
        &&& d.bReserved == b[9]
    }

    open spec fn spec_len(&self) -> u8 {
        self.bLength
    }

    fn len(&self) -> (r: usize) {
        self.bLength as usize
    }

    fn descriptor_type(&self) -> (r: UsbDescriptorType)
        ensures
            r == self.bDescriptorType,
    {
        self.bDescriptorType
    }

    fn from_slice(slice: &[u8]) -> (r: Option<Self>) {
        if descriptor_header_check(slice, UsbDescriptorType::DeviceQualifier, 10) {
            Some(UsbDeviceQualifierDescriptor {
                bLength: slice[0],
                bDescriptorType: UsbDescriptorType::DeviceQualifier,
                bcdUSB: UsbWord::from_bytes(slice[2], slice[3]),
                bDeviceClass: UsbBaseClass(slice[4]),
                bDeviceSubClass: UsbSubClass(slice[5]),
                bDeviceProtocol: UsbProtocolCode(slice[6]),
                bMaxPacketSize0: slice[7],
                bNumConfigurations: slice[8],
                bReserved: slice[9],
            })
        } else {
            None
        }
    }
}

/// Interface Association Descriptor
#[allow(non_snake_case)]
#[derive(Debug, Clone, Copy)]
pub struct InterfaceAssociationDescriptor {
    pub bLength: u8,
    pub bDescriptorType: UsbDescriptorType,
    pub bFirstInterface: UsbInterfaceNumber,
    pub bInterfaceCount: u8,
    pub bFunctionClass: UsbBaseClass,
    pub bFunctionSubClass: UsbSubClass,
    pub bFunctionProtocol: UsbProtocolCode,
    pub iFunction: u8,
}

impl UsbDescriptor for InterfaceAssociationDescriptor {
    open spec fn spec_descriptor_type() -> UsbDescriptorType {
        UsbDescriptorType::InterfaceAssociation
    }

    open spec fn spec_accepts(b: Seq<u8>) -> bool {
        descriptor_header_ok(b, UsbDescriptorType::InterfaceAssociation, 8)
    }

    open spec fn spec_parsed(b: Seq<u8>, d: Self) -> bool {
        &&& d.bLength == b[0]
        &&& d.bDescriptorType == UsbDescriptorType::InterfaceAssociation
        &&& d.bFirstInterface == UsbInterfaceNumber(b[2])
        &&& d.bInterfaceCount == b[3]
        &&& d.bFunctionClass == UsbBaseClass(b[4])
        &&& d.bFunctionSubClass == UsbSubClass(b[5])
        &&& d.bFunctionProtocol == UsbProtocolCode(b[6])
        &&& d.iFunction == b[7]
    }

    open spec fn spec_len(&self) -> u8 {
        self.bLength
    }

    fn len(&self) -> (r: usize) {
        self.bLength as usize
    }

    fn descriptor_type(&self) -> (r: UsbDescriptorType)
        ensures
            r == self.bDescriptorType,
    {
        self.bDescriptorType
    }

    fn from_slice(slice: &[u8]) -> (r: Option<Self>) {
        if descriptor_header_check(slice, UsbDescriptorType::InterfaceAssociation, 8) {
            Some(InterfaceAssociationDescriptor {
                bLength: slice[0],
                bDescriptorType: UsbDescriptorType::InterfaceAssociation,
                bFirstInterface: UsbInterfaceNumber(slice[2]),
                bInterfaceCount: slice[3],
                bFunctionClass: UsbBaseClass(slice[4]),
                bFunctionSubClass: UsbSubClass(slice[5]),
                bFunctionProtocol: UsbProtocolCode(slice[6]),
                iFunction: slice[7],
            })
        } else {
            None
        }
    }
}

/// BOS USB Binary Device Object Store Descriptor
#[allow(non_snake_case)]
#[derive(Debug, Clone, Copy)]
pub struct UsbBinaryObjectStoreDescriptor {
    pub bLength: u8,
    pub bDescriptorType: UsbDescriptorType,
    pub wTotalLength: UsbWord,
    pub bNumDeviceCaps: u8,
}

impl UsbDescriptor for UsbBinaryObjectStoreDescriptor {
    open spec fn spec_descriptor_type() -> UsbDescriptorType {
        UsbDescriptorType::BinaryObjectStore
    }

    open spec fn spec_accepts(b: Seq<u8>) -> bool {
        descriptor_header_ok(b, UsbDescriptorType::BinaryObjectStore, 5)
    }

    open spec fn spec_parsed(b: Seq<u8>, d: Self) -> bool {
        &&& d.bLength == b[0]
        &&& d.bDescriptorType == UsbDescriptorType::BinaryObjectStore
        &&& d.wTotalLength == UsbWord::spec_from_bytes(b[2], b[3])
        &&& d.bNumDeviceCaps == b[4]
    }

    open spec fn spec_len(&self) -> u8 {
        self.bLength
    }

    fn len(&self) -> (r: usize) {
        self.bLength as usize
    }

    fn descriptor_type(&self) -> (r: UsbDescriptorType)
        ensures
            r == self.bDescriptorType,
    {
        self.bDescriptorType
    }

    fn from_slice(slice: &[u8]) -> (r: Option<Self>) {
        if descriptor_header_check(slice, UsbDescriptorType::BinaryObjectStore, 5) {
            Some(UsbBinaryObjectStoreDescriptor {
                bLength: slice[0],
                bDescriptorType: UsbDescriptorType::BinaryObjectStore,
                wTotalLength: UsbWord::from_bytes(slice[2], slice[3]),
                bNumDeviceCaps: slice[4],
            })
        } else {
            None
        }
    }
}

/// USB Superspeed USB Device Capability
#[allow(non_snake_case)]
#[derive(Debug, Clone, Copy)]
pub struct UsbSsDeviceCapability {
    pub bLength: u8,
    pub bDescriptorType: UsbDescriptorType,
    pub bDevCapabilityType: UsbDeviceCapabilityType,
    pub bmAttributes: u8,
    pub wSpeedSupported: UsbWord,
    pub bFunctionalitySupport: u8,
    pub bU1DevExitLat: u8,
    pub wU2DevExitLat: UsbWord,
}

impl UsbDescriptor for UsbSsDeviceCapability {
    open spec fn spec_descriptor_type() -> UsbDescriptorType {
        UsbDescriptorType::DeviceCapability
    }

    open spec fn spec_accepts(b: Seq<u8>) -> bool {
        descriptor_header_ok(b, UsbDescriptorType::DeviceCapability, 10) && UsbDeviceCapabilityType::spec_from_code(b[2]) is Some
    }

    open spec fn spec_parsed(b: Seq<u8>, d: Self) -> bool {
        &&& d.bLength == b[0]
        &&& d.bDescriptorType == UsbDescriptorType::DeviceCapability
        &&& d.bDevCapabilityType == UsbDeviceCapabilityType::spec_from_code(b[2]).unwrap()
        &&& d.bmAttributes == b[3]
        &&& d.wSpeedSupported == UsbWord::spec_from_bytes(b[4], b[5])
        &&& d.bFunctionalitySupport == b[6]
        &&& d.bU1DevExitLat == b[7]
        &&& d.wU2DevExitLat == UsbWord::spec_from_bytes(b[8], b[9])
    }

    open spec fn spec_len(&self) -> u8 {
        self.bLength
    }

    fn len(&self) -> (r: usize) {
        self.bLength as usize
    }

    fn descriptor_type(&self) -> (r: UsbDescriptorType)
        ensures
            r == self.bDescriptorType,
    {
        self.bDescriptorType
    }

    fn from_slice(slice: &[u8]) -> (r: Option<Self>) {
        if descriptor_header_check(slice, UsbDescriptorType::DeviceCapability, 10) && UsbDeviceCapabilityType::from_code(slice[2]).is_some() {
            Some(UsbSsDeviceCapability {
                bLength: slice[0],
                bDescriptorType: UsbDescriptorType::DeviceCapability,
                bDevCapabilityType: UsbDeviceCapabilityType::from_u8(slice[2]),
                bmAttributes: slice[3],
                wSpeedSupported: UsbWord::from_bytes(slice[4], slice[5]),
                bFunctionalitySupport: slice[6],
                bU1DevExitLat: slice[7],
                wU2DevExitLat: UsbWord::from_bytes(slice[8], slice[9]),
            })
        } else {
            None
        }
    }
}

/// USB2 Hub Descriptor (one byte of removable-device bits)
#[allow(non_snake_case)]
#[derive(Debug, Clone, Copy)]
pub struct Usb2HubDescriptor {
    pub bLength: u8,
    pub bDescriptorType: UsbDescriptorType,
    pub bNbrPorts: u8,
    pub wHubCharacteristics: UsbWord,
    pub bPwrOn2PwrGood: u8,
    pub bHubContrCurrent: u8,
    pub DeviceRemovable: u8,
}

impl UsbDescriptor for Usb2HubDescriptor {
    open spec fn spec_descriptor_type() -> UsbDescriptorType {
        UsbDescriptorType::Hub
    }

    open spec fn spec_accepts(b: Seq<u8>) -> bool {
        descriptor_header_ok(b, UsbDescriptorType::Hub, 8)
    }

    open spec fn spec_parsed(b: Seq<u8>, d: Self) -> bool {
        &&& d.bLength == b[0]
        &&& d.bDescriptorType == UsbDescriptorType::Hub
        &&& d.bNbrPorts == b[2]
        &&& d.wHubCharacteristics == UsbWord::spec_from_bytes(b[3], b[4])
        &&& d.bPwrOn2PwrGood == b[5]
        &&& d.bHubContrCurrent == b[6]
        &&& d.DeviceRemovable == b[7]
    }

    open spec fn spec_len(&self) -> u8 {
        self.bLength
    }

    fn len(&self) -> (r: usize) {
        self.bLength as usize
    }

    fn descriptor_type(&self) -> (r: UsbDescriptorType)
        ensures
            r == self.bDescriptorType,
    {
        self.bDescriptorType
    }

    fn from_slice(slice: &[u8]) -> (r: Option<Self>) {
        if descriptor_header_check(slice, UsbDescriptorType::Hub, 8) {
            Some(Usb2HubDescriptor {
                bLength: slice[0],
                bDescriptorType: UsbDescriptorType::Hub,
                bNbrPorts: slice[2],
                wHubCharacteristics: UsbWord::from_bytes(slice[3], slice[4]),
                bPwrOn2PwrGood: slice[5],
                bHubContrCurrent: slice[6],
                DeviceRemovable: slice[7],
            })
        } else {
            None
        }
    }
}

/// USB3 Hub Descriptor
#[allow(non_snake_case)]
#[derive(Debug, Clone, Copy)]
pub struct Usb3HubDescriptor {
    pub bLength: u8,
    pub bDescriptorType: UsbDescriptorType,
    pub bNbrPorts: u8,
    pub wHubCharacteristics: UsbWord,
    pub bPwrOn2PwrGood: u8,
    pub bHubContrCurrent: u8,
    pub bHubHdrDecLat: u8,
    pub wHubDelay: UsbWord,
    pub DeviceRemovable: UsbWord,
}

impl UsbDescriptor for Usb3HubDescriptor {
    open spec fn spec_descriptor_type() -> UsbDescriptorType {
        UsbDescriptorType::Hub3
    }

    open spec fn spec_accepts(b: Seq<u8>) -> bool {
        descriptor_header_ok(b, UsbDescriptorType::Hub3, 12)
    }

    open spec fn spec_parsed(b: Seq<u8>, d: Self) -> bool {
        &&& d.bLength == b[0]
        &&& d.bDescriptorType == UsbDescriptorType::Hub3
        &&& d.bNbrPorts == b[2]
        &&& d.wHubCharacteristics == UsbWord::spec_from_bytes(b[3], b[4])
        &&& d.bPwrOn2PwrGood == b[5]
        &&& d.bHubContrCurrent == b[6]
        &&& d.bHubHdrDecLat == b[7]
        &&& d.wHubDelay == UsbWord::spec_from_bytes(b[8], b[9])
        &&& d.DeviceRemovable == UsbWord::spec_from_bytes(b[10], b[11])
    }

    open spec fn spec_len(&self) -> u8 {
        self.bLength
    }

    fn len(&self) -> (r: usize) {
        self.bLength as usize
    }

    fn descriptor_type(&self) -> (r: UsbDescriptorType)
        ensures
            r == self.bDescriptorType,
    {
        self.bDescriptorType
    }

    fn from_slice(slice: &[u8]) -> (r: Option<Self>) {
        if descriptor_header_check(slice, UsbDescriptorType::Hub3, 12) {
            Some(Usb3HubDescriptor {
                bLength: slice[0],
                bDescriptorType: UsbDescriptorType::Hub3,
                bNbrPorts: slice[2],
                wHubCharacteristics: UsbWord::from_bytes(slice[3], slice[4]),
                bPwrOn2PwrGood: slice[5],
                bHubContrCurrent: slice[6],
                bHubHdrDecLat: slice[7],
                wHubDelay: UsbWord::from_bytes(slice[8], slice[9]),
                DeviceRemovable: UsbWord::from_bytes(slice[10], slice[11]),
            })
        } else {
            None
        }
    }
}



/// Whether `r` is the optional string index that the byte `v` stands for (zero means none).
pub open spec fn index_of(r: Option<NonZeroU8>, v: u8) -> bool {
    match r {
        Some(x) => x@ == v && v != 0,
        None => v == 0,
    }
}

impl UsbDeviceDescriptor {
    pub fn usb_version(&self) -> (r: UsbVersion)
        ensures
            r.0 == self.bcdUSB@,
    {
        UsbVersion(self.bcdUSB.as_u16())
    }

    pub fn vid(&self) -> (r: UsbVendorId)
        ensures
            r.0 == self.idVendor@,
    {
        UsbVendorId(self.idVendor.as_u16())
    }

    pub fn pid(&self) -> (r: UsbProductId)
        ensures
            r.0 == self.idProduct@,
    {
        UsbProductId(self.idProduct.as_u16())
    }

    pub fn class(&self) -> (r: UsbClass)
        ensures
            r.0 == class_code(self.bDeviceClass.0, self.bDeviceSubClass.0, self.bDeviceProtocol.0),
    {
        UsbClass::new(self.bDeviceClass, self.bDeviceSubClass, self.bDeviceProtocol)
    }

    pub fn max_packet_size(&self) -> (r: usize)
        ensures
            r == self.bMaxPacketSize0,
    {
        self.bMaxPacketSize0 as usize
    }

    pub fn manufacturer_index(&self) -> (r: Option<NonZeroU8>)
        ensures
            index_of(r, self.iManufacturer),
    {
        NonZeroU8::new(self.iManufacturer)
    }

    pub fn product_index(&self) -> (r: Option<NonZeroU8>)
        ensures
            index_of(r, self.iProduct),
    {
        NonZeroU8::new(self.iProduct)
    }

    pub fn serial_number_index(&self) -> (r: Option<NonZeroU8>)
        ensures
            index_of(r, self.iSerialNumber),
    {
        NonZeroU8::new(self.iSerialNumber)
    }
}

impl UsbConfigurationDescriptor {
    pub fn total_length(&self) -> (r: UsbLength)
        ensures
            r.0 == self.wTotalLength@,
    {
        self.wTotalLength.as_length()
    }

    pub fn num_interface(&self) -> (r: u8)
        ensures
            r == self.bNumInterface,
    {
        self.bNumInterface
    }

    pub fn configuration_value(&self) -> (r: UsbConfigurationValue)
        ensures
            r == self.bConfigurationValue,
    {
        self.bConfigurationValue
    }

    pub fn configuration_index(&self) -> (r: Option<NonZeroU8>)
        ensures
            index_of(r, self.iConfiguration),
    {
        NonZeroU8::new(self.iConfiguration)
    }

    pub fn max_power(&self) -> (r: u8)
        ensures
            r == self.bMaxPower,
    {
        self.bMaxPower
    }
}

impl UsbStringDescriptor {
    pub fn lang_id(&self) -> (r: UsbLangId)
        ensures
            r.0 == self.wLangId@,
    {
        UsbLangId(self.wLangId.as_u16())
    }
}

impl UsbInterfaceDescriptor {
    pub fn if_no(&self) -> (r: UsbInterfaceNumber)
        ensures
            r == self.bInterfaceNumber,
    {
        self.bInterfaceNumber
    }

    pub fn alternate_setting(&self) -> (r: UsbAlternateSettingNumber)
        ensures
            r == self.bAlternateSetting,
    {
        self.bAlternateSetting
    }

    pub fn num_endpoints(&self) -> (r: usize)
        ensures
            r == self.bNumEndpoints,
    {
        self.bNumEndpoints as usize
    }

    pub fn interface_index(&self) -> (r: Option<NonZeroU8>)
        ensures
            index_of(r, self.iInterface),
    {
        NonZeroU8::new(self.iInterface)
    }

    pub fn class(&self) -> (r: UsbClass)
        ensures
            r.0 == class_code(self.bInterfaceClass.0, self.bInterfaceSubClass.0, self.bInterfaceProtocol.0),
    {
        UsbClass::new(self.bInterfaceClass, self.bInterfaceSubClass, self.bInterfaceProtocol)
    }
}

impl UsbEndpointDescriptor {
    pub fn endpoint_address(&self) -> (r: Option<UsbEndpointAddress>)
        ensures
            match r {
                Some(a) => a.0@ == self.bEndpointAddress && self.bEndpointAddress != 0,
                None => self.bEndpointAddress == 0,
            },
    {
        match NonZeroU8::new(self.bEndpointAddress) {
            Some(v) => Some(UsbEndpointAddress(v)),
            None => None,
        }
    }

    pub fn ep_type(&self) -> (r: UsbEndpointType)
        ensures
            UsbEndpointType::spec_from_code(self.bmAttributes % 4) == Some(r),
    {
        UsbEndpointType::from_u8(self.bmAttributes)
    }

    pub fn max_packet_size(&self) -> (r: UsbLength)
        ensures
            r.0 == self.wMaxPacketSize@,
    {
        UsbLength(self.wMaxPacketSize.as_u16())
    }

    pub fn interval(&self) -> (r: u8)
        ensures
            r == self.bInterval,
    {
        self.bInterval
    }
}

impl UsbDeviceQualifierDescriptor {
    pub fn class(&self) -> (r: UsbClass)
        ensures
            r.0 == class_code(self.bDeviceClass.0, self.bDeviceSubClass.0, self.bDeviceProtocol.0),
    {
        UsbClass::new(self.bDeviceClass, self.bDeviceSubClass, self.bDeviceProtocol)
    }
}

impl InterfaceAssociationDescriptor {
    pub fn class(&self) -> (r: UsbClass)
        ensures
            r.0 == class_code(self.bFunctionClass.0, self.bFunctionSubClass.0, self.bFunctionProtocol.0),
    {
        UsbClass::new(self.bFunctionClass, self.bFunctionSubClass, self.bFunctionProtocol)
    }
}

impl UsbBinaryObjectStoreDescriptor {
    pub fn total_length(&self) -> (r: UsbLength)
        ensures
            r.0 == self.wTotalLength@,
    {
        self.wTotalLength.as_length()
    }

    pub fn num_children(&self) -> (r: usize)
        ensures
            r == self.bNumDeviceCaps,
    {
        self.bNumDeviceCaps as usize
    }
}

impl UsbDeviceCapabilityDescriptor for UsbSsDeviceCapability {
    open spec fn spec_capability_kind() -> UsbDeviceCapabilityType {
        UsbDeviceCapabilityType::SuperspeedUsb
    }

    fn capability_type(&self) -> (r: UsbDeviceCapabilityType)
        ensures
            r == self.bDevCapabilityType,
    {
        self.bDevCapabilityType
    }
}

impl UsbSsDeviceCapability {
    pub fn u1_dev_exit_lat(&self) -> (r: usize)
        ensures
            r == self.bU1DevExitLat,
    {
        self.bU1DevExitLat as usize
    }

    pub fn u2_dev_exit_lat(&self) -> (r: usize)
        ensures
            r == self.wU2DevExitLat@,
    {
        self.wU2DevExitLat.as_u16() as usize
    }
}

/// USB Container Id capability
#[allow(non_snake_case)]
#[derive(Debug, Clone, Copy)]
pub struct UsbContainerIdCapability {
    pub bLength: u8,
    pub bDescriptorType: UsbDescriptorType,
    pub bDevCapabilityType: UsbDeviceCapabilityType,
    pub bReserved: u8,
    pub ContainerID: [u8; 16],
}

impl UsbDescriptor for UsbContainerIdCapability {
    open spec fn spec_descriptor_type() -> UsbDescriptorType {
        UsbDescriptorType::DeviceCapability
    }

    open spec fn spec_accepts(b: Seq<u8>) -> bool {
        descriptor_header_ok(b, UsbDescriptorType::DeviceCapability, 20)
            && UsbDeviceCapabilityType::spec_from_code(b[2]) is Some
    }

    open spec fn spec_parsed(b: Seq<u8>, d: Self) -> bool {
        &&& d.bLength == b[0]
        &&& d.bDescriptorType == UsbDescriptorType::DeviceCapability
        &&& d.bDevCapabilityType == UsbDeviceCapabilityType::spec_from_code(b[2]).unwrap()
        &&& d.bReserved == b[3]
        &&& forall|i: int| 0 <= i < 16 ==> #[trigger] d.ContainerID@[i] == b[4 + i]
    }

    open spec fn spec_len(&self) -> u8 {
        self.bLength
    }

    fn len(&self) -> (r: usize) {
        self.bLength as usize
    }

    fn descriptor_type(&self) -> (r: UsbDescriptorType)
        ensures
            r == self.bDescriptorType,
    {
        self.bDescriptorType
    }

    fn from_slice(slice: &[u8]) -> (r: Option<Self>) {
        if descriptor_header_check(slice, UsbDescriptorType::DeviceCapability, 20)
            && UsbDeviceCapabilityType::from_code(slice[2]).is_some() {
            let mut id = [0u8; 16];
            let mut i: usize = 0;
            while i < 16
                invariant
                    i <= 16,
                    slice@.len() >= 20,
                    forall|j: int| 0 <= j < i ==> #[trigger] id@[j] == slice@[4 + j],
                decreases 16 - i,
            {
                id[i] = slice[4 + i];
                i = i + 1;
            }
            Some(UsbContainerIdCapability {
                bLength: slice[0],
                bDescriptorType: UsbDescriptorType::DeviceCapability,
                bDevCapabilityType: UsbDeviceCapabilityType::from_u8(slice[2]),
                bReserved: slice[3],
                ContainerID: id,
            })
        } else {
            None
        }
    }
}

impl UsbDeviceCapabilityDescriptor for UsbContainerIdCapability {
    open spec fn spec_capability_kind() -> UsbDeviceCapabilityType {
        UsbDeviceCapabilityType::ContainerId
    }

    fn capability_type(&self) -> (r: UsbDeviceCapabilityType)
        ensures
            r == self.bDevCapabilityType,
    {
        self.bDevCapabilityType
    }
}

impl UsbContainerIdCapability {
    pub fn uuid(&self) -> (r: &[u8; 16])
        ensures
            r@ == self.ContainerID@,
    {
        &self.ContainerID
    }
}



/// USB HID Report Descriptor reference
#[allow(non_snake_case)]
#[derive(Debug, Clone, Copy)]
pub struct UsbHidReportDescriptor {
    pub bDescriptorType: UsbDescriptorType,
    pub wDescriptorLength: UsbWord,
}

/// USB HID Class Descriptor, with the class descriptors that it lists.
#[allow(non_snake_case)]
#[derive(Debug)]
pub struct UsbHidClassDescriptor {
    pub bLength: u8,
    pub bDescriptorType: UsbDescriptorType,
    pub bcdHID: UsbWord,
    pub bCountryCode: u8,
    pub bNumDescriptors: u8,
    pub bDescriptorType_: UsbDescriptorType,
    pub wDescriptorLength_: UsbWord,
    /// The class descriptor entries that the descriptor lists, the first one included.
    pub children: Vec<(UsbDescriptorType, UsbLength)>,
}

/// The `i`-th class descriptor entry that the HID descriptor `b` lists.
pub open spec fn hid_child_at(b: Seq<u8>, i: int) -> (UsbDescriptorType, UsbLength) {
    (
        UsbDescriptorType::spec_from_code(b[6 + 3 * i]).unwrap(),
        UsbLength(le16(b[7 + 3 * i], b[8 + 3 * i])),
    )
}

impl UsbHidClassDescriptor {
    /// The class descriptor entries that the descriptor lists.
    pub open spec fn spec_children(&self) -> Seq<(UsbDescriptorType, UsbLength)> {
        self.children@
    }

    pub fn num_descriptors(&self) -> (r: usize)
        ensures
            r == self.bNumDescriptors,
    {
        self.bNumDescriptors as usize
    }

    pub fn first_child(&self) -> (r: (UsbDescriptorType, u16))
        ensures
            r.0 == self.bDescriptorType_,
            r.1 == self.wDescriptorLength_@,
    {
        (self.bDescriptorType_, self.wDescriptorLength_.as_u16())
    }

    /// The class descriptor entries, in the order in which the descriptor lists them.
    pub fn children(&self) -> (r: Vec<(UsbDescriptorType, UsbLength)>)
        ensures
            r@ == self.spec_children(),
    {
        let mut v: Vec<(UsbDescriptorType, UsbLength)> = Vec::new();
        let mut i: usize = 0;
        while i < self.children.len()
            invariant
                i <= self.children@.len(),
                v@ == self.children@.subrange(0, i as int),
            decreases self.children@.len() - i,
        {
            v.push(self.children[i]);
            i = i + 1;
        }
        v
    }
}

impl UsbDescriptor for UsbHidClassDescriptor {
    open spec fn spec_descriptor_type() -> UsbDescriptorType {
        UsbDescriptorType::HidClass
    }

    open spec fn spec_accepts(b: Seq<u8>) -> bool {
        &&& descriptor_header_ok(b, UsbDescriptorType::HidClass, 9)
        &&& b.len() >= 6 + 3 * b[5]
        &&& UsbDescriptorType::spec_from_code(b[6]) is Some
        &&& forall|i: int| 0 <= i < b[5] ==> (#[trigger] UsbDescriptorType::spec_from_code(b[6 + 3 * i])) is Some
    }

    open spec fn spec_parsed(b: Seq<u8>, d: Self) -> bool {
        &&& d.bLength == b[0]
        &&& d.bDescriptorType == UsbDescriptorType::HidClass
        &&& d.bcdHID == UsbWord::spec_from_bytes(b[2], b[3])
        &&& d.bCountryCode == b[4]
        &&& d.bNumDescriptors == b[5]
        &&& d.bDescriptorType_ == UsbDescriptorType::spec_from_code(b[6]).unwrap()
        &&& d.wDescriptorLength_ == UsbWord::spec_from_bytes(b[7], b[8])
        &&& d.spec_children().len() == b[5]
        &&& forall|i: int| 0 <= i < b[5] ==> #[trigger] d.spec_children()[i] == hid_child_at(b, i)
    }

    open spec fn spec_len(&self) -> u8 {
        self.bLength
    }

    fn len(&self) -> (r: usize) {
        self.bLength as usize
    }

    fn descriptor_type(&self) -> (r: UsbDescriptorType)
        ensures
            r == self.bDescriptorType,
    {
        self.bDescriptorType
    }

    fn from_slice(slice: &[u8]) -> (r: Option<Self>) {
        if !descriptor_header_check(slice, UsbDescriptorType::HidClass, 9) {
            return None;
        }
        let n = slice[5] as usize;
        if slice.len() < 6 + 3 * n {
            return None;
        }
        let first_type = match UsbDescriptorType::from_code(slice[6]) {
            Some(t) => t,
            None => return None,
        };
        let mut children: Vec<(UsbDescriptorType, UsbLength)> = Vec::new();
        let mut i: usize = 0;
        while i < n
            invariant
                n == slice@[5],
                slice@.len() >= 6 + 3 * n,
                i <= n,
                children@.len() == i,
                forall|j: int| 0 <= j < i ==> (#[trigger] UsbDescriptorType::spec_from_code(slice@[6 + 3 * j])) is Some,
                forall|j: int| 0 <= j < i ==> #[trigger] children@[j] == hid_child_at(slice@, j),
            decreases n - i,
        {
            let ty = match UsbDescriptorType::from_code(slice[6 + 3 * i]) {
                Some(t) => t,
                None => {
                    proof {
                        assert(UsbDescriptorType::spec_from_code(slice@[6 + 3 * i]) is None);
                    }
                    return None;
                },
            };
            let len = UsbWord::from_bytes(slice[7 + 3 * i], slice[8 + 3 * i]).as_length();
            children.push((ty, len));
            i = i + 1;
        }
        Some(UsbHidClassDescriptor {
            bLength: slice[0],
            bDescriptorType: UsbDescriptorType::HidClass,
            bcdHID: UsbWord::from_bytes(slice[2], slice[3]),
            bCountryCode: slice[4],
            bNumDescriptors: slice[5],
            bDescriptorType_: first_type,
            wDescriptorLength_: UsbWord::from_bytes(slice[7], slice[8]),
            children,
        })
    }
}

/// Port number of a hub, counted from one.
#[derive(Debug, Clone, Copy, PartialEq, Eq, PartialOrd, Ord, Structural)]
pub struct UsbHubPortNumber(pub NonZeroU8);

/// The port numbers `1..=n`, in order.
fn port_numbers(n: u8) -> (r: Vec<UsbHubPortNumber>)
    ensures
        r@.len() == n,
        forall|i: int| 0 <= i < n ==> #[trigger] r@[i].0@ == i + 1,
{
    let mut v: Vec<UsbHubPortNumber> = Vec::new();
    let mut i: u8 = 0;
    while i < n
        invariant
            i <= n,
            v@.len() == i,
            forall|j: int| 0 <= j < i ==> #[trigger] v@[j].0@ == j + 1,
        decreases n - i,
    {
        let p = match NonZeroU8::new(i + 1) {
            Some(p) => p,
            None => {
                return v;
            },
        };
        v.push(UsbHubPortNumber(p));
        i = i + 1;
    }
    v
}

impl Usb2HubDescriptor {
    pub fn num_ports(&self) -> (r: usize)
        ensures
            r == self.bNbrPorts,
    {
        self.bNbrPorts as usize
    }

    /// The ports of the hub, `1..=num_ports()`.
    pub fn ports(&self) -> (r: Vec<UsbHubPortNumber>)
        ensures
            r@.len() == self.bNbrPorts,
            forall|i: int| 0 <= i < self.bNbrPorts ==> #[trigger] r@[i].0@ == i + 1,
    {
        port_numbers(self.bNbrPorts)
    }

    pub fn characteristics(&self) -> (r: Usb2HubCharacterisrics)
        ensures
            r.0 == self.wHubCharacteristics@,
    {
        Usb2HubCharacterisrics(self.wHubCharacteristics.as_u16())
    }

    /// Time in milliseconds (`bPwrOn2PwrGood` counts 2 ms intervals) from the time the
    /// power-on sequence begins on a port until power is good on that port.
    pub fn power_on_to_power_good(&self) -> (r: u64)
        ensures
            r == self.bPwrOn2PwrGood * 2,
    {
        self.bPwrOn2PwrGood as u64 * 2
    }

    pub fn device_removable(&self) -> (r: u8)
        ensures
            r == self.DeviceRemovable,
    {
        self.DeviceRemovable
    }
}

#[derive(Debug, Clone, Copy, PartialEq, Eq, PartialOrd, Ord, Structural)]
pub struct Usb2HubCharacterisrics(pub u16);

impl Usb2HubCharacterisrics {
    pub fn is_compound_device(&self) -> (r: bool)
        ensures
            r == ((self.0 / 4) % 2 == 1),
    {
        (self.0 / 4) % 2 == 1
    }

    /// TT think time.
    pub fn ttt(&self) -> (r: usize)
        ensures
            r == (self.0 / 32) % 4,
    {
        ((self.0 / 32) % 4) as usize
    }

    pub fn supports_port_indicators(&self) -> (r: bool)
        ensures
            r == ((self.0 / 128) % 2 == 1),
    {
        (self.0 / 128) % 2 == 1
    }
}

impl Usb3HubDescriptor {
    pub fn num_ports(&self) -> (r: usize)
        ensures
            r == self.bNbrPorts,
    {
        self.bNbrPorts as usize
    }

    /// The ports of the hub, `1..=num_ports()`.
    pub fn ports(&self) -> (r: Vec<UsbHubPortNumber>)
        ensures
            r@.len() == self.bNbrPorts,
            forall|i: int| 0 <= i < self.bNbrPorts ==> #[trigger] r@[i].0@ == i + 1,
    {
        port_numbers(self.bNbrPorts)
    }

    pub fn characteristics(&self) -> (r: Usb3HubCharacterisrics)
        ensures
            r.0 == self.wHubCharacteristics@,
    {
        Usb3HubCharacterisrics(self.wHubCharacteristics.as_u16())
    }

    /// Time in milliseconds (`bPwrOn2PwrGood` counts 2 ms intervals) from the time the
    /// power-on sequence begins on a port until power is good on that port.
    pub fn power_on_to_power_good(&self) -> (r: u64)
        ensures
            r == self.bPwrOn2PwrGood * 2,
    {
        self.bPwrOn2PwrGood as u64 * 2
    }

    pub fn device_removable(&self) -> (r: u16)
        ensures
            r == self.DeviceRemovable@,
    {
        self.DeviceRemovable.as_u16()
    }
}

#[derive(Debug, Clone, Copy, PartialEq, Eq, PartialOrd, Ord, Structural)]
pub struct Usb3HubCharacterisrics(pub u16);

impl Usb3HubCharacterisrics {
    pub fn is_compound_device(&self) -> (r: bool)
        ensures
            r == ((self.0 / 4) % 2 == 1),
    {
        (self.0 / 4) % 2 == 1
    }
}

/// The number of hub tiers that a route string value names: the position of its
/// highest non-zero nibble, five for any value above `0xFFFF`.
pub open spec fn route_depth(raw: u32) -> nat {
    if raw == 0 {
        0
    } else if raw <= 0xF {
        1
    } else if raw <= 0xFF {
        2
    } else if raw <= 0xFFF {
        3
    } else if raw <= 0xFFFF {
        4
    } else {
        5
    }
}

/// Sixteen to the power `d`.
pub open spec fn pow16(d: nat) -> nat
    decreases d,
{
    if d == 0 {
        1
    } else {
        16 * pow16((d - 1) as nat)
    }
}

/// USB3 Route String
#[derive(Debug, Clone, Copy, PartialEq, Eq, PartialOrd, Ord, Structural)]
pub struct UsbRouteString(u32);

impl View for UsbRouteString {
    type V = u32;

    closed spec fn view(&self) -> u32 {
        self.0
    }
}

impl Default for UsbRouteString {
    fn default() -> (r: Self)
        ensures
            r@ == 0,
    {
        Self(0)
    }
}

impl UsbRouteString {
    /// Since a valid Route String is 20 bits, a valid mask is 0xFFFFF.
    pub const VALID_MASK: u32 = 0xF_FFFF;
    /// Max depth is 5
    pub const MAX_DEPTH: usize = 5;

    /// Empty route (root)
    pub fn empty() -> (r: Self)
        ensures
            r@ == 0,
    {
        Self(0)
    }

    pub fn from_raw(raw: u32) -> (r: Self)
        ensures
            r@ == raw % 0x10_0000,
    {
        Self(raw % 0x10_0000)
    }

    pub fn as_u32(&self) -> (r: u32)
        ensures
            r == self@,
    {
        self.0
    }

    pub fn is_empty(&self) -> (r: bool)
        ensures
            r == (self@ == 0),
    {
        self.0 == 0
    }

    pub fn depth(&self) -> (r: usize)
        ensures
            r == route_depth(self@),
    {
        let v = self.0;
        if v == 0 {
            0
        } else if v <= 0xF {
            1
        } else if v <= 0xFF {
            2
        } else if v <= 0xFFF {
            3
        } else if v <= 0xFFFF {
            4
        } else {
            5
        }
    }

    /// Appends the hub port as the next tier of the route; port numbers above 15 are
    /// written as 15. A route that already has five tiers is returned as the error.
    pub fn appending(&self, port: UsbHubPortNumber) -> (r: Result<Self, Self>)
        ensures
            route_depth(self@) < 5 ==> r == Ok::<Self, Self>(Self::spec_appended(*self, port.0@)),
            route_depth(self@) >= 5 ==> r == Err::<Self, Self>(*self),
    {
        let lpc: u32 = if port.0.get() < 15 { port.0.get() as u32 } else { 15 };
        let raw = self.0;
        let depth = self.depth();
        if depth < Self::MAX_DEPTH {
            let unit: u32 = if depth == 0 {
                1
            } else if depth == 1 {
                0x10
            } else if depth == 2 {
                0x100
            } else if depth == 3 {
                0x1000
            } else {
                0x1_0000
            };
            proof {
                reveal_with_fuel(pow16, 5);
                assert(lpc * unit <= 15 * 0x1_0000) by (nonlinear_arith)
                    requires
                        lpc <= 15,
                        unit <= 0x1_0000,
                ;
            }
            Ok(Self(raw + lpc * unit))
        } else {
            Err(*self)
        }
    }

    /// The route that results from writing the port number `port` (at most 15) as the
    /// next tier after the last one.
    pub closed spec fn spec_appended(r: Self, port: u8) -> Self {
        let lpc = if port < 15 { port as nat } else { 15nat };
        Self((r.0 + lpc * pow16(route_depth(r.0))) as u32)
    }

    /// The value of an appended route.
    pub broadcast proof fn lemma_appended_value(r: Self, port: u8)
        requires
            route_depth(r@) < 5,
        ensures
            #[trigger] Self::spec_appended(r, port)@ == r@ + (if port < 15 { port as nat } else { 15nat })
                * pow16(route_depth(r@)),
    {
        reveal_with_fuel(pow16, 5);
        let d = route_depth(r.0);
        let lpc = if port < 15 { port as nat } else { 15nat };
        let p = pow16(d);
        assert(p <= 0x1_0000);
        assert(lpc * p <= 15 * 0x1_0000) by (nonlinear_arith)
            requires
                lpc <= 15,
                p <= 0x1_0000,
        ;
    }

    pub fn append(&mut self, port: UsbHubPortNumber) -> (r: Result<(), ()>)
        ensures
            route_depth(old(self)@) < 5 ==> r is Ok && *final(self) == Self::spec_appended(*old(self), port.0@),
            route_depth(old(self)@) >= 5 ==> r is Err && *final(self) == *old(self),
    {
        match self.appending(port) {
            Ok(v) => {
                *self = v;
                Ok(())
            },
            Err(_) => Err(()),
        }
    }
}

#[allow(non_snake_case)]
#[derive(Debug, Clone, Copy, PartialEq, Eq, Structural)]
pub struct UsbControlSetupData {
    pub bmRequestType: UsbControlRequestBitmap,
    pub bRequest: UsbControlRequest,
    pub wValue: u16,
    pub wIndex: u16,
    pub wLength: UsbLength,
}

impl UsbControlSetupData {
    pub fn request(request_type: UsbControlRequestBitmap, request: UsbControlRequest) -> (r: Self)
        ensures
            r == (UsbControlSetupData {
                bmRequestType: request_type,
                bRequest: request,
                wValue: 0,
                wIndex: 0,
                wLength: UsbLength(0),
            }),
    {
        Self {
            bmRequestType: request_type,
            bRequest: request,
            wValue: 0,
            wIndex: 0,
            wLength: UsbLength(0),
        }
    }

    pub fn value(self, value: u16) -> (r: Self)
        ensures
            r == (UsbControlSetupData { wValue: value, ..self }),
    {
        let mut s = self;
        s.wValue = value;
        s
    }

    pub fn index(self, index: u16) -> (r: Self)
        ensures
            r == (UsbControlSetupData { wIndex: index, ..self }),
    {
        let mut s = self;
        s.wIndex = index;
        s
    }

    pub fn index_if(self, if_no: UsbInterfaceNumber) -> (r: Self)
        ensures
            r == (UsbControlSetupData { wIndex: if_no.0 as u16, ..self }),
    {
        self.index(if_no.0 as u16)
    }

    pub fn length(self, length: UsbLength) -> (r: Self)
        ensures
            r == (UsbControlSetupData { wLength: length, ..self }),
    {
        let mut s = self;
        s.wLength = length;
        s
    }

    /// A GET_DESCRIPTOR request for the descriptor of type `desc_type` with index `index`.
    pub fn get_descriptor(
        request_type: UsbControlRequestBitmap,
        desc_type: UsbDescriptorType,
        index: u8,
        size: UsbLength,
    ) -> (r: Self)
        ensures
            r == (UsbControlSetupData {
                bmRequestType: request_type,
                bRequest: UsbControlRequest(6),
                wValue: (desc_type.spec_code() as int * 256 + index as int) as u16,
                wIndex: 0,
                wLength: size,
            }),
    {
        Self::request(request_type, UsbControlRequest(6))
            .value((desc_type.code() as u16) * 256 + index as u16)
            .length(size)
    }

    /// The eight bytes of the setup packet in the order in which they go on the bus.
    pub fn to_bytes(&self) -> (r: [u8; 8])
        ensures
            r@ == seq![
                self.bmRequestType.0,
                self.bRequest.0,
                (self.wValue % 256) as u8,
                (self.wValue / 256) as u8,
                (self.wIndex % 256) as u8,
                (self.wIndex / 256) as u8,
                (self.wLength.0 % 256) as u8,
                (self.wLength.0 / 256) as u8,
            ],
    {
        let r = [
            self.bmRequestType.0,
            self.bRequest.0,
            (self.wValue % 256) as u8,
            (self.wValue / 256) as u8,
            (self.wIndex % 256) as u8,
            (self.wIndex / 256) as u8,
            (self.wLength.0 % 256) as u8,
            (self.wLength.0 / 256) as u8,
        ];
        proof {
            assert(r@ =~= seq![
                self.bmRequestType.0,
                self.bRequest.0,
                (self.wValue % 256) as u8,
                (self.wValue / 256) as u8,
                (self.wIndex % 256) as u8,
                (self.wIndex / 256) as u8,
                (self.wLength.0 % 256) as u8,
                (self.wLength.0 / 256) as u8,
            ]);
        }
        r
    }
}

#[derive(Debug, Clone, Copy, PartialEq, Eq, PartialOrd, Ord, Structural)]
pub struct UsbControlRequestBitmap(pub u8);

impl UsbControlRequestBitmap {
    pub fn new(
        device_to_host: bool,
        request_type: UsbControlRequestType,
        target: UsbControlRequestTarget,
    ) -> (r: Self)
        ensures
            r.0 == (if device_to_host { 0x80int } else { 0 }) + request_type.spec_code() * 0x20
                + target.spec_code(),
    {
        let dir: u8 = if device_to_host { 0x80 } else { 0 };
        Self(dir + request_type.code() * 0x20 + target.code())
    }

    pub fn is_device_to_host(&self) -> (r: bool)
        ensures
            r == (self.0 >= 0x80),
    {
        self.0 >= 0x80
    }
}

#[derive(Debug, Clone, Copy, PartialEq, Eq, PartialOrd, Ord, Structural)]
pub struct UsbControlRequest(pub u8);

impl UsbControlRequest {
    pub const GET_STATUS: u8 = 0;
    pub const CLEAR_FEATURE: u8 = 1;
    pub const SET_FEATURE: u8 = 3;
    pub const GET_DESCRIPTOR: u8 = 6;
    pub const SET_DESCRIPTOR: u8 = 7;
    pub const GET_CONFIGURATION: u8 = 8;
    pub const SET_CONFIGURATION: u8 = 9;
    pub const GET_INTERFACE: u8 = 0x0A;
    pub const SET_INTERFACE: u8 = 0x0B;
    pub const SET_SEL: u8 = 0x30;
    pub const SET_ISOCH_DELAY: u8 = 0x31;
    pub const HID_GET_REPORT: u8 = 1;
    pub const HID_SET_REPORT: u8 = 9;
    pub const HID_SET_PROTOCOL: u8 = 11;
    pub const SET_HUB_DEPTH: u8 = 12;
}

#[derive(Debug, Clone, Copy)]
pub struct Usb3ExitLatencyValues {
    pub u1sel: u8,
    pub u1pel: u8,
    pub u2sel: UsbWord,
    pub u2pel: UsbWord,
}

impl Usb3ExitLatencyValues {
    pub fn from_ss_dev_cap(ss_dev_cap: &UsbSsDeviceCapability) -> (r: Self)
        ensures
            r.u1sel == ss_dev_cap.bU1DevExitLat,
            r.u1pel == ss_dev_cap.bU1DevExitLat,
            r.u2sel == ss_dev_cap.wU2DevExitLat,
            r.u2pel == ss_dev_cap.wU2DevExitLat,
    {
        Self {
            u1sel: ss_dev_cap.bU1DevExitLat,
            u1pel: ss_dev_cap.bU1DevExitLat,
            u2sel: ss_dev_cap.wU2DevExitLat,
            u2pel: ss_dev_cap.wU2DevExitLat,
        }
    }
}

/// Endpoint address: endpoint number in bits 0-3, direction IN in bit 7.
#[derive(Debug, Clone, Copy, PartialEq, Eq, PartialOrd, Ord, Structural)]
pub struct UsbEndpointAddress(pub NonZeroU8);

impl UsbEndpointAddress {
    /// The address byte of endpoint `ep_no` (low four bits) in the given direction.
    pub open spec fn spec_address_byte(ep_no: u8, is_dir_in: bool) -> int {
        (ep_no % 16) as int + if is_dir_in { 0x80int } else { 0 }
    }

    pub fn new(ep_no: u8, is_dir_in: bool) -> (r: Option<Self>)
        ensures
            match r {
                Some(a) => a.0@ == Self::spec_address_byte(ep_no, is_dir_in),
                None => Self::spec_address_byte(ep_no, is_dir_in) == 0,
            },
    {
        let dir: u8 = if is_dir_in { 0x80 } else { 0 };
        match NonZeroU8::new((ep_no % 16) + dir) {
            Some(v) => Some(Self(v)),
            None => None,
        }
    }

    pub fn is_dir_in(&self) -> (r: bool)
        ensures
            r == (self.0@ >= 0x80),
    {
        self.0.get() >= 0x80
    }

    pub fn ep_no(&self) -> (r: usize)
        ensures
            r == self.0@ % 16,
    {
        (self.0.get() % 16) as usize
    }

    /// The endpoint number with the direction in bit 4.
    pub fn compact(&self) -> (r: u8)
        ensures
            r == self.0@ % 16 + if self.0@ >= 0x80 { 0x10int } else { 0 },
    {
        let c = self.0.get();
        (c % 16) + if c >= 0x80 { 0x10 } else { 0 }
    }
}



/// A version is four BCD digits `a b c d` (0xabcd) and reads `ab.c`: the first
/// two digits make the major number and the third is the minor one; the
/// fourth is not shown.
pub proof fn lemma_version_digits(a: u16, b: u16, c: u16, d: u16)
    requires
        a < 16,
        b < 16,
        c < 16,
        d < 16,
    ensures
        UsbVersion((a * 0x1000 + b * 0x100 + c * 0x10 + d) as u16).spec_major() == 10 * a + b,
        UsbVersion((a * 0x1000 + b * 0x100 + c * 0x10 + d) as u16).spec_minor() == c,
{
    let v = (a * 0x1000 + b * 0x100 + c * 0x10 + d) as u16;
    assert(v / 4096 % 16 == a && v / 256 % 16 == b && v / 16 % 16 == c) by (bit_vector)
        requires
            a < 16,
            b < 16,
            c < 16,
            d < 16,
            v == (a * 0x1000 + b * 0x100 + c * 0x10 + d) as u16,
    ;
}

} // verus!
