//! Peripheral Component Interconnect: configuration addresses, class codes, base
//! address registers and the table of devices found on the buses.

use vstd::prelude::*;
use core::ops::Add;
use vstd::std_specs::ops::{AddSpec, AddSpecImpl};
use vstd::std_specs::convert::FromSpecImpl;
use crate::hal::PhysicalAddress;
use crate::num::NonZeroU8;

verus! {

broadcast use PhysicalAddress::lemma_spec_new;

/// Address of a register in the configuration space of a PCI function.
#[derive(Debug, Clone, Copy, Default, PartialEq, Eq, PartialOrd, Ord, Structural)]
pub struct PciConfigAddress {
    bus: u8,
    dev: u8,
    fun: u8,
    register: u8,
}

impl PciConfigAddress {
    pub closed spec fn spec_bus(&self) -> u8 {
        self.bus
    }

    pub closed spec fn spec_dev(&self) -> u8 {
        self.dev
    }

    pub closed spec fn spec_fun(&self) -> u8 {
        self.fun
    }

    pub closed spec fn spec_register(&self) -> u8 {
        self.register
    }

    /// The address is determined by its four parts.
    pub broadcast proof fn lemma_ext(a: Self, b: Self)
        requires
            #[trigger] a.spec_bus() == #[trigger] b.spec_bus(),
            a.spec_dev() == b.spec_dev(),
            a.spec_fun() == b.spec_fun(),
            a.spec_register() == b.spec_register(),
        ensures
            a == b,
    {
    }

    /// The address with its register part replaced.
    pub open spec fn spec_register_set(&self, register: u8) -> Self {
        Self::spec_make(self.spec_bus(), self.spec_dev(), self.spec_fun(), register)
    }

    /// The address with the given four parts.
    pub closed spec fn spec_make(bus: u8, dev: u8, fun: u8, register: u8) -> Self {
        Self { bus, dev, fun, register }
    }

    pub broadcast proof fn lemma_make(bus: u8, dev: u8, fun: u8, register: u8)
        ensures
            #[trigger] Self::spec_make(bus, dev, fun, register).spec_bus() == bus,
            Self::spec_make(bus, dev, fun, register).spec_dev() == dev,
            Self::spec_make(bus, dev, fun, register).spec_fun() == fun,
            Self::spec_make(bus, dev, fun, register).spec_register() == register,
    {
    }

    /// The four parts as one number, ordered as the addresses are ordered.
    pub open spec fn spec_key(&self) -> int {
        self.spec_bus() as int * 0x100_0000 + self.spec_dev() as int * 0x1_0000
            + self.spec_fun() as int * 0x100 + self.spec_register() as int
    }

    pub fn bus(bus: u8) -> (r: Self)
        ensures
            r.spec_bus() == bus,
            r.spec_dev() == 0,
            r.spec_fun() == 0,
            r.spec_register() == 0,
    {
        Self { bus, dev: 0, fun: 0, register: 0 }
    }

    pub fn dev(self, dev: u8) -> (r: Self)
        ensures
            r.spec_bus() == self.spec_bus(),
            r.spec_dev() == dev,
            r.spec_fun() == self.spec_fun(),
            r.spec_register() == self.spec_register(),
    {
        Self { dev, ..self }
    }

    pub fn fun(self, fun: u8) -> (r: Self)
        ensures
            r.spec_bus() == self.spec_bus(),
            r.spec_dev() == self.spec_dev(),
            r.spec_fun() == fun,
            r.spec_register() == self.spec_register(),
    {
        Self { fun, ..self }
    }

    pub fn register(self, register: u8) -> (r: Self)
        ensures
            r.spec_bus() == self.spec_bus(),
            r.spec_dev() == self.spec_dev(),
            r.spec_fun() == self.spec_fun(),
            r.spec_register() == register,
    {
        Self { register, ..self }
    }

    pub fn get_bus(&self) -> (r: u8)
        ensures
            r == self.spec_bus(),
    {
        self.bus
    }

    pub fn get_dev(&self) -> (r: u8)
        ensures
            r == self.spec_dev(),
    {
        self.dev
    }

    pub fn get_fun(&self) -> (r: u8)
        ensures
            r == self.spec_fun(),
    {
        self.fun
    }

    pub fn get_register(&self) -> (r: u8)
        ensures
            r == self.spec_register(),
    {
        self.register
    }

    /// The value written to the configuration address port (0xCF8) to reach this register:
    /// enable bit, bus, device, function and the register's dword index.
    pub open spec fn spec_port_value(&self) -> u32 {
        0x8000_0000u32 | ((self.spec_bus() as u32) << 16u32) | ((self.spec_dev() as u32) << 11u32)
            | ((self.spec_fun() as u32) << 8u32) | ((self.spec_register() as u32) << 2u32)
    }

    /// Compares two addresses in their order (bus, device, function, register).
    pub fn key_lt(&self, other: &Self) -> (r: bool)
        ensures
            r == (self.spec_key() < other.spec_key()),
    {
        if self.bus != other.bus {
            self.bus < other.bus
        } else if self.dev != other.dev {
            self.dev < other.dev
        } else if self.fun != other.fun {
            self.fun < other.fun
        } else {
            self.register < other.register
        }
    }

    /// Whether two addresses are the same.
    pub fn same(&self, other: &Self) -> (r: bool)
        ensures
            r == (*self == *other),
            r == (self.spec_key() == other.spec_key()),
    {
        self.bus == other.bus && self.dev == other.dev && self.fun == other.fun && self.register
            == other.register
    }
}

impl From<PciConfigAddress> for u32 {
    fn from(val: PciConfigAddress) -> (r: u32) {
        0x8000_0000u32 | ((val.bus as u32) << 16u32) | ((val.dev as u32) << 11u32) | ((val.fun as u32)
            << 8u32) | ((val.register as u32) << 2u32)
    }
}

impl FromSpecImpl<PciConfigAddress> for u32 {
    open spec fn obeys_from_spec() -> bool {
        true
    }

    open spec fn from_spec(v: PciConfigAddress) -> u32 {
        v.spec_port_value()
    }
}

impl Add<u8> for PciConfigAddress {
    type Output = Self;

    /// The register `rhs` dwords after this one, wrapping within the 256 registers.
    fn add(self, rhs: u8) -> (r: Self) {
        let register = self.get_register().wrapping_add(rhs);
        self.register(register)
    }
}

impl AddSpecImpl<u8> for PciConfigAddress {
    open spec fn obeys_add_spec() -> bool {
        true
    }

    open spec fn add_req(self, rhs: u8) -> bool {
        true
    }

    closed spec fn add_spec(self, rhs: u8) -> Self {
        Self { register: ((self.register + rhs) % 256) as u8, ..self }
    }
}

impl PciConfigAddress {
    /// The register part of `a + n` is `a`'s register plus `n` modulo 256; the rest stays.
    pub broadcast proof fn lemma_add(a: Self, n: u8)
        ensures
            #[trigger] AddSpec::add_spec(a, n).spec_register() == (a.spec_register() + n) % 256,
            AddSpec::add_spec(a, n).spec_bus() == a.spec_bus(),
            AddSpec::add_spec(a, n).spec_dev() == a.spec_dev(),
            AddSpec::add_spec(a, n).spec_fun() == a.spec_fun(),
    {
    }
}

#[derive(Debug, Copy, Clone, Ord, PartialOrd, Eq, PartialEq, Structural)]
pub struct PciVendorId(pub u16);

impl PciVendorId {
    pub const VIRTIO_VALUE: u16 = 0x1AF4;

    /// Vendor ids 0x0000 and 0xFFFF mean that no function answers.
    pub fn is_valid(&self) -> (r: bool)
        ensures
            r == (self.0 != 0x0000 && self.0 != 0xFFFF),
    {
        self.0 != 0x0000 && self.0 != 0xFFFF
    }
}

#[derive(Debug, Copy, Clone, Ord, PartialOrd, Eq, PartialEq, Structural)]
pub struct PciDeviceId(pub u16);

impl PciDeviceId {
    pub const VIRTIO_MIN_VALUE: u16 = 0x1000;
    pub const VIRTIO_MAX_VALUE: u16 = 0x107F;

    /// Device ids 0x0000 and 0xFFFF are not valid.
    pub fn is_valid(&self) -> (r: bool)
        ensures
            r == (self.0 != 0x0000 && self.0 != 0xFFFF),
    {
        self.0 != 0x0000 && self.0 != 0xFFFF
    }
}


/// PCI command register bits.
#[derive(Debug, Clone, Copy, PartialEq, Eq, Structural)]
pub struct PciCommand(pub u32);

impl PciCommand {
    pub const IO_SPACE: u32 = 0b0000_0000_0000_0001;
    pub const MEM_SPACE: u32 = 0b0000_0000_0000_0010;
    pub const BUS_MASTER: u32 = 0b0000_0000_0000_0100;
    pub const INT_DISABLE: u32 = 0b0000_0100_0000_0000;

    pub open spec fn spec_bits(&self) -> u32 {
        self.0
    }

    pub fn bits(&self) -> (r: u32)
        ensures
            r == self.0,
    {
        self.0
    }

    pub fn from_bits_retain(bits: u32) -> (r: Self)
        ensures
            r.0 == bits,
    {
        Self(bits)
    }

    pub fn empty() -> (r: Self)
        ensures
            r.0 == 0,
    {
        Self(0)
    }

    pub fn contains(&self, other: Self) -> (r: bool)
        ensures
            r == (self.0 & other.0 == other.0),
    {
        self.0 & other.0 == other.0
    }

    /// The command register value with the bits of `val` set.
    pub fn union(self, val: Self) -> (r: Self)
        ensures
            r.0 == self.0 | val.0,
    {
        Self(self.0 | val.0)
    }

    /// The command register value with the bits of `val` cleared.
    pub fn difference(self, val: Self) -> (r: Self)
        ensures
            r.0 == self.0 & !val.0,
    {
        Self(self.0 & !val.0)
    }
}

/// The kind of a base address register.
#[derive(Debug, Clone, Copy, PartialEq, Eq, Structural)]
pub enum PciBarType {
    /// Isolated I/O (x86)
    IsolatedIO,
    /// Any 32bit MMIO
    Mmio32,
    /// Under 1MB MMIO (obsoleted)
    Mmio1MB,
    /// Any 64bit MMIO
    Mmio64,
    /// Reserved
    Reserved,
}

impl PciBarType {
    pub open spec fn spec_mask_bias(&self) -> u64 {
        match *self {
            PciBarType::IsolatedIO => !0x03u64,
            PciBarType::Mmio32 | PciBarType::Mmio1MB | PciBarType::Mmio64 => !0x0Fu64,
            PciBarType::Reserved => 0,
        }
    }

    /// The bits of a BAR that hold the address: all but the low flag bits.
    pub fn mask_bias(&self) -> (r: u64)
        ensures
            r == self.spec_mask_bias(),
    {
        match *self {
            PciBarType::IsolatedIO => !0x03u64,
            PciBarType::Mmio32 | PciBarType::Mmio1MB | PciBarType::Mmio64 => !0x0Fu64,
            PciBarType::Reserved => 0,
        }
    }

    /// The kind of BAR and its prefetchable bit, as the low bits of its raw value say.
    pub open spec fn spec_decode(raw: u32) -> (PciBarType, bool) {
        if raw & 1 == 0 {
            (
                if raw & 0x06 == 0x00 {
                    PciBarType::Mmio32
                } else if raw & 0x06 == 0x02 {
                    PciBarType::Mmio1MB
                } else if raw & 0x06 == 0x04 {
                    PciBarType::Mmio64
                } else {
                    PciBarType::Reserved
                },
                raw & 0x08 == 0x08,
            )
        } else {
            (PciBarType::IsolatedIO, false)
        }
    }

    pub fn decode(raw: u32) -> (r: (PciBarType, bool))
        ensures
            r == Self::spec_decode(raw),
    {
        if raw & 1 == 0 {
            let t = if raw & 0x06 == 0x00 {
                PciBarType::Mmio32
            } else if raw & 0x06 == 0x02 {
                PciBarType::Mmio1MB
            } else if raw & 0x06 == 0x04 {
                PciBarType::Mmio64
            } else {
                PciBarType::Reserved
            };
            (t, raw & 0x08 == 0x08)
        } else {
            (PciBarType::IsolatedIO, false)
        }
    }
}

#[derive(Debug, Clone, Copy, PartialEq, Eq, PartialOrd, Ord, Structural)]
pub struct PciBarIndex(pub u8);

/// PCI Base Address Register
#[derive(Debug, Clone, Copy, PartialEq, Eq, Structural)]
pub struct PciBar {
    base: PhysicalAddress,
    bar_type: PciBarType,
    scale: u8,
    is_prefetchable: bool,
    bar_index: PciBarIndex,
}

/// The value read back from a 64-bit BAR pair after all ones were written to both.
pub open spec fn probe64(probe: u32, probe_h: u32) -> u64 {
    (probe as u64) | ((probe_h as u64) << 32u64)
}

impl PciBar {
    pub closed spec fn spec_base(&self) -> PhysicalAddress {
        self.base
    }

    pub closed spec fn spec_bar_type(&self) -> PciBarType {
        self.bar_type
    }

    pub closed spec fn spec_scale(&self) -> u8 {
        self.scale
    }

    pub closed spec fn spec_is_prefetchable(&self) -> bool {
        self.is_prefetchable
    }

    pub closed spec fn spec_bar_index(&self) -> PciBarIndex {
        self.bar_index
    }

    /// What `from_registers` makes of the registers of BAR `index`.
    pub open spec fn spec_from_registers(r: Option<PciBar>, index: u8, raw: u32, raw_h: u32, probe: u32, probe_h: u32) -> bool
    {
                let (t, pf) = PciBarType::spec_decode(raw);
                if raw == 0 || t == PciBarType::Mmio1MB || t == PciBarType::Reserved {
                    r is None
                } else {
                    &&& r is Some
                    &&& r.unwrap().spec_bar_index() == PciBarIndex(index)
                    &&& r.unwrap().spec_bar_type() == t
                    &&& r.unwrap().spec_is_prefetchable() == pf
                    &&& t == PciBarType::IsolatedIO ==> r.unwrap().spec_base()@ == (raw & 0xFFFF_FFFC)
                        && r.unwrap().spec_scale() == (probe & 0xFFFF_FFFC).trailing_zeros()
                    &&& t == PciBarType::Mmio32 ==> r.unwrap().spec_base()@ == (raw & 0xFFFF_FFF0)
                        && r.unwrap().spec_scale() == (probe & 0xFFFF_FFF0).trailing_zeros()
                    &&& t == PciBarType::Mmio64 ==> r.unwrap().spec_base()@ == (((raw_h as u64)
                        << 32u64) | (raw & 0xFFFF_FFF0) as u64) && r.unwrap().spec_scale() == (
                    probe64(probe, probe_h) & !0x0Fu64).trailing_zeros()
                }
            }

    /// Reads a BAR from the values that the configuration space gave: `raw` the BAR
    /// register, `raw_h` the register after it (the high half of a 64-bit BAR), and
    /// `probe`, `probe_h` what the two read back after all ones were written to them.
    /// Only the registers that the BAR's kind uses are looked at. An empty BAR, an
    /// under-1MB BAR and a reserved one give `None`.
    pub fn from_registers(index: u8, raw: u32, raw_h: u32, probe: u32, probe_h: u32) -> (r: Option<
        PciBar,
    >)
        ensures
            Self::spec_from_registers(r, index, raw, raw_h, probe, probe_h),
    {
        if raw == 0 {
            return None;
        }
        let (bar_type, is_prefetchable) = PciBarType::decode(raw);
        match bar_type {
            PciBarType::IsolatedIO | PciBarType::Mmio32 => {
                let base = match bar_type {
                    PciBarType::IsolatedIO => PhysicalAddress::new((raw & 0xFFFF_FFFC) as u64),
                    _ => PhysicalAddress::new((raw & 0xFFFF_FFF0) as u64),
                };
                let bias = bar_type.mask_bias() as u32;
                proof {
                    assert(!0x03u64 as u32 == 0xFFFF_FFFCu32 && !0x0Fu64 as u32 == 0xFFFF_FFF0u32)
                        by (bit_vector);
                }
                let scale = (probe & bias).trailing_zeros() as u8;
                Some(PciBar {
                    bar_index: PciBarIndex(index),
                    base,
                    bar_type,
                    scale,
                    is_prefetchable,
                })
            },
            PciBarType::Mmio64 => {
                let base = PhysicalAddress::new(((raw_h as u64) << 32u64) | (raw & 0xFFFF_FFF0) as u64);
                let bias = bar_type.mask_bias();
                let data = (probe as u64) | ((probe_h as u64) << 32u64);
                let scale = (data & bias).trailing_zeros() as u8;
                Some(PciBar {
                    bar_index: PciBarIndex(index),
                    base,
                    bar_type,
                    scale,
                    is_prefetchable,
                })
            },
            PciBarType::Mmio1MB | PciBarType::Reserved => None,
        }
    }

    pub fn bar_index(&self) -> (r: PciBarIndex)
        ensures
            r == self.spec_bar_index(),
    {
        self.bar_index
    }

    pub fn base(&self) -> (r: PhysicalAddress)
        ensures
            r == self.spec_base(),
    {
        self.base
    }

    /// The size of the region, two to the power of the BAR's scale.
    pub fn size(&self) -> (r: usize)
        requires
            self.spec_scale() < usize::BITS,
        ensures
            r == 1usize << self.spec_scale(),
    {
        1usize << self.scale
    }

    pub fn bar_type(&self) -> (r: PciBarType)
        ensures
            r == self.spec_bar_type(),
    {
        self.bar_type
    }

    /// Returns whether or not this BAR is an x86 isolated IO.
    pub fn is_isolated_io(&self) -> (r: bool)
        ensures
            r == (self.spec_bar_type() == PciBarType::IsolatedIO),
    {
        match self.bar_type {
            PciBarType::IsolatedIO => true,
            _ => false,
        }
    }

    /// Returns whether or not this BAR is a memory-mapped IO.
    pub fn is_mmio(&self) -> (r: bool)
        ensures
            r == (self.spec_bar_type() != PciBarType::IsolatedIO),
    {
        !self.is_isolated_io()
    }

    pub fn is_prefetchable(&self) -> (r: bool)
        ensures
            r == self.spec_is_prefetchable(),
    {
        self.is_prefetchable
    }
}

#[derive(Debug, Clone, Copy, PartialEq, Eq, PartialOrd, Ord, Structural)]
pub struct PciCapabilityId(pub u8);

impl PciCapabilityId {
    pub const MSI_VALUE: u8 = 0x05;
    pub const MSI_X_VALUE: u8 = 0x11;
}

impl From<u8> for PciCapabilityId {
    fn from(raw: u8) -> (r: Self) {
        Self(raw)
    }
}

impl FromSpecImpl<u8> for PciCapabilityId {
    open spec fn obeys_from_spec() -> bool {
        true
    }

    open spec fn from_spec(v: u8) -> Self {
        PciCapabilityId(v)
    }
}

/// How much of a class code a `PciClass` specifies.
#[derive(Debug, Clone, Copy, PartialEq, Eq, Structural)]
pub enum PciClassType {
    Unspecified,
    ClassCode,
    Subclass,
    Interface,
}

impl PciClassType {
    /// How many of the three parts (class code, subclass, interface) are specified.
    pub open spec fn spec_level(&self) -> nat {
        match *self {
            PciClassType::Unspecified => 0,
            PciClassType::ClassCode => 1,
            PciClassType::Subclass => 2,
            PciClassType::Interface => 3,
        }
    }

    pub open spec fn spec_mask(&self) -> u32 {
        match *self {
            PciClassType::Unspecified => 0,
            PciClassType::ClassCode => 0xFF_00_00_00,
            PciClassType::Subclass => 0xFF_FF_00_00,
            PciClassType::Interface => 0xFF_FF_FF_00,
        }
    }

    pub open spec fn spec_from_raw(raw: u32) -> Self {
        if raw == 1 {
            PciClassType::ClassCode
        } else if raw == 2 {
            PciClassType::Subclass
        } else if raw == 3 {
            PciClassType::Interface
        } else {
            PciClassType::Unspecified
        }
    }

    /// The bits of the class value that the specified parts occupy.
    pub fn mask(&self) -> (r: u32)
        ensures
            r == self.spec_mask(),
    {
        match *self {
            PciClassType::Unspecified => 0,
            PciClassType::ClassCode => 0xFF_00_00_00,
            PciClassType::Subclass => 0xFF_FF_00_00,
            PciClassType::Interface => 0xFF_FF_FF_00,
        }
    }

    pub fn from_raw(raw: u32) -> (r: Self)
        ensures
            r == Self::spec_from_raw(raw),
    {
        if raw == 1 {
            Self::ClassCode
        } else if raw == 2 {
            Self::Subclass
        } else if raw == 3 {
            Self::Interface
        } else {
            Self::Unspecified
        }
    }
}

/// A type that defines the PCI class code and interface: class code in bits 24-31,
/// subclass in bits 16-23, programming interface in bits 8-15, and in bits 0-7 how
/// many of these parts are specified (see `PciClassType`).
#[derive(Debug, Clone, Copy, PartialEq, Eq, Structural)]
pub struct PciClass(pub u32);

impl PciClass {
    pub open spec fn spec_class_type(&self) -> PciClassType {
        PciClassType::spec_from_raw(self.0 & 0xFF)
    }

    /// Whether `self` falls within the class (or subclass, or interface) that `other` names.
    pub open spec fn spec_matches(&self, other: Self) -> bool {
        match other.spec_class_type() {
            PciClassType::Unspecified => false,
            _ => {
                if self.spec_class_type().spec_mask() < other.spec_class_type().spec_mask() {
                    false
                } else {
                    let mask = other.spec_class_type().spec_mask();
                    (self.0 & mask) == (other.0 & mask)
                }
            },
        }
    }

    /// Makes an instance from the PCI class code register (0x02)
    pub fn from_pci(data: u32) -> (r: Self)
        ensures
            r.0 == (data & 0xFF_FF_FF_00) | 3,
    {
        Self((data & 0xFF_FF_FF_00) | 3)
    }

    /// Makes an instance from class code.
    pub fn code(code: u8) -> (r: Self)
        ensures
            r.0 == ((code as u32) << 24u32) | 1,
    {
        Self(((code as u32) << 24u32) | 1)
    }

    /// Chains subclasses to the class code.
    pub fn sub(self, sub: u8) -> (r: Self)
        ensures
            r.0 == (self.0 & 0xFF_00_00_00) | ((sub as u32) << 16u32) | 2,
    {
        Self((self.0 & 0xFF_00_00_00) | ((sub as u32) << 16u32) | 2)
    }

    /// Chains the programming interface to the class code and subclasses.
    pub fn interface(self, interface: u8) -> (r: Self)
        ensures
            r.0 == (self.0 & 0xFF_FF_00_00) | ((interface as u32) << 8u32) | 3,
    {
        Self((self.0 & 0xFF_FF_00_00) | ((interface as u32) << 8u32) | 3)
    }

    pub fn class_type(&self) -> (r: PciClassType)
        ensures
            r == self.spec_class_type(),
    {
        PciClassType::from_raw(self.0 & 0xFF)
    }

    pub fn raw_data(&self) -> (r: u32)
        ensures
            r == self.0 & self.spec_class_type().spec_mask(),
    {
        self.0 & self.class_type().mask()
    }

    pub fn data(&self) -> (r: u32)
        ensures
            r == (self.0 & self.spec_class_type().spec_mask()) >> 8u32,
    {
        self.raw_data() >> 8u32
    }

    pub fn get_class_code(&self) -> (r: u8)
        ensures
            r == (self.0 >> 24u32) as u8,
    {
        (self.0 >> 24u32) as u8
    }

    pub fn get_sub_class(&self) -> (r: u8)
        ensures
            r == (self.0 >> 16u32) as u8,
    {
        (self.0 >> 16u32) as u8
    }

    pub fn get_interface(&self) -> (r: u8)
        ensures
            r == (self.0 >> 8u32) as u8,
    {
        (self.0 >> 8u32) as u8
    }

    /// Returns whether or not this instance matches the specified class code, subclass,
    /// or programming interface.
    pub fn matches(&self, other: Self) -> (r: bool)
        ensures
            r == self.spec_matches(other),
    {
        match other.class_type() {
            PciClassType::Unspecified => false,
            _ => {
                if self.class_type().mask() < other.class_type().mask() {
                    false
                } else {
                    let mask = other.class_type().mask();
                    (self.0 & mask) == (other.0 & mask)
                }
            },
        }
    }
}


/// The header type and the multi-function bit of a function, from register 3.
pub open spec fn spec_header_type(header_reg: u32) -> (u8, bool) {
    let raw = ((header_reg >> 16u32) & 0xFF) as u8;
    (raw & 0x7F, raw & 0x80 != 0)
}

/// A PCI function found on a bus.
#[derive(Debug)]
pub struct PciDevice {
    addr: PciConfigAddress,
    vendor_id: PciVendorId,
    device_id: PciDeviceId,
    subsys_vendor_id: PciVendorId,
    subsys_device_id: PciDeviceId,
    class_code: PciClass,
    has_multi_func: bool,
    secondary_bus_number: Option<NonZeroU8>,
    bars: Vec<PciBar>,
    capabilities: Vec<(PciCapabilityId, u8)>,
}

impl PciDevice {
    pub closed spec fn spec_address(&self) -> PciConfigAddress {
        self.addr
    }

    pub closed spec fn spec_vendor_id(&self) -> PciVendorId {
        self.vendor_id
    }

    pub closed spec fn spec_device_id(&self) -> PciDeviceId {
        self.device_id
    }

    pub closed spec fn spec_subsys_vendor_id(&self) -> PciVendorId {
        self.subsys_vendor_id
    }

    pub closed spec fn spec_subsys_device_id(&self) -> PciDeviceId {
        self.subsys_device_id
    }

    pub closed spec fn spec_class_code(&self) -> PciClass {
        self.class_code
    }

    pub closed spec fn spec_has_multi_func(&self) -> bool {
        self.has_multi_func
    }

    pub closed spec fn spec_secondary_bus_number(&self) -> Option<NonZeroU8> {
        self.secondary_bus_number
    }

    pub closed spec fn spec_bars(&self) -> Seq<PciBar> {
        self.bars@
    }

    pub closed spec fn spec_capabilities(&self) -> Seq<(PciCapabilityId, u8)> {
        self.capabilities@
    }

    /// Splits register 3 into the header type (without the multi-function bit) and
    /// whether the device has more functions.
    pub fn header_type(header_reg: u32) -> (r: (u8, bool))
        ensures
            r == spec_header_type(header_reg),
    {
        let raw = ((header_reg >> 16u32) & 0xFF) as u8;
        (raw & 0x7F, raw & 0x80 != 0)
    }

    /// Whether the register value `raw` holds a BAR that is kept.
    pub open spec fn spec_bar_present(raw: u32) -> bool {
        let (t, pf) = PciBarType::spec_decode(raw);
        !(raw == 0 || t == PciBarType::Mmio1MB || t == PciBarType::Reserved)
    }

    /// The registers of the BARs that a scan from `index` up to `limit` keeps:
    /// a kept 64-bit BAR takes its register and the next one.
    pub open spec fn spec_bar_scan(regs: Seq<(u32, u32)>, index: int, limit: int) -> Seq<int>
        decreases limit + 1 - index,
    {
        if index >= limit || index < 0 {
            Seq::empty()
        } else {
            let raw = regs[index].0;
            let present = Self::spec_bar_present(raw);
            let next = if present && PciBarType::spec_decode(raw).0 == PciBarType::Mmio64 {
                index + 2
            } else {
                index + 1
            };
            if present {
                seq![index] + Self::spec_bar_scan(regs, next, limit)
            } else {
                Self::spec_bar_scan(regs, next, limit)
            }
        }
    }

    /// The BARs of a function: `regs[i]` is BAR register `i` and what it read
    /// back after all ones were written to it; a header of type 0 has six, a
    /// bridge two, and the register after the last is read for a 64-bit BAR
    /// there. Each BAR is what `from_registers` makes of its registers.
    pub fn scan_bars(header_type: u8, regs: &[(u32, u32)]) -> (r: Vec<PciBar>)
        requires
            regs@.len() >= 7,
        ensures
            ({
                let idx = Self::spec_bar_scan(regs@, 0, if header_type == 0 { 6 } else if header_type == 1 { 2 } else { 0 });
                &&& r@.len() == idx.len()
                &&& forall|i: int| #![trigger r@[i]] 0 <= i < r@.len() ==> PciBar::spec_from_registers(
                    Some(r@[i]),
                    idx[i] as u8,
                    regs@[idx[i]].0,
                    regs@[idx[i] + 1].0,
                    regs@[idx[i]].1,
                    regs@[idx[i] + 1].1,
                )
            }),
    {
        let limit = Self::bar_limit(header_type);
        let ghost lim = limit as int;
        let mut bars: Vec<PciBar> = Vec::new();
        let mut index: usize = 0;
        let ghost mut found: Seq<int> = Seq::empty();
        assert(found + Self::spec_bar_scan(regs@, 0, lim) == Self::spec_bar_scan(regs@, 0, lim));
        while index < limit
            invariant
                limit <= 6,
                lim == limit as int,
                regs@.len() >= 7,
                index <= limit + 1,
                found + Self::spec_bar_scan(regs@, index as int, lim) == Self::spec_bar_scan(regs@, 0, lim),
                bars@.len() == found.len(),
                forall|i: int| 0 <= i < found.len() ==> 0 <= #[trigger] found[i] < lim,
                forall|i: int| #![trigger bars@[i]] 0 <= i < bars@.len() ==> PciBar::spec_from_registers(
                    Some(bars@[i]),
                    found[i] as u8,
                    regs@[found[i]].0,
                    regs@[found[i] + 1].0,
                    regs@[found[i]].1,
                    regs@[found[i] + 1].1,
                ),
            decreases limit + 1 - index,
        {
            let (raw, probe) = regs[index];
            let (raw_h, probe_h) = regs[index + 1];
            let bar = PciBar::from_registers(index as u8, raw, raw_h, probe, probe_h);
            let next = Self::next_bar_index(index, bar);
            let ghost rest = Self::spec_bar_scan(regs@, index as int, lim);
            let ghost after = Self::spec_bar_scan(regs@, next as int, lim);
            match bar {
                Some(b) => {
                    proof {
                        assert(rest == seq![index as int] + after);
                        assert(found + rest == found.push(index as int) + after);
                        found = found.push(index as int);
                    }
                    bars.push(b);
                },
                None => {
                    proof {
                        assert(rest == after);
                    }
                },
            }
            index = next;
        }
        proof {
            assert(Self::spec_bar_scan(regs@, index as int, lim) == Seq::<int>::empty());
            assert(found + Seq::<int>::empty() == found);
        }
        bars
    }

    /// How many BAR registers a header of this type has.
    pub fn bar_limit(header_type: u8) -> (r: usize)
        ensures
            r == if header_type == 0 {
                6usize
            } else if header_type == 1 {
                2usize
            } else {
                0usize
            },
    {
        match header_type {
            0x00 => 6,
            0x01 => 2,
            _ => 0,
        }
    }

    /// The index of the BAR register that follows the one at `index`: a 64-bit BAR
    /// takes two registers.
    pub fn next_bar_index(index: usize, bar: Option<PciBar>) -> (r: usize)
        requires
            index + 2 <= usize::MAX,
        ensures
            r == match bar {
                Some(b) => if b.spec_bar_type() == PciBarType::Mmio64 {
                    index + 2
                } else {
                    index + 1
                },
                None => index + 1,
            },
    {
        match bar {
            Some(b) => {
                if b.bar_type() == PciBarType::Mmio64 {
                    index + 2
                } else {
                    index + 1
                }
            },
            None => index + 1,
        }
    }

    /// The offset of the first capability, when the status register says that there
    /// is a capability list (bit 20 of the status/command register).
    pub fn capabilities_pointer(sta_cmd: u32, cap_reg: u32) -> (r: Option<u8>)
        ensures
            r == if sta_cmd & 0x0010_0000 != 0 {
                Some((cap_reg & 0xFF) as u8)
            } else {
                None::<u8>
            },
    {
        if sta_cmd & 0x0010_0000 != 0 {
            Some((cap_reg & 0xFF) as u8)
        } else {
            None
        }
    }

    /// The capability that starts at offset `cap_ptr` with the header `cap_head`: its
    /// id and register number, and the offset of the next one (zero at the end).
    pub fn capability_entry(cap_ptr: u8, cap_head: u32) -> (r: ((PciCapabilityId, u8), u8))
        ensures
            r.0.0 == PciCapabilityId((cap_head & 0xFF) as u8),
            r.0.1 == cap_ptr / 4,
            r.1 == ((cap_head >> 8u32) & 0xFF) as u8,
    {
        let current_register = cap_ptr / 4;
        let cap_id = PciCapabilityId((cap_head & 0xFF) as u8);
        let next_ptr = ((cap_head >> 8u32) & 0xFF) as u8;
        ((cap_id, current_register), next_ptr)
    }

    /// Builds the record of a function from its configuration registers: `dev_ven`
    /// (register 0), `subsys` (0x0B), `class_reg` (2), `header_reg` (3) and `bridge_reg`
    /// (6, used by bridges only), with the BARs and capabilities read from it. A function
    /// whose vendor or device id is not valid is absent.
    pub fn from_config(
        addr: PciConfigAddress,
        dev_ven: u32,
        subsys: u32,
        class_reg: u32,
        header_reg: u32,
        bridge_reg: u32,
        bars: Vec<PciBar>,
        capabilities: Vec<(PciCapabilityId, u8)>,
    ) -> (r: Option<PciDevice>)
        ensures
            ({
                let vendor = (dev_ven & 0xFFFF) as u16;
                let device = (dev_ven >> 16u32) as u16;
                if vendor == 0 || vendor == 0xFFFF || device == 0 || device == 0xFFFF {
                    r is None
                } else {
                    let (ht, multi) = spec_header_type(header_reg);
                    &&& r is Some
                    &&& r.unwrap().spec_address() == addr
                    &&& r.unwrap().spec_vendor_id() == PciVendorId(vendor)
                    &&& r.unwrap().spec_device_id() == PciDeviceId(device)
                    &&& r.unwrap().spec_subsys_vendor_id() == PciVendorId((subsys & 0xFFFF) as u16)
                    &&& r.unwrap().spec_subsys_device_id() == PciDeviceId((subsys >> 16u32) as u16)
                    &&& r.unwrap().spec_class_code() == PciClass((class_reg & 0xFF_FF_FF_00) | 3)
                    &&& r.unwrap().spec_has_multi_func() == multi
                    &&& r.unwrap().spec_secondary_bus_number() == if ht == 1 {
                        crate::num::NonZeroU8::spec_new(((bridge_reg >> 8u32) & 0xFF) as u8)
                    } else {
                        None
                    }
                    &&& r.unwrap().spec_bars() == bars@
                    &&& r.unwrap().spec_capabilities() == capabilities@
                }
            }),
    {
        let vendor_id = PciVendorId((dev_ven & 0xFFFF) as u16);
        let device_id = PciDeviceId((dev_ven >> 16u32) as u16);
        if !vendor_id.is_valid() || !device_id.is_valid() {
            return None;
        }
        let subsys_vendor_id = PciVendorId((subsys & 0xFFFF) as u16);
        let subsys_device_id = PciDeviceId((subsys >> 16u32) as u16);
        let class_code = PciClass::from_pci(class_reg);
        let (header_type, has_multi_func) = Self::header_type(header_reg);
        let secondary_bus_number = if header_type == 0x01 {
            NonZeroU8::new(((bridge_reg >> 8u32) & 0xFF) as u8)
        } else {
            None
        };
        Some(PciDevice {
            addr,
            vendor_id,
            device_id,
            subsys_vendor_id,
            subsys_device_id,
            class_code,
            has_multi_func,
            secondary_bus_number,
            bars,
            capabilities,
        })
    }

    /// The function numbers that are scanned after function `fun`: the others of a
    /// multi-function device, when `fun` is zero.
    pub fn further_functions(fun: u8, has_multi_func: bool) -> (r: Vec<u8>)
        ensures
            fun == 0 && has_multi_func ==> r@ == seq![1u8, 2, 3, 4, 5, 6, 7],
            !(fun == 0 && has_multi_func) ==> r@.len() == 0,
    {
        let mut v: Vec<u8> = Vec::new();
        if fun == 0 && has_multi_func {
            let mut f: u8 = 1;
            while f < 8
                invariant
                    1 <= f <= 8,
                    v@.len() == f - 1,
                    forall|i: int| 0 <= i < v@.len() ==> #[trigger] v@[i] == i + 1,
                decreases 8 - f,
            {
                v.push(f);
                f = f + 1;
            }
            assert(v@ =~= seq![1u8, 2, 3, 4, 5, 6, 7]);
        }
        v
    }

    pub fn address(&self) -> (r: PciConfigAddress)
        ensures
            r == self.spec_address(),
    {
        self.addr
    }

    pub fn vendor_id(&self) -> (r: PciVendorId)
        ensures
            r == self.spec_vendor_id(),
    {
        self.vendor_id
    }

    pub fn device_id(&self) -> (r: PciDeviceId)
        ensures
            r == self.spec_device_id(),
    {
        self.device_id
    }

    pub fn subsys_vendor_id(&self) -> (r: PciVendorId)
        ensures
            r == self.spec_subsys_vendor_id(),
    {
        self.subsys_vendor_id
    }

    pub fn subsys_device_id(&self) -> (r: PciDeviceId)
        ensures
            r == self.spec_subsys_device_id(),
    {
        self.subsys_device_id
    }

    pub fn class_code(&self) -> (r: PciClass)
        ensures
            r == self.spec_class_code(),
    {
        self.class_code
    }

    pub fn has_multi_func(&self) -> (r: bool)
        ensures
            r == self.spec_has_multi_func(),
    {
        self.has_multi_func
    }

    pub fn secondary_bus_number(&self) -> (r: Option<NonZeroU8>)
        ensures
            r == self.spec_secondary_bus_number(),
    {
        self.secondary_bus_number
    }

    pub fn bars(&self) -> (r: &[PciBar])
        ensures
            r@ == self.spec_bars(),
    {
        self.bars.as_slice()
    }

    /// Returns an array of capability ID and register offset pairs.
    pub fn capabilities(&self) -> (r: &[(PciCapabilityId, u8)])
        ensures
            r@ == self.spec_capabilities(),
    {
        self.capabilities.as_slice()
    }

    /// The register of the MSI capability, where the device has one: the first entry
    /// with that id.
    pub fn msi_register(&self) -> (r: Option<u8>)
        ensures
            match r {
                Some(reg) => exists|i: int|
                    0 <= i < self.spec_capabilities().len()
                        && self.spec_capabilities()[i] == (PciCapabilityId(PciCapabilityId::MSI_VALUE), reg)
                        && forall|j: int| 0 <= j < i ==> (#[trigger] self.spec_capabilities()[j]).0
                            != PciCapabilityId(PciCapabilityId::MSI_VALUE),
                None => forall|j: int|
                    0 <= j < self.spec_capabilities().len() ==> (#[trigger] self.spec_capabilities()[j]).0
                        != PciCapabilityId(PciCapabilityId::MSI_VALUE),
            },
    {
        let mut i: usize = 0;
        while i < self.capabilities.len()
            invariant
                i <= self.capabilities@.len(),
                forall|j: int| 0 <= j < i ==> (#[trigger] self.capabilities@[j]).0 != PciCapabilityId(
                    PciCapabilityId::MSI_VALUE,
                ),
            decreases self.capabilities@.len() - i,
        {
            let (id, offset) = self.capabilities[i];
            if id.0 == PciCapabilityId::MSI_VALUE {
                proof {
                    assert(self.spec_capabilities()[i as int] == (
                        PciCapabilityId(PciCapabilityId::MSI_VALUE),
                        offset,
                    ));
                }
                return Some(offset);
            }
            i = i + 1;
        }
        None
    }

    /// The four register writes that enable MSI delivery to `msi_addr` with `msi_data`,
    /// given the MSI capability's register `msi_reg` and the current value `control` of
    /// its first register: address low, address high, data, then the control register with
    /// a single message enabled.
    pub fn msi_writes(&self, msi_reg: u8, msi_addr: u64, msi_data: u16, control: u32) -> (r: [(
        PciConfigAddress,
        u32,
    ); 4])
        ensures
            ({
                let base = self.spec_address().spec_register_set(msi_reg);
                &&& r[0] == (base.spec_register_set(((msi_reg + 1) % 256) as u8), msi_addr as u32)
                &&& r[1] == (base.spec_register_set(((msi_reg + 2) % 256) as u8), (msi_addr >> 32u64) as u32)
                &&& r[2] == (base.spec_register_set(((msi_reg + 3) % 256) as u8), msi_data as u32)
                &&& r[3] == (base, (control & 0xFF8F_FFFF) | 0x0001_0000)
            }),
    {
        let base = self.addr.register(msi_reg);
        [
            (base + 1, msi_addr as u32),
            (base + 2, (msi_addr >> 32u64) as u32),
            (base + 3, msi_data as u32),
            (base, (control & 0xFF8F_FFFF) | 0x0001_0000),
        ]
    }
}


/// Whether the devices of `s` are in strictly increasing order of address.
pub open spec fn sorted_by_address(s: Seq<PciDevice>) -> bool {
    forall|i: int, j: int|
        0 <= i < j < s.len() ==> (#[trigger] s[i]).spec_address().spec_key()
            < (#[trigger] s[j]).spec_address().spec_key()
}

/// Two addresses with the same key are the same address.
pub proof fn lemma_key_injective(a: PciConfigAddress, b: PciConfigAddress)
    requires
        a.spec_key() == b.spec_key(),
    ensures
        a == b,
{
    PciConfigAddress::lemma_ext(a, b);
}

/// The devices found on the PCI buses, kept in order of their addresses, one per address.
pub struct Pci {
    devices: Vec<PciDevice>,
}

impl Pci {
    #[verifier::type_invariant]
    spec fn inv(self) -> bool {
        sorted_by_address(self.devices@)
    }

    /// The devices, in order of address.
    pub closed spec fn spec_devices(&self) -> Seq<PciDevice> {
        self.devices@
    }

    /// An empty table.
    pub fn new() -> (r: Self)
        ensures
            r.spec_devices().len() == 0,
    {
        Pci { devices: Vec::new() }
    }

    /// The devices, in order of address.
    pub fn devices(&self) -> (r: &[PciDevice])
        ensures
            r@ == self.spec_devices(),
            sorted_by_address(r@),
    {
        proof {
            use_type_invariant(self);
        }
        self.devices.as_slice()
    }

    /// The device at `addr`, if one was found there.
    pub fn device_by_addr(&self, addr: PciConfigAddress) -> (r: Option<&PciDevice>)
        ensures
            match r {
                Some(d) => self.spec_devices().contains(*d) && d.spec_address() == addr,
                None => forall|i: int|
                    0 <= i < self.spec_devices().len() ==> (#[trigger] self.spec_devices()[i]).spec_address()
                        != addr,
            },
    {
        let mut i: usize = 0;
        while i < self.devices.len()
            invariant
                i <= self.devices@.len(),
                forall|j: int| 0 <= j < i ==> (#[trigger] self.devices@[j]).spec_address() != addr,
            decreases self.devices@.len() - i,
        {
            if self.devices[i].addr.same(&addr) {
                proof {
                    assert(self.spec_devices()[i as int] == self.devices@[i as int]);
                }
                return Some(&self.devices[i]);
            }
            i = i + 1;
        }
        None
    }

    /// Records `device`, replacing the device recorded at its address, if any.
    pub fn insert(&mut self, device: PciDevice)
        ensures
            sorted_by_address(final(self).spec_devices()),
            final(self).spec_devices().contains(device),
            forall|x: PciDevice|
                #![trigger final(self).spec_devices().contains(x)]
                #![trigger old(self).spec_devices().contains(x)]
                x.spec_address() != device.spec_address() ==> (final(self).spec_devices().contains(x)
                    <==> old(self).spec_devices().contains(x)),
    {
        proof {
            use_type_invariant(&*self);
        }
        let ghost old_devs = self.devices@;
        let ghost k = device.addr.spec_key();
        let mut i: usize = 0;
        while i < self.devices.len()
            invariant
                self.devices@ == old_devs,
                k == device.addr.spec_key(),
                sorted_by_address(old_devs),
                i <= old_devs.len(),
                forall|j: int| 0 <= j < i ==> (#[trigger] old_devs[j]).spec_address().spec_key() < k,
            ensures
                i <= old_devs.len(),
                forall|j: int| 0 <= j < i ==> (#[trigger] old_devs[j]).spec_address().spec_key() < k,
                i < old_devs.len() ==> old_devs[i as int].spec_address().spec_key() >= k,
            decreases old_devs.len() - i,
        {
            if !self.devices[i].addr.key_lt(&device.addr) {
                break;
            }
            i = i + 1;
        }
        let replace = i < self.devices.len() && self.devices[i].addr.same(&device.addr);
        let mut devices = Vec::new();
        core::mem::swap(&mut devices, &mut self.devices);
        if replace {
            devices.set(i, device);
            proof {
                let new_devs = devices@;
                assert(new_devs == old_devs.update(i as int, device));
                assert(new_devs[i as int] == device);
                assert(sorted_by_address(new_devs)) by {
                    assert forall|a: int, b: int| 0 <= a < b < new_devs.len() implies (#[trigger] new_devs[a]).spec_address().spec_key()
                        < (#[trigger] new_devs[b]).spec_address().spec_key() by {
                        assert(old_devs[a].spec_address().spec_key() < old_devs[b].spec_address().spec_key());
                    }
                }
                assert forall|x: PciDevice| x.spec_address() != device.spec_address() implies (
                new_devs.contains(x) <==> old_devs.contains(x)) by {
                    if new_devs.contains(x) {
                        let j = choose|j: int| 0 <= j < new_devs.len() && new_devs[j] == x;
                        assert(j != i);
                        assert(old_devs[j] == x);
                    }
                    if old_devs.contains(x) {
                        let j = choose|j: int| 0 <= j < old_devs.len() && old_devs[j] == x;
                        assert(j != i);
                        assert(new_devs[j] == x);
                    }
                }
                assert(new_devs.contains(device)) by {
                    assert(new_devs[i as int] == device);
                }
            }
        } else {
            devices.insert(i, device);
            proof {
                let new_devs = devices@;
                assert(new_devs == old_devs.insert(i as int, device));
                assert(new_devs[i as int] == device);
                assert(sorted_by_address(new_devs)) by {
                    assert forall|a: int, b: int| 0 <= a < b < new_devs.len() implies (#[trigger] new_devs[a]).spec_address().spec_key()
                        < (#[trigger] new_devs[b]).spec_address().spec_key() by {
                        if b < i {
                            assert(old_devs[a].spec_address().spec_key() < old_devs[b].spec_address().spec_key());
                        } else if b == i {
                            assert(old_devs[a].spec_address().spec_key() < k);
                        } else if a < i {
                            assert(old_devs[a].spec_address().spec_key() < k);
                            assert(old_devs[i as int].spec_address().spec_key() >= k);
                            if b - 1 > i {
                                assert(old_devs[i as int].spec_address().spec_key() < old_devs[b - 1].spec_address().spec_key());
                            }
                        } else if a == i {
                            assert(old_devs[i as int].spec_address().spec_key() != k) by {
                                if old_devs[i as int].spec_address().spec_key() == k {
                                    lemma_key_injective(old_devs[i as int].spec_address(), device.spec_address());
                                }
                            }
                            if b - 1 > i {
                                assert(old_devs[i as int].spec_address().spec_key() < old_devs[b - 1].spec_address().spec_key());
                            }
                        } else {
                            assert(old_devs[a - 1].spec_address().spec_key() < old_devs[b - 1].spec_address().spec_key());
                        }
                    }
                }
                assert forall|x: PciDevice| x.spec_address() != device.spec_address() implies (
                new_devs.contains(x) <==> old_devs.contains(x)) by {
                    if new_devs.contains(x) {
                        let j = choose|j: int| 0 <= j < new_devs.len() && new_devs[j] == x;
                        assert(j != i);
                        if j < i {
                            assert(old_devs[j] == x);
                        } else {
                            assert(old_devs[j - 1] == x);
                        }
                    }
                    if old_devs.contains(x) {
                        let j = choose|j: int| 0 <= j < old_devs.len() && old_devs[j] == x;
                        if j < i {
                            assert(new_devs[j] == x);
                        } else {
                            assert(new_devs[j + 1] == x);
                        }
                    }
                }
                assert(new_devs.contains(device)) by {
                    assert(new_devs[i as int] == device);
                }
            }
        }
        self.devices = devices;
    }
}


proof fn lemma_class_masks_nested(a: u32, b: u32)
    by (bit_vector)
    ensures
        a & 0xFF_FF_FF_00 == b & 0xFF_FF_FF_00 ==> a & 0xFF_FF_00_00 == b & 0xFF_FF_00_00,
        a & 0xFF_FF_00_00 == b & 0xFF_FF_00_00 ==> a & 0xFF_00_00_00 == b & 0xFF_00_00_00,
        a & 0xFF_FF_FF_00 == b & 0xFF_FF_FF_00 ==> a & 0xFF_00_00_00 == b & 0xFF_00_00_00,
        a & 0 == b & 0,
{
}

proof fn lemma_class_chain_bits(c: u32, s: u32, i: u32)
    by (bit_vector)
    requires
        c < 256,
        s < 256,
        i < 256,
    ensures
        ({
            let x = (c << 24u32) | 1;
            let y = (x & 0xFF_00_00_00) | (s << 16u32) | 2;
            let z = (y & 0xFF_FF_00_00) | (i << 8u32) | 3;
            &&& x & 0xFF == 1
            &&& y & 0xFF == 2
            &&& z & 0xFF == 3
            &&& y & 0xFF_00_00_00 == x & 0xFF_00_00_00
            &&& z & 0xFF_FF_00_00 == y & 0xFF_FF_00_00
            &&& z & 0xFF_00_00_00 == x & 0xFF_00_00_00
            &&& z >> 24u32 == c
            &&& (z >> 16u32) & 0xFF == s
            &&& (z >> 8u32) & 0xFF == i
        }),
{
}

/// A class code built from a class, a subclass and an interface matches itself, its
/// class and its class with the subclass: a full class code falls within each of the
/// masks that name part of it.
pub proof fn lemma_class_chain_matches(c: u8, s: u8, i: u8)
    ensures
        ({
            let x = PciClass(((c as u32) << 24u32) | 1);
            let y = PciClass((x.0 & 0xFF_00_00_00) | ((s as u32) << 16u32) | 2);
            let z = PciClass((y.0 & 0xFF_FF_00_00) | ((i as u32) << 8u32) | 3);
            &&& z.spec_matches(z)
            &&& z.spec_matches(y)
            &&& z.spec_matches(x)
            &&& y.spec_matches(x)
            &&& y.spec_matches(y)
            &&& x.spec_matches(x)
            &&& !x.spec_matches(y)
            &&& !x.spec_matches(z)
            &&& !y.spec_matches(z)
        }),
{
    lemma_class_chain_bits(c as u32, s as u32, i as u32);
}

/// Matching is transitive: what falls within a class that falls within another falls
/// within that other one.
pub proof fn lemma_matches_transitive(x: PciClass, y: PciClass, z: PciClass)
    requires
        x.spec_matches(y),
        y.spec_matches(z),
    ensures
        x.spec_matches(z),
{
    lemma_class_masks_nested(x.0, y.0);
    lemma_class_masks_nested(y.0, z.0);
}

/// A class whose type is unspecified matches nothing and nothing matches it; any other
/// class matches itself.
pub proof fn lemma_matches_reflexive(x: PciClass, y: PciClass)
    ensures
        x.spec_matches(x) <==> x.spec_class_type() != PciClassType::Unspecified,
        y.spec_class_type() == PciClassType::Unspecified ==> !x.spec_matches(y),
        x.spec_class_type() == PciClassType::Unspecified ==> !x.spec_matches(y),
{
}

/// In a table of devices in strictly increasing order of address, two devices at the same
/// address are the same: the table holds one device per address.
pub proof fn lemma_one_device_per_address(s: Seq<PciDevice>, x: PciDevice, y: PciDevice)
    requires
        sorted_by_address(s),
        s.contains(x),
        s.contains(y),
        x.spec_address() == y.spec_address(),
    ensures
        x == y,
{
    let i = choose|i: int| 0 <= i < s.len() && s[i] == x;
    let j = choose|j: int| 0 <= j < s.len() && s[j] == y;
    if i < j {
        assert(s[i].spec_address().spec_key() < s[j].spec_address().spec_key());
    } else if j < i {
        assert(s[j].spec_address().spec_key() < s[i].spec_address().spec_key());
    }
}

/// The configuration port value holds the enable bit and, for a device below 32, a
/// function below 8 and a register below 64, each part in its own bits.
pub proof fn lemma_port_value_fields(a: PciConfigAddress)
    requires
        a.spec_dev() < 32,
        a.spec_fun() < 8,
        a.spec_register() < 64,
    ensures
        a.spec_port_value() >> 31u32 == 1,
        (a.spec_port_value() >> 16u32) & 0xFF == a.spec_bus(),
        (a.spec_port_value() >> 11u32) & 0x1F == a.spec_dev(),
        (a.spec_port_value() >> 8u32) & 0x7 == a.spec_fun(),
        (a.spec_port_value() >> 2u32) & 0x3F == a.spec_register(),
        a.spec_port_value() & 0x3 == 0,
{
    let b = a.spec_bus() as u32;
    let d = a.spec_dev() as u32;
    let f = a.spec_fun() as u32;
    let r = a.spec_register() as u32;
    assert({
        let v = 0x8000_0000u32 | (b << 16u32) | (d << 11u32) | (f << 8u32) | (r << 2u32);
        &&& v >> 31u32 == 1
        &&& (v >> 16u32) & 0xFF == b
        &&& (v >> 11u32) & 0x1F == d
        &&& (v >> 8u32) & 0x7 == f
        &&& (v >> 2u32) & 0x3F == r
        &&& v & 0x3 == 0
    }) by (bit_vector)
        requires
            b < 256,
            d < 32,
            f < 8,
            r < 64,
    ;
}

} // verus!
