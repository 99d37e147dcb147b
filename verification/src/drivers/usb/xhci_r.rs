//! xHCI MMIO registers: the values that the driver reads from and writes to the
//! controller's register sets, and what it derives from them.

use vstd::prelude::*;
use crate::bits::lemma_dword_shifts;
use crate::num::NonZeroU8;
use crate::hal::{PhysicalAddress, NonNullPhysicalAddress};
use crate::drivers::usb::usb::{PSIV, Usb3LinkState};
use crate::drivers::usb::xhci_s::DCI;

verus! {

/// xHC Capability Registers, as read from the controller.
pub struct CapabilityRegisters {
    base: usize,
    caplength: u32,
    hcsparams1: u32,
    hcsparams2: u32,
    hcsparams3: u32,
    hccparams1: u32,
    dboff: u32,
    rtsoff: u32,
    hccparams2: u32,
}

impl CapabilityRegisters {
    pub closed spec fn spec_base(&self) -> usize {
        self.base
    }

    /// The register values in the order in which they stand: CAPLENGTH/HCIVERSION,
    /// HCSPARAMS1-3, HCCPARAMS1, DBOFF, RTSOFF, HCCPARAMS2.
    pub closed spec fn spec_regs(&self) -> Seq<u32> {
        seq![
            self.caplength,
            self.hcsparams1,
            self.hcsparams2,
            self.hcsparams3,
            self.hccparams1,
            self.dboff,
            self.rtsoff,
            self.hccparams2,
        ]
    }

    /// The capability registers of the controller mapped at `base`, with the values read.
    pub fn new(base: usize, regs: [u32; 8]) -> (r: Self)
        ensures
            r.spec_base() == base,
            r.spec_regs() == regs@,
    {
        let r = Self {
            base,
            caplength: regs[0],
            hcsparams1: regs[1],
            hcsparams2: regs[2],
            hcsparams3: regs[3],
            hccparams1: regs[4],
            dboff: regs[5],
            rtsoff: regs[6],
            hccparams2: regs[7],
        };
        proof {
            assert(r.spec_regs() =~= regs@);
        }
        r
    }

    pub fn length(&self) -> (r: usize)
        ensures
            r == self.spec_regs()[0] % 0x100,
    {
        (self.caplength % 0x100) as usize
    }

    /// The interface version (major, minor, sub-minor) in HCIVERSION.
    pub fn version(&self) -> (r: (usize, usize, usize))
        ensures
            r.0 == (self.spec_regs()[0] >> 16u32) >> 8u32,
            r.1 == ((self.spec_regs()[0] >> 16u32) >> 4u32) & 0x0F,
            r.2 == (self.spec_regs()[0] >> 16u32) & 0x0F,
    {
        let ver = self.caplength >> 16u32;
        let ver2 = (ver & 0x0F) as usize;
        let ver1 = ((ver >> 4u32) & 0x0F) as usize;
        let ver0 = (ver >> 8u32) as usize;
        (ver0, ver1, ver2)
    }

    pub fn hcs_params1(&self) -> (r: u32)
        ensures
            r == self.spec_regs()[1],
    {
        self.hcsparams1
    }

    pub fn hcs_params2(&self) -> (r: u32)
        ensures
            r == self.spec_regs()[2],
    {
        self.hcsparams2
    }

    pub fn hcs_params3(&self) -> (r: u32)
        ensures
            r == self.spec_regs()[3],
    {
        self.hcsparams3
    }

    pub fn hcc_params1(&self) -> (r: HccParams1)
        ensures
            r.0 == self.spec_regs()[4],
    {
        HccParams1::from_bits_retain(self.hccparams1)
    }

    pub fn hcc_params2(&self) -> (r: u32)
        ensures
            r == self.spec_regs()[7],
    {
        self.hccparams2
    }

    /// Offset of the doorbell array.
    pub fn db_off(&self) -> (r: usize)
        ensures
            r == self.spec_regs()[5] & !0x03u32,
    {
        (self.dboff & !0x03u32) as usize
    }

    /// Offset of the runtime registers.
    pub fn rts_off(&self) -> (r: usize)
        ensures
            r == self.spec_regs()[6] & !0x1Fu32,
    {
        (self.rtsoff & !0x1Fu32) as usize
    }

    pub fn max_device_slots(&self) -> (r: usize)
        ensures
            r == self.spec_regs()[1] & 0xFF,
    {
        (self.hcs_params1() & 0xFF) as usize
    }

    pub fn max_interrups(&self) -> (r: usize)
        ensures
            r == (self.spec_regs()[1] >> 8u32) & 0x3FF,
    {
        ((self.hcs_params1() >> 8u32) & 0x3FF) as usize
    }

    pub fn max_ports(&self) -> (r: usize)
        ensures
            r == (self.spec_regs()[1] >> 24u32) & 0xFF,
    {
        ((self.hcs_params1() >> 24u32) & 0xFF) as usize
    }

    /// The number of scratchpad buffers: the low five bits in bits 27-31 of HCSPARAMS2,
    /// the high five in bits 21-25.
    pub fn max_scratchpad_size(&self) -> (r: usize)
        ensures
            r == ((self.spec_regs()[2] >> 27u32) & 0x1F) | (((self.spec_regs()[2] >> 21u32) & 0x1F) << 5u32),
    {
        let hcs_params2 = self.hcs_params2();
        (((hcs_params2 >> 27u32) & 0x1F) | (((hcs_params2 >> 21u32) & 0x1F) << 5u32)) as usize
    }

    /// Offset of the operational registers.
    pub fn opr_offset(&self) -> (r: usize)
        ensures
            r == self.spec_regs()[0] % 0x100,
    {
        self.length()
    }

    /// Offset of the port register sets.
    pub fn ports_offset(&self) -> (r: usize)
        ensures
            r == self.spec_regs()[0] % 0x100 + 0x400,
    {
        self.length() + 0x400
    }

    /// The address of the first extended capability, if the controller has one.
    pub fn xecp(&self) -> (r: Option<usize>)
        requires
            self.spec_base() + 0xFFFF * 4 <= usize::MAX,
        ensures
            ({
                let x = (self.spec_regs()[4] & 0xFFFF_0000) >> 16u32;
                &&& x > 0 ==> r == Some((self.spec_base() + x * 4) as usize)
                &&& x == 0 ==> r is None
            }),
    {
        let xecp = self.hcc_params1().xecp();
        if xecp > 0 {
            Some(self.base + xecp * 4)
        } else {
            None
        }
    }
}

/// Host Controller Capability Parameters 1
#[derive(Debug, Clone, Copy, PartialEq, Eq, Structural)]
pub struct HccParams1(pub u32);

impl HccParams1 {
    /// 64bit Addressing Capability
    pub const AC64: u32 = 0b0000_0000_0000_0001;
    /// BW Negotiation Capability
    pub const BNC: u32 = 0b0000_0000_0000_0010;
    /// Context Size
    pub const CSZ: u32 = 0b0000_0000_0000_0100;
    /// Port Power Control
    pub const PPC: u32 = 0b0000_0000_0000_1000;
    /// Port Indicators
    pub const PIND: u32 = 0b0000_0000_0001_0000;
    /// Light HC Reset Capability
    pub const LHRC: u32 = 0b0000_0000_0010_0000;
    /// Latency Tolerance Messaging Capability
    pub const LTC: u32 = 0b0000_0000_0100_0000;
    /// No Secondary SID Support
    pub const NSS: u32 = 0b0000_0000_1000_0000;
    /// Parse All Event Data
    pub const PAE: u32 = 0b0000_0001_0000_0000;
    /// Stopped - Short Packet Capacility
    pub const SPC: u32 = 0b0000_0010_0000_0000;
    /// Stopped EDTLA Capability
    pub const SEC: u32 = 0b0000_0100_0000_0000;
    /// Contiguous Frame ID Capability
    pub const CFC: u32 = 0b0000_1000_0000_0000;
    /// Maximum Primary Stream Array Size
    pub const MAX_PSA_SIZE: u32 = 0b1111_0000_0000_0000;
    pub const XECP: u32 = 0xFFFF_0000;

    pub fn bits(&self) -> (r: u32)
        ensures
            r == self.0,
    {
        self.0
    }

    pub fn from_bits_retain(bits: u32) -> (r: Self)
        ensures
            r.0 == bits,
    {
        Self(bits)
    }

    pub fn empty() -> (r: Self)
        ensures
            r.0 == 0,
    {
        Self(0)
    }

    pub fn is_empty(&self) -> (r: bool)
        ensures
            r == (self.0 == 0),
    {
        self.0 == 0
    }

    pub fn contains(&self, other: Self) -> (r: bool)
        ensures
            r == (self.0 & other.0 == other.0),
    {
        self.0 & other.0 == other.0
    }

    pub fn union(self, other: Self) -> (r: Self)
        ensures
            r.0 == self.0 | other.0,
    {
        Self(self.0 | other.0)
    }

    pub fn intersection(self, other: Self) -> (r: Self)
        ensures
            r.0 == self.0 & other.0,
    {
        Self(self.0 & other.0)
    }

    pub fn difference(self, other: Self) -> (r: Self)
        ensures
            r.0 == self.0 & !other.0,
    {
        Self(self.0 & !other.0)
    }

    pub fn max_psa_size(&self) -> (r: usize)
        ensures
            r == (self.0 & 0b1111_0000_0000_0000) >> 12u32,
    {
        ((self.0 & Self::MAX_PSA_SIZE) >> 12u32) as usize
    }

    /// The extended capabilities pointer, in dwords.
    pub fn xecp(&self) -> (r: usize)
        ensures
            r == (self.0 & 0xFFFF_0000) >> 16u32,
            r <= 0xFFFF,
    {
        let x = self.0;
        proof {
            lemma_dword_shifts();
            assert((x & 0xFFFF_0000) >> 16u32 <= 0xFFFF);
        }
        ((x & Self::XECP) >> 16u32) as usize
    }
}

/// xHC Operational Registers: the values last read from or written to them.
pub struct OperationalRegisters {
    usbcmd: u32,
    usbsts: u32,
    pagesize: u32,
    dnctrl: u32,
    crcr: u64,
    dcbaap: u64,
    config: u32,
}

impl OperationalRegisters {
    pub closed spec fn spec_usbcmd(&self) -> u32 {
        self.usbcmd
    }

    pub closed spec fn spec_usbsts(&self) -> u32 {
        self.usbsts
    }

    pub closed spec fn spec_pagesize(&self) -> u32 {
        self.pagesize
    }

    pub closed spec fn spec_dnctrl(&self) -> u32 {
        self.dnctrl
    }

    pub closed spec fn spec_crcr(&self) -> u64 {
        self.crcr
    }

    pub closed spec fn spec_dcbaap(&self) -> u64 {
        self.dcbaap
    }

    pub closed spec fn spec_config(&self) -> u32 {
        self.config
    }

    /// The operational registers with the values read from USBCMD, USBSTS, PAGESIZE,
    /// DNCTRL, CRCR, DCBAAP and CONFIG.
    pub fn new(usbcmd: u32, usbsts: u32, pagesize: u32, dnctrl: u32, crcr: u64, dcbaap: u64, config: u32) -> (r: Self)
        ensures
            r.spec_usbcmd() == usbcmd,
            r.spec_usbsts() == usbsts,
            r.spec_pagesize() == pagesize,
            r.spec_dnctrl() == dnctrl,
            r.spec_crcr() == crcr,
            r.spec_dcbaap() == dcbaap,
            r.spec_config() == config,
    {
        Self { usbcmd, usbsts, pagesize, dnctrl, crcr, dcbaap, config }
    }

    pub fn page_size_raw(&self) -> (r: u32)
        ensures
            r == self.spec_pagesize() & 0xFFFF,
    {
        self.pagesize & 0xFFFF
    }

    /// The page size that the controller supports: 4 KiB shifted by the lowest set bit
    /// of PAGESIZE.
    pub fn page_size(&self) -> (r: usize)
        requires
            12 + (self.spec_pagesize() & 0xFFFF).trailing_zeros() < usize::BITS,
        ensures
            r == 1usize << (12 + (self.spec_pagesize() & 0xFFFF).trailing_zeros()),
    {
        let p = self.pagesize;
        let bitmap = self.page_size_raw() & 0xFFFF;
        proof {
            assert((p & 0xFFFF) & 0xFFFF == p & 0xFFFF) by (bit_vector);
        }
        1usize << (12 + bitmap.trailing_zeros())
    }

    pub fn read_cmd(&self) -> (r: UsbCmd)
        ensures
            r.0 == self.spec_usbcmd(),
    {
        UsbCmd::from_bits_retain(self.usbcmd)
    }

    pub fn write_cmd(&mut self, val: UsbCmd)
        ensures
            final(self).spec_usbcmd() == val.0,
            final(self).spec_usbsts() == old(self).spec_usbsts(),
            final(self).spec_crcr() == old(self).spec_crcr(),
            final(self).spec_dcbaap() == old(self).spec_dcbaap(),
            final(self).spec_config() == old(self).spec_config(),
            final(self).spec_dnctrl() == old(self).spec_dnctrl(),
            final(self).spec_pagesize() == old(self).spec_pagesize(),
    {
        self.usbcmd = val.bits();
    }

    /// Sets the command bits `val`, keeping the others.
    pub fn set_cmd(&mut self, val: UsbCmd)
        ensures
            final(self).spec_usbcmd() == old(self).spec_usbcmd() | val.0,
            final(self).spec_usbsts() == old(self).spec_usbsts(),
    {
        let cmd = self.read_cmd().union(val);
        self.write_cmd(cmd);
    }

    pub fn status(&self) -> (r: UsbSts)
        ensures
            r.0 == self.spec_usbsts(),
    {
        UsbSts::from_bits_retain(self.usbsts)
    }

    /// Writes `val` to USBSTS (its status bits are cleared by writing one).
    pub fn reset_status(&mut self, val: UsbSts)
        ensures
            final(self).spec_usbsts() == val.0,
            final(self).spec_usbcmd() == old(self).spec_usbcmd(),
    {
        self.usbsts = val.bits();
    }

    pub fn set_crcr(&mut self, val: NonNullPhysicalAddress)
        ensures
            final(self).spec_crcr() == val@,
            final(self).spec_usbcmd() == old(self).spec_usbcmd(),
    {
        self.crcr = val.get().as_u64();
    }

    pub fn dcbaap(&self) -> (r: PhysicalAddress)
        ensures
            r@ == self.spec_dcbaap(),
    {
        PhysicalAddress::new(self.dcbaap)
    }

    pub fn set_dcbaap(&mut self, val: NonNullPhysicalAddress)
        ensures
            final(self).spec_dcbaap() == val@,
            final(self).spec_usbcmd() == old(self).spec_usbcmd(),
    {
        self.dcbaap = val.get().as_u64();
    }

    /// CONFIG: the number of enabled device slots and the U3 entry and configuration
    /// information enable bits.
    pub fn set_config(&mut self, max_dev_slot: usize, u3e: bool, cie: bool)
        ensures
            final(self).spec_config() == ((max_dev_slot & 0xFF) as u32) | (if u3e { 0x100u32 } else { 0 })
                | (if cie { 0x200u32 } else { 0 }),
            final(self).spec_usbcmd() == old(self).spec_usbcmd(),
    {
        let val = (max_dev_slot & 0xFF) as u32 | if u3e { 0x100u32 } else { 0 } | if cie { 0x200u32 } else { 0 };
        self.config = val;
    }

    pub fn device_notification_bitmap(&self) -> (r: DeviceNotificationBitmap)
        ensures
            r.0 == self.spec_dnctrl(),
    {
        DeviceNotificationBitmap::from_bits_retain(self.dnctrl)
    }

    pub fn set_device_notification_bitmap(&mut self, bitmap: DeviceNotificationBitmap)
        ensures
            final(self).spec_dnctrl() == bitmap.0,
            final(self).spec_usbcmd() == old(self).spec_usbcmd(),
    {
        self.dnctrl = bitmap.bits();
    }
}

/// USBCMD: Usb Command Register
#[derive(Debug, Clone, Copy, PartialEq, Eq, Structural)]
pub struct UsbCmd(pub u32);

impl UsbCmd {
    /// Run(1)/Stop(0)
    pub const RUN: u32 = 0b0000_0000_0000_0001;
    /// Host Controller Reset
    pub const HCRST: u32 = 0b0000_0000_0000_0010;
    /// Interrupt Enable
    pub const INTE: u32 = 0b0000_0000_0000_0100;

    pub fn bits(&self) -> (r: u32)
        ensures
            r == self.0,
    {
        self.0
    }

    pub fn from_bits_retain(bits: u32) -> (r: Self)
        ensures
            r.0 == bits,
    {
        Self(bits)
    }

    pub fn empty() -> (r: Self)
        ensures
            r.0 == 0,
    {
        Self(0)
    }

    pub fn is_empty(&self) -> (r: bool)
        ensures
            r == (self.0 == 0),
    {
        self.0 == 0
    }

    pub fn contains(&self, other: Self) -> (r: bool)
        ensures
            r == (self.0 & other.0 == other.0),
    {
        self.0 & other.0 == other.0
    }

    pub fn union(self, other: Self) -> (r: Self)
        ensures
            r.0 == self.0 | other.0,
    {
        Self(self.0 | other.0)
    }

    pub fn intersection(self, other: Self) -> (r: Self)
        ensures
            r.0 == self.0 & other.0,
    {
        Self(self.0 & other.0)
    }

    pub fn difference(self, other: Self) -> (r: Self)
        ensures
            r.0 == self.0 & !other.0,
    {
        Self(self.0 & !other.0)
    }
}

/// USBSTS: USB Status Register
#[derive(Debug, Clone, Copy, PartialEq, Eq, Structural)]
pub struct UsbSts(pub u32);

impl UsbSts {
    /// HC Halted
    pub const HCH: u32 = 0b0000_0000_0000_0001;
    /// Controller Not Ready
    pub const CNR: u32 = 0b0000_1000_0000_0000;

    pub fn bits(&self) -> (r: u32)
        ensures
            r == self.0,
    {
        self.0
    }

    pub fn from_bits_retain(bits: u32) -> (r: Self)
        ensures
            r.0 == bits,
    {
        Self(bits)
    }

    pub fn empty() -> (r: Self)
        ensures
            r.0 == 0,
    {
        Self(0)
    }

    pub fn is_empty(&self) -> (r: bool)
        ensures
            r == (self.0 == 0),
    {
        self.0 == 0
    }

    pub fn contains(&self, other: Self) -> (r: bool)
        ensures
            r == (self.0 & other.0 == other.0),
    {
        self.0 & other.0 == other.0
    }

    pub fn union(self, other: Self) -> (r: Self)
        ensures
            r.0 == self.0 | other.0,
    {
        Self(self.0 | other.0)
    }

    pub fn intersection(self, other: Self) -> (r: Self)
        ensures
            r.0 == self.0 & other.0,
    {
        Self(self.0 & other.0)
    }

    pub fn difference(self, other: Self) -> (r: Self)
        ensures
            r.0 == self.0 & !other.0,
    {
        Self(self.0 & !other.0)
    }
}

/// Device Notification
#[derive(Debug, Clone, Copy, PartialEq, Eq, Structural)]
pub struct DeviceNotificationBitmap(pub u32);

impl DeviceNotificationBitmap {
    pub const FUNCTION_WAKE: u32 = 0b0000_0000_0000_0010;

    pub fn bits(&self) -> (r: u32)
        ensures
            r == self.0,
    {
        self.0
    }

    pub fn from_bits_retain(bits: u32) -> (r: Self)
        ensures
            r.0 == bits,
    {
        Self(bits)
    }

    pub fn empty() -> (r: Self)
        ensures
            r.0 == 0,
    {
        Self(0)
    }

    pub fn is_empty(&self) -> (r: bool)
        ensures
            r == (self.0 == 0),
    {
        self.0 == 0
    }

    pub fn contains(&self, other: Self) -> (r: bool)
        ensures
            r == (self.0 & other.0 == other.0),
    {
        self.0 & other.0 == other.0
    }

    pub fn union(self, other: Self) -> (r: Self)
        ensures
            r.0 == self.0 | other.0,
    {
        Self(self.0 | other.0)
    }

    pub fn intersection(self, other: Self) -> (r: Self)
        ensures
            r.0 == self.0 & other.0,
    {
        Self(self.0 & other.0)
    }

    pub fn difference(self, other: Self) -> (r: Self)
        ensures
            r.0 == self.0 & !other.0,
    {
        Self(self.0 & !other.0)
    }
}

/// Port Status and Control Register
#[derive(Debug, Clone, Copy, PartialEq, Eq, Structural)]
pub struct PortSc(pub u32);

impl PortSc {
    /// A magic word to preserve mask
    pub const PRESERVE_MASK: u32 = 0x0E00C3E0;
    /// (ROS) Current Connect Status
    pub const CCS: u32 = 0x0000_0001;
    /// (RW1CS) Port Enabled
    pub const PED: u32 = 0x0000_0002;
    /// (RO) Over current Active
    pub const OCA: u32 = 0x0000_0008;
    /// (RW1S) Port Reset
    pub const PR: u32 = 0x0000_0010;
    /// (RWS) Port Link State
    pub const PLS: u32 = 0x0000_01E0;
    /// (RWS) Port Power
    pub const PP: u32 = 0x0000_0200;
    /// (ROW) Port Speed
    pub const SPEED: u32 = 0x0000_3C00;
    /// (RWS) Port Indicator
    pub const PIC: u32 = 0x0000_C000;
    /// (RW) Port Link State Write Strobe
    pub const LWS: u32 = 0x0001_0000;
    pub const ALL_CHANGE_BITS: u32 = 0x00FE_0000;
    /// (RW1CS) Connect Status Change
    pub const CSC: u32 = 0x0002_0000;
    /// (RW1CS) Port Enabled/Disabled Change
    pub const PEC: u32 = 0x0004_0000;
    /// (RW1CS) Warm Port Reset Change
    pub const WRC: u32 = 0x0008_0000;
    /// (RW1CS) Over current Change
    pub const OCC: u32 = 0x0010_0000;
    /// (RW1CS) Port Reset Change
    pub const PRC: u32 = 0x0020_0000;
    /// (RW1CS) Port Link State Change
    pub const PLC: u32 = 0x0040_0000;
    /// (RW1CS) Port Config Error Change
    pub const CEC: u32 = 0x0080_0000;
    /// (RO) Cold Attach Status
    pub const CAS: u32 = 0x0100_0000;
    /// (RWS) Wake on Connect Enable
    pub const WCE: u32 = 0x0200_0000;
    /// (RWS) Wake on Disconnect Enable
    pub const WDE: u32 = 0x0400_0000;
    /// (RWS) Wake on Over current Enable
    pub const WOE: u32 = 0x0800_0000;
    /// (RO) Device Removable
    pub const DR: u32 = 0x4000_0000;
    /// (RW1S) Warm Port Reset
    pub const WPR: u32 = 0x8000_0000;

    pub fn bits(&self) -> (r: u32)
        ensures
            r == self.0,
    {
        self.0
    }

    pub fn from_bits_retain(bits: u32) -> (r: Self)
        ensures
            r.0 == bits,
    {
        Self(bits)
    }

    pub fn empty() -> (r: Self)
        ensures
            r.0 == 0,
    {
        Self(0)
    }

    pub fn is_empty(&self) -> (r: bool)
        ensures
            r == (self.0 == 0),
    {
        self.0 == 0
    }

    pub fn contains(&self, other: Self) -> (r: bool)
        ensures
            r == (self.0 & other.0 == other.0),
    {
        self.0 & other.0 == other.0
    }

    pub fn union(self, other: Self) -> (r: Self)
        ensures
            r.0 == self.0 | other.0,
    {
        Self(self.0 | other.0)
    }

    pub fn intersection(self, other: Self) -> (r: Self)
        ensures
            r.0 == self.0 & other.0,
    {
        Self(self.0 & other.0)
    }

    pub fn difference(self, other: Self) -> (r: Self)
        ensures
            r.0 == self.0 & !other.0,
    {
        Self(self.0 & !other.0)
    }

    pub fn is_connected_status_changed(&self) -> (r: bool)
        ensures
            r == (self.0 & 0x0002_0000 == 0x0002_0000),
    {
        self.contains(Self::from_bits_retain(Self::CSC))
    }

    pub fn is_connected(&self) -> (r: bool)
        ensures
            r == (self.0 & 0x0000_0001 == 0x0000_0001),
    {
        self.contains(Self::from_bits_retain(Self::CCS))
    }

    pub fn is_enabled(&self) -> (r: bool)
        ensures
            r == (self.0 & 0x0000_0002 == 0x0000_0002),
    {
        self.contains(Self::from_bits_retain(Self::PED))
    }

    pub fn is_disabled(&self) -> (r: bool)
        ensures
            r == !(self.0 & 0x0000_0002 == 0x0000_0002),
    {
        !self.is_enabled()
    }

    pub fn is_powered(&self) -> (r: bool)
        ensures
            r == (self.0 & 0x0000_0200 == 0x0000_0200),
    {
        self.contains(Self::from_bits_retain(Self::PP))
    }

    pub fn has_changes(&self) -> (r: bool)
        ensures
            r == (self.0 & 0x00FE_0000 != 0),
    {
        (self.bits() & Self::ALL_CHANGE_BITS) != 0
    }

    pub fn link_state_raw(&self) -> (r: usize)
        ensures
            r == (self.0 & 0x0000_01E0) >> 5u32,
    {
        ((self.bits() & Self::PLS) >> 5u32) as usize
    }

    pub fn speed_raw(&self) -> (r: usize)
        ensures
            r == (self.0 & 0x0000_3C00) >> 10u32,
    {
        ((self.bits() & Self::SPEED) >> 10u32) as usize
    }

    pub fn port_indicator_raw(&self) -> (r: usize)
        ensures
            r == (self.0 & 0x0000_C000) >> 14u32,
    {
        ((self.bits() & Self::PIC) >> 14u32) as usize
    }

    /// The speed of the attached device, if one is reported.
    pub fn speed(&self) -> (r: Option<PSIV>)
        ensures
            r == PSIV::spec_from_code(((self.0 & 0x0000_3C00) >> 10u32) as u8),
    {
        PSIV::from_code(self.speed_raw() as u8)
    }

    /// The link state, if the field holds a defined one.
    pub fn link_state(&self) -> (r: Option<Usb3LinkState>)
        ensures
            r == Usb3LinkState::spec_from_code(((self.0 & 0x0000_01E0) >> 5u32) as u8),
    {
        Usb3LinkState::from_code(self.link_state_raw() as u8)
    }

    /// Whether a USB2 device (low, full or high speed) is attached.
    pub fn is_usb2(&self) -> (r: bool)
        ensures
            r == match PSIV::spec_from_code(((self.0 & 0x0000_3C00) >> 10u32) as u8) {
                Some(PSIV::LS) | Some(PSIV::FS) | Some(PSIV::HS) => true,
                _ => false,
            },
    {
        match self.speed() {
            Some(PSIV::LS) | Some(PSIV::FS) | Some(PSIV::HS) => true,
            _ => false,
        }
    }

    /// Whether a device of a USB3 speed is attached.
    pub fn is_usb3(&self) -> (r: bool)
        ensures
            r == match PSIV::spec_from_code(((self.0 & 0x0000_3C00) >> 10u32) as u8) {
                Some(PSIV::LS) | Some(PSIV::FS) | Some(PSIV::HS) => false,
                Some(_) => true,
                None => false,
            },
    {
        match self.speed() {
            Some(PSIV::LS) | Some(PSIV::FS) | Some(PSIV::HS) => false,
            Some(_) => true,
            _ => false,
        }
    }
}

/// xHC USB Port Register Set: PORTSC as last read or written.
pub struct PortRegisters {
    portsc: u32,
}

impl PortRegisters {
    pub closed spec fn spec_portsc(&self) -> u32 {
        self.portsc
    }

    /// The port registers with the value read from PORTSC.
    pub fn new(portsc: u32) -> (r: Self)
        ensures
            r.spec_portsc() == portsc,
    {
        Self { portsc }
    }

    pub fn status(&self) -> (r: PortSc)
        ensures
            r.0 == self.spec_portsc(),
    {
        PortSc::from_bits_retain(self.portsc)
    }

    /// Writes `val` together with the bits of the current status that a write must keep.
    pub fn set(&mut self, val: PortSc)
        ensures
            final(self).spec_portsc() == (old(self).spec_portsc() & 0x0E00C3E0) | val.0,
    {
        let v = self.status().intersection(PortSc::from_bits_retain(PortSc::PRESERVE_MASK)).union(val);
        self.write(v);
    }

    /// Acknowledges all change bits.
    pub fn clear_changes(&mut self)
        ensures
            final(self).spec_portsc() == (old(self).spec_portsc() & 0x0E00C3E0) | 0x00FE_0000,
    {
        self.set(PortSc::from_bits_retain(PortSc::ALL_CHANGE_BITS));
    }

    /// Turns the port's power off, acknowledging all change bits.
    pub fn power_off(&mut self)
        ensures
            final(self).spec_portsc() == ((old(self).spec_portsc() & 0x0E00C3E0) | 0x00FE_0000) & !0x0000_0200u32,
    {
        let v = self.status().intersection(PortSc::from_bits_retain(PortSc::PRESERVE_MASK)).union(
            PortSc::from_bits_retain(PortSc::ALL_CHANGE_BITS),
        ).difference(PortSc::from_bits_retain(PortSc::PP));
        self.write(v);
    }

    pub fn write(&mut self, val: PortSc)
        ensures
            final(self).spec_portsc() == val.0,
    {
        self.portsc = val.bits();
    }
}

/// xHC Interrupter Register Set: the values last read or written.
pub struct InterrupterRegisterSet {
    iman: u32,
    imod: u32,
    erstsz: u32,
    erstba: u64,
    erdp: u64,
}

/// The number of blocks in a one-page event ring segment.
pub const SIZE_EVENT_RING: u64 = 256;

impl InterrupterRegisterSet {
    pub closed spec fn spec_iman(&self) -> u32 {
        self.iman
    }

    pub closed spec fn spec_erdp(&self) -> u64 {
        self.erdp
    }

    pub closed spec fn spec_erstsz(&self) -> u32 {
        self.erstsz
    }

    pub closed spec fn spec_erstba(&self) -> u64 {
        self.erstba
    }

    pub fn new(iman: u32, imod: u32, erstsz: u32, erstba: u64, erdp: u64) -> (r: Self)
        ensures
            r.spec_iman() == iman,
            r.spec_erstsz() == erstsz,
            r.spec_erstba() == erstba,
            r.spec_erdp() == erdp,
    {
        Self { iman, imod, erstsz, erstba, erdp }
    }

    pub fn set_iman(&mut self, val: u32)
        ensures
            final(self).spec_iman() == val,
            final(self).spec_erdp() == old(self).spec_erdp(),
    {
        self.iman = val;
    }

    /// Sets up the event ring: one segment at `segment_table`, dequeue pointer at the
    /// start of the ring.
    pub fn init(&mut self, initial_dp: PhysicalAddress, segment_table: PhysicalAddress)
        ensures
            final(self).spec_erstsz() == 1,
            final(self).spec_erdp() == initial_dp@,
            final(self).spec_erstba() == segment_table@,
            final(self).spec_iman() == old(self).spec_iman(),
    {
        self.erstsz = 1;
        self.erdp = initial_dp.as_u64();
        self.erstba = segment_table.as_u64();
    }

    /// The event block that the dequeue pointer points at.
    pub fn current_event_address(&self) -> (r: PhysicalAddress)
        ensures
            r@ == self.spec_erdp() & !15u64,
    {
        PhysicalAddress::new(self.erdp & !15u64)
    }

    /// Consumes one event when its cycle bit `event_cycle_bit` matches the ring's cycle
    /// state `cycle`: the dequeue pointer moves to the next block of the one-page ring,
    /// wrapping to its start, where the cycle state toggles; the busy flag (bit 3) is
    /// written back. Returns whether an event was consumed.
    pub fn dequeue_event(&mut self, cycle: &mut super::xhci_s::CycleBit, event_cycle_bit: bool) -> (r: bool)
        ensures
            r == (event_cycle_bit == old(cycle)@),
            !r ==> final(self).spec_erdp() == old(self).spec_erdp() && final(cycle)@ == old(cycle)@,
            r ==> ({
                let base = old(self).spec_erdp() / 0x1000 * 0x1000;
                let next = 1 + (old(self).spec_erdp() % 0x1000) / 16;
                let index = if next == SIZE_EVENT_RING { 0 } else { next };
                &&& final(self).spec_erdp() == base + index * 16 + 8
                &&& final(cycle)@ == (if next == SIZE_EVENT_RING { !old(cycle)@ } else { old(cycle)@ })
            }),
    {
        let erdp = self.erdp;
        if event_cycle_bit == cycle.value() {
            let er_base = erdp / 0x1000 * 0x1000;
            let mut index = 1 + (erdp - er_base) / 16;
            if index == SIZE_EVENT_RING {
                index = 0;
                cycle.toggle();
            }
            self.erdp = er_base + index * 16 + 8;
            true
        } else {
            false
        }
    }
}

/// xHC Runtime Registers
pub struct RuntimeRegisters {
    mfindex: u32,
    irs: [InterrupterRegisterSet; 1],
}

impl RuntimeRegisters {
    pub closed spec fn spec_mfindex(&self) -> u32 {
        self.mfindex
    }

    pub fn new(mfindex: u32, primary: InterrupterRegisterSet) -> (r: Self)
        ensures
            r.spec_mfindex() == mfindex,
    {
        Self { mfindex, irs: [primary] }
    }

    pub fn mf_index(&self) -> (r: u32)
        ensures
            r == self.spec_mfindex() & 0x3FFF,
    {
        self.mfindex & 0x3FFF
    }

    pub fn primary_irs(&self) -> (r: &InterrupterRegisterSet) {
        &self.irs[0]
    }

    /// The interrupter register set `index`; only the primary one is kept.
    pub fn irs(&self, index: usize) -> (r: Option<&InterrupterRegisterSet>)
        ensures
            r is Some <==> index == 0,
    {
        if index == 0 {
            Some(&self.irs[0])
        } else {
            None
        }
    }
}

/// xHC Doorbell Register
pub struct DoorbellRegister(u32);

impl View for DoorbellRegister {
    type V = u32;

    closed spec fn view(&self) -> u32 {
        self.0
    }
}

impl DoorbellRegister {
    pub fn new(raw: u32) -> (r: Self)
        ensures
            r@ == raw,
    {
        Self(raw)
    }

    pub fn raw(&self) -> (r: u32)
        ensures
            r == self@,
    {
        self.0
    }

    pub fn set_raw(&mut self, val: u32)
        ensures
            final(self)@ == val,
    {
        self.0 = val;
    }

    pub fn target(&self) -> (r: Option<DCI>)
        ensures
            match r {
                Some(d) => d.0@ == self@ % 0x100 && self@ % 0x100 != 0,
                None => self@ % 0x100 == 0,
            },
    {
        match NonZeroU8::new((self.raw() % 0x100) as u8) {
            Some(v) => Some(DCI(v)),
            None => None,
        }
    }

    /// Rings the doorbell for the endpoint `val`, or with target zero.
    pub fn set_target(&mut self, val: Option<DCI>)
        ensures
            final(self)@ == match val {
                Some(d) => d.0@ as u32,
                None => 0u32,
            },
    {
        let v = match val {
            Some(d) => d.0.get() as u32,
            None => 0,
        };
        self.set_raw(v);
    }
}

} // verus!
