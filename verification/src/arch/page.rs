//! 4-level paging (48bit): page table entries, page levels, page fault codes and the
//! decisions that the page manager takes on a mapping request.

use vstd::prelude::*;
use crate::bits::lemma_page_bits;
use vstd::std_specs::convert::FromSpecImpl;
use crate::hal::PhysicalAddress;
use crate::mem::{MProtect, MemoryMapRequest};

verus! {

broadcast use PhysicalAddress::lemma_spec_new;

/// Attributes of a page table entry
#[derive(Debug, Clone, Copy, PartialEq, Eq, Structural)]
pub struct PageAttribute(pub u64);

impl PageAttribute {
    pub const PRESENT: u64 = 0x0000_0000_0000_0001;
    pub const WRITE: u64 = 0x0000_0000_0000_0002;
    pub const USER: u64 = 0x0000_0000_0000_0004;
    pub const PWT: u64 = 0x0000_0000_0000_0008;
    pub const PCD: u64 = 0x0000_0000_0000_0010;
    pub const ACCESS: u64 = 0x0000_0000_0000_0020;
    pub const DIRTY: u64 = 0x0000_0000_0000_0040;
    pub const PAT: u64 = 0x0000_0000_0000_0080;
    pub const LARGE_2M: u64 = 0x0000_0000_0000_0080;
    pub const GLOBAL: u64 = 0x0000_0000_0000_0100;
    pub const AVL_MASK: u64 = 0x0000_0000_0000_0E00;
    pub const LARGE_PAT: u64 = 0x0000_0000_0000_1000;
    pub const NO_EXECUTE: u64 = 0x8000_0000_0000_0000;
    /// The bits that grant access: write, user, no-execute.
    pub const ACCESS_RIGHTS: u64 = 0x8000_0000_0000_0006;
    pub const PAT_000: u64 = 0;
    pub const PAT_001: u64 = 0x08;
    pub const PAT_010: u64 = 0x10;
    pub const PAT_011: u64 = 0x18;
    pub const PAT_WB: u64 = 0;
    pub const PAT_WT: u64 = 0x08;
    pub const PAT_WC: u64 = 0x10;
    pub const PAT_UC: u64 = 0x18;

    pub fn bits(&self) -> (r: u64)
        ensures
            r == self.0,
    {
        self.0
    }

    pub fn from_bits_retain(bits: u64) -> (r: Self)
        ensures
            r.0 == bits,
    {
        Self(bits)
    }

    pub fn empty() -> (r: Self)
        ensures
            r.0 == 0,
    {
        Self(0)
    }

    pub fn is_empty(&self) -> (r: bool)
        ensures
            r == (self.0 == 0),
    {
        self.0 == 0
    }

    pub fn contains(&self, other: Self) -> (r: bool)
        ensures
            r == (self.0 & other.0 == other.0),
    {
        self.0 & other.0 == other.0
    }

    pub fn union(self, other: Self) -> (r: Self)
        ensures
            r.0 == self.0 | other.0,
    {
        Self(self.0 | other.0)
    }

    pub fn intersection(self, other: Self) -> (r: Self)
        ensures
            r.0 == self.0 & other.0,
    {
        Self(self.0 & other.0)
    }

    pub fn difference(self, other: Self) -> (r: Self)
        ensures
            r.0 == self.0 & !other.0,
    {
        Self(self.0 & !other.0)
    }

    pub const AVL_SHIFT: u64 = 9;

    pub fn insert(&mut self, other: Self)
        ensures
            final(self).0 == old(self).0 | other.0,
    {
        self.0 = self.0 | other.0;
    }

    pub fn remove(&mut self, other: Self)
        ensures
            final(self).0 == old(self).0 & !other.0,
    {
        self.0 = self.0 & !other.0;
    }

    /// The software-available bits (9-11) as a page state; only the defined states can be
    /// read this way.
    pub fn avl(self) -> (r: PageTableAvl)
        requires
            (self.0 & 0x0E00) >> 9u64 < 2,
        ensures
            r.spec_code() == (self.0 & 0x0E00) >> 9u64,
    {
        if (self.0 & Self::AVL_MASK) >> 9u64 == 0 {
            PageTableAvl::Free
        } else {
            PageTableAvl::Reserved
        }
    }

    pub fn set_avl(&mut self, avl: PageTableAvl)
        ensures
            final(self).0 == (old(self).0 & !0x0E00u64) | (avl.spec_code() << 9u64),
    {
        self.0 = (self.0 & !Self::AVL_MASK) | (avl.code() << 9u64);
    }
}

/// The state that the software-available bits of an entry record.
#[derive(Debug, Clone, Copy, PartialEq, Eq, Structural)]
pub enum PageTableAvl {
    Free,
    Reserved,
}

impl PageTableAvl {
    pub open spec fn spec_code(&self) -> u64 {
        match *self {
            PageTableAvl::Free => 0,
            PageTableAvl::Reserved => 1,
        }
    }

    pub fn code(&self) -> (r: u64)
        ensures
            r == self.spec_code(),
    {
        match *self {
            PageTableAvl::Free => 0,
            PageTableAvl::Reserved => 1,
        }
    }
}

/// The attributes that a protection stands for.
pub open spec fn protect_bits(value: MProtect) -> u64 {
    match value {
        MProtect::NoAccess => 0,
        MProtect::Read => 0x8000_0000_0000_0001,
        MProtect::ReadWrite => 0x8000_0000_0000_0003,
        MProtect::ReadExec => 0x0000_0000_0000_0001,
    }
}

impl From<MProtect> for PageAttribute {
    fn from(value: MProtect) -> (r: Self) {
        match value {
            MProtect::NoAccess => PageAttribute::empty(),
            MProtect::Read => PageAttribute(0x8000_0000_0000_0001),
            MProtect::ReadWrite => PageAttribute(0x8000_0000_0000_0003),
            MProtect::ReadExec => PageAttribute(0x0000_0000_0000_0001),
        }
    }
}

impl FromSpecImpl<MProtect> for PageAttribute {
    open spec fn obeys_from_spec() -> bool {
        true
    }

    open spec fn from_spec(v: MProtect) -> Self {
        PageAttribute(protect_bits(v))
    }
}

/// An entry `x` after it accepted the rights `new_attr`, and whether it changed:
/// no-execute is cleared when `new_attr` allows execution, write is set when
/// `new_attr` allows writing.
pub open spec fn spec_accept(x: u64, new_attr: u64) -> (u64, bool) {
    let clear_nx = x & 0x8000_0000_0000_0000 == 0x8000_0000_0000_0000 && new_attr
        & 0x8000_0000_0000_0000 != 0x8000_0000_0000_0000;
    let x1 = if clear_nx { x & !0x8000_0000_0000_0000u64 } else { x };
    let set_w = x1 & 2 != 2 && new_attr & 2 == 2;
    let x2 = if set_w { x1 | 2 } else { x1 };
    (x2, clear_nx || set_w)
}

/// A page table entry: frame address in bits 12-47, attributes in the others.
#[derive(Debug, Copy, Clone, Default, PartialEq, Eq, Structural)]
pub struct PageTableEntry(pub u64);

impl PageTableEntry {
    pub const ADDRESS_BITS: u64 = 0x0000_FFFF_FFFF_F000;

    pub fn null() -> (r: Self)
        ensures
            r.0 == 0,
    {
        Self(0)
    }

    pub fn new(base: PhysicalAddress, attr: PageAttribute) -> (r: Self)
        ensures
            r.0 == (base@ & 0x0000_FFFF_FFFF_F000) | attr.0,
    {
        Self((base.as_u64() & Self::ADDRESS_BITS) | attr.bits())
    }

    pub fn repr(&self) -> (r: u64)
        ensures
            r == self.0,
    {
        self.0
    }

    pub fn is_null(&self) -> (r: bool)
        ensures
            r == (self.0 == 0),
    {
        self.0 == 0
    }

    pub fn page_exists(&self) -> (r: bool)
        ensures
            r == (self.0 & 1 == 1),
    {
        self.contains(PageAttribute(PageAttribute::PRESENT))
    }

    pub fn contains(&self, flags: PageAttribute) -> (r: bool)
        ensures
            r == (self.0 & flags.0 == flags.0),
    {
        (self.0 & flags.bits()) == flags.bits()
    }

    pub fn insert(&mut self, flags: PageAttribute)
        ensures
            final(self).0 == old(self).0 | flags.0,
    {
        self.0 = self.0 | flags.bits();
    }

    pub fn remove(&mut self, flags: PageAttribute)
        ensures
            final(self).0 == old(self).0 & !flags.0,
    {
        self.0 = self.0 & !flags.bits();
    }

    pub fn set(&mut self, flags: PageAttribute, value: bool)
        ensures
            final(self).0 == if value { old(self).0 | flags.0 } else { old(self).0 & !flags.0 },
    {
        if value {
            self.insert(flags);
        } else {
            self.remove(flags);
        }
    }

    pub fn frame_address(&self) -> (r: PhysicalAddress)
        ensures
            r@ == self.0 & 0x0000_FFFF_FFFF_F000,
    {
        PhysicalAddress::new(self.0 & Self::ADDRESS_BITS)
    }

    pub fn access_rights(&self) -> (r: PageAttribute)
        ensures
            r.0 == self.0 & 0x8000_0000_0000_0006,
    {
        PageAttribute::from_bits_retain(self.0 & PageAttribute::ACCESS_RIGHTS)
    }

    pub fn set_frame_address(&mut self, pa: PhysicalAddress)
        ensures
            final(self).0 == (pa@ & 0x0000_FFFF_FFFF_F000) | (old(self).0 & !0x0000_FFFF_FFFF_F000u64),
    {
        self.0 = (pa.as_u64() & Self::ADDRESS_BITS) | (self.0 & !Self::ADDRESS_BITS);
    }

    pub fn set_attributes(&mut self, flags: PageAttribute)
        ensures
            final(self).0 == (old(self).0 & 0x0000_FFFF_FFFF_F000) | (flags.0 & !0x0000_FFFF_FFFF_F000u64),
    {
        self.0 = (self.0 & Self::ADDRESS_BITS) | (flags.bits() & !Self::ADDRESS_BITS);
    }

    /// Sets the present, write and no-execute bits as `new_attr` has them.
    pub fn set_access_rights(&mut self, new_attr: PageAttribute)
        ensures
            ({
                let x0 = old(self).0;
                let x1 = if new_attr.0 & 1 == 1 { x0 | 1 } else { x0 & !1u64 };
                let x2 = if new_attr.0 & 2 == 2 { x1 | 2 } else { x1 & !2u64 };
                let x3 = if new_attr.0 & 0x8000_0000_0000_0000 == 0x8000_0000_0000_0000 {
                    x2 | 0x8000_0000_0000_0000
                } else {
                    x2 & !0x8000_0000_0000_0000u64
                };
                final(self).0 == x3
            }),
    {
        let p = PageAttribute(PageAttribute::PRESENT);
        self.set(p, new_attr.contains(p));
        let w = PageAttribute(PageAttribute::WRITE);
        self.set(w, new_attr.contains(w));
        let nx = PageAttribute(PageAttribute::NO_EXECUTE);
        self.set(nx, new_attr.contains(nx));
    }

    /// Widens the entry's rights to what `new_attr` grants: clears no-execute when
    /// `new_attr` allows execution and sets write when `new_attr` allows writing.
    /// Returns `Some` when the entry changed.
    pub fn accept(&mut self, new_attr: PageAttribute) -> (r: Option<()>)
        ensures
            (final(self).0, r is Some) == spec_accept(old(self).0, new_attr.0),
    {
        let mut result = false;
        let nx = PageAttribute(PageAttribute::NO_EXECUTE);
        let w = PageAttribute(PageAttribute::WRITE);
        if self.contains(nx) && !new_attr.contains(nx) {
            self.remove(nx);
            result = true;
        }
        if !self.contains(w) && new_attr.contains(w) {
            self.insert(w);
            result = true;
        }
        if result {
            Some(())
        } else {
            None
        }
    }

    /// Moves the entry's frame `rhs` bytes further, keeping its attributes.
    pub fn add_assign(&mut self, rhs: u64)
        requires
            (old(self).0 & 0x0000_FFFF_FFFF_F000) + rhs <= u64::MAX,
        ensures
            final(self).0 == (((old(self).0 & 0x0000_FFFF_FFFF_F000) + rhs) as u64 & 0x0000_FFFF_FFFF_F000)
                | (old(self).0 & !0x0000_FFFF_FFFF_F000u64),
    {
        let pa = PhysicalAddress::new(self.frame_address().as_u64() + rhs);
        self.set_frame_address(pa);
    }
}

impl From<PhysicalAddress> for PageTableEntry {
    fn from(value: PhysicalAddress) -> (r: Self) {
        Self(value.as_u64())
    }
}

impl FromSpecImpl<PhysicalAddress> for PageTableEntry {
    open spec fn obeys_from_spec() -> bool {
        true
    }

    open spec fn from_spec(v: PhysicalAddress) -> Self {
        PageTableEntry(v@)
    }
}

/// A level of the page table.
#[derive(Debug, Clone, Copy, PartialEq, Eq, PartialOrd, Ord, Structural)]
pub enum PageLevel {
    /// The lowest level of the Page Table.
    Level1,
    /// The official name is "Page Directory Table"
    Level2,
    /// The official name is "Page Directory Pointer Table"
    Level3,
    /// The top level page table in 4-level paging, officially named "Page Map Level 4 Table".
    Level4,
}

impl PageLevel {
    pub const MASK_MAX_VA: u64 = 0x0000_FFFF_FFFF_FFFF;
    pub const MASK_PER_LEVEL: u64 = 0x1FF;
    pub const BITS_PER_LEVEL: u64 = 9;
    pub const FIRST_LEVEL_BITS: u64 = 12;
    /// Where the recursive mapping shows the entries of each level.
    pub const RECURSIVE_LV1: u64 = 0xFFFF_FF00_0000_0000;
    pub const RECURSIVE_LV2: u64 = 0xFFFF_FF7F_8000_0000;
    pub const RECURSIVE_LV3: u64 = 0xFFFF_FF7F_BFC0_0000;
    pub const RECURSIVE_LV4: u64 = 0xFFFF_FF7F_BFDF_E000;

    /// How many levels lie below this one.
    pub open spec fn spec_depth(&self) -> u64 {
        match *self {
            Self::Level1 => 0,
            Self::Level2 => 1,
            Self::Level3 => 2,
            Self::Level4 => 3,
        }
    }

    pub open spec fn spec_shift(&self) -> u64 {
        (12 + 9 * self.spec_depth()) as u64
    }

    pub open spec fn spec_addr(&self, component: u64) -> u64 {
        (((component & 0x1FF) << self.spec_shift()) + if *self == PageLevel::Level4 && component >= 0x100 {
            0xFFFF_0000_0000_0000u64
        } else {
            0
        }) as u64
    }

    /// The bit position of the address bits that index this level.
    pub fn shift(&self) -> (r: u64)
        ensures
            r == self.spec_shift(),
    {
        12 + 9 * match *self {
            Self::Level1 => 0,
            Self::Level2 => 1,
            Self::Level3 => 2,
            Self::Level4 => 3,
        }
    }

    /// The offset mask of a page of this level: its size minus one.
    pub fn size_of_page(&self) -> (r: u64)
        ensures
            r == ((1u64 << self.spec_shift()) - 1) as u64,
    {
        let s = self.shift();
        proof {
            assert(s == 12 || s == 21 || s == 30 || s == 39);
            lemma_page_bits();
        }
        (1u64 << s).wrapping_sub(1)
    }

    /// Returns the component of the current level specified by linear address.
    pub fn component(&self, va: u64) -> (r: u64)
        ensures
            r == (va >> self.spec_shift()) & 0x1FF,
    {
        (va >> self.shift()) & Self::MASK_PER_LEVEL
    }

    /// The linear address whose component at this level is `component` and whose other
    /// components are zero (canonical: the upper half for the upper half of level 4).
    pub fn addr(&self, component: u64) -> (r: u64)
        ensures
            r == self.spec_addr(component),
    {
        let low = (component & Self::MASK_PER_LEVEL) << self.shift();
        let c = component & Self::MASK_PER_LEVEL;
        proof {
            assert(c <= 0x1FF) by (bit_vector)
                requires
                    c == component & 0x1FF,
            ;
            let s = self.spec_shift();
            assert(s <= 39);
            assert(c << s <= 0xFF80_0000_0000) by (bit_vector)
                requires
                    c <= 0x1FF,
                    s <= 39,
            ;
        }
        let high = match *self {
            PageLevel::Level4 => {
                if component >= 0x100 {
                    0xFFFF_0000_0000_0000u64
                } else {
                    0
                }
            },
            _ => 0,
        };
        low + high
    }

    /// The linear address where the recursive mapping shows the entry of this level
    /// that translates `va`.
    pub fn pte_of(&self, va: u64) -> (r: u64)
        ensures
            r == match *self {
                PageLevel::Level1 => 0xFFFF_FF00_0000_0000 + (va % 0x1_0000_0000_0000) / 0x1000 * 8,
                PageLevel::Level2 => 0xFFFF_FF7F_8000_0000 + (va % 0x1_0000_0000_0000) / 0x20_0000 * 8,
                PageLevel::Level3 => 0xFFFF_FF7F_BFC0_0000 + (va % 0x1_0000_0000_0000) / 0x4000_0000 * 8,
                PageLevel::Level4 => 0xFFFF_FF7F_BFDF_E000 + (va % 0x1_0000_0000_0000) / 0x80_0000_0000 * 8,
            },
    {
        let base = va % 0x1_0000_0000_0000;
        match *self {
            Self::Level1 => Self::RECURSIVE_LV1 + (base / 0x1000) * 8,
            Self::Level2 => Self::RECURSIVE_LV2 + (base / 0x20_0000) * 8,
            Self::Level3 => Self::RECURSIVE_LV3 + (base / 0x4000_0000) * 8,
            Self::Level4 => Self::RECURSIVE_LV4 + (base / 0x80_0000_0000) * 8,
        }
    }
}

/// The error code of a page fault
#[derive(Debug, Clone, Copy, PartialEq, Eq, Structural)]
pub struct PageErrorCode(pub u16);

impl PageErrorCode {
    /// When set, the page fault was caused by a page-protection violation.
    /// When not set, it was caused by a non-present page.
    pub const PRESENT: u16 = 0b0000_0000_0000_0001;
    /// When set, the page fault was caused by a write access.
    pub const WRITE: u16 = 0b0000_0000_0000_0010;
    /// When set, the page fault was caused while CPL = 3.
    pub const USER: u16 = 0b0000_0000_0000_0100;
    /// When set, one or more page directory entries contain reserved bits which are set to 1.
    pub const RESERVED_BITS: u16 = 0b0000_0000_0000_1000;
    /// When set, the page fault was caused by an instruction fetch.
    pub const FETCH: u16 = 0b0000_0000_0001_0000;
    /// When set, the page fault was caused by a protection-key violation.
    pub const PROTECTION_KEY: u16 = 0b0000_0000_0010_0000;
    /// When set, the page fault was caused by a shadow stack access.
    pub const SHADOW_STACK: u16 = 0b0000_0000_0100_0000;
    /// When set, the fault was due to an SGX violation.
    pub const SGX: u16 = 0b1000_0000_0000_0000;

    pub fn bits(&self) -> (r: u16)
        ensures
            r == self.0,
    {
        self.0
    }

    pub fn from_bits_retain(bits: u16) -> (r: Self)
        ensures
            r.0 == bits,
    {
        Self(bits)
    }

    pub fn empty() -> (r: Self)
        ensures
            r.0 == 0,
    {
        Self(0)
    }

    pub fn is_empty(&self) -> (r: bool)
        ensures
            r == (self.0 == 0),
    {
        self.0 == 0
    }

    pub fn contains(&self, other: Self) -> (r: bool)
        ensures
            r == (self.0 & other.0 == other.0),
    {
        self.0 & other.0 == other.0
    }

    pub fn union(self, other: Self) -> (r: Self)
        ensures
            r.0 == self.0 | other.0,
    {
        Self(self.0 | other.0)
    }

    pub fn intersection(self, other: Self) -> (r: Self)
        ensures
            r.0 == self.0 & other.0,
    {
        Self(self.0 & other.0)
    }

    pub fn difference(self, other: Self) -> (r: Self)
        ensures
            r.0 == self.0 & !other.0,
    {
        Self(self.0 & !other.0)
    }

    pub fn is_page_present(&self) -> (r: bool)
        ensures
            r == (self.0 & 0x01 == 0x01),
    {
        self.contains(Self::from_bits_retain(Self::PRESENT))
    }

    pub fn could_not_read(&self) -> (r: bool)
        ensures
            r == (self.0 & 0x02 != 0x02 && self.0 & 0x10 != 0x10),
    {
        !self.could_not_write() && !self.could_not_execute()
    }

    pub fn could_not_write(&self) -> (r: bool)
        ensures
            r == (self.0 & 0x02 == 0x02),
    {
        self.contains(Self::from_bits_retain(Self::WRITE))
    }

    pub fn could_not_execute(&self) -> (r: bool)
        ensures
            r == (self.0 & 0x10 == 0x10),
    {
        self.contains(Self::from_bits_retain(Self::FETCH))
    }
}

/// What a page fault was about.
#[derive(Debug, Clone, Copy, PartialEq, Eq, PartialOrd, Ord, Structural)]
pub enum PageErrorKind {
    NotPresent,
    CannotExecute,
    CannotWrite,
    CannotRead,
}

impl PageErrorKind {
    pub fn from_err(code: PageErrorCode) -> (r: Self)
        ensures
            r == if code.0 & 0x01 == 0x01 {
                if code.0 & 0x10 == 0x10 {
                    PageErrorKind::CannotExecute
                } else if code.0 & 0x02 == 0x02 {
                    PageErrorKind::CannotWrite
                } else {
                    PageErrorKind::CannotRead
                }
            } else {
                PageErrorKind::NotPresent
            },
    {
        if code.is_page_present() {
            if code.could_not_execute() {
                Self::CannotExecute
            } else if code.could_not_write() {
                Self::CannotWrite
            } else {
                Self::CannotRead
            }
        } else {
            Self::NotPresent
        }
    }
}


/// The page-table slot (bits 39-47) that an address falls in.
pub open spec fn slot_of(x: u64) -> u64 {
    (x >> 39u64) & 0x1FF
}

/// What the page manager does with a mapping request before it touches the tables.
#[derive(Debug, Clone, Copy, PartialEq, Eq, Structural)]
pub enum MmapPlan {
    /// The request is refused: the result is 0.
    Refuse,
    /// Map `len` bytes at `va` from `template` (frame and attributes of the first page).
    MapRange { va: u64, len: u64, template: PageTableEntry },
    /// Allocate `len` bytes of physical pages, then map them at `va` with `attr`.
    /// When `must_succeed` holds, a failure of the mapping is fatal.
    AllocateAndMap { va: u64, len: u64, attr: PageAttribute, must_succeed: bool },
    /// Change the protection of the mapped range `va .. va + len`.
    Protect { va: u64, len: u64, protection: MProtect },
}

/// How a range is cut into pages.
#[derive(Debug, Clone, Copy, PartialEq, Eq, Structural)]
pub struct MapLayout {
    /// Whether the range is mapped with 2M pages (else 4K pages).
    pub large: bool,
    pub page_size: u64,
    /// How many pages the range takes.
    pub count: u64,
}

/// What happens to a table entry on the way to a page.
#[derive(Debug, Clone, Copy, PartialEq, Eq, Structural)]
pub enum TableStep {
    /// The table exists; the entry becomes `entry`, and the TLB is flushed when `changed`.
    Accept { entry: PageTableEntry, changed: bool },
    /// The table is missing: a zeroed page has to be allocated for it.
    Allocate,
}

/// How a protection change is carried out.
#[derive(Debug, Clone, Copy, PartialEq, Eq, Structural)]
pub struct ProtectLayout {
    /// The length rounded up to whole 4K pages.
    pub len: u64,
    /// How many 4K pages that is.
    pub count: u64,
    /// The rights that the pages get.
    pub new_attr: PageAttribute,
    /// The rights that the tables above them must at least grant.
    pub parent_template: PageAttribute,
}

/// The page manager's decisions. Reading and writing the tables themselves
/// (through the recursive mapping) is left to the caller.
pub struct PageManager;

impl PageManager {
    pub const PAGE_SIZE_4K: u64 = 0x1000;
    pub const PAGE_SIZE_2M: u64 = 0x20_0000;
    pub const PAGE_SIZE_M1: u64 = 0xFFF;
    pub const PAGE_USER_MIN: u64 = 0x000;
    pub const PAGE_USER_MAX: u64 = 0x0FF;
    pub const PAGE_DIRECT_MAP: u64 = 0x140;
    pub const PAGE_HEAP_MIN: u64 = 0x1FC;
    pub const PAGE_HEAP_MAX: u64 = 0x1FD;
    pub const PAGE_RECURSIVE: u64 = 0x1FE;
    /// Where the direct mapping of physical memory starts (`Level4.addr(PAGE_DIRECT_MAP)`).
    pub const DIRECT_BASE: u64 = 0xFFFF_A000_0000_0000;
    /// `Level3.size_of_page()`.
    pub const SIZE_DIRECT_MAP: u64 = 0x3FFF_FFFF;

    /// The attributes of a memory-mapped I/O range: no-execute, uncached, writable, present.
    pub const MMIO_ATTRIBUTES: u64 = 0x8000_0000_0000_001B;
    /// The attributes of a frame buffer: no-execute, 2M pages, write-combining, writable,
    /// user, present.
    pub const FRAMEBUFFER_ATTRIBUTES: u64 = 0x8000_0000_0000_0097;

    /// The linear address at which a physical address is directly mapped.
    pub open spec fn spec_direct_map(pa: PhysicalAddress) -> int {
        0xFFFF_A000_0000_0000u64 + pa@
    }

    /// The physical address that a linear address of the direct mapping stands for.
    pub open spec fn spec_direct_unmap(va: u64) -> Option<PhysicalAddress> {
        if va >= 0xFFFF_A000_0000_0000u64 && va - 0xFFFF_A000_0000_0000u64 < 0x3FFF_FFFFu64 {
            Some(PhysicalAddress::spec_new((va - 0xFFFF_A000_0000_0000u64) as u64))
        } else {
            None
        }
    }

    /// The linear address at which physical address `pa` is directly mapped.
    pub fn direct_map(pa: PhysicalAddress) -> (r: u64)
        requires
            pa@ <= u64::MAX - 0xFFFF_A000_0000_0000u64,
        ensures
            r == Self::spec_direct_map(pa),
    {
        Self::DIRECT_BASE + pa.as_u64()
    }

    /// The physical address that a directly mapped linear address stands for.
    pub fn direct_unmap(va: u64) -> (r: Option<PhysicalAddress>)
        ensures
            r == Self::spec_direct_unmap(va),
    {
        if va >= Self::DIRECT_BASE && va - Self::DIRECT_BASE < Self::SIZE_DIRECT_MAP {
            let pa = PhysicalAddress::new(va - Self::DIRECT_BASE);
            proof {
                PhysicalAddress::lemma_spec_new_view(pa);
            }
            Some(pa)
        } else {
            None
        }
    }

    /// The overflow-free condition of a request: the direct-mapped address of a
    /// device range of nonzero length fits, and the sum `va + len` that the range
    /// check of a kernel or user request computes fits. Zero lengths always pass.
    pub open spec fn request_fits(request: MemoryMapRequest) -> bool {
        match request {
            MemoryMapRequest::Mmio(base, len) => len != 0 ==> base@ <= u64::MAX - 0xFFFF_A000_0000_0000u64,
            MemoryMapRequest::Framebuffer(base, len) => len != 0 ==> base@ <= u64::MAX - 0xFFFF_A000_0000_0000u64,
            MemoryMapRequest::Kernel(va, len, _) => {
                (slot_of(va) >= 0x1FC && slot_of(va) < 0x1FD && slot_of(len) < 1)
                    ==> va + len <= u64::MAX
            },
            MemoryMapRequest::User(va, len, _) => {
                (slot_of(va) <= 0xFF && slot_of(len) <= 0xFF) ==> va + len <= u64::MAX
            },
            MemoryMapRequest::MProtect(_, _, _) => true,
        }
    }

    /// The attributes of the pages of a user request.
    pub open spec fn spec_user_attributes(attr: MProtect) -> u64 {
        (protect_bits(attr) | 0x04) & !0x0E00u64 | 0x0200
    }

    /// The attributes of the pages of a user request: those of the protection, reachable
    /// from user mode, marked reserved.
    pub fn user_attributes(attr: MProtect) -> (r: PageAttribute)
        ensures
            r.0 == Self::spec_user_attributes(attr),
    {
        let mut template = PageAttribute::from(attr);
        template.insert(PageAttribute(PageAttribute::USER));
        template.set_avl(PageTableAvl::Reserved);
        proof {
            lemma_page_bits();
        }
        template
    }

    /// The plan for a request, as `mmap` decides it.
    pub open spec fn spec_mmap_plan(request: MemoryMapRequest) -> MmapPlan {
        match request {
            MemoryMapRequest::Mmio(base, len) => if len == 0 {
                MmapPlan::Refuse
            } else {
                MmapPlan::MapRange {
                    va: (0xFFFF_A000_0000_0000u64 + base@) as u64,
                    len,
                    template: PageTableEntry((base@ & 0x0000_FFFF_FFFF_F000) | 0x8000_0000_0000_001B),
                }
            },
            MemoryMapRequest::Framebuffer(base, len) => if len == 0 {
                MmapPlan::Refuse
            } else {
                MmapPlan::MapRange {
                    va: (0xFFFF_A000_0000_0000u64 + base@) as u64,
                    len,
                    template: PageTableEntry((base@ & 0x0000_FFFF_FFFF_F000) | 0x8000_0000_0000_0097),
                }
            },
            MemoryMapRequest::Kernel(va, len, attr) => if slot_of(va) < 0x1FC || slot_of(va)
                >= 0x1FD || slot_of(len) >= 1 || slot_of((va + len) as u64) >= 0x1FD || len == 0 {
                MmapPlan::Refuse
            } else {
                MmapPlan::AllocateAndMap {
                    va,
                    len,
                    attr: PageAttribute(protect_bits(attr)),
                    must_succeed: false,
                }
            },
            MemoryMapRequest::User(va, len, attr) => if slot_of(va) > 0xFF || slot_of(len) > 0xFF
                || slot_of((va + len) as u64) > 0xFF || len == 0 {
                MmapPlan::Refuse
            } else {
                MmapPlan::AllocateAndMap {
                    va,
                    len,
                    attr: PageAttribute(Self::spec_user_attributes(attr)),
                    must_succeed: true,
                }
            },
            MemoryMapRequest::MProtect(va, len, attr) => if len == 0 {
                MmapPlan::Refuse
            } else {
                MmapPlan::Protect { va, len, protection: attr }
            },
        }
    }

    /// Decides what a mapping request asks of the page tables: refuse it, map a physical
    /// range into the direct mapping, allocate and map memory, or change a protection.
    pub fn mmap_plan(request: MemoryMapRequest) -> (r: MmapPlan)
        requires
            Self::request_fits(request),
        ensures
            r == Self::spec_mmap_plan(request),
    {
        let l4 = PageLevel::Level4;
        match request {
            MemoryMapRequest::Mmio(base, len) => {
                if len == 0 {
                    return MmapPlan::Refuse;
                }
                let va = Self::direct_map(base);
                let template = PageTableEntry::new(base, PageAttribute(Self::MMIO_ATTRIBUTES));
                MmapPlan::MapRange { va, len, template }
            },
            MemoryMapRequest::Framebuffer(base, len) => {
                if len == 0 {
                    return MmapPlan::Refuse;
                }
                let va = Self::direct_map(base);
                let template = PageTableEntry::new(base, PageAttribute(Self::FRAMEBUFFER_ATTRIBUTES));
                MmapPlan::MapRange { va, len, template }
            },
            MemoryMapRequest::Kernel(va, len, attr) => {
                if l4.component(va) < Self::PAGE_HEAP_MIN || l4.component(va) >= Self::PAGE_HEAP_MAX
                    || l4.component(len) >= (Self::PAGE_HEAP_MAX - Self::PAGE_HEAP_MIN)
                    || l4.component(va + len) >= Self::PAGE_HEAP_MAX {
                    return MmapPlan::Refuse;
                }
                if len == 0 {
                    return MmapPlan::Refuse;
                }
                MmapPlan::AllocateAndMap {
                    va,
                    len,
                    attr: PageAttribute::from(attr),
                    must_succeed: false,
                }
            },
            MemoryMapRequest::User(va, len, attr) => {
                if l4.component(va) < Self::PAGE_USER_MIN || l4.component(va) > Self::PAGE_USER_MAX
                    || l4.component(len) > (Self::PAGE_USER_MAX - Self::PAGE_USER_MIN)
                    || l4.component(va + len) > Self::PAGE_USER_MAX {
                    return MmapPlan::Refuse;
                }
                if len == 0 {
                    return MmapPlan::Refuse;
                }
                let template = Self::user_attributes(attr);
                MmapPlan::AllocateAndMap { va, len, attr: template, must_succeed: true }
            },
            MemoryMapRequest::MProtect(va, len, attr) => {
                if len == 0 {
                    return MmapPlan::Refuse;
                }
                MmapPlan::Protect { va, len, protection: attr }
            },
        }
    }

    /// What `mmap` returns once the plan was carried out: the address where the range
    /// starts when the work succeeded, else 0.
    pub fn mmap_result(plan: MmapPlan, succeeded: bool) -> (r: u64)
        ensures
            r == match plan {
                MmapPlan::Refuse => 0,
                MmapPlan::MapRange { va, .. } => if succeeded { va } else { 0 },
                MmapPlan::AllocateAndMap { va, .. } => if succeeded { va } else { 0 },
                MmapPlan::Protect { va, .. } => if succeeded { va } else { 0 },
            },
    {
        match plan {
            MmapPlan::Refuse => 0,
            MmapPlan::MapRange { va, .. } => if succeeded { va } else { 0 },
            MmapPlan::AllocateAndMap { va, .. } => if succeeded { va } else { 0 },
            MmapPlan::Protect { va, .. } => if succeeded { va } else { 0 },
        }
    }

    /// Cuts `len` bytes at `va` into pages: 2M pages when the template asks for large
    /// pages, else 4K pages. An address that is not aligned to the page size is refused
    /// and handed back.
    pub fn map_layout(va: u64, len: u64, template: PageTableEntry) -> (r: Result<MapLayout, u64>)
        requires
            len > 0,
            len <= u64::MAX - 0x1F_FFFF,
        ensures
            ({
                let large = template.0 & 0x80 == 0x80;
                let size: u64 = if large { 0x20_0000 } else { 0x1000 };
                match r {
                    Ok(layout) => {
                        &&& va % size == 0
                        &&& layout.large == large
                        &&& layout.page_size == size
                        &&& layout.count == (len + size - 1) / (size as int)
                    },
                    Err(e) => va % size != 0 && e == va,
                }
            }),
    {
        let large = template.contains(PageAttribute(PageAttribute::LARGE_2M));
        let page_size = if large {
            Self::PAGE_SIZE_2M
        } else {
            Self::PAGE_SIZE_4K
        };
        let page_mask = page_size - 1;
        proof {
            lemma_page_bits();
            assert(va & 0x1F_FFFF == va % 0x20_0000);
            assert(va & 0xFFF == va % 0x1000);
        }
        if (va & page_mask) != 0 {
            return Err(va);
        }
        let count = (len + page_mask) / page_size;
        Ok(MapLayout { large, page_size, count })
    }

    /// The tables above a page are at least present and writable, with the page's rights.
    pub fn parent_template(template: PageTableEntry) -> (r: PageTableEntry)
        ensures
            r.0 == template.0 | 0x03,
    {
        let mut parent = template;
        parent.insert(PageAttribute(0x03));
        parent
    }

    /// Whether the entry of the page directory that a page falls in stands in the way:
    /// for a 2M page, a present table that is not a 2M page; for a 4K page, a 2M page.
    /// Mapping over it is a fatal error.
    pub fn leaf_conflict(layout: &MapLayout, pdte: PageTableEntry) -> (r: bool)
        ensures
            r == if layout.large {
                pdte.0 & 1 == 1 && pdte.0 & 0x80 != 0x80
            } else {
                pdte.0 & 0x80 == 0x80
            },
    {
        let large = PageAttribute(PageAttribute::LARGE_2M);
        if layout.large {
            pdte.contains(PageAttribute(PageAttribute::PRESENT)) && !pdte.contains(large)
        } else {
            pdte.contains(large)
        }
    }

    /// The address and the entry of the next page: both move one page further.
    pub fn next_page(layout: &MapLayout, va: u64, template: PageTableEntry) -> (r: (u64, PageTableEntry))
        requires
            va + layout.page_size <= u64::MAX,
            (template.0 & 0x0000_FFFF_FFFF_F000) + layout.page_size <= u64::MAX,
        ensures
            r.0 == va + layout.page_size,
            r.1.0 == (((template.0 & 0x0000_FFFF_FFFF_F000) + layout.page_size) as u64
                & 0x0000_FFFF_FFFF_F000) | (template.0 & !0x0000_FFFF_FFFF_F000u64),
    {
        let mut next = template;
        next.add_assign(layout.page_size);
        (va + layout.page_size, next)
    }

    /// The step that `table_step` takes.
    pub open spec fn spec_table_step(existing: PageTableEntry, template: PageTableEntry) -> TableStep {
        if existing.0 & 1 == 1 {
            let (x, changed) = spec_accept(existing.0, template.0 & 0x8000_0000_0000_0006);
            TableStep::Accept { entry: PageTableEntry(x), changed }
        } else {
            TableStep::Allocate
        }
    }

    /// What to do with the entry of a table on the way to a page: an existing table
    /// accepts the rights of the template; a missing one has to be allocated.
    pub fn table_step(existing: PageTableEntry, template: PageTableEntry) -> (r: TableStep)
        ensures
            r == Self::spec_table_step(existing, template),
    {
        if existing.page_exists() {
            let mut entry = existing;
            let changed = entry.accept(template.access_rights()).is_some();
            TableStep::Accept { entry, changed }
        } else {
            TableStep::Allocate
        }
    }

    /// The entry of a newly allocated table at `pa`: present, with the template's rights.
    pub fn new_table_entry(pa: PhysicalAddress, template: PageTableEntry) -> (r: PageTableEntry)
        ensures
            r.0 == (pa@ & 0x0000_FFFF_FFFF_F000) | (1u64 | (template.0 & 0x8000_0000_0000_0006)),
    {
        let rights = template.access_rights();
        PageTableEntry::new(pa, PageAttribute(PageAttribute::PRESENT | rights.bits()))
    }

    /// Rounds `value` up to a multiple of `mask + 1`, where `mask + 1` is a power of two.
    pub fn round_up(value: u64, mask: u64) -> (r: u64)
        requires
            value + mask <= u64::MAX,
        ensures
            r == (value + mask) as u64 & !mask,
    {
        (value + mask) & !mask
    }

    /// How a protection change of `len` bytes is carried out: whole 4K pages, with the
    /// rights of `attr` (never as 2M pages), the tables above them at least writable.
    pub fn protect_layout(len: u64, attr: MProtect) -> (r: ProtectLayout)
        requires
            len <= u64::MAX - 0xFFF,
        ensures
            r.len == (len + 0xFFF) as u64 & !0xFFFu64,
            r.count == r.len / 0x1000,
            r.len == r.count * 0x1000,
            r.len >= len,
            r.len < len + 0x1000,
            r.new_attr.0 == protect_bits(attr) & !0x80u64,
            r.parent_template.0 == (protect_bits(attr) & !0x80u64) | 2,
    {
        let rounded = Self::round_up(len, Self::PAGE_SIZE_4K - 1);
        proof {
            let s = (len + 0xFFF) as u64;
            lemma_page_bits();
            assert(s & !0xFFFu64 == s - s % 0x1000);
        }
        let count = rounded / Self::PAGE_SIZE_4K;
        let mut new_attr = PageAttribute::from(attr);
        new_attr.remove(PageAttribute(PageAttribute::LARGE_2M));
        let mut parent_template = new_attr;
        parent_template.insert(PageAttribute(PageAttribute::WRITE));
        ProtectLayout { len: rounded, count, new_attr, parent_template }
    }
}


/// A physical address that lies within the direct mapping comes back unchanged from the
/// linear address at which it is mapped.
pub proof fn lemma_direct_map_roundtrip(pa: PhysicalAddress)
    requires
        pa@ < 0x3FFF_FFFF,
    ensures
        PageManager::spec_direct_unmap(PageManager::spec_direct_map(pa) as u64) == Some(pa),
{
    PhysicalAddress::lemma_spec_new_view(pa);
}

/// A user request is only ever mapped below slot 0x100 of the lower half, with pages
/// that user mode may reach, and a failure to map it is fatal; a kernel request is only
/// ever mapped in the kernel heap slot, with pages that user mode may not reach.
pub proof fn lemma_mmap_regions(request: MemoryMapRequest)
    ensures
        match (request, PageManager::spec_mmap_plan(request)) {
            (MemoryMapRequest::User(_, _, _), MmapPlan::AllocateAndMap { va, len, attr, must_succeed }) => {
                &&& slot_of(va) <= 0xFF
                &&& slot_of((va + len) as u64) <= 0xFF
                &&& attr.0 & 0x04 == 0x04
                &&& must_succeed
            },
            (MemoryMapRequest::Kernel(_, _, _), MmapPlan::AllocateAndMap { va, attr, must_succeed, .. }) => {
                &&& slot_of(va) == 0x1FC
                &&& attr.0 & 0x04 == 0
                &&& !must_succeed
            },
            (MemoryMapRequest::User(_, _, _), plan) => plan is Refuse,
            (MemoryMapRequest::Kernel(_, _, _), plan) => plan is Refuse,
            _ => true,
        },
{
    assert(forall|x: u64| #![auto] ((x | 4) & !0x0E00u64 | 0x0200) & 4 == 4) by (bit_vector);
    assert(0x8000_0000_0000_0001u64 & 4 == 0 && 0x8000_0000_0000_0003u64 & 4 == 0 && 1u64 & 4 == 0
        && 0u64 & 4 == 0) by (bit_vector);
}

/// An entry that accepted some rights grants them: it is writable when they allow
/// writing and executable when they allow execution; its frame and its other bits stay.
/// Accepting the same rights once more changes nothing.
pub proof fn lemma_accept_grants(x: u64, rights: u64)
    ensures
        ({
            let (y, _) = spec_accept(x, rights);
            &&& rights & 2 == 2 ==> y & 2 == 2
            &&& rights & 0x8000_0000_0000_0000 == 0 ==> y & 0x8000_0000_0000_0000 == 0
            &&& y & !0x8000_0000_0000_0002u64 == x & !0x8000_0000_0000_0002u64
            &&& spec_accept(y, rights) == (y, false)
        }),
{
    let clear_nx = x & 0x8000_0000_0000_0000 == 0x8000_0000_0000_0000 && rights
        & 0x8000_0000_0000_0000 != 0x8000_0000_0000_0000;
    let x1 = if clear_nx { x & !0x8000_0000_0000_0000u64 } else { x };
    let set_w = x1 & 2 != 2 && rights & 2 == 2;
    let y = if set_w { x1 | 2 } else { x1 };
    assert({
        &&& rights & 2 == 2 ==> y & 2 == 2
        &&& rights & 0x8000_0000_0000_0000 == 0 ==> y & 0x8000_0000_0000_0000 == 0
        &&& y & !0x8000_0000_0000_0002u64 == x & !0x8000_0000_0000_0002u64
        &&& !(y & 0x8000_0000_0000_0000 == 0x8000_0000_0000_0000 && rights
            & 0x8000_0000_0000_0000 != 0x8000_0000_0000_0000)
        &&& !(y & 2 != 2 && rights & 2 == 2)
    }) by (bit_vector)
        requires
            clear_nx == (x & 0x8000_0000_0000_0000 == 0x8000_0000_0000_0000 && rights
                & 0x8000_0000_0000_0000 != 0x8000_0000_0000_0000),
            x1 == if clear_nx { x & !0x8000_0000_0000_0000u64 } else { x },
            set_w == (x1 & 2 != 2 && rights & 2 == 2),
            y == if set_w { x1 | 2 } else { x1 },
    ;
}

/// The pages of a layout cover the range exactly: `count` pages hold `len` bytes, and
/// one page fewer would not.
pub proof fn lemma_layout_covers(len: u64, size: u64, count: u64)
    requires
        len > 0,
        size > 0,
        count == (len + size - 1) / (size as int),
    ensures
        count * size >= len,
        (count - 1) * size < len,
{
    let n = len + size - 1;
    assert(n == ((n / (size as int)) * size + n % (size as int))) by (nonlinear_arith)
        requires
            size > 0,
    ;
    assert(0 <= n % (size as int) < size) by (nonlinear_arith)
        requires
            size > 0,
    ;
    assert(count * size == (count - 1) * size + size) by (nonlinear_arith);
}

} // verus!
