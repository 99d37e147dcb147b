//! Memory-mapped I/O ranges: where a register of a mapped range lies.

use vstd::prelude::*;
use crate::drivers::pci::{PciBar, PciBarType};
use crate::hal::PhysicalAddress;

verus! {

/// A range of memory-mapped registers: `size` bytes from the linear address `base`.
#[derive(Debug, Clone, Copy, PartialEq, Eq, Structural)]
pub struct MmioSlice {
    pub base: u64,
    pub size: u64,
}

impl MmioSlice {
    /// The range that a successful mapping of `size` bytes at `va` gives; a mapping that
    /// failed (address 0) gives none.
    pub fn from_mapping(va: u64, size: u64) -> (r: Option<Self>)
        ensures
            va == 0 ==> r is None,
            va != 0 ==> r == Some(MmioSlice { base: va, size }),
    {
        if va == 0 {
            None
        } else {
            Some(MmioSlice { base: va, size })
        }
    }

    /// The physical range that a base address register asks to map, when it is a
    /// memory range.
    pub fn bar_range(bar: &PciBar) -> (r: Option<(PhysicalAddress, u64)>)
        requires
            bar.spec_scale() < usize::BITS,
        ensures
            bar.spec_bar_type() != PciBarType::IsolatedIO ==> r == Some((bar.spec_base(), (1usize << bar.spec_scale()) as u64)),
            bar.spec_bar_type() == PciBarType::IsolatedIO ==> r is None,
    {
        if bar.is_mmio() {
            Some((bar.base(), bar.size() as u64))
        } else {
            None
        }
    }

    /// The linear address of the register of `width` bytes at `offset`. Beyond the
    /// range there is none.
    pub fn effective_address(&self, offset: u64, width: u64) -> (r: u64)
        requires
            offset + width <= self.size,
            self.base + self.size <= u64::MAX,
        ensures
            r == self.base + offset,
    {
        self.base + offset
    }
}

} // verus!
