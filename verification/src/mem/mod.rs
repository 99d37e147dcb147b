//! Memory management requests.

use vstd::prelude::*;
use crate::hal::PhysicalAddress;

pub mod fixedvec;
pub mod mmio;

verus! {

/// Protection of a mapped range (`NoAccess`: the range is not accessible at all).
#[derive(Debug, Clone, Copy, PartialEq, Eq, Structural)]
pub enum MProtect {
    NoAccess,
    Read,
    ReadWrite,
    ReadExec,
}

/// A request to map memory.
#[derive(Debug, Clone, Copy, PartialEq, Eq, Structural)]
pub enum MemoryMapRequest {
    /// Memory-mapped I/O: physical base and length.
    Mmio(PhysicalAddress, u64),
    /// A frame buffer: physical base and length.
    Framebuffer(PhysicalAddress, u64),
    /// Kernel memory: virtual address, length, protection.
    Kernel(u64, u64, MProtect),
    /// User memory: virtual address, length, protection.
    User(u64, u64, MProtect),
    /// Changes the protection of a mapped range: virtual address, length, protection.
    MProtect(u64, u64, MProtect),
}

} // verus!
