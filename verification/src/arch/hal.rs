//! The x86_64 side of the hardware abstraction: interrupt flags, spinlocks, spin waits,
//! bit flags shared between processors, and the direct mapping of physical memory.

use vstd::prelude::*;
use crate::arch::page::PageManager;
use crate::hal::PhysicalAddress;

verus! {

broadcast use PhysicalAddress::lemma_spec_new;

/// The hardware abstraction of this architecture.
#[derive(Debug, Clone, Copy)]
pub struct Hal;

/// The interrupt flag of the flags register.
pub const RFLAGS_IF: usize = 0x200;

/// The flags register as it was before interrupts were disabled.
pub struct InterruptGuard(pub usize);

impl InterruptGuard {
    /// Whether interrupts were enabled before, so that dropping the guard enables them.
    pub fn restores_interrupts(&self) -> (r: bool)
        ensures
            r == (self.0 & 0x200 != 0),
    {
        self.0 & RFLAGS_IF != 0
    }
}

/// A lock that is taken by spinning.
pub struct Spinlock {
    pub locked: bool,
}

impl Spinlock {
    pub const LOCKED_VALUE: bool = true;
    pub const UNLOCKED_VALUE: bool = false;

    pub fn new() -> (r: Self)
        ensures
            !r.locked,
    {
        Spinlock { locked: Self::UNLOCKED_VALUE }
    }

    pub fn is_locked(&self) -> (r: bool)
        ensures
            r == self.locked,
    {
        self.locked == Self::LOCKED_VALUE
    }

    pub fn is_unlocked(&self) -> (r: bool)
        ensures
            r == !self.locked,
    {
        !self.is_locked()
    }

    /// Takes the lock if it is free; says whether it did.
    pub fn try_lock(&mut self) -> (r: bool)
        ensures
            r == !old(self).locked,
            final(self).locked,
    {
        if self.locked == Self::UNLOCKED_VALUE {
            self.locked = Self::LOCKED_VALUE;
            true
        } else {
            false
        }
    }

    /// Releases the lock; `None` when it was not taken.
    pub fn force_unlock(&mut self) -> (r: Option<()>)
        ensures
            r is Some == old(self).locked,
            !final(self).locked,
    {
        if self.locked == Self::LOCKED_VALUE {
            self.locked = Self::UNLOCKED_VALUE;
            Some(())
        } else {
            None
        }
    }
}

/// A spin wait that doubles the spinning up to 64 hints.
#[derive(Debug, Clone, Copy)]
pub struct SpinLoopWait(pub usize);

impl SpinLoopWait {
    pub fn new() -> (r: Self)
        ensures
            r.0 == 0,
    {
        SpinLoopWait(0)
    }

    pub fn reset(&mut self)
        ensures
            final(self).0 == 0,
    {
        self.0 = 0;
    }

    /// One wait: how many spin hints to give, twice as many as the time before, and at
    /// most 64.
    pub fn wait(&mut self) -> (r: u32)
        requires
            old(self).0 <= 6,
        ensures
            r == vstd::arithmetic::power2::pow2(old(self).0 as nat),
            final(self).0 == if old(self).0 < 6 { old(self).0 + 1 } else { old(self).0 as int },
    {
        let count = self.0;
        let mut spins: u32 = 1;
        let mut i: usize = 0;
        proof {
            vstd::arithmetic::power2::lemma2_to64();
        }
        while i < count
            invariant
                i <= count <= 6,
                spins == vstd::arithmetic::power2::pow2(i as nat),
            decreases count - i,
        {
            proof {
                vstd::arithmetic::power2::lemma_pow2_unfold((i + 1) as nat);
                vstd::arithmetic::power2::lemma2_to64();
            }
            spins = spins * 2;
            i += 1;
        }
        if count < 6 {
            self.0 = self.0 + 1;
        }
        spins
    }
}

/// Sets bit `position` of `value`; says whether it was set before.
pub fn fetch_set(value: &mut u64, position: u64) -> (r: bool)
    requires
        position < 64,
    ensures
        *final(value) == *old(value) | (1u64 << position),
        r == (*old(value) & (1u64 << position) != 0),
{
    let bit = 1u64 << position;
    let r = (*value & bit) != 0;
    *value = *value | bit;
    r
}

/// Clears bit `position` of `value`; says whether it was set before.
pub fn fetch_reset(value: &mut u64, position: u64) -> (r: bool)
    requires
        position < 64,
    ensures
        *final(value) == *old(value) & !(1u64 << position),
        r == (*old(value) & (1u64 << position) != 0),
{
    let bit = 1u64 << position;
    let r = (*value & bit) != 0;
    *value = *value & !bit;
    r
}

impl PhysicalAddress {
    /// The linear address at which this physical address is directly mapped.
    pub fn direct_map(&self) -> (r: u64)
        requires
            self@ <= u64::MAX - 0xFFFF_A000_0000_0000u64,
        ensures
            r == PageManager::spec_direct_map(*self),
    {
        PageManager::direct_map(*self)
    }

    /// The physical address of a linear address of the direct mapping.
    pub fn direct_unmap(va: u64) -> (r: Option<PhysicalAddress>)
        ensures
            r == PageManager::spec_direct_unmap(va),
    {
        PageManager::direct_unmap(va)
    }
}

} // verus!
