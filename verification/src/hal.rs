//! Hardware abstraction: physical addresses.

use vstd::prelude::*;
use vstd::std_specs::convert::FromSpecImpl;
use vstd::std_specs::ops::{AddSpecImpl, BitAndSpecImpl, BitOrSpecImpl, MulSpecImpl, NotSpecImpl, SubSpecImpl};
use core::ops::{Add, BitAnd, BitOr, Mul, Not, Sub};

verus! {

/// Representation of a physical address on a 64-bit machine.
pub type PhysicalAddressRepr = u64;

/// A physical address.
#[derive(Debug, Clone, Copy, PartialEq, Eq, PartialOrd, Ord, Structural)]
pub struct PhysicalAddress(PhysicalAddressRepr);

impl View for PhysicalAddress {
    type V = u64;

    closed spec fn view(&self) -> u64 {
        self.0
    }
}

impl PhysicalAddress {
    /// The address that a physical address of value `v` has.
    pub closed spec fn spec_new(v: u64) -> Self {
        PhysicalAddress(v)
    }

    /// The value of `spec_new(v)` is `v`, and every address is made that way.
    pub broadcast proof fn lemma_spec_new(v: u64)
        ensures
            #[trigger] Self::spec_new(v)@ == v,
    {
    }

    /// An address is the one made from its value.
    pub broadcast proof fn lemma_spec_new_view(pa: Self)
        ensures
            #[trigger] Self::spec_new(pa@) == pa,
    {
    }

    /// The null address.
    pub fn null() -> (r: Self)
        ensures
            r@ == 0,
    {
        Self(0)
    }

    pub fn new(val: PhysicalAddressRepr) -> (r: Self)
        ensures
            r@ == val,
    {
        Self(val)
    }

    pub fn from_usize(val: usize) -> (r: Self)
        ensures
            r@ == val,
    {
        Self(val as u64)
    }

    pub fn from_u64(val: u64) -> (r: Self)
        ensures
            r@ == val,
    {
        Self(val)
    }

    pub fn as_repr(&self) -> (r: PhysicalAddressRepr)
        ensures
            r == self@,
    {
        self.0
    }

    pub fn as_u64(&self) -> (r: u64)
        ensures
            r == self@,
    {
        self.0
    }

    pub fn as_usize(&self) -> (r: usize)
        requires
            self@ <= usize::MAX,
        ensures
            r == self@,
    {
        self.0 as usize
    }
}

impl Default for PhysicalAddress {
    fn default() -> (r: Self)
        ensures
            r@ == 0,
    {
        Self(0)
    }
}

impl From<PhysicalAddressRepr> for PhysicalAddress {
    fn from(val: PhysicalAddressRepr) -> (r: Self) {
        Self::new(val)
    }
}

impl FromSpecImpl<PhysicalAddressRepr> for PhysicalAddress {
    open spec fn obeys_from_spec() -> bool {
        true
    }

    open spec fn from_spec(v: PhysicalAddressRepr) -> Self {
        Self::spec_new(v)
    }
}

impl From<PhysicalAddress> for PhysicalAddressRepr {
    fn from(val: PhysicalAddress) -> (r: Self) {
        val.as_repr()
    }
}

impl FromSpecImpl<PhysicalAddress> for PhysicalAddressRepr {
    open spec fn obeys_from_spec() -> bool {
        true
    }

    open spec fn from_spec(v: PhysicalAddress) -> Self {
        v@
    }
}


impl PhysicalAddress {
    /// The address of a 32-bit value.
    pub fn from_u32(val: u32) -> (r: Self)
        ensures
            r@ == val,
    {
        Self(val as u64)
    }

    /// The low 32 bits of the address.
    pub fn as_u32(&self) -> (r: u32)
        ensures
            r == self@ as u32,
    {
        self.0 as u32
    }
}

impl Add<u64> for PhysicalAddress {
    type Output = Self;

    fn add(self, rhs: u64) -> (r: Self) {
        Self(self.0 + rhs)
    }
}

impl AddSpecImpl<u64> for PhysicalAddress {
    open spec fn obeys_add_spec() -> bool {
        true
    }

    open spec fn add_req(self, rhs: u64) -> bool {
        self@ + rhs <= u64::MAX
    }

    open spec fn add_spec(self, rhs: u64) -> Self {
        Self::spec_new((self@ + rhs) as u64)
    }
}

impl Add<usize> for PhysicalAddress {
    type Output = Self;

    fn add(self, rhs: usize) -> (r: Self) {
        Self(self.0 + rhs as u64)
    }
}

impl AddSpecImpl<usize> for PhysicalAddress {
    open spec fn obeys_add_spec() -> bool {
        true
    }

    open spec fn add_req(self, rhs: usize) -> bool {
        self@ + rhs <= u64::MAX
    }

    open spec fn add_spec(self, rhs: usize) -> Self {
        Self::spec_new((self@ + rhs) as u64)
    }
}

impl Sub<PhysicalAddress> for PhysicalAddress {
    type Output = usize;

    /// The distance between two addresses.
    fn sub(self, rhs: PhysicalAddress) -> (r: usize) {
        (self.0 - rhs.0) as usize
    }
}

impl SubSpecImpl<PhysicalAddress> for PhysicalAddress {
    open spec fn obeys_sub_spec() -> bool {
        true
    }

    open spec fn sub_req(self, rhs: PhysicalAddress) -> bool {
        rhs@ <= self@ && self@ - rhs@ <= usize::MAX
    }

    open spec fn sub_spec(self, rhs: PhysicalAddress) -> usize {
        (self@ - rhs@) as usize
    }
}

impl Sub<u64> for PhysicalAddress {
    type Output = Self;

    fn sub(self, rhs: u64) -> (r: Self) {
        Self(self.0 - rhs)
    }
}

impl SubSpecImpl<u64> for PhysicalAddress {
    open spec fn obeys_sub_spec() -> bool {
        true
    }

    open spec fn sub_req(self, rhs: u64) -> bool {
        rhs <= self@
    }

    open spec fn sub_spec(self, rhs: u64) -> Self {
        Self::spec_new((self@ - rhs) as u64)
    }
}

impl Mul<u64> for PhysicalAddress {
    type Output = Self;

    fn mul(self, rhs: u64) -> (r: Self) {
        Self(self.0 * rhs)
    }
}

impl MulSpecImpl<u64> for PhysicalAddress {
    open spec fn obeys_mul_spec() -> bool {
        true
    }

    open spec fn mul_req(self, rhs: u64) -> bool {
        self@ * rhs <= u64::MAX
    }

    open spec fn mul_spec(self, rhs: u64) -> Self {
        Self::spec_new((self@ * rhs) as u64)
    }
}

impl BitAnd<u64> for PhysicalAddress {
    type Output = Self;

    fn bitand(self, rhs: u64) -> (r: Self) {
        Self(self.0 & rhs)
    }
}

impl BitAndSpecImpl<u64> for PhysicalAddress {
    open spec fn obeys_bitand_spec() -> bool {
        true
    }

    open spec fn bitand_req(self, rhs: u64) -> bool {
        true
    }

    open spec fn bitand_spec(self, rhs: u64) -> Self {
        Self::spec_new(self@ & rhs)
    }
}

impl BitAnd<PhysicalAddress> for u64 {
    type Output = u64;

    fn bitand(self, rhs: PhysicalAddress) -> (r: u64) {
        self & rhs.0
    }
}

impl BitAndSpecImpl<PhysicalAddress> for u64 {
    open spec fn obeys_bitand_spec() -> bool {
        true
    }

    open spec fn bitand_req(self, rhs: PhysicalAddress) -> bool {
        true
    }

    open spec fn bitand_spec(self, rhs: PhysicalAddress) -> u64 {
        self & rhs@
    }
}

impl BitOr<u64> for PhysicalAddress {
    type Output = Self;

    fn bitor(self, rhs: u64) -> (r: Self) {
        Self(self.0 | rhs)
    }
}

impl BitOrSpecImpl<u64> for PhysicalAddress {
    open spec fn obeys_bitor_spec() -> bool {
        true
    }

    open spec fn bitor_req(self, rhs: u64) -> bool {
        true
    }

    open spec fn bitor_spec(self, rhs: u64) -> Self {
        Self::spec_new(self@ | rhs)
    }
}

impl Not for PhysicalAddress {
    type Output = Self;

    fn not(self) -> (r: Self) {
        Self(!self.0)
    }
}

impl NotSpecImpl for PhysicalAddress {
    open spec fn obeys_not_spec() -> bool {
        true
    }

    open spec fn not_req(self) -> bool {
        true
    }

    open spec fn not_spec(self) -> Self {
        Self::spec_new(!self@)
    }
}

/// A physical address that is never null.
#[derive(Debug, Clone, Copy, PartialEq, Eq, PartialOrd, Ord, Structural)]
pub struct NonNullPhysicalAddress(PhysicalAddressRepr);

impl View for NonNullPhysicalAddress {
    type V = u64;

    closed spec fn view(&self) -> u64 {
        self.0
    }
}

impl NonNullPhysicalAddress {
    #[verifier::type_invariant]
    spec fn inv(self) -> bool {
        self.0 != 0
    }

    pub fn get(&self) -> (r: PhysicalAddress)
        ensures
            r@ == self@,
            r@ != 0,
    {
        proof {
            use_type_invariant(self);
        }
        PhysicalAddress(self.0)
    }

    /// Returns `Some` exactly when `val` is not null.
    pub fn new(val: PhysicalAddress) -> (r: Option<Self>)
        ensures
            match r {
                Some(v) => v@ == val@ && val@ != 0,
                None => val@ == 0,
            },
    {
        if val.0 != 0 {
            Some(NonNullPhysicalAddress(val.0))
        } else {
            None
        }
    }
}

impl From<NonNullPhysicalAddress> for PhysicalAddress {
    fn from(val: NonNullPhysicalAddress) -> (r: Self) {
        val.get()
    }
}

impl FromSpecImpl<NonNullPhysicalAddress> for PhysicalAddress {
    open spec fn obeys_from_spec() -> bool {
        true
    }

    open spec fn from_spec(v: NonNullPhysicalAddress) -> Self {
        Self::spec_new(v@)
    }
}

} // verus!
