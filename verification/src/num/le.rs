//! Integers stored in little-endian byte order.

use vstd::prelude::*;

verus! {

/// A u16 stored in little-endian byte order, whatever the byte order of the machine.
#[derive(Debug, Clone, Copy)]
pub struct Le16 {
    bytes: [u8; 2],
}

impl View for Le16 {
    type V = u16;

    /// The value that the bytes spell, the first byte the least significant.
    closed spec fn view(&self) -> u16 {
        (self.bytes[0] as int + (self.bytes[1] as int) * 0x100) as u16
    }
}

impl Le16 {
    /// The bytes of `v`, the least significant first.
    pub closed spec fn spec_new(v: u16) -> Self {
        Le16 { bytes: [(v % 0x100) as u8, ((v / 0x100) % 0x100) as u8] }
    }

    pub fn new(value: u16) -> (r: Self)
        ensures
            r@ == value,
            r == Self::spec_new(value),
    {
        let r0: u16 = value;
        let b0: u8 = (r0 % 0x100) as u8;
        let r1: u16 = r0 / 0x100;
        let b1: u8 = (r1 % 0x100) as u8;
        proof {
            assert(r0 == b0 + 0x100 * r1);
            assert(r1 == b1);
            assert(value == b0 + 0x100 * (b1 as int));
            assert(value == b0 as int + (b1 as int) * 0x100);
        }
        Le16 { bytes: [b0, b1] }
    }

    pub fn value(&self) -> (r: u16)
        ensures
            r == self@,
    {
        let mut acc: u16 = self.bytes[1] as u16;
        acc = acc * 0x100 + self.bytes[0] as u16;
        acc
    }

    pub fn store(&mut self, value: u16)
        ensures
            final(self)@ == value,
    {
        *self = Self::new(value);
    }
}

impl From<u16> for Le16 {
    fn from(value: u16) -> (r: Le16) {
        Le16::new(value)
    }
}

impl vstd::std_specs::convert::FromSpecImpl<u16> for Le16 {
    open spec fn obeys_from_spec() -> bool {
        true
    }

    open spec fn from_spec(v: u16) -> Le16 {
        Le16::spec_new(v)
    }
}

impl vstd::std_specs::convert::FromSpecImpl<Le16> for u16 {
    open spec fn obeys_from_spec() -> bool {
        true
    }

    open spec fn from_spec(v: Le16) -> u16 {
        v@
    }
}

impl From<Le16> for u16 {
    fn from(value: Le16) -> (r: u16) {
        value.value()
    }
}

impl Default for Le16 {
    fn default() -> (r: Self)
        ensures
            r@ == 0,
    {
        Le16 { bytes: [0u8; 2] }
    }
}

/// A u32 stored in little-endian byte order, whatever the byte order of the machine.
#[derive(Debug, Clone, Copy)]
pub struct Le32 {
    bytes: [u8; 4],
}

impl View for Le32 {
    type V = u32;

    /// The value that the bytes spell, the first byte the least significant.
    closed spec fn view(&self) -> u32 {
        (self.bytes[0] as int + (self.bytes[1] as int) * 0x100 + (self.bytes[2] as int) * 0x10000 + (self.bytes[3] as int) * 0x1000000) as u32
    }
}

impl Le32 {
    /// The bytes of `v`, the least significant first.
    pub closed spec fn spec_new(v: u32) -> Self {
        Le32 { bytes: [(v % 0x100) as u8, ((v / 0x100) % 0x100) as u8, ((v / 0x10000) % 0x100) as u8, ((v / 0x1000000) % 0x100) as u8] }
    }

    pub fn new(value: u32) -> (r: Self)
        ensures
            r@ == value,
            r == Self::spec_new(value),
    {
        let r0: u32 = value;
        let b0: u8 = (r0 % 0x100) as u8;
        let r1: u32 = r0 / 0x100;
        let b1: u8 = (r1 % 0x100) as u8;
        let r2: u32 = r1 / 0x100;
        let b2: u8 = (r2 % 0x100) as u8;
        let r3: u32 = r2 / 0x100;
        let b3: u8 = (r3 % 0x100) as u8;
        proof {
            assert(r0 == b0 + 0x100 * r1);
            assert(r1 == b1 + 0x100 * r2);
            assert(r2 == b2 + 0x100 * r3);
            assert(r3 == b3);
            assert(value == b0 + 0x100 * (b1 + 0x100 * (b2 + 0x100 * (b3 as int))));
            assert(value == b0 as int + (b1 as int) * 0x100 + (b2 as int) * 0x10000 + (b3 as int) * 0x1000000);
        }
        Le32 { bytes: [b0, b1, b2, b3] }
    }

    pub fn value(&self) -> (r: u32)
        ensures
            r == self@,
    {
        let mut acc: u32 = self.bytes[3] as u32;
        acc = acc * 0x100 + self.bytes[2] as u32;
        acc = acc * 0x100 + self.bytes[1] as u32;
        acc = acc * 0x100 + self.bytes[0] as u32;
        acc
    }

    pub fn store(&mut self, value: u32)
        ensures
            final(self)@ == value,
    {
        *self = Self::new(value);
    }
}

impl From<u32> for Le32 {
    fn from(value: u32) -> (r: Le32) {
        Le32::new(value)
    }
}

impl vstd::std_specs::convert::FromSpecImpl<u32> for Le32 {
    open spec fn obeys_from_spec() -> bool {
        true
    }

    open spec fn from_spec(v: u32) -> Le32 {
        Le32::spec_new(v)
    }
}

impl vstd::std_specs::convert::FromSpecImpl<Le32> for u32 {
    open spec fn obeys_from_spec() -> bool {
        true
    }

    open spec fn from_spec(v: Le32) -> u32 {
        v@
    }
}

impl From<Le32> for u32 {
    fn from(value: Le32) -> (r: u32) {
        value.value()
    }
}

impl Default for Le32 {
    fn default() -> (r: Self)
        ensures
            r@ == 0,
    {
        Le32 { bytes: [0u8; 4] }
    }
}

/// A u64 stored in little-endian byte order, whatever the byte order of the machine.
#[derive(Debug, Clone, Copy)]
pub struct Le64 {
    bytes: [u8; 8],
}

impl View for Le64 {
    type V = u64;

    /// The value that the bytes spell, the first byte the least significant.
    closed spec fn view(&self) -> u64 {
        (self.bytes[0] as int + (self.bytes[1] as int) * 0x100 + (self.bytes[2] as int) * 0x10000 + (self.bytes[3] as int) * 0x1000000 + (self.bytes[4] as int) * 0x100000000 + (self.bytes[5] as int) * 0x10000000000 + (self.bytes[6] as int) * 0x1000000000000 + (self.bytes[7] as int) * 0x100000000000000) as u64
    }
}

impl Le64 {
    /// The bytes of `v`, the least significant first.
    pub closed spec fn spec_new(v: u64) -> Self {
        Le64 { bytes: [(v % 0x100) as u8, ((v / 0x100) % 0x100) as u8, ((v / 0x10000) % 0x100) as u8, ((v / 0x1000000) % 0x100) as u8, ((v / 0x100000000) % 0x100) as u8, ((v / 0x10000000000) % 0x100) as u8, ((v / 0x1000000000000) % 0x100) as u8, ((v / 0x100000000000000) % 0x100) as u8] }
    }

    pub fn new(value: u64) -> (r: Self)
        ensures
            r@ == value,
            r == Self::spec_new(value),
    {
        let r0: u64 = value;
        let b0: u8 = (r0 % 0x100) as u8;
        let r1: u64 = r0 / 0x100;
        let b1: u8 = (r1 % 0x100) as u8;
        let r2: u64 = r1 / 0x100;
        let b2: u8 = (r2 % 0x100) as u8;
        let r3: u64 = r2 / 0x100;
        let b3: u8 = (r3 % 0x100) as u8;
        let r4: u64 = r3 / 0x100;
        let b4: u8 = (r4 % 0x100) as u8;
        let r5: u64 = r4 / 0x100;
        let b5: u8 = (r5 % 0x100) as u8;
        let r6: u64 = r5 / 0x100;
        let b6: u8 = (r6 % 0x100) as u8;
        let r7: u64 = r6 / 0x100;
        let b7: u8 = (r7 % 0x100) as u8;
        proof {
            assert(r0 == b0 + 0x100 * r1);
            assert(r1 == b1 + 0x100 * r2);
            assert(r2 == b2 + 0x100 * r3);
            assert(r3 == b3 + 0x100 * r4);
            assert(r4 == b4 + 0x100 * r5);
            assert(r5 == b5 + 0x100 * r6);
            assert(r6 == b6 + 0x100 * r7);
            assert(r7 == b7);
            assert(value == b0 + 0x100 * (b1 + 0x100 * (b2 + 0x100 * (b3 + 0x100 * (b4 + 0x100 * (b5 + 0x100 * (b6 + 0x100 * (b7 as int))))))));
            assert(value == b0 as int + (b1 as int) * 0x100 + (b2 as int) * 0x10000 + (b3 as int) * 0x1000000 + (b4 as int) * 0x100000000 + (b5 as int) * 0x10000000000 + (b6 as int) * 0x1000000000000 + (b7 as int) * 0x100000000000000);
        }
        Le64 { bytes: [b0, b1, b2, b3, b4, b5, b6, b7] }
    }

    pub fn value(&self) -> (r: u64)
        ensures
            r == self@,
    {
        let mut acc: u64 = self.bytes[7] as u64;
        acc = acc * 0x100 + self.bytes[6] as u64;
        acc = acc * 0x100 + self.bytes[5] as u64;
        acc = acc * 0x100 + self.bytes[4] as u64;
        acc = acc * 0x100 + self.bytes[3] as u64;
        acc = acc * 0x100 + self.bytes[2] as u64;
        acc = acc * 0x100 + self.bytes[1] as u64;
        acc = acc * 0x100 + self.bytes[0] as u64;
        acc
    }

    pub fn store(&mut self, value: u64)
        ensures
            final(self)@ == value,
    {
        *self = Self::new(value);
    }
}

impl From<u64> for Le64 {
    fn from(value: u64) -> (r: Le64) {
        Le64::new(value)
    }
}

impl vstd::std_specs::convert::FromSpecImpl<u64> for Le64 {
    open spec fn obeys_from_spec() -> bool {
        true
    }

    open spec fn from_spec(v: u64) -> Le64 {
        Le64::spec_new(v)
    }
}

impl vstd::std_specs::convert::FromSpecImpl<Le64> for u64 {
    open spec fn obeys_from_spec() -> bool {
        true
    }

    open spec fn from_spec(v: Le64) -> u64 {
        v@
    }
}

impl From<Le64> for u64 {
    fn from(value: Le64) -> (r: u64) {
        value.value()
    }
}

impl Default for Le64 {
    fn default() -> (r: Self)
        ensures
            r@ == 0,
    {
        Le64 { bytes: [0u8; 8] }
    }
}

} // verus!
