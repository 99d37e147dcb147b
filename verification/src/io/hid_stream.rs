//! Reading and writing the fields of HID reports: runs of bits, least
//! significant bit first, at any bit position of a byte buffer.

use vstd::prelude::*;
use crate::io::hid_parse::ParsedReportMainItem;
use vstd::arithmetic::power2::pow2;
use vstd::bits::{lemma_u32_pow2_no_overflow, lemma_u32_shl_is_mul, lemma_u64_pow2_no_overflow, lemma_u64_shl_is_mul};

verus! {

/// Why a field could not be read or written.
#[derive(Debug, Clone, Copy, PartialEq, Eq, Structural)]
pub enum HidBitStreamError {
    /// The field is of the wrong kind, or spans more bytes than the stream handles at once.
    InvalidParameter,
    /// The field lies beyond the end of the buffer.
    OutOfBounds,
}

/// The little-endian number that `n` bytes from `at` make.
pub open spec fn le_bytes(data: Seq<u8>, at: int, n: nat) -> nat
    decreases n,
{
    if n == 0 {
        0
    } else {
        data[at] as nat + 256 * le_bytes(data, at + 1, (n - 1) as nat)
    }
}

/// The mask of the `size` lowest bits of a 32-bit word.
pub open spec fn low_mask(size: nat) -> u32 {
    if size > 31 {
        0xFFFF_FFFF
    } else {
        ((1u32 << (size as u32)) - 1) as u32
    }
}

/// The `size` bits from bit `position` of `data` (least significant first), as
/// far as they lie within 4 bytes: the bytes that hold them are read as a
/// little-endian word, shifted down and masked.
pub open spec fn spec_read_bits(data: Seq<u8>, position: nat, size: nat) -> Result<u32, HidBitStreamError> {
    let pos7 = position % 8;
    let pos8 = position / 8;
    let read_size = pos7 + size;
    if read_size > 32 {
        Err(HidBitStreamError::InvalidParameter)
    } else if read_size == 0 || pos8 + (read_size + 7) / 8 > data.len() {
        Err(HidBitStreamError::OutOfBounds)
    } else {
        Ok(((le_bytes(data, pos8 as int, ((read_size + 7) / 8) as nat) as u32) >> (pos7 as u32)) & low_mask(size))
    }
}

/// A field of `size` bits read as a two's complement number: values with the
/// top bit set stand for the value minus 2^size.
pub open spec fn sign_extend(v: u32, size: nat) -> int {
    if size > 0 && v >= pow2((size - 1) as nat) {
        v - pow2(size)
    } else {
        v as int
    }
}

/// A masked field is below 2^size.
proof fn lemma_masked_below(x: u32, size: nat)
    requires
        size < 32,
    ensures
        x & low_mask(size) < pow2(size),
        low_mask(size) as nat + 1 == pow2(size),
{
    let s = size as u32;
    lemma_u32_pow2_no_overflow(size);
    lemma_u32_shl_is_mul(1, s);
    assert(1u32 << s >= 1) by (bit_vector)
        requires
            s < 32,
    ;
    let m = ((1u32 << s) - 1) as u32;
    assert(x & m <= m) by (bit_vector);
}

/// What the sign extension of the code does to a field of `t + 1` bits.
proof fn lemma_sign_extend(v: u32, t: u32)
    requires
        t < 32,
        t < 31 ==> v < pow2((t + 1) as nat),
    ensures
        (v & (1u32 << t)) == 0 ==> v < pow2(t as nat) && v < 0x8000_0000,
        (v & (1u32 << t)) != 0 ==> v >= pow2(t as nat) && (!(((1u32 << t) - 1) as u32) | v)
            >= 0x8000_0000 && (!(((1u32 << t) - 1) as u32) | v) as int - 0x1_0000_0000 == v - pow2((t + 1) as nat),
{
    let s = (t + 1) as u64;
    lemma_u32_pow2_no_overflow(t as nat);
    lemma_u32_shl_is_mul(1, t);
    lemma_u64_pow2_no_overflow(s as nat);
    lemma_u64_shl_is_mul(1, s);
    let big = 1u64 << s;
    assert(1u32 << t >= 1) by (bit_vector)
        requires
            t < 32,
    ;
    let m = (1u32 << t) as u32;
    let low = (m - 1) as u32;
    assert(v < big) by {
        if t == 31 {
            assert(big == 0x1_0000_0000u64) by (bit_vector)
                requires
                    big == 1u64 << s,
                    s == 32,
            ;
        }
    }
    assert((v & m) == 0 ==> v < m && m <= 0x8000_0000) by (bit_vector)
        requires
            (v as u64) < big,
            big == 1u64 << s,
            m == 1u32 << t,
            s == t + 1,
            t < 32,
    ;
    assert((v & m) != 0 ==> v >= m && (!low | v) >= 0x8000_0000
        && (!low | v) as u64 + big == v as u64 + 0x1_0000_0000u64) by (bit_vector)
        requires
            (v as u64) < big,
            big == 1u64 << s,
            m == 1u32 << t,
            low == m - 1,
            s == t + 1,
            t < 32,
    ;
}

/// Reads the fields of a report in order.
pub struct HidBitStreamReader<'a> {
    slice: &'a [u8],
    position: usize,
}

impl<'a> HidBitStreamReader<'a> {
    pub closed spec fn data(&self) -> Seq<u8> {
        self.slice@
    }

    pub closed spec fn spec_position(&self) -> usize {
        self.position
    }

    /// A reader over `slice` that starts at bit `position`.
    pub fn new(slice: &'a [u8], position: usize) -> (r: Self)
        ensures
            r.data() == slice@,
            r.spec_position() == position,
    {
        HidBitStreamReader { slice, position }
    }

    /// The bit position of the next field.
    pub fn position(&self) -> (r: usize)
        ensures
            r == self.spec_position(),
    {
        self.position
    }

    fn read_bits(&self, position: usize, size: usize) -> (r: Result<u32, HidBitStreamError>)
        requires
            size <= 0xFFFF,
        ensures
            r == spec_read_bits(self.slice@, position as nat, size as nat),
    {
        let pos7 = position % 8;
        let pos8 = position / 8;
        proof {
            if size <= 31 {
                let s = size as u32;
                assert(1u32 << s >= 1) by (bit_vector)
                    requires
                        s <= 31,
                ;
            }
        }
        let mask: u32 = if size > 31 {
            0xFFFF_FFFF
        } else {
            (1u32 << (size as u32)) - 1
        };
        let read_size = pos7 + size;
        if read_size > 32 {
            return Err(HidBitStreamError::InvalidParameter);
        }
        let n = (read_size + 7) / 8;
        if read_size == 0 || pos8 >= self.slice.len() || n > self.slice.len() - pos8 {
            return Err(HidBitStreamError::OutOfBounds);
        }
        let data: u32 = if n == 1 {
            self.slice[pos8] as u32
        } else if n == 2 {
            self.slice[pos8] as u32 + self.slice[pos8 + 1] as u32 * 0x100
        } else if n == 3 {
            self.slice[pos8] as u32 + self.slice[pos8 + 1] as u32 * 0x100 + self.slice[pos8 + 2] as u32
                * 0x1_0000
        } else {
            self.slice[pos8] as u32 + self.slice[pos8 + 1] as u32 * 0x100 + self.slice[pos8 + 2] as u32
                * 0x1_0000 + self.slice[pos8 + 3] as u32 * 0x100_0000
        };
        proof {
            reveal_with_fuel(le_bytes, 5);
            assert(data == le_bytes(self.slice@, pos8 as int, n as nat));
        }
        Ok((data >> (pos7 as u32)) & mask)
    }

    /// Skips the fields of `item`.
    pub fn advance_by(&mut self, item: &ParsedReportMainItem)
        requires
            old(self).spec_position() + item.report_size * item.report_count <= usize::MAX,
        ensures
            final(self).data() == old(self).data(),
            final(self).spec_position() == old(self).spec_position() + item.report_size * item.report_count,
    {
        self.position = self.position + item.bit_count();
    }

    /// Reads one field of an absolute, non-constant item.
    pub fn read_value(&mut self, item: &ParsedReportMainItem) -> (r: Result<u32, HidBitStreamError>)
        requires
            old(self).spec_position() + 255 <= usize::MAX,
        ensures
            final(self).data() == old(self).data(),
            (item.flags.0 & 1 == 1 || item.flags.0 & 4 == 4) ==> r == Err::<u32, HidBitStreamError>(
                HidBitStreamError::InvalidParameter,
            ) && final(self).spec_position() == old(self).spec_position(),
            !(item.flags.0 & 1 == 1 || item.flags.0 & 4 == 4) ==> {
                &&& r == spec_read_bits(old(self).data(), old(self).spec_position() as nat, item.report_size as nat)
                &&& final(self).spec_position() == if r is Ok {
                    old(self).spec_position() + item.report_size
                } else {
                    old(self).spec_position() as int
                }
            },
    {
        let bit_size = item.report_size();
        if item.is_const() || item.is_relative() {
            return Err(HidBitStreamError::InvalidParameter);
        }
        match self.read_bits(self.position, bit_size) {
            Ok(v) => {
                self.position = self.position + bit_size;
                Ok(v)
            },
            Err(e) => Err(e),
        }
    }

    /// Reads one field of a relative, non-constant item, sign-extended.
    pub fn read_value_signed(&mut self, item: &ParsedReportMainItem) -> (r: Result<i32, HidBitStreamError>)
        requires
            old(self).spec_position() + 255 <= usize::MAX,
            item.report_size > 0 || old(self).spec_position() % 8 == 0,
        ensures
            final(self).data() == old(self).data(),
            (item.flags.0 & 1 == 1 || item.flags.0 & 4 != 4) ==> r == Err::<i32, HidBitStreamError>(
                HidBitStreamError::InvalidParameter,
            ) && final(self).spec_position() == old(self).spec_position(),
            !(item.flags.0 & 1 == 1 || item.flags.0 & 4 != 4) ==> match spec_read_bits(
                old(self).data(),
                old(self).spec_position() as nat,
                item.report_size as nat,
            ) {
                Ok(v) => r == Ok::<i32, HidBitStreamError>(sign_extend(v, item.report_size as nat) as i32)
                    && final(self).spec_position() == old(self).spec_position() + item.report_size,
                Err(e) => r == Err::<i32, HidBitStreamError>(e) && final(self).spec_position() == old(self).spec_position(),
            },
    {
        let bit_size = item.report_size();
        if item.is_const() || !item.is_relative() {
            return Err(HidBitStreamError::InvalidParameter);
        }
        match self.read_bits(self.position, bit_size) {
            Ok(v) => {
                proof {
                    let p = self.position as nat;
                    if bit_size < 32 {
                        let raw = (le_bytes(self.slice@, (p / 8) as int, (((p % 8) + bit_size + 7) / 8) as nat) as u32)
                            >> ((p % 8) as u32);
                        lemma_masked_below(raw, bit_size as nat);
                    }
                }
                let s = sign_extend_exec(v, bit_size);
                self.position = self.position + bit_size;
                Ok(s)
            },
            Err(e) => Err(e),
        }
    }

    /// Reads the one-bit fields of a non-constant item at once, the first field
    /// in the lowest bit.
    pub fn read_bit_array(&mut self, item: &ParsedReportMainItem) -> (r: Result<u32, HidBitStreamError>)
        requires
            old(self).spec_position() + 255 <= usize::MAX,
        ensures
            final(self).data() == old(self).data(),
            (item.flags.0 & 1 == 1 || item.report_size != 1) ==> r == Err::<u32, HidBitStreamError>(
                HidBitStreamError::InvalidParameter,
            ) && final(self).spec_position() == old(self).spec_position(),
            !(item.flags.0 & 1 == 1 || item.report_size != 1) ==> {
                &&& r == spec_read_bits(old(self).data(), old(self).spec_position() as nat, item.report_count as nat)
                &&& final(self).spec_position() == if r is Ok {
                    old(self).spec_position() + item.report_count
                } else {
                    old(self).spec_position() as int
                }
            },
    {
        if item.is_const() || item.report_size() != 1 {
            return Err(HidBitStreamError::InvalidParameter);
        }
        let bit_size = item.report_count();
        match self.read_bits(self.position, bit_size) {
            Ok(v) => {
                self.position = self.position + bit_size;
                Ok(v)
            },
            Err(e) => Err(e),
        }
    }
}

/// Sign-extends a field of `size` bits.
fn sign_extend_exec(v: u32, size: usize) -> (r: i32)
    requires
        size <= 32,
        size > 0,
        size < 32 ==> v < pow2(size as nat),
    ensures
        r == sign_extend(v, size as nat),
{
    let t = (size - 1) as u32;
    let mask: u32 = 1u32 << t;
    proof {
        lemma_sign_extend(v, t);
        assert(mask >= 1) by (bit_vector)
            requires
                mask == 1u32 << t,
                t < 32,
        ;
    }
    if (v & mask) == 0 {
        assert(v as i32 == v) by (bit_vector)
            requires
                v < 0x8000_0000u32,
        ;
        v as i32
    } else {
        let x = !(mask - 1) | v;
        assert(x as i32 == x - 0x1_0000_0000) by (bit_vector)
            requires
                x >= 0x8000_0000u32,
        ;
        x as i32
    }
}

/// The buffer after the `size` bits of `value` were written at bit `position`,
/// as far as they lie within one byte; the other bits of that byte stay.
pub open spec fn spec_write_bits(data: Seq<u8>, position: nat, size: nat, value: u32) -> (Result<(), HidBitStreamError>, Seq<u8>) {
    let pos7 = position % 8;
    let pos8 = position / 8;
    if pos7 + size > 8 {
        (Err(HidBitStreamError::InvalidParameter), data)
    } else if (position + size + 7) / 8 > data.len() {
        (Err(HidBitStreamError::OutOfBounds), data)
    } else {
        let byte = data[pos8 as int];
        let cleared = byte & !((low_mask(size) << (pos7 as u32)) as u8);
        (Ok(()), data.update(pos8 as int, cleared | ((value << (pos7 as u32)) as u8)))
    }
}

/// Writes the fields of a report in order, into a buffer that it owns.
pub struct HidBitStreamWriter {
    data: Vec<u8>,
    position: usize,
}

impl HidBitStreamWriter {
    pub closed spec fn spec_data(&self) -> Seq<u8> {
        self.data@
    }

    pub closed spec fn spec_position(&self) -> usize {
        self.position
    }

    /// A writer into `data`, from its first bit.
    pub fn new(data: Vec<u8>) -> (r: Self)
        ensures
            r.spec_data() == data@,
            r.spec_position() == 0,
    {
        HidBitStreamWriter { data, position: 0 }
    }

    /// The buffer.
    pub fn data(&self) -> (r: &[u8])
        ensures
            r@ == self.spec_data(),
    {
        self.data.as_slice()
    }

    /// The bytes that the fields written so far take.
    pub fn current_len(&self) -> (r: usize)
        requires
            self.spec_position() + 7 <= usize::MAX,
        ensures
            r == (self.spec_position() + 7) / 8,
    {
        (self.position + 7) / 8
    }

    /// Starts again at the first bit, with every byte 0.
    pub fn clear(&mut self)
        ensures
            final(self).spec_position() == 0,
            final(self).spec_data().len() == old(self).spec_data().len(),
            forall|i: int| 0 <= i < final(self).spec_data().len() ==> #[trigger] final(self).spec_data()[i] == 0,
    {
        self.position = 0;
        let mut i: usize = 0;
        while i < self.data.len()
            invariant
                i <= self.data@.len(),
                self.position == 0,
                self.data@.len() == old(self).data@.len(),
                forall|j: int| 0 <= j < i ==> #[trigger] self.data@[j] == 0,
            decreases self.data@.len() - i,
        {
            self.data.set(i, 0);
            i += 1;
        }
    }

    fn write_bits(&mut self, position: usize, size: usize, value: u32) -> (r: Result<(), HidBitStreamError>)
        requires
            size <= 0xFF,
            position + 0xFF + 7 <= usize::MAX,
            !((position % 8) + size <= 8 && (position + size + 7) / 8 <= old(self).data@.len() && size + position % 8 == 0),
        ensures
            (r, final(self).spec_data()) == spec_write_bits(old(self).spec_data(), position as nat, size as nat, value),
            final(self).spec_position() == old(self).spec_position(),
    {
        let pos7 = position % 8;
        let pos8 = position / 8;
        proof {
            if size <= 31 {
                let s = size as u32;
                assert(1u32 << s >= 1) by (bit_vector)
                    requires
                        s <= 31,
                ;
            }
        }
        let mask: u32 = if size > 31 {
            0xFFFF_FFFF
        } else {
            (1u32 << (size as u32)) - 1
        };
        if pos7 + size > 8 {
            return Err(HidBitStreamError::InvalidParameter);
        }
        let end = (position + size + 7) / 8;
        if end > self.data.len() {
            return Err(HidBitStreamError::OutOfBounds);
        }
        let byte = self.data[pos8];
        let cleared = byte & !((mask << (pos7 as u32)) as u8);
        self.data.set(pos8, cleared | ((value << (pos7 as u32)) as u8));
        Ok(())
    }

    /// Skips the fields of `item`.
    pub fn advance_by(&mut self, item: &ParsedReportMainItem)
        requires
            old(self).spec_position() + item.report_size * item.report_count <= usize::MAX,
        ensures
            final(self).spec_data() == old(self).spec_data(),
            final(self).spec_position() == old(self).spec_position() + item.report_size * item.report_count,
    {
        self.position = self.position + item.bit_count();
    }

    /// Writes one field of `item`.
    pub fn write_item(&mut self, item: &ParsedReportMainItem, value: u32) -> (r: Result<(), HidBitStreamError>)
        requires
            old(self).spec_position() + 0xFF + 7 <= usize::MAX,
            !((old(self).spec_position() % 8) + item.report_size <= 8 && (old(self).spec_position()
                + item.report_size + 7) / 8 <= old(self).spec_data().len() && item.report_size
                + old(self).spec_position() % 8 == 0),
        ensures
            ({
                let (res, data) = spec_write_bits(old(self).spec_data(), old(self).spec_position() as nat, item.report_size as nat, value);
                &&& r == res
                &&& final(self).spec_data() == data
                &&& final(self).spec_position() == if r is Ok {
                    old(self).spec_position() + item.report_size
                } else {
                    old(self).spec_position() as int
                }
            }),
    {
        let bit_size = item.report_size();
        let r = self.write_bits(self.position, bit_size, value);
        if r.is_ok() {
            self.position = self.position + bit_size;
        }
        r
    }
}

/// A field written within one byte reads back as the value's low bits.
pub proof fn lemma_write_then_read(data: Seq<u8>, position: nat, size: nat, value: u32)
    requires
        1 <= size,
        position % 8 + size <= 8,
        position / 8 < data.len(),
    ensures
        spec_write_bits(data, position, size, value).0 is Ok,
        spec_read_bits(spec_write_bits(data, position, size, value).1, position, size) == Ok::<u32, HidBitStreamError>(
            value & low_mask(size),
        ),
{
    let pos7 = (position % 8) as u32;
    let pos8 = (position / 8) as int;
    let s = size as u32;
    let written = spec_write_bits(data, position, size, value).1;
    assert((position + size + 7) / 8 <= data.len());
    reveal_with_fuel(le_bytes, 2);
    assert(le_bytes(written, pos8, 1) == written[pos8] as nat);
    let b = data[pos8];
    let m = low_mask(size);
    assert(m == ((1u32 << s) - 1) as u32);
    assert(1u32 << s >= 1) by (bit_vector)
        requires
            s <= 8,
    ;
    assert((((((b & !((m << pos7) as u8)) | ((value << pos7) as u8)) as u32) >> pos7) & m) == value & m)
        by (bit_vector)
        requires
            m == ((1u32 << s) - 1) as u32,
            1 <= s,
            pos7 + s <= 8,
    ;
}

} // verus!
