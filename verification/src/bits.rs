//! Facts on bit operations that the modules share.

use vstd::prelude::*;

verus! {

/// The bits of a byte: the high bit, the low seven bits, sign extension and BCD digits.
pub proof fn lemma_byte_bits()
    by (bit_vector)
    ensures
        forall|v: u8| #[trigger] (v & 0x80) != 0 <==> v >= 0x80,
        forall|v: u8| #[trigger] (v & 0x80) == 0x80 <==> v >= 0x80,
        forall|v: u8| #[trigger] (v & 0x7F) == v % 0x80,
        forall|v: u8| v < 0x80 ==> #[trigger] (v | 0x80) == v + 0x80,
        forall|v: u16| v < 0x100 ==> #[trigger] (v | 0xFF00) == 0xFF00 + v,
        forall|v: u16| v < 0x100 ==> #[trigger] (v | 0xC000) == 0xC000 + v,
        forall|v: u8| #[trigger] (v & 0xF0) >> 1u8 == (v / 16) * 8 && (v & 0xF0) >> 3u8 == (v / 16) * 2
            && v & 0xF == v % 16,
{
}

/// Shifts of a dword are divisions and multiplications.
pub proof fn lemma_dword_shifts()
    by (bit_vector)
    ensures
        forall|x: u32| #[trigger] (x >> 24u32) == x / 0x100_0000,
        forall|x: u32| #[trigger] (x >> 16u32) == x / 0x10000,
        forall|x: u32| x < 0x10000 ==> #[trigger] (x << 12u32) == x * 0x1000,
        forall|x: u32| #[trigger] ((x & 0xFFFF_0000) >> 16u32) <= 0xFFFF,
{
}

/// The sizes of the pages of each level, and the alignment to them.
pub proof fn lemma_page_bits()
    by (bit_vector)
    ensures
        1u64 << 9u64 == 0x200,
        1u64 << 12u64 == 0x1000,
        1u64 << 21u64 == 0x20_0000,
        1u64 << 30u64 == 0x4000_0000,
        1u64 << 39u64 == 0x80_0000_0000,
        forall|x: u64| #[trigger] (x & 0x1F_FFFF) == x % 0x20_0000,
        forall|x: u64| #[trigger] (x & 0xFFF) == x % 0x1000,
        forall|x: u64| #[trigger] (x & !0xFFFu64) == x - x % 0x1000,
{
}

} // verus!
