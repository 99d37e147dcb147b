//! The runtime of Haribote OS applications: their executable format, the text
//! encodings they print in, their colour palette, and the handles and memory
//! that the system calls give them.

use vstd::prelude::*;
use crate::fs::{FsRawFileControlBlock, OffsetType, Whence};
use crate::rt::LegacyAppContext;
use crate::io::hid::KeyEvent;

verus! {

/// How an application's text is encoded.
#[derive(Debug, Clone, Copy, PartialEq, Eq, PartialOrd, Ord, Structural)]
pub enum HoeLangMode {
    Ascii,
    ShiftJIS,
    EUC,
}

impl HoeLangMode {
    /// The number that the language-mode system call returns.
    pub fn code(&self) -> (r: u32)
        ensures
            r == match *self {
                HoeLangMode::Ascii => 0u32,
                HoeLangMode::ShiftJIS => 1u32,
                HoeLangMode::EUC => 2u32,
            },
    {
        match *self {
            HoeLangMode::Ascii => 0,
            HoeLangMode::ShiftJIS => 1,
            HoeLangMode::EUC => 2,
        }
    }
}

/// A character of a JIS-encoded string.
#[derive(Debug, Clone, Copy, PartialEq, Eq, Structural)]
pub enum JisChar {
    /// Alphabet, numeral or kana: one byte.
    ANK(u8),
    /// A kanji, numbered row by row (94 to a row).
    Kanji(u16),
}

/// The character that starts at `index` of `data`, and where the next one
/// starts; none at the end, and none for a lead byte without its trail byte.
/// Bytes outside the ranges of the encoding wrap around in the arithmetic.
pub open spec fn spec_decode_at(data: Seq<u8>, index: int, mode: HoeLangMode) -> Option<(JisChar, int)> {
    if index < 0 || index >= data.len() {
        None
    } else {
        let lead = data[index];
        match mode {
            HoeLangMode::Ascii => Some((JisChar::ANK(lead), index + 1)),
            HoeLangMode::ShiftJIS => if (0x81 <= lead <= 0x9F) || (0xE0 <= lead <= 0xEF) {
                if index + 1 >= data.len() {
                    None
                } else {
                    let trail = data[index + 1];
                    let k0: int = if 0x81 <= lead <= 0x9F { (lead - 0x81) * 2 } else { (lead - 0xE0) * 2 + 62 };
                    let (k, t): (int, int) = if 0x40 <= trail <= 0x7E {
                        (k0, trail - 0x40)
                    } else if 0x80 <= trail <= 0x9E {
                        (k0, trail - 0x80 + 63)
                    } else {
                        (k0 + 1, trail.wrapping_sub(0x9F) as int)
                    };
                    Some((JisChar::Kanji((k * 94 + t) as u16), index + 2))
                }
            } else {
                Some((JisChar::ANK(lead), index + 1))
            },
            HoeLangMode::EUC => if 0x81 <= lead <= 0xFE {
                if index + 1 >= data.len() {
                    None
                } else {
                    let trail = data[index + 1];
                    let row = (lead as u16).wrapping_sub(0xA1);
                    let col = (trail as u16).wrapping_sub(0xA1);
                    Some((JisChar::Kanji(row.wrapping_mul(94).wrapping_add(col)), index + 2))
                }
            } else {
                Some((JisChar::ANK(lead), index + 1))
            },
        }
    }
}

/// The characters of `data` from `index` on, up to the end or to a lead
/// byte without its trail byte.
pub open spec fn spec_decode_from(data: Seq<u8>, index: int, mode: HoeLangMode) -> Seq<JisChar>
    decreases data.len() - index,
{
    match spec_decode_at(data, index, mode) {
        None => Seq::empty(),
        Some((c, next)) => if next > index {
            seq![c] + spec_decode_from(data, next, mode)
        } else {
            Seq::empty()
        },
    }
}

/// A string encoded in Japanese Industrial Standards.
pub struct JisString {
    pub bytes: Vec<u8>,
}

/// The characters of a JIS string, one after the other.
pub struct JisChars<'a> {
    data: &'a [u8],
    lang_mode: HoeLangMode,
    index: usize,
}

impl<'a> JisChars<'a> {
    pub closed spec fn spec_data(&self) -> Seq<u8> {
        self.data@
    }

    pub closed spec fn spec_index(&self) -> usize {
        self.index
    }

    pub closed spec fn spec_mode(&self) -> HoeLangMode {
        self.lang_mode
    }

    pub fn new(data: &'a [u8], lang_mode: HoeLangMode) -> (r: Self)
        ensures
            r.spec_data() == data@,
            r.spec_mode() == lang_mode,
            r.spec_index() == 0,
    {
        JisChars { data, lang_mode, index: 0 }
    }

    /// The next character.
    pub fn next_char(&mut self) -> (r: Option<JisChar>)
        ensures
            final(self).spec_data() == old(self).spec_data(),
            final(self).spec_mode() == old(self).spec_mode(),
            match spec_decode_at(old(self).spec_data(), old(self).spec_index() as int, old(self).spec_mode()) {
                None => r is None,
                Some((c, next)) => r == Some(c) && final(self).spec_index() == next,
            },
    {
        if self.index >= self.data.len() {
            return None;
        }
        let lead = self.data[self.index];
        match self.lang_mode {
            HoeLangMode::Ascii => {
                self.index = self.index + 1;
                Some(JisChar::ANK(lead))
            },
            HoeLangMode::ShiftJIS => {
                if (lead >= 0x81 && lead <= 0x9F) || (lead >= 0xE0 && lead <= 0xEF) {
                    if self.index + 1 >= self.data.len() {
                        return None;
                    }
                    let trail = self.data[self.index + 1];
                    self.index = self.index + 2;
                    let mut k: u8 = if lead >= 0x81 && lead <= 0x9F {
                        (lead - 0x81) * 2
                    } else {
                        (lead - 0xE0) * 2 + 62
                    };
                    let t: u8;
                    if trail >= 0x40 && trail <= 0x7E {
                        t = trail - 0x40;
                    } else if trail >= 0x80 && trail <= 0x9E {
                        t = trail - 0x80 + 63;
                    } else {
                        t = trail.wrapping_sub(0x9F);
                        k = k + 1;
                    }
                    Some(JisChar::Kanji((k as u16) * 94 + (t as u16)))
                } else {
                    self.index = self.index + 1;
                    Some(JisChar::ANK(lead))
                }
            },
            HoeLangMode::EUC => {
                if lead >= 0x81 && lead <= 0xFE {
                    if self.index + 1 >= self.data.len() {
                        return None;
                    }
                    let trail = self.data[self.index + 1];
                    self.index = self.index + 2;
                    let row = (lead as u16).wrapping_sub(0xA1);
                    let col = (trail as u16).wrapping_sub(0xA1);
                    Some(JisChar::Kanji(row.wrapping_mul(94).wrapping_add(col)))
                } else {
                    self.index = self.index + 1;
                    Some(JisChar::ANK(lead))
                }
            },
        }
    }
}

impl JisString {
    /// All the characters of the string, up to a lead byte without its trail byte.
    pub fn chars(&self, lang_mode: HoeLangMode) -> (r: Vec<JisChar>)
        ensures
            r@ == spec_decode_from(self.bytes@, 0, lang_mode),
    {
        let mut it = JisChars::new(self.bytes.as_slice(), lang_mode);
        let mut out: Vec<JisChar> = Vec::new();
        loop
            invariant
                it.spec_data() == self.bytes@,
                it.spec_mode() == lang_mode,
                it.spec_index() <= self.bytes@.len(),
                out@ + spec_decode_from(self.bytes@, it.spec_index() as int, lang_mode) == spec_decode_from(
                    self.bytes@,
                    0,
                    lang_mode,
                ),
            decreases self.bytes@.len() - it.spec_index(),
        {
            let ghost before = it.spec_index();
            match it.next_char() {
                Some(c) => {
                    proof {
                        let rest = spec_decode_from(self.bytes@, before as int, lang_mode);
                        assert(rest == seq![c] + spec_decode_from(self.bytes@, it.spec_index() as int, lang_mode));
                        assert(out@.push(c) + spec_decode_from(self.bytes@, it.spec_index() as int, lang_mode)
                            == out@ + rest);
                    }
                    out.push(c);
                },
                None => {
                    assert(out@ + Seq::<JisChar>::empty() == out@);
                    return out;
                },
            }
        }
    }
}

/// The little-endian dword of `data` at `at`.
pub open spec fn le32_at(data: Seq<u8>, at: int) -> u32 {
    (data[at] + data[at + 1] * 0x100 + data[at + 2] * 0x1_0000 + data[at + 3] * 0x100_0000) as u32
}

fn read_le32(data: &[u8], at: usize) -> (r: u32)
    requires
        at + 4 <= data@.len(),
    ensures
        r == le32_at(data@, at as int),
{
    data[at] as u32 + data[at + 1] as u32 * 0x100 + data[at + 2] as u32 * 0x1_0000 + data[at + 3] as u32
        * 0x100_0000
}

/// Where the parts of an application go in its image: the code from the start
/// of the file, the data segment at the next page boundary, and the initial
/// data of the file at the stack pointer within the data segment.
#[derive(Debug, Clone, Copy, PartialEq, Eq, Structural)]
pub struct HrbLayout {
    pub size_of_code: u64,
    pub rva_data: u64,
    pub size_of_ds: u64,
    pub size_of_data: u64,
    pub image_size: u64,
    pub stack_pointer: u64,
}

/// The loader of Haribote OS executables (`.hrb`).
pub struct HrbBinaryLoader;

impl HrbBinaryLoader {
    /// The offset of the entry point in the code segment.
    pub const START: u32 = 0x1B;
    /// The smallest file that holds a header.
    pub const MINIMAL_BIN_SIZE: usize = 0x24;

    /// Whether `blob` is a Haribote OS executable: longer than its header,
    /// with the signature `Hari` at offset 4.
    pub fn identify(blob: &[u8]) -> (r: bool)
        ensures
            r == (blob@.len() > 0x24 && blob@.subrange(4, 8) == seq![0x48u8, 0x61, 0x72, 0x69]),
    {
        if blob.len() > Self::MINIMAL_BIN_SIZE && blob[4] == 0x48 && blob[5] == 0x61 && blob[6] == 0x72
            && blob[7] == 0x69 {
            assert(blob@.subrange(4, 8) == seq![0x48u8, 0x61, 0x72, 0x69]);
            true
        } else {
            proof {
                if blob@.len() > 0x24 {
                    assert(blob@.subrange(4, 8)[0] == blob@[4]);
                    assert(blob@.subrange(4, 8)[1] == blob@[5]);
                    assert(blob@.subrange(4, 8)[2] == blob@[6]);
                    assert(blob@.subrange(4, 8)[3] == blob@[7]);
                }
            }
            false
        }
    }

    /// The layout that the header of `blob` asks for.
    pub fn layout(blob: &[u8]) -> (r: HrbLayout)
        requires
            blob@.len() >= 0x24,
        ensures
            r.size_of_code == le32_at(blob@, 0x14),
            r.rva_data == (le32_at(blob@, 0x14) + 0xFFF) / 0x1000 * 0x1000,
            r.size_of_ds == le32_at(blob@, 0),
            r.size_of_data == le32_at(blob@, 0x10),
            r.image_size == r.rva_data + r.size_of_ds,
            r.stack_pointer == le32_at(blob@, 0x0C),
    {
        let size_of_code = read_le32(blob, 0x14) as u64;
        let rva_data = (size_of_code + 0xFFF) & !0xFFFu64;
        proof {
            let x = (size_of_code + 0xFFF) as u64;
            crate::bits::lemma_page_bits();
            assert(x & !0xFFFu64 == x - x % 0x1000);
        }
        let size_of_ds = read_le32(blob, 0) as u64;
        HrbLayout {
            size_of_code,
            rva_data,
            size_of_ds,
            size_of_data: read_le32(blob, 0x10) as u64,
            image_size: rva_data + size_of_ds,
            stack_pointer: read_le32(blob, 0x0C) as u64,
        }
    }

    /// Whether the copies of a layout stay within the file and the image.
    pub open spec fn fits(blob_len: nat, l: HrbLayout) -> bool {
        &&& l.size_of_code <= blob_len
        &&& l.size_of_code <= l.image_size
        &&& l.size_of_code + l.size_of_data <= blob_len
        &&& l.rva_data + l.stack_pointer + l.size_of_data <= l.image_size
    }

    /// The image of an application: zeros, with the code at its start and the
    /// initial data at the stack pointer in the data segment; none when a copy
    /// would reach beyond the file or the image.
    pub fn load_image(blob: &[u8], layout: &HrbLayout) -> (r: Option<Vec<u8>>)
        requires
            layout.image_size <= usize::MAX,
        ensures
            match r {
                None => !Self::fits(blob@.len(), *layout),
                Some(image) => Self::fits(blob@.len(), *layout) && image@.len() == layout.image_size && forall|i: int|
                    0 <= i < image@.len() ==> #[trigger] image@[i] == if i < layout.size_of_code {
                        blob@[i]
                    } else if layout.rva_data + layout.stack_pointer <= i < layout.rva_data
                        + layout.stack_pointer + layout.size_of_data {
                        blob@[i - layout.rva_data - layout.stack_pointer + layout.size_of_code]
                    } else {
                        0u8
                    },
            },
    {
        let len = blob.len() as u64;
        if !(layout.size_of_code <= len && layout.size_of_code <= layout.image_size
            && layout.size_of_data <= len - layout.size_of_code
            && layout.stack_pointer <= layout.image_size && layout.rva_data <= layout.image_size - layout.stack_pointer
            && layout.size_of_data <= layout.image_size - layout.stack_pointer - layout.rva_data) {
            return None;
        }
        let size = layout.image_size as usize;
        let code = layout.size_of_code as usize;
        let data_at = (layout.rva_data + layout.stack_pointer) as usize;
        let data_end = (layout.rva_data + layout.stack_pointer + layout.size_of_data) as usize;
        let mut image: Vec<u8> = Vec::new();
        let mut i: usize = 0;
        while i < size
            invariant
                i <= size,
                size == layout.image_size,
                code == layout.size_of_code,
                code <= blob@.len(),
                code <= size,
                data_at == layout.rva_data + layout.stack_pointer,
                data_end == data_at + layout.size_of_data,
                data_end <= size,
                code + layout.size_of_data <= blob@.len(),
                image@.len() == i,
                forall|j: int|
                    0 <= j < i ==> #[trigger] image@[j] == if j < code {
                        blob@[j]
                    } else if data_at <= j < data_end {
                        blob@[j - data_at + code]
                    } else {
                        0u8
                    },
            decreases size - i,
        {
            let b = if i < code {
                blob[i]
            } else if data_at <= i && i < data_end {
                assert(i - data_at < layout.size_of_data);
                let k: usize = i - data_at;
                let bl = blob.len();
                assert(k + code < bl);
                blob[k + code]
            } else {
                0
            };
            image.push(b);
            i += 1;
        }
        Some(image)
    }

    /// The context that an application laid out by `layout` runs in, loaded at
    /// `image_base`.
    pub fn context(layout: &HrbLayout, image_base: u32) -> (r: LegacyAppContext)
        requires
            layout.rva_data <= u32::MAX,
            image_base + layout.rva_data <= u32::MAX,
        ensures
            r.image_base == image_base,
            r.image_size == layout.image_size as u32,
            r.base_of_code == image_base,
            r.size_of_code == layout.size_of_code as u32,
            r.base_of_data == image_base + layout.rva_data,
            r.size_of_data == layout.size_of_ds as u32,
            r.start == 0x1B,
            r.stack_pointer == layout.stack_pointer as u32,
    {
        LegacyAppContext {
            image_base,
            image_size: layout.image_size as u32,
            base_of_code: image_base,
            size_of_code: layout.size_of_code as u32,
            base_of_data: image_base + layout.rva_data as u32,
            size_of_data: layout.size_of_ds as u32,
            start: Self::START,
            stack_pointer: layout.stack_pointer as u32,
        }
    }
}

/// The colour (0xAARRGGBB) of a palette index: sixteen fixed colours, then a
/// cube of six levels (0x33 apart) of red, green and blue, red changing
/// fastest, then transparent black.
pub open spec fn spec_palette(index: u8) -> u32 {
    if index < 16 {
        seq![
            0xFF000000u32, 0xFFFF0000, 0xFF00FF00, 0xFFFFFF00, 0xFF0000FF, 0xFFFF00FF, 0xFF00FFFF,
            0xFFFFFFFF, 0xFFC6C6C6, 0xFF840000, 0xFF008400, 0xFF848400, 0xFF000084, 0xFF840084,
            0xFF008484, 0xFF848484,
        ][index as int]
    } else if index < 232 {
        let j = index - 16;
        (0xFF00_0000 + (j % 6) * 0x33 * 0x1_0000 + ((j / 6) % 6) * 0x33 * 0x100 + (j / 36) * 0x33) as u32
    } else {
        0
    }
}

/// The colour of a palette index.
pub fn palette(index: u8) -> (r: u32)
    ensures
        r == spec_palette(index),
{
    if index < 16 {
        let t: [u32; 16] = [
            0xFF000000, 0xFFFF0000, 0xFF00FF00, 0xFFFFFF00, 0xFF0000FF, 0xFFFF00FF, 0xFF00FFFF,
            0xFFFFFFFF, 0xFFC6C6C6, 0xFF840000, 0xFF008400, 0xFF848400, 0xFF000084, 0xFF840084,
            0xFF008484, 0xFF848484,
        ];
        assert(t@ == seq![
            0xFF000000u32, 0xFFFF0000, 0xFF00FF00, 0xFFFFFF00, 0xFF0000FF, 0xFFFF00FF, 0xFF00FFFF,
            0xFFFFFFFF, 0xFFC6C6C6, 0xFF840000, 0xFF008400, 0xFF848400, 0xFF000084, 0xFF840084,
            0xFF008484, 0xFF848484,
        ]);
        t[index as usize]
    } else if index < 232 {
        let j = (index - 16) as u32;
        0xFF00_0000 + (j % 6) * 0x33 * 0x1_0000 + ((j / 6) % 6) * 0x33 * 0x100 + (j / 36) * 0x33
    } else {
        0
    }
}

/// What a Haribote OS application owns: its context, its windows and timers
/// by handle, its open files, and its heap.
pub struct HoeState {
    pub context: LegacyAppContext,
    pub windows: usize,
    pub timers: Vec<u32>,
    pub files: usize,
    pub malloc_start: u32,
    pub malloc_free: u32,
}

impl HoeState {
    pub fn new(context: LegacyAppContext) -> (r: Self)
        ensures
            r.context == context,
            r.windows == 0,
            r.timers@.len() == 0,
            r.files == 0,
            r.malloc_start == 0,
            r.malloc_free == 0,
    {
        HoeState { context, windows: 0, timers: Vec::new(), files: 0, malloc_start: 0, malloc_free: 0 }
    }

    /// The address of `size` bytes at `offset` of the data segment: none for
    /// offset 0 and for a range that does not end inside the segment. The sum
    /// of base and offset wraps around as the 32-bit arithmetic does.
    pub fn safe_ptr(&self, offset: u32, size: u32) -> (r: Option<u32>)
        ensures
            r == if offset > 0 && offset + size < self.context.size_of_data {
                Some(self.context.base_of_data.wrapping_add(offset))
            } else {
                None::<u32>
            },
    {
        if offset > 0 && (offset as u64 + size as u64) < self.context.size_of_data as u64 {
            Some(self.context.base_of_data.wrapping_add(offset))
        } else {
            None
        }
    }

    /// Adds a window: its handle is twice the number of windows.
    pub fn alloc_window(&mut self) -> (r: u32)
        requires
            old(self).windows < usize::MAX,
        ensures
            final(self).windows == old(self).windows + 1,
            r == ((old(self).windows + 1) as u32).wrapping_mul(2),
            final(self).timers@ == old(self).timers@,
            final(self).files == old(self).files,
            final(self).malloc_start == old(self).malloc_start,
            final(self).malloc_free == old(self).malloc_free,
    {
        self.windows = self.windows + 1;
        (self.windows as u32).wrapping_mul(2)
    }

    /// The window of a handle, and whether drawing through it refreshes the
    /// window (even handles); none for a handle of no window.
    pub fn get_window(&self, handle: u32) -> (r: Option<(usize, bool)>)
        ensures
            r == if handle >= 2 && handle / 2 - 1 < self.windows {
                Some(((handle / 2 - 1) as usize, handle % 2 == 0))
            } else {
                None::<(usize, bool)>
            },
    {
        let refreshing = (handle & 1) == 0;
        proof {
            crate::bits::lemma_dword_shifts();
            assert(handle & 1 == handle % 2) by (bit_vector);
        }
        if handle < 2 {
            return None;
        }
        let index = (handle / 2 - 1) as usize;
        if index < self.windows {
            Some((index, refreshing))
        } else {
            None
        }
    }

    /// Adds a timer, not yet given its data: its handle is the number of timers.
    pub fn alloc_timer(&mut self) -> (r: u32)
        ensures
            final(self).context == old(self).context,
            final(self).timers@ == old(self).timers@.push(u32::MAX),
            r == final(self).timers@.len() as u32,
            final(self).windows == old(self).windows,
            final(self).files == old(self).files,
            final(self).malloc_start == old(self).malloc_start,
            final(self).malloc_free == old(self).malloc_free,
    {
        self.timers.push(u32::MAX);
        self.timers.len() as u32
    }

    /// Gives the timer of `handle` its data; nothing for a handle of no timer.
    pub fn init_timer(&mut self, handle: u32, data: u32)
        ensures
            final(self).timers@ == if 1 <= handle <= old(self).timers@.len() {
                old(self).timers@.update(handle - 1, data)
            } else {
                old(self).timers@
            },
            final(self).windows == old(self).windows,
            final(self).files == old(self).files,
            final(self).malloc_start == old(self).malloc_start,
            final(self).malloc_free == old(self).malloc_free,
    {
        if handle >= 1 && (handle as u64) <= self.timers.len() as u64 {
            self.timers.set((handle - 1) as usize, data);
        }
    }

    /// The data of the timer of `handle`; none for a handle of no timer.
    pub fn timer_data(&self, handle: u32) -> (r: Option<u32>)
        ensures
            r == if 1 <= handle <= self.timers@.len() {
                Some(self.timers@[handle - 1])
            } else {
                None::<u32>
            },
    {
        if handle >= 1 && (handle as u64) <= self.timers.len() as u64 {
            Some(self.timers[(handle - 1) as usize])
        } else {
            None
        }
    }

    /// Adds an open file: its handle is the number of files.
    pub fn alloc_file(&mut self) -> (r: u32)
        requires
            old(self).files < usize::MAX,
        ensures
            final(self).files == old(self).files + 1,
            r == final(self).files as u32,
            final(self).windows == old(self).windows,
            final(self).timers@ == old(self).timers@,
            final(self).malloc_start == old(self).malloc_start,
            final(self).malloc_free == old(self).malloc_free,
    {
        self.files = self.files + 1;
        self.files as u32
    }

    /// The file of a handle; none for a handle of no file.
    pub fn get_file(&self, handle: u32) -> (r: Option<usize>)
        ensures
            r == if 1 <= handle <= self.files {
                Some((handle - 1) as usize)
            } else {
                None::<usize>
            },
    {
        if handle >= 1 && (handle as u64) <= self.files as u64 {
            Some((handle - 1) as usize)
        } else {
            None
        }
    }

    /// Sets up the heap.
    pub fn init_malloc(&mut self, start: u32, free: u32)
        ensures
            final(self).context == old(self).context,
            final(self).malloc_start == start,
            final(self).malloc_free == free,
            final(self).windows == old(self).windows,
            final(self).timers@ == old(self).timers@,
            final(self).files == old(self).files,
    {
        self.malloc_start = start;
        self.malloc_free = free;
    }

    /// Takes `size` bytes, rounded up to 16, from the start of the heap and
    /// gives their address; the 32-bit arithmetic wraps around.
    pub fn malloc(&mut self, size: u32) -> (r: u32)
        ensures
            final(self).context == old(self).context,
            ({
                let rounded = size.wrapping_add(0xF) & !0xFu32;
                &&& r == old(self).malloc_start
                &&& final(self).malloc_start == old(self).malloc_start.wrapping_add(rounded)
                &&& final(self).malloc_free == old(self).malloc_free.wrapping_sub(rounded)
            }),
            final(self).windows == old(self).windows,
            final(self).timers@ == old(self).timers@,
            final(self).files == old(self).files,
    {
        let size = size.wrapping_add(0xF) & !0xF;
        self.malloc_free = self.malloc_free.wrapping_sub(size);
        let result = self.malloc_start;
        self.malloc_start = self.malloc_start.wrapping_add(size);
        result
    }
}

/// The key code that an application's window gets for a key event: the
/// arrows only (down, left, right, up as the digits of a numeric keypad).
pub fn key_message(event: KeyEvent) -> (r: Option<u32>)
    ensures
        r == if (event.0 / 0x100_0000) % 0x100 >= 0x80 {
            None::<u32>
        } else {
            let u = event.0 % 0x100;
            if u == 0x51 {
                Some(0x32u32)
            } else if u == 0x50 {
                Some(0x34u32)
            } else if u == 0x4F {
                Some(0x36u32)
            } else if u == 0x52 {
                Some(0x38u32)
            } else {
                None::<u32>
            }
        },
{
    match event.key_data() {
        Some(k) => {
            let u = k.usage();
            if u == 0x51 {
                Some(0x32)
            } else if u == 0x50 {
                Some(0x34)
            } else if u == 0x4F {
                Some(0x36)
            } else if u == 0x52 {
                Some(0x38)
            } else {
                None
            }
        },
        None => None,
    }
}

/// The key code that an application's window gets for a character: a new
/// line for a carriage return, else its low byte.
pub fn char_message(c: char) -> (r: u32)
    ensures
        r == if c == '\r' { 0x0Au32 } else { ((c as u32) % 0x100) as u32 },
{
    if c == '\x0D' {
        0x0A
    } else {
        let v = c as u32;
        let b = v as u8;
        assert(b as u32 == v % 0x100) by (bit_vector)
            requires
                b == v as u8,
        ;
        b as u32
    }
}


/// The registers of an application's system call.
#[derive(Debug, Clone, Copy, PartialEq, Eq, Structural)]
pub struct LegacySyscallContext {
    pub eax: u32,
    pub ecx: u32,
    pub edx: u32,
    pub ebx: u32,
    pub esi: u32,
    pub edi: u32,
    pub ebp: u32,
    pub eip: u32,
}

/// The operating system's signature for the language mode call: `MYOS`.
pub const HOE_OS_ID: u32 = 0x534F594D;
pub const HOE_OS_VER: u32 = 0;

/// What an application asked for; pointers are offsets in its data segment,
/// windows, timers and files the handles that it was given.
#[derive(Debug, Clone, Copy, PartialEq, Eq, Structural)]
pub enum HoeSyscall {
    PutChar(u8),
    PutCString { text: u32 },
    PutString { text: u32, len: u32 },
    Exit,
    OpenWindow { title: u32, width: u32, height: u32, buffer: u32 },
    DrawText { window: u32, text: u32, color: u8, x: i32, y: i32, len: u32 },
    FillRect { window: u32, x0: u32, y0: u32, x1: u32, y1: u32, color: u8 },
    InitMalloc { start: u32, free: u32 },
    Malloc { size: u32 },
    Free { addr: u32, size: u32 },
    SetPixel { window: u32, x: u32, y: u32, color: u8 },
    RefreshWindow { window: u32, x0: u32, y0: u32, x1: u32, y1: u32 },
    DrawLine { window: u32, x0: i32, y0: i32, x1: i32, y1: i32, color: u8 },
    CloseWindow,
    GetKey { sleep: bool },
    AllocTimer,
    InitTimer { timer: u32, data: u32 },
    /// Fire the timer after this many hundredths of a second.
    SetTimer { timer: u32, centiseconds: u32 },
    FreeTimer,
    /// Sound a tone of this many thousandths of a hertz; none outside hearing.
    Beep { millihertz: u32 },
    FileOpen { name: u32 },
    FileClose,
    FileSeek { file: u32, offset: i32, whence: u32 },
    FileSize { file: u32, whence: u32 },
    FileRead { file: u32, buffer: u32, size: u32 },
    CommandLine { buffer: u32, size: u32 },
    LangMode,
    FileOpenForWrite,
    FileWrite,
    TimeCount,
    /// An extended call that is not known: answered with zero.
    ExtendedUnknown,
    /// A call that is not known: the application is stopped.
    Unimplemented(u32),
}

/// The call that the registers name: EDX selects it, and each call takes its
/// arguments from the registers that the Haribote OS interface assigns it.
pub open spec fn spec_decode_syscall(r: LegacySyscallContext) -> HoeSyscall {
    if r.edx == 1 {
        HoeSyscall::PutChar(r.eax as u8)
    } else if r.edx == 2 {
        HoeSyscall::PutCString { text: r.ebx }
    } else if r.edx == 3 {
        HoeSyscall::PutString { text: r.ebx, len: r.ecx }
    } else if r.edx == 4 {
        HoeSyscall::Exit
    } else if r.edx == 5 {
        HoeSyscall::OpenWindow { title: r.ecx, width: r.esi, height: r.edi, buffer: r.ebx }
    } else if r.edx == 6 {
        HoeSyscall::DrawText { window: r.ebx, text: r.ebp, color: r.eax as u8, x: r.esi as i32, y: r.edi as i32, len: r.ecx }
    } else if r.edx == 7 {
        HoeSyscall::FillRect { window: r.ebx, x0: r.eax, y0: r.ecx, x1: r.esi, y1: r.edi, color: r.ebp as u8 }
    } else if r.edx == 8 {
        HoeSyscall::InitMalloc { start: r.eax, free: r.ecx }
    } else if r.edx == 9 {
        HoeSyscall::Malloc { size: r.ecx }
    } else if r.edx == 10 {
        HoeSyscall::Free { addr: r.eax, size: r.ecx }
    } else if r.edx == 11 {
        HoeSyscall::SetPixel { window: r.ebx, x: r.esi, y: r.edi, color: r.eax as u8 }
    } else if r.edx == 12 {
        HoeSyscall::RefreshWindow { window: r.ebx, x0: r.eax, y0: r.ecx, x1: r.esi, y1: r.edi }
    } else if r.edx == 13 {
        HoeSyscall::DrawLine { window: r.ebx, x0: r.eax as i32, y0: r.ecx as i32, x1: r.esi as i32, y1: r.edi as i32, color: r.ebp as u8 }
    } else if r.edx == 14 {
        HoeSyscall::CloseWindow
    } else if r.edx == 15 {
        HoeSyscall::GetKey { sleep: r.eax != 0 }
    } else if r.edx == 16 {
        HoeSyscall::AllocTimer
    } else if r.edx == 17 {
        HoeSyscall::InitTimer { timer: r.ebx, data: r.eax }
    } else if r.edx == 18 {
        HoeSyscall::SetTimer { timer: r.ebx, centiseconds: r.eax }
    } else if r.edx == 19 {
        HoeSyscall::FreeTimer
    } else if r.edx == 20 {
        HoeSyscall::Beep { millihertz: r.eax }
    } else if r.edx == 21 {
        HoeSyscall::FileOpen { name: r.ebx }
    } else if r.edx == 22 {
        HoeSyscall::FileClose
    } else if r.edx == 23 {
        HoeSyscall::FileSeek { file: r.eax, offset: r.ebx as i32, whence: r.ecx }
    } else if r.edx == 24 {
        HoeSyscall::FileSize { file: r.eax, whence: r.ecx }
    } else if r.edx == 25 {
        HoeSyscall::FileRead { file: r.eax, buffer: r.ebx, size: r.ecx }
    } else if r.edx == 26 {
        HoeSyscall::CommandLine { buffer: r.ebx, size: r.ecx }
    } else if r.edx == 27 {
        HoeSyscall::LangMode
    } else if r.edx == 28 {
        HoeSyscall::FileOpenForWrite
    } else if r.edx == 29 {
        HoeSyscall::FileWrite
    } else if r.edx == 33 {
        if r.ecx == 1 {
            HoeSyscall::TimeCount
        } else {
            HoeSyscall::ExtendedUnknown
        }
    } else {
        HoeSyscall::Unimplemented(r.edx)
    }
}

impl LegacySyscallContext {
    /// Decodes the call that the registers name.
    pub fn decode(&self) -> (c: HoeSyscall)
        ensures
            c == spec_decode_syscall(*self),
    {
        let r = *self;
        match r.edx {
            1 => HoeSyscall::PutChar(r.eax as u8),
            2 => HoeSyscall::PutCString { text: r.ebx },
            3 => HoeSyscall::PutString { text: r.ebx, len: r.ecx },
            4 => HoeSyscall::Exit,
            5 => HoeSyscall::OpenWindow { title: r.ecx, width: r.esi, height: r.edi, buffer: r.ebx },
            6 => HoeSyscall::DrawText { window: r.ebx, text: r.ebp, color: r.eax as u8, x: r.esi as i32, y: r.edi as i32, len: r.ecx },
            7 => HoeSyscall::FillRect { window: r.ebx, x0: r.eax, y0: r.ecx, x1: r.esi, y1: r.edi, color: r.ebp as u8 },
            8 => HoeSyscall::InitMalloc { start: r.eax, free: r.ecx },
            9 => HoeSyscall::Malloc { size: r.ecx },
            10 => HoeSyscall::Free { addr: r.eax, size: r.ecx },
            11 => HoeSyscall::SetPixel { window: r.ebx, x: r.esi, y: r.edi, color: r.eax as u8 },
            12 => HoeSyscall::RefreshWindow { window: r.ebx, x0: r.eax, y0: r.ecx, x1: r.esi, y1: r.edi },
            13 => HoeSyscall::DrawLine { window: r.ebx, x0: r.eax as i32, y0: r.ecx as i32, x1: r.esi as i32, y1: r.edi as i32, color: r.ebp as u8 },
            14 => HoeSyscall::CloseWindow,
            15 => HoeSyscall::GetKey { sleep: r.eax != 0 },
            16 => HoeSyscall::AllocTimer,
            17 => HoeSyscall::InitTimer { timer: r.ebx, data: r.eax },
            18 => HoeSyscall::SetTimer { timer: r.ebx, centiseconds: r.eax },
            19 => HoeSyscall::FreeTimer,
            20 => HoeSyscall::Beep { millihertz: r.eax },
            21 => HoeSyscall::FileOpen { name: r.ebx },
            22 => HoeSyscall::FileClose,
            23 => HoeSyscall::FileSeek { file: r.eax, offset: r.ebx as i32, whence: r.ecx },
            24 => HoeSyscall::FileSize { file: r.eax, whence: r.ecx },
            25 => HoeSyscall::FileRead { file: r.eax, buffer: r.ebx, size: r.ecx },
            26 => HoeSyscall::CommandLine { buffer: r.ebx, size: r.ecx },
            27 => HoeSyscall::LangMode,
            28 => HoeSyscall::FileOpenForWrite,
            29 => HoeSyscall::FileWrite,
            33 => if r.ecx == 1 {
                HoeSyscall::TimeCount
            } else {
                HoeSyscall::ExtendedUnknown
            },
            _ => HoeSyscall::Unimplemented(r.edx),
        }
    }
}

impl HoeState {
    /// Carries out the calls that only touch the application's own state and
    /// returns the registers that the application sees afterwards; the other
    /// calls (drawing, files, time, sound, exit) are left to the caller and the
    /// registers stay as they were.
    pub fn syscall_local(&mut self, regs: LegacySyscallContext, lang_mode: HoeLangMode) -> (r: LegacySyscallContext)
        ensures
            ({
                let call = spec_decode_syscall(regs);
                match call {
                    HoeSyscall::InitMalloc { start, free } => {
                        &&& final(self).malloc_start == start
                        &&& final(self).malloc_free == free
                        &&& final(self).timers@ == old(self).timers@
                        &&& final(self).windows == old(self).windows
                        &&& final(self).files == old(self).files
                        &&& final(self).context == old(self).context
                        &&& r == regs
                    },
                    HoeSyscall::Malloc { size } => {
                        let rounded = size.wrapping_add(0xF) & !0xFu32;
                        &&& r == (LegacySyscallContext { eax: old(self).malloc_start, ..regs })
                        &&& final(self).malloc_start == old(self).malloc_start.wrapping_add(rounded)
                        &&& final(self).malloc_free == old(self).malloc_free.wrapping_sub(rounded)
                        &&& final(self).timers@ == old(self).timers@
                        &&& final(self).windows == old(self).windows
                        &&& final(self).files == old(self).files
                        &&& final(self).context == old(self).context
                    },
                    HoeSyscall::AllocTimer => {
                        &&& final(self).timers@ == old(self).timers@.push(u32::MAX)
                        &&& r == (LegacySyscallContext { eax: final(self).timers@.len() as u32, ..regs })
                        &&& final(self).malloc_start == old(self).malloc_start
                        &&& final(self).malloc_free == old(self).malloc_free
                        &&& final(self).windows == old(self).windows
                        &&& final(self).files == old(self).files
                        &&& final(self).context == old(self).context
                    },
                    HoeSyscall::LangMode => *final(self) == *old(self) && r == (LegacySyscallContext {
                        eax: match lang_mode {
                            HoeLangMode::Ascii => 0u32,
                            HoeLangMode::ShiftJIS => 1u32,
                            HoeLangMode::EUC => 2u32,
                        },
                        ecx: HOE_OS_ID,
                        edx: HOE_OS_VER,
                        ..regs
                    }),
                    HoeSyscall::FileOpenForWrite | HoeSyscall::FileWrite | HoeSyscall::ExtendedUnknown =>
                        *final(self) == *old(self) && r == (LegacySyscallContext { eax: 0, ..regs }),
                    _ => *final(self) == *old(self) && r == regs,
                }
            }),
    {
        let mut out = regs;
        match regs.decode() {
            HoeSyscall::InitMalloc { start, free } => {
                self.init_malloc(start, free);
            },
            HoeSyscall::Malloc { size } => {
                out.eax = self.malloc(size);
            },
            HoeSyscall::AllocTimer => {
                out.eax = self.alloc_timer();
            },
            HoeSyscall::LangMode => {
                out.eax = lang_mode.code();
                out.ecx = HOE_OS_ID;
                out.edx = HOE_OS_VER;
            },
            HoeSyscall::FileOpenForWrite | HoeSyscall::FileWrite | HoeSyscall::ExtendedUnknown => {
                out.eax = 0;
            },
            _ => {},
        }
        out
    }
}

/// The margins of a window's frame: the drawing area starts this far in.
pub const HOE_WINDOW_ADJUST_X: u32 = 2;
pub const HOE_WINDOW_ADJUST_TOP: u32 = 22;
pub const HOE_WINDOW_ADJUST_BOTTOM: u32 = 2;

/// The pixels of an application's window, one palette index each, row by row.
pub struct HoeWindowBuffer {
    pub width: u32,
    pub height: u32,
    pub pixels: Vec<u8>,
}

/// Whether the pixel at `k` of a buffer `w` wide lies in the rectangle.
pub open spec fn in_rect(k: int, w: int, left: int, top: int, right: int, bottom: int) -> bool {
    left <= k % w <= right && top <= k / w <= bottom
}

pub open spec fn min_u32(a: u32, b: u32) -> u32 {
    if a < b { a } else { b }
}

pub open spec fn max_u32(a: u32, b: u32) -> u32 {
    if a < b { b } else { a }
}

impl HoeWindowBuffer {
    pub open spec fn wf(&self) -> bool {
        &&& self.pixels@.len() == self.width * self.height
        &&& self.width * self.height <= u32::MAX
        &&& self.width >= HOE_WINDOW_ADJUST_X
        &&& self.height >= HOE_WINDOW_ADJUST_BOTTOM
    }

    /// The rectangle that `fill_rect` paints: the corners in either order,
    /// kept inside the frame.
    pub open spec fn fill_bounds(&self, x0: u32, y0: u32, x1: u32, y1: u32) -> (u32, u32, u32, u32) {
        (
            max_u32(HOE_WINDOW_ADJUST_X, min_u32(x0, x1)),
            max_u32(HOE_WINDOW_ADJUST_TOP, min_u32(y0, y1)),
            min_u32((self.width - HOE_WINDOW_ADJUST_X) as u32, max_u32(x0, x1)),
            min_u32((self.height - HOE_WINDOW_ADJUST_BOTTOM) as u32, max_u32(y0, y1)),
        )
    }

    /// Paints the rectangle between the two corners, as far as it lies inside
    /// the frame, with colour `c`.
    pub fn fill_rect(&mut self, x0: u32, y0: u32, x1: u32, y1: u32, c: u8)
        requires
            old(self).wf(),
            ({
                let (left, top, right, bottom) = old(self).fill_bounds(x0, y0, x1, y1);
                top <= bottom ==> left <= right + 1
            }),
        ensures
            final(self).wf(),
            final(self).width == old(self).width,
            final(self).height == old(self).height,
            ({
                let (left, top, right, bottom) = old(self).fill_bounds(x0, y0, x1, y1);
                forall|k: int| 0 <= k < final(self).pixels@.len() ==> #[trigger] final(self).pixels@[k] == if in_rect(
                    k,
                    old(self).width as int,
                    left as int,
                    top as int,
                    right as int,
                    bottom as int,
                ) {
                    c
                } else {
                    old(self).pixels@[k]
                }
            }),
    {
        let w = self.width;
        let h = self.height;
        let left = if x0 < x1 { x0 } else { x1 };
        let left = if left < HOE_WINDOW_ADJUST_X { HOE_WINDOW_ADJUST_X } else { left };
        let top = if y0 < y1 { y0 } else { y1 };
        let top = if top < HOE_WINDOW_ADJUST_TOP { HOE_WINDOW_ADJUST_TOP } else { top };
        let right = if x0 < x1 { x1 } else { x0 };
        let right = if w - HOE_WINDOW_ADJUST_X < right { w - HOE_WINDOW_ADJUST_X } else { right };
        let bottom = if y0 < y1 { y1 } else { y0 };
        let bottom = if h - HOE_WINDOW_ADJUST_BOTTOM < bottom { h - HOE_WINDOW_ADJUST_BOTTOM } else { bottom };
        let ghost old_pixels = self.pixels@;
        let ghost wi = w as int;
        if top > bottom || left > right {
            proof {
                assert forall|k: int| 0 <= k < self.pixels@.len() implies !in_rect(k, wi, left as int, top as int, right as int, bottom as int) by {}
            }
            return;
        }
        let mut y: u32 = top;
        while y <= bottom
            invariant
                self.wf(),
                self.width == w,
                self.height == h,
                old_pixels.len() == self.pixels@.len(),
                wi == w as int,
                w >= HOE_WINDOW_ADJUST_X,
                HOE_WINDOW_ADJUST_X <= left <= right < w,
                top <= y,
                y <= bottom + 1,
                bottom < h,
                forall|k: int| 0 <= k < self.pixels@.len() ==> #[trigger] self.pixels@[k] == if in_rect(
                    k, wi, left as int, top as int, right as int, y - 1,
                ) {
                    c
                } else {
                    old_pixels[k]
                },
            decreases bottom + 1 - y,
        {
            let mut x: u32 = left;
            while x <= right
                invariant
                    self.wf(),
                    self.width == w,
                    self.height == h,
                    old_pixels.len() == self.pixels@.len(),
                    wi == w as int,
                    HOE_WINDOW_ADJUST_X <= left <= right < w,
                    top <= y <= bottom,
                    bottom < h,
                    left <= x <= right + 1,
                    forall|k: int| 0 <= k < self.pixels@.len() ==> #[trigger] self.pixels@[k] == if in_rect(
                        k, wi, left as int, top as int, right as int, y - 1,
                    ) || (k / wi == y && left <= k % wi < x) {
                        c
                    } else {
                        old_pixels[k]
                    },
                decreases right + 1 - x,
            {
                proof {
                    assert((y as int) * (w as int) + (x as int) < (w as int) * (h as int)) by (nonlinear_arith)
                        requires
                            y < h,
                            x < w,
                    ;
                    vstd::arithmetic::div_mod::lemma_fundamental_div_mod_converse(
                        (y as int) * (w as int) + (x as int), w as int, y as int, x as int);
                }
                let k: usize = (y * w + x) as usize;
                assert(k as int == (y as int) * (w as int) + (x as int));
                self.pixels.set(k, c);
                proof {
                    assert forall|j: int| 0 <= j < self.pixels@.len() implies #[trigger] self.pixels@[j] == if in_rect(
                        j, wi, left as int, top as int, right as int, y - 1,
                    ) || (j / wi == y && left <= j % wi < x + 1) {
                        c
                    } else {
                        old_pixels[j]
                    } by {
                        if j != k as int {
                            assert(!(j / wi == y && j % wi == x)) by {
                                if j / wi == y && j % wi == x {
                                    vstd::arithmetic::div_mod::lemma_fundamental_div_mod(j, wi);
                                    let q = j / wi;
                                    assert(wi * q == (y as int) * wi) by (nonlinear_arith)
                                        requires
                                            q == y,
                                    ;
                                    assert(j == k as int);
                                }
                            }
                        }
                    }
                }
                x = x + 1;
            }
            proof {
                assert forall|j: int| 0 <= j < self.pixels@.len() implies #[trigger] self.pixels@[j] == if in_rect(
                    j, wi, left as int, top as int, right as int, y as int,
                ) {
                    c
                } else {
                    old_pixels[j]
                } by {
                    assert((in_rect(j, wi, left as int, top as int, right as int, y - 1) || (j / wi == y
                        && left <= j % wi < right + 1)) == in_rect(j, wi, left as int, top as int, right as int, y as int));
                }
            }
            y = y + 1;
        }
    }

    /// Whether the glyph `data`, drawn at (`x`, `y`) in a buffer `w` wide, sets
    /// the pixel at `k`: rows of eight pixels, the high bit leftmost.
    pub open spec fn glyph_covers(k: int, w: int, x: int, y: int, data: Seq<u8>) -> bool {
        let row = k / w - y;
        let col = k % w - x;
        &&& 0 <= row < 16
        &&& 0 <= col < 8
        &&& (data[row] >> ((7 - col) as u8)) & 1 == 1
    }

    /// Draws a glyph of sixteen rows at (`x`, `y`) in colour `color`, where it
    /// fits left of the right edge and above the bottom edge; set bits are
    /// painted and clear bits leave the pixel.
    pub fn put_font_data(&mut self, x: i32, y: i32, data: &[u8], color: u8)
        requires
            old(self).wf(),
            data@.len() >= 16,
            old(self).width <= i32::MAX,
            old(self).height <= i32::MAX,
            x < old(self).width - 8 && y < old(self).height - 16 ==> x >= 0 && y >= 0,
        ensures
            final(self).wf(),
            final(self).width == old(self).width,
            final(self).height == old(self).height,
            !(x < old(self).width - 8 && y < old(self).height - 16) ==> final(self).pixels@ == old(self).pixels@,
            x < old(self).width - 8 && y < old(self).height - 16 ==> forall|k: int|
                0 <= k < final(self).pixels@.len() ==> #[trigger] final(self).pixels@[k] == if Self::glyph_covers(
                    k,
                    old(self).width as int,
                    x as int,
                    y as int,
                    data@,
                ) {
                    color
                } else {
                    old(self).pixels@[k]
                },
    {
        let w = self.width;
        let h = self.height;
        if !(x < w as i32 - 8 && y < h as i32 - 16) {
            return;
        }
        let ghost old_pixels = self.pixels@;
        let ghost wi = w as int;
        let xu = x as u32;
        let yu = y as u32;
        let mut row: u32 = 0;
        while row < 16
            invariant
                self.wf(),
                self.width == w,
                self.height == h,
                wi == w as int,
                old_pixels.len() == self.pixels@.len(),
                data@.len() >= 16,
                0 <= x,
                0 <= y,
                xu == x,
                yu == y,
                x + 8 < w,
                y + 16 < h,
                row <= 16,
                forall|k: int| 0 <= k < self.pixels@.len() ==> #[trigger] self.pixels@[k] == if Self::glyph_covers(
                    k, wi, x as int, y as int, data@,
                ) && k / wi - y < row {
                    color
                } else {
                    old_pixels[k]
                },
            decreases 16 - row,
        {
            let byte = data[row as usize];
            let mut col: u32 = 0;
            while col < 8
                invariant
                    self.wf(),
                    self.width == w,
                    self.height == h,
                    wi == w as int,
                    old_pixels.len() == self.pixels@.len(),
                    data@.len() >= 16,
                    byte == data@[row as int],
                    0 <= x,
                    0 <= y,
                    xu == x,
                    yu == y,
                    x + 8 < w,
                    y + 16 < h,
                    row < 16,
                    col <= 8,
                    forall|k: int| 0 <= k < self.pixels@.len() ==> #[trigger] self.pixels@[k] == if Self::glyph_covers(
                        k, wi, x as int, y as int, data@,
                    ) && (k / wi - y < row || (k / wi - y == row && k % wi - x < col)) {
                        color
                    } else {
                        old_pixels[k]
                    },
                decreases 8 - col,
            {
                let py: u32 = yu + row;
                let px: u32 = xu + col;
                proof {
                    assert((py as int) * (w as int) + (px as int) < (w as int) * (h as int)) by (nonlinear_arith)
                        requires
                            py < h,
                            px < w,
                    ;
                    vstd::arithmetic::div_mod::lemma_fundamental_div_mod_converse(
                        (py as int) * (w as int) + (px as int), w as int, py as int, px as int);
                }
                let k: usize = (py * w + px) as usize;
                assert(k as int == (py as int) * (w as int) + (px as int));
                let mask: u8 = 0x80u8 >> (col as u8);
                let set = byte & mask != 0;
                assert(set == ((byte >> ((7 - col) as u8)) & 1 == 1)) by (bit_vector)
                    requires
                        col < 8,
                        mask == 0x80u8 >> (col as u8),
                        set == (byte & mask != 0),
                ;
                if set {
                    self.pixels.set(k, color);
                }
                proof {
                    assert forall|j: int| 0 <= j < self.pixels@.len() implies #[trigger] self.pixels@[j] == if Self::glyph_covers(
                        j, wi, x as int, y as int, data@,
                    ) && (j / wi - y < row || (j / wi - y == row && j % wi - x < col + 1)) {
                        color
                    } else {
                        old_pixels[j]
                    } by {
                        if j != k as int {
                            assert(!(j / wi == py && j % wi == px)) by {
                                if j / wi == py && j % wi == px {
                                    vstd::arithmetic::div_mod::lemma_fundamental_div_mod(j, wi);
                                    let q = j / wi;
                                    assert(wi * q == (py as int) * wi) by (nonlinear_arith)
                                        requires
                                            q == py,
                                    ;
                                }
                            }
                        } else {
                            assert(j / wi == py && j % wi == px);
                        }
                    }
                }
                col = col + 1;
            }
            row = row + 1;
        }
    }

    /// Paints one pixel, where it lies inside the window.
    pub fn set_pixel(&mut self, x: u32, y: u32, c: u8)
        requires
            old(self).wf(),
        ensures
            final(self).wf(),
            final(self).width == old(self).width,
            final(self).height == old(self).height,
            x < old(self).width && y < old(self).height ==> final(self).pixels@ == old(self).pixels@.update(
                x + y * old(self).width,
                c,
            ),
            !(x < old(self).width && y < old(self).height) ==> final(self).pixels@ == old(self).pixels@,
    {
        if x < self.width && y < self.height {
            proof {
                assert((y as int) * (self.width as int) + (x as int) < (self.width as int) * (self.height as int))
                    by (nonlinear_arith)
                    requires
                        y < self.height,
                        x < self.width,
                ;
                assert((y as int) * (self.width as int) == y * self.width) by (nonlinear_arith);
            }
            let k: usize = (x + y * self.width) as usize;
            self.pixels.set(k, c);
        }
    }
}


/// The size that an application asks of an open file: the length for
/// `SeekSet`, the position for `SeekCur`, and the position less the length for
/// `SeekEnd`, each as an unsigned machine word. The position is left where it was.
pub fn hoe_file_size(fcb: &mut FsRawFileControlBlock, whence: Whence, end_len: Option<OffsetType>) -> (r: usize)
    requires
        !old(fcb).is_device,
        whence == Whence::SeekEnd ==> i64::MIN <= old(fcb).file_pos - (match end_len {
            Some(l) => l as int,
            None => 0int,
        }) <= i64::MAX,
    ensures
        *final(fcb) == *old(fcb),
        ({
            let pos = old(fcb).file_pos;
            let size: i64 = match end_len {
                Some(l) => l,
                None => 0i64,
            };
            r == match whence {
                Whence::SeekSet => size as usize,
                Whence::SeekCur => pos as usize,
                Whence::SeekEnd => (pos - size) as i64 as usize,
            }
        }),
{
    let file_pos = match fcb.lseek(0, Whence::SeekCur, end_len) {
        Ok(p) => p,
        Err(_) => {
            return 0;
        },
    };
    let file_size = match fcb.lseek(0, Whence::SeekEnd, end_len) {
        Ok(p) => p,
        Err(_) => {
            return 0;
        },
    };
    match fcb.lseek(file_pos, Whence::SeekSet, end_len) {
        Ok(_) => match whence {
            Whence::SeekSet => file_size as usize,
            Whence::SeekCur => file_pos as usize,
            Whence::SeekEnd => (file_pos - file_size) as usize,
        },
        Err(_) => 0,
    }
}


/// The window calls take the window handle from EBX, and a rectangle or a line
/// from EAX, ECX (the first corner) and ESI, EDI (the second), in that order:
/// filling a box, refreshing a rectangle and drawing a line alike.
pub proof fn lemma_window_call_registers(r: LegacySyscallContext)
    ensures
        r.edx == 7 ==> (spec_decode_syscall(r) matches HoeSyscall::FillRect { window, x0, y0, x1, y1, color }
            && window == r.ebx && x0 == r.eax && y0 == r.ecx && x1 == r.esi && y1 == r.edi && color == r.ebp as u8),
        r.edx == 12 ==> (spec_decode_syscall(r) matches HoeSyscall::RefreshWindow { window, x0, y0, x1, y1 }
            && window == r.ebx && x0 == r.eax && y0 == r.ecx && x1 == r.esi && y1 == r.edi),
        r.edx == 13 ==> (spec_decode_syscall(r) matches HoeSyscall::DrawLine { window, x0, y0, x1, y1, color }
            && window == r.ebx && x0 == r.eax as i32 && y0 == r.ecx as i32 && x1 == r.esi as i32 && y1
            == r.edi as i32 && color == r.ebp as u8),
        r.edx == 11 ==> (spec_decode_syscall(r) matches HoeSyscall::SetPixel { window, x, y, color }
            && window == r.ebx && x == r.esi && y == r.edi && color == r.eax as u8),
        r.edx == 6 ==> (spec_decode_syscall(r) matches HoeSyscall::DrawText { window, text, color, x, y, len }
            && window == r.ebx && x == r.esi as i32 && y == r.edi as i32 && color == r.eax as u8 && len == r.ecx
            && text == r.ebp),
        r.edx == 5 ==> (spec_decode_syscall(r) matches HoeSyscall::OpenWindow { title, width, height, buffer }
            && buffer == r.ebx && width == r.esi && height == r.edi && title == r.ecx),
{
}

/// The memory, timer and file calls: memory calls take the pool or block in
/// EAX and the size in ECX, timer calls the timer handle in EBX and the value
/// in EAX, file calls the file handle in EAX and their second argument in
/// EBX (buffer, offset) and a size or origin in ECX.
pub proof fn lemma_resource_call_registers(r: LegacySyscallContext)
    ensures
        r.edx == 8 ==> spec_decode_syscall(r) == (HoeSyscall::InitMalloc { start: r.eax, free: r.ecx }),
        r.edx == 9 ==> spec_decode_syscall(r) == (HoeSyscall::Malloc { size: r.ecx }),
        r.edx == 10 ==> spec_decode_syscall(r) == (HoeSyscall::Free { addr: r.eax, size: r.ecx }),
        r.edx == 17 ==> spec_decode_syscall(r) == (HoeSyscall::InitTimer { timer: r.ebx, data: r.eax }),
        r.edx == 18 ==> spec_decode_syscall(r) == (HoeSyscall::SetTimer { timer: r.ebx, centiseconds: r.eax }),
        r.edx == 23 ==> (spec_decode_syscall(r) matches HoeSyscall::FileSeek { file, offset, whence }
            && file == r.eax && offset == r.ebx as i32 && whence == r.ecx),
        r.edx == 24 ==> spec_decode_syscall(r) == (HoeSyscall::FileSize { file: r.eax, whence: r.ecx }),
        r.edx == 25 ==> spec_decode_syscall(r) == (HoeSyscall::FileRead { file: r.eax, buffer: r.ebx, size: r.ecx }),
        r.edx == 26 ==> spec_decode_syscall(r) == (HoeSyscall::CommandLine { buffer: r.ebx, size: r.ecx }),
        r.edx == 1 ==> spec_decode_syscall(r) == HoeSyscall::PutChar(r.eax as u8),
        r.edx == 2 ==> spec_decode_syscall(r) == (HoeSyscall::PutCString { text: r.ebx }),
        r.edx == 3 ==> spec_decode_syscall(r) == (HoeSyscall::PutString { text: r.ebx, len: r.ecx }),
        r.edx == 15 ==> spec_decode_syscall(r) == (HoeSyscall::GetKey { sleep: r.eax != 0 }),
        r.edx == 20 ==> spec_decode_syscall(r) == (HoeSyscall::Beep { millihertz: r.eax }),
        r.edx == 21 ==> spec_decode_syscall(r) == (HoeSyscall::FileOpen { name: r.ebx }),
        r.edx == 33 ==> spec_decode_syscall(r) == (if r.ecx == 1 {
            HoeSyscall::TimeCount
        } else {
            HoeSyscall::ExtendedUnknown
        }),
        (r.edx == 0 || 30 <= r.edx <= 32 || r.edx > 33) ==> spec_decode_syscall(r) == HoeSyscall::Unimplemented(r.edx),
{
}

} // verus!
