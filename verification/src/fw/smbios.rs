//! System Management BIOS: the structure table, read as bytes.

use vstd::prelude::*;
use vstd::string::StringSliceAdditionalSpecFns;

verus! {

/// The type of an SMBIOS structure.
#[derive(Debug, Clone, Copy, PartialEq, Eq, PartialOrd, Ord, Structural)]
pub struct HeaderType(pub u8);

impl HeaderType {
    pub const BIOS_INFO: u8 = 0;
    pub const SYSTEM_INFO: u8 = 1;
    pub const BASEBOARD_INFO: u8 = 2;
    pub const SYSTEM_ENCLOSURE: u8 = 3;
    pub const PROCESSOR_INFO: u8 = 4;
    pub const MEMORY_CONTROLLER_INFO: u8 = 5;
    pub const MEMORY_MODULE_INFO: u8 = 6;
    pub const CACHE_INFO: u8 = 7;
    pub const PORT_CONNECTOR_INFO: u8 = 8;
    pub const SYSTEM_SLOTS: u8 = 9;
    pub const ONBOARD_DEVICE_INFO: u8 = 10;
    pub const OEM_STRINGS: u8 = 11;
    pub const SYSTEM_CONFIGURATION_OPTIONS: u8 = 12;
    pub const BIOS_LANGUAGE_INFO: u8 = 13;
    pub const GROUP_ASSOCIATIONS: u8 = 14;
    pub const SYSTEM_EVENT_LOG: u8 = 15;
    pub const PHYSICAL_MEMORY_ARRAY: u8 = 16;
    pub const MEMORY_DEVICE: u8 = 17;
    pub const _32BIT_MEMORY_ERROR_INFO: u8 = 18;
    pub const MEMORY_ARRAY_MAPPED_ADDRESS: u8 = 19;
    pub const MEMORY_DEVICE_MAPPED_ADDRESS: u8 = 20;
    pub const BUILT_IN_POINTING_DEVICE: u8 = 21;
    pub const PORTABLE_BATTERY: u8 = 22;
    pub const SYSTEM_RESET: u8 = 23;
    pub const HARDWARE_SECURITY: u8 = 24;
    pub const SYSTEM_POWER_CONTROLS: u8 = 25;
    pub const VOLTAGE_PROBE: u8 = 26;
    pub const COOLING_DEVICE: u8 = 27;
    pub const TEMPERATURE_PROBE: u8 = 28;
    pub const ELECTRICAL_CURRENT_PROBE: u8 = 29;
    pub const OUT_OF_BAND_REMOTE_ACCESS: u8 = 30;
    pub const BOOT_INTEGRITY_SERVICE: u8 = 31;
    pub const SYSTEM_BOOT_INFO: u8 = 32;
    pub const _64BIT_MEMORY_ERROR_INFO: u8 = 33;
    pub const MANAGEMENT_DEVICE: u8 = 34;
    pub const MANAGEMENT_DEVICE_COMPONENT: u8 = 35;
    pub const MANAGEMENT_DEVICE_THRESHOLD_DATA: u8 = 36;
    pub const MEMORY_CHANNEL: u8 = 37;
    pub const IPMI_DEVICE_INFO: u8 = 38;
    pub const SYSTEM_POWER_SUPPLY: u8 = 39;
    pub const ADDITIONAL_INFO: u8 = 40;
    pub const ONBOARD_DEVICES_EXTENDED_INFO: u8 = 41;
    pub const MANAGEMENT_CONTROLLER_HOST_INTERFACE: u8 = 42;
    pub const TPM_DEVICE: u8 = 43;
    pub const PROCESSOR_ADDITIONAL_INFO: u8 = 44;
}

/// The entry point of SMBIOS 2.1: where the structure table lies and how many
/// structures it holds.
#[derive(Debug, Clone, Copy, PartialEq, Eq, Structural)]
pub struct SmBiosEntryV1 {
    pub ver_major: u8,
    pub ver_minor: u8,
    pub max_struct: u16,
    /// The physical address of the structure table.
    pub base: u32,
    pub n_structures: u16,
}

/// The little-endian word at `at`.
pub open spec fn le16_at(data: Seq<u8>, at: int) -> int {
    data[at] + data[at + 1] * 0x100
}

/// The little-endian dword at `at`.
pub open spec fn le32_at(data: Seq<u8>, at: int) -> int {
    data[at] + data[at + 1] * 0x100 + data[at + 2] * 0x1_0000 + data[at + 3] * 0x100_0000
}

impl SmBiosEntryV1 {
    /// The size of the entry point.
    pub const SIZE: usize = 0x20;

    /// Reads the entry point from its bytes.
    pub fn from_bytes(bytes: &[u8]) -> (r: Self)
        requires
            bytes@.len() >= 0x20,
        ensures
            r.ver_major == bytes@[6],
            r.ver_minor == bytes@[7],
            r.max_struct == le16_at(bytes@, 8),
            r.base == le32_at(bytes@, 0x18),
            r.n_structures == le16_at(bytes@, 0x1C),
    {
        SmBiosEntryV1 {
            ver_major: bytes[6],
            ver_minor: bytes[7],
            max_struct: bytes[8] as u16 + bytes[9] as u16 * 0x100,
            base: bytes[0x18] as u32 + bytes[0x19] as u32 * 0x100 + bytes[0x1A] as u32 * 0x1_0000
                + bytes[0x1B] as u32 * 0x100_0000,
            n_structures: bytes[0x1C] as u16 + bytes[0x1D] as u16 * 0x100,
        }
    }
}

/// The length of the string at `at`: the bytes before the next 0, or before the end of
/// the table.
pub open spec fn spec_strlen(data: Seq<u8>, at: int) -> nat
    decreases data.len() - at,
{
    if at < 0 || at >= data.len() || data[at] == 0 {
        0
    } else {
        1 + spec_strlen(data, at + 1)
    }
}

/// How many bytes the strings from `at` on take, each with its terminating 0, up to the
/// empty string that ends them.
pub open spec fn spec_strings_len(data: Seq<u8>, at: int) -> nat
    decreases data.len() - at,
{
    if at < 0 || at >= data.len() || spec_strlen(data, at) == 0 {
        0
    } else if at + spec_strlen(data, at) + 1 >= data.len() {
        spec_strlen(data, at) + 1
    } else {
        spec_strlen(data, at) + 1 + spec_strings_len(data, at + spec_strlen(data, at) + 1)
    }
}

/// Where the string with number `n` (from 0) after `at` starts, if there are that many.
pub open spec fn spec_nth_string(data: Seq<u8>, at: int, n: nat) -> Option<int>
    decreases data.len() - at,
{
    if at < 0 || at >= data.len() || spec_strlen(data, at) == 0 {
        None
    } else if n == 0 {
        Some(at)
    } else if at + spec_strlen(data, at) + 1 >= data.len() {
        None
    } else {
        spec_nth_string(data, at + spec_strlen(data, at) + 1, (n - 1) as nat)
    }
}

pub proof fn lemma_strlen_bound(data: Seq<u8>, at: int)
    requires
        0 <= at,
    ensures
        at + spec_strlen(data, at) <= data.len() || at >= data.len(),
        at < data.len() ==> at + spec_strlen(data, at) <= data.len(),
        at + spec_strlen(data, at) < data.len() ==> data[at + spec_strlen(data, at)] == 0,
        forall|i: int| at <= i < at + spec_strlen(data, at) ==> data[i] != 0,
    decreases data.len() - at,
{
    if at >= data.len() || data[at] == 0 {
    } else {
        lemma_strlen_bound(data, at + 1);
    }
}

/// The header of the structure at `at`.
pub open spec fn spec_header_at(data: Seq<u8>, at: int) -> SmBiosHeader {
    SmBiosHeader {
        header_type: HeaderType(data[at]),
        size: data[at + 1],
        handle: le16_at(data, at + 2) as u16,
        offset: at as usize,
    }
}

/// How many bytes the structure at `at` takes: its formatted part, its strings with
/// their terminators and the 0 after them (two 0s when it has no string).
pub open spec fn spec_struct_size_at(data: Seq<u8>, at: int) -> int {
    let size = data[at + 1] as int;
    let off = spec_strings_len(data, at + size);
    if off > 0 {
        size + off + 1
    } else {
        size + 2
    }
}

/// Where the structures start, walking from `at` through at most `n` of them: the walk
/// ends where no header fits, and after a structure that runs past the table's end.
pub open spec fn spec_walk(data: Seq<u8>, at: int, n: nat) -> Seq<int>
    decreases n,
{
    if n == 0 || at < 0 || at + 4 > data.len() {
        Seq::empty()
    } else if at + data[at + 1] > data.len() || spec_struct_size_at(data, at) > data.len() + 2 - at {
        seq![at]
    } else {
        seq![at] + spec_walk(data, at + spec_struct_size_at(data, at), (n - 1) as nat)
    }
}

pub proof fn lemma_walk_headers(data: Seq<u8>, at: int, n: nat)
    requires
        0 <= at,
    ensures
        forall|k: int| 0 <= k < spec_walk(data, at, n).len() ==> 0 <= #[trigger] spec_walk(data, at, n)[k]
            && spec_walk(data, at, n)[k] + 4 <= data.len(),
    decreases n,
{
    if n == 0 || at + 4 > data.len() {
    } else if at + data[at + 1] > data.len() || spec_struct_size_at(data, at) > data.len() + 2 - at {
    } else {
        let next = at + spec_struct_size_at(data, at);
        lemma_walk_headers(data, next, (n - 1) as nat);
        let w = spec_walk(data, at, n);
        let rest = spec_walk(data, next, (n - 1) as nat);
        assert forall|k: int| 0 <= k < w.len() implies 0 <= #[trigger] w[k] && w[k] + 4 <= data.len() by {
            if k > 0 {
                assert(w[k] == rest[k - 1]);
            }
        }
    }
}

/// The first position of the walk, from `k` on, where a structure of type `t` starts.
pub open spec fn spec_first_from(data: Seq<u8>, walk: Seq<int>, t: u8, k: int) -> Option<int>
    decreases walk.len() - k,
{
    if k < 0 || k >= walk.len() {
        None
    } else if data[walk[k]] == t {
        Some(k)
    } else {
        spec_first_from(data, walk, t, k + 1)
    }
}

/// The first position of the walk where a structure of type `t` starts.
pub open spec fn spec_first_of_type(data: Seq<u8>, walk: Seq<int>, t: u8) -> Option<int> {
    spec_first_from(data, walk, t, 0)
}

proof fn lemma_first_from(data: Seq<u8>, walk: Seq<int>, t: u8, i: int, k: int)
    requires
        0 <= k <= i < walk.len(),
        data[walk[i]] == t,
        forall|j: int| 0 <= j < i ==> data[#[trigger] walk[j]] != t,
    ensures
        spec_first_from(data, walk, t, k) == Some(i),
    decreases i - k,
{
    if k < i {
        assert(data[walk[k]] != t);
        lemma_first_from(data, walk, t, i, k + 1);
    }
}

proof fn lemma_first_from_found(data: Seq<u8>, walk: Seq<int>, t: u8, k: int)
    ensures
        spec_first_from(data, walk, t, k) matches Some(i) ==> 0 <= k <= i < walk.len() && data[walk[i]] == t,
    decreases walk.len() - k,
{
    if 0 <= k < walk.len() && data[walk[k]] != t {
        lemma_first_from_found(data, walk, t, k + 1);
    }
}

proof fn lemma_first_of_type(data: Seq<u8>, walk: Seq<int>, t: u8, i: int)
    requires
        0 <= i < walk.len(),
        data[walk[i]] == t,
        forall|k: int| 0 <= k < i ==> data[#[trigger] walk[k]] != t,
    ensures
        spec_first_of_type(data, walk, t) == Some(i),
{
    lemma_first_from(data, walk, t, i, 0);
}

proof fn lemma_first_from_none(data: Seq<u8>, walk: Seq<int>, t: u8, k: int)
    requires
        0 <= k,
        forall|j: int| 0 <= j < walk.len() ==> data[#[trigger] walk[j]] != t,
    ensures
        spec_first_from(data, walk, t, k) is None,
    decreases walk.len() - k,
{
    if k < walk.len() {
        assert(data[walk[k]] != t);
        lemma_first_from_none(data, walk, t, k + 1);
    }
}

proof fn lemma_first_of_type_none(data: Seq<u8>, walk: Seq<int>, t: u8)
    requires
        forall|k: int| 0 <= k < walk.len() ==> data[#[trigger] walk[k]] != t,
    ensures
        spec_first_of_type(data, walk, t) is None,
{
    lemma_first_from_none(data, walk, t, 0);
}

/// The string with number `index` (from 1) among the strings at `at`; none for 0, for
/// a number beyond them, and for a placeholder.
pub open spec fn spec_string(data: Seq<u8>, at: int, index: nat) -> Option<Seq<u8>> {
    if index == 0 {
        None
    } else {
        match spec_nth_string(data, at, (index - 1) as nat) {
            None => None,
            Some(start) => {
                let s = data.subrange(start, start + spec_strlen(data, start));
                if !utf8_valid(s) {
                    Some(seq![0x3Fu8])
                } else if is_placeholder(s) {
                    None
                } else {
                    Some(s)
                }
            },
        }
    }
}

/// The structure table, as the bytes that the firmware left, and how many structures
/// it says it holds.
pub struct SmBios {
    pub table: Vec<u8>,
    pub n_structures: usize,
}

/// The header of the structure at `at`: type, length of the formatted part, handle.
#[derive(Debug, Clone, Copy, PartialEq, Eq, Structural)]
pub struct SmBiosHeader {
    pub header_type: HeaderType,
    pub size: u8,
    pub handle: u16,
    /// Where the structure starts in the table.
    pub offset: usize,
}

impl SmBiosHeader {
    /// Some products return meaningless strings.
    pub const DEFAULT_STRING: &'static str = "Default string";
    /// Some products return meaningless strings.
    pub const TO_BE_FILLED_BY_OEM: &'static str = "To be filled by O.E.M.";

    pub fn header_type(&self) -> (r: HeaderType)
        ensures
            r == self.header_type,
    {
        self.header_type
    }

    pub fn header_size(&self) -> (r: usize)
        ensures
            r == self.size,
    {
        self.size as usize
    }

    pub fn handle(&self) -> (r: u16)
        ensures
            r == self.handle,
    {
        self.handle
    }
}

/// Whether a string is one of the placeholders that some products fill in.
pub open spec fn is_placeholder(s: Seq<u8>) -> bool {
    s == SmBiosHeader::DEFAULT_STRING.spec_bytes() || s == SmBiosHeader::TO_BE_FILLED_BY_OEM.spec_bytes()
}

/// Whether byte `j` lies in the file and in `lo..=hi`.
pub open spec fn byte_in(s: Seq<u8>, j: int, lo: u8, hi: u8) -> bool {
    0 <= j < s.len() && lo <= s[j] <= hi
}

/// The length of the well-formed UTF-8 sequence that starts at `i` (Unicode,
/// table 3-7: no overlong forms, no surrogates, nothing above U+10FFFF), or 0
/// when none starts there.
pub open spec fn utf8_char_len(s: Seq<u8>, i: int) -> int {
    let b = s[i];
    if b <= 0x7F {
        1
    } else if 0xC2 <= b <= 0xDF {
        if byte_in(s, i + 1, 0x80, 0xBF) { 2 } else { 0 }
    } else if 0xE0 <= b <= 0xEF {
        let (lo, hi): (u8, u8) = if b == 0xE0 { (0xA0, 0xBF) } else if b == 0xED { (0x80, 0x9F) } else { (0x80, 0xBF) };
        if byte_in(s, i + 1, lo, hi) && byte_in(s, i + 2, 0x80, 0xBF) { 3 } else { 0 }
    } else if 0xF0 <= b <= 0xF4 {
        let (lo, hi): (u8, u8) = if b == 0xF0 { (0x90, 0xBF) } else if b == 0xF4 { (0x80, 0x8F) } else { (0x80, 0xBF) };
        if byte_in(s, i + 1, lo, hi) && byte_in(s, i + 2, 0x80, 0xBF) && byte_in(s, i + 3, 0x80, 0xBF) {
            4
        } else {
            0
        }
    } else {
        0
    }
}

/// Whether the bytes from `i` on are a sequence of well-formed UTF-8 characters.
pub open spec fn utf8_valid_from(s: Seq<u8>, i: int) -> bool
    decreases s.len() - i,
{
    if i >= s.len() || i < 0 {
        true
    } else if utf8_char_len(s, i) == 0 {
        false
    } else {
        utf8_valid_from(s, i + utf8_char_len(s, i))
    }
}

/// Whether the bytes are well-formed UTF-8: what `std::str::from_utf8` accepts.
pub open spec fn utf8_valid(bytes: Seq<u8>) -> bool {
    utf8_valid_from(bytes, 0)
}

fn byte_in_at(s: &[u8], j: usize, lo: u8, hi: u8) -> (r: bool)
    ensures
        r == byte_in(s@, j as int, lo, hi),
{
    j < s.len() && lo <= s[j] && s[j] <= hi
}

/// The length of the UTF-8 character at `i`; see [`utf8_char_len`].
fn utf8_char_len_at(s: &[u8], i: usize) -> (r: usize)
    requires
        i < s.len(),
    ensures
        r == utf8_char_len(s@, i as int),
        r <= 4,
{
    let b = s[i];
    if b <= 0x7F {
        1
    } else if 0xC2 <= b && b <= 0xDF {
        if byte_in_at(s, i + 1, 0x80, 0xBF) { 2 } else { 0 }
    } else if 0xE0 <= b && b <= 0xEF {
        let (lo, hi): (u8, u8) = if b == 0xE0 { (0xA0, 0xBF) } else if b == 0xED { (0x80, 0x9F) } else { (0x80, 0xBF) };
        if byte_in_at(s, i + 1, lo, hi) && byte_in_at(s, i + 2, 0x80, 0xBF) { 3 } else { 0 }
    } else if 0xF0 <= b && b <= 0xF4 {
        let (lo, hi): (u8, u8) = if b == 0xF0 { (0x90, 0xBF) } else if b == 0xF4 { (0x80, 0x8F) } else { (0x80, 0xBF) };
        if byte_in_at(s, i + 1, lo, hi) && byte_in_at(s, i + 2, 0x80, 0xBF) && byte_in_at(s, i + 3, 0x80, 0xBF) {
            4
        } else {
            0
        }
    } else {
        0
    }
}

/// Whether the bytes are well-formed UTF-8. ASCII text is.
fn is_utf8(bytes: &[u8]) -> (r: bool)
    ensures
        r == utf8_valid(bytes@),
        (forall|i: int| 0 <= i < bytes@.len() ==> #[trigger] bytes@[i] < 0x80) ==> r,
{
    let mut i: usize = 0;
    while i < bytes.len()
        invariant
            i <= bytes@.len(),
            utf8_valid(bytes@) == utf8_valid_from(bytes@, i as int),
        decreases bytes@.len() - i,
    {
        let n = utf8_char_len_at(bytes, i);
        if n == 0 {
            assert(bytes@[i as int] >= 0x80);
            return false;
        }
        i = i + n;
    }
    true
}

/// Whether `a` and `b` hold the same bytes.
fn bytes_equal(a: &[u8], b: &[u8]) -> (r: bool)
    ensures
        r == (a@ == b@),
{
    if a.len() != b.len() {
        return false;
    }
    let mut i: usize = 0;
    while i < a.len()
        invariant
            a@.len() == b@.len(),
            i <= a@.len(),
            forall|j: int| 0 <= j < i ==> a@[j] == b@[j],
        decreases a@.len() - i,
    {
        if a[i] != b[i] {
            return false;
        }
        i += 1;
    }
    assert(a@ =~= b@);
    true
}

impl SmBios {
    /// The string at byte `field` of the first system information structure.
    pub open spec fn spec_system_info_string(&self, field: int) -> Option<Seq<u8>> {
        let data = self.table@;
        let walk = spec_walk(data, 0, self.n_structures as nat);
        match spec_first_of_type(data, walk, HeaderType::SYSTEM_INFO) {
            None => None,
            Some(k) => {
                let at = walk[k];
                let size = data[at + 1] as int;
                if size <= field || at + size > data.len() {
                    None
                } else {
                    spec_string(data, at + size, data[at + field] as nat)
                }
            },
        }
    }

    pub fn new(table: Vec<u8>, n_structures: usize) -> (r: Self)
        ensures
            r.table@ == table@,
            r.n_structures == n_structures,
    {
        SmBios { table, n_structures }
    }

    /// The header of the structure at `at`, if the table holds one there.
    pub fn header_at(&self, at: usize) -> (r: Option<SmBiosHeader>)
        ensures
            at + 4 <= self.table@.len() ==> r == Some(SmBiosHeader {
                header_type: HeaderType(self.table@[at as int]),
                size: self.table@[at + 1],
                handle: le16_at(self.table@, at + 2) as u16,
                offset: at,
            }),
            at + 4 > self.table@.len() ==> r is None,
    {
        if at > self.table.len() || self.table.len() - at < 4 {
            return None;
        }
        Some(SmBiosHeader {
            header_type: HeaderType(self.table[at]),
            size: self.table[at + 1],
            handle: self.table[at + 2] as u16 + self.table[at + 3] as u16 * 0x100,
            offset: at,
        })
    }

    /// The length of the string at `at`.
    pub fn strlen(&self, at: usize) -> (r: usize)
        ensures
            r == spec_strlen(self.table@, at as int),
    {
        proof {
            lemma_strlen_bound(self.table@, at as int);
        }
        let mut i = at;
        while i < self.table.len() && self.table[i] != 0
            invariant
                at <= i,
                i <= self.table@.len() || i == at,
                spec_strlen(self.table@, at as int) == (i - at) + spec_strlen(self.table@, i as int),
            decreases self.table@.len() - i,
        {
            i += 1;
        }
        i - at
    }

    /// How many bytes the strings from `at` on take, with their terminators.
    pub fn strings_len(&self, at: usize) -> (r: usize)
        requires
            self.table@.len() < usize::MAX,
        ensures
            r == spec_strings_len(self.table@, at as int),
            at < self.table@.len() ==> at + r <= self.table@.len() + 1,
    {
        let mut p = at;
        let mut total: usize = 0;
        loop
            invariant
                self.table@.len() < usize::MAX,
                at <= p,
                p == at + total,
                p <= self.table@.len() || total == 0,
                spec_strings_len(self.table@, at as int) == total + spec_strings_len(self.table@, p as int),
            decreases self.table@.len() + 1 - p,
        {
            proof {
                lemma_strlen_bound(self.table@, p as int);
            }
            if p >= self.table.len() {
                return total;
            }
            let len = self.strlen(p);
            if len == 0 {
                return total;
            }
            if len + 1 >= self.table.len() - p {
                return total + len + 1;
            }
            total = total + len + 1;
            p = p + len + 1;
        }
    }

    /// How many bytes the structure with `header` takes: its formatted part, its strings
    /// with their terminators and the 0 after them (two 0s when it has no string).
    pub fn struct_size(&self, header: &SmBiosHeader) -> (r: usize)
        requires
            header.offset + header.size <= self.table@.len(),
            self.table@.len() + 0x100 < usize::MAX,
        ensures
            ({
                let off = spec_strings_len(self.table@, header.offset + header.size);
                r == if off > 0 { header.size + off + 1 } else { header.size + 2 }
            }),
    {
        let at = header.offset + header.header_size();
        let off = self.strings_len(at);
        proof {
            if at >= self.table@.len() {
                assert(off == 0);
            }
        }
        if off > 0 {
            header.header_size() + off + 1
        } else {
            header.header_size() + 2
        }
    }

    /// The bytes `start .. end` of the table.
    fn copy_range(&self, start: usize, end: usize) -> (r: Vec<u8>)
        requires
            start <= end <= self.table@.len(),
        ensures
            r@ == self.table@.subrange(start as int, end as int),
    {
        let mut v: Vec<u8> = Vec::new();
        let mut i = start;
        while i < end
            invariant
                start <= i <= end,
                end <= self.table@.len(),
                v@ == self.table@.subrange(start as int, i as int),
            decreases end - i,
        {
            v.push(self.table[i]);
            i += 1;
        }
        v
    }

    /// The string with number `index` (from 1) of the structure with `header`; none for
    /// 0, for a number beyond its strings, and for a placeholder; `?` for a string
    /// that is not UTF-8.
    pub fn string(&self, header: &SmBiosHeader, index: usize) -> (r: Option<Vec<u8>>)
        requires
            header.offset + header.size <= self.table@.len(),
            self.table@.len() + 0x100 < usize::MAX,
        ensures
            match r {
                Some(v) => spec_string(self.table@, header.offset + header.size, index as nat) == Some(v@),
                None => spec_string(self.table@, header.offset + header.size, index as nat) is None,
            },
    {
        if index == 0 {
            return None;
        }
        let size = header.header_size();
        assert(header.offset + size <= self.table@.len());
        let mut p = header.offset + size;
        let mut n = index - 1;
        loop
            invariant
                p <= self.table@.len(),
                index > 0,
                self.table@.len() + 0x100 < usize::MAX,
                spec_nth_string(self.table@, header.offset + header.size, (index - 1) as nat)
                    == spec_nth_string(self.table@, p as int, n as nat),
            decreases n,
        {
            proof {
                lemma_strlen_bound(self.table@, p as int);
            }
            if p >= self.table.len() {
                return None;
            }
            let len = self.strlen(p);
            if len == 0 {
                return None;
            }
            if n == 0 {
                let s = self.copy_range(p, p + len);
                if !is_utf8(s.as_slice()) {
                    return Some(vec![0x3Fu8]);
                }
                let default_string: &str = SmBiosHeader::DEFAULT_STRING;
                let to_be_filled: &str = SmBiosHeader::TO_BE_FILLED_BY_OEM;
                if bytes_equal(s.as_slice(), default_string.as_bytes()) || bytes_equal(
                    s.as_slice(),
                    to_be_filled.as_bytes(),
                ) {
                    return None;
                }
                return Some(s);
            }
            if len + 1 >= self.table.len() - p {
                return None;
            }
            n = n - 1;
            p = p + len + 1;
        }
    }

    /// Where the structures start, in the order of the table: the first at 0, each
    /// next one after the size of the one before. It stops at the count that the entry
    /// point gives, or where the table holds no further header.
    pub fn structure_offsets(&self) -> (r: Vec<usize>)
        requires
            self.table@.len() + 0x100 < usize::MAX,
        ensures
            r@.map_values(|x: usize| x as int) == spec_walk(self.table@, 0, self.n_structures as nat),
    {
        let mut v: Vec<usize> = Vec::new();
        let mut offset: usize = 0;
        let mut index: usize = 0;
        while index < self.n_structures
            invariant
                self.table@.len() + 0x100 < usize::MAX,
                index <= self.n_structures,
                offset <= self.table@.len() + 2,
                v@.map_values(|x: usize| x as int) + spec_walk(self.table@, offset as int, (self.n_structures - index) as nat)
                    == spec_walk(self.table@, 0, self.n_structures as nat),
            decreases self.n_structures - index,
        {
            let ghost before = v@;
            let header = match self.header_at(offset) {
                Some(h) => h,
                None => {
                    assert(spec_walk(self.table@, offset as int, (self.n_structures - index) as nat) =~= Seq::empty());
                    assert(v@.map_values(|x: usize| x as int) + Seq::<int>::empty() =~= v@.map_values(|x: usize| x as int));
                    return v;
                },
            };
            v.push(offset);
            assert(v@.map_values(|x: usize| x as int) =~= before.map_values(|x: usize| x as int).push(offset as int));
            if header.offset + header.header_size() > self.table.len() {
                assert(v@.map_values(|x: usize| x as int) =~= before.map_values(|x: usize| x as int) + spec_walk(self.table@, offset as int, (self.n_structures - index) as nat));
                return v;
            }
            let size = self.struct_size(&header);
            if size > self.table.len() + 2 - offset {
                assert(v@.map_values(|x: usize| x as int) =~= before.map_values(|x: usize| x as int) + spec_walk(self.table@, offset as int, (self.n_structures - index) as nat));
                return v;
            }
            assert(spec_walk(self.table@, offset as int, (self.n_structures - index) as nat) =~= seq![offset as int] + spec_walk(self.table@, offset + size, (self.n_structures - index - 1) as nat));
            assert(v@.map_values(|x: usize| x as int) + spec_walk(self.table@, offset + size, (self.n_structures - index - 1) as nat) =~= before.map_values(|x: usize| x as int) + spec_walk(self.table@, offset as int, (self.n_structures - index) as nat));
            offset = offset + size;
            index += 1;
        }
        assert(spec_walk(self.table@, offset as int, 0) =~= Seq::empty());
        assert(v@.map_values(|x: usize| x as int) + Seq::<int>::empty() =~= v@.map_values(|x: usize| x as int));
        v
    }

    /// The first structure of type `header_type`.
    pub fn find(&self, header_type: HeaderType) -> (r: Option<SmBiosHeader>)
        requires
            self.table@.len() + 0x100 < usize::MAX,
        ensures
            ({
                let walk = spec_walk(self.table@, 0, self.n_structures as nat);
                match spec_first_of_type(self.table@, walk, header_type.0) {
                    Some(k) => r == Some(spec_header_at(self.table@, walk[k])),
                    None => r is None,
                }
            }),
    {
        let offsets = self.structure_offsets();
        let ghost walk = spec_walk(self.table@, 0, self.n_structures as nat);
        proof {
            lemma_walk_headers(self.table@, 0, self.n_structures as nat);
            assert forall|k: int| 0 <= k < offsets@.len() implies #[trigger] offsets@[k] == walk[k] by {
                assert(offsets@.map_values(|x: usize| x as int)[k] == offsets@[k] as int);
            }
        }
        let mut i: usize = 0;
        while i < offsets.len()
            invariant
                offsets@.len() == walk.len(),
                forall|k: int| 0 <= k < offsets@.len() ==> #[trigger] offsets@[k] == walk[k],
                forall|k: int| 0 <= k < walk.len() ==> #[trigger] walk[k] + 4 <= self.table@.len(),
                i <= offsets@.len(),
                forall|k: int| 0 <= k < i ==> self.table@[#[trigger] walk[k]] != header_type.0,
                walk == spec_walk(self.table@, 0, self.n_structures as nat),
            decreases offsets@.len() - i,
        {
            let h = self.header_at(offsets[i]);
            match h {
                Some(h) => {
                    if h.header_type.0 == header_type.0 {
                        proof {
                            lemma_first_of_type(self.table@, walk, header_type.0, i as int);
                        }
                        return Some(h);
                    }
                },
                None => {},
            }
            i += 1;
        }
        proof {
            lemma_first_of_type_none(self.table@, walk, header_type.0);
        }
        None
    }

    /// The string at byte `field` of the system information structure.
    fn system_info_string(&self, field: usize) -> (r: Option<Vec<u8>>)
        requires
            self.table@.len() + 0x100 < usize::MAX,
            field == 4 || field == 5,
        ensures
            match r {
                Some(v) => self.spec_system_info_string(field as int) == Some(v@),
                None => self.spec_system_info_string(field as int) is None,
            },
    {
        proof {
            lemma_walk_headers(self.table@, 0, self.n_structures as nat);
            lemma_first_from_found(self.table@, spec_walk(self.table@, 0, self.n_structures as nat), HeaderType::SYSTEM_INFO, 0);
        }
        match self.find(HeaderType(HeaderType::SYSTEM_INFO)) {
            Some(h) => {
                if h.header_size() <= field || h.offset + h.header_size() > self.table.len() {
                    return None;
                }
                let index = self.table[h.offset + field] as usize;
                self.string(&h, index)
            },
            None => None,
        }
    }
    /// Returns the system manufacturer name, if available.
    pub fn manufacturer_name(&self) -> (r: Option<Vec<u8>>)
        requires
            self.table@.len() + 0x100 < usize::MAX,
        ensures
            match r {
                Some(v) => self.spec_system_info_string(4) == Some(v@),
                None => self.spec_system_info_string(4) is None,
            },
    {
        self.system_info_string(4)
    }

    /// Returns the system model name, if available.
    pub fn model_name(&self) -> (r: Option<Vec<u8>>)
        requires
            self.table@.len() + 0x100 < usize::MAX,
        ensures
            match r {
                Some(v) => self.spec_system_info_string(5) == Some(v@),
                None => self.spec_system_info_string(5) is None,
            },
    {
        self.system_info_string(5)
    }
}

/// A structure always takes more bytes than its formatted part, so the walk through
/// the table moves forward.
pub proof fn lemma_struct_size_advances(data: Seq<u8>, at: int, size: nat)
    ensures
        ({
            let off = spec_strings_len(data, at + size);
            (if off > 0 { size + off + 1 } else { size + 2 }) > size
        }),
{
}

} // verus!
