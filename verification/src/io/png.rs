//! The layout of a PNG file, read far enough to tell whether the PNG decoder
//! can be handed it.
//!
//! The decoder indexes its input without checking it in a few places: the
//! transparency chunk, the inflated image data and the palette. A file is
//! *ready* when none of those reads can fall outside what the file holds:
//! the header chunk is valid, every chunk up to the end chunk is complete,
//! every transparency chunk is long enough for the colour type, the image
//! data inflates to at least the rows that the header declares, and, for a
//! palette image, every row has a valid filter and every pixel names an entry
//! of the palette.

use vstd::prelude::*;
use crate::io::image::{be32, has_png_signature, png_signature};

verus! {

/// The fields of the header chunk that lay out the image data.
#[derive(Debug, Clone, Copy, PartialEq, Eq, Structural)]
pub struct PngLayout {
    pub width: u32,
    pub height: u32,
    pub bit_depth: u8,
    pub color_type: u8,
    pub interlace: u8,
}

/// Whether the chunk at `pos` has the type `a b c d`.
pub open spec fn chunk_is(s: Seq<u8>, pos: int, a: u8, b: u8, c: u8, d: u8) -> bool {
    s[pos + 4] == a && s[pos + 5] == b && s[pos + 6] == c && s[pos + 7] == d
}

/// Whether the chunk at `pos` (length, type, data, checksum) lies in the file.
pub open spec fn chunk_fits(s: Seq<u8>, pos: int) -> bool {
    pos + 12 <= s.len() && pos + 12 + be32(s, pos) <= s.len()
}

/// Samples a pixel for each colour type.
pub open spec fn channels(color_type: u8) -> int {
    if color_type == 2 {
        3
    } else if color_type == 4 {
        2
    } else if color_type == 6 {
        4
    } else {
        1
    }
}

/// Whether the bit depth is one that the colour type allows.
pub open spec fn depth_valid(color_type: u8, bit_depth: u8) -> bool {
    if color_type == 0 {
        bit_depth == 1 || bit_depth == 2 || bit_depth == 4 || bit_depth == 8 || bit_depth == 16
    } else if color_type == 3 {
        bit_depth == 1 || bit_depth == 2 || bit_depth == 4 || bit_depth == 8
    } else if color_type == 2 || color_type == 4 || color_type == 6 {
        bit_depth == 8 || bit_depth == 16
    } else {
        false
    }
}

/// The signature, then a complete `IHDR` chunk of at least 13 bytes with a
/// valid depth and colour type, compression and filter method 0, and no
/// interlacing or Adam7.
pub open spec fn png_header_ok(s: Seq<u8>) -> bool {
    &&& has_png_signature(s)
    &&& chunk_fits(s, 8)
    &&& chunk_is(s, 8, 0x49, 0x48, 0x44, 0x52)
    &&& be32(s, 8) >= 13
    &&& depth_valid(s[25], s[24])
    &&& s[26] == 0
    &&& s[27] == 0
    &&& s[28] <= 1
}

/// The layout that the header chunk gives.
pub open spec fn png_layout(s: Seq<u8>) -> PngLayout {
    PngLayout {
        width: be32(s, 16) as u32,
        height: be32(s, 20) as u32,
        bit_depth: s[24],
        color_type: s[25],
        interlace: s[28],
    }
}

/// Whether a transparency chunk of `len` bytes holds what the colour type reads
/// from it: a grey level (two bytes) or a colour (six bytes).
pub open spec fn trns_long_enough(l: PngLayout, len: int) -> bool {
    if l.color_type == 0 {
        len >= 2
    } else if l.color_type == 2 {
        len >= 6
    } else {
        true
    }
}

/// What the chunks up to the end chunk hold: the image data joined, the last
/// palette, and whether every transparency chunk was long enough.
pub type ChunkScan = (Seq<u8>, Option<Seq<u8>>, bool);

/// Walks the chunks from `pos` on as the decoder does: an `IEND` chunk or the
/// end of the file ends the walk, a chunk that does not fit fails it.
pub open spec fn scan_chunks(s: Seq<u8>, pos: int, l: PngLayout, acc: ChunkScan) -> Option<ChunkScan>
    decreases s.len() - pos,
{
    if pos >= s.len() {
        Some(acc)
    } else if !chunk_fits(s, pos) {
        None
    } else {
        let len = be32(s, pos);
        let data = s.subrange(pos + 8, pos + 8 + len);
        let next = pos + 12 + len;
        if chunk_is(s, pos, 0x49, 0x45, 0x4E, 0x44) {
            Some(acc)
        } else if chunk_is(s, pos, 0x49, 0x44, 0x41, 0x54) {
            scan_chunks(s, next, l, (acc.0 + data, acc.1, acc.2))
        } else if chunk_is(s, pos, 0x50, 0x4C, 0x54, 0x45) {
            scan_chunks(s, next, l, (acc.0, Some(data), acc.2))
        } else if chunk_is(s, pos, 0x74, 0x52, 0x4E, 0x53) {
            scan_chunks(s, next, l, (acc.0, acc.1, acc.2 && trns_long_enough(l, len)))
        } else {
            scan_chunks(s, next, l, acc)
        }
    }
}

/// The walk after the header chunk, from nothing.
pub open spec fn png_chunks(s: Seq<u8>) -> Option<ChunkScan> {
    scan_chunks(s, 20 + be32(s, 8), png_layout(s), (Seq::empty(), None, true))
}

/// `a / b` rounded up.
pub open spec fn ceil_div(a: int, b: int) -> int {
    a / b + if a % b != 0 {
        1int
    } else {
        0int
    }
}

/// Width and height of pass `p`: pass 0 is the whole image when it is not
/// interlaced, passes 1 to 7 are those of Adam7 when it is.
pub open spec fn pass_dims(l: PngLayout, p: int) -> (int, int) {
    let w = l.width as int;
    let h = l.height as int;
    if l.interlace == 0 {
        if p == 0 {
            (w, h)
        } else {
            (0, 0)
        }
    } else if p == 1 {
        (ceil_div(w, 8), ceil_div(h, 8))
    } else if p == 2 {
        (w / 8 + (w % 8) / 5, ceil_div(h, 8))
    } else if p == 3 {
        ((w / 8) * 2 + ceil_div(w % 8, 4), h / 8 + (h % 8) / 5)
    } else if p == 4 {
        ((w / 8) * 2 + (w % 8 + 1) / 4, ceil_div(h, 4))
    } else if p == 5 {
        (w / 2 + w % 2, (h / 8) * 2 + (h % 8 + 1) / 4)
    } else if p == 6 {
        (w / 2, h / 2 + h % 2)
    } else if p == 7 {
        (w, h / 2)
    } else {
        (0, 0)
    }
}

/// Whether the decoder reads rows of pass `p`: Adam7 skips empty passes.
pub open spec fn pass_runs(l: PngLayout, p: int) -> bool {
    pass_dims(l, p).1 > 0 && (l.interlace == 0 || pass_dims(l, p).0 > 0)
}

/// Bytes in a row of `pw` pixels, without its filter byte.
pub open spec fn row_bytes(l: PngLayout, pw: int) -> int {
    (pw * l.bit_depth * channels(l.color_type) + 7) / 8
}

/// Bytes of image data that passes `p` to 7 read: a filter byte and the row,
/// for each row.
pub open spec fn needed_from(l: PngLayout, p: int) -> int
    decreases 8 - p,
{
    if p >= 8 || p < 0 {
        0
    } else {
        (if pass_runs(l, p) {
            pass_dims(l, p).1 * (1 + row_bytes(l, pass_dims(l, p).0))
        } else {
            0
        }) + needed_from(l, p + 1)
    }
}

/// The Paeth predictor of a left, an upper and an upper-left byte.
pub open spec fn paeth(a: int, b: int, c: int) -> int {
    let p = a + b - c;
    let pa = if p - a < 0 { a - p } else { p - a };
    let pb = if p - b < 0 { b - p } else { p - b };
    let pc = if p - c < 0 { c - p } else { p - c };
    if pa <= pb && pa <= pc {
        a
    } else if pb <= pc {
        b
    } else {
        c
    }
}

/// A byte with filter `ft` undone, from the byte to its left, the one above
/// and the one above to the left.
pub open spec fn unfilter(ft: u8, raw: u8, left: u8, up: u8, ul: u8) -> u8 {
    if ft == 0 {
        raw
    } else if ft == 1 {
        ((raw + left) % 256) as u8
    } else if ft == 2 {
        ((raw + up) % 256) as u8
    } else if ft == 3 {
        ((raw + (left + up) / 2) % 256) as u8
    } else {
        ((raw + paeth(left as int, up as int, ul as int)) % 256) as u8
    }
}

/// The first `n` bytes of a row of one byte a pixel or less, with filter `ft`
/// undone against the row above, `prev`.
pub open spec fn recon(raw: Seq<u8>, prev: Seq<u8>, ft: u8, n: nat) -> Seq<u8>
    decreases n,
{
    if n == 0 {
        Seq::empty()
    } else {
        let r = recon(raw, prev, ft, (n - 1) as nat);
        let x = n - 1;
        let left: u8 = if x >= 1 { r[x - 1] } else { 0 };
        let ul: u8 = if x >= 1 { prev[x - 1] } else { 0 };
        r.push(unfilter(ft, raw[x], left, prev[x], ul))
    }
}

/// The palette entry that pixel `px` of an unfiltered row names.
pub open spec fn pal_index(row: Seq<u8>, px: int, bd: u8) -> u8 {
    if bd == 8 {
        row[px]
    } else if bd == 4 {
        (row[px / 2] >> ((4 - (px % 2) * 4) as u8)) & 0xF
    } else if bd == 2 {
        (row[px / 4] >> ((6 - (px % 4) * 2) as u8)) & 0x3
    } else {
        (row[px / 8] >> ((7 - px % 8) as u8)) & 0x1
    }
}

/// Whether each of the first `pw` pixels names an entry of a palette of
/// `plen` bytes, three a colour.
pub open spec fn indices_ok(row: Seq<u8>, pw: int, bd: u8, plen: int) -> bool {
    forall|px: int| 0 <= px < pw ==> 3 * #[trigger] pal_index(row, px, bd) + 3 <= plen
}

/// Whether the rows of a palette image from row `y` of pass `p` on, read from
/// `cursor`, are present, have valid filters and name entries of the palette;
/// `prev` is the row above, unfiltered.
pub open spec fn rows_ok(l: PngLayout, data: Seq<u8>, plen: int, p: int, y: int, cursor: int, prev: Seq<u8>) -> bool
    decreases 8 - p, pass_dims(l, p).1 - y,
{
    if p >= 8 || p < 0 || y < 0 {
        true
    } else if !pass_runs(l, p) || y >= pass_dims(l, p).1 {
        rows_ok(l, data, plen, p + 1, 0, cursor, prev)
    } else {
        let pw = pass_dims(l, p).0;
        let bps = row_bytes(l, pw);
        if cursor < 0 || cursor + 1 + bps > data.len() || data[cursor] > 4 {
            false
        } else {
            let above = if y == 0 { Seq::new(bps as nat, |i: int| 0u8) } else { prev };
            let row = recon(data.subrange(cursor + 1, cursor + 1 + bps), above, data[cursor], bps as nat);
            indices_ok(row, pw, l.bit_depth, plen) && rows_ok(l, data, plen, p, y + 1, cursor + 1 + bps, row)
        }
    }
}

/// Bytes in a palette, none when there is none.
pub open spec fn palette_len(palette: Option<Seq<u8>>) -> int {
    match palette {
        Some(p) => p.len() as int,
        None => 0,
    }
}

/// Whether the inflated image data holds every row the header declares and,
/// for a palette image, every pixel names a palette entry.
pub open spec fn image_data_ok(l: PngLayout, data: Seq<u8>, palette: Option<Seq<u8>>) -> bool {
    &&& l.width * 8 <= isize::MAX
    &&& data.len() >= needed_from(l, 0)
    &&& l.color_type == 3 ==> rows_ok(l, data, palette_len(palette), 0, 0, 0, Seq::empty())
}

/// What `miniz_oxide::inflate::decompress_to_vec_zlib` makes of a zlib stream:
/// the inflated bytes, or `None` where it reports an error.
pub uninterp spec fn zlib_inflated(data: Seq<u8>) -> Option<Seq<u8>>;

/// A file that the PNG decoder can be handed without reading outside it.
pub open spec fn png_ready(s: Seq<u8>) -> bool {
    &&& png_header_ok(s)
    &&& png_chunks(s) matches Some(scan)
    &&& scan.2
    &&& scan.0.len() <= MAX_INFLATE_INPUT
    &&& zlib_inflated(scan.0) matches Some(data)
    &&& image_data_ok(png_layout(s), data, scan.1)
}

pub open spec fn opt_bytes_view(r: Option<Vec<u8>>) -> Option<Seq<u8>> {
    match r {
        Some(v) => Some(v@),
        None => None,
    }
}

/// The longest zlib stream that is inflated: deflate data expands at most
/// 1032 times, so what it inflates to stays far below what one buffer can
/// hold, and the doubling of the output buffer never asks for more.
pub const MAX_INFLATE_INPUT: u64 = 0x1_0000_0000_0000;

/// Calls `miniz_oxide::inflate::decompress_to_vec_zlib`, which inflates a zlib
/// stream (header, deflate data and Adler-32 checksum), growing its output
/// buffer by doubling; any error it reports becomes `None`. The result depends
/// on the stream alone. The stream is short enough that the buffer never
/// outgrows one allocation; whether the machine has that much memory is not
/// stated.
#[verifier::external_body]
fn inflate_zlib(data: &[u8]) -> (r: Option<Vec<u8>>)
    requires
        data@.len() <= MAX_INFLATE_INPUT,
    ensures
        opt_bytes_view(r) == zlib_inflated(data@),
{
    miniz_oxide::inflate::decompress_to_vec_zlib(data).ok()
}

/// A big-endian 32-bit number at `i`.
fn be32_at(s: &[u8], i: usize) -> (r: u64)
    requires
        i + 4 <= s.len(),
    ensures
        r == be32(s@, i as int),
{
    (s[i] as u64) * 0x100_0000 + (s[i + 1] as u64) * 0x1_0000 + (s[i + 2] as u64) * 0x100 + (s[i + 3] as u64)
}

fn chunk_type_is(s: &[u8], pos: usize, a: u8, b: u8, c: u8, d: u8) -> (r: bool)
    requires
        pos + 8 <= s.len(),
    ensures
        r == chunk_is(s@, pos as int, a, b, c, d),
{
    s[pos + 4] == a && s[pos + 5] == b && s[pos + 6] == c && s[pos + 7] == d
}

/// Appends `s[from..to]` to `v`.
fn append_range(v: &mut Vec<u8>, s: &[u8], from: usize, to: usize)
    requires
        from <= to <= s@.len(),
    ensures
        final(v)@ == old(v)@ + s@.subrange(from as int, to as int),
{
    let mut k = from;
    while k < to
        invariant
            from <= k <= to <= s@.len(),
            v@ == old(v)@ + s@.subrange(from as int, k as int),
        decreases to - k,
    {
        v.push(s[k]);
        proof {
            assert(s@.subrange(from as int, k + 1) =~= s@.subrange(from as int, k as int).push(s@[k as int]));
        }
        k = k + 1;
    }
}

/// Whether the file opens with the signature and a valid header chunk.
pub fn check_png_header(blob: &[u8]) -> (r: bool)
    ensures
        r == png_header_ok(blob@),
{
    let n = blob.len();
    if n < 8 {
        return false;
    }
    let sig = blob[0] == 0x89 && blob[1] == 0x50 && blob[2] == 0x4E && blob[3] == 0x47 && blob[4] == 0x0D
        && blob[5] == 0x0A && blob[6] == 0x1A && blob[7] == 0x0A;
    proof {
        assert(sig == (blob@.subrange(0, 8) =~= png_signature()));
    }
    if !sig || n < 20 {
        return false;
    }
    let len = be32_at(blob, 8);
    if len > (n - 20) as u64 || !chunk_type_is(blob, 8, 0x49, 0x48, 0x44, 0x52) || len < 13 {
        return false;
    }
    let bd = blob[24];
    let ct = blob[25];
    let depth_ok = if ct == 0 {
        bd == 1 || bd == 2 || bd == 4 || bd == 8 || bd == 16
    } else if ct == 3 {
        bd == 1 || bd == 2 || bd == 4 || bd == 8
    } else if ct == 2 || ct == 4 || ct == 6 {
        bd == 8 || bd == 16
    } else {
        false
    };
    depth_ok && blob[26] == 0 && blob[27] == 0 && blob[28] <= 1
}

/// The layout that a valid header chunk gives.
pub fn read_png_layout(blob: &[u8]) -> (r: PngLayout)
    requires
        png_header_ok(blob@),
    ensures
        r == png_layout(blob@),
{
    let w = be32_at(blob, 16);
    let h = be32_at(blob, 20);
    PngLayout { width: w as u32, height: h as u32, bit_depth: blob[24], color_type: blob[25], interlace: blob[28] }
}

/// A walk's result as plain values.
pub open spec fn scan_view(r: Option<(Vec<u8>, Option<Vec<u8>>, bool)>) -> Option<ChunkScan> {
    match r {
        Some((idat, palette, trns)) => Some((idat@, opt_bytes_view(palette), trns)),
        None => None,
    }
}

/// Walks the chunks from `start` on; see [`scan_chunks`].
fn scan_png_chunks(blob: &[u8], start: usize, l: PngLayout) -> (r: Option<(Vec<u8>, Option<Vec<u8>>, bool)>)
    requires
        start <= blob@.len(),
    ensures
        scan_view(r) == scan_chunks(blob@, start as int, l, (Seq::empty(), None, true)),
{
    let ghost s = blob@;
    let mut pos = start;
    let mut idat: Vec<u8> = Vec::new();
    let mut palette: Option<Vec<u8>> = None;
    let mut trns = true;
    while pos < blob.len()
        invariant
            s == blob@,
            pos <= s.len(),
            scan_chunks(s, start as int, l, (Seq::empty(), None, true)) == scan_chunks(
                s,
                pos as int,
                l,
                (idat@, opt_bytes_view(palette), trns),
            ),
        decreases s.len() - pos,
    {
        let n = blob.len();
        if n - pos < 12 {
            proof {
                assert(!chunk_fits(s, pos as int));
            }
            return None;
        }
        let len = be32_at(blob, pos);
        if len > (n - pos - 12) as u64 {
            proof {
                assert(!chunk_fits(s, pos as int));
            }
            return None;
        }
        let len = len as usize;
        let next = pos + 12 + len;
        if chunk_type_is(blob, pos, 0x49, 0x45, 0x4E, 0x44) {
            return Some((idat, palette, trns));
        } else if chunk_type_is(blob, pos, 0x49, 0x44, 0x41, 0x54) {
            append_range(&mut idat, blob, pos + 8, pos + 8 + len);
        } else if chunk_type_is(blob, pos, 0x50, 0x4C, 0x54, 0x45) {
            let mut p: Vec<u8> = Vec::new();
            append_range(&mut p, blob, pos + 8, pos + 8 + len);
            proof {
                assert(p@ =~= s.subrange(pos + 8, pos + 8 + len));
            }
            palette = Some(p);
        } else if chunk_type_is(blob, pos, 0x74, 0x52, 0x4E, 0x53) {
            let long_enough = if l.color_type == 0 {
                len >= 2
            } else if l.color_type == 2 {
                len >= 6
            } else {
                true
            };
            trns = trns && long_enough;
        }
        pos = next;
    }
    Some((idat, palette, trns))
}

fn ceil_div_u32(a: u32, b: u32) -> (r: u32)
    requires
        b >= 2,
    ensures
        r == ceil_div(a as int, b as int),
{
    assert(a / b < 0xFFFF_FFFF) by (nonlinear_arith)
        requires
            b >= 2,
    ;
    a / b + if a % b != 0 {
        1
    } else {
        0
    }
}

/// Width and height of pass `p`; see [`pass_dims`].
pub fn png_pass_dims(l: PngLayout, p: u8) -> (r: (u32, u32))
    ensures
        (r.0 as int, r.1 as int) == pass_dims(l, p as int),
{
    let w = l.width;
    let h = l.height;
    if l.interlace == 0 {
        if p == 0 {
            (w, h)
        } else {
            (0, 0)
        }
    } else if p == 1 {
        (ceil_div_u32(w, 8), ceil_div_u32(h, 8))
    } else if p == 2 {
        (w / 8 + (w % 8) / 5, ceil_div_u32(h, 8))
    } else if p == 3 {
        ((w / 8) * 2 + ceil_div_u32(w % 8, 4), h / 8 + (h % 8) / 5)
    } else if p == 4 {
        ((w / 8) * 2 + (w % 8 + 1) / 4, ceil_div_u32(h, 4))
    } else if p == 5 {
        (w / 2 + w % 2, (h / 8) * 2 + (h % 8 + 1) / 4)
    } else if p == 6 {
        (w / 2, h / 2 + h % 2)
    } else if p == 7 {
        (w, h / 2)
    } else {
        (0, 0)
    }
}

fn channels_of(color_type: u8) -> (r: u64)
    ensures
        r == channels(color_type),
        1 <= r <= 4,
{
    if color_type == 2 {
        3
    } else if color_type == 4 {
        2
    } else if color_type == 6 {
        4
    } else {
        1
    }
}

/// Bytes in a row of `pw` pixels; see [`row_bytes`].
fn png_row_bytes(l: PngLayout, pw: u32) -> (r: u64)
    ensures
        r == row_bytes(l, pw as int),
        r <= 0x100_0000_0000,
{
    let ch = channels_of(l.color_type);
    let bd = l.bit_depth as u64;
    assert(pw as u64 * bd * ch <= 0xFFFF_FFFF * 0xFF * 4) by (nonlinear_arith)
        requires
            pw <= 0xFFFF_FFFF,
            bd <= 0xFF,
            ch <= 4,
    ;
    (pw as u64 * bd * ch + 7) / 8
}

/// Bytes of image data that the header declares; see [`needed_from`].
pub fn png_needed_bytes(l: PngLayout) -> (r: u128)
    ensures
        r == needed_from(l, 0),
{
    let mut total: u128 = 0;
    let mut p: u8 = 8;
    while p > 0
        invariant
            p <= 8,
            total == needed_from(l, p as int),
            total <= (8 - p) * 0x100_0000_0000_0000_0000,
        decreases p,
    {
        p = p - 1;
        let (pw, ph) = png_pass_dims(l, p);
        if ph > 0 && (l.interlace == 0 || pw > 0) {
            let rb = png_row_bytes(l, pw) as u128;
            assert(ph as u128 * (1 + rb) <= 0xFFFF_FFFF * 0x100_0000_0001) by (nonlinear_arith)
                requires
                    ph <= 0xFFFF_FFFF,
                    rb <= 0x100_0000_0000,
            ;
            total = total + ph as u128 * (1 + rb);
        }
    }
    total
}

/// A row of `n` zero bytes.
fn zeros(n: usize) -> (r: Vec<u8>)
    ensures
        r@ == Seq::new(n as nat, |i: int| 0u8),
{
    let mut v: Vec<u8> = Vec::new();
    let mut k: usize = 0;
    while k < n
        invariant
            k <= n,
            v@ == Seq::new(k as nat, |i: int| 0u8),
        decreases n - k,
    {
        v.push(0);
        k = k + 1;
        proof {
            assert(v@ =~= Seq::new(k as nat, |i: int| 0u8));
        }
    }
    v
}

fn paeth_of(a: u8, b: u8, c: u8) -> (r: u8)
    ensures
        r == paeth(a as int, b as int, c as int),
{
    let (ai, bi, ci) = (a as i16, b as i16, c as i16);
    let p = ai + bi - ci;
    let pa = if p - ai < 0 { ai - p } else { p - ai };
    let pb = if p - bi < 0 { bi - p } else { p - bi };
    let pc = if p - ci < 0 { ci - p } else { p - ci };
    if pa <= pb && pa <= pc {
        a
    } else if pb <= pc {
        b
    } else {
        c
    }
}

fn unfilter_byte(ft: u8, raw: u8, left: u8, up: u8, ul: u8) -> (r: u8)
    ensures
        r == unfilter(ft, raw, left, up, ul),
{
    if ft == 0 {
        raw
    } else if ft == 1 {
        ((raw as u16 + left as u16) % 256) as u8
    } else if ft == 2 {
        ((raw as u16 + up as u16) % 256) as u8
    } else if ft == 3 {
        ((raw as u16 + (left as u16 + up as u16) / 2) % 256) as u8
    } else {
        ((raw as u16 + paeth_of(left, up, ul) as u16) % 256) as u8
    }
}

/// Row `data[start..start + n]` with filter `ft` undone against `prev`.
fn recon_row(data: &[u8], start: usize, n: usize, prev: &Vec<u8>, ft: u8) -> (r: Vec<u8>)
    requires
        start + n <= data.len(),
        prev@.len() == n,
    ensures
        r@ == recon(data@.subrange(start as int, start + n), prev@, ft, n as nat),
        r@.len() == n,
{
    let ghost raw = data@.subrange(start as int, start + n);
    let mut cur: Vec<u8> = Vec::new();
    let mut x: usize = 0;
    while x < n
        invariant
            x <= n,
            start + n <= data.len(),
            prev@.len() == n,
            raw == data@.subrange(start as int, start + n),
            cur@ == recon(raw, prev@, ft, x as nat),
            cur@.len() == x,
        decreases n - x,
    {
        let (left, ul) = if x >= 1 {
            (cur[x - 1], prev[x - 1])
        } else {
            (0u8, 0u8)
        };
        let b = unfilter_byte(ft, data[start + x], left, prev[x], ul);
        cur.push(b);
        x = x + 1;
    }
    cur
}

fn pal_index_of(row: &Vec<u8>, px: usize, pw: u32, bd: u8) -> (r: u8)
    requires
        bd == 1 || bd == 2 || bd == 4 || bd == 8,
        px < pw,
        row@.len() == (pw * bd + 7) / 8,
    ensures
        r == pal_index(row@, px as int, bd),
{
    if bd == 8 {
        row[px]
    } else if bd == 4 {
        assert(px / 2 < (pw * 4 + 7) / 8) by (nonlinear_arith)
            requires
                px < pw,
        ;
        (row[px / 2] >> ((4 - (px % 2) * 4) as u8)) & 0xF
    } else if bd == 2 {
        assert(px / 4 < (pw * 2 + 7) / 8) by (nonlinear_arith)
            requires
                px < pw,
        ;
        (row[px / 4] >> ((6 - (px % 4) * 2) as u8)) & 0x3
    } else {
        assert(px / 8 < (pw * 1 + 7) / 8) by (nonlinear_arith)
            requires
                px < pw,
        ;
        (row[px / 8] >> ((7 - px % 8) as u8)) & 0x1
    }
}

fn indices_in_palette(row: &Vec<u8>, pw: u32, bd: u8, plen: usize) -> (r: bool)
    requires
        bd == 1 || bd == 2 || bd == 4 || bd == 8,
        row@.len() == (pw * bd + 7) / 8,
    ensures
        r == indices_ok(row@, pw as int, bd, plen as int),
{
    let n = pw as usize;
    let mut px: usize = 0;
    while px < n
        invariant
            n == pw,
            px <= n,
            bd == 1 || bd == 2 || bd == 4 || bd == 8,
            row@.len() == (pw * bd + 7) / 8,
            forall|q: int| 0 <= q < px ==> 3 * #[trigger] pal_index(row@, q, bd) + 3 <= plen,
        decreases n - px,
    {
        let i = pal_index_of(row, px, pw, bd);
        if 3 * (i as usize) + 3 > plen {
            return false;
        }
        px = px + 1;
    }
    true
}

/// Whether the rows of a palette image are present, have valid filters and name
/// entries of a palette of `plen` bytes; see [`rows_ok`].
pub fn png_palette_rows_ok(l: PngLayout, data: &[u8], plen: usize) -> (r: bool)
    requires
        l.color_type == 3,
        l.bit_depth == 1 || l.bit_depth == 2 || l.bit_depth == 4 || l.bit_depth == 8,
    ensures
        r == rows_ok(l, data@, plen as int, 0, 0, 0, Seq::empty()),
{
    let mut cursor: usize = 0;
    let mut prev: Vec<u8> = Vec::new();
    let mut p: u8 = 0;
    while p < 8
        invariant
            p <= 8,
            cursor <= data.len(),
            l.color_type == 3,
            l.bit_depth == 1 || l.bit_depth == 2 || l.bit_depth == 4 || l.bit_depth == 8,
            rows_ok(l, data@, plen as int, 0, 0, 0, Seq::empty()) == rows_ok(
                l,
                data@,
                plen as int,
                p as int,
                0,
                cursor as int,
                prev@,
            ),
        decreases 8 - p,
    {
        let (pw, ph) = png_pass_dims(l, p);
        if ph > 0 && (l.interlace == 0 || pw > 0) {
            let bps64 = png_row_bytes(l, pw);
            let mut y: u32 = 0;
            while y < ph
                invariant
                    p < 8,
                    y <= ph,
                    cursor <= data.len(),
                    l.color_type == 3,
                    l.bit_depth == 1 || l.bit_depth == 2 || l.bit_depth == 4 || l.bit_depth == 8,
                    (pw as int, ph as int) == pass_dims(l, p as int),
                    pass_runs(l, p as int),
                    bps64 == row_bytes(l, pw as int),
                    y > 0 ==> prev@.len() == bps64,
                    rows_ok(l, data@, plen as int, 0, 0, 0, Seq::empty()) == rows_ok(
                        l,
                        data@,
                        plen as int,
                        p as int,
                        y as int,
                        cursor as int,
                        prev@,
                    ),
                decreases ph - y,
            {
                if bps64 >= (data.len() - cursor) as u64 {
                    return false;
                }
                let bps = bps64 as usize;
                let ft = data[cursor];
                if ft > 4 {
                    return false;
                }
                let above = if y == 0 {
                    zeros(bps)
                } else {
                    prev
                };
                let row = recon_row(data, cursor + 1, bps, &above, ft);
                if !indices_in_palette(&row, pw, l.bit_depth, plen) {
                    return false;
                }
                prev = row;
                cursor = cursor + 1 + bps;
                y = y + 1;
            }
        }
        p = p + 1;
    }
    true
}

/// Whether the PNG decoder can be handed the file; see [`png_ready`].
pub fn is_png_ready(blob: &[u8]) -> (r: bool)
    ensures
        r == png_ready(blob@),
{
    if !check_png_header(blob) {
        return false;
    }
    let l = read_png_layout(blob);
    let hl = be32_at(blob, 8);
    assert(20 + hl <= blob.len());
    let start = 20 + hl as usize;
    match scan_png_chunks(blob, start, l) {
        None => false,
        Some((idat, palette, trns)) => {
            if !trns || idat.len() as u64 > MAX_INFLATE_INPUT {
                return false;
            }
            match inflate_zlib(idat.as_slice()) {
                None => false,
                Some(data) => {
                    if l.width as u64 * 8 > isize::MAX as u64 {
                        return false;
                    }
                    if (data.len() as u128) < png_needed_bytes(l) {
                        return false;
                    }
                    if l.color_type == 3 {
                        let plen = match &palette {
                            Some(p) => p.len(),
                            None => 0,
                        };
                        png_palette_rows_ok(l, data.as_slice(), plen)
                    } else {
                        true
                    }
                },
            }
        },
    }
}

} // verus!
