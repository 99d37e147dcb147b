//! Image files: the decoders are tried in turn, and the first one that
//! recognises the file decides.
//!
//! The decoding itself is done by the `png-decoder`, `zune-jpeg` and
//! `rapid-qoi` crates, each behind a wrapper that maps its errors onto
//! [`DecodeError`].

use vstd::prelude::*;
use crate::io::png::{is_png_ready, png_ready};

verus! {

/// Why an image could not be loaded.
#[derive(Debug, Clone, Copy, PartialEq, Eq, Structural)]
pub enum DecodeError {
    General,
    OutOfMemory,
    /// No decoder recognised the file.
    NotSupported,
    InvalidParameter,
    /// A decoder recognised the file but could not decode it.
    InvalidData,
}

/// How the bytes of a decoded image hold its pixels.
#[derive(Debug, Clone, Copy, PartialEq, Eq, Structural)]
pub enum PixelFormat {
    /// Red, green, blue and alpha: four bytes a pixel.
    Rgba,
    /// Red, green and blue: three bytes a pixel.
    Rgb,
}

/// A decoded image: its size and its pixels, row by row.
#[derive(Debug)]
pub struct DecodedImage {
    pub width: u32,
    pub height: u32,
    pub format: PixelFormat,
    pub pixels: Vec<u8>,
}

/// What a decoder gave, as plain values: width, height, format and pixels.
pub type SpecImage = (u32, u32, PixelFormat, Seq<u8>);

impl DecodedImage {
    pub open spec fn spec_image(&self) -> SpecImage {
        (self.width, self.height, self.format, self.pixels@)
    }
}

/// The outcome of a decoder as plain values.
pub open spec fn spec_outcome(r: Result<DecodedImage, DecodeError>) -> Result<SpecImage, DecodeError> {
    match r {
        Ok(img) => Ok(img.spec_image()),
        Err(e) => Err(e),
    }
}

/// A big-endian 32-bit number at `i`.
pub open spec fn be32(s: Seq<u8>, i: int) -> int {
    s[i] * 0x100_0000 + s[i + 1] * 0x1_0000 + s[i + 2] * 0x100 + s[i + 3]
}

/// The eight bytes that open a PNG file.
pub open spec fn png_signature() -> Seq<u8> {
    seq![0x89u8, 0x50u8, 0x4Eu8, 0x47u8, 0x0Du8, 0x0Au8, 0x1Au8, 0x0Au8]
}

pub open spec fn has_png_signature(s: Seq<u8>) -> bool {
    s.len() >= 8 && s.subrange(0, 8) == png_signature()
}

/// The four bytes that open a QOI file: `qoif`.
pub open spec fn has_qoi_magic(s: Seq<u8>) -> bool {
    s.len() >= 4 && s[0] == 0x71 && s[1] == 0x6F && s[2] == 0x69 && s[3] == 0x66
}

/// The marker that opens a JPEG file.
pub open spec fn has_jpeg_marker(s: Seq<u8>) -> bool {
    s.len() >= 2 && s[0] == 0xFF && s[1] == 0xD8
}

/// The pixel buffer that a file declares fits in memory: the size of a PNG
/// (in its header chunk) or of a QOI image, at four bytes a pixel, does not
/// exceed what one allocation can hold.
pub open spec fn declared_size_fits(s: Seq<u8>) -> bool {
    &&& (has_png_signature(s) && s.len() >= 24) ==> be32(s, 16) * be32(s, 20) * 4 <= isize::MAX
    &&& (has_qoi_magic(s) && s.len() >= 14) ==> be32(s, 4) * be32(s, 8) * 4 <= isize::MAX
}

/// A decoder's result with its pixels as a sequence.
pub open spec fn decoding_view(r: Result<(u32, u32, Vec<u8>), DecodeError>) -> Result<(u32, u32, Seq<u8>), DecodeError> {
    match r {
        Ok((w, h, p)) => Ok((w, h, p@)),
        Err(e) => Err(e),
    }
}

/// A QOI decoder's result with its pixels as a sequence.
pub open spec fn qoi_view(r: Result<(u32, u32, bool, Vec<u8>), DecodeError>) -> Result<(u32, u32, bool, Seq<u8>), DecodeError> {
    match r {
        Ok((w, h, a, p)) => Ok((w, h, a, p@)),
        Err(e) => Err(e),
    }
}

/// A big-endian 32-bit number at `i`, read from the bytes.
fn read_be32(blob: &[u8], i: usize) -> (r: u128)
    requires
        i + 4 <= blob@.len(),
    ensures
        r == be32(blob@, i as int),
{
    (blob[i] as u128) * 0x100_0000 + (blob[i + 1] as u128) * 0x1_0000 + (blob[i + 2] as u128) * 0x100
        + (blob[i + 3] as u128)
}

/// Whether the pixel buffer that a file declares can be allocated: the
/// condition that `ImageLoader::load` asks of its input.
pub fn check_declared_size(blob: &[u8]) -> (r: bool)
    ensures
        r == declared_size_fits(blob@),
{
    let limit: u128 = isize::MAX as u128;
    let n = blob.len();
    let png = n >= 8 && blob[0] == 0x89 && blob[1] == 0x50 && blob[2] == 0x4E && blob[3] == 0x47
        && blob[4] == 0x0D && blob[5] == 0x0A && blob[6] == 0x1A && blob[7] == 0x0A;
    proof {
        if n >= 8 {
            assert(png == (blob@.subrange(0, 8) =~= png_signature()));
        }
    }
    if png && n >= 24 {
        let w = read_be32(blob, 16);
        let h = read_be32(blob, 20);
        assert(w * h * 4 <= 0x4_0000_0000_0000_0000) by (nonlinear_arith)
            requires
                w < 0x1_0000_0000,
                h < 0x1_0000_0000,
        ;
        if w * h * 4 > limit {
            return false;
        }
    }
    let qoi = n >= 4 && blob[0] == 0x71 && blob[1] == 0x6F && blob[2] == 0x69 && blob[3] == 0x66;
    if qoi && n >= 14 {
        let w = read_be32(blob, 4);
        let h = read_be32(blob, 8);
        assert(w * h * 4 <= 0x4_0000_0000_0000_0000) by (nonlinear_arith)
            requires
                w < 0x1_0000_0000,
                h < 0x1_0000_0000,
        ;
        if w * h * 4 > limit {
            return false;
        }
    }
    true
}

/// What `png_decoder::decode` makes of a file, its errors sorted as
/// [`png_decode`] sorts them.
pub uninterp spec fn png_decoded(blob: Seq<u8>) -> Result<(u32, u32, Seq<u8>), DecodeError>;

/// What `zune_jpeg` makes of a file: size and RGB pixels, or the error as
/// [`jpeg_decode`] sorts it.
pub uninterp spec fn jpeg_decoded(blob: Seq<u8>) -> Result<(u32, u32, Seq<u8>), DecodeError>;

/// What `rapid_qoi::Qoi::decode_alloc` makes of a file: size, whether it has
/// alpha, and pixels, or the error as [`qoi_decode`] sorts it.
pub uninterp spec fn qoi_decoded(blob: Seq<u8>) -> Result<(u32, u32, bool, Seq<u8>), DecodeError>;

/// Calls `png_decoder::decode`. A file shorter than the signature is reported
/// as `MissingBytes`, which counts as invalid data; a wrong signature as
/// `InvalidMagicBytes`, which means the file is no PNG; every other error as
/// invalid data. On success the size is that of the header chunk that follows
/// the signature and the pixels are four bytes each.
///
/// The decoder indexes the transparency chunk, the inflated rows and the
/// palette without bounds checks. `png_ready` rules out each of those reads
/// falling outside: the chunks it walks are the decoder's (the decoder stops
/// with an error at a bad checksum before reading further), the data it
/// inflates is the decoder's, and a ready file holds every row that the
/// decoder's non-interlaced or Adam7 loop reads, with, for a palette image,
/// every pixel naming an entry of the palette. The header's declared size fits
/// in one allocation, so its buffers can be asked for; whether the machine has
/// that much memory is not stated.
#[verifier::external_body]
fn png_decode(blob: &[u8]) -> (r: Result<(u32, u32, Vec<u8>), DecodeError>)
    requires
        declared_size_fits(blob@),
        has_png_signature(blob@) ==> png_ready(blob@),
    ensures
        decoding_view(r) == png_decoded(blob@),
        blob@.len() < 8 ==> r matches Err(DecodeError::InvalidData),
        blob@.len() >= 8 && !has_png_signature(blob@) ==> r matches Err(DecodeError::NotSupported),
        r matches Ok((w, h, p)) ==> {
            &&& has_png_signature(blob@)
            &&& blob@.len() >= 24
            &&& w == be32(blob@, 16)
            &&& h == be32(blob@, 20)
            &&& p@.len() == 4 * w * h
        },
{
    match png_decoder::decode(blob) {
        Ok((header, pixels)) => Ok((header.width, header.height, pixels.into_flattened())),
        Err(png_decoder::DecodeError::InvalidMagicBytes) => Err(DecodeError::NotSupported),
        Err(_) => Err(DecodeError::InvalidData),
    }
}

/// Reads the headers and then the image with a `zune_jpeg::JpegDecoder` in
/// its default options (RGB output). A header error, among them a file that
/// does not open with the start-of-image marker, means the file is no JPEG;
/// missing image information or a decoding error is invalid data.
/// The crate's own documentation counts a panic on invalid input as a bug to
/// be fixed rather than something it rules out, and nothing in its source
/// names the files on which it could panic, so no `requires` excludes them:
/// that this call returns on every malformed JPEG file is not claimed.
#[verifier::external_body]
fn jpeg_decode(blob: &[u8]) -> (r: Result<(u32, u32, Vec<u8>), DecodeError>)
    ensures
        decoding_view(r) == jpeg_decoded(blob@),
        !has_jpeg_marker(blob@) ==> r matches Err(DecodeError::NotSupported),
{
    let mut decoder = zune_jpeg::JpegDecoder::new(zune_jpeg::zune_core::bytestream::ZCursor::new(blob));
    if decoder.decode_headers().is_err() {
        return Err(DecodeError::NotSupported);
    }
    let info = match decoder.info() {
        Some(info) => info,
        None => return Err(DecodeError::InvalidData),
    };
    match decoder.decode() {
        Ok(pixels) => Ok((info.width as u32, info.height as u32, pixels)),
        Err(_) => Err(DecodeError::InvalidData),
    }
}

/// Whether the fourteen-byte QOI header names three or four channels and a
/// colour space of zero or one.
pub open spec fn qoi_header_valid(s: Seq<u8>) -> bool {
    (s[12] == 3 || s[12] == 4) && (s[13] == 0 || s[13] == 1)
}

/// Bytes a pixel: four with alpha, else three.
pub open spec fn qoi_channels(alpha: bool) -> int {
    if alpha { 4 } else { 3 }
}

/// A successful decoding without pixels.
pub open spec fn qoi_empty_success(r: Result<(u32, u32, bool, Seq<u8>), DecodeError>) -> bool {
    r matches Ok((w, h, a, p)) && p.len() == 0
}

/// A valid QOI header that declares no pixels.
pub open spec fn qoi_declares_empty(s: Seq<u8>) -> bool {
    &&& s.len() >= 14
    &&& has_qoi_magic(s)
    &&& qoi_header_valid(s)
    &&& (be32(s, 4) == 0 || be32(s, 8) == 0)
}

/// Calls `rapid_qoi::Qoi::decode_alloc`. A file shorter than the header is
/// `NotEnoughData`, reported as out of memory; a wrong magic is `InvalidMagic`,
/// which means the file is no QOI; other errors are invalid data. The header
/// gives the size and the channels (four: with alpha); an empty image is
/// decoded without reading further, and the pixel buffer holds exactly the
/// declared pixels. Whether the machine has that much memory is not stated.
#[verifier::external_body]
fn qoi_decode(blob: &[u8]) -> (r: Result<(u32, u32, bool, Vec<u8>), DecodeError>)
    requires
        declared_size_fits(blob@),
    ensures
        qoi_view(r) == qoi_decoded(blob@),
        blob@.len() < 14 ==> r matches Err(DecodeError::OutOfMemory),
        blob@.len() >= 14 && !has_qoi_magic(blob@) ==> r matches Err(DecodeError::NotSupported),
        blob@.len() >= 14 && has_qoi_magic(blob@) && !qoi_header_valid(blob@) ==> r matches Err(DecodeError::InvalidData),
        r matches Ok((w, h, a, p)) ==> {
            &&& blob@.len() >= 14
            &&& has_qoi_magic(blob@)
            &&& qoi_header_valid(blob@)
            &&& w == be32(blob@, 4)
            &&& h == be32(blob@, 8)
            &&& a == (blob@[12] == 4)
            &&& p@.len() == w * h * qoi_channels(a)
        },
        qoi_declares_empty(blob@) ==> qoi_empty_success(qoi_view(r)),
{
    match rapid_qoi::Qoi::decode_alloc(blob) {
        Ok((qoi, pixels)) => Ok((qoi.width, qoi.height, qoi.colors.has_alpha(), pixels)),
        Err(rapid_qoi::DecodeError::NotEnoughData) => Err(DecodeError::OutOfMemory),
        Err(rapid_qoi::DecodeError::InvalidMagic) => Err(DecodeError::NotSupported),
        Err(_) => Err(DecodeError::InvalidData),
    }
}

/// The image that a PNG decoding gives: RGBA pixels.
pub open spec fn spec_png_image(d: Result<(u32, u32, Seq<u8>), DecodeError>) -> Result<SpecImage, DecodeError> {
    match d {
        Ok((w, h, p)) => Ok((w, h, PixelFormat::Rgba, p)),
        Err(e) => Err(e),
    }
}

/// What the PNG decoder is asked for: a file with the signature that is not
/// ready for it is invalid data, any other file goes to the decoder.
pub open spec fn spec_png_outcome(blob: Seq<u8>) -> Result<SpecImage, DecodeError> {
    if has_png_signature(blob) && !png_ready(blob) {
        Err(DecodeError::InvalidData)
    } else {
        spec_png_image(png_decoded(blob))
    }
}

/// The image that a JPEG decoding gives: RGB pixels, three bytes for each
/// pixel of the declared size; fewer is invalid data, more are dropped.
pub open spec fn spec_jpeg_image(d: Result<(u32, u32, Seq<u8>), DecodeError>) -> Result<SpecImage, DecodeError> {
    match d {
        Ok((w, h, p)) => if p.len() < 3 * w * h {
            Err(DecodeError::InvalidData)
        } else {
            Ok((w, h, PixelFormat::Rgb, p.subrange(0, 3 * w * h)))
        },
        Err(e) => Err(e),
    }
}

/// The image that a QOI decoding gives: RGBA pixels with alpha, else RGB.
pub open spec fn spec_qoi_image(d: Result<(u32, u32, bool, Seq<u8>), DecodeError>) -> Result<SpecImage, DecodeError> {
    match d {
        Ok((w, h, a, p)) => Ok((w, h, if a { PixelFormat::Rgba } else { PixelFormat::Rgb }, p)),
        Err(e) => Err(e),
    }
}

/// Whether a decoder left the file to the next one.
pub open spec fn passes_on(r: Result<SpecImage, DecodeError>) -> bool {
    r == Err::<SpecImage, DecodeError>(DecodeError::NotSupported)
}

/// The first outcome that is not "not supported", or "not supported" when all are.
pub open spec fn spec_first_decisive(outcomes: Seq<Result<SpecImage, DecodeError>>) -> Result<SpecImage, DecodeError>
    decreases outcomes.len(),
{
    if outcomes.len() == 0 {
        Err(DecodeError::NotSupported)
    } else if passes_on(outcomes[0]) {
        spec_first_decisive(outcomes.drop_first())
    } else {
        outcomes[0]
    }
}

/// Each outcome as plain values.
pub open spec fn outcomes_view(v: Seq<Result<DecodedImage, DecodeError>>) -> Seq<Result<SpecImage, DecodeError>> {
    v.map_values(|o: Result<DecodedImage, DecodeError>| spec_outcome(o))
}

/// Of three outcomes, the first that does not pass the file on.
pub proof fn lemma_first_decisive_of_three(
    a: Result<SpecImage, DecodeError>,
    b: Result<SpecImage, DecodeError>,
    c: Result<SpecImage, DecodeError>,
)
    ensures
        spec_first_decisive(seq![a, b, c]) == (if !passes_on(a) {
            a
        } else if !passes_on(b) {
            b
        } else {
            c
        }),
{
    let o = seq![a, b, c];
    assert(o.drop_first() =~= seq![b, c]);
    assert(seq![b, c].drop_first() =~= seq![c]);
    assert(seq![c].drop_first() =~= Seq::<Result<SpecImage, DecodeError>>::empty());
    reveal_with_fuel(spec_first_decisive, 4);
}

/// What loading a file gives: PNG, then JPEG, then QOI.
pub open spec fn spec_load(blob: Seq<u8>) -> Result<SpecImage, DecodeError> {
    spec_first_decisive(
        seq![
            spec_png_outcome(blob),
            spec_jpeg_image(jpeg_decoded(blob)),
            spec_qoi_image(qoi_decoded(blob)),
        ],
    )
}

/// The image of a QOI header that declares no pixels.
pub open spec fn spec_empty_qoi(s: Seq<u8>) -> Result<SpecImage, DecodeError> {
    Ok((
        be32(s, 4) as u32,
        be32(s, 8) as u32,
        if s[12] == 4 { PixelFormat::Rgba } else { PixelFormat::Rgb },
        Seq::empty(),
    ))
}

pub struct ImageLoader;

impl ImageLoader {
    /// Tries the PNG, JPEG and QOI decoders in turn; the first that does not
    /// pass the file on decides, and when all pass it on the file is not
    /// supported. There is no decoder for MPIC images here, so such a file is
    /// not supported. A PNG file is checked before it is decoded (see
    /// `png_decode`); that the JPEG decoder returns on every file is not shown
    /// (see `jpeg_decode`), and what is stated holds whenever it returns.
    pub fn load(blob: &[u8]) -> (r: Result<DecodedImage, DecodeError>)
        requires
            declared_size_fits(blob@),
        ensures
            spec_outcome(r) == spec_load(blob@),
            blob@.len() < 8 ==> spec_outcome(r) == Err::<SpecImage, DecodeError>(DecodeError::InvalidData),
            blob@.len() >= 14 && !has_png_signature(blob@) && !has_jpeg_marker(blob@)
                && !has_qoi_magic(blob@) ==> passes_on(spec_outcome(r)),
            blob@.len() >= 14 && has_qoi_magic(blob@) ==> spec_outcome(r) == spec_qoi_image(
                qoi_decoded(blob@),
            ),
            qoi_declares_empty(blob@) ==> spec_outcome(r) == spec_empty_qoi(blob@),
    {
        proof {
            lemma_first_decisive_of_three(
                spec_png_outcome(blob@),
                spec_jpeg_image(jpeg_decoded(blob@)),
                spec_qoi_image(qoi_decoded(blob@)),
            );
        }
        proof {
            if blob@.len() >= 8 && has_qoi_magic(blob@) {
                assert(blob@.subrange(0, 8)[0] != png_signature()[0]);
            }
        }
        let png = Self::from_png(blob);
        if !Self::is_not_supported(&png) {
            return png;
        }
        let jpeg = Self::from_jpeg(blob);
        if !Self::is_not_supported(&jpeg) {
            return jpeg;
        }
        let qoi = Self::from_qoi(blob);
        qoi
    }

    /// The first of the outcomes that does not pass the file on.
    #[verifier::loop_isolation(false)]
    pub fn first_decisive(outcomes: Vec<Result<DecodedImage, DecodeError>>) -> (r: Result<
        DecodedImage,
        DecodeError,
    >)
        ensures
            spec_outcome(r) == spec_first_decisive(outcomes_view(outcomes@)),
    {
        let ghost all = outcomes_view(outcomes@);
        let mut outcomes = outcomes;
        let n = outcomes.len();
        let mut k: usize = 0;
        assert(all.subrange(0, n as int) =~= all);
        while k < n
            invariant
                n == all.len(),
                outcomes@.len() == n,
                k <= n,
                forall|i: int| 0 <= i < n ==> #[trigger] spec_outcome(outcomes@[i]) == all[i],
                spec_first_decisive(all) == spec_first_decisive(all.subrange(k as int, n as int)),
            decreases n - k,
        {
            proof {
                let s = all.subrange(k as int, n as int);
                assert(s[0] == all[k as int]);
                assert(s.drop_first() =~= all.subrange(k + 1, n as int));
            }
            if !Self::is_not_supported(&outcomes[k]) {
                let o = outcomes.remove(k);
                proof {
                    let s = all.subrange(k as int, n as int);
                    assert(spec_outcome(o) == all[k as int]);
                    assert(!passes_on(s[0]));
                    assert(spec_first_decisive(s) == s[0]);
                }
                return o;
            }
            k = k + 1;
        }
        proof {
            assert(all.subrange(n as int, n as int).len() == 0);
        }
        Err(DecodeError::NotSupported)
    }

    fn is_not_supported(r: &Result<DecodedImage, DecodeError>) -> (b: bool)
        ensures
            b == passes_on(spec_outcome(*r)),
    {
        match r {
            Err(DecodeError::NotSupported) => true,
            _ => false,
        }
    }

    /// A PNG file as RGBA pixels; a file with the signature that the decoder
    /// cannot be handed is invalid data.
    fn from_png(blob: &[u8]) -> (r: Result<DecodedImage, DecodeError>)
        requires
            declared_size_fits(blob@),
        ensures
            spec_outcome(r) == spec_png_outcome(blob@),
            blob@.len() < 8 ==> spec_outcome(r) == Err::<SpecImage, DecodeError>(DecodeError::InvalidData),
            blob@.len() >= 8 && !has_png_signature(blob@) ==> passes_on(spec_outcome(r)),
    {
        let signed = blob.len() >= 8 && blob[0] == 0x89 && blob[1] == 0x50 && blob[2] == 0x4E && blob[3] == 0x47
            && blob[4] == 0x0D && blob[5] == 0x0A && blob[6] == 0x1A && blob[7] == 0x0A;
        proof {
            if blob@.len() >= 8 {
                assert(signed == (blob@.subrange(0, 8) =~= png_signature()));
            }
        }
        if signed && !is_png_ready(blob) {
            return Err(DecodeError::InvalidData);
        }
        match png_decode(blob) {
            Ok((width, height, pixels)) => Ok(DecodedImage { width, height, format: PixelFormat::Rgba, pixels }),
            Err(e) => Err(e),
        }
    }

    /// A JPEG file as RGB pixels: a decoded buffer shorter than three bytes a
    /// pixel is invalid data.
    fn from_jpeg(blob: &[u8]) -> (r: Result<DecodedImage, DecodeError>)
        ensures
            spec_outcome(r) == spec_jpeg_image(jpeg_decoded(blob@)),
            !has_jpeg_marker(blob@) ==> passes_on(spec_outcome(r)),
    {
        match jpeg_decode(blob) {
            Ok((width, height, pixels)) => {
                assert(3 * (width as u128) * (height as u128) <= 3 * 0xFFFF_FFFF * 0xFFFF_FFFF) by (nonlinear_arith)
                    requires
                        width <= 0xFFFF_FFFF,
                        height <= 0xFFFF_FFFF,
                ;
                let need = 3 * (width as u128) * (height as u128);
                if (pixels.len() as u128) < need {
                    return Err(DecodeError::InvalidData);
                }
                let mut pixels = pixels;
                pixels.truncate(need as usize);
                Ok(DecodedImage { width, height, format: PixelFormat::Rgb, pixels })
            },
            Err(e) => Err(e),
        }
    }

    /// A QOI file as RGBA pixels where it has alpha, else RGB.
    fn from_qoi(blob: &[u8]) -> (r: Result<DecodedImage, DecodeError>)
        requires
            declared_size_fits(blob@),
        ensures
            spec_outcome(r) == spec_qoi_image(qoi_decoded(blob@)),
            qoi_declares_empty(blob@) ==> spec_outcome(r) == spec_empty_qoi(blob@),
            blob@.len() >= 14 && !has_qoi_magic(blob@) ==> passes_on(spec_outcome(r)),
    {
        match qoi_decode(blob) {
            Ok((width, height, alpha, pixels)) => {
                proof {
                    if pixels@.len() == 0 {
                        assert(pixels@ =~= Seq::<u8>::empty());
                    }
                }
                let format = if alpha {
                    PixelFormat::Rgba
                } else {
                    PixelFormat::Rgb
                };
                Ok(DecodedImage { width, height, format, pixels })
            },
            Err(e) => Err(e),
        }
    }
}

} // verus!
