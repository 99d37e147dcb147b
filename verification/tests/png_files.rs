use kernel::io::image::{DecodeError, DecodedImage, ImageLoader, PixelFormat};
use kernel::io::png::{is_png_ready, png_needed_bytes, png_pass_dims, PngLayout};

fn chunk_crc(data: &[u8]) -> u32 {
    let mut crc: u32 = 0xFFFF_FFFF;
    for &b in data {
        crc ^= b as u32;
        for _ in 0..8 {
            if crc & 1 != 0 {
                crc = (crc >> 1) ^ 0xEDB8_8320;
            } else {
                crc >>= 1;
            }
        }
    }
    !crc
}

fn stream_adler(data: &[u8]) -> u32 {
    let mut a: u32 = 1;
    let mut b: u32 = 0;
    for &x in data {
        a = (a + x as u32) % 65521;
        b = (b + a) % 65521;
    }
    (b << 16) | a
}

fn chunk(out: &mut Vec<u8>, kind: &[u8; 4], data: &[u8]) {
    out.extend_from_slice(&(data.len() as u32).to_be_bytes());
    let mut body = kind.to_vec();
    body.extend_from_slice(data);
    out.extend_from_slice(&body);
    out.extend_from_slice(&chunk_crc(&body).to_be_bytes());
}

/// A zlib stream holding `raw` in one stored block.
fn stored_zlib(raw: &[u8]) -> Vec<u8> {
    let n = raw.len() as u16;
    let mut z = vec![0x78, 0x01, 0x01];
    z.extend_from_slice(&n.to_le_bytes());
    z.extend_from_slice(&(!n).to_le_bytes());
    z.extend_from_slice(raw);
    z.extend_from_slice(&stream_adler(raw).to_be_bytes());
    z
}

/// A PNG file: header fields, the chunks between header and data, and the
/// filtered rows.
fn png(w: u32, h: u32, depth: u8, color: u8, interlace: u8, extra: &[(&[u8; 4], Vec<u8>)], rows: &[u8]) -> Vec<u8> {
    let mut out = vec![0x89, 0x50, 0x4E, 0x47, 0x0D, 0x0A, 0x1A, 0x0A];
    let mut ihdr = Vec::new();
    ihdr.extend_from_slice(&w.to_be_bytes());
    ihdr.extend_from_slice(&h.to_be_bytes());
    ihdr.extend_from_slice(&[depth, color, 0, 0, interlace]);
    chunk(&mut out, b"IHDR", &ihdr);
    for (kind, data) in extra {
        chunk(&mut out, kind, data);
    }
    chunk(&mut out, b"IDAT", &stored_zlib(rows));
    chunk(&mut out, b"IEND", &[]);
    out
}

fn load_error(r: Result<DecodedImage, DecodeError>) -> DecodeError {
    match r {
        Ok(_) => panic!("decoded"),
        Err(e) => e,
    }
}

const TWO_COLOURS: [u8; 6] = [10, 20, 30, 40, 50, 60];

#[test]
fn palette_png_with_short_palette_decodes() {
    let file = png(2, 1, 8, 3, 0, &[(b"PLTE", TWO_COLOURS.to_vec())], &[0, 1, 0]);
    assert!(is_png_ready(&file));
    let img = ImageLoader::load(&file).unwrap();
    assert_eq!((img.width, img.height, img.format), (2, 1, PixelFormat::Rgba));
    assert_eq!(img.pixels, vec![40, 50, 60, 255, 10, 20, 30, 255]);
}

#[test]
fn palette_png_without_palette_is_invalid_data() {
    let file = png(2, 1, 8, 3, 0, &[], &[0, 1, 0]);
    assert!(!is_png_ready(&file));
    assert_eq!(load_error(ImageLoader::load(&file)), DecodeError::InvalidData);
}

#[test]
fn empty_palette_png_without_palette_decodes() {
    let file = png(0, 1, 8, 3, 0, &[], &[0]);
    assert!(is_png_ready(&file));
    let img = ImageLoader::load(&file).unwrap();
    assert_eq!((img.width, img.height), (0, 1));
    assert!(img.pixels.is_empty());
}

#[test]
fn palette_index_beyond_palette_is_invalid_data() {
    let file = png(2, 1, 8, 3, 0, &[(b"PLTE", TWO_COLOURS.to_vec())], &[0, 1, 2]);
    assert!(!is_png_ready(&file));
    assert_eq!(load_error(ImageLoader::load(&file)), DecodeError::InvalidData);
}

#[test]
fn palette_indices_are_read_after_the_filter() {
    // Sub filter: the second byte adds the first, 1 + 0 = 1 and then 1 + 1 = 2.
    let fine = png(2, 1, 8, 3, 0, &[(b"PLTE", TWO_COLOURS.to_vec())], &[1, 1, 0]);
    assert!(is_png_ready(&fine));
    assert_eq!(ImageLoader::load(&fine).unwrap().pixels, vec![40, 50, 60, 255, 40, 50, 60, 255]);
    let beyond = png(2, 1, 8, 3, 0, &[(b"PLTE", TWO_COLOURS.to_vec())], &[1, 1, 1]);
    assert!(!is_png_ready(&beyond));
    assert_eq!(load_error(ImageLoader::load(&beyond)), DecodeError::InvalidData);
    // Up filter on the second row: 1 above plus 1 is 2.
    let up = png(1, 2, 8, 3, 0, &[(b"PLTE", TWO_COLOURS.to_vec())], &[0, 1, 2, 1]);
    assert!(!is_png_ready(&up));
}

#[test]
fn one_bit_palette_png_decodes() {
    let file = png(3, 1, 1, 3, 0, &[(b"PLTE", TWO_COLOURS.to_vec())], &[0, 0b1010_0000]);
    let img = ImageLoader::load(&file).unwrap();
    assert_eq!(img.pixels, vec![40, 50, 60, 255, 10, 20, 30, 255, 40, 50, 60, 255]);
}

#[test]
fn invalid_filter_in_palette_png_is_invalid_data() {
    let file = png(2, 1, 8, 3, 0, &[(b"PLTE", TWO_COLOURS.to_vec())], &[5, 0, 0]);
    assert!(!is_png_ready(&file));
    assert_eq!(load_error(ImageLoader::load(&file)), DecodeError::InvalidData);
}

#[test]
fn grey_png_with_short_transparency_is_invalid_data() {
    let short = png(1, 1, 8, 0, 0, &[(b"tRNS", vec![0])], &[0, 7]);
    assert!(!is_png_ready(&short));
    assert_eq!(load_error(ImageLoader::load(&short)), DecodeError::InvalidData);
    let full = png(1, 1, 8, 0, 0, &[(b"tRNS", vec![0, 7])], &[0, 7]);
    assert!(is_png_ready(&full));
    assert_eq!(ImageLoader::load(&full).unwrap().pixels, vec![7, 7, 7, 0]);
}

#[test]
fn rgb_png_with_short_transparency_is_invalid_data() {
    let file = png(1, 1, 8, 2, 0, &[(b"tRNS", vec![0, 1, 0, 2])], &[0, 1, 2, 3]);
    assert!(!is_png_ready(&file));
    assert_eq!(load_error(ImageLoader::load(&file)), DecodeError::InvalidData);
}

#[test]
fn png_whose_data_inflates_short_is_invalid_data() {
    // Four grey pixels need five bytes; the stream holds two, in thirteen.
    let file = png(4, 1, 8, 0, 0, &[], &[0, 1]);
    assert!(!is_png_ready(&file));
    assert_eq!(load_error(ImageLoader::load(&file)), DecodeError::InvalidData);
    let whole = png(4, 1, 8, 0, 0, &[], &[0, 1, 2, 3, 4]);
    assert!(is_png_ready(&whole));
    assert_eq!(ImageLoader::load(&whole).unwrap().pixels.len(), 16);
}

#[test]
fn png_with_broken_stream_is_invalid_data() {
    let mut file = vec![0x89, 0x50, 0x4E, 0x47, 0x0D, 0x0A, 0x1A, 0x0A];
    let mut ihdr = Vec::new();
    ihdr.extend_from_slice(&1u32.to_be_bytes());
    ihdr.extend_from_slice(&1u32.to_be_bytes());
    ihdr.extend_from_slice(&[8, 0, 0, 0, 0]);
    chunk(&mut file, b"IHDR", &ihdr);
    chunk(&mut file, b"IDAT", &[0x78, 0x01, 0x07, 0x00, 0x00]);
    chunk(&mut file, b"IEND", &[]);
    assert!(!is_png_ready(&file));
    assert_eq!(load_error(ImageLoader::load(&file)), DecodeError::InvalidData);
}

#[test]
fn adam7_png_decodes() {
    // A 2x2 grey image: pass 1 holds (0,0), pass 6 (1,0), pass 7 the second row.
    let file = png(2, 2, 8, 0, 1, &[], &[0, 11, 0, 22, 0, 33, 44]);
    assert!(is_png_ready(&file));
    let img = ImageLoader::load(&file).unwrap();
    assert_eq!(
        img.pixels,
        vec![11, 11, 11, 255, 22, 22, 22, 255, 33, 33, 33, 255, 44, 44, 44, 255]
    );
    let short = png(2, 2, 8, 0, 1, &[], &[0, 11, 0, 22, 0, 33]);
    assert!(!is_png_ready(&short));
    assert_eq!(load_error(ImageLoader::load(&short)), DecodeError::InvalidData);
}

#[test]
fn png_pass_sizes() {
    let l = PngLayout { width: 10, height: 9, bit_depth: 8, color_type: 0, interlace: 1 };
    assert_eq!(png_pass_dims(l, 1), (2, 2));
    assert_eq!(png_pass_dims(l, 2), (1, 2));
    assert_eq!(png_pass_dims(l, 3), (3, 1));
    assert_eq!(png_pass_dims(l, 4), (2, 3));
    assert_eq!(png_pass_dims(l, 5), (5, 2));
    assert_eq!(png_pass_dims(l, 6), (5, 5));
    assert_eq!(png_pass_dims(l, 7), (10, 4));
    assert_eq!(png_pass_dims(l, 0), (0, 0));
    // Each row: a filter byte and its pixels.
    assert_eq!(png_needed_bytes(l), 2 * 3 + 2 * 2 + 1 * 4 + 3 * 3 + 2 * 6 + 5 * 6 + 4 * 11);
    let flat = PngLayout { width: 10, height: 9, bit_depth: 16, color_type: 6, interlace: 0 };
    assert_eq!(png_needed_bytes(flat), 9 * (1 + 80));
}

#[test]
fn png_with_bad_header_is_invalid_data() {
    let file = png(1, 1, 3, 0, 0, &[], &[0, 0]);
    assert!(!is_png_ready(&file));
    assert_eq!(load_error(ImageLoader::load(&file)), DecodeError::InvalidData);
}
