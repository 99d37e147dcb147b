use kernel::io::image::{DecodeError, DecodedImage, ImageLoader, PixelFormat};

fn crc32(data: &[u8]) -> u32 {
    let mut crc: u32 = 0xFFFF_FFFF;
    for &b in data {
        crc ^= b as u32;
        for _ in 0..8 {
            if crc & 1 != 0 {
                crc = (crc >> 1) ^ 0xEDB8_8320;
            } else {
                crc >>= 1;
            }
        }
    }
    !crc
}

fn adler32(data: &[u8]) -> u32 {
    let mut a: u32 = 1;
    let mut b: u32 = 0;
    for &x in data {
        a = (a + x as u32) % 65521;
        b = (b + a) % 65521;
    }
    (b << 16) | a
}

fn png_chunk(out: &mut Vec<u8>, kind: &[u8; 4], data: &[u8]) {
    out.extend_from_slice(&(data.len() as u32).to_be_bytes());
    let mut body = kind.to_vec();
    body.extend_from_slice(data);
    out.extend_from_slice(&body);
    out.extend_from_slice(&crc32(&body).to_be_bytes());
}

/// A one-pixel RGBA PNG whose image data is one stored deflate block.
fn one_pixel_png(rgba: [u8; 4]) -> Vec<u8> {
    let mut out = vec![0x89, 0x50, 0x4E, 0x47, 0x0D, 0x0A, 0x1A, 0x0A];
    let mut ihdr = Vec::new();
    ihdr.extend_from_slice(&1u32.to_be_bytes());
    ihdr.extend_from_slice(&1u32.to_be_bytes());
    ihdr.extend_from_slice(&[8, 6, 0, 0, 0]);
    png_chunk(&mut out, b"IHDR", &ihdr);
    let raw = [0u8, rgba[0], rgba[1], rgba[2], rgba[3]];
    let mut z = vec![0x78, 0x01, 0x01, 0x05, 0x00, 0xFA, 0xFF];
    z.extend_from_slice(&raw);
    z.extend_from_slice(&adler32(&raw).to_be_bytes());
    png_chunk(&mut out, b"IDAT", &z);
    png_chunk(&mut out, b"IEND", &[]);
    out
}

fn qoi_header(width: u32, height: u32, channels: u8, colorspace: u8) -> Vec<u8> {
    let mut out = b"qoif".to_vec();
    out.extend_from_slice(&width.to_be_bytes());
    out.extend_from_slice(&height.to_be_bytes());
    out.push(channels);
    out.push(colorspace);
    out
}

fn err_of(r: Result<DecodedImage, DecodeError>) -> DecodeError {
    match r {
        Ok(_) => panic!("decoded"),
        Err(e) => e,
    }
}

#[test]
fn empty_file_is_invalid_data() {
    assert_eq!(err_of(ImageLoader::load(&[])), DecodeError::InvalidData);
    assert_eq!(err_of(ImageLoader::load(&[1, 2, 3, 4, 5, 6, 7])), DecodeError::InvalidData);
}

#[test]
fn unknown_file_is_not_supported() {
    assert_eq!(err_of(ImageLoader::load(&[0u8; 32])), DecodeError::NotSupported);
    assert_eq!(err_of(ImageLoader::load(b"GIF89a-and-something-else")), DecodeError::NotSupported);
}

#[test]
fn truncated_png_is_invalid_data() {
    let png = one_pixel_png([1, 2, 3, 4]);
    assert_eq!(err_of(ImageLoader::load(&png[..20])), DecodeError::InvalidData);
}

#[test]
fn one_pixel_png_decodes() {
    let png = one_pixel_png([10, 20, 30, 40]);
    let img = ImageLoader::load(&png).unwrap();
    assert_eq!((img.width, img.height), (1, 1));
    assert_eq!(img.format, PixelFormat::Rgba);
    assert_eq!(img.pixels, vec![10, 20, 30, 40]);
}

#[test]
fn png_with_bad_checksum_is_invalid_data() {
    let mut png = one_pixel_png([10, 20, 30, 40]);
    png[29] ^= 0xFF;
    assert_eq!(err_of(ImageLoader::load(&png)), DecodeError::InvalidData);
}

#[test]
fn empty_qoi_decodes() {
    let img = ImageLoader::load(&qoi_header(0, 0, 4, 0)).unwrap();
    assert_eq!((img.width, img.height), (0, 0));
    assert_eq!(img.format, PixelFormat::Rgba);
    assert!(img.pixels.is_empty());
    let img = ImageLoader::load(&qoi_header(7, 0, 3, 1)).unwrap();
    assert_eq!((img.width, img.height), (7, 0));
    assert_eq!(img.format, PixelFormat::Rgb);
}

#[test]
fn one_pixel_qoi_decodes() {
    let mut q = qoi_header(1, 1, 4, 0);
    q.extend_from_slice(&[0xFF, 10, 20, 30, 40]);
    q.extend_from_slice(&[0, 0, 0, 0, 0, 0, 0, 1]);
    let img = ImageLoader::load(&q).unwrap();
    assert_eq!((img.width, img.height), (1, 1));
    assert_eq!(img.format, PixelFormat::Rgba);
    assert_eq!(img.pixels, vec![10, 20, 30, 40]);
}

#[test]
fn qoi_with_bad_channels_is_invalid_data() {
    assert_eq!(err_of(ImageLoader::load(&qoi_header(1, 1, 5, 0))), DecodeError::InvalidData);
    assert_eq!(err_of(ImageLoader::load(&qoi_header(1, 1, 4, 2))), DecodeError::InvalidData);
}

#[test]
fn short_qoi_is_out_of_memory() {
    assert_eq!(err_of(ImageLoader::load(b"qoif\0\0\0\x01\0\0")), DecodeError::OutOfMemory);
}

#[test]
fn broken_jpeg_is_not_supported_here() {
    let mut j = vec![0xFF, 0xD8, 0x00, 0x01];
    j.extend_from_slice(&[0u8; 20]);
    assert_eq!(err_of(ImageLoader::load(&j)), DecodeError::NotSupported);
}

#[test]
fn first_decisive_outcome_wins() {
    let img = || DecodedImage { width: 2, height: 1, format: PixelFormat::Rgb, pixels: vec![0; 6] };
    assert_eq!(err_of(ImageLoader::first_decisive(vec![])), DecodeError::NotSupported);
    assert_eq!(
        err_of(ImageLoader::first_decisive(vec![
            Err(DecodeError::NotSupported),
            Err(DecodeError::InvalidData),
            Ok(img()),
        ])),
        DecodeError::InvalidData
    );
    let r = ImageLoader::first_decisive(vec![Err(DecodeError::NotSupported), Ok(img())]).unwrap();
    assert_eq!((r.width, r.height, r.pixels.len()), (2, 1, 6));
    assert_eq!(
        err_of(ImageLoader::first_decisive(vec![Err(DecodeError::NotSupported), Err(DecodeError::NotSupported)])),
        DecodeError::NotSupported
    );
}
