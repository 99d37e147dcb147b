use kernel::io::hid::KeyEvent;
use kernel::rt::haribote::{
    char_message, key_message, palette, HoeLangMode, HoeState, HoeSyscall, HrbBinaryLoader, HrbLayout,
    HoeWindowBuffer, JisChar, JisChars, JisString, LegacySyscallContext, HOE_OS_ID,
};
use kernel::rt::LegacyAppContext;
use kernel::rt::haribote::hoe_file_size;
use kernel::fs::{FsRawFileControlBlock, INodeType, Whence};

#[test]
fn jis_strings_decode() {
    let s = JisString { bytes: vec![b'A', 0x82, 0xA0, b'z'] };
    assert_eq!(
        s.chars(HoeLangMode::ShiftJIS),
        vec![JisChar::ANK(b'A'), JisChar::Kanji(283), JisChar::ANK(b'z')]
    );
    let e = JisString { bytes: vec![0xA4, 0xA2, b'1'] };
    assert_eq!(e.chars(HoeLangMode::EUC), vec![JisChar::Kanji(283), JisChar::ANK(b'1')]);
    assert_eq!(
        e.chars(HoeLangMode::Ascii),
        vec![JisChar::ANK(0xA4), JisChar::ANK(0xA2), JisChar::ANK(b'1')]
    );
    // a lead byte without its trail ends the string
    let cut = JisString { bytes: vec![b'x', 0x82] };
    assert_eq!(cut.chars(HoeLangMode::ShiftJIS), vec![JisChar::ANK(b'x')]);
    let mut it = JisChars::new(&[0x88, 0x9F], HoeLangMode::ShiftJIS);
    // lead 0x88, trail 0x9F: row 15, column 0
    assert_eq!(it.next_char(), Some(JisChar::Kanji(15 * 94)));
    assert_eq!(it.next_char(), None);
    assert_eq!(HoeLangMode::EUC.code(), 2);
}

fn hrb_blob() -> Vec<u8> {
    let mut b = vec![0u8; 0x30];
    b[0..4].copy_from_slice(&0x2000u32.to_le_bytes()); // size of data segment
    b[4..8].copy_from_slice(b"Hari");
    b[0x0C..0x10].copy_from_slice(&0x400u32.to_le_bytes()); // stack pointer
    b[0x10..0x14].copy_from_slice(&4u32.to_le_bytes()); // size of data in file
    b[0x14..0x18].copy_from_slice(&0x2Cu32.to_le_bytes()); // size of code
    b[0x2C..0x30].copy_from_slice(&[1, 2, 3, 4]);
    b
}

#[test]
fn hrb_identify_and_layout() {
    let blob = hrb_blob();
    assert!(HrbBinaryLoader::identify(&blob));
    assert!(!HrbBinaryLoader::identify(&blob[..0x24]));
    let mut other = blob.clone();
    other[4] = b'h';
    assert!(!HrbBinaryLoader::identify(&other));
    let layout = HrbBinaryLoader::layout(&blob);
    assert_eq!(
        layout,
        HrbLayout {
            size_of_code: 0x2C,
            rva_data: 0x1000,
            size_of_ds: 0x2000,
            size_of_data: 4,
            image_size: 0x3000,
            stack_pointer: 0x400,
        }
    );
    let image = HrbBinaryLoader::load_image(&blob, &layout).unwrap();
    assert_eq!(image.len(), 0x3000);
    assert_eq!(&image[..0x2C], &blob[..0x2C]);
    assert_eq!(&image[0x1400..0x1404], &[1, 2, 3, 4]);
    assert_eq!(image[0x1404], 0);
    let ctx = HrbBinaryLoader::context(&layout, 0x10_0000);
    assert_eq!(ctx.base_of_data, 0x10_1000);
    assert_eq!(ctx.size_of_data, 0x2000);
    assert_eq!(ctx.start, 0x1B);
    assert_eq!(ctx.stack_pointer, 0x400);
    // data beyond the end of the file
    let mut bad = layout;
    bad.size_of_data = 0x100;
    assert!(HrbBinaryLoader::load_image(&blob, &bad).is_none());
}

#[test]
fn palette_colours() {
    assert_eq!(palette(0), 0xFF000000);
    assert_eq!(palette(8), 0xFFC6C6C6);
    assert_eq!(palette(15), 0xFF848484);
    assert_eq!(palette(17), 0xFF330000);
    assert_eq!(palette(22), 0xFF003300);
    assert_eq!(palette(52), 0xFF000033);
    assert_eq!(palette(231), 0xFFFFFFFF);
    assert_eq!(palette(232), 0);
}

#[test]
fn application_handles_and_heap() {
    let ctx = LegacyAppContext { base_of_data: 0x1000, size_of_data: 0x100, ..LegacyAppContext::default() };
    let mut hoe = HoeState::new(ctx);
    assert_eq!(hoe.safe_ptr(0x10, 0x10), Some(0x1010));
    assert_eq!(hoe.safe_ptr(0, 0x10), None);
    assert_eq!(hoe.safe_ptr(0x80, 0x80), None);
    assert_eq!(hoe.alloc_window(), 2);
    assert_eq!(hoe.alloc_window(), 4);
    assert_eq!(hoe.get_window(2), Some((0, true)));
    assert_eq!(hoe.get_window(5), Some((1, false)));
    assert_eq!(hoe.get_window(6), None);
    assert_eq!(hoe.get_window(1), None);
    assert_eq!(hoe.alloc_timer(), 1);
    assert_eq!(hoe.timer_data(1), Some(u32::MAX));
    hoe.init_timer(1, 128);
    assert_eq!(hoe.timer_data(1), Some(128));
    assert_eq!(hoe.timer_data(2), None);
    assert_eq!(hoe.alloc_file(), 1);
    assert_eq!(hoe.get_file(1), Some(0));
    assert_eq!(hoe.get_file(0), None);
    hoe.init_malloc(0x2000, 0x1000);
    assert_eq!(hoe.malloc(10), 0x2000);
    assert_eq!(hoe.malloc(16), 0x2010);
    assert_eq!(hoe.malloc_start, 0x2020);
    assert_eq!(hoe.malloc_free, 0x1000 - 0x20);
}

#[test]
fn window_messages() {
    assert_eq!(key_message(KeyEvent(0x51)), Some(0x32));
    assert_eq!(key_message(KeyEvent(0x52)), Some(0x38));
    assert_eq!(key_message(KeyEvent(0x8000_0052)), None);
    assert_eq!(key_message(KeyEvent(0x04)), None);
    assert_eq!(char_message('\r'), 0x0A);
    assert_eq!(char_message('a'), 0x61);
}

fn regs(edx: u32, eax: u32, ebx: u32, ecx: u32, esi: u32, edi: u32, ebp: u32) -> LegacySyscallContext {
    LegacySyscallContext { eax, ecx, edx, ebx, esi, edi, ebp, eip: 0x1B }
}

#[test]
fn syscalls_decode_from_registers() {
    assert_eq!(regs(1, 0x141, 0, 0, 0, 0, 0).decode(), HoeSyscall::PutChar(0x41));
    assert_eq!(regs(3, 0, 0x40, 5, 0, 0, 0).decode(), HoeSyscall::PutString { text: 0x40, len: 5 });
    assert_eq!(
        regs(5, 0, 0x100, 0x200, 160, 100, 0).decode(),
        HoeSyscall::OpenWindow { title: 0x200, width: 160, height: 100, buffer: 0x100 }
    );
    assert_eq!(
        regs(6, 0x107, 2, 4, 8, 28, 0x300).decode(),
        HoeSyscall::DrawText { window: 2, text: 0x300, color: 7, x: 8, y: 28, len: 4 }
    );
    assert_eq!(
        regs(13, 0xFFFF_FFFF, 2, 3, 4, 5, 0x10F).decode(),
        HoeSyscall::DrawLine { window: 2, x0: -1, y0: 3, x1: 4, y1: 5, color: 0x0F }
    );
    assert_eq!(regs(15, 1, 0, 0, 0, 0, 0).decode(), HoeSyscall::GetKey { sleep: true });
    assert_eq!(regs(15, 0, 0, 0, 0, 0, 0).decode(), HoeSyscall::GetKey { sleep: false });
    assert_eq!(
        regs(23, 3, 0xFFFF_FFF0, 1, 0, 0, 0).decode(),
        HoeSyscall::FileSeek { file: 3, offset: -16, whence: 1 }
    );
    assert_eq!(regs(33, 0, 0, 1, 0, 0, 0).decode(), HoeSyscall::TimeCount);
    assert_eq!(regs(33, 0, 0, 2, 0, 0, 0).decode(), HoeSyscall::ExtendedUnknown);
    assert_eq!(regs(30, 0, 0, 0, 0, 0, 0).decode(), HoeSyscall::Unimplemented(30));
    assert_eq!(regs(0, 0, 0, 0, 0, 0, 0).decode(), HoeSyscall::Unimplemented(0));
}

#[test]
fn local_syscalls_update_the_state() {
    let ctx = LegacyAppContext { base_of_data: 0x1000, size_of_data: 0x100, ..LegacyAppContext::default() };
    let mut hoe = HoeState::new(ctx);
    let r = hoe.syscall_local(regs(8, 0x40, 0, 0x80, 0, 0, 0), HoeLangMode::Ascii);
    assert_eq!(r, regs(8, 0x40, 0, 0x80, 0, 0, 0));
    assert_eq!((hoe.malloc_start, hoe.malloc_free), (0x40, 0x80));
    let r = hoe.syscall_local(regs(9, 0, 0, 5, 0, 0, 0), HoeLangMode::Ascii);
    assert_eq!(r.eax, 0x40);
    assert_eq!((hoe.malloc_start, hoe.malloc_free), (0x50, 0x70));
    let r = hoe.syscall_local(regs(16, 9, 0, 0, 0, 0, 0), HoeLangMode::Ascii);
    assert_eq!(r.eax, 1);
    let r = hoe.syscall_local(regs(27, 9, 0, 0, 0, 0, 0), HoeLangMode::ShiftJIS);
    assert_eq!((r.eax, r.ecx, r.edx), (1, HOE_OS_ID, 0));
    let r = hoe.syscall_local(regs(29, 9, 0, 0, 0, 0, 0), HoeLangMode::Ascii);
    assert_eq!(r.eax, 0);
    let r = hoe.syscall_local(regs(2, 9, 0x10, 0, 0, 0, 0), HoeLangMode::Ascii);
    assert_eq!(r, regs(2, 9, 0x10, 0, 0, 0, 0));
}

#[test]
fn window_fill_stays_inside_the_frame() {
    let mut win = HoeWindowBuffer { width: 10, height: 30, pixels: vec![0; 300] };
    win.fill_rect(0, 0, 10, 30, 7);
    for y in 0..30u32 {
        for x in 0..10u32 {
            let inside = (2..=8).contains(&x) && (22..=28).contains(&y);
            assert_eq!(win.pixels[(y * 10 + x) as usize], if inside { 7 } else { 0 }, "{} {}", x, y);
        }
    }
    win.fill_rect(5, 25, 3, 23, 1);
    assert_eq!(win.pixels[23 * 10 + 3], 1);
    assert_eq!(win.pixels[25 * 10 + 5], 1);
    assert_eq!(win.pixels[26 * 10 + 5], 7);
    assert_eq!(win.pixels[25 * 10 + 6], 7);
}

#[test]
fn window_set_pixel() {
    let mut win = HoeWindowBuffer { width: 4, height: 4, pixels: vec![0; 16] };
    win.set_pixel(1, 2, 9);
    assert_eq!(win.pixels[9], 9);
    win.set_pixel(4, 0, 9);
    win.set_pixel(0, 4, 9);
    assert_eq!(win.pixels.iter().filter(|&&p| p == 9).count(), 1);
}

#[test]
fn file_size_keeps_the_position() {
    let mut fcb = FsRawFileControlBlock::new(INodeType::new(5).unwrap(), true, false, false);
    assert_eq!(fcb.lseek(5, Whence::SeekSet, Some(12)), Ok(5));
    assert_eq!(hoe_file_size(&mut fcb, Whence::SeekSet, Some(12)), 12);
    assert_eq!(hoe_file_size(&mut fcb, Whence::SeekCur, Some(12)), 5);
    assert_eq!(hoe_file_size(&mut fcb, Whence::SeekEnd, Some(12)), usize::MAX - 6);
    assert_eq!(fcb.file_pos, 5);
    assert_eq!(hoe_file_size(&mut fcb, Whence::SeekSet, None), 0);
}

#[test]
fn window_glyph_sets_its_bits() {
    let mut win = HoeWindowBuffer { width: 12, height: 20, pixels: vec![0; 240] };
    let mut glyph = [0u8; 16];
    glyph[0] = 0x80;
    glyph[1] = 0x01;
    glyph[15] = 0xFF;
    win.put_font_data(1, 2, &glyph, 9);
    assert_eq!(win.pixels[2 * 12 + 1], 9);
    assert_eq!(win.pixels[3 * 12 + 8], 9);
    assert_eq!(win.pixels[3 * 12 + 1], 0);
    for x in 1..9 {
        assert_eq!(win.pixels[17 * 12 + x], 9);
    }
    assert_eq!(win.pixels.iter().filter(|&&p| p == 9).count(), 10);
    let before = win.pixels.clone();
    win.put_font_data(4, 0, &glyph, 5);
    win.put_font_data(0, 4, &glyph, 5);
    assert_eq!(win.pixels, before);
}
