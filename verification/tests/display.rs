use kernel::arch::hpet::HpetTiming;
use kernel::io::emcon::{dims, ConsoleColor, EmConsole};
use kernel::io::screen::{BitmapScreen, BlitMode, Rotation, ScreenOrientation, ScreenRect, ScreenSize};

fn landscape() -> BitmapScreen {
    BitmapScreen::new(ScreenSize { width: 800, height: 600 })
}

#[test]
fn orientation_predicates() {
    assert!(ScreenOrientation::Portrait.is_portrait());
    assert!(!ScreenOrientation::Portrait.is_landscape());
    assert!(ScreenOrientation::Landscape.is_landscape());
}

#[test]
fn new_screen_is_upright() {
    let s = landscape();
    assert_eq!(s.rotation(), Rotation::Default);
    assert_eq!(s.size(), ScreenSize { width: 800, height: 600 });
    assert_eq!(s.orientation(), ScreenOrientation::Landscape);
    assert_eq!(s.blt_mode(), BlitMode::Straight);
}

#[test]
fn rotate_swaps_and_comes_back() {
    let mut s = landscape();
    assert_eq!(s.rotate(), Ok(Rotation::ClockWise));
    assert_eq!(s.size(), ScreenSize { width: 600, height: 800 });
    assert_eq!(s.orientation(), ScreenOrientation::Portrait);
    assert_eq!(s.glyph_mode(), BlitMode::QuarterClockwise);
    assert_eq!(s.rotate(), Ok(Rotation::Default));
    assert_eq!(s.size(), ScreenSize { width: 800, height: 600 });
}

#[test]
fn only_two_rotations_are_taken() {
    let mut s = landscape();
    assert_eq!(s.set_rotation(Rotation::UpsideDown), Err(Rotation::Default));
    assert_eq!(s.set_rotation(Rotation::CounterClockWise), Err(Rotation::Default));
    assert_eq!(s.set_rotation(Rotation::ClockWise), Ok(Rotation::ClockWise));
    assert_eq!(s.native_size(), ScreenSize { width: 800, height: 600 });
}

#[test]
fn set_orientation_gives_what_was_asked() {
    let mut s = landscape();
    assert_eq!(s.set_orientation(ScreenOrientation::Portrait), Ok(ScreenOrientation::Portrait));
    assert_eq!(s.rotation(), Rotation::ClockWise);
    assert_eq!(s.set_orientation(ScreenOrientation::Landscape), Ok(ScreenOrientation::Landscape));
    assert_eq!(s.rotation(), Rotation::Default);
    let mut tall = BitmapScreen::new(ScreenSize { width: 480, height: 640 });
    assert_eq!(tall.set_orientation(ScreenOrientation::Landscape), Ok(ScreenOrientation::Landscape));
    assert_eq!(tall.rotation(), Rotation::ClockWise);
    let mut square = BitmapScreen::new(ScreenSize { width: 500, height: 500 });
    assert_eq!(square.set_orientation(ScreenOrientation::Portrait), Ok(ScreenOrientation::Landscape));
}

#[test]
fn fill_rect_turns_with_the_screen() {
    let mut s = landscape();
    let r = ScreenRect { x: 10, y: 20, width: 30, height: 40 };
    assert_eq!(s.native_fill_rect(r), r);
    s.rotate().unwrap();
    assert_eq!(s.native_fill_rect(r), ScreenRect { x: 800 - 20 - 40, y: 10, width: 40, height: 30 });
}

#[test]
fn console_dims() {
    assert_eq!(dims(800, 600, 8, 16), (98, 36));
    assert_eq!(dims(16, 16, 8, 8), (0, 0));
    assert_eq!(dims(8, 100, 1, 1), (u32::MAX - 7, 84));
}

#[test]
fn console_cursor_moves() {
    let mut c = EmConsole::new();
    assert_eq!(c.write_char('A', 10, 8, 16), Some((8, 8)));
    assert_eq!(c.write_char('B', 10, 8, 16), Some((16, 8)));
    assert_eq!(c.cursor_position(), (2, 0));
    assert_eq!(c.write_char('\x08', 10, 8, 16), None);
    assert_eq!(c.cursor_position(), (1, 0));
    assert_eq!(c.write_char('\n', 10, 8, 16), None);
    assert_eq!(c.cursor_position(), (0, 1));
    assert_eq!(c.write_char('\x08', 10, 8, 16), None);
    assert_eq!(c.cursor_position(), (0, 1));
    c.set_cursor_position(9, 1);
    assert_eq!(c.write_char('Z', 10, 8, 16), Some((8 + 72, 8 + 16)));
    assert_eq!(c.write_char('Y', 10, 8, 16), Some((8, 8 + 32)));
    assert_eq!(c.cursor_position(), (1, 2));
    assert_eq!(c.write_char('\r', 10, 8, 16), None);
    assert_eq!(c.cursor_position(), (0, 2));
    assert!(!c.is_cursor_enabled());
    assert!(!c.set_cursor_enabled(true));
}

#[test]
fn console_attributes() {
    let mut c = EmConsole::new();
    assert_eq!((c.fg_color, c.bg_color), (ConsoleColor::LightGray, ConsoleColor::Black));
    c.set_attribute(0x1F);
    assert_eq!((c.fg_color, c.bg_color), (ConsoleColor::Indexed(15), ConsoleColor::Indexed(1)));
    c.set_attribute(0x07);
    assert_eq!((c.fg_color, c.bg_color), (ConsoleColor::Indexed(7), ConsoleColor::Black));
    c.set_attribute(0x10);
    assert_eq!((c.fg_color, c.bg_color), (ConsoleColor::Indexed(0), ConsoleColor::Indexed(1)));
    c.set_attribute(0);
    assert_eq!((c.fg_color, c.bg_color), (ConsoleColor::LightGray, ConsoleColor::Black));
}

#[test]
fn hpet_timing_from_capabilities() {
    // 69841279 fs: the common 14.318 MHz timer, with a 64-bit counter.
    let t = HpetTiming::from_id_register((69_841_279u64 << 32) | 0x8086_A201);
    assert!(!t.counter_32bit);
    assert_eq!(t.main_cnt_period, 69_841_279);
    assert_eq!(t.measure_div, 14);
    assert_eq!(t.measure(5, 1400), 100);
    let narrow = HpetTiming::from_id_register((100_000_000u64 << 32) | 0x0001);
    assert!(narrow.counter_32bit);
    assert_eq!(narrow.measure(7, 123), 7000);
}

#[test]
fn hpet_init_writes() {
    let t = HpetTiming::from_id_register(100_000_000u64 << 32);
    let w = t.init_writes();
    assert_eq!(w.len(), 37);
    assert_eq!(&w[..6], &[(0x10, 0), (0x20, 0), (0xF0, 0), (0x10, 3), (0x100, 0x4C), (0x108, 10_000)]);
    assert_eq!(w[6], (0x120, 0));
    assert_eq!(w[36], (0x100 + 31 * 0x20, 0));
}
