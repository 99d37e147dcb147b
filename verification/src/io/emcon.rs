//! The emergency console: a text cursor over the main screen, used before
//! anything else can show text.
//!
//! The console keeps the cursor and the colours; the platform draws the cell
//! that `write_char` names.

use vstd::prelude::*;

verus! {

/// The margin, in pixels, around the text area.
pub const EMCON_PADDING: i32 = 8;

/// A console colour: the two defaults, or an entry of the indexed palette.
#[derive(Debug, Clone, Copy, PartialEq, Eq, Structural)]
pub enum ConsoleColor {
    /// The default foreground.
    LightGray,
    /// The default background.
    Black,
    Indexed(u8),
}

/// The columns and rows of text that fit on a screen, given the size of a
/// character cell. A screen narrower than the margins yields the wrapped
/// difference, as the unsigned arithmetic of the console does.
pub open spec fn spec_dims(screen_w: u32, screen_h: u32, font_w: u32, font_h: u32) -> (u32, u32) {
    (
        (((screen_w - 2 * EMCON_PADDING) as u32) / font_w) as u32,
        (((screen_h - 2 * EMCON_PADDING) as u32) / font_h) as u32,
    )
}

pub fn dims(screen_w: u32, screen_h: u32, font_w: u32, font_h: u32) -> (r: (u32, u32))
    requires
        screen_w <= i32::MAX,
        screen_h <= i32::MAX,
        font_w > 0,
        font_h > 0,
    ensures
        r == spec_dims(screen_w, screen_h, font_w, font_h),
{
    let w: i32 = screen_w as i32 - EMCON_PADDING * 2;
    let h: i32 = screen_h as i32 - EMCON_PADDING * 2;
    let cols: u32 = (w as u32) / font_w;
    let rows: u32 = (h as u32) / font_h;
    (cols, rows)
}

/// The cursor and colours of the console.
#[derive(Debug, Clone, Copy, PartialEq, Eq, Structural)]
pub struct EmConsole {
    pub x: u32,
    pub y: u32,
    pub fg_color: ConsoleColor,
    pub bg_color: ConsoleColor,
}

/// The cursor after a character: a cursor past the last column first moves to
/// the next line; backspace steps back within the line, carriage return goes
/// to the first column, newline to the first column of the next line, and any
/// other character is drawn and moves the cursor one column on.
pub open spec fn spec_cursor_after(x: u32, y: u32, cols: u32, c: char) -> (u32, u32) {
    let (x0, y0) = if x >= cols { (0u32, (y + 1) as u32) } else { (x, y) };
    if c == '\x08' {
        (if x0 > 0 { (x0 - 1) as u32 } else { x0 }, y0)
    } else if c == '\r' {
        (0u32, y0)
    } else if c == '\n' {
        (0u32, (y0 + 1) as u32)
    } else {
        ((x0 + 1) as u32, y0)
    }
}

impl EmConsole {
    pub fn new() -> (r: Self)
        ensures
            r.x == 0,
            r.y == 0,
            r.fg_color == ConsoleColor::LightGray,
            r.bg_color == ConsoleColor::Black,
    {
        EmConsole { x: 0, y: 0, fg_color: ConsoleColor::LightGray, bg_color: ConsoleColor::Black }
    }

    /// Moves the cursor for one character and, for a printable one, returns the
    /// pixel origin of the cell to clear and draw it in.
    pub fn write_char(&mut self, c: char, cols: u32, font_w: u32, font_h: u32) -> (r: Option<
        (i32, i32),
    >)
        requires
            old(self).y as int + 2 <= u32::MAX,
            old(self).x < u32::MAX,
            (cols as int) * (font_w as int) + EMCON_PADDING <= i32::MAX,
            (old(self).x as int) * (font_w as int) + EMCON_PADDING <= i32::MAX,
            (old(self).y as int + 1) * (font_h as int) + EMCON_PADDING <= i32::MAX,
        ensures
            (final(self).x, final(self).y) == spec_cursor_after(old(self).x, old(self).y, cols, c),
            final(self).fg_color == old(self).fg_color,
            final(self).bg_color == old(self).bg_color,
            (c == '\x08' || c == '\r' || c == '\n') ==> r.is_none(),
            !(c == '\x08' || c == '\r' || c == '\n') ==> {
                let (x0, y0) = if old(self).x >= cols {
                    (0int, old(self).y + 1)
                } else {
                    (old(self).x as int, old(self).y as int)
                };
                r == Some((
                    (x0 * font_w + EMCON_PADDING) as i32,
                    (y0 * font_h + EMCON_PADDING) as i32,
                ))
            },
    {
        if self.x >= cols {
            self.x = 0;
            self.y = self.y + 1;
        }
        if c == '\x08' {
            if self.x > 0 {
                self.x = self.x - 1;
            }
            None
        } else if c == '\r' {
            self.x = 0;
            None
        } else if c == '\n' {
            self.x = 0;
            self.y = self.y + 1;
            None
        } else {
            let cx: u32 = self.x;
            let cy: u32 = self.y;
            proof {
                let ox: int = old(self).x as int;
                let oy: int = old(self).y as int;
                assert((cx as int) * (font_w as int) <= ox * (font_w as int)) by (nonlinear_arith)
                    requires
                        cx <= ox,
                ;
                assert((cy as int) * (font_h as int) <= (oy + 1) * (font_h as int))
                    by (nonlinear_arith)
                    requires
                        cy <= oy + 1,
                ;
            }
            let px: u32 = cx * font_w;
            let py: u32 = cy * font_h;
            let origin = (px as i32 + EMCON_PADDING, py as i32 + EMCON_PADDING);
            self.x = self.x + 1;
            Some(origin)
        }
    }

    pub fn cursor_position(&self) -> (r: (u32, u32))
        ensures
            r == (self.x, self.y),
    {
        (self.x, self.y)
    }

    pub fn set_cursor_position(&mut self, x: u32, y: u32)
        ensures
            final(self).x == x,
            final(self).y == y,
            final(self).fg_color == old(self).fg_color,
            final(self).bg_color == old(self).bg_color,
    {
        self.x = x;
        self.y = y;
    }

    /// The console draws no cursor.
    pub fn is_cursor_enabled(&self) -> (r: bool)
        ensures
            !r,
    {
        false
    }

    /// The console draws no cursor, whatever is asked.
    pub fn set_cursor_enabled(&mut self, _enabled: bool) -> (r: bool)
        ensures
            !r,
            *final(self) == *old(self),
    {
        false
    }

    /// Sets the colours from a text attribute: the low nibble indexes the
    /// foreground, the high nibble the background (zero is black); attribute
    /// zero restores the defaults.
    pub fn set_attribute(&mut self, attribute: u8)
        ensures
            final(self).x == old(self).x,
            final(self).y == old(self).y,
            attribute == 0 ==> final(self).fg_color == ConsoleColor::LightGray
                && final(self).bg_color == ConsoleColor::Black,
            attribute > 0 ==> final(self).fg_color == ConsoleColor::Indexed(attribute % 16),
            attribute > 0 && attribute / 16 > 0 ==> final(self).bg_color == ConsoleColor::Indexed(
                attribute / 16,
            ),
            attribute > 0 && attribute / 16 == 0 ==> final(self).bg_color == ConsoleColor::Black,
    {
        if attribute > 0 {
            let fg: u8 = attribute & 0x0F;
            let bg: u8 = attribute >> 4;
            assert(fg == attribute % 16 && bg == attribute / 16) by (bit_vector)
                requires
                    fg == attribute & 0x0F,
                    bg == attribute >> 4,
            ;
            self.fg_color = ConsoleColor::Indexed(fg);
            if bg > 0 {
                self.bg_color = ConsoleColor::Indexed(bg);
            } else {
                self.bg_color = ConsoleColor::Black;
            }
        } else {
            self.fg_color = ConsoleColor::LightGray;
            self.bg_color = ConsoleColor::Black;
        }
    }
}

} // verus!
