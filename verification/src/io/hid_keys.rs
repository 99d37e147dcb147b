//! What the HID manager keeps between events: the modifier keys held down,
//! the pointer of a mouse, and the characters that keys stand for on the
//! US (101) and Japanese (109) layouts.

use vstd::prelude::*;
use crate::io::hid::{KeyEvent, KeyEventFlags};

verus! {

/// Key usages of the keyboard page.
pub struct Usage;

impl Usage {
    pub const NONE: u8 = 0x00;
    pub const KEY_A: u8 = 0x04;
    pub const ALPHABET_MIN: u8 = 0x04;
    pub const ALPHABET_MAX: u8 = 0x1D;
    pub const NUMBER_MIN: u8 = 0x1E;
    pub const NON_ALPHABET_MAX: u8 = 0x38;
    pub const DELETE: u8 = 0x4C;
    pub const NUMPAD_MIN: u8 = 0x54;
    pub const NUMPAD_MAX: u8 = 0x63;
    pub const INTERNATIONAL_1: u8 = 0x87;
    pub const INTERNATIONAL_3: u8 = 0x89;
    pub const MOD_MIN: u8 = 0xE0;
    pub const MOD_MAX: u8 = 0xE7;
}

/// The modifier keys, one bit each: control, shift, alt and GUI, left then right.
pub struct Modifier;

impl Modifier {
    pub const LEFT_CTRL: u8 = 0x01;
    pub const LEFT_SHIFT: u8 = 0x02;
    pub const LEFT_ALT: u8 = 0x04;
    pub const LEFT_GUI: u8 = 0x08;
    pub const RIGHT_CTRL: u8 = 0x10;
    pub const RIGHT_SHIFT: u8 = 0x20;
    pub const RIGHT_ALT: u8 = 0x40;
    pub const RIGHT_GUI: u8 = 0x80;

    pub open spec fn spec_has_shift(m: u8) -> bool {
        m & 0x22 != 0
    }

    pub open spec fn spec_has_ctrl(m: u8) -> bool {
        m & 0x11 != 0
    }

    /// Either shift key is held.
    pub fn has_shift(m: u8) -> (r: bool)
        ensures
            r == Self::spec_has_shift(m),
    {
        m & 0x22 != 0
    }

    /// Either control key is held.
    pub fn has_ctrl(m: u8) -> (r: bool)
        ensures
            r == Self::spec_has_ctrl(m),
    {
        m & 0x11 != 0
    }
}

/// The character that stands for no character.
pub const INVALID_UNICHAR: char = '\u{FEFF}';

/// The characters of the keys from `1` to `/` on the US layout.
pub open spec fn non_alphabet_101() -> Seq<char> {
    seq!['1', '2', '3', '4', '5', '6', '7', '8', '9', '0', '\x0D', '\x1B', '\x08', '\x09', ' ', '-',
        '+', '[', ']', '\\', '\\', ';', '\'', '`', ',', '.', '/']
}

/// The same keys with shift on the US layout.
pub open spec fn non_alphabet_101_shifted() -> Seq<char> {
    seq!['!', '@', '#', '$', '%', '^', '&', '*', '(', ')', '\x0D', '\x1B', '\x08', '\x09', ' ', '_',
        '=', '{', '}', '|', '|', ':', '"', '~', '<', '>', '?']
}

/// The characters of the keys from `1` to `/` on the Japanese layout.
pub open spec fn non_alphabet_109() -> Seq<char> {
    seq!['1', '2', '3', '4', '5', '6', '7', '8', '9', '0', '\x0D', '\x1B', '\x08', '\x09', ' ', '-',
        '^', '@', '[', ']', ']', ';', ':', '`', ',', '.', '/']
}

/// The characters of the numeric keypad.
pub open spec fn numpad() -> Seq<char> {
    seq!['/', '*', '-', '+', '\x0D', '1', '2', '3', '4', '5', '6', '7', '8', '9', '0', '.']
}

fn table_101(i: usize) -> (r: char)
    requires
        i < 27,
    ensures
        r == non_alphabet_101()[i as int],
{
    let t: [char; 27] = ['1', '2', '3', '4', '5', '6', '7', '8', '9', '0', '\x0D', '\x1B', '\x08', '\x09', ' ', '-',
        '+', '[', ']', '\\', '\\', ';', '\'', '`', ',', '.', '/'];
    assert(t@ == non_alphabet_101());
    t[i]
}

fn table_101_shifted(i: usize) -> (r: char)
    requires
        i < 27,
    ensures
        r == non_alphabet_101_shifted()[i as int],
{
    let t: [char; 27] = ['!', '@', '#', '$', '%', '^', '&', '*', '(', ')', '\x0D', '\x1B', '\x08', '\x09', ' ', '_',
        '=', '{', '}', '|', '|', ':', '"', '~', '<', '>', '?'];
    assert(t@ == non_alphabet_101_shifted());
    t[i]
}

fn table_109(i: usize) -> (r: char)
    requires
        i < 27,
    ensures
        r == non_alphabet_109()[i as int],
{
    let t: [char; 27] = ['1', '2', '3', '4', '5', '6', '7', '8', '9', '0', '\x0D', '\x1B', '\x08', '\x09', ' ', '-',
        '^', '@', '[', ']', ']', ';', ':', '`', ',', '.', '/'];
    assert(t@ == non_alphabet_109());
    t[i]
}

fn table_numpad(i: usize) -> (r: char)
    requires
        i < 16,
    ensures
        r == numpad()[i as int],
{
    let t: [char; 16] = ['/', '*', '-', '+', '\x0D', '1', '2', '3', '4', '5', '6', '7', '8', '9', '0', '.'];
    assert(t@ == numpad());
    t[i]
}

/// The character of a key on the US layout, before control is applied.
pub open spec fn base_char_101(usage: u8, m: u8) -> char {
    if 0x04 <= usage <= 0x1D {
        let c = (usage - 0x04 + 0x61) as u8;
        if Modifier::spec_has_shift(m) { (c ^ 0x20u8) as char } else { c as char }
    } else if 0x1E <= usage <= 0x38 {
        if Modifier::spec_has_shift(m) {
            non_alphabet_101_shifted()[usage - 0x1E]
        } else {
            non_alphabet_101()[usage - 0x1E]
        }
    } else if usage == 0x4C {
        '\x7F'
    } else if 0x54 <= usage <= 0x63 {
        numpad()[usage - 0x54]
    } else {
        INVALID_UNICHAR
    }
}

/// The character of a key on the US layout: control turns letters and the
/// symbols around them into control characters.
pub open spec fn spec_usage_to_char_101(usage: u8, m: u8) -> char {
    let uni = base_char_101(usage, m);
    if 0x40 <= (uni as u32) < 0x7F && Modifier::spec_has_ctrl(m) {
        ((uni as u8) & 0x1Fu8) as char
    } else {
        uni
    }
}

/// The character of a key on the Japanese layout, before control and shift
/// are applied to letters and the symbols around them.
pub open spec fn base_char_109(usage: u8, m: u8) -> char {
    if 0x04 <= usage <= 0x1D {
        (usage - 0x04 + 0x61) as u8 as char
    } else if 0x1E <= usage <= 0x38 {
        let c = non_alphabet_109()[usage - 0x1E];
        if (c as u32) > 0x20 && (c as u32) < 0x40 && c != '0' && Modifier::spec_has_shift(m) {
            ((c as u8) ^ 0x10u8) as char
        } else {
            c
        }
    } else if usage == 0x4C {
        '\x7F'
    } else if 0x54 <= usage <= 0x63 {
        numpad()[usage - 0x54]
    } else if usage == 0x89 {
        '\\'
    } else {
        INVALID_UNICHAR
    }
}

/// The character of a key on the Japanese layout.
pub open spec fn spec_usage_to_char_109(usage: u8, m: u8) -> char {
    let uni = base_char_109(usage, m);
    let uni2 = if 0x40 <= (uni as u32) < 0x7F {
        if Modifier::spec_has_ctrl(m) {
            ((uni as u8) & 0x1Fu8) as char
        } else if Modifier::spec_has_shift(m) {
            ((uni as u8) ^ 0x20u8) as char
        } else {
            uni
        }
    } else {
        uni
    };
    if usage == 0x87 {
        if Modifier::spec_has_shift(m) { '_' } else { '\\' }
    } else {
        uni2
    }
}

/// The character of a key on the US layout.
pub fn usage_to_char_101(usage: u8, modifier: u8) -> (r: char)
    ensures
        r == spec_usage_to_char_101(usage, modifier),
{
    let mut uni: char = INVALID_UNICHAR;
    if usage >= Usage::ALPHABET_MIN && usage <= Usage::ALPHABET_MAX {
        let c = usage - Usage::KEY_A + 0x61;
        uni = c as char;
        if Modifier::has_shift(modifier) {
            uni = (c ^ 0x20) as char;
        }
    } else if usage >= Usage::NUMBER_MIN && usage <= Usage::NON_ALPHABET_MAX {
        if Modifier::has_shift(modifier) {
            uni = table_101_shifted((usage - Usage::NUMBER_MIN) as usize);
        } else {
            uni = table_101((usage - Usage::NUMBER_MIN) as usize);
        }
    } else if usage == Usage::DELETE {
        uni = '\x7F';
    } else if usage >= Usage::NUMPAD_MIN && usage <= Usage::NUMPAD_MAX {
        uni = table_numpad((usage - Usage::NUMPAD_MIN) as usize);
    }
    if (uni as u32) >= 0x40 && (uni as u32) < 0x7F {
        if Modifier::has_ctrl(modifier) {
            uni = ((uni as u8) & 0x1F) as char;
        }
    }
    uni
}

/// The character of a key on the Japanese layout.
pub fn usage_to_char_109(usage: u8, modifier: u8) -> (r: char)
    ensures
        r == spec_usage_to_char_109(usage, modifier),
{
    let mut uni: char = INVALID_UNICHAR;
    if usage >= Usage::ALPHABET_MIN && usage <= Usage::ALPHABET_MAX {
        uni = (usage - Usage::KEY_A + 0x61) as char;
    } else if usage >= Usage::NUMBER_MIN && usage <= Usage::NON_ALPHABET_MAX {
        uni = table_109((usage - Usage::NUMBER_MIN) as usize);
        if (uni as u32) > 0x20 && (uni as u32) < 0x40 && uni != '0' && Modifier::has_shift(modifier) {
            uni = ((uni as u8) ^ 0x10) as char;
        }
    } else if usage == Usage::DELETE {
        uni = '\x7F';
    } else if usage >= Usage::NUMPAD_MIN && usage <= Usage::NUMPAD_MAX {
        uni = table_numpad((usage - Usage::NUMPAD_MIN) as usize);
    } else if usage == Usage::INTERNATIONAL_3 {
        uni = '\\';
    }
    if (uni as u32) >= 0x40 && (uni as u32) < 0x7F {
        if Modifier::has_ctrl(modifier) {
            uni = ((uni as u8) & 0x1F) as char;
        } else if Modifier::has_shift(modifier) {
            uni = ((uni as u8) ^ 0x20) as char;
        }
    }
    if usage == Usage::INTERNATIONAL_1 {
        if Modifier::has_shift(modifier) {
            uni = '_';
        } else {
            uni = '\\';
        }
    }
    uni
}

/// What the HID manager keeps: the modifier keys held down.
pub struct HidManager {
    pub key_modifier: u8,
}

impl HidManager {
    pub fn new() -> (r: Self)
        ensures
            r.key_modifier == 0,
    {
        HidManager { key_modifier: 0 }
    }

    /// The modifiers after `event`: a modifier key sets its bit when pressed
    /// and clears it when released.
    pub open spec fn spec_modifier_after(modifier: u8, event: KeyEvent) -> u8 {
        let u = (event.0 % 0x100) as u8;
        if 0xE0 <= u <= 0xE7 {
            let bit = (1u8 << ((u - 0xE0) as u8)) as u8;
            if (event.0 / 0x100_0000) % 0x100 >= 0x80 {
                modifier & !bit
            } else {
                modifier | bit
            }
        } else {
            modifier
        }
    }

    /// Takes a key event: keeps track of the modifier keys, and gives the
    /// event as it is posted, with the modifiers held after it.
    pub fn post_key_event(&mut self, event: KeyEvent) -> (r: KeyEvent)
        ensures
            final(self).key_modifier == Self::spec_modifier_after(old(self).key_modifier, event),
            r.0 == event.0 % 0x100 + final(self).key_modifier * 0x1_0000 + ((event.0 / 0x100_0000) % 0x100) * 0x100_0000,
    {
        let usage = event.usage();
        if usage >= Usage::MOD_MIN && usage <= Usage::MOD_MAX {
            let bit: u8 = 1u8 << (usage - Usage::MOD_MIN);
            if event.is_break() {
                self.key_modifier = self.key_modifier & !bit;
            } else {
                self.key_modifier = self.key_modifier | bit;
            }
        }
        KeyEvent::new(usage, self.key_modifier, event.flags())
    }

    /// The character that a key event stands for on the Japanese layout; none
    /// (`'\0'`) for a release and for an empty usage.
    pub fn key_event_to_char(event: KeyEvent) -> (r: char)
        ensures
            r == if (event.0 / 0x100_0000) % 0x100 >= 0x80 || event.0 % 0x100 == 0 {
                '\0'
            } else {
                spec_usage_to_char_109((event.0 % 0x100) as u8, ((event.0 / 0x1_0000) % 0x100) as u8)
            },
    {
        if event.flags().contains(KeyEventFlags(KeyEventFlags::BREAK)) || event.usage() == Usage::NONE {
            proof {
                crate::bits::lemma_byte_bits();
            }
            '\0'
        } else {
            proof {
                crate::bits::lemma_byte_bits();
            }
            usage_to_char_109(event.usage(), event.modifier())
        }
    }
}

impl KeyEvent {
    /// The character that the event stands for.
    pub fn into_char(self) -> (r: char)
        ensures
            r == if (self.0 / 0x100_0000) % 0x100 >= 0x80 || self.0 % 0x100 == 0 {
                '\0'
            } else {
                spec_usage_to_char_109((self.0 % 0x100) as u8, ((self.0 / 0x1_0000) % 0x100) as u8)
            },
    {
        HidManager::key_event_to_char(self)
    }
}

/// A report of a pointing device.
#[derive(Debug, Clone, Copy, PartialEq, Eq, Default, Structural)]
pub struct MouseReport {
    pub buttons: u8,
    pub x: isize,
    pub y: isize,
    pub wheel: isize,
}

/// The state of a pointing device: its buttons now and before, and where it is.
#[derive(Debug, Clone, Copy, PartialEq, Eq, Default, Structural)]
pub struct MouseState {
    pub current_buttons: u8,
    pub prev_buttons: u8,
    pub x: isize,
    pub y: isize,
    pub wheel: isize,
    pub max_x: i32,
    pub max_y: i32,
}

impl MouseState {
    pub fn empty() -> (r: Self)
        ensures
            r == (MouseState { current_buttons: 0, prev_buttons: 0, x: 0, y: 0, wheel: 0, max_x: 0, max_y: 0 }),
    {
        MouseState { current_buttons: 0, prev_buttons: 0, x: 0, y: 0, wheel: 0, max_x: 0, max_y: 0 }
    }

    /// A relative report moves the pointer by its motion (wrapping around).
    pub fn process_relative_report(&mut self, report: MouseReport)
        ensures
            final(self).prev_buttons == old(self).current_buttons,
            final(self).current_buttons == report.buttons,
            final(self).x == old(self).x.wrapping_add(report.x),
            final(self).y == old(self).y.wrapping_add(report.y),
            final(self).wheel == old(self).wheel,
            final(self).max_x == old(self).max_x,
            final(self).max_y == old(self).max_y,
    {
        self.prev_buttons = self.current_buttons;
        self.current_buttons = report.buttons;
        self.x = self.x.wrapping_add(report.x);
        self.y = self.y.wrapping_add(report.y);
    }

    /// An absolute report puts the pointer where it says.
    pub fn process_absolute_report(&mut self, report: MouseReport)
        ensures
            final(self).prev_buttons == old(self).current_buttons,
            final(self).current_buttons == report.buttons,
            final(self).x == report.x,
            final(self).y == report.y,
            final(self).wheel == old(self).wheel,
            final(self).max_x == old(self).max_x,
            final(self).max_y == old(self).max_y,
    {
        self.prev_buttons = self.current_buttons;
        self.current_buttons = report.buttons;
        self.x = report.x;
        self.y = report.y;
    }
}

/// Pressing a modifier key and releasing it again leaves the other modifiers
/// as they were, and that key's bit clear.
pub proof fn lemma_modifier_press_release(modifier: u8, usage: u8)
    requires
        0xE0 <= usage <= 0xE7,
    ensures
        ({
            let press = KeyEvent(usage as u32);
            let release = KeyEvent((usage + 0x8000_0000int) as u32);
            let bit = (1u8 << ((usage - 0xE0) as u8)) as u8;
            HidManager::spec_modifier_after(HidManager::spec_modifier_after(modifier, press), release)
                == modifier & !bit
        }),
{
    let b = (usage - 0xE0) as u8;
    assert(((modifier | (1u8 << b)) & !(1u8 << b)) == modifier & !(1u8 << b)) by (bit_vector);
}


/// No modifier means neither shift nor control; the two flips of a character's
/// bits stay in the ranges that the layouts use them on.
proof fn lemma_key_bits()
    by (bit_vector)
    ensures
        !Modifier::spec_has_shift(0),
        !Modifier::spec_has_ctrl(0),
        forall|x: u8| 0x20 < x < 0x40 ==> 0x20 <= #[trigger] (x ^ 0x10u8) < 0x40,
        forall|x: u8| 0x61 <= x <= 0x7A ==> #[trigger] (x ^ 0x20u8) == x - 0x20,
{
}

/// On the Japanese layout, shift moves every symbol key whose character lies
/// between `' '` and `'@'` (other than `'0'`) by 0x10: `1` and `!`, `;` and
/// `+`, `:` and `*`; control leaves those characters alone.
pub proof fn lemma_109_shift_moves_symbols(usage: u8, m: u8)
    requires
        0x1E <= usage <= 0x38,
        Modifier::spec_has_shift(m),
        0x20 < (spec_usage_to_char_109(usage, 0) as u32) < 0x40,
        spec_usage_to_char_109(usage, 0) != '0',
    ensures
        spec_usage_to_char_109(usage, m) == ((spec_usage_to_char_109(usage, 0) as u8) ^ 0x10u8) as char,
{
    let c = non_alphabet_109()[usage - 0x1E];
    lemma_key_bits();
    assert((c as u8) as char == c);
}

/// The number keys of both layouts give their digits without shift: usages
/// 0x1E to 0x26 are `1` to `9`, and 0x27 is `0`.
pub proof fn lemma_digits(usage: u8)
    requires
        0x1E <= usage <= 0x27,
    ensures
        spec_usage_to_char_109(usage, 0) == (if usage == 0x27 { '0' } else { (usage - 0x1E + 0x31) as u8 as char }),
        spec_usage_to_char_101(usage, 0) == (if usage == 0x27 { '0' } else { (usage - 0x1E + 0x31) as u8 as char }),
{
    lemma_key_bits();
    let i = usage - 0x1E;
    assert(non_alphabet_109()[i] == non_alphabet_101()[i]);
}

/// The letter keys give their letters in alphabetical order from `a` at 0x04,
/// in capitals with shift and without control, on both layouts.
pub proof fn lemma_letters(usage: u8, m: u8)
    requires
        0x04 <= usage <= 0x1D,
        !Modifier::spec_has_ctrl(m),
    ensures
        spec_usage_to_char_109(usage, m) as int == (if Modifier::spec_has_shift(m) { 'A' as int } else { 'a' as int })
            + (usage - 0x04),
        spec_usage_to_char_101(usage, m) as int == (if Modifier::spec_has_shift(m) { 'A' as int } else { 'a' as int })
            + (usage - 0x04),
{
    let c = (usage - 0x04 + 0x61) as u8;
    assert(0x61 <= c <= 0x7A);
    lemma_key_bits();
}


/// The keypad digit keys give their digits whatever the modifiers, on both
/// layouts: usages 0x59 to 0x61 are `1` to `9`, and 0x62 is `0`.
pub proof fn lemma_keypad_digits(usage: u8, m: u8)
    requires
        0x59 <= usage <= 0x62,
    ensures
        spec_usage_to_char_109(usage, m) == (if usage == 0x62 { '0' } else { (usage - 0x59 + 0x31) as u8 as char }),
        spec_usage_to_char_101(usage, m) == (if usage == 0x62 { '0' } else { (usage - 0x59 + 0x31) as u8 as char }),
{
}

} // verus!
