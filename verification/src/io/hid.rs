//! Keyboard events: their encoding, and the events that a boot keyboard report
//! gives against the report before it.

use vstd::prelude::*;
use crate::bits::lemma_byte_bits;

verus! {

/// The usage that reports no key.
pub const USAGE_NONE: u8 = 0x00;
/// The usage that reports too many keys at once.
pub const USAGE_ERR_ROLL_OVER: u8 = 0x01;
/// The first modifier key (left control).
pub const USAGE_MOD_MIN: u8 = 0xE0;
/// The last modifier key (right GUI).
pub const USAGE_MOD_MAX: u8 = 0xE7;

/// The flags of a key event.
#[derive(Debug, Clone, Copy, PartialEq, Eq, Structural)]
pub struct KeyEventFlags(pub u8);

impl KeyEventFlags {
    /// The key was released.
    pub const BREAK: u8 = 0b1000_0000;

    pub fn bits(&self) -> (r: u8)
        ensures
            r == self.0,
    {
        self.0
    }

    pub fn empty() -> (r: Self)
        ensures
            r.0 == 0,
    {
        KeyEventFlags(0)
    }

    pub fn from_bits_retain(val: u8) -> (r: Self)
        ensures
            r.0 == val,
    {
        KeyEventFlags(val)
    }

    pub fn contains(&self, other: Self) -> (r: bool)
        ensures
            r == (self.0 & other.0 == other.0),
    {
        (self.0 & other.0) == other.0
    }
}

/// A key event: the usage in bits 0-7, the modifiers in bits 16-23, the flags in bits
/// 24-31.
#[derive(Debug, Clone, Copy, PartialEq, Eq, Structural)]
pub struct KeyEvent(pub u32);

impl KeyEvent {
    /// The event of a key with its modifiers and flags.
    pub fn new(usage: u8, modifier: u8, flags: KeyEventFlags) -> (r: Self)
        ensures
            r.0 == usage + modifier * 0x1_0000 + flags.0 * 0x100_0000,
    {
        let u = usage as u32;
        let m = modifier as u32;
        let f = flags.bits() as u32;
        proof {
            assert(u | (m << 16u32) | (f << 24u32) == u + m * 0x1_0000 + f * 0x100_0000) by (bit_vector)
                requires
                    u < 0x100,
                    m < 0x100,
                    f < 0x100,
            ;
        }
        KeyEvent(u | (m << 16u32) | (f << 24u32))
    }

    pub fn usage(self) -> (r: u8)
        ensures
            r == self.0 % 0x100,
    {
        (self.0 % 0x100) as u8
    }

    pub fn modifier(self) -> (r: u8)
        ensures
            r == (self.0 / 0x1_0000) % 0x100,
    {
        ((self.0 / 0x1_0000) % 0x100) as u8
    }

    pub fn flags(self) -> (r: KeyEventFlags)
        ensures
            r.0 == (self.0 / 0x100_0000) % 0x100,
    {
        KeyEventFlags(((self.0 / 0x100_0000) % 0x100) as u8)
    }

    pub fn is_break(&self) -> (r: bool)
        ensures
            r == ((self.0 / 0x100_0000) % 0x100 >= 0x80),
    {
        let f = self.flags();
        proof {
            lemma_byte_bits();
        }
        f.contains(KeyEventFlags(KeyEventFlags::BREAK))
    }

    pub fn is_make(&self) -> (r: bool)
        ensures
            r == ((self.0 / 0x100_0000) % 0x100 < 0x80),
    {
        !self.is_break()
    }

    /// The event, when it is the press of a key that is neither a modifier nor none.
    pub fn key_data(self) -> (r: Option<Self>)
        ensures
            r == if self.0 % 0x100 != 0 && !(0xE0 <= self.0 % 0x100 <= 0xE7)
                && (self.0 / 0x100_0000) % 0x100 < 0x80 {
                Some(self)
            } else {
                None
            },
    {
        let usage = self.usage();
        if usage != USAGE_NONE && !(usage >= USAGE_MOD_MIN && usage <= USAGE_MOD_MAX) && !self.is_break() {
            Some(self)
        } else {
            None
        }
    }
}

/// A boot keyboard report: the modifier keys, and up to six keys.
#[derive(Debug, Clone, Copy)]
pub struct KeyReportRaw {
    pub modifier: u8,
    pub reserved: u8,
    pub keydata: [u8; 6],
}

impl KeyReportRaw {
    pub fn empty() -> (r: Self)
        ensures
            r.modifier == 0,
            r.reserved == 0,
            forall|i: int| 0 <= i < 6 ==> r.keydata@[i] == 0,
    {
        KeyReportRaw { modifier: 0, reserved: 0, keydata: [0u8; 6] }
    }

    /// Reads a report from its eight bytes.
    pub fn from_bytes(bytes: &[u8]) -> (r: Self)
        requires
            bytes@.len() >= 8,
        ensures
            r.modifier == bytes@[0],
            r.reserved == bytes@[1],
            forall|i: int| 0 <= i < 6 ==> r.keydata@[i] == bytes@[i + 2],
    {
        KeyReportRaw {
            modifier: bytes[0],
            reserved: bytes[1],
            keydata: [bytes[2], bytes[3], bytes[4], bytes[5], bytes[6], bytes[7]],
        }
    }
}

/// Whether a key of a report stands for a key (not none, not a roll-over error).
pub open spec fn is_key(u: u8) -> bool {
    u != 0x00 && u != 0x01
}

/// The events of the modifier keys 0 up to `n` (left control first): those released
/// (`released`) or those pressed between the modifier bytes `prev` and `cur`.
pub open spec fn mod_events(prev: u8, cur: u8, n: nat, released: bool) -> Seq<KeyEvent>
    decreases n,
{
    if n == 0 {
        Seq::empty()
    } else {
        let i = (n - 1) as nat;
        let bit = 1u8 << (i as u8);
        let hit = if released {
            cur & bit == 0 && prev & bit != 0
        } else {
            cur & bit != 0 && prev & bit == 0
        };
        mod_events(prev, cur, i, released) + if hit {
            seq![KeyEvent((0xE0 + i + if released { 0x8000_0000int } else { 0 }) as u32)]
        } else {
            Seq::empty()
        }
    }
}

/// The events of the first `n` keys of `from` that stand for a key and are missing
/// from `other`: releases (`released`) or presses.
pub open spec fn key_events(from: Seq<u8>, other: Seq<u8>, n: nat, released: bool) -> Seq<KeyEvent>
    decreases n,
{
    if n == 0 {
        Seq::empty()
    } else {
        let i = (n - 1) as nat;
        let u = from[i as int];
        key_events(from, other, i, released) + if is_key(u) && !other.contains(u) {
            seq![KeyEvent((u + if released { 0x8000_0000int } else { 0 }) as u32)]
        } else {
            Seq::empty()
        }
    }
}

/// The events that a report gives against the one before, in this order: modifier
/// keys released, modifier keys pressed (left control up to right alt; right GUI is not
/// looked at), keys released, keys pressed.
pub open spec fn spec_report_events(prev: KeyReportRaw, current: KeyReportRaw) -> Seq<KeyEvent> {
    mod_events(prev.modifier, current.modifier, 7, true) + mod_events(prev.modifier, current.modifier, 7, false)
        + key_events(prev.keydata@, current.keydata@, 6, true) + key_events(current.keydata@, prev.keydata@, 6, false)
}

/// The keyboard's last two reports.
pub struct KeyboardState {
    pub current: KeyReportRaw,
    pub prev: KeyReportRaw,
}

impl KeyboardState {
    pub fn new() -> (r: Self)
        ensures
            r.current.modifier == 0,
            r.current.reserved == 0,
            forall|i: int| 0 <= i < 6 ==> r.current.keydata@[i] == 0,
            r.prev.modifier == 0,
            r.prev.reserved == 0,
            forall|i: int| 0 <= i < 6 ==> r.prev.keydata@[i] == 0,
    {
        KeyboardState { current: KeyReportRaw::empty(), prev: KeyReportRaw::empty() }
    }

    fn contains(keys: &[u8; 6], usage: u8) -> (r: bool)
        ensures
            r == keys@.contains(usage),
    {
        let mut i: usize = 0;
        while i < 6
            invariant
                i <= 6,
                keys@.len() == 6,
                forall|j: int| 0 <= j < i ==> keys@[j] != usage,
            decreases 6 - i,
        {
            if keys[i] == usage {
                return true;
            }
            i += 1;
        }
        false
    }

    /// Appends the events of the modifier keys.
    fn push_mod_events(events: &mut Vec<KeyEvent>, prev: u8, cur: u8, released: bool)
        ensures
            final(events)@ == old(events)@ + mod_events(prev, cur, 7, released),
    {
        let mut m: u8 = 0;
        let ghost start = events@;
        while m < 7
            invariant
                m <= 7,
                events@ == start + mod_events(prev, cur, m as nat, released),
            decreases 7 - m,
        {
            let bit = 1u8 << m;
            let hit = if released {
                (cur & bit) == 0 && (prev & bit) != 0
            } else {
                (cur & bit) != 0 && (prev & bit) == 0
            };
            let ghost before = events@;
            if hit {
                let flags = if released {
                    KeyEventFlags(KeyEventFlags::BREAK)
                } else {
                    KeyEventFlags::empty()
                };
                events.push(KeyEvent::new(USAGE_MOD_MIN + m, 0, flags));
            }
            proof {
                let n = (m + 1) as nat;
                assert(mod_events(prev, cur, n, released) == mod_events(prev, cur, m as nat, released) + if hit {
                    seq![KeyEvent((0xE0 + m + if released { 0x8000_0000int } else { 0 }) as u32)]
                } else {
                    Seq::<KeyEvent>::empty()
                });
                if hit {
                    assert(events@ =~= start + mod_events(prev, cur, n, released));
                } else {
                    assert(events@ =~= start + mod_events(prev, cur, n, released));
                }
            }
            m += 1;
        }
    }

    /// Appends the events of the keys of `from` that are missing from `other`.
    fn push_key_events(events: &mut Vec<KeyEvent>, from: &[u8; 6], other: &[u8; 6], released: bool)
        ensures
            final(events)@ == old(events)@ + key_events(from@, other@, 6, released),
    {
        let mut i: usize = 0;
        let ghost start = events@;
        while i < 6
            invariant
                i <= 6,
                from@.len() == 6,
                events@ == start + key_events(from@, other@, i as nat, released),
            decreases 6 - i,
        {
            let u = from[i];
            let hit = u != USAGE_NONE && u != USAGE_ERR_ROLL_OVER && !Self::contains(other, u);
            if hit {
                let flags = if released {
                    KeyEventFlags(KeyEventFlags::BREAK)
                } else {
                    KeyEventFlags::empty()
                };
                events.push(KeyEvent::new(u, 0, flags));
            }
            proof {
                let n = (i + 1) as nat;
                assert(from@[i as int] == u);
                if hit {
                    assert(events@ =~= start + key_events(from@, other@, n, released));
                } else {
                    assert(events@ =~= start + key_events(from@, other@, n, released));
                }
            }
            i += 1;
        }
    }

    /// Takes a new report and gives the key events that it makes against the last one.
    pub fn process_report(&mut self, report: KeyReportRaw) -> (r: Vec<KeyEvent>)
        ensures
            final(self).prev == old(self).current,
            final(self).current == report,
            r@ == spec_report_events(old(self).current, report),
    {
        self.prev = self.current;
        self.current = report;
        let prev = self.prev;
        let current = self.current;
        let mut events: Vec<KeyEvent> = Vec::new();
        Self::push_mod_events(&mut events, prev.modifier, current.modifier, true);
        Self::push_mod_events(&mut events, prev.modifier, current.modifier, false);
        Self::push_key_events(&mut events, &prev.keydata, &current.keydata, true);
        Self::push_key_events(&mut events, &current.keydata, &prev.keydata, false);
        proof {
            assert(events@ =~= spec_report_events(prev, current));
        }
        events
    }
}


/// The buttons of a game controller, by their bit in the button map.
#[derive(Debug, Clone, Copy, PartialEq, Eq, PartialOrd, Ord, Structural)]
pub enum GameInputButtonType {
    DpadUp,
    DpadDown,
    DpadLeft,
    DpadRight,
    Start,
    Select,
    ThumbL,
    ThumbR,
    LButton,
    RButton,
    Menu,
    Reserved,
    A,
    B,
    X,
    Y,
}

impl GameInputButtonType {
    pub open spec fn spec_bit(&self) -> u16 {
        match *self {
            GameInputButtonType::DpadUp => 0,
            GameInputButtonType::DpadDown => 1,
            GameInputButtonType::DpadLeft => 2,
            GameInputButtonType::DpadRight => 3,
            GameInputButtonType::Start => 4,
            GameInputButtonType::Select => 5,
            GameInputButtonType::ThumbL => 6,
            GameInputButtonType::ThumbR => 7,
            GameInputButtonType::LButton => 8,
            GameInputButtonType::RButton => 9,
            GameInputButtonType::Menu => 10,
            GameInputButtonType::Reserved => 11,
            GameInputButtonType::A => 12,
            GameInputButtonType::B => 13,
            GameInputButtonType::X => 14,
            GameInputButtonType::Y => 15,
        }
    }

    pub fn bit(&self) -> (r: u16)
        ensures
            r == self.spec_bit(),
    {
        match *self {
            GameInputButtonType::DpadUp => 0,
            GameInputButtonType::DpadDown => 1,
            GameInputButtonType::DpadLeft => 2,
            GameInputButtonType::DpadRight => 3,
            GameInputButtonType::Start => 4,
            GameInputButtonType::Select => 5,
            GameInputButtonType::ThumbL => 6,
            GameInputButtonType::ThumbR => 7,
            GameInputButtonType::LButton => 8,
            GameInputButtonType::RButton => 9,
            GameInputButtonType::Menu => 10,
            GameInputButtonType::Reserved => 11,
            GameInputButtonType::A => 12,
            GameInputButtonType::B => 13,
            GameInputButtonType::X => 14,
            GameInputButtonType::Y => 15,
        }
    }
}

/// The state of a game controller: the button map, the triggers and the sticks.
#[derive(Debug, Clone, Copy, PartialEq, Eq, Default, Structural)]
pub struct GameInput {
    pub bitmap: u16,
    pub lt: u8,
    pub rt: u8,
    pub x1: u16,
    pub y1: u16,
    pub x2: u16,
    pub y2: u16,
}

impl GameInput {
    pub fn empty() -> (r: Self)
        ensures
            r == (GameInput { bitmap: 0, lt: 0, rt: 0, x1: 0, y1: 0, x2: 0, y2: 0 }),
    {
        GameInput { bitmap: 0, lt: 0, rt: 0, x1: 0, y1: 0, x2: 0, y2: 0 }
    }

    pub fn buttons(&self) -> (r: u16)
        ensures
            r == self.bitmap,
    {
        self.bitmap
    }

    pub fn copy_from(&mut self, other: &Self)
        ensures
            *final(self) == *other,
    {
        *self = *other;
    }

    /// The state that twelve bytes hold, little-endian.
    pub open spec fn spec_from_bytes(b: Seq<u8>) -> Self {
        GameInput {
            bitmap: (b[0] + b[1] * 0x100) as u16,
            lt: b[2],
            rt: b[3],
            x1: (b[4] + b[5] * 0x100) as u16,
            y1: (b[6] + b[7] * 0x100) as u16,
            x2: (b[8] + b[9] * 0x100) as u16,
            y2: (b[10] + b[11] * 0x100) as u16,
        }
    }

    /// Reads the state from the twelve bytes at `at`.
    pub fn from_bytes(buf: &[u8], at: usize) -> (r: Self)
        requires
            at + 12 <= buf@.len(),
        ensures
            r == Self::spec_from_bytes(buf@.subrange(at as int, at + 12)),
    {
        GameInput {
            bitmap: buf[at] as u16 + buf[at + 1] as u16 * 0x100,
            lt: buf[at + 2],
            rt: buf[at + 3],
            x1: buf[at + 4] as u16 + buf[at + 5] as u16 * 0x100,
            y1: buf[at + 6] as u16 + buf[at + 7] as u16 * 0x100,
            x2: buf[at + 8] as u16 + buf[at + 9] as u16 * 0x100,
            y2: buf[at + 10] as u16 + buf[at + 11] as u16 * 0x100,
        }
    }
}

/// The controller button that a keyboard key stands for, if any.
pub open spec fn spec_button_of_key(usage: u8) -> Option<GameInputButtonType> {
    if usage == 0x5A || usage == 0x51 || usage == 0x16 {
        Some(GameInputButtonType::DpadDown)
    } else if usage == 0x5C || usage == 0x50 || usage == 0x04 {
        Some(GameInputButtonType::DpadLeft)
    } else if usage == 0x5E || usage == 0x4F || usage == 0x07 {
        Some(GameInputButtonType::DpadRight)
    } else if usage == 0x60 || usage == 0x52 || usage == 0x1A {
        Some(GameInputButtonType::DpadUp)
    } else if usage == 0x29 {
        Some(GameInputButtonType::Menu)
    } else if usage == 0x28 || usage == 0x06 {
        Some(GameInputButtonType::Start)
    } else if usage == 0x2C {
        Some(GameInputButtonType::Select)
    } else if usage == 0x1D || usage == 0xE1 || usage == 0xE5 {
        Some(GameInputButtonType::A)
    } else if usage == 0x1B || usage == 0xE0 || usage == 0xE4 {
        Some(GameInputButtonType::B)
    } else {
        None
    }
}

/// The controller button that a keyboard key stands for: the numeric pad, the arrows
/// and W A S D for the pad, Escape for the menu, Enter and C for start, Space for
/// select, Z and the shifts for A, X and the controls for B.
pub fn button_of_key(usage: u8) -> (r: Option<GameInputButtonType>)
    ensures
        r == spec_button_of_key(usage),
{
    match usage {
        0x5A | 0x51 | 0x16 => Some(GameInputButtonType::DpadDown),
        0x5C | 0x50 | 0x04 => Some(GameInputButtonType::DpadLeft),
        0x5E | 0x4F | 0x07 => Some(GameInputButtonType::DpadRight),
        0x60 | 0x52 | 0x1A => Some(GameInputButtonType::DpadUp),
        0x29 => Some(GameInputButtonType::Menu),
        0x28 | 0x06 => Some(GameInputButtonType::Start),
        0x2C => Some(GameInputButtonType::Select),
        0x1D | 0xE1 | 0xE5 => Some(GameInputButtonType::A),
        0x1B | 0xE0 | 0xE4 => Some(GameInputButtonType::B),
        _ => None,
    }
}

/// The simulated controller after a key event: the button that the key stands for is
/// pressed on a make and released on a break; other keys change nothing.
pub fn send_key(input: &mut GameInput, event: KeyEvent)
    ensures
        match spec_button_of_key((event.0 % 0x100) as u8) {
            None => *final(input) == *old(input),
            Some(b) => *final(input) == (GameInput {
                bitmap: if (event.0 / 0x100_0000) % 0x100 >= 0x80 {
                    old(input).bitmap & !((1u16 << b.spec_bit()) as u16)
                } else {
                    old(input).bitmap | ((1u16 << b.spec_bit()) as u16)
                },
                ..*old(input)
            }),
        },
{
    match button_of_key(event.usage()) {
        Some(b) => {
            let position: u16 = 1u16 << b.bit();
            if event.is_break() {
                input.bitmap = input.bitmap & !position;
            } else {
                input.bitmap = input.bitmap | position;
            }
        },
        None => {},
    }
}

} // verus!
