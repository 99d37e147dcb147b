//! PS/2 keyboard and mouse: the decoding of the bytes that the controller delivers.
//! Reading the ports and posting the events is left to the caller.

use vstd::prelude::*;
use crate::bits::lemma_byte_bits;

verus! {

/// A byte read from or written to the data port.
#[derive(Debug, Clone, Copy, PartialEq, Eq, Structural)]
pub struct Ps2Data(pub u8);

impl Ps2Data {
    pub const ACK: u8 = 0xFA;
    pub const NAK: u8 = 0xFE;
    pub const ECHO: u8 = 0xEE;
    pub const RESET_COMMAND: u8 = 0xFF;
    pub const ENABLE_SEND: u8 = 0xF4;
    pub const DISABLE_SEND: u8 = 0xF5;
    pub const SET_DEFAULT: u8 = 0xF6;
    pub const SCAN_E0: u8 = 0xE0;

    /// Whether the byte reports a key release.
    pub fn is_break(self) -> (r: bool)
        ensures
            r == (self.0 >= 0x80),
    {
        proof {
            lemma_byte_bits();
            assert((self.0 & 0x80) != 0 <==> self.0 >= 0x80);
        }
        (self.0 & 0x80) != 0
    }

    /// The scan code without the release bit.
    pub fn scancode(self) -> (r: u8)
        ensures
            r == self.0 % 0x80,
    {
        proof {
            lemma_byte_bits();
            assert(self.0 & 0x7F == self.0 % 0x80);
        }
        self.0 & 0x7F
    }
}

impl From<u8> for Ps2Data {
    fn from(value: u8) -> (r: Self) {
        Self(value)
    }
}

impl vstd::std_specs::convert::FromSpecImpl<u8> for Ps2Data {
    open spec fn obeys_from_spec() -> bool {
        true
    }

    open spec fn from_spec(v: u8) -> Self {
        Ps2Data(v)
    }
}

impl From<Ps2Data> for u8 {
    fn from(value: Ps2Data) -> (r: u8) {
        value.0
    }
}

impl vstd::std_specs::convert::FromSpecImpl<Ps2Data> for u8 {
    open spec fn obeys_from_spec() -> bool {
        true
    }

    open spec fn from_spec(v: Ps2Data) -> u8 {
        v.0
    }
}

/// A command to the controller.
#[derive(Debug, Clone, Copy, PartialEq, Eq, Structural)]
pub struct Ps2Command(pub u8);

impl Ps2Command {
    pub const WRITE_CONFIG: u8 = 0x60;
    pub const DISABLE_SECOND_PORT: u8 = 0xA7;
    pub const ENABLE_SECOND_PORT: u8 = 0xA8;
    pub const DISABLE_FIRST_PORT: u8 = 0xAD;
    pub const ENABLE_FIRST_PORT: u8 = 0xAE;
    pub const WRITE_SECOND_PORT: u8 = 0xD4;
}

/// Why talking to the controller failed.
#[derive(Debug, Clone, Copy, PartialEq, Eq, Structural)]
pub enum Ps2Error {
    Unsupported,
    Timeout,
}

/// The status register of the controller.
#[derive(Debug, Clone, Copy, PartialEq, Eq, Structural)]
pub struct Ps2Status(pub u8);

impl Ps2Status {
    pub const OUTPUT_FULL: u8 = 0b0000_0001;
    pub const INPUT_FULL: u8 = 0b0000_0010;
    pub const SYSTEM_FLAG: u8 = 0b0000_0100;
    pub const COMMAND: u8 = 0b0000_1000;
    pub const TIMEOUT_ERROR: u8 = 0b0100_0000;
    pub const PARITY_ERROR: u8 = 0b1000_0000;

    pub fn bits(&self) -> (r: u8)
        ensures
            r == self.0,
    {
        self.0
    }

    pub fn from_bits_retain(bits: u8) -> (r: Self)
        ensures
            r.0 == bits,
    {
        Self(bits)
    }

    pub fn empty() -> (r: Self)
        ensures
            r.0 == 0,
    {
        Self(0)
    }

    pub fn is_empty(&self) -> (r: bool)
        ensures
            r == (self.0 == 0),
    {
        self.0 == 0
    }

    pub fn contains(&self, other: Self) -> (r: bool)
        ensures
            r == (self.0 & other.0 == other.0),
    {
        self.0 & other.0 == other.0
    }

    pub fn union(self, other: Self) -> (r: Self)
        ensures
            r.0 == self.0 | other.0,
    {
        Self(self.0 | other.0)
    }

    pub fn intersection(self, other: Self) -> (r: Self)
        ensures
            r.0 == self.0 & other.0,
    {
        Self(self.0 & other.0)
    }

    pub fn difference(self, other: Self) -> (r: Self)
        ensures
            r.0 == self.0 & !other.0,
    {
        Self(self.0 & !other.0)
    }
}


/// The first byte of a mouse packet.
#[derive(Debug, Clone, Copy, PartialEq, Eq, Structural)]
pub struct MouseLeadByte(pub u8);

impl MouseLeadByte {
    pub const LEFT_BUTTON: u8 = 0b0000_0001;
    pub const RIGHT_BUTTON: u8 = 0b0000_0010;
    pub const MIDDLE_BUTTON: u8 = 0b0000_0100;
    pub const ALWAYS_ONE: u8 = 0b0000_1000;
    pub const X_SIGN: u8 = 0b0001_0000;
    pub const Y_SIGN: u8 = 0b0010_0000;
    pub const X_OVERFLOW: u8 = 0b0100_0000;
    pub const Y_OVERFLOW: u8 = 0b1000_0000;
    /// The three buttons.
    pub const BUTTONS: u8 = 0b0000_0111;

    pub fn bits(&self) -> (r: u8)
        ensures
            r == self.0,
    {
        self.0
    }

    pub fn from_bits_retain(bits: u8) -> (r: Self)
        ensures
            r.0 == bits,
    {
        Self(bits)
    }

    pub fn empty() -> (r: Self)
        ensures
            r.0 == 0,
    {
        Self(0)
    }

    pub fn is_empty(&self) -> (r: bool)
        ensures
            r == (self.0 == 0),
    {
        self.0 == 0
    }

    pub fn contains(&self, other: Self) -> (r: bool)
        ensures
            r == (self.0 & other.0 == other.0),
    {
        self.0 & other.0 == other.0
    }

    pub fn union(self, other: Self) -> (r: Self)
        ensures
            r.0 == self.0 | other.0,
    {
        Self(self.0 | other.0)
    }

    pub fn intersection(self, other: Self) -> (r: Self)
        ensures
            r.0 == self.0 & other.0,
    {
        Self(self.0 & other.0)
    }

    pub fn difference(self, other: Self) -> (r: Self)
        ensures
            r.0 == self.0 & !other.0,
    {
        Self(self.0 & !other.0)
    }
}


impl MouseLeadByte {
    /// A lead byte has its always-one bit set and no overflow.
    pub fn is_valid(self) -> (r: bool)
        ensures
            r == (self.0 & 0x08 == 0x08 && self.0 & 0x40 != 0x40 && self.0 & 0x80 != 0x80),
    {
        self.contains(Self(Self::ALWAYS_ONE)) && !self.contains(Self(Self::X_OVERFLOW))
            && !self.contains(Self(Self::Y_OVERFLOW))
    }

    /// The buttons that the packet reports pressed.
    pub fn buttons(self) -> (r: u8)
        ensures
            r == self.0 & 0x07,
    {
        self.0 & Self::BUTTONS
    }
}

impl From<Ps2Data> for MouseLeadByte {
    fn from(data: Ps2Data) -> (r: Self) {
        MouseLeadByte(data.0)
    }
}

impl vstd::std_specs::convert::FromSpecImpl<Ps2Data> for MouseLeadByte {
    open spec fn obeys_from_spec() -> bool {
        true
    }

    open spec fn from_spec(v: Ps2Data) -> Self {
        MouseLeadByte(v.0)
    }
}

/// Where the keyboard decoder stands.
#[derive(Debug, Clone, Copy, PartialEq, Eq, Structural)]
pub enum Ps2KeyState {
    Default,
    /// The last byte was the 0xE0 prefix.
    PrefixE0,
}

impl Ps2KeyState {
    /// The numeric code of each variant.
    pub open spec fn spec_code(self) -> u8 {
        match self {
            Ps2KeyState::Default => 0,
            Ps2KeyState::PrefixE0 => 1,
        }
    }

    /// The variant with code `v`, if there is one.
    pub open spec fn spec_from_code(v: u8) -> Option<Self> {
        if v == 0 {
            Some(Ps2KeyState::Default)
        } else if v == 1 {
            Some(Ps2KeyState::PrefixE0)
        } else {
            None
        }
    }

    pub fn code(&self) -> (r: u8)
        ensures
            r == self.spec_code(),
    {
        match self {
            Ps2KeyState::Default => 0,
            Ps2KeyState::PrefixE0 => 1,
        }
    }

    /// Converts a code to its variant. Other codes have no variant.
    pub fn from_code(v: u8) -> (r: Option<Self>)
        ensures
            r == Self::spec_from_code(v),
    {
        if v == 0 {
            Some(Ps2KeyState::Default)
        } else if v == 1 {
            Some(Ps2KeyState::PrefixE0)
        } else {
            None
        }
    }
}

/// Which byte of a mouse packet comes next.
#[derive(Debug, Clone, Copy, PartialEq, Eq, Structural)]
pub enum Ps2MousePhase {
    /// Waiting for the acknowledgement of the enable command.
    Ack,
    /// Waiting for the lead byte of a packet.
    Leading,
    /// Waiting for the X movement.
    X,
    /// Waiting for the Y movement.
    Y,
}

impl Ps2MousePhase {
    /// The numeric code of each variant.
    pub open spec fn spec_code(self) -> u8 {
        match self {
            Ps2MousePhase::Ack => 0,
            Ps2MousePhase::Leading => 1,
            Ps2MousePhase::X => 2,
            Ps2MousePhase::Y => 3,
        }
    }

    /// The variant with code `v`, if there is one.
    pub open spec fn spec_from_code(v: u8) -> Option<Self> {
        if v == 0 {
            Some(Ps2MousePhase::Ack)
        } else if v == 1 {
            Some(Ps2MousePhase::Leading)
        } else if v == 2 {
            Some(Ps2MousePhase::X)
        } else if v == 3 {
            Some(Ps2MousePhase::Y)
        } else {
            None
        }
    }

    pub fn code(&self) -> (r: u8)
        ensures
            r == self.spec_code(),
    {
        match self {
            Ps2MousePhase::Ack => 0,
            Ps2MousePhase::Leading => 1,
            Ps2MousePhase::X => 2,
            Ps2MousePhase::Y => 3,
        }
    }

    /// Converts a code to its variant. Other codes have no variant.
    pub fn from_code(v: u8) -> (r: Option<Self>)
        ensures
            r == Self::spec_from_code(v),
    {
        if v == 0 {
            Some(Ps2MousePhase::Ack)
        } else if v == 1 {
            Some(Ps2MousePhase::Leading)
        } else if v == 2 {
            Some(Ps2MousePhase::X)
        } else if v == 3 {
            Some(Ps2MousePhase::Y)
        } else {
            None
        }
    }
}

impl Ps2MousePhase {
    pub open spec fn spec_next(self) -> Self {
        match self {
            Ps2MousePhase::Ack => Ps2MousePhase::Leading,
            Ps2MousePhase::Leading => Ps2MousePhase::X,
            Ps2MousePhase::X => Ps2MousePhase::Y,
            Ps2MousePhase::Y => Ps2MousePhase::Leading,
        }
    }

    /// The phase after this one: a packet is lead byte, X, Y, and so on.
    pub fn next(&self) -> (r: Self)
        ensures
            r == self.spec_next(),
    {
        match *self {
            Ps2MousePhase::Ack => Ps2MousePhase::Leading,
            Ps2MousePhase::Leading => Ps2MousePhase::X,
            Ps2MousePhase::X => Ps2MousePhase::Y,
            Ps2MousePhase::Y => Ps2MousePhase::Leading,
        }
    }
}

/// The HID usage of a PS/2 scan code (bit 7: the code followed the 0xE0 prefix).
pub open spec fn spec_ps2_to_hid(scancode: u8) -> u8 {
    match scancode {
        0x01 => 0x29,
        0x02 => 0x1E,
        0x03 => 0x1F,
        0x04 => 0x20,
        0x05 => 0x21,
        0x06 => 0x22,
        0x07 => 0x23,
        0x08 => 0x24,
        0x09 => 0x25,
        0x0A => 0x26,
        0x0B => 0x27,
        0x0C => 0x2D,
        0x0D => 0x2E,
        0x0E => 0x2A,
        0x0F => 0x2B,
        0x10 => 0x14,
        0x11 => 0x1A,
        0x12 => 0x08,
        0x13 => 0x15,
        0x14 => 0x17,
        0x15 => 0x1C,
        0x16 => 0x18,
        0x17 => 0x0C,
        0x18 => 0x12,
        0x19 => 0x13,
        0x1A => 0x2F,
        0x1B => 0x30,
        0x1C => 0x28,
        0x1D => 0xE0,
        0x1E => 0x04,
        0x1F => 0x16,
        0x20 => 0x07,
        0x21 => 0x09,
        0x22 => 0x0A,
        0x23 => 0x0B,
        0x24 => 0x0D,
        0x25 => 0x0E,
        0x26 => 0x0F,
        0x27 => 0x33,
        0x28 => 0x34,
        0x29 => 0x35,
        0x2A => 0xE1,
        0x2B => 0x31,
        0x2C => 0x1D,
        0x2D => 0x1B,
        0x2E => 0x06,
        0x2F => 0x19,
        0x30 => 0x05,
        0x31 => 0x11,
        0x32 => 0x10,
        0x33 => 0x36,
        0x34 => 0x37,
        0x35 => 0x38,
        0x36 => 0xE5,
        0x37 => 0x55,
        0x38 => 0xE2,
        0x39 => 0x2C,
        0x3A => 0x39,
        0x3B => 0x3A,
        0x3C => 0x3B,
        0x3D => 0x3C,
        0x3E => 0x3D,
        0x3F => 0x3E,
        0x40 => 0x3F,
        0x41 => 0x40,
        0x42 => 0x41,
        0x43 => 0x42,
        0x44 => 0x43,
        0x45 => 0x53,
        0x46 => 0x47,
        0x47 => 0x5F,
        0x48 => 0x60,
        0x49 => 0x61,
        0x4A => 0x56,
        0x4B => 0x5C,
        0x4C => 0x5D,
        0x4D => 0x5E,
        0x4E => 0x57,
        0x4F => 0x59,
        0x50 => 0x5A,
        0x51 => 0x5B,
        0x52 => 0x62,
        0x53 => 0x63,
        0x57 => 0x44,
        0x58 => 0x45,
        0x70 => 0x88,
        0x73 => 0x87,
        0x79 => 0x8A,
        0x7B => 0x8B,
        0x7D => 0x89,
        0x9C => 0x58,
        0x9D => 0xE4,
        0xA0 => 0x7F,
        0xAE => 0x81,
        0xB0 => 0x80,
        0xB5 => 0x54,
        0xB8 => 0xE6,
        0xC7 => 0x4A,
        0xC8 => 0x52,
        0xC9 => 0x4B,
        0xCB => 0x50,
        0xCD => 0x4F,
        0xCF => 0x4D,
        0xD0 => 0x51,
        0xD1 => 0x4E,
        0xD2 => 0x49,
        0xD3 => 0x4C,
        0xDB => 0xE3,
        0xDC => 0xE7,
        0xDD => 0x65,
        0xDE => 0x66,
        _ => 0,
    }
}

/// The HID usage of a PS/2 scan code (bit 7: the code followed the 0xE0 prefix).
pub fn ps2_to_hid(scancode: u8) -> (r: u8)
    ensures
        r == spec_ps2_to_hid(scancode),
{
    match scancode {
        0x01 => 0x29,
        0x02 => 0x1E,
        0x03 => 0x1F,
        0x04 => 0x20,
        0x05 => 0x21,
        0x06 => 0x22,
        0x07 => 0x23,
        0x08 => 0x24,
        0x09 => 0x25,
        0x0A => 0x26,
        0x0B => 0x27,
        0x0C => 0x2D,
        0x0D => 0x2E,
        0x0E => 0x2A,
        0x0F => 0x2B,
        0x10 => 0x14,
        0x11 => 0x1A,
        0x12 => 0x08,
        0x13 => 0x15,
        0x14 => 0x17,
        0x15 => 0x1C,
        0x16 => 0x18,
        0x17 => 0x0C,
        0x18 => 0x12,
        0x19 => 0x13,
        0x1A => 0x2F,
        0x1B => 0x30,
        0x1C => 0x28,
        0x1D => 0xE0,
        0x1E => 0x04,
        0x1F => 0x16,
        0x20 => 0x07,
        0x21 => 0x09,
        0x22 => 0x0A,
        0x23 => 0x0B,
        0x24 => 0x0D,
        0x25 => 0x0E,
        0x26 => 0x0F,
        0x27 => 0x33,
        0x28 => 0x34,
        0x29 => 0x35,
        0x2A => 0xE1,
        0x2B => 0x31,
        0x2C => 0x1D,
        0x2D => 0x1B,
        0x2E => 0x06,
        0x2F => 0x19,
        0x30 => 0x05,
        0x31 => 0x11,
        0x32 => 0x10,
        0x33 => 0x36,
        0x34 => 0x37,
        0x35 => 0x38,
        0x36 => 0xE5,
        0x37 => 0x55,
        0x38 => 0xE2,
        0x39 => 0x2C,
        0x3A => 0x39,
        0x3B => 0x3A,
        0x3C => 0x3B,
        0x3D => 0x3C,
        0x3E => 0x3D,
        0x3F => 0x3E,
        0x40 => 0x3F,
        0x41 => 0x40,
        0x42 => 0x41,
        0x43 => 0x42,
        0x44 => 0x43,
        0x45 => 0x53,
        0x46 => 0x47,
        0x47 => 0x5F,
        0x48 => 0x60,
        0x49 => 0x61,
        0x4A => 0x56,
        0x4B => 0x5C,
        0x4C => 0x5D,
        0x4D => 0x5E,
        0x4E => 0x57,
        0x4F => 0x59,
        0x50 => 0x5A,
        0x51 => 0x5B,
        0x52 => 0x62,
        0x53 => 0x63,
        0x57 => 0x44,
        0x58 => 0x45,
        0x70 => 0x88,
        0x73 => 0x87,
        0x79 => 0x8A,
        0x7B => 0x8B,
        0x7D => 0x89,
        0x9C => 0x58,
        0x9D => 0xE4,
        0xA0 => 0x7F,
        0xAE => 0x81,
        0xB0 => 0x80,
        0xB5 => 0x54,
        0xB8 => 0xE6,
        0xC7 => 0x4A,
        0xC8 => 0x52,
        0xC9 => 0x4B,
        0xCB => 0x50,
        0xCD => 0x4F,
        0xCF => 0x4D,
        0xD0 => 0x51,
        0xD1 => 0x4E,
        0xD2 => 0x49,
        0xD3 => 0x4C,
        0xDB => 0xE3,
        0xDC => 0xE7,
        0xDD => 0x65,
        0xDE => 0x66,
        _ => 0,
    }
}

/// A key event: the HID usage and whether the key was released.
#[derive(Debug, Clone, Copy, PartialEq, Eq, Structural)]
pub struct Ps2KeyEvent {
    pub usage: u8,
    pub is_break: bool,
}

/// A mouse packet: the buttons pressed and the movement, Y growing downwards.
#[derive(Debug, Clone, Copy, PartialEq, Eq, Structural)]
pub struct Ps2MouseReport {
    pub buttons: u8,
    pub x: i16,
    pub y: i16,
}

/// A movement byte with the sign bit of the lead byte.
pub open spec fn spec_movement(data: u8, sign: bool) -> int {
    if sign {
        data - 0x100
    } else {
        data as int
    }
}

/// A movement byte with the sign bit of the lead byte.
pub fn movement(data: Ps2Data, sign: bool) -> (r: i16)
    ensures
        r == spec_movement(data.0, sign),
{
    if sign {
        let v = (data.0 as u16) | 0xFF00;
        proof {
            lemma_byte_bits();
            assert((data.0 as u16) | 0xFF00u16 == 0xFF00 + data.0);
        }
        (v as i32 - 0x10000) as i16
    } else {
        data.0 as i16
    }
}

/// The decoder of the bytes of the keyboard and the mouse.
#[derive(Debug, Clone, Copy, PartialEq, Eq, Structural)]
pub struct Ps2 {
    pub key_state: Ps2KeyState,
    pub mouse_phase: Ps2MousePhase,
    pub mouse_buf_lead: MouseLeadByte,
    pub mouse_buf_x: Ps2Data,
}

impl Ps2 {
    pub const WRITE_TIMEOUT: u64 = 10_000;
    pub const READ_TIMEOUT: u64 = 100_000;

    /// A decoder that waits for the mouse's acknowledgement.
    pub fn new() -> (r: Self)
        ensures
            r.key_state == Ps2KeyState::Default,
            r.mouse_phase == Ps2MousePhase::Ack,
            r.mouse_buf_lead.0 == 0,
            r.mouse_buf_x.0 == 0,
    {
        Ps2 {
            key_state: Ps2KeyState::Default,
            mouse_phase: Ps2MousePhase::Ack,
            mouse_buf_lead: MouseLeadByte(0),
            mouse_buf_x: Ps2Data(0),
        }
    }

    /// Decodes a byte from the keyboard. The 0xE0 prefix is remembered and yields no
    /// event; any other byte yields the event of its key, the prefix adding 0x80 to the
    /// scan code.
    pub fn process_key_data(&mut self, data: Ps2Data) -> (r: Option<Ps2KeyEvent>)
        ensures
            data.0 == 0xE0 ==> r is None && final(self).key_state == Ps2KeyState::PrefixE0,
            data.0 != 0xE0 ==> {
                let code = if old(self).key_state == Ps2KeyState::PrefixE0 {
                    (data.0 % 0x80 + 0x80) as u8
                } else {
                    (data.0 % 0x80) as u8
                };
                &&& r == Some(Ps2KeyEvent { usage: spec_ps2_to_hid(code), is_break: data.0 >= 0x80 })
                &&& final(self).key_state == Ps2KeyState::Default
            },
            final(self).mouse_phase == old(self).mouse_phase,
            final(self).mouse_buf_lead == old(self).mouse_buf_lead,
            final(self).mouse_buf_x == old(self).mouse_buf_x,
    {
        if data.0 == Ps2Data::SCAN_E0 {
            self.key_state = Ps2KeyState::PrefixE0;
            None
        } else {
            let is_break = data.is_break();
            let mut scancode = data.scancode();
            match self.key_state {
                Ps2KeyState::PrefixE0 => {
                    proof {
                        lemma_byte_bits();
                        assert(scancode | 0x80 == scancode + 0x80);
                    }
                    scancode = scancode | 0x80;
                    self.key_state = Ps2KeyState::Default;
                },
                _ => {},
            }
            let usage = ps2_to_hid(scancode);
            Some(Ps2KeyEvent { usage, is_break })
        }
    }

    /// The packet that the last three bytes make.
    pub open spec fn spec_report(lead: MouseLeadByte, x: Ps2Data, y: Ps2Data) -> Ps2MouseReport {
        Ps2MouseReport {
            buttons: lead.0 & 0x07,
            x: spec_movement(x.0, lead.0 & 0x10 == 0x10) as i16,
            y: (0 - spec_movement(y.0, lead.0 & 0x20 == 0x20)) as i16,
        }
    }

    /// One step of the mouse decoder: `before` reads `data`, becomes `after` and
    /// yields `r`.
    pub open spec fn mouse_step(before: Ps2, data: Ps2Data, after: Ps2, r: Option<Ps2MouseReport>) -> bool {
        &&& after.key_state == before.key_state
        &&& match before.mouse_phase {
                Ps2MousePhase::Ack => {
                    &&& r is None
                    &&& after.mouse_phase == if data.0 == 0xFA {
                        Ps2MousePhase::Leading
                    } else {
                        Ps2MousePhase::Ack
                    }
                    &&& after.mouse_buf_lead == before.mouse_buf_lead
                    &&& after.mouse_buf_x == before.mouse_buf_x
                },
                Ps2MousePhase::Leading => {
                    let valid = data.0 & 0x08 == 0x08 && data.0 & 0x40 != 0x40 && data.0 & 0x80 != 0x80;
                    &&& r is None
                    &&& after.mouse_phase == if valid {
                        Ps2MousePhase::X
                    } else {
                        Ps2MousePhase::Leading
                    }
                    &&& after.mouse_buf_lead == if valid {
                        MouseLeadByte(data.0)
                    } else {
                        before.mouse_buf_lead
                    }
                    &&& after.mouse_buf_x == before.mouse_buf_x
                },
                Ps2MousePhase::X => {
                    &&& r is None
                    &&& after.mouse_phase == Ps2MousePhase::Y
                    &&& after.mouse_buf_lead == before.mouse_buf_lead
                    &&& after.mouse_buf_x == data
                },
                Ps2MousePhase::Y => {
                    &&& r == Some(Self::spec_report(before.mouse_buf_lead, before.mouse_buf_x, data))
                    &&& after.mouse_phase == Ps2MousePhase::Leading
                    &&& after.mouse_buf_lead == before.mouse_buf_lead
                    &&& after.mouse_buf_x == before.mouse_buf_x
                },
            }
    }

    /// Decodes a byte from the mouse. Until the acknowledgement arrives, bytes are
    /// ignored; then packets of three bytes follow: a lead byte (an invalid one is
    /// skipped), the X movement and the Y movement, which completes the packet.
    pub fn process_mouse_data(&mut self, data: Ps2Data) -> (r: Option<Ps2MouseReport>)
        ensures
            Self::mouse_step(*old(self), data, *final(self), r),
    {
        match self.mouse_phase {
            Ps2MousePhase::Ack => {
                if data.0 == Ps2Data::ACK {
                    self.mouse_phase = self.mouse_phase.next();
                }
                None
            },
            Ps2MousePhase::Leading => {
                let lead = MouseLeadByte::from(data);
                if lead.is_valid() {
                    self.mouse_buf_lead = lead;
                    self.mouse_phase = self.mouse_phase.next();
                }
                None
            },
            Ps2MousePhase::X => {
                self.mouse_buf_x = data;
                self.mouse_phase = self.mouse_phase.next();
                None
            },
            Ps2MousePhase::Y => {
                let lead = self.mouse_buf_lead;
                let data_x = self.mouse_buf_x;
                let data_y = data;
                self.mouse_phase = self.mouse_phase.next();
                let x = movement(data_x, lead.contains(MouseLeadByte(MouseLeadByte::X_SIGN)));
                let my = movement(data_y, lead.contains(MouseLeadByte(MouseLeadByte::Y_SIGN)));
                let y = 0 - my;
                Some(Ps2MouseReport { buttons: lead.buttons(), x, y })
            },
        }
    }
}

/// Once acknowledged, the mouse decoder reads packets of three bytes: from the phase
/// that waits for a lead byte, a valid lead byte, an X byte and a Y byte yield the
/// packet they make and bring the decoder back to waiting for a lead byte.
pub proof fn lemma_mouse_packet(s0: Ps2, s1: Ps2, s2: Ps2, s3: Ps2, lead: Ps2Data, x: Ps2Data, y: Ps2Data, r1: Option<Ps2MouseReport>, r2: Option<Ps2MouseReport>, r3: Option<Ps2MouseReport>)
    requires
        s0.mouse_phase == Ps2MousePhase::Leading,
        lead.0 & 0x08 == 0x08 && lead.0 & 0x40 != 0x40 && lead.0 & 0x80 != 0x80,
        Ps2::mouse_step(s0, lead, s1, r1),
        Ps2::mouse_step(s1, x, s2, r2),
        Ps2::mouse_step(s2, y, s3, r3),
    ensures
        r1 is None,
        r2 is None,
        r3 == Some(Ps2::spec_report(MouseLeadByte(lead.0), x, y)),
        s3.mouse_phase == Ps2MousePhase::Leading,
{
}


/// The letter that a set-1 scan code names on the QWERTY layout: the rows
/// `qwertyuiop` from 0x10, `asdfghjkl` from 0x1E and `zxcvbnm` from 0x2C.
pub open spec fn qwerty_letter(scancode: u8) -> Option<char> {
    let top = seq!['q', 'w', 'e', 'r', 't', 'y', 'u', 'i', 'o', 'p'];
    let home = seq!['a', 's', 'd', 'f', 'g', 'h', 'j', 'k', 'l'];
    let bottom = seq!['z', 'x', 'c', 'v', 'b', 'n', 'm'];
    if 0x10 <= scancode <= 0x19 {
        Some(top[scancode - 0x10])
    } else if 0x1E <= scancode <= 0x26 {
        Some(home[scancode - 0x1E])
    } else if 0x2C <= scancode <= 0x32 {
        Some(bottom[scancode - 0x2C])
    } else {
        None
    }
}

/// The number row: scan codes 0x02 to 0x0A are the keys `1` to `9`, whose HID
/// usages run from 0x1E in the same order, and 0x0B is the key `0`, usage 0x27.
pub proof fn lemma_ps2_number_row(scancode: u8)
    requires
        0x02 <= scancode <= 0x0B,
    ensures
        spec_ps2_to_hid(scancode) == if scancode == 0x0B {
            0x27
        } else {
            scancode + 0x1C
        },
{
}

/// A letter key has the HID usage of its letter: `a` is 0x04 and the alphabet
/// follows in order.
pub proof fn lemma_ps2_letters(scancode: u8)
    requires
        qwerty_letter(scancode) is Some,
    ensures
        spec_ps2_to_hid(scancode) == 0x04 + (qwerty_letter(scancode)->0 as int - 'a' as int),
{
}

/// The function keys: F1 to F10 are scan codes 0x3B to 0x44 and F11, F12 are
/// 0x57, 0x58; their usages run from 0x3A to 0x45 in the same order.
pub proof fn lemma_ps2_function_keys(scancode: u8)
    requires
        0x3B <= scancode <= 0x44 || scancode == 0x57 || scancode == 0x58,
    ensures
        spec_ps2_to_hid(scancode) == if scancode <= 0x44 {
            scancode - 1
        } else {
            scancode - 0x13
        },
{
}

/// The make and the break code of a key (bit 7 set) give the same usage, the
/// break code marked as such, when no prefix is pending.
pub proof fn lemma_ps2_make_break_same_key(make: u8)
    requires
        make < 0x80,
        make != 0x60,
    ensures
        ({
            let brk = (make + 0x80) as u8;
            &&& brk % 0x80 == make % 0x80
            &&& brk >= 0x80
            &&& brk != 0xE0
        }),
{
}


/// The digit that a keypad scan code names: `7 8 9` from 0x47, `4 5 6` from
/// 0x4B, `1 2 3` from 0x4F, and `0` at 0x52.
pub open spec fn keypad_digit(scancode: u8) -> Option<int> {
    if 0x47 <= scancode <= 0x49 {
        Some(scancode - 0x47 + 7)
    } else if 0x4B <= scancode <= 0x4D {
        Some(scancode - 0x4B + 4)
    } else if 0x4F <= scancode <= 0x51 {
        Some(scancode - 0x4F + 1)
    } else if scancode == 0x52 {
        Some(0)
    } else {
        None
    }
}

/// A keypad digit key has the usage of its digit: keypad `1` to `9` run from
/// 0x59, keypad `0` is 0x62.
pub proof fn lemma_ps2_keypad_digits(scancode: u8)
    requires
        keypad_digit(scancode) is Some,
    ensures
        spec_ps2_to_hid(scancode) == if keypad_digit(scancode)->0 == 0 {
            0x62
        } else {
            0x58 + keypad_digit(scancode)->0
        },
{
}

/// The index among the HID modifier keys (left control, shift, alt, GUI, then
/// the right ones) of a modifier key's scan code; the right-hand keys and the
/// GUI keys come after the 0xE0 prefix.
pub open spec fn modifier_index(scancode: u8) -> Option<int> {
    if scancode == 0x1D {
        Some(0)
    } else if scancode == 0x2A {
        Some(1)
    } else if scancode == 0x38 {
        Some(2)
    } else if scancode == 0xDB {
        Some(3)
    } else if scancode == 0x9D {
        Some(4)
    } else if scancode == 0x36 {
        Some(5)
    } else if scancode == 0xB8 {
        Some(6)
    } else if scancode == 0xDC {
        Some(7)
    } else {
        None
    }
}

/// A modifier key has the usage 0xE0 plus its index among the modifiers, the
/// bit that it holds in a keyboard report.
pub proof fn lemma_ps2_modifiers(scancode: u8)
    requires
        modifier_index(scancode) is Some,
    ensures
        spec_ps2_to_hid(scancode) == 0xE0 + modifier_index(scancode)->0,
{
}

} // verus!
