//! TeleTypewriter: the line editor that reads a line, and the null terminal.

use vstd::prelude::*;

verus! {

/// Why a terminal could not be read or written.
#[derive(Debug, Clone, Copy, PartialEq, Eq, Structural)]
pub enum TtyError {
    NotReady,
    DeviceError,
    EndOfStream,
}

/// What the line editor does after a key.
#[derive(Debug, Clone, PartialEq, Eq)]
pub enum LineAction {
    /// Echo these characters and wait for the next key.
    Echo(Vec<char>),
    /// Echo these characters; the line is complete.
    Done(Vec<char>),
    /// Reading ends: the stream ended or was interrupted.
    EndOfStream,
}

/// The echo of a character that was typed: control characters as `^` and their letter.
pub open spec fn spec_echo(c: char) -> Seq<char> {
    if (c as u32) < 0x20 {
        seq!['^', ((c as u32) | 0x40) as char]
    } else {
        seq![c]
    }
}

/// The line that is being read.
pub struct LineEditor {
    pub buffer: Vec<char>,
    pub max_length: usize,
}

impl LineEditor {
    pub fn new(max_length: usize) -> (r: Self)
        ensures
            r.buffer@.len() == 0,
            r.max_length == max_length,
    {
        LineEditor { buffer: Vec::new(), max_length }
    }

    /// Takes what the terminal gave: Return ends the line, Ctrl-C ends the stream,
    /// Backspace takes the last character back (a control character took two columns),
    /// a printable or control character is added while the line has room, and other
    /// characters are ignored. Errors other than the end of the stream are ignored.
    pub fn step(&mut self, input: Result<char, TtyError>) -> (r: LineAction)
        requires
            old(self).buffer@.len() <= old(self).max_length,
        ensures
            final(self).max_length == old(self).max_length,
            final(self).buffer@.len() <= final(self).max_length,
            match input {
                Err(TtyError::EndOfStream) => r == LineAction::EndOfStream && final(self).buffer@ == old(self).buffer@,
                Err(_) => (r matches LineAction::Echo(e) && e@.len() == 0) && final(self).buffer@ == old(self).buffer@,
                Ok(c) => if c == '\r' || c == '\n' {
                    (r matches LineAction::Done(e) && e@ == seq!['\r', '\n']) && final(self).buffer@ == old(self).buffer@
                } else if c == '\x03' {
                    r == LineAction::EndOfStream && final(self).buffer@ == old(self).buffer@
                } else if c == '\x08' {
                    if old(self).buffer@.len() == 0 {
                        (r matches LineAction::Echo(e) && e@.len() == 0) && final(self).buffer@ == old(self).buffer@
                    } else {
                        let last = old(self).buffer@.last();
                        &&& final(self).buffer@ == old(self).buffer@.drop_last()
                        &&& r matches LineAction::Echo(e) && e@ == if (last as u32) < 0x20 {
                            seq!['\x08', '\x08', ' ', ' ', '\x08', '\x08']
                        } else {
                            seq!['\x08', ' ', '\x08']
                        }
                    }
                } else if old(self).buffer@.len() < old(self).max_length && (c as u32) < 0x7F {
                    &&& final(self).buffer@ == old(self).buffer@.push(c)
                    &&& r matches LineAction::Echo(e) && e@ == spec_echo(c)
                } else {
                    (r matches LineAction::Echo(e) && e@.len() == 0) && final(self).buffer@ == old(self).buffer@
                },
            },
    {
        match input {
            Err(TtyError::EndOfStream) => LineAction::EndOfStream,
            Err(_) => LineAction::Echo(Vec::new()),
            Ok(c) => {
                if c == '\r' || c == '\n' {
                    LineAction::Done(vec!['\r', '\n'])
                } else if c == '\x03' {
                    LineAction::EndOfStream
                } else if c == '\x08' {
                    match self.buffer.pop() {
                        Some(last) => {
                            if (last as u32) < 0x20 {
                                LineAction::Echo(vec!['\x08', '\x08', ' ', ' ', '\x08', '\x08'])
                            } else {
                                LineAction::Echo(vec!['\x08', ' ', '\x08'])
                            }
                        },
                        None => LineAction::Echo(Vec::new()),
                    }
                } else if self.buffer.len() < self.max_length && (c as u32) < 0x7F {
                    let echo = if (c as u32) < 0x20 {
                        let ctrl = ((c as u32) | 0x40) as u8 as char;
                        proof {
                            let v = c as u32;
                            assert(v < 0x20 ==> (v | 0x40) < 0x60) by (bit_vector);
                        }
                        vec!['^', ctrl]
                    } else {
                        vec![c]
                    };
                    self.buffer.push(c);
                    LineAction::Echo(echo)
                } else {
                    LineAction::Echo(Vec::new())
                }
            },
        }
    }

    /// The line read so far.
    pub fn line(&self) -> (r: Vec<char>)
        ensures
            r@ == self.buffer@,
    {
        self.buffer.clone()
    }
}

/// The terminal that shows nothing and reads nothing.
pub struct NullTty;

impl NullTty {
    pub fn new() -> (r: Self) {
        NullTty
    }

    pub fn reset(&mut self) -> (r: Result<(), TtyError>)
        ensures
            r is Ok,
    {
        Ok(())
    }

    pub fn dims(&self) -> (r: (u32, u32))
        ensures
            r == (0u32, 0u32),
    {
        (0, 0)
    }

    pub fn cursor_position(&self) -> (r: (u32, u32))
        ensures
            r == (0u32, 0u32),
    {
        (0, 0)
    }

    pub fn set_cursor_position(&mut self, _x: u32, _y: u32) {
    }

    pub fn is_cursor_enabled(&self) -> (r: bool)
        ensures
            !r,
    {
        false
    }

    pub fn set_cursor_enabled(&mut self, _enabled: bool) -> (r: bool)
        ensures
            !r,
    {
        false
    }

    pub fn set_attribute(&mut self, _attribute: u8) {
    }

    pub fn attributes(&self) -> (r: u8)
        ensures
            r == 0,
    {
        0
    }

    /// Reading the null terminal ends at once.
    pub fn read(&self) -> (r: Result<char, TtyError>)
        ensures
            r == Err::<char, TtyError>(TtyError::EndOfStream),
    {
        Err(TtyError::EndOfStream)
    }
}

} // verus!
