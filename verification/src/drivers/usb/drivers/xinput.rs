//! XInput Class Driver (FF_5D_01): which interfaces it takes, and the reports it reads.

use vstd::prelude::*;
use crate::drivers::usb::UsbError;
use crate::drivers::usb::usb::{UsbClass, UsbLength};
use crate::io::hid::GameInput;

verus! {

/// Starts the XInput driver on XInput interfaces.
pub struct XInputStarter;

impl XInputStarter {
    pub fn accepts(class: UsbClass) -> (r: bool)
        ensures
            r == (class.0 == 0xFF_5D_01),
    {
        class.0 == 0xFF_5D_01
    }
}

/// The decisions of the XInput driver.
pub struct XInputDriver;

impl XInputDriver {
    /// The interface needs an endpoint: the first one is read.
    pub fn check_endpoints(count: usize) -> (r: Result<(), UsbError>)
        ensures
            count == 0 ==> r == Err::<(), UsbError>(UsbError::InvalidDescriptor),
            count > 0 ==> r is Ok,
    {
        if count == 0 {
            Err(UsbError::InvalidDescriptor)
        } else {
            Ok(())
        }
    }

    /// The state of the controller that a report gives: a report of type 0 and length
    /// 0x14 carries it from its third byte on; other reports give none.
    pub fn input_of_report(buffer: &[u8]) -> (r: Option<GameInput>)
        requires
            buffer@.len() >= 14,
        ensures
            (buffer@[0] == 0 && buffer@[1] == 0x14) ==> r == Some(GameInput::spec_from_bytes(buffer@.subrange(2, 14))),
            !(buffer@[0] == 0 && buffer@[1] == 0x14) ==> r is None,
    {
        if buffer[0] == XInputMsg14::VALID_TYPE && buffer[1] == XInputMsg14::VALID_LEN {
            Some(GameInput::from_bytes(buffer, 2))
        } else {
            None
        }
    }
}

/// The report of an XInput controller.
#[derive(Debug, Clone, Copy, PartialEq, Eq, Default, Structural)]
pub struct XInputMsg14 {
    pub msg_type: u8,
    pub len: u8,
    pub button1: u8,
    pub button2: u8,
    pub lt: u8,
    pub rt: u8,
    pub x1: u16,
    pub y1: u16,
    pub x2: u16,
    pub y2: u16,
}

impl XInputMsg14 {
    pub const VALID_TYPE: u8 = 0;
    pub const VALID_LEN: u8 = 0x14;
    /// The shortest report that is read.
    pub const MIN_LEN: u16 = 14;

    pub fn min_len() -> (r: UsbLength)
        ensures
            r.0 == 14,
    {
        UsbLength(Self::MIN_LEN)
    }
}

} // verus!
