//! USB Audio Class Driver (01_xx_xx): which interfaces it takes.

use vstd::prelude::*;
use crate::drivers::usb::usb::UsbClass;

verus! {

/// Starts the audio driver on the interfaces of the audio base class.
pub struct UsbAudioStarter;

impl UsbAudioStarter {
    pub fn accepts(class: UsbClass) -> (r: bool)
        ensures
            r == ((class.0 / 0x10000) % 0x100 == 0x01),
    {
        class.base_class().0 == 0x01
    }
}

/// The audio driver: it takes the interface and does nothing with it yet.
pub struct UsbAudioDriver;

} // verus!
