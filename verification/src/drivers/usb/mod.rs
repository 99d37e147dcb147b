//! Universal Serial Bus

pub mod usb;
pub mod xhci;
pub mod xhci_s;
pub mod xhci_r;
pub mod drivers;

use vstd::prelude::*;

verus! {

/// Errors reported by the USB stack.
#[derive(Debug, Clone, Copy, PartialEq, Eq, Structural)]
pub enum UsbError {
    General,
    Unsupported,
    ControllerError(usize),
    InvalidParameter,
    InvalidDescriptor,
    UnexpectedToken,
    Aborted,
    Stall,
    ShortPacket,
    UsbTransactionError,
    OutOfMemory,
}

} // verus!
