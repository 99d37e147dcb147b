//! Device drivers.

pub mod pci;
pub mod usb;
