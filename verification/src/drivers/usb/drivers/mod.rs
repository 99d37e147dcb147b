//! USB class drivers.

pub mod usb_audio;
pub mod usb_hid;
pub mod usb_hub;
pub mod xinput;
