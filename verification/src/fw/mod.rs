//! Firmware tables.

pub mod smbios;
