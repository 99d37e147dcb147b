//! Input and output.

pub mod tty;
pub mod hid;
pub mod hid_parse;
pub mod hid_stream;
pub mod hid_keys;
pub mod screen;
pub mod emcon;
pub mod image;
pub mod png;
