//! Verified core of the MEG-OS kernel: hardware data structures, descriptor
//! formats and the decisions that the drivers take on them.

pub mod bits;
pub mod num;
pub mod hal;
pub mod io;
pub mod drivers;
pub mod arch;
pub mod fs;
pub mod fw;
pub mod mem;
pub mod rt;
pub mod shell;
pub mod monitor;
