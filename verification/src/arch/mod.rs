//! x86_64 architecture support.

pub mod apic;
pub mod exception;
pub mod hpet;
pub mod hal;
pub mod page;
pub mod pagetable;
pub mod ps2;
pub mod rtc;
