//! Arlequin Subsystem: flat binaries that start with a return.

use vstd::prelude::*;

verus! {

/// Loads `.bin` files.
pub struct ArleBinaryLoader;

impl ArleBinaryLoader {
    pub fn new() -> (r: Self) {
        ArleBinaryLoader
    }

    /// A binary of this kind starts with `ret` (0xC3).
    pub fn identity(blob: &[u8]) -> (r: bool)
        requires
            blob@.len() > 0,
        ensures
            r == (blob@[0] == 0xC3),
    {
        blob[0] == 0xC3
    }

    pub fn preferred_extension(&self) -> (r: &'static str)
        ensures
            r@ == "bin"@,
    {
        "bin"
    }

    pub fn recognize(&self, blob: &[u8]) -> (r: bool)
        requires
            blob@.len() > 0,
        ensures
            r == (blob@[0] == 0xC3),
    {
        Self::identity(blob)
    }
}

/// Where a flat binary starts, and its stack.
#[derive(Debug, Default, Clone, Copy, PartialEq, Eq, Structural)]
pub struct LaunchOption {
    pub start: usize,
    pub stack_pointer: usize,
}

/// What an Arlequin process runs with.
pub struct ArleContext {
    pub option: LaunchOption,
}

impl ArleContext {
    pub fn new(option: LaunchOption) -> (r: Self)
        ensures
            r.option == option,
    {
        ArleContext { option }
    }
}

} // verus!
