//! Runtime environments: the binary formats that can be run, and what a legacy
//! application is started with.

use vstd::prelude::*;

pub mod arle;
pub mod haribote;

verus! {

/// The extensions of the binaries that can be run, in the order in which their loaders
/// were added.
pub struct RuntimeEnvironment {
    pub path_ext: Vec<String>,
}

impl RuntimeEnvironment {
    pub fn new() -> (r: Self)
        ensures
            r.path_ext@.len() == 0,
    {
        RuntimeEnvironment { path_ext: Vec::new() }
    }

    /// Adds the extension of a binary format.
    pub fn add_image(&mut self, ext: &str)
        ensures
            final(self).path_ext@.len() == old(self).path_ext@.len() + 1,
            final(self).path_ext@.last()@ == ext@,
            forall|i: int| 0 <= i < old(self).path_ext@.len() ==> #[trigger] final(self).path_ext@[i] == old(self).path_ext@[i],
    {
        self.path_ext.push(ext.to_owned());
    }

    /// The extensions, in the order in which they were added.
    pub fn supported_extensions(&self) -> (r: &Vec<String>)
        ensures
            r@ == self.path_ext@,
    {
        &self.path_ext
    }
}

/// The name and arguments of a loaded image.
pub struct LoadedImageOption {
    pub name: String,
    pub argv: Vec<String>,
}

impl LoadedImageOption {
    pub fn new() -> (r: Self)
        ensures
            r.name@.len() == 0,
            r.argv@.len() == 0,
    {
        LoadedImageOption { name: String::new(), argv: Vec::new() }
    }
}

/// Contextual data for legacy applications
#[derive(Debug, Default, Clone, Copy, PartialEq, Eq, Structural)]
pub struct LegacyAppContext {
    /// Base address of the application image
    pub image_base: u32,
    /// Size of the application image
    pub image_size: u32,
    /// Base address of the code segment
    pub base_of_code: u32,
    /// Size of the code segment
    pub size_of_code: u32,
    /// Base address of the data segment
    pub base_of_data: u32,
    /// Size of the data segment
    pub size_of_data: u32,
    /// Application entry point
    pub start: u32,
    /// Initial stack pointer
    pub stack_pointer: u32,
}

} // verus!
