use vstd::prelude::*;

verus! {

/// A shader module together with the device it was made on, so that it can
/// be destroyed once the pipeline that uses it has been built.
#[derive(Clone, Copy, Debug, PartialEq, Eq, Structural)]
pub struct ShaderModuleWrapper {
    pub module: u64,
    pub device: u64,
}

impl ShaderModuleWrapper {
    /// The shader module's handle.
    pub fn get_module(&self) -> (r: u64)
        ensures
            r == self.module,
    {
        self.module
    }

    /// Whether there is a module to destroy: both it and its device exist.
    pub fn needs_destroy(&self) -> (r: bool)
        ensures
            r == (self.module != 0 && self.device != 0),
    {
        self.module != 0 && self.device != 0
    }
}

} // verus!
