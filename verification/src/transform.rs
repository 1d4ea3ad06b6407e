//! What is known of a module while its parse tree is converted.

use vstd::prelude::*;

verus! {

/// What the conversion of a parse tree has learnt of the module so far.
#[derive(Debug)]
pub struct Context {
    /// Whether the module has a block of configurable constants.
    module_has_configurable_block: bool,
}

impl View for Context {
    type V = bool;

    closed spec fn view(&self) -> bool {
        self.module_has_configurable_block
    }
}

impl Default for Context {
    fn default() -> (context: Context)
        ensures
            !context@,
    {
        Context { module_has_configurable_block: false }
    }
}

impl Context {
    /// Records that the module has a block of configurable constants.
    pub fn set_module_has_configurable_block(&mut self)
        ensures
            final(self)@,
    {
        self.module_has_configurable_block = true;
    }

    /// Whether the module has a block of configurable constants: whether
    /// that was recorded.
    pub fn module_has_configurable_block(&self) -> (has: bool)
        ensures
            has == self@,
    {
        self.module_has_configurable_block
    }
}

} // verus!
