//! Settings of the kernel that are written as files.
use vstd::prelude::*;

verus! {

/// A file of the kernel and what is written to it.
#[derive(Debug, PartialEq, Eq)]
pub struct KernelSetting {
    pub path: String,
    pub value: &'static str,
}

impl KernelSetting {
    /// The setting at `path` is given `value`.
    pub open spec fn gives(self, path: Seq<char>, value: Seq<char>) -> bool {
        self.path@ == path && self.value@ == value
    }
}

} // verus!
