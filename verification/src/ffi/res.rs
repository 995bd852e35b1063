use vstd::prelude::*;

verus! {

/// Where a resource lies in the application file.
#[derive(Debug, Clone, Copy, PartialEq, Eq, Structural)]
pub struct VmResReadHint {
    pub res_offset: i32,
    pub res_size: i32,
}

} // verus!
