use vstd::prelude::*;

verus! {

/// Open modes of the platform's file calls.
pub const VM_FS_MODE_READ: u32 = 1;
pub const VM_FS_MODE_WRITE: u32 = 2;
pub const VM_FS_MODE_CREATE_ALWAYS_WRITE: u32 = 4;
pub const VM_FS_MODE_APPEND: u32 = 8;

/// Origins of the platform's seek call.
pub const VM_FS_BASE_BEGIN: i32 = 1;
pub const VM_FS_BASE_CURR: i32 = 2;
pub const VM_FS_BASE_END: i32 = 3;

} // verus!
