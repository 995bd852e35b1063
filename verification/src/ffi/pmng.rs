use vstd::prelude::*;

verus! {

/// Handle of the system kernel process.
pub const VM_PMNG_KERNEL_HANDLE: i32 = 0;
/// Longest executable path, in UTF-16 units, including the terminator.
pub const VM_MAX_PATH: usize = 261;

/// Process states as the platform numbers them.
pub const VM_PMNG_UNLOAD: i32 = 0;
pub const VM_PMNG_FOREGROUND: i32 = 1;
pub const VM_PMNG_BACKGROUND: i32 = 2;
pub const VM_PMNG_STARTING: i32 = 3;
pub const VM_PMNG_CLOSING: i32 = 4;
pub const VM_PMNG_INACTIVE: i32 = 5;

/// What the platform reports about a process.
#[allow(non_camel_case_types, non_snake_case)]
#[derive(Clone, Copy, Debug)]
pub struct vm_process_property {
    pub pHandle: i32,
    pub appID: i32,
    pub status: i32,
    pub pParentHandle: i32,
    pub process_type: i32,
    pub reserved: [i32; 5],
    pub filePath: [u16; 261],
}

} // verus!
