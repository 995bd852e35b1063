use vstd::prelude::*;
use crate::ffi::time::vm_time_t;

verus! {

/// Longest file name, in UTF-16 units, that a directory search reports.
pub const MAX_APP_NAME_LEN: usize = 260;

/// One entry found by a directory search.
#[allow(non_camel_case_types)]
#[derive(Clone, Copy, Debug)]
pub struct vm_fileinfo_ext {
    pub filefullname: [u16; 260],
    pub filename: [u8; 8],
    pub extension: [u8; 3],
    pub attributes: u8,
    pub create_datetime: vm_time_t,
    pub modify_datetime: vm_time_t,
    pub filesize: u32,
    pub drive: u32,
    pub stamp: u32,
}

/// Stages of a file copy, as its progress callback reports them.
pub const VM_FS_MOVE_PGS_FAIL: i32 = -1;
pub const VM_FS_MOVE_PGS_PREPARE: i32 = 0;
pub const VM_FS_MOVE_PGS_START: i32 = 1;
pub const VM_FS_MOVE_PGS_ING: i32 = 2;
pub const VM_FS_MOVE_PGS_DONE: i32 = 3;

} // verus!
