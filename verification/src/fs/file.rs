use vstd::prelude::*;
use crate::sys::file::{VM_FS_BASE_BEGIN, VM_FS_BASE_CURR, VM_FS_BASE_END};

verus! {

/// An error code of the platform's file calls.
#[derive(Debug, Clone, Copy, PartialEq, Eq, Structural)]
pub struct MreIoError(pub i32);

/// An open file, by the platform's handle.
pub struct File {
    handle: i32,
}

/// Where a seek counts from.
#[derive(Debug, Clone, Copy, PartialEq, Eq, Structural)]
pub enum SeekFrom {
    Start(u64),
    End(i64),
    Current(i64),
}

impl File {
    pub closed spec fn spec_handle(&self) -> i32 {
        self.handle
    }

    fn open_with_handle(handle: i32) -> (res: Result<File, i32>)
        ensures
            handle < 0 ==> res == Err::<File, i32>(handle),
            handle >= 0 ==> (res matches Ok(f) && f.spec_handle() == handle),
    {
        if handle < 0 {
            Err(handle)
        } else {
            Ok(File { handle })
        }
    }

    /// A file opened for reading, from the handle the platform's open call
    /// returned in read mode: a negative handle is the error.
    pub fn open(handle: i32) -> (res: Result<File, i32>)
        ensures
            handle < 0 ==> res == Err::<File, i32>(handle),
            handle >= 0 ==> (res matches Ok(f) && f.spec_handle() == handle),
    {
        Self::open_with_handle(handle)
    }

    /// A file created (or emptied) for writing, from the handle the
    /// platform's open call returned in create mode.
    pub fn create(handle: i32) -> (res: Result<File, i32>)
        ensures
            handle < 0 ==> res == Err::<File, i32>(handle),
            handle >= 0 ==> (res matches Ok(f) && f.spec_handle() == handle),
    {
        Self::open_with_handle(handle)
    }

    /// A file opened for appending, from the handle the platform's open call
    /// returned in append mode.
    pub fn append(handle: i32) -> (res: Result<File, i32>)
        ensures
            handle < 0 ==> res == Err::<File, i32>(handle),
            handle >= 0 ==> (res matches Ok(f) && f.spec_handle() == handle),
    {
        Self::open_with_handle(handle)
    }

    /// The platform's handle of this file.
    pub fn handle(&self) -> (res: i32)
        ensures
            res == self.spec_handle(),
    {
        self.handle
    }
}

/// The size of a file from the platform's answer: its status and the size it filled.
pub fn file_size(status: i32, size: u32) -> (res: Result<usize, i32>)
    ensures
        status < 0 ==> res == Err::<usize, i32>(status),
        status >= 0 ==> res == Ok::<usize, i32>(size as usize),
{
    if status < 0 {
        Err(status)
    } else {
        Ok(size as usize)
    }
}

/// The number of bytes a read or write moved, from the platform's status
/// and the count it filled.
pub fn io_count(status: i32, count: u32) -> (res: Result<usize, MreIoError>)
    ensures
        status < 0 ==> res == Err::<usize, MreIoError>(MreIoError(status)),
        status >= 0 ==> res == Ok::<usize, MreIoError>(count as usize),
{
    if status < 0 {
        Err(MreIoError(status))
    } else {
        Ok(count as usize)
    }
}

/// The offset and origin handed to the platform's seek call; the offset is
/// truncated to 32 bits.
pub fn seek_args(pos: SeekFrom) -> (res: (i32, i32))
    ensures
        res == match pos {
            SeekFrom::Start(off) => (off as i32, VM_FS_BASE_BEGIN),
            SeekFrom::Current(off) => (off as i32, VM_FS_BASE_CURR),
            SeekFrom::End(off) => (off as i32, VM_FS_BASE_END),
        },
{
    match pos {
        SeekFrom::Start(off) => (off as i32, VM_FS_BASE_BEGIN),
        SeekFrom::Current(off) => (off as i32, VM_FS_BASE_CURR),
        SeekFrom::End(off) => (off as i32, VM_FS_BASE_END),
    }
}

/// The position after a seek, from the status of the seek call and the
/// position the platform then reports.
pub fn seek_result(seek_status: i32, position: i32) -> (res: Result<u64, MreIoError>)
    ensures
        seek_status < 0 ==> res == Err::<u64, MreIoError>(MreIoError(seek_status)),
        seek_status >= 0 && position < 0 ==> res == Err::<u64, MreIoError>(MreIoError(position)),
        seek_status >= 0 && position >= 0 ==> res == Ok::<u64, MreIoError>(position as u64),
{
    if seek_status < 0 {
        return Err(MreIoError(seek_status));
    }
    if position < 0 {
        Err(MreIoError(position))
    } else {
        Ok(position as u64)
    }
}

/// The outcome of committing buffered writes, from the platform's status.
pub fn flush_result(status: i32) -> (res: Result<(), MreIoError>)
    ensures
        status < 0 ==> res == Err::<(), MreIoError>(MreIoError(status)),
        status >= 0 ==> res is Ok,
{
    if status < 0 {
        Err(MreIoError(status))
    } else {
        Ok(())
    }
}

} // verus!
