use vstd::prelude::*;
use crate::fs::metadata::Metadata;

verus! {

/// The outcome of a file-system call from its status: negative codes are errors.
pub open spec fn spec_status(status: i32) -> Result<(), i32> {
    if status < 0 {
        Err(status)
    } else {
        Ok(())
    }
}

/// A file-system call succeeds exactly when its status is not negative, and
/// a failure carries the status unchanged.
pub proof fn lemma_status_outcome(status: i32)
    ensures
        spec_status(status) is Ok <==> status >= 0,
        status < 0 ==> spec_status(status) == Err::<(), i32>(status),
{
}

/// The outcome of deleting a file, from the status of the platform's delete call.
pub fn remove_file(status: i32) -> (res: Result<(), i32>)
    ensures
        res == spec_status(status),
{
    if status < 0 { Err(status) } else { Ok(()) }
}

/// The outcome of renaming, from the status of the platform's rename call.
pub fn rename(status: i32) -> (res: Result<(), i32>)
    ensures
        res == spec_status(status),
{
    if status < 0 { Err(status) } else { Ok(()) }
}

/// The outcome of creating a directory, from the status of the platform's call.
pub fn create_dir(status: i32) -> (res: Result<(), i32>)
    ensures
        res == spec_status(status),
{
    if status < 0 { Err(status) } else { Ok(()) }
}

/// The outcome of removing a directory, from the status of the platform's call.
pub fn remove_dir(status: i32) -> (res: Result<(), i32>)
    ensures
        res == spec_status(status),
{
    if status < 0 { Err(status) } else { Ok(()) }
}

/// Whether a path exists: its metadata could be read.
pub fn path_exists(metadata: &Result<Metadata, i32>) -> (res: bool)
    ensures
        res == metadata is Ok,
{
    metadata.is_ok()
}

} // verus!
