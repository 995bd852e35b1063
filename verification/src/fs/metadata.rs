use vstd::prelude::*;
use crate::fs::attributes::{FileAttributes, DIR};
use crate::sys::fs::vm_fileinfo_ext;
use crate::time::{DateTime, spec_from_vm_time};

verus! {

/// Size, attributes and times of a file.
#[derive(Clone, Copy, Debug, PartialEq, Eq, Structural)]
pub struct Metadata {
    pub size: u32,
    pub attributes: FileAttributes,
    pub created: DateTime,
    pub modified: DateTime,
}

/// The metadata a directory-search entry describes.
pub open spec fn spec_metadata_of(info: vm_fileinfo_ext) -> Metadata {
    Metadata {
        size: info.filesize,
        attributes: FileAttributes(info.attributes),
        created: spec_from_vm_time(info.create_datetime),
        modified: spec_from_vm_time(info.modify_datetime),
    }
}

impl Metadata {
    /// True for a directory.
    pub fn is_dir(&self) -> (res: bool)
        ensures
            res == (self.attributes.0 & DIR != 0),
    {
        self.attributes.is_dir()
    }

    /// True for anything that is not a directory.
    pub fn is_file(&self) -> (res: bool)
        ensures
            res == (self.attributes.0 & DIR == 0),
    {
        !self.is_dir()
    }

    /// The metadata a directory-search entry describes.
    pub fn from_info(info: &vm_fileinfo_ext) -> (res: Metadata)
        ensures
            res == spec_metadata_of(*info),
    {
        Metadata {
            size: info.filesize,
            attributes: FileAttributes(info.attributes),
            created: DateTime::from_vm_time(info.create_datetime),
            modified: DateTime::from_vm_time(info.modify_datetime),
        }
    }
}

/// The metadata of a path, from the platform's search for it: the search
/// handle it returned (negative is the error) and the entry it filled.
pub fn metadata(handle: i32, info: &vm_fileinfo_ext) -> (res: Result<Metadata, i32>)
    ensures
        handle < 0 ==> res == Err::<Metadata, i32>(handle),
        handle >= 0 ==> res == Ok::<Metadata, i32>(spec_metadata_of(*info)),
{
    if handle < 0 {
        return Err(handle);
    }
    Ok(Metadata::from_info(info))
}

} // verus!
