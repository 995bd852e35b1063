use vstd::prelude::*;
use vstd::string::StringSliceAdditionalSpecFns;
use crate::fs::path::{Path, spec_join};
use crate::fs::metadata::{Metadata, spec_metadata_of};
use crate::sys::fs::vm_fileinfo_ext;
use crate::ffi::ucs2::{from_ucs2, spec_from_ucs2};

verus! {

/// An entry of a directory: its full path and its metadata.
pub struct DirEntry {
    pub path: Path,
    pub metadata: Metadata,
}

impl DirEntry {
    /// The entry a directory search reported.
    pub fn from_info(info: &vm_fileinfo_ext) -> (res: DirEntry)
        ensures
            res.path.text() == spec_from_ucs2(info.filefullname@),
            res.metadata == spec_metadata_of(*info),
    {
        let name = from_ucs2(info.filefullname.as_slice());
        DirEntry { path: Path::from_absolute_string(name), metadata: Metadata::from_info(info) }
    }
}

/// The search pattern that lists the entries of `path` matching `mask`.
pub fn read_dir_masked(path: &Path, mask: &str) -> (res: Path)
    ensures
        res@ == spec_join(path@, mask.spec_bytes()),
{
    path.join(mask)
}

/// The search pattern that lists every entry of `path`: `*.*` under it.
pub fn read_dir(path: &Path) -> (res: Path)
    ensures
        ({
            let all = "*.*";
            res@ == spec_join(path@, all.spec_bytes())
        }),
{
    read_dir_masked(path, "*.*")
}

/// What a directory listing does next.
pub enum ReadDirStep {
    /// The listing is over.
    Finished,
    /// This entry comes next.
    Entry(DirEntry),
    /// The next entry has to be asked of the platform, then handed to `accept_next`.
    FetchNext,
}

/// A directory listing in progress: the platform's search handle, whether
/// it is over, and the entry the search started with, not yet handed out.
pub struct ReadDir {
    handle: i32,
    is_finished: bool,
    first_result: Option<vm_fileinfo_ext>,
}

impl ReadDir {
    pub closed spec fn spec_handle(&self) -> i32 {
        self.handle
    }

    pub closed spec fn spec_finished(&self) -> bool {
        self.is_finished
    }

    pub closed spec fn spec_pending(&self) -> Option<vm_fileinfo_ext> {
        self.first_result
    }

    /// A listing from the platform's first search: its handle (negative is
    /// the error) and the first entry it filled.
    pub fn open(handle: i32, first: vm_fileinfo_ext) -> (res: Result<ReadDir, i32>)
        ensures
            handle < 0 ==> res == Err::<ReadDir, i32>(handle),
            handle >= 0 ==> (res matches Ok(r) && r.spec_handle() == handle && !r.spec_finished()
                && r.spec_pending() == Some(first)),
    {
        if handle < 0 {
            return Err(handle);
        }
        Ok(ReadDir { handle, is_finished: false, first_result: Some(first) })
    }

    /// The platform's search handle.
    pub fn handle(&self) -> (res: i32)
        ensures
            res == self.spec_handle(),
    {
        self.handle
    }

    /// The next step of the listing: nothing once it is over, the first
    /// entry if it was not handed out yet, otherwise a request to fetch one.
    pub fn next_step(&mut self) -> (res: ReadDirStep)
        ensures
            final(self).spec_handle() == old(self).spec_handle(),
            final(self).spec_finished() == old(self).spec_finished(),
            old(self).spec_finished() ==> res is Finished && final(self).spec_pending() == old(self).spec_pending(),
            !old(self).spec_finished() && old(self).spec_pending() is Some ==> (res matches ReadDirStep::Entry(e)
                && e.metadata == spec_metadata_of(old(self).spec_pending()->0)
                && e.path.text() == spec_from_ucs2(old(self).spec_pending()->0.filefullname@))
                && final(self).spec_pending() is None,
            !old(self).spec_finished() && old(self).spec_pending() is None ==> res is FetchNext
                && final(self).spec_pending() is None,
    {
        if self.is_finished {
            return ReadDirStep::Finished;
        }
        match self.first_result.take() {
            Some(first) => ReadDirStep::Entry(DirEntry::from_info(&first)),
            None => ReadDirStep::FetchNext,
        }
    }

    /// Takes the platform's answer to a fetch: its status (negative ends the
    /// listing) and the entry it filled.
    pub fn accept_next(&mut self, status: i32, info: &vm_fileinfo_ext) -> (res: Option<DirEntry>)
        ensures
            final(self).spec_handle() == old(self).spec_handle(),
            final(self).spec_pending() == old(self).spec_pending(),
            status < 0 ==> res is None && final(self).spec_finished(),
            status >= 0 ==> (res matches Some(e) && e.metadata == spec_metadata_of(*info)
                && e.path.text() == spec_from_ucs2(info.filefullname@))
                && final(self).spec_finished() == old(self).spec_finished(),
    {
        if status < 0 {
            self.is_finished = true;
            return None;
        }
        Some(DirEntry::from_info(info))
    }
}

} // verus!
