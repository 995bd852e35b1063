use vstd::prelude::*;
use crate::seqs::{first_index_of, lemma_first_index_of, lemma_first_index_of_facts};
use crate::sys::fs::{VM_FS_MOVE_PGS_FAIL, VM_FS_MOVE_PGS_PREPARE, VM_FS_MOVE_PGS_START, VM_FS_MOVE_PGS_ING,
    VM_FS_MOVE_PGS_DONE};

verus! {

/// Progress of a file copy.
#[derive(Debug, Clone, Copy, PartialEq, Eq, Structural)]
pub enum CopyStatus {
    Fail,
    Prepare,
    Start,
    Progress { total: u32, completed: u32 },
    Done,
}

/// The progress that a stage code of the platform reports, if it is one.
pub fn copy_status(act: i32, total: u32, completed: u32) -> (res: Option<CopyStatus>)
    ensures
        res == (if act == VM_FS_MOVE_PGS_FAIL {
            Some(CopyStatus::Fail)
        } else if act == VM_FS_MOVE_PGS_PREPARE {
            Some(CopyStatus::Prepare)
        } else if act == VM_FS_MOVE_PGS_START {
            Some(CopyStatus::Start)
        } else if act == VM_FS_MOVE_PGS_ING {
            Some(CopyStatus::Progress { total, completed })
        } else if act == VM_FS_MOVE_PGS_DONE {
            Some(CopyStatus::Done)
        } else {
            None
        }),
{
    if act == VM_FS_MOVE_PGS_FAIL {
        Some(CopyStatus::Fail)
    } else if act == VM_FS_MOVE_PGS_PREPARE {
        Some(CopyStatus::Prepare)
    } else if act == VM_FS_MOVE_PGS_START {
        Some(CopyStatus::Start)
    } else if act == VM_FS_MOVE_PGS_ING {
        Some(CopyStatus::Progress { total, completed })
    } else if act == VM_FS_MOVE_PGS_DONE {
        Some(CopyStatus::Done)
    } else {
        None
    }
}

/// Most copies that run at once.
pub const MAX_COPIES: usize = 4;

/// The error when no copy slot is free.
pub const ERR_NO_COPY_SLOT: i32 = -46;

/// A copy's first progress report binds its handle to the first slot
/// reserved for a copy whose handle is not known yet, and every later report
/// of that copy reaches the same slot: when no slot holds the handle yet,
/// the first slot that holds it after binding is that reserved slot.
pub proof fn lemma_prepare_binds_first_pending(slots: Seq<Option<i32>>, hdl: i32)
    requires
        hdl != -1,
        first_index_of(slots, Some(hdl)) == -1,
        first_index_of(slots, Some(-1i32)) >= 0,
    ensures
        first_index_of(slots.update(first_index_of(slots, Some(-1i32)), Some(hdl)), Some(hdl))
            == first_index_of(slots, Some(-1i32)),
{
    let p = first_index_of(slots, Some(-1i32));
    lemma_first_index_of_facts(slots, Some(-1i32));
    lemma_first_index_of_facts(slots, Some(hdl));
    let bound = slots.update(p, Some(hdl));
    lemma_first_index_of(bound, Some(hdl), p);
}

/// The copies in flight: each slot is free, reserved for a copy whose
/// handle is not known yet (-1), or bound to the platform's handle of a copy.
pub struct CopyTable {
    slots: Vec<Option<i32>>,
}

impl CopyTable {
    pub closed spec fn view_slots(&self) -> Seq<Option<i32>> {
        self.slots@
    }

    /// Every slot free.
    pub fn new() -> (res: CopyTable)
        ensures
            res.view_slots() == seq![None::<i32>, None::<i32>, None::<i32>, None::<i32>],
    {
        let mut slots: Vec<Option<i32>> = Vec::new();
        slots.push(None);
        slots.push(None);
        slots.push(None);
        slots.push(None);
        assert(slots@ =~= seq![None::<i32>, None::<i32>, None::<i32>, None::<i32>]);
        CopyTable { slots }
    }

    fn find(&self, v: Option<i32>) -> (res: Option<usize>)
        ensures
            match res {
                Some(i) => i as int == first_index_of(self.slots@, v) && i < self.slots@.len(),
                None => first_index_of(self.slots@, v) == -1,
            },
    {
        let mut i: usize = 0;
        while i < self.slots.len()
            invariant
                i <= self.slots@.len(),
                forall|k: int| 0 <= k < i ==> self.slots@[k] != v,
            decreases self.slots@.len() - i,
        {
            if self.slots[i] == v {
                proof {
                    lemma_first_index_of(self.slots@, v, i as int);
                }
                return Some(i);
            }
            i = i + 1;
        }
        proof {
            lemma_first_index_of(self.slots@, v, -1);
        }
        None
    }

    /// Reserves the first free slot for a new copy, its handle not known
    /// yet; fails with `ERR_NO_COPY_SLOT` when every slot is taken.
    pub fn reserve(&mut self) -> (res: Result<usize, i32>)
        ensures
            first_index_of(old(self).view_slots(), None) < 0 ==> res == Err::<usize, i32>(ERR_NO_COPY_SLOT)
                && final(self).view_slots() == old(self).view_slots(),
            first_index_of(old(self).view_slots(), None) >= 0 ==> res == Ok::<usize, i32>(
                first_index_of(old(self).view_slots(), None) as usize)
                && final(self).view_slots() == old(self).view_slots().update(first_index_of(old(self).view_slots(), None), Some(-1i32)),
    {
        match self.find(None) {
            Some(i) => {
                self.slots.set(i, Some(-1));
                Ok(i)
            },
            None => Err(ERR_NO_COPY_SLOT),
        }
    }

    /// The copy could not be started: frees the first slot still waiting for
    /// its handle, and returns it.
    pub fn cancel_pending(&mut self) -> (res: Option<usize>)
        ensures
            first_index_of(old(self).view_slots(), Some(-1i32)) < 0 ==> res is None
                && final(self).view_slots() == old(self).view_slots(),
            first_index_of(old(self).view_slots(), Some(-1i32)) >= 0 ==> res == Some(
                first_index_of(old(self).view_slots(), Some(-1i32)) as usize)
                && final(self).view_slots() == old(self).view_slots().update(first_index_of(old(self).view_slots(), Some(-1i32)), None),
    {
        match self.find(Some(-1)) {
            Some(i) => {
                self.slots.set(i, None);
                Some(i)
            },
            None => None,
        }
    }

    /// A progress report for the copy with handle `hdl`: on the first
    /// report (stage "prepare") the handle is bound to the first slot
    /// waiting for one. Returns the slot of that copy, if any.
    pub fn on_progress(&mut self, act: i32, hdl: i32) -> (res: Option<usize>)
        ensures
            ({
                let bound = if act == VM_FS_MOVE_PGS_PREPARE && first_index_of(old(self).view_slots(), Some(-1i32)) >= 0 {
                    old(self).view_slots().update(first_index_of(old(self).view_slots(), Some(-1i32)), Some(hdl))
                } else {
                    old(self).view_slots()
                };
                &&& final(self).view_slots() == bound
                &&& match res {
                    Some(i) => i as int == first_index_of(bound, Some(hdl)) && i < bound.len(),
                    None => first_index_of(bound, Some(hdl)) == -1,
                }
            }),
    {
        if act == VM_FS_MOVE_PGS_PREPARE {
            match self.find(Some(-1)) {
                Some(i) => self.slots.set(i, Some(hdl)),
                None => {},
            }
        }
        self.find(Some(hdl))
    }

    /// Whether `slot` holds no copy.
    pub fn is_free(&self, slot: usize) -> (res: bool)
        requires
            slot < self.view_slots().len(),
        ensures
            res == (self.view_slots()[slot as int] is None),
    {
        self.slots[slot].is_none()
    }

    /// After the copy's handler answered `continue_copy` for a report of
    /// stage `act`: the slot is freed when the copy stops, finishes or
    /// fails. Returns what the platform is told: 0 to go on, -1 to abort.
    pub fn after_handler(&mut self, slot: usize, act: i32, continue_copy: bool) -> (res: i32)
        requires
            slot < old(self).view_slots().len(),
        ensures
            res == (if continue_copy { 0i32 } else { -1i32 }),
            (!continue_copy || act == VM_FS_MOVE_PGS_DONE || act == VM_FS_MOVE_PGS_FAIL) ==> final(self).view_slots()
                == old(self).view_slots().update(slot as int, None),
            !(!continue_copy || act == VM_FS_MOVE_PGS_DONE || act == VM_FS_MOVE_PGS_FAIL) ==> final(self).view_slots()
                == old(self).view_slots(),
    {
        if !continue_copy || act == VM_FS_MOVE_PGS_DONE || act == VM_FS_MOVE_PGS_FAIL {
            self.slots.set(slot, None);
        }
        if continue_copy { 0 } else { -1 }
    }
}

} // verus!
