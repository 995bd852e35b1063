use vstd::prelude::*;
use crate::ffi::pmng::{vm_process_property, VM_PMNG_UNLOAD, VM_PMNG_FOREGROUND, VM_PMNG_BACKGROUND,
    VM_PMNG_STARTING, VM_PMNG_CLOSING, VM_PMNG_INACTIVE};
use crate::ffi::ucs2::{from_ucs2, spec_from_ucs2};
use crate::fs::path::{Path, spec_new};
use crate::msg::{MsgError, VM_MESSAGE_ID_BASE};

verus! {

/// States of a process.
#[derive(Debug, Clone, Copy, PartialEq, Eq, Structural)]
pub enum ProcessState {
    Unload,
    Foreground,
    Background,
    Starting,
    Closing,
    Inactive,
    Unknown,
}

/// The state a platform state number stands for.
pub open spec fn spec_process_state(state: i32) -> ProcessState {
    if state == VM_PMNG_UNLOAD {
        ProcessState::Unload
    } else if state == VM_PMNG_FOREGROUND {
        ProcessState::Foreground
    } else if state == VM_PMNG_BACKGROUND {
        ProcessState::Background
    } else if state == VM_PMNG_STARTING {
        ProcessState::Starting
    } else if state == VM_PMNG_CLOSING {
        ProcessState::Closing
    } else if state == VM_PMNG_INACTIVE {
        ProcessState::Inactive
    } else {
        ProcessState::Unknown
    }
}

/// Each of the platform's six process states has a state of its own: the
/// result is `Unknown` exactly for numbers outside 0..=5, and two different
/// numbers in that range never give the same state.
pub proof fn lemma_process_states_distinct(a: i32, b: i32)
    ensures
        (spec_process_state(a) == ProcessState::Unknown) <==> !(VM_PMNG_UNLOAD <= a <= VM_PMNG_INACTIVE),
        VM_PMNG_UNLOAD <= a <= VM_PMNG_INACTIVE && VM_PMNG_UNLOAD <= b <= VM_PMNG_INACTIVE && a != b
            ==> spec_process_state(a) != spec_process_state(b),
        spec_process_state(VM_PMNG_FOREGROUND) == ProcessState::Foreground,
        spec_process_state(VM_PMNG_BACKGROUND) == ProcessState::Background,
        spec_process_state(VM_PMNG_INACTIVE) == ProcessState::Inactive,
{
}

impl ProcessState {
    /// The state a platform state number stands for.
    pub fn from_i32(state: i32) -> (res: Self)
        ensures
            res == spec_process_state(state),
    {
        if state == VM_PMNG_UNLOAD {
            ProcessState::Unload
        } else if state == VM_PMNG_FOREGROUND {
            ProcessState::Foreground
        } else if state == VM_PMNG_BACKGROUND {
            ProcessState::Background
        } else if state == VM_PMNG_STARTING {
            ProcessState::Starting
        } else if state == VM_PMNG_CLOSING {
            ProcessState::Closing
        } else if state == VM_PMNG_INACTIVE {
            ProcessState::Inactive
        } else {
            ProcessState::Unknown
        }
    }
}

/// A process, by the platform's handle (always positive).
#[derive(Debug, Clone, Copy, PartialEq, Eq, Structural)]
pub struct Process(i32);

/// What the platform reports about a process.
pub struct ProcessProperty {
    pub handle: Process,
    pub app_id: i32,
    pub status: ProcessState,
    pub parent: Option<Process>,
    pub file_path: Path,
}

/// The process a handle stands for: only positive handles name processes.
pub closed spec fn spec_from_handle(handle: i32) -> Option<Process> {
    if handle > 0 {
        Some(Process(handle))
    } else {
        None
    }
}

impl Process {
    pub closed spec fn spec_handle(&self) -> i32 {
        self.0
    }

    /// The process a handle stands for, when it is positive.
    pub fn from_handle(handle: i32) -> (res: Option<Self>)
        ensures
            res == spec_from_handle(handle),
            res matches Some(p) ==> p.spec_handle() == handle,
    {
        if handle > 0 {
            Some(Process(handle))
        } else {
            None
        }
    }

    /// The platform's handle of this process.
    pub fn handle(&self) -> (res: i32)
        ensures
            res == self.spec_handle(),
    {
        self.0
    }

    /// The running process. `cache` keeps its handle once known; while it
    /// is not positive, `reported` is the handle the platform reports now.
    pub fn current(cache: &mut i32, reported: i32) -> (res: Option<Self>)
        ensures
            *old(cache) > 0 ==> res == spec_from_handle(*old(cache)) && *final(cache) == *old(cache),
            *old(cache) <= 0 && reported > 0 ==> res == spec_from_handle(reported) && *final(cache) == reported,
            *old(cache) <= 0 && reported <= 0 ==> res is None && *final(cache) == *old(cache),
            res matches Some(p) ==> p.spec_handle() == *final(cache),
    {
        if *cache <= 0 {
            if reported > 0 {
                *cache = reported;
            } else {
                return None;
            }
        }
        Some(Process(*cache))
    }

    /// The state of this process, from the platform's state number.
    pub fn state(&self, raw_state: i32) -> (res: ProcessState)
        ensures
            res == spec_process_state(raw_state),
    {
        ProcessState::from_i32(raw_state)
    }

    /// What the platform reports about this process, from its status
    /// (negative is the error) and the record it filled; a relative
    /// executable path is placed under `app_dir`.
    pub fn property(&self, status: i32, prop: &vm_process_property, app_dir: Option<&Path>) -> (res: Option<ProcessProperty>)
        ensures
            status < 0 ==> res is None,
            status >= 0 ==> (res matches Some(p) && p.handle == *self && p.app_id == prop.appID
                && p.status == spec_process_state(prop.status) && p.parent == spec_from_handle(prop.pParentHandle)
                && p.file_path@ == spec_new(
                    spec_from_ucs2(prop.filePath@),
                    match app_dir {
                        Some(d) => Some(d@),
                        None => None,
                    },
                )),
    {
        if status < 0 {
            return None;
        }
        let path_str = from_ucs2(prop.filePath.as_slice());
        Some(ProcessProperty {
            handle: *self,
            app_id: prop.appID,
            status: ProcessState::from_i32(prop.status),
            parent: Self::from_handle(prop.pParentHandle),
            file_path: Path::new(path_str.as_str(), app_dir),
        })
    }

    /// Whether a message may be sent to this process: not to the running
    /// process itself, and not with a number reserved for the platform.
    pub fn send_msg(&self, current: Option<Process>, msg_id: u32) -> (res: Result<(), MsgError>)
        ensures
            current == Some(*self) ==> res == Err::<(), MsgError>(MsgError::TargetIsSelf),
            current != Some(*self) && msg_id < VM_MESSAGE_ID_BASE ==> res == Err::<(), MsgError>(MsgError::InvalidMsgId),
            current != Some(*self) && msg_id >= VM_MESSAGE_ID_BASE ==> res is Ok,
    {
        if let Some(c) = current {
            if self.0 == c.0 {
                return Err(MsgError::TargetIsSelf);
            }
        }
        if msg_id < VM_MESSAGE_ID_BASE {
            return Err(MsgError::InvalidMsgId);
        }
        Ok(())
    }

    /// Whether a message may be posted to this process (as for `send_msg`)
    /// and, once posted, its outcome from the platform's result `posted`
    /// (1 is success, anything else a full queue).
    pub fn post_msg(&self, current: Option<Process>, msg_id: u32, posted: i32) -> (res: Result<(), MsgError>)
        ensures
            current == Some(*self) ==> res == Err::<(), MsgError>(MsgError::TargetIsSelf),
            current != Some(*self) && msg_id < VM_MESSAGE_ID_BASE ==> res == Err::<(), MsgError>(MsgError::InvalidMsgId),
            current != Some(*self) && msg_id >= VM_MESSAGE_ID_BASE && posted == 1 ==> res is Ok,
            current != Some(*self) && msg_id >= VM_MESSAGE_ID_BASE && posted != 1 ==> res == Err::<(), MsgError>(MsgError::QueueFull),
    {
        match self.send_msg(current, msg_id) {
            Err(e) => Err(e),
            Ok(()) => {
                if posted == 1 {
                    Ok(())
                } else {
                    Err(MsgError::QueueFull)
                }
            },
        }
    }

    /// The parent handle handed to the platform when starting an
    /// application: the running process, or 0 when it is unknown.
    pub fn spawn(current: Option<Process>) -> (res: i32)
        ensures
            res == match current {
                Some(p) => p.spec_handle(),
                None => 0i32,
            },
    {
        match current {
            Some(p) => p.0,
            None => 0,
        }
    }
}

/// The processes among the handles the platform listed: none when the
/// listing failed (negative status), otherwise those with a positive handle, in order.
pub fn list_processes(status: i32, handles: &[i32]) -> (res: Vec<Process>)
    ensures
        status < 0 ==> res@.len() == 0,
        status >= 0 ==> res@.len() == handles@.filter(|h: i32| h > 0).len(),
        status >= 0 ==> forall|i: int| 0 <= i < res@.len() ==> res@[i].spec_handle() == handles@.filter(|h: i32| h > 0)[i],
{
    let mut out: Vec<Process> = Vec::new();
    if status < 0 {
        return out;
    }
    let mut i: usize = 0;
    while i < handles.len()
        invariant
            i <= handles@.len(),
            out@.len() == handles@.take(i as int).filter(|h: i32| h > 0).len(),
            forall|k: int| 0 <= k < out@.len() ==> out@[k].spec_handle() == handles@.take(i as int).filter(|h: i32| h > 0)[k],
        decreases handles@.len() - i,
    {
        let h = handles[i];
        proof {
            reveal_with_fuel(Seq::filter, 1);
            assert(handles@.take(i + 1).drop_last() =~= handles@.take(i as int));
        }
        if h > 0 {
            out.push(Process(h));
        }
        i = i + 1;
    }
    assert(handles@.take(handles@.len() as int) =~= handles@);
    out
}

} // verus!
