use vstd::prelude::*;

verus! {

/// Message numbers below this one are reserved for the platform.
pub const VM_MESSAGE_ID_BASE: u32 = 1000;

/// The message a process posts to itself to run its queued tasks.
pub const INTERNAL_TASK_MSG_ID: u32 = 1000 + 0x7777;

/// Why a message was not sent.
#[derive(Debug, Clone, Copy, PartialEq, Eq, Structural)]
pub enum MsgError {
    TargetIsSelf,
    InvalidMsgId,
    QueueFull,
}

/// True for the message that runs this process's queued tasks: the task
/// message, sent by this very process, whose handle is known (non-zero).
pub fn is_task_pump_message(sender_handle: i32, msg_id: u32, my_handle: i32) -> (res: bool)
    ensures
        res == (msg_id == INTERNAL_TASK_MSG_ID && sender_handle == my_handle && my_handle != 0),
{
    msg_id == INTERNAL_TASK_MSG_ID && sender_handle == my_handle && my_handle != 0
}

/// What `post_task` does after queueing a task.
#[derive(Debug, Clone, Copy, PartialEq, Eq, Structural)]
pub enum PumpAction {
    /// Nothing: a wake-up is already on its way, or the process is unknown.
    Nothing,
    /// Post the task message to this process, then report the result to `after_post`.
    PostWake,
}

/// What to do after the wake-up could not be posted.
#[derive(Debug, Clone, Copy, PartialEq, Eq, Structural)]
pub enum RetryAction {
    /// Nothing more.
    Nothing,
    /// Dispatch pending messages, then post the task message once more.
    DispatchAndRepost,
}

/// The scheduling state of the task queue: whether a wake-up message is on
/// its way, and whether pending messages are being dispatched.
#[derive(Debug, Clone, Copy, PartialEq, Eq, Structural)]
pub struct TaskPump {
    pub scheduled: bool,
    pub dispatching: bool,
}

impl TaskPump {
    /// Nothing scheduled.
    pub fn new() -> (res: TaskPump)
        ensures
            res == (TaskPump { scheduled: false, dispatching: false }),
    {
        TaskPump { scheduled: false, dispatching: false }
    }

    /// After a task was queued: post a wake-up unless one is on its way or
    /// the process's handle is unknown (zero).
    pub fn after_enqueue(&self, my_handle: i32) -> (res: PumpAction)
        ensures
            res == (if !self.scheduled && my_handle != 0 { PumpAction::PostWake } else { PumpAction::Nothing }),
    {
        if !self.scheduled && my_handle != 0 {
            PumpAction::PostWake
        } else {
            PumpAction::Nothing
        }
    }

    /// After posting the wake-up with result `res` (1 is success): on
    /// success a wake-up is on its way; otherwise, unless already
    /// dispatching, dispatch pending messages and post once more.
    pub fn after_post(&mut self, res: i32) -> (act: RetryAction)
        ensures
            res == 1 ==> act == RetryAction::Nothing && final(self).scheduled
                && final(self).dispatching == old(self).dispatching,
            res != 1 && !old(self).dispatching ==> act == RetryAction::DispatchAndRepost
                && final(self).dispatching && final(self).scheduled == old(self).scheduled,
            res != 1 && old(self).dispatching ==> act == RetryAction::Nothing && *final(self) == *old(self),
    {
        if res == 1 {
            self.scheduled = true;
            RetryAction::Nothing
        } else if !self.dispatching {
            self.dispatching = true;
            RetryAction::DispatchAndRepost
        } else {
            RetryAction::Nothing
        }
    }

    /// Dispatching is over.
    pub fn after_dispatch(&mut self)
        ensures
            !final(self).dispatching,
            final(self).scheduled == old(self).scheduled,
    {
        self.dispatching = false;
    }

    /// The wake-up arrived: the queue is being run and a new task needs a new wake-up.
    pub fn on_wake(&mut self)
        ensures
            !final(self).scheduled,
            final(self).dispatching == old(self).dispatching,
    {
        self.scheduled = false;
    }
}

} // verus!
