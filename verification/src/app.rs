use vstd::prelude::*;
use crate::process::{Process, ProcessState, spec_process_state, spec_from_handle};

verus! {

/// System messages the platform sends an application.
pub const VM_MSG_PAINT: i32 = 1;
pub const VM_MSG_ACTIVE: i32 = 2;
pub const VM_MSG_INACTIVE: i32 = 3;
pub const VM_MSG_CREATE: i32 = 4;
pub const VM_MSG_QUIT: i32 = 5;
pub const VM_MSG_HIDE: i32 = 6;
pub const VM_MSG_CARD_PLUG_OUT: i32 = 7;
pub const VM_MSG_SCREEN_ROTATE: i32 = 8;
pub const VM_MSG_PUSH: i32 = 9;

/// A system event of the application.
#[derive(Debug, Clone, Copy, PartialEq, Eq, Structural)]
pub enum Event {
    Create { param: i32 },
    Paint,
    Active,
    Inactive,
    Hide,
    Quit,
    CardPlugOut,
    ScreenRotate,
    Push,
    Unknown(i32, i32),
}

/// The event a system message stands for.
pub open spec fn spec_event(message: i32, param: i32) -> Event {
    if message == VM_MSG_CREATE {
        Event::Create { param }
    } else if message == VM_MSG_PAINT {
        Event::Paint
    } else if message == VM_MSG_ACTIVE {
        Event::Active
    } else if message == VM_MSG_INACTIVE {
        Event::Inactive
    } else if message == VM_MSG_HIDE {
        Event::Hide
    } else if message == VM_MSG_QUIT {
        Event::Quit
    } else if message == VM_MSG_CARD_PLUG_OUT {
        Event::CardPlugOut
    } else if message == VM_MSG_SCREEN_ROTATE {
        Event::ScreenRotate
    } else if message == VM_MSG_PUSH {
        Event::Push
    } else {
        Event::Unknown(message, param)
    }
}

/// Each of the nine system messages has an event of its own: the event is
/// `Unknown` (carrying the message and its parameter) exactly for the other
/// messages, and two different known messages never give the same event.
pub proof fn lemma_known_messages_distinct(m1: i32, p1: i32, m2: i32, p2: i32)
    ensures
        (spec_event(m1, p1) is Unknown) <==> !(VM_MSG_PAINT <= m1 <= VM_MSG_PUSH),
        !(VM_MSG_PAINT <= m1 <= VM_MSG_PUSH) ==> spec_event(m1, p1) == Event::Unknown(m1, p1),
        VM_MSG_PAINT <= m1 <= VM_MSG_PUSH && VM_MSG_PAINT <= m2 <= VM_MSG_PUSH && m1 != m2
            ==> spec_event(m1, p1) != spec_event(m2, p2),
{
}

/// What the platform's messages mean: the event of each one, by name. The
/// GUI timers stop on exactly the inactive and hide messages and resume on
/// exactly the create, paint and active messages.
pub proof fn lemma_message_meanings(m: i32, p: i32)
    ensures
        spec_event(VM_MSG_CREATE, p) == (Event::Create { param: p }),
        spec_event(VM_MSG_PAINT, p) == Event::Paint,
        spec_event(VM_MSG_ACTIVE, p) == Event::Active,
        spec_event(VM_MSG_INACTIVE, p) == Event::Inactive,
        spec_event(VM_MSG_HIDE, p) == Event::Hide,
        spec_event(VM_MSG_QUIT, p) == Event::Quit,
        spec_event(VM_MSG_CARD_PLUG_OUT, p) == Event::CardPlugOut,
        spec_event(VM_MSG_SCREEN_ROTATE, p) == Event::ScreenRotate,
        spec_event(VM_MSG_PUSH, p) == Event::Push,
        (spec_event(m, p) is Inactive || spec_event(m, p) is Hide)
            <==> (m == VM_MSG_INACTIVE || m == VM_MSG_HIDE),
        (spec_event(m, p) is Create || spec_event(m, p) is Paint || spec_event(m, p) is Active)
            <==> (m == VM_MSG_CREATE || m == VM_MSG_PAINT || m == VM_MSG_ACTIVE),
{
}

impl Event {
    /// The event a system message stands for.
    pub fn from_message(message: i32, param: i32) -> (res: Event)
        ensures
            res == spec_event(message, param),
    {
        if message == VM_MSG_CREATE {
            Event::Create { param }
        } else if message == VM_MSG_PAINT {
            Event::Paint
        } else if message == VM_MSG_ACTIVE {
            Event::Active
        } else if message == VM_MSG_INACTIVE {
            Event::Inactive
        } else if message == VM_MSG_HIDE {
            Event::Hide
        } else if message == VM_MSG_QUIT {
            Event::Quit
        } else if message == VM_MSG_CARD_PLUG_OUT {
            Event::CardPlugOut
        } else if message == VM_MSG_SCREEN_ROTATE {
            Event::ScreenRotate
        } else if message == VM_MSG_PUSH {
            Event::Push
        } else {
            Event::Unknown(message, param)
        }
    }

    /// True for the events on which timers of the user interface start running again.
    pub fn resumes_gui_timers(&self) -> (res: bool)
        ensures
            res == (*self is Create || *self is Paint || *self is Active),
    {
        match self {
            Event::Create { .. } | Event::Paint | Event::Active => true,
            _ => false,
        }
    }

    /// True for the events on which timers of the user interface stop.
    pub fn suspends_gui_timers(&self) -> (res: bool)
        ensures
            res == (*self is Inactive || *self is Hide),
    {
        match self {
            Event::Inactive | Event::Hide => true,
            _ => false,
        }
    }
}

/// The running process (see `Process::current`).
pub fn current_process(cache: &mut i32, reported: i32) -> (res: Option<Process>)
    ensures
        *old(cache) > 0 ==> res == spec_from_handle(*old(cache)) && *final(cache) == *old(cache),
        *old(cache) <= 0 && reported > 0 ==> res == spec_from_handle(reported) && *final(cache) == reported,
        *old(cache) <= 0 && reported <= 0 ==> res is None && *final(cache) == *old(cache),
{
    Process::current(cache, reported)
}

/// The state of the running process: the state the platform reports for
/// it, or `Unknown` when there is no running process.
pub fn current_state(process: Option<Process>, raw_state: i32) -> (res: ProcessState)
    ensures
        process is Some ==> res == spec_process_state(raw_state),
        process is None ==> res == ProcessState::Unknown,
{
    match process {
        Some(p) => p.state(raw_state),
        None => ProcessState::Unknown,
    }
}

/// True when the application is in the foreground.
pub fn is_active(state: ProcessState) -> (res: bool)
    ensures
        res == (state == ProcessState::Foreground),
{
    state == ProcessState::Foreground
}

/// True when the application runs in the background.
pub fn is_background(state: ProcessState) -> (res: bool)
    ensures
        res == (state == ProcessState::Background),
{
    state == ProcessState::Background
}

/// The outcome of moving the application to the background, from the platform's status (0 is success).
pub fn set_background(status: i32) -> (res: Result<(), i32>)
    ensures
        status == 0 ==> res is Ok,
        status != 0 ==> res == Err::<(), i32>(status),
{
    if status == 0 {
        Ok(())
    } else {
        Err(status)
    }
}

/// The outcome of moving the application to the foreground, from the platform's status (negative is the error).
pub fn set_foreground(status: i32) -> (res: Result<(), i32>)
    ensures
        status < 0 ==> res == Err::<(), i32>(status),
        status >= 0 ==> res is Ok,
{
    if status < 0 {
        Err(status)
    } else {
        Ok(())
    }
}

/// Most exit hooks an application may register.
pub const MAX_SUBSYSTEMS: usize = 8;

/// The exit hooks of the application, by identity (their address), in
/// slots that are filled in order of registration.
pub struct AtexitHooks {
    slots: Vec<Option<usize>>,
}

/// The slots after registering `id`: unchanged when it is already there or
/// no slot is free, otherwise the first free slot takes it.
pub open spec fn spec_register(slots: Seq<Option<usize>>, id: usize) -> Seq<Option<usize>> {
    if slots.contains(Some(id)) {
        slots
    } else if exists|i: int| 0 <= i < slots.len() && slots[i] is None {
        let i = choose|i: int|
            0 <= i < slots.len() && slots[i] is None && forall|k: int| 0 <= k < i ==> slots[k] is Some;
        slots.update(i, Some(id))
    } else {
        slots
    }
}

/// The hooks that slots hold, in slot order.
pub open spec fn registered_ids(slots: Seq<Option<usize>>) -> Seq<usize> {
    slots.filter(|s: Option<usize>| s is Some).map_values(|s: Option<usize>| s->0)
}

/// The first `n` slots hold hooks and the others are free.
pub open spec fn filled_prefix(slots: Seq<Option<usize>>, n: int) -> bool {
    &&& 0 <= n <= slots.len()
    &&& forall|i: int| 0 <= i < n ==> (#[trigger] slots[i]) is Some
    &&& forall|i: int| n <= i < slots.len() ==> (#[trigger] slots[i]) is None
}

impl AtexitHooks {
    pub closed spec fn view_slots(&self) -> Seq<Option<usize>> {
        self.slots@
    }

    /// No hook registered.
    pub fn new() -> (res: AtexitHooks)
        ensures
            res.view_slots().len() == MAX_SUBSYSTEMS,
            forall|i: int| 0 <= i < MAX_SUBSYSTEMS ==> res.view_slots()[i] is None,
    {
        let mut slots: Vec<Option<usize>> = Vec::new();
        while slots.len() < MAX_SUBSYSTEMS
            invariant
                slots@.len() <= MAX_SUBSYSTEMS,
                forall|i: int| 0 <= i < slots@.len() ==> slots@[i] is None,
            decreases MAX_SUBSYSTEMS - slots@.len(),
        {
            slots.push(None);
        }
        AtexitHooks { slots }
    }

    /// Registers the hook `id` once; returns the slot it took, or none when
    /// it was already registered or every slot is taken.
    pub fn register(&mut self, id: usize) -> (res: Option<usize>)
        ensures
            final(self).view_slots() == spec_register(old(self).view_slots(), id),
            match res {
                Some(i) => i < old(self).view_slots().len() && old(self).view_slots()[i as int] is None
                    && final(self).view_slots()[i as int] == Some(id),
                None => final(self).view_slots() == old(self).view_slots(),
            },
    {
        let n = self.slots.len();
        let mut i: usize = 0;
        while i < n
            invariant
                n == self.slots@.len(),
                self.slots@ == old(self).slots@,
                i <= n,
                forall|k: int| 0 <= k < i ==> self.slots@[k] != Some(id),
            decreases n - i,
        {
            if self.slots[i] == Some(id) {
                assert(self.slots@.contains(Some(id)));
                return None;
            }
            i = i + 1;
        }
        assert(!self.slots@.contains(Some(id)));
        let mut j: usize = 0;
        while j < n
            invariant
                n == self.slots@.len(),
                self.slots@ == old(self).slots@,
                j <= n,
                forall|k: int| 0 <= k < j ==> self.slots@[k] is Some,
                !self.slots@.contains(Some(id)),
            decreases n - j,
        {
            if self.slots[j].is_none() {
                let ghost old_slots = self.slots@;
                proof {
                    let c = choose|c: int|
                        0 <= c < old_slots.len() && old_slots[c] is None && forall|k: int| 0 <= k < c ==> old_slots[k] is Some;
                    assert(0 <= j < old_slots.len() && old_slots[j as int] is None
                        && forall|k: int| 0 <= k < j ==> old_slots[k] is Some);
                    if c < j {
                        assert(old_slots[c] is Some);
                    }
                    if c > j {
                        assert(old_slots[j as int] is Some);
                    }
                    assert(c == j);
                }
                self.slots.set(j, Some(id));
                return Some(j);
            }
            j = j + 1;
        }
        None
    }

    /// The registered hooks, in slot order: the order they run at exit.
    pub fn registered(&self) -> (res: Vec<usize>)
        ensures
            res@ == registered_ids(self.view_slots()),
    {
        let mut out: Vec<usize> = Vec::new();
        let mut i: usize = 0;
        while i < self.slots.len()
            invariant
                i <= self.slots@.len(),
                out@ == self.slots@.take(i as int).filter(|s: Option<usize>| s is Some).map_values(|s: Option<usize>| s->0),
            decreases self.slots@.len() - i,
        {
            proof {
                reveal_with_fuel(Seq::filter, 1);
                assert(self.slots@.take(i + 1).drop_last() =~= self.slots@.take(i as int));
            }
            if let Some(h) = self.slots[i] {
                out.push(h);
            }
            assert(out@ =~= self.slots@.take(i + 1).filter(|s: Option<usize>| s is Some).map_values(|s: Option<usize>| s->0));
            i = i + 1;
        }
        assert(self.slots@.take(self.slots@.len() as int) =~= self.slots@);
        out
    }
}

/// Registering a hook twice is the same as registering it once.
pub proof fn lemma_register_idempotent(slots: Seq<Option<usize>>, id: usize)
    ensures
        spec_register(spec_register(slots, id), id) == spec_register(slots, id),
{
    if !slots.contains(Some(id)) && exists|i: int| 0 <= i < slots.len() && slots[i] is None {
        let i = choose|i: int|
            0 <= i < slots.len() && slots[i] is None && forall|k: int| 0 <= k < i ==> slots[k] is Some;
        assert(exists|i: int|
            0 <= i < slots.len() && slots[i] is None && forall|k: int| 0 <= k < i ==> slots[k] is Some) by {
            lemma_first_free_exists(slots);
        }
        let s2 = slots.update(i, Some(id));
        assert(s2[i] == Some(id));
        assert(s2.contains(Some(id)));
    }
}

proof fn lemma_first_free_exists(slots: Seq<Option<usize>>)
    requires
        exists|i: int| 0 <= i < slots.len() && slots[i] is None,
    ensures
        exists|i: int| 0 <= i < slots.len() && slots[i] is None && forall|k: int| 0 <= k < i ==> slots[k] is Some,
    decreases slots.len(),
{
    if slots[0] is None {
        assert(forall|k: int| 0 <= k < 0 ==> slots[k] is Some);
    } else {
        let w = choose|i: int| 0 <= i < slots.len() && slots[i] is None;
        let rest = slots.drop_first();
        assert(rest[w - 1] is None);
        lemma_first_free_exists(rest);
        let j = choose|j: int| 0 <= j < rest.len() && rest[j] is None && forall|k: int| 0 <= k < j ==> rest[k] is Some;
        assert(slots[j + 1] is None);
        assert forall|k: int| 0 <= k < j + 1 implies slots[k] is Some by {
            if k > 0 {
                assert(slots[k] == rest[k - 1]);
            }
        }
    }
}

proof fn lemma_filter_filled(slots: Seq<Option<usize>>, n: int)
    requires
        filled_prefix(slots, n),
    ensures
        slots.filter(|s: Option<usize>| s is Some) == slots.take(n),
    decreases slots.len(),
{
    reveal_with_fuel(Seq::filter, 1);
    if slots.len() > 0 {
        let d = slots.drop_last();
        if slots.len() == n {
            assert(filled_prefix(d, n - 1));
            lemma_filter_filled(d, n - 1);
            assert(slots.last() is Some);
            assert(d.take(n - 1) =~= d);
            assert(slots.take(n) =~= d.push(slots.last()));
        } else {
            assert(filled_prefix(d, n));
            lemma_filter_filled(d, n);
            assert(slots.last() is None);
            assert(d.take(n) =~= slots.take(n));
        }
    } else {
        assert(slots.take(n) =~= slots);
    }
}

/// Exit hooks run in the order they were registered: while the slots are
/// filled from the front, registering a new hook when a slot is free fills
/// the next slot and puts the hook last among the registered ones.
pub proof fn lemma_register_appends(slots: Seq<Option<usize>>, n: int, id: usize)
    requires
        filled_prefix(slots, n),
        n < slots.len(),
        !slots.contains(Some(id)),
    ensures
        spec_register(slots, id) == slots.update(n, Some(id)),
        filled_prefix(spec_register(slots, id), n + 1),
        registered_ids(spec_register(slots, id)) == registered_ids(slots).push(id),
{
    assert(slots[n] is None);
    assert(exists|i: int| 0 <= i < slots.len() && slots[i] is None);
    let i = choose|i: int|
        0 <= i < slots.len() && slots[i] is None && forall|k: int| 0 <= k < i ==> slots[k] is Some;
    assert(exists|i: int|
        0 <= i < slots.len() && slots[i] is None && forall|k: int| 0 <= k < i ==> slots[k] is Some) by {
        assert(forall|k: int| 0 <= k < n ==> slots[k] is Some);
    }
    if i < n {
        assert(slots[i] is Some);
    }
    if i > n {
        assert(slots[n] is Some);
    }
    assert(i == n);
    let s2 = slots.update(n, Some(id));
    assert(filled_prefix(s2, n + 1));
    lemma_filter_filled(slots, n);
    lemma_filter_filled(s2, n + 1);
    assert(s2.take(n + 1) =~= slots.take(n).push(Some(id)));
    assert(s2.take(n + 1).map_values(|s: Option<usize>| s->0) =~= slots.take(n).map_values(|s: Option<usize>| s->0).push(id));
}

/// A new set of exit hooks has its slots filled from the front (none of them).
pub proof fn lemma_new_hooks_filled(slots: Seq<Option<usize>>)
    requires
        forall|i: int| 0 <= i < slots.len() ==> slots[i] is None,
    ensures
        filled_prefix(slots, 0),
        registered_ids(slots) == Seq::<usize>::empty(),
{
    lemma_filter_filled(slots, 0);
    assert(slots.take(0) =~= Seq::<Option<usize>>::empty());
}

} // verus!
