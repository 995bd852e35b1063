use vstd::prelude::*;

verus! {

/// Kinds of key event the platform reports.
pub const VM_KEY_EVENT_UP: i32 = 1;
pub const VM_KEY_EVENT_DOWN: i32 = 2;
pub const VM_KEY_EVENT_LONG_PRESS: i32 = 3;
pub const VM_KEY_EVENT_REPEAT: i32 = 4;

/// A key event.
#[derive(Debug, Clone, Copy, PartialEq, Eq, Structural)]
pub enum KeyEvent {
    Up,
    Down,
    LongPress,
    Repeat,
    Unknown(i32),
}

/// The event that a platform event code stands for.
pub open spec fn spec_key_event(event: i32) -> KeyEvent {
    if event == VM_KEY_EVENT_UP {
        KeyEvent::Up
    } else if event == VM_KEY_EVENT_DOWN {
        KeyEvent::Down
    } else if event == VM_KEY_EVENT_LONG_PRESS {
        KeyEvent::LongPress
    } else if event == VM_KEY_EVENT_REPEAT {
        KeyEvent::Repeat
    } else {
        KeyEvent::Unknown(event)
    }
}

impl KeyEvent {
    /// The event that a platform event code stands for.
    pub fn from_raw(event: i32) -> (res: KeyEvent)
        ensures
            res == spec_key_event(event),
    {
        if event == VM_KEY_EVENT_UP {
            KeyEvent::Up
        } else if event == VM_KEY_EVENT_DOWN {
            KeyEvent::Down
        } else if event == VM_KEY_EVENT_LONG_PRESS {
            KeyEvent::LongPress
        } else if event == VM_KEY_EVENT_REPEAT {
            KeyEvent::Repeat
        } else {
            KeyEvent::Unknown(event)
        }
    }
}

impl From<i32> for KeyEvent {
    fn from(event: i32) -> (res: KeyEvent) {
        KeyEvent::from_raw(event)
    }
}

impl vstd::std_specs::convert::FromSpecImpl<i32> for KeyEvent {
    open spec fn obeys_from_spec() -> bool {
        true
    }

    open spec fn from_spec(event: i32) -> KeyEvent {
        spec_key_event(event)
    }
}

/// A key, by the platform's key code (see `codes`).
#[derive(Debug, Clone, Copy, PartialEq, Eq, Hash, Structural)]
pub struct KeyCode(pub i32);

/// The keypad layouts the platform knows.
#[derive(Debug, Clone, Copy, PartialEq, Eq, Structural)]
pub enum KeypadMode {
    Number1Key,
    Number2Key,
    Number3Key,
    Qwerty1Key,
    Qwerty2Key,
    Qwerty3Key,
}

impl KeypadMode {
    /// The platform's code for this layout.
    pub fn to_mre(self) -> (res: u8)
        ensures
            res == match self {
                KeypadMode::Number1Key => 0u8,
                KeypadMode::Number2Key => 1u8,
                KeypadMode::Number3Key => 2u8,
                KeypadMode::Qwerty1Key => 3u8,
                KeypadMode::Qwerty2Key => 4u8,
                KeypadMode::Qwerty3Key => 5u8,
            },
    {
        match self {
            KeypadMode::Number1Key => 0,
            KeypadMode::Number2Key => 1,
            KeypadMode::Number3Key => 2,
            KeypadMode::Qwerty1Key => 3,
            KeypadMode::Qwerty2Key => 4,
            KeypadMode::Qwerty3Key => 5,
        }
    }
}

/// The outcome of switching the keypad layout, from the platform's status:
/// 0 is success, anything else the error.
pub fn set_mode_result(status: i32) -> (res: Result<(), i32>)
    ensures
        status == 0 ==> res is Ok,
        status != 0 ==> res == Err::<(), i32>(status),
{
    if status == 0 {
        Ok(())
    } else {
        Err(status)
    }
}

/// Flag: the key is held down.
pub const FLAG_IS_PRESSED: u8 = 0b001;
/// Flag: the key went down since the last `update`.
pub const FLAG_JUST_PRESSED: u8 = 0b010;
/// Flag: the key went up since the last `update`.
pub const FLAG_JUST_RELEASED: u8 = 0b100;

/// Number of keys whose state is tracked: key codes -10 to 109.
pub const MAX_KEYS: usize = 120;

/// The tracked state of one key: its flags and a tick count, which is the
/// time it went down while it is held and how long it was held once released.
#[derive(Clone, Copy, Debug, PartialEq, Eq, Structural)]
pub struct KeyState {
    pub flags: u8,
    pub time_value: u16,
}

impl KeyState {
    /// A key that is up, with no event recorded.
    pub fn new() -> (res: Self)
        ensures
            res.flags == 0,
            res.time_value == 0,
    {
        KeyState { flags: 0, time_value: 0 }
    }

    /// Sets (`value`) or clears the flags of `mask`.
    pub fn set_flag(&mut self, mask: u8, value: bool)
        ensures
            final(self).flags == (if value { old(self).flags | mask } else { old(self).flags & !mask }),
            final(self).time_value == old(self).time_value,
    {
        if value {
            self.flags = self.flags | mask;
        } else {
            self.flags = self.flags & !mask;
        }
    }

    /// True when any flag of `mask` is set.
    pub fn get_flag(&self, mask: u8) -> (res: bool)
        ensures
            res == (self.flags & mask != 0),
    {
        (self.flags & mask) != 0
    }
}

/// The slot of a key code: the code plus ten, when that lies in 0..MAX_KEYS; -1 otherwise.
pub open spec fn spec_key_index(keycode: i32) -> int {
    if 0 <= keycode + 10 < MAX_KEYS {
        keycode + 10
    } else {
        -1
    }
}

/// The slot of a key code in the table of key states.
pub fn key_to_index(keycode: KeyCode) -> (res: Option<usize>)
    ensures
        match res {
            Some(i) => i == spec_key_index(keycode.0),
            None => spec_key_index(keycode.0) == -1,
        },
{
    let index: i64 = keycode.0 as i64 + 10;
    if index >= 0 && index < MAX_KEYS as i64 {
        Some(index as usize)
    } else {
        None
    }
}

/// The state of a key after the platform reported `event` for it at tick `now`.
pub open spec fn spec_transition(s: KeyState, event: i32, now: u16) -> KeyState {
    if event == VM_KEY_EVENT_DOWN {
        if s.flags & FLAG_IS_PRESSED == 0 {
            KeyState { flags: (s.flags | FLAG_JUST_PRESSED) | FLAG_IS_PRESSED, time_value: now }
        } else {
            KeyState { flags: s.flags | FLAG_IS_PRESSED, time_value: s.time_value }
        }
    } else if event == VM_KEY_EVENT_UP {
        if s.flags & FLAG_IS_PRESSED != 0 {
            KeyState {
                flags: (s.flags & !FLAG_IS_PRESSED) | FLAG_JUST_RELEASED,
                time_value: now.wrapping_sub(s.time_value),
            }
        } else {
            s
        }
    } else {
        s
    }
}

/// The state of a key after `update`: the "just" flags cleared.
pub open spec fn spec_after_update(s: KeyState) -> KeyState {
    KeyState { flags: (s.flags & !FLAG_JUST_PRESSED) & !FLAG_JUST_RELEASED, time_value: s.time_value }
}

/// The state of every tracked key.
pub struct KeyStates {
    states: Vec<KeyState>,
}

impl View for KeyStates {
    type V = Seq<KeyState>;

    closed spec fn view(&self) -> Seq<KeyState> {
        self.states@
    }
}

impl KeyStates {
    /// Well-formed: one state per tracked key.
    pub open spec fn wf(&self) -> bool {
        self@.len() == MAX_KEYS
    }

    /// Every key up, with no event recorded.
    pub fn new() -> (res: Self)
        ensures
            res.wf(),
            res@.len() == MAX_KEYS,
            forall|i: int| 0 <= i < MAX_KEYS ==> res@[i] == (KeyState { flags: 0, time_value: 0 }),
    {
        let mut states: Vec<KeyState> = Vec::new();
        while states.len() < MAX_KEYS
            invariant
                states@.len() <= MAX_KEYS,
                forall|i: int| 0 <= i < states@.len() ==> states@[i] == (KeyState { flags: 0, time_value: 0 }),
            decreases MAX_KEYS - states@.len(),
        {
            states.push(KeyState::new());
        }
        KeyStates { states }
    }

    /// Records an event the platform reported at tick `now` and returns the
    /// event and key to hand to the application's key handler.
    pub fn on_key_event(&mut self, event: i32, keycode: i32, now: u16) -> (res: (KeyEvent, KeyCode))
        requires
            old(self).wf(),
        ensures
            final(self).wf(),
            res == (spec_key_event(event), KeyCode(keycode)),
            final(self)@ == (if spec_key_index(keycode) >= 0 {
                old(self)@.update(
                    spec_key_index(keycode),
                    spec_transition(old(self)@[spec_key_index(keycode)], event, now),
                )
            } else {
                old(self)@
            }),
    {
        let evt = KeyEvent::from_raw(event);
        if let Some(idx) = key_to_index(KeyCode(keycode)) {
            let mut state = self.states[idx];
            match evt {
                KeyEvent::Down => {
                    if !state.get_flag(FLAG_IS_PRESSED) {
                        state.set_flag(FLAG_JUST_PRESSED, true);
                        state.time_value = now;
                    }
                    state.set_flag(FLAG_IS_PRESSED, true);
                },
                KeyEvent::Up => {
                    if state.get_flag(FLAG_IS_PRESSED) {
                        state.set_flag(FLAG_IS_PRESSED, false);
                        state.set_flag(FLAG_JUST_RELEASED, true);
                        state.time_value = now.wrapping_sub(state.time_value);
                    }
                },
                _ => {},
            }
            self.states.set(idx, state);
        }
        (evt, KeyCode(keycode))
    }

    /// True while the key is held down.
    pub fn is_pressed(&self, keycode: KeyCode) -> (res: bool)
        requires
            self.wf(),
        ensures
            res == (spec_key_index(keycode.0) >= 0
                && self@[spec_key_index(keycode.0)].flags & FLAG_IS_PRESSED != 0),
    {
        match key_to_index(keycode) {
            Some(idx) => self.states[idx].get_flag(FLAG_IS_PRESSED),
            None => false,
        }
    }

    /// True when the key went down since the last `update`.
    pub fn just_pressed(&self, keycode: KeyCode) -> (res: bool)
        requires
            self.wf(),
        ensures
            res == (spec_key_index(keycode.0) >= 0
                && self@[spec_key_index(keycode.0)].flags & FLAG_JUST_PRESSED != 0),
    {
        match key_to_index(keycode) {
            Some(idx) => self.states[idx].get_flag(FLAG_JUST_PRESSED),
            None => false,
        }
    }

    /// True when the key went up since the last `update`.
    pub fn just_released(&self, keycode: KeyCode) -> (res: bool)
        requires
            self.wf(),
        ensures
            res == (spec_key_index(keycode.0) >= 0
                && self@[spec_key_index(keycode.0)].flags & FLAG_JUST_RELEASED != 0),
    {
        match key_to_index(keycode) {
            Some(idx) => self.states[idx].get_flag(FLAG_JUST_RELEASED),
            None => false,
        }
    }

    /// How long, in ticks, the key has been held (while it is down, up to
    /// tick `now`) or was held (once released); zero for untracked keys.
    pub fn hold_duration(&self, keycode: KeyCode, now: u16) -> (res: u32)
        requires
            self.wf(),
        ensures
            res == (if spec_key_index(keycode.0) < 0 {
                0u32
            } else if self@[spec_key_index(keycode.0)].flags & FLAG_IS_PRESSED != 0 {
                now.wrapping_sub(self@[spec_key_index(keycode.0)].time_value) as u32
            } else {
                self@[spec_key_index(keycode.0)].time_value as u32
            }),
    {
        match key_to_index(keycode) {
            Some(idx) => {
                let state = self.states[idx];
                if state.get_flag(FLAG_IS_PRESSED) {
                    now.wrapping_sub(state.time_value) as u32
                } else {
                    state.time_value as u32
                }
            },
            None => 0,
        }
    }

    /// Ends a frame: forgets which keys just went down or up.
    pub fn update(&mut self)
        requires
            old(self).wf(),
        ensures
            final(self).wf(),
            final(self)@ == old(self)@.map_values(|s: KeyState| spec_after_update(s)),
    {
        let n = self.states.len();
        let mut i: usize = 0;
        while i < n
            invariant
                n == self.states@.len(),
                n == MAX_KEYS,
                i <= n,
                forall|k: int| 0 <= k < i ==> self.states@[k] == spec_after_update(old(self).states@[k]),
                forall|k: int| i <= k < n ==> self.states@[k] == old(self).states@[k],
            decreases n - i,
        {
            let mut state = self.states[i];
            state.set_flag(FLAG_JUST_PRESSED, false);
            state.set_flag(FLAG_JUST_RELEASED, false);
            self.states.set(i, state);
            i = i + 1;
        }
        assert(self.states@ =~= old(self).states@.map_values(|s: KeyState| spec_after_update(s)));
    }
}

/// Pressing a key that is up and then releasing it leaves it up, marks it
/// just pressed and just released, and records the ticks between the two events.
pub proof fn lemma_press_then_release(s: KeyState, t_down: u16, t_up: u16)
    requires
        s.flags & FLAG_IS_PRESSED == 0,
    ensures
        ({
            let r = spec_transition(spec_transition(s, VM_KEY_EVENT_DOWN, t_down), VM_KEY_EVENT_UP, t_up);
            &&& r.flags & FLAG_IS_PRESSED == 0
            &&& r.flags & FLAG_JUST_PRESSED != 0
            &&& r.flags & FLAG_JUST_RELEASED != 0
            &&& r.time_value == t_up.wrapping_sub(t_down)
        }),
{
    let f = s.flags;
    assert(((f | 2u8) | 1u8) & 1u8 != 0) by (bit_vector);
    assert((((f | 2u8) | 1u8) & !1u8 | 4u8) & 1u8 == 0) by (bit_vector);
    assert((((f | 2u8) | 1u8) & !1u8 | 4u8) & 2u8 != 0) by (bit_vector);
    assert((((f | 2u8) | 1u8) & !1u8 | 4u8) & 4u8 != 0) by (bit_vector);
}

/// A key down event always leaves the key held, and a key up event always leaves it up.
pub proof fn lemma_down_up_pressed(s: KeyState, now: u16)
    ensures
        spec_transition(s, VM_KEY_EVENT_DOWN, now).flags & FLAG_IS_PRESSED != 0,
        spec_transition(s, VM_KEY_EVENT_UP, now).flags & FLAG_IS_PRESSED == 0,
{
    let f = s.flags;
    assert(((f | 2u8) | 1u8) & 1u8 != 0) by (bit_vector);
    assert((f | 1u8) & 1u8 != 0) by (bit_vector);
    assert(((f & !1u8) | 4u8) & 1u8 == 0) by (bit_vector);
}

/// `update` keeps whether a key is held and how long, and clears both "just" flags.
pub proof fn lemma_update_keeps_pressed(s: KeyState)
    ensures
        (spec_after_update(s).flags & FLAG_IS_PRESSED != 0) == (s.flags & FLAG_IS_PRESSED != 0),
        spec_after_update(s).flags & FLAG_JUST_PRESSED == 0,
        spec_after_update(s).flags & FLAG_JUST_RELEASED == 0,
        spec_after_update(s).time_value == s.time_value,
{
    let f = s.flags;
    assert((((f & !2u8) & !4u8) & 1u8 != 0) == (f & 1u8 != 0)) by (bit_vector);
    assert(((f & !2u8) & !4u8) & 2u8 == 0) by (bit_vector);
    assert(((f & !2u8) & !4u8) & 4u8 == 0) by (bit_vector);
}

/// The four kinds of key event each decode to their own event; any other
/// code is `Unknown`, carrying the code.
pub proof fn lemma_key_events_distinct(a: i32, b: i32)
    ensures
        spec_key_event(VM_KEY_EVENT_UP) == KeyEvent::Up,
        spec_key_event(VM_KEY_EVENT_DOWN) == KeyEvent::Down,
        spec_key_event(VM_KEY_EVENT_LONG_PRESS) == KeyEvent::LongPress,
        spec_key_event(VM_KEY_EVENT_REPEAT) == KeyEvent::Repeat,
        (spec_key_event(a) is Unknown) <==> !(VM_KEY_EVENT_UP <= a <= VM_KEY_EVENT_REPEAT),
        !(VM_KEY_EVENT_UP <= a <= VM_KEY_EVENT_REPEAT) ==> spec_key_event(a) == KeyEvent::Unknown(a),
        a != b ==> spec_key_event(a) != spec_key_event(b),
{
}

/// Key codes -10 to 109 each have a slot of their own in the table, in
/// order; every other code has none.
pub proof fn lemma_key_slots(a: i32, b: i32)
    ensures
        spec_key_index(a) >= 0 <==> -10 <= a < 110,
        spec_key_index(a) < MAX_KEYS,
        spec_key_index(a) >= 0 && spec_key_index(b) >= 0 && a < b ==> spec_key_index(a) < spec_key_index(b),
        spec_key_index(-10i32) == 0,
{
}

/// Only a press of a released key and a release of a held key change a
/// key's state: a repeated down event on a held key, an up event on a
/// released key and every other event (long press, repeat, unknown) leave
/// it exactly as it was.
pub proof fn lemma_other_events_change_nothing(s: KeyState, event: i32, now: u16)
    ensures
        s.flags & FLAG_IS_PRESSED != 0 ==> spec_transition(s, VM_KEY_EVENT_DOWN, now) == s,
        s.flags & FLAG_IS_PRESSED == 0 ==> spec_transition(s, VM_KEY_EVENT_UP, now) == s,
        event != VM_KEY_EVENT_DOWN && event != VM_KEY_EVENT_UP ==> spec_transition(s, event, now) == s,
{
    let f = s.flags;
    assert(f & 1u8 != 0 ==> f | 1u8 == f) by (bit_vector);
}

/// Pressing a released key marks it held and just pressed, keeps its
/// "just released" mark as it was, and starts its clock at the press.
pub proof fn lemma_press_starts_clock(s: KeyState, now: u16)
    requires
        s.flags & FLAG_IS_PRESSED == 0,
    ensures
        spec_transition(s, VM_KEY_EVENT_DOWN, now).flags & FLAG_IS_PRESSED != 0,
        spec_transition(s, VM_KEY_EVENT_DOWN, now).flags & FLAG_JUST_PRESSED != 0,
        (spec_transition(s, VM_KEY_EVENT_DOWN, now).flags & FLAG_JUST_RELEASED)
            == (s.flags & FLAG_JUST_RELEASED),
        spec_transition(s, VM_KEY_EVENT_DOWN, now).time_value == now,
{
    let f = s.flags;
    assert(((f | 2u8) | 1u8) & 1u8 != 0) by (bit_vector);
    assert(((f | 2u8) | 1u8) & 2u8 != 0) by (bit_vector);
    assert(((f | 2u8) | 1u8) & 4u8 == f & 4u8) by (bit_vector);
}

} // verus!
