use vstd::prelude::*;
use std::collections::BTreeMap;
use std::collections::VecDeque;
use crate::input::{
    MouseButton, bit, key_l_param, key_l_param_bits, mouse_button_high_word, mouse_button_message,
    spec_mouse_button_high_word, spec_mouse_button_message, PM_REMOVE, VK_CONTROL, VK_LCONTROL,
    VK_LMENU, VK_LSHIFT, VK_MENU, VK_RCONTROL, VK_RMENU, VK_RSHIFT, VK_SHIFT, WM_KEYDOWN, WM_KEYUP,
    WM_MOUSEMOVE,
};

verus! {

broadcast use vstd::std_specs::btree::group_btree_axioms, vstd::laws_cmp::group_laws_cmp;

/// Simulated clock rate: the number of ticks in one second.
pub const TICKS_PER_SECOND: u64 = 3000;

/// Number of clock reads in a row, on the main thread, after which the main
/// thread is treated as busy-waiting and put to sleep until time advances.
pub const BUSY_WAIT_THRESHOLD: u64 = 100;

/// A waitable timer of the target program, in simulated ticks.
#[derive(Clone, Copy, Debug, PartialEq, Eq, Structural)]
pub struct WaitableTimer {
    pub reset_automatically: bool,
    pub signaled: bool,
    pub remaining_ticks: u64,
    /// The period of a periodic timer, never zero.
    pub period_in_ticks: Option<u64>,
}

impl WaitableTimer {
    pub open spec fn wf(self) -> bool {
        self.period_in_ticks matches Some(p) ==> p > 0
    }

    /// A timer runs while it has ticks left before it fires.
    pub fn running(&self) -> (running: bool)
        ensures
            running == (self.remaining_ticks != 0),
    {
        self.remaining_ticks != 0
    }

    /// The timer after `ticks` ticks have passed: a running timer counts
    /// down; when it reaches zero it is signaled, and a periodic timer starts
    /// its next period, less the ticks that passed after it fired (modulo the
    /// period).
    pub open spec fn advanced(self, ticks: u64) -> WaitableTimer {
        if self.remaining_ticks == 0 {
            self
        } else if ticks < self.remaining_ticks {
            WaitableTimer { remaining_ticks: (self.remaining_ticks - ticks) as u64, ..self }
        } else {
            WaitableTimer {
                signaled: true,
                remaining_ticks: match self.period_in_ticks {
                    Some(p) => (p - ((ticks - self.remaining_ticks) % (p as int))) as u64,
                    None => 0,
                },
                ..self
            }
        }
    }

    /// Lets `ticks` ticks pass for this timer.
    pub fn advance(&mut self, ticks: u64)
        requires
            old(self).wf(),
        ensures
            *final(self) == old(self).advanced(ticks),
            final(self).wf(),
    {
        if self.remaining_ticks > 0 {
            let mut remaining_ticks = ticks;
            let ticks_advanced_by = if self.remaining_ticks < remaining_ticks {
                self.remaining_ticks
            } else {
                remaining_ticks
            };
            self.remaining_ticks = self.remaining_ticks - ticks_advanced_by;
            remaining_ticks = remaining_ticks - ticks_advanced_by;
            if self.remaining_ticks == 0 {
                self.signaled = true;
                if let Some(period_in_ticks) = self.period_in_ticks {
                    remaining_ticks = remaining_ticks % period_in_ticks;
                    self.remaining_ticks = period_in_ticks - remaining_ticks;
                }
            }
        }
    }
}

proof fn lemma_period_remainder(x: int, b: int, p: int)
    requires
        p > 0,
        x >= 0,
        b >= 0,
    ensures
        b < p - x % p ==> (x + b) % p == x % p + b,
        b >= p - x % p ==> (b - (p - x % p)) % p == (x + b) % p,
{
    vstd::arithmetic::div_mod::lemma_fundamental_div_mod(x, p);
    vstd::arithmetic::div_mod::lemma_mod_bound(x, p);
    if b < p - x % p {
        vstd::arithmetic::div_mod::lemma_mod_add_multiples_vanish(x % p + b, p);
        vstd::arithmetic::div_mod::lemma_mod_multiples_vanish(x / p, x % p + b, p);
        vstd::arithmetic::div_mod::lemma_small_mod((x % p + b) as nat, p as nat);
        assert(x + b == p * (x / p) + (x % p + b));
    } else {
        vstd::arithmetic::div_mod::lemma_mod_multiples_vanish(x / p + 1, b - (p - x % p), p);
        assert(x + b == p * (x / p + 1) + (b - (p - x % p))) by (nonlinear_arith)
            requires
                x == p * (x / p) + x % p,
        ;
    }
}

/// Time passes for a timer the same whether it passes at once or in two
/// steps: advancing by `a` and then by `b` ticks gives the timer that
/// advancing by `a + b` gives.
pub proof fn lemma_timer_advance_additive(timer: WaitableTimer, a: u64, b: u64)
    requires
        timer.wf(),
        a + b <= u64::MAX,
    ensures
        timer.advanced(a).wf(),
        timer.advanced(a).advanced(b) == timer.advanced((a + b) as u64),
{
    let r = timer.remaining_ticks;
    if r != 0 && a >= r {
        if let Some(p) = timer.period_in_ticks {
            let x = a - r;
            vstd::arithmetic::div_mod::lemma_mod_bound(x, p as int);
            lemma_period_remainder(x, b as int, p as int);
            assert((a + b) - r == x + b);
        }
    }
}

/// Time passes for a table of timers the same whether it passes at once or
/// in two steps.
pub proof fn lemma_timers_advance_additive(timers: Map<u32, WaitableTimer>, a: u64, b: u64)
    requires
        timers_wf(timers),
        a + b <= u64::MAX,
    ensures
        timers_wf(timers_advanced(timers, a)),
        timers_advanced(timers_advanced(timers, a), b) == timers_advanced(timers, (a + b) as u64),
{
    assert forall|k: u32| #[trigger] timers.contains_key(k) implies timers[k].advanced(a).wf()
        && timers[k].advanced(a).advanced(b) == timers[k].advanced((a + b) as u64) by {
        lemma_timer_advance_additive(timers[k], a, b);
    }
    assert(timers_advanced(timers_advanced(timers, a), b) =~= timers_advanced(
        timers,
        (a + b) as u64,
    ));
}

/// Advances every timer of a table by `ticks`.
pub open spec fn timers_advanced(timers: Map<u32, WaitableTimer>, ticks: u64) -> Map<u32, WaitableTimer> {
    timers.map_values(|t: WaitableTimer| t.advanced(ticks))
}

pub open spec fn timers_wf(timers: Map<u32, WaitableTimer>) -> bool {
    forall|k: u32| #[trigger] timers.contains_key(k) ==> timers[k].wf()
}

/// Lets `ticks` ticks pass for every timer of the table.
pub fn advance_timers(timers: &mut BTreeMap<u32, WaitableTimer>, ticks: u64)
    requires
        timers_wf(old(timers)@),
    ensures
        final(timers)@ == timers_advanced(old(timers)@, ticks),
        timers_wf(final(timers)@),
{
    let ghost initial = timers@;
    let mut handles: Vec<u32> = Vec::new();
    let ghost ks = vstd::std_specs::iter::IteratorSpec::remaining(&vstd::std_specs::btree::spec_keys_iter(&*timers));
    for handle in it: timers.keys()
        invariant
            it.seq() == ks,
            handles@ == ks.unref().take(it.index()),
    {
        handles.push(*handle);
        assert(handles@ =~= ks.unref().take(it.index() + 1));
    }
    assert(handles@ =~= ks.unref());
    assert(handles@.to_set() == initial.dom());
    assert(ks.no_duplicates());
    assert(handles@.no_duplicates()) by {
        assert forall|a: int, b: int| 0 <= a < handles@.len() && 0 <= b < handles@.len() && a != b implies handles@[a] != handles@[b] by {
            assert(ks[a] != ks[b]);
        }
    }
    let mut i: usize = 0;
    while i < handles.len()
        invariant
            i <= handles@.len(),
            handles@.to_set() == initial.dom(),
            handles@.no_duplicates(),
            timers_wf(initial),
            timers@.dom() == initial.dom(),
            forall|k: u32| #[trigger] timers@.contains_key(k) ==> timers@[k] == (if handles@.take(i as int).contains(k) {
                initial[k].advanced(ticks)
            } else {
                initial[k]
            }),
        decreases handles@.len() - i,
    {
        let handle = handles[i];
        assert(handles@.to_set().contains(handle));
        assert(!handles@.take(i as int).contains(handle)) by {
            if handles@.take(i as int).contains(handle) {
                let k = choose|k: int| 0 <= k < i && #[trigger] handles@.take(i as int)[k] == handle;
                assert(handles@[k] == handles@[i as int]);
            }
        }
        let current = timers.get(&handle);
        if let Some(timer) = current {
            let mut timer = *timer;
            timer.advance(ticks);
            timers.insert(handle, timer);
        }
        assert forall|k: u32| #[trigger] timers@.contains_key(k) implies timers@[k] == (if handles@.take(i + 1).contains(k) {
                initial[k].advanced(ticks)
            } else {
                initial[k]
            }) by {
            if k == handle {
                assert(handles@.take(i + 1)[i as int] == handle);
            } else {
                assert(handles@.take(i + 1).contains(k) == handles@.take(i as int).contains(k)) by {
                    if handles@.take(i + 1).contains(k) {
                        let j = choose|j: int| 0 <= j < i + 1 && #[trigger] handles@.take(i + 1)[j] == k;
                        assert(handles@.take(i as int)[j] == k);
                    }
                    if handles@.take(i as int).contains(k) {
                        let j = choose|j: int| 0 <= j < i && #[trigger] handles@.take(i as int)[j] == k;
                        assert(handles@.take(i + 1)[j] == k);
                    }
                }
            }
        }
        i = i + 1;
    }
    assert(handles@.take(i as int) =~= handles@);
    assert(timers@ =~= timers_advanced(initial, ticks)) by {
        assert forall|k: u32| #[trigger] timers@.contains_key(k) implies timers@[k] == initial[k].advanced(ticks) by {
            assert(handles@.to_set().contains(k));
        }
    }
}


/// The simulated mouse.
#[derive(Clone, Copy, Debug, PartialEq, Eq, Structural)]
pub struct MouseState {
    pub x: u16,
    pub y: u16,
    pub left_button: bool,
    pub right_button: bool,
    pub middle_button: bool,
    pub x1_button: bool,
    pub x2_button: bool,
}

/// A window message as the hooks queue it for the program.
#[derive(Clone, Copy, Debug, PartialEq, Eq, Structural)]
pub struct WindowMessage {
    pub hwnd: usize,
    pub message: u32,
    pub w_param: usize,
    pub l_param: isize,
    pub time: u32,
}

/// A length of time, as whole seconds and nanoseconds.
#[derive(Clone, Copy, Debug, PartialEq, Eq, Structural)]
pub struct TimeSpan {
    pub secs: u64,
    pub nanos: u32,
}

/// An event that the controlling process sends to the hooks.
#[derive(Clone, Copy, Debug, PartialEq, Eq, Structural)]
pub enum Event {
    AdvanceTime(TimeSpan),
    SetKeyState { id: u8, state: bool },
    SetMousePosition { x: u16, y: u16 },
    SetMouseButtonState { button: MouseButton, state: bool },
    Idle,
}

/// What the hooks do after an event has been applied to the state.
#[derive(Clone, Copy, Debug, PartialEq, Eq, Structural)]
pub enum EventAction {
    /// Convert the span to ticks, add them as pending ticks, and stop waiting
    /// for events.
    AdvanceTime(TimeSpan),
    /// Deliver the message to each window of the main thread.
    PostMessage(WindowMessage),
    /// Report to the controlling process that the program is idle.
    SendIdle,
}

/// Whether a key is down, as the program sees it: a generic modifier is down
/// when its left or right key is.
pub open spec fn key_pressed(keys: Seq<bool>, code: u8) -> bool {
    if code == VK_SHIFT {
        keys[VK_LSHIFT as int] || keys[VK_RSHIFT as int]
    } else if code == VK_CONTROL {
        keys[VK_LCONTROL as int] || keys[VK_RCONTROL as int]
    } else if code == VK_MENU {
        keys[VK_LMENU as int] || keys[VK_RMENU as int]
    } else {
        keys[code as int]
    }
}

/// A key reads back as it was last set, and setting one key leaves every
/// other key's flag as it was. The generic shift, control and menu codes are
/// the exception: they read their left and right keys, so a generic modifier
/// reads as down once either of its keys is set down.
pub proof fn lemma_key_read_after_write(keys: Seq<bool>, code: u8, state: bool, other: u8)
    requires
        keys.len() == 256,
    ensures
        code != VK_SHIFT && code != VK_CONTROL && code != VK_MENU ==> key_pressed(
            keys.update(code as int, state),
            code,
        ) == state,
        other != code ==> keys.update(code as int, state)[other as int] == keys[other as int],
        (code == VK_LSHIFT || code == VK_RSHIFT) && state ==> key_pressed(
            keys.update(code as int, state),
            VK_SHIFT,
        ),
        (code == VK_LCONTROL || code == VK_RCONTROL) && state ==> key_pressed(
            keys.update(code as int, state),
            VK_CONTROL,
        ),
        (code == VK_LMENU || code == VK_RMENU) && state ==> key_pressed(
            keys.update(code as int, state),
            VK_MENU,
        ),
{
}

/// The generic modifiers read exactly their left and right keys: shift
/// (0x10) is 0xA0 or 0xA1, control (0x11) is 0xA2 or 0xA3, menu (0x12) is
/// 0xA4 or 0xA5; every other code reads its own flag. So setting a key other
/// than those two leaves the reading of a generic modifier as it was.
pub proof fn lemma_generic_modifiers_read_their_keys(keys: Seq<bool>, code: u8, state: bool, read: u8)
    requires
        keys.len() == 256,
    ensures
        key_pressed(keys, 0x10) == (keys[0xA0] || keys[0xA1]),
        key_pressed(keys, 0x11) == (keys[0xA2] || keys[0xA3]),
        key_pressed(keys, 0x12) == (keys[0xA4] || keys[0xA5]),
        read != 0x10 && read != 0x11 && read != 0x12 ==> key_pressed(keys, read) == keys[read as int],
        code != 0xA0 && code != 0xA1 ==> key_pressed(keys.update(code as int, state), 0x10)
            == key_pressed(keys, 0x10),
        code != 0xA2 && code != 0xA3 ==> key_pressed(keys.update(code as int, state), 0x11)
            == key_pressed(keys, 0x11),
        code != 0xA4 && code != 0xA5 ==> key_pressed(keys.update(code as int, state), 0x12)
            == key_pressed(keys, 0x12),
{
}

/// The `wParam` of a mouse message: the given high word, then the flags of
/// the second extra, first extra, middle button, control, shift, right and
/// left button (bits 6 down to 0).
pub open spec fn mouse_w_param_value(high_word: u16, mouse: MouseState, control: bool, shift: bool) -> int {
    high_word * 0x10000 + bit(mouse.x2_button) * 0x40 + bit(mouse.x1_button) * 0x20 + bit(
        mouse.middle_button,
    ) * 0x10 + bit(control) * 0x8 + bit(shift) * 0x4 + bit(mouse.right_button) * 0x2 + bit(
        mouse.left_button,
    )
}

/// The `lParam` of a mouse message: y in the high word, x in the low word, as a
/// pointer-sized signed value.
pub open spec fn mouse_l_param_value(mouse: MouseState) -> isize {
    ((mouse.y * 0x10000 + mouse.x) as u32) as isize
}

/// Whether a queued message passes the filters of a `PeekMessage` call: the
/// window filter 0 takes every window, and the identifier range 0..0 takes
/// every identifier.
pub open spec fn message_matches(message: WindowMessage, window_filter: usize, minimum_id: u32, maximum_id: u32) -> bool {
    &&& (window_filter == 0 || message.hwnd == window_filter)
    &&& ((minimum_id == 0 && maximum_id == 0) || (minimum_id <= message.message
        && message.message <= maximum_id))
}

/// `index` is the first message of the queue that passes the filters.
pub open spec fn is_first_match(queue: Seq<WindowMessage>, index: int, window_filter: usize, minimum_id: u32, maximum_id: u32) -> bool {
    &&& 0 <= index < queue.len()
    &&& message_matches(queue[index], window_filter, minimum_id, maximum_id)
    &&& forall|j: int| 0 <= j < index ==> !message_matches(#[trigger] queue[j], window_filter, minimum_id, maximum_id)
}

/// The state that the hooks keep inside the program: the simulated clock, the
/// keyboard and mouse, the messages waiting for the program, and its timers.
pub struct State {
    pub ticks: u64,
    pub pending_ticks: u64,
    pub busy_wait_count: u64,
    pub key_states: Vec<bool>,
    pub mouse: MouseState,
    pub custom_message_queue: VecDeque<WindowMessage>,
    pub waitable_timer_handles: BTreeMap<u32, WaitableTimer>,
}

impl State {
    /// One flag per virtual-key code; every timer is well formed.
    pub open spec fn wf(&self) -> bool {
        &&& self.key_states@.len() == 256
        &&& timers_wf(self.waitable_timer_handles@)
    }

    /// The state at start: time 0, nothing pending, no key or button down, the
    /// mouse at (0, 0), no queued message and no timer.
    pub fn new() -> (state: Self)
        ensures
            state.wf(),
            state.ticks == 0,
            state.pending_ticks == 0,
            state.busy_wait_count == 0,
            forall|i: int| 0 <= i < 256 ==> !#[trigger] state.key_states@[i],
            state.mouse == (MouseState {
                x: 0,
                y: 0,
                left_button: false,
                right_button: false,
                middle_button: false,
                x1_button: false,
                x2_button: false,
            }),
            state.custom_message_queue@.len() == 0,
            state.waitable_timer_handles@ == Map::<u32, WaitableTimer>::empty(),
    {
        let mut key_states: Vec<bool> = Vec::new();
        let mut i: usize = 0;
        while i < 256
            invariant
                i <= 256,
                key_states@.len() == i,
                forall|j: int| 0 <= j < i ==> !#[trigger] key_states@[j],
            decreases 256 - i,
        {
            key_states.push(false);
            i = i + 1;
        }
        State {
            ticks: 0,
            pending_ticks: 0,
            busy_wait_count: 0,
            key_states,
            mouse: MouseState {
                x: 0,
                y: 0,
                left_button: false,
                right_button: false,
                middle_button: false,
                x1_button: false,
                x2_button: false,
            },
            custom_message_queue: VecDeque::new(),
            waitable_timer_handles: BTreeMap::new(),
        }
    }

    pub fn ticks(&self) -> (ticks: u64)
        ensures
            ticks == self.ticks,
    {
        self.ticks
    }

    /// Whether a key is down; the generic shift, control and menu keys are down
    /// when their left or right key is.
    pub fn get_key_state(&self, key_code: u8) -> (pressed: bool)
        requires
            self.wf(),
        ensures
            pressed == key_pressed(self.key_states@, key_code),
    {
        if key_code == VK_SHIFT {
            self.key_states[VK_LSHIFT as usize] || self.key_states[VK_RSHIFT as usize]
        } else if key_code == VK_CONTROL {
            self.key_states[VK_LCONTROL as usize] || self.key_states[VK_RCONTROL as usize]
        } else if key_code == VK_MENU {
            self.key_states[VK_LMENU as usize] || self.key_states[VK_RMENU as usize]
        } else {
            self.key_states[key_code as usize]
        }
    }

    /// Sets the flag of one virtual-key code.
    pub fn set_key_state(&mut self, key_code: u8, state: bool)
        requires
            old(self).wf(),
        ensures
            final(self).wf(),
            final(self).key_states@ == old(self).key_states@.update(key_code as int, state),
            final(self).ticks == old(self).ticks,
            final(self).pending_ticks == old(self).pending_ticks,
            final(self).busy_wait_count == old(self).busy_wait_count,
            final(self).mouse == old(self).mouse,
            final(self).custom_message_queue@ == old(self).custom_message_queue@,
            final(self).waitable_timer_handles@ == old(self).waitable_timer_handles@,
    {
        self.key_states.set(key_code as usize, state);
    }

    /// Sets the state of one mouse button.
    pub fn set_mouse_button_state(&mut self, button: MouseButton, state: bool)
        ensures
            final(self).mouse == (match button {
                MouseButton::Left => MouseState { left_button: state, ..old(self).mouse },
                MouseButton::Right => MouseState { right_button: state, ..old(self).mouse },
                MouseButton::Middle => MouseState { middle_button: state, ..old(self).mouse },
                MouseButton::X1 => MouseState { x1_button: state, ..old(self).mouse },
                MouseButton::X2 => MouseState { x2_button: state, ..old(self).mouse },
            }),
            final(self).ticks == old(self).ticks,
            final(self).pending_ticks == old(self).pending_ticks,
            final(self).busy_wait_count == old(self).busy_wait_count,
            final(self).key_states@ == old(self).key_states@,
            final(self).custom_message_queue@ == old(self).custom_message_queue@,
            final(self).waitable_timer_handles@ == old(self).waitable_timer_handles@,
    {
        match button {
            MouseButton::Left => self.mouse.left_button = state,
            MouseButton::Right => self.mouse.right_button = state,
            MouseButton::Middle => self.mouse.middle_button = state,
            MouseButton::X1 => self.mouse.x1_button = state,
            MouseButton::X2 => self.mouse.x2_button = state,
        }
    }

    /// Adds ticks that the program may consume the next time it sleeps.
    pub fn add_pending_ticks(&mut self, ticks: u64)
        requires
            old(self).wf(),
            old(self).pending_ticks + ticks <= u64::MAX,
        ensures
            final(self).wf(),
            final(self).pending_ticks == old(self).pending_ticks + ticks,
            final(self).ticks == old(self).ticks,
            final(self).busy_wait_count == old(self).busy_wait_count,
            final(self).key_states@ == old(self).key_states@,
            final(self).mouse == old(self).mouse,
            final(self).custom_message_queue@ == old(self).custom_message_queue@,
            final(self).waitable_timer_handles@ == old(self).waitable_timer_handles@,
    {
        self.pending_ticks = self.pending_ticks + ticks;
    }

    /// One step of a sleep of `remaining` ticks on the main thread: as many of
    /// the remaining ticks as are pending pass (the clock and every timer
    /// advance by them). Returns the ticks still to sleep; once none are left
    /// the busy-wait count starts over.
    pub fn sleep_step(&mut self, remaining: u64) -> (still_remaining: u64)
        requires
            old(self).wf(),
            old(self).ticks + (if old(self).pending_ticks < remaining {
                old(self).pending_ticks
            } else {
                remaining
            }) <= u64::MAX,
        ensures
            final(self).wf(),
            ({
                let advanced = if old(self).pending_ticks < remaining {
                    old(self).pending_ticks
                } else {
                    remaining
                };
                &&& still_remaining == remaining - advanced
                &&& final(self).ticks == old(self).ticks + advanced
                &&& final(self).pending_ticks == old(self).pending_ticks - advanced
                &&& final(self).waitable_timer_handles@ == timers_advanced(
                    old(self).waitable_timer_handles@,
                    advanced,
                )
            }),
            final(self).ticks + final(self).pending_ticks == old(self).ticks + old(
                self,
            ).pending_ticks,
            final(self).busy_wait_count == (if still_remaining == 0 {
                0
            } else {
                old(self).busy_wait_count
            }),
            final(self).key_states@ == old(self).key_states@,
            final(self).mouse == old(self).mouse,
            final(self).custom_message_queue@ == old(self).custom_message_queue@,
    {
        let ticks_advanced_by = if self.pending_ticks < remaining {
            self.pending_ticks
        } else {
            remaining
        };
        self.ticks = self.ticks + ticks_advanced_by;
        self.pending_ticks = self.pending_ticks - ticks_advanced_by;
        let still_remaining = remaining - ticks_advanced_by;
        advance_timers(&mut self.waitable_timer_handles, ticks_advanced_by);
        if still_remaining == 0 {
            self.busy_wait_count = 0;
        }
        still_remaining
    }

    /// One check of an indefinite sleep on the main thread: if ticks are
    /// pending, all of them pass (the clock and every timer advance by them),
    /// the busy-wait count starts over and the sleep ends (true); otherwise
    /// nothing changes and the sleep goes on (false).
    pub fn wake_from_indefinite_sleep(&mut self) -> (woke: bool)
        requires
            old(self).wf(),
            old(self).ticks + old(self).pending_ticks <= u64::MAX,
        ensures
            final(self).wf(),
            woke == (old(self).pending_ticks > 0),
            final(self).ticks + final(self).pending_ticks == old(self).ticks + old(
                self,
            ).pending_ticks,
            woke ==> {
                &&& final(self).ticks == old(self).ticks + old(self).pending_ticks
                &&& final(self).pending_ticks == 0
                &&& final(self).busy_wait_count == 0
                &&& final(self).waitable_timer_handles@ == timers_advanced(
                    old(self).waitable_timer_handles@,
                    old(self).pending_ticks,
                )
            },
            !woke ==> {
                &&& final(self).ticks == old(self).ticks
                &&& final(self).pending_ticks == old(self).pending_ticks
                &&& final(self).busy_wait_count == old(self).busy_wait_count
                &&& final(self).waitable_timer_handles@ == old(self).waitable_timer_handles@
            },
            final(self).key_states@ == old(self).key_states@,
            final(self).mouse == old(self).mouse,
            final(self).custom_message_queue@ == old(self).custom_message_queue@,
    {
        let pending_ticks = self.pending_ticks;
        if pending_ticks > 0 {
            self.ticks = self.ticks + pending_ticks;
            self.pending_ticks = 0;
            self.busy_wait_count = 0;
            advance_timers(&mut self.waitable_timer_handles, pending_ticks);
            true
        } else {
            false
        }
    }

    /// Counts a read of the clock on the main thread. Returns whether the
    /// count has reached the busy-wait threshold, so that the main thread must
    /// sleep until time advances before it reads the clock.
    pub fn register_busy_wait(&mut self) -> (must_sleep: bool)
        requires
            old(self).busy_wait_count < u64::MAX,
        ensures
            final(self).busy_wait_count == old(self).busy_wait_count + 1,
            must_sleep == (final(self).busy_wait_count >= BUSY_WAIT_THRESHOLD),
            final(self).ticks == old(self).ticks,
            final(self).pending_ticks == old(self).pending_ticks,
            final(self).key_states@ == old(self).key_states@,
            final(self).mouse == old(self).mouse,
            final(self).custom_message_queue@ == old(self).custom_message_queue@,
            final(self).waitable_timer_handles@ == old(self).waitable_timer_handles@,
    {
        self.busy_wait_count = self.busy_wait_count + 1;
        self.busy_wait_count >= BUSY_WAIT_THRESHOLD
    }

    /// The message that reports the mouse to the program, with the given
    /// identifier and `wParam` high word, stamped with the current time.
    #[verifier::spinoff_prover]
    #[verifier::rlimit(40)]
    pub fn mouse_message(&self, message: u32, high_word: u16) -> (posted: WindowMessage)
        requires
            self.wf(),
        ensures
            posted == (WindowMessage {
                hwnd: 0,
                message,
                w_param: mouse_w_param_value(
                    high_word,
                    self.mouse,
                    key_pressed(self.key_states@, VK_CONTROL),
                    key_pressed(self.key_states@, VK_SHIFT),
                ) as usize,
                l_param: mouse_l_param_value(self.mouse),
                time: self.ticks as u32,
            }),
    {
        let control = self.get_key_state(VK_CONTROL);
        let shift = self.get_key_state(VK_SHIFT);
        let w_param: usize = (high_word as usize) * 0x10000 + (if self.mouse.x2_button {
            0x40usize
        } else {
            0
        }) + (if self.mouse.x1_button {
            0x20usize
        } else {
            0
        }) + (if self.mouse.middle_button {
            0x10usize
        } else {
            0
        }) + (if control {
            0x8usize
        } else {
            0
        }) + (if shift {
            0x4usize
        } else {
            0
        }) + (if self.mouse.right_button {
            0x2usize
        } else {
            0
        }) + (if self.mouse.left_button {
            0x1usize
        } else {
            0
        });
        let l_bits: u32 = (self.mouse.y as u32) * 0x10000 + (self.mouse.x as u32);
        WindowMessage {
            hwnd: 0,
            message,
            w_param,
            l_param: l_bits as isize,
            time: self.ticks as u32,
        }
    }

    /// Applies an event from the controlling process to the state and says
    /// what remains to be done: a key event records the key and yields a key
    /// message (down or up, with the key's previous state in its `lParam`); a
    /// mouse event records the mouse and yields a mouse message; time and
    /// idle requests leave the state as it is.
    pub fn handle_event(&mut self, event: Event) -> (action: EventAction)
        requires
            old(self).wf(),
        ensures
            final(self).wf(),
            final(self).ticks == old(self).ticks,
            final(self).pending_ticks == old(self).pending_ticks,
            final(self).busy_wait_count == old(self).busy_wait_count,
            final(self).custom_message_queue@ == old(self).custom_message_queue@,
            final(self).waitable_timer_handles@ == old(self).waitable_timer_handles@,
            match event {
                Event::AdvanceTime(span) => {
                    &&& action == EventAction::AdvanceTime(span)
                    &&& final(self).key_states@ == old(self).key_states@
                    &&& final(self).mouse == old(self).mouse
                },
                Event::SetKeyState { id, state } => {
                    &&& final(self).key_states@ == old(self).key_states@.update(id as int, state)
                    &&& final(self).mouse == old(self).mouse
                    &&& action == EventAction::PostMessage(
                        WindowMessage {
                            hwnd: 0,
                            message: if state {
                                WM_KEYDOWN
                            } else {
                                WM_KEYUP
                            },
                            w_param: id as usize,
                            l_param: (key_l_param_bits(
                                state,
                                key_pressed(old(self).key_states@, id),
                            ) as u32) as isize,
                            time: old(self).ticks as u32,
                        },
                    )
                },
                Event::SetMousePosition { x, y } => {
                    &&& final(self).key_states@ == old(self).key_states@
                    &&& final(self).mouse == MouseState { x, y, ..old(self).mouse }
                    &&& action == EventAction::PostMessage(
                        WindowMessage {
                            hwnd: 0,
                            message: WM_MOUSEMOVE,
                            w_param: mouse_w_param_value(
                                0,
                                final(self).mouse,
                                key_pressed(old(self).key_states@, VK_CONTROL),
                                key_pressed(old(self).key_states@, VK_SHIFT),
                            ) as usize,
                            l_param: mouse_l_param_value(final(self).mouse),
                            time: old(self).ticks as u32,
                        },
                    )
                },
                Event::SetMouseButtonState { button, state } => {
                    &&& final(self).key_states@ == old(self).key_states@
                    &&& final(self).mouse == (match button {
                        MouseButton::Left => MouseState { left_button: state, ..old(self).mouse },
                        MouseButton::Right => MouseState { right_button: state, ..old(self).mouse },
                        MouseButton::Middle => MouseState {
                            middle_button: state,
                            ..old(self).mouse
                        },
                        MouseButton::X1 => MouseState { x1_button: state, ..old(self).mouse },
                        MouseButton::X2 => MouseState { x2_button: state, ..old(self).mouse },
                    })
                    &&& action == EventAction::PostMessage(
                        WindowMessage {
                            hwnd: 0,
                            message: spec_mouse_button_message(button, state),
                            w_param: mouse_w_param_value(
                                spec_mouse_button_high_word(button),
                                final(self).mouse,
                                key_pressed(old(self).key_states@, VK_CONTROL),
                                key_pressed(old(self).key_states@, VK_SHIFT),
                            ) as usize,
                            l_param: mouse_l_param_value(final(self).mouse),
                            time: old(self).ticks as u32,
                        },
                    )
                },
                Event::Idle => {
                    &&& action == EventAction::SendIdle
                    &&& final(self).key_states@ == old(self).key_states@
                    &&& final(self).mouse == old(self).mouse
                },
            },
    {
        match event {
            Event::AdvanceTime(span) => EventAction::AdvanceTime(span),
            Event::SetKeyState { id, state } => {
                let previously_pressed = self.get_key_state(id);
                self.set_key_state(id, state);
                EventAction::PostMessage(
                    WindowMessage {
                        hwnd: 0,
                        message: if state {
                            WM_KEYDOWN
                        } else {
                            WM_KEYUP
                        },
                        w_param: id as usize,
                        l_param: key_l_param(state, previously_pressed),
                        time: self.ticks as u32,
                    },
                )
            },
            Event::SetMousePosition { x, y } => {
                self.mouse.x = x;
                self.mouse.y = y;
                EventAction::PostMessage(self.mouse_message(WM_MOUSEMOVE, 0))
            },
            Event::SetMouseButtonState { button, state } => {
                self.set_mouse_button_state(button, state);
                EventAction::PostMessage(
                    self.mouse_message(
                        mouse_button_message(button, state),
                        mouse_button_high_word(button),
                    ),
                )
            },
            Event::Idle => EventAction::SendIdle,
        }
    }

    /// Delivers a message to one window of the main thread: a window that is
    /// not visible does not get it; otherwise the message, addressed to that
    /// window, joins the end of the queue.
    pub fn post_to_window(&mut self, message: WindowMessage, window: usize, visible: bool)
        ensures
            final(self).custom_message_queue@ == (if window != 0 && !visible {
                old(self).custom_message_queue@
            } else {
                old(self).custom_message_queue@.push(WindowMessage { hwnd: window, ..message })
            }),
            final(self).ticks == old(self).ticks,
            final(self).pending_ticks == old(self).pending_ticks,
            final(self).busy_wait_count == old(self).busy_wait_count,
            final(self).key_states@ == old(self).key_states@,
            final(self).mouse == old(self).mouse,
            final(self).waitable_timer_handles@ == old(self).waitable_timer_handles@,
    {
        if window != 0 && !visible {
            return;
        }
        self.custom_message_queue.push_back(WindowMessage { hwnd: window, ..message });
    }

    /// Looks for the first queued message that passes the filters of a
    /// `PeekMessage` call. If there is one it is returned, and with
    /// `PM_REMOVE` among the flags it leaves the queue; if there is none the
    /// queue is unchanged and the real `PeekMessage` is asked instead.
    pub fn peek_custom_message(
        &mut self,
        window_filter: usize,
        minimum_id: u32,
        maximum_id: u32,
        flags: u32,
    ) -> (found: Option<WindowMessage>)
        ensures
            found is None <==> (forall|i: int|
                0 <= i < old(self).custom_message_queue@.len() ==> !message_matches(
                    #[trigger] old(self).custom_message_queue@[i],
                    window_filter,
                    minimum_id,
                    maximum_id,
                )),
            found is None ==> final(self).custom_message_queue@ == old(self).custom_message_queue@,
            found matches Some(m) ==> exists|i: int|
                {
                    &&& is_first_match(
                        old(self).custom_message_queue@,
                        i,
                        window_filter,
                        minimum_id,
                        maximum_id,
                    )
                    &&& m == #[trigger] old(self).custom_message_queue@[i]
                    &&& final(self).custom_message_queue@ == if flags & PM_REMOVE != 0 {
                        old(self).custom_message_queue@.remove(i)
                    } else {
                        old(self).custom_message_queue@
                    }
                },
            final(self).ticks == old(self).ticks,
            final(self).pending_ticks == old(self).pending_ticks,
            final(self).busy_wait_count == old(self).busy_wait_count,
            final(self).key_states@ == old(self).key_states@,
            final(self).mouse == old(self).mouse,
            final(self).waitable_timer_handles@ == old(self).waitable_timer_handles@,
    {
        let ghost queue = self.custom_message_queue@;
        let all_ids = minimum_id == 0 && maximum_id == 0;
        let mut index: usize = 0;
        while index < self.custom_message_queue.len()
            invariant
                self.custom_message_queue@ == queue,
                queue == old(self).custom_message_queue@,
                self.ticks == old(self).ticks,
                self.pending_ticks == old(self).pending_ticks,
                self.busy_wait_count == old(self).busy_wait_count,
                self.key_states@ == old(self).key_states@,
                self.mouse == old(self).mouse,
                self.waitable_timer_handles@ == old(self).waitable_timer_handles@,
                index <= queue.len(),
                all_ids == (minimum_id == 0 && maximum_id == 0),
                forall|j: int| 0 <= j < index ==> !message_matches(#[trigger] queue[j], window_filter, minimum_id, maximum_id),
            decreases queue.len() - index,
        {
            let message = self.custom_message_queue[index];
            let window_passes = window_filter == 0 || message.hwnd == window_filter;
            let id_passes = all_ids || (minimum_id <= message.message && message.message <= maximum_id);
            if window_passes && id_passes {
                assert(message_matches(queue[index as int], window_filter, minimum_id, maximum_id));
                if flags & PM_REMOVE != 0 {
                    self.custom_message_queue.remove(index);
                }
                assert(is_first_match(queue, index as int, window_filter, minimum_id, maximum_id));
                return Some(message);
            }
            index = index + 1;
        }
        None
    }

    /// The keyboard as `GetKeyboardState` reports it: for each of the 256
    /// virtual-key codes, 0x80 when the key is down and 0 otherwise.
    pub fn keyboard_state(&self) -> (bytes: Vec<u8>)
        requires
            self.wf(),
        ensures
            bytes@.len() == 256,
            forall|i: int| 0 <= i < 256 ==> #[trigger] bytes@[i] == (if key_pressed(self.key_states@, i as u8) {
                0x80u8
            } else {
                0u8
            }),
    {
        let mut bytes: Vec<u8> = Vec::new();
        let mut i: usize = 0;
        while i < 256
            invariant
                i <= 256,
                self.wf(),
                bytes@.len() == i,
                forall|j: int| 0 <= j < i ==> #[trigger] bytes@[j] == (if key_pressed(self.key_states@, j as u8) {
                    0x80u8
                } else {
                    0u8
                }),
            decreases 256 - i,
        {
            let pressed = self.get_key_state(i as u8);
            bytes.push(if pressed { 0x80u8 } else { 0u8 });
            i = i + 1;
        }
        bytes
    }

    /// The key state word of `GetKeyState`: the key is the low byte of `id`,
    /// and the result has only its top bit set when the key is down.
    pub fn key_state_word(&self, id: i32) -> (word: i16)
        requires
            self.wf(),
        ensures
            word == (if key_pressed(self.key_states@, id as u8) {
                i16::MIN
            } else {
                0i16
            }),
    {
        if self.get_key_state(id as u8) {
            i16::MIN
        } else {
            0
        }
    }
}


/// The flag of `CreateWaitableTimerEx` that makes a manual-reset timer.
pub const CREATE_WAITABLE_TIMER_MANUAL_RESET: u32 = 0x1;

/// Hundred-nanosecond intervals in one second, the unit of timer due times.
pub const INTERVALS_PER_SECOND: u64 = 10_000_000;

/// The ticks of a timer period given in milliseconds.
pub open spec fn period_ticks(period: i32) -> u64 {
    (period * TICKS_PER_SECOND / 1000) as u64
}

/// The ticks until a timer fires, for a due time in hundred-nanosecond
/// intervals: an absolute time when it is not negative, measured from the
/// current time `now`; a relative time when it is negative.
pub open spec fn due_ticks(due_time: i64, now: u64) -> u64 {
    if due_time >= 0 {
        (due_time * TICKS_PER_SECOND / INTERVALS_PER_SECOND as int - now) as u64
    } else {
        ((-due_time) * TICKS_PER_SECOND / INTERVALS_PER_SECOND as int) as u64
    }
}

/// The inputs on which setting a timer computes without overflow: a period
/// that is not negative, and a due time whose tick count fits in 64 bits and,
/// when absolute, is not before `now`.
pub open spec fn timer_settable(due_time: i64, period: i32, now: u64) -> bool {
    &&& period >= 0
    &&& due_time > i64::MIN
    &&& (if due_time >= 0 {
        due_time * TICKS_PER_SECOND <= u64::MAX && due_time * TICKS_PER_SECOND
            / INTERVALS_PER_SECOND as int >= now
    } else {
        (-due_time) * TICKS_PER_SECOND <= u64::MAX
    })
}

/// The ticks a wait on a timer may sleep with a timeout in milliseconds: none
/// when it is signaled, up to when it fires when it runs, else the timeout.
pub open spec fn timer_wait_ticks(timer: WaitableTimer, timeout_ms: u32) -> u64 {
    let timeout_ticks = (timeout_ms * TICKS_PER_SECOND / 1000) as u64;
    if timer.signaled {
        0
    } else if timer.remaining_ticks != 0 {
        if timeout_ticks < timer.remaining_ticks {
            timeout_ticks
        } else {
            timer.remaining_ticks
        }
    } else {
        timeout_ticks
    }
}

/// A wait on a signaled timer sleeps no ticks, whatever is left of its
/// period; otherwise a wait never sleeps longer than its timeout, and on a
/// running timer it sleeps until the timer fires if that comes first.
pub proof fn lemma_timer_wait_ticks(timer: WaitableTimer, timeout_ms: u32)
    ensures
        timer.signaled ==> timer_wait_ticks(timer, timeout_ms) == 0,
        timer_wait_ticks(timer, timeout_ms) <= timeout_ms * 3,
        !timer.signaled && timer.remaining_ticks != 0 && timer.remaining_ticks <= timeout_ms * 3
            ==> timer_wait_ticks(timer, timeout_ms) == timer.remaining_ticks,
{
    assert(timeout_ms * 3000 / 1000 == timeout_ms * 3) by (nonlinear_arith);
}

impl State {
    /// Records a newly created timer under the low 32 bits of its handle: not
    /// signaled, not running, not periodic, and resetting automatically unless
    /// the flags are exactly the manual-reset flag.
    pub fn register_waitable_timer(&mut self, handle: usize, flags: u32)
        requires
            old(self).wf(),
        ensures
            final(self).wf(),
            final(self).waitable_timer_handles@ == old(self).waitable_timer_handles@.insert(
                handle as u32,
                WaitableTimer {
                    reset_automatically: flags != CREATE_WAITABLE_TIMER_MANUAL_RESET,
                    signaled: false,
                    remaining_ticks: 0,
                    period_in_ticks: None,
                },
            ),
            final(self).ticks == old(self).ticks,
            final(self).pending_ticks == old(self).pending_ticks,
            final(self).busy_wait_count == old(self).busy_wait_count,
            final(self).key_states@ == old(self).key_states@,
            final(self).mouse == old(self).mouse,
            final(self).custom_message_queue@ == old(self).custom_message_queue@,
    {
        self.waitable_timer_handles.insert(
            handle as u32,
            WaitableTimer {
                reset_automatically: flags != CREATE_WAITABLE_TIMER_MANUAL_RESET,
                signaled: false,
                remaining_ticks: 0,
                period_in_ticks: None,
            },
        );
    }

    /// Records that a known timer was set: it is no longer signaled, its
    /// period becomes the given one in ticks (no period when that is zero), and
    /// it fires after the ticks of its due time. An unknown handle changes
    /// nothing.
    pub fn set_waitable_timer(&mut self, handle: usize, due_time: i64, period: i32)
        requires
            old(self).wf(),
            old(self).waitable_timer_handles@.contains_key(handle as u32) ==> timer_settable(
                due_time,
                period,
                old(self).ticks,
            ),
        ensures
            final(self).wf(),
            final(self).waitable_timer_handles@ == if old(self).waitable_timer_handles@.contains_key(
                handle as u32,
            ) {
                old(self).waitable_timer_handles@.insert(
                    handle as u32,
                    WaitableTimer {
                        reset_automatically: old(self).waitable_timer_handles@[handle as u32].reset_automatically,
                        signaled: false,
                        remaining_ticks: due_ticks(due_time, old(self).ticks),
                        period_in_ticks: if period_ticks(period) == 0 {
                            None
                        } else {
                            Some(period_ticks(period))
                        },
                    },
                )
            } else {
                old(self).waitable_timer_handles@
            },
            final(self).ticks == old(self).ticks,
            final(self).pending_ticks == old(self).pending_ticks,
            final(self).busy_wait_count == old(self).busy_wait_count,
            final(self).key_states@ == old(self).key_states@,
            final(self).mouse == old(self).mouse,
            final(self).custom_message_queue@ == old(self).custom_message_queue@,
    {
        let key = handle as u32;
        let found = self.waitable_timer_handles.get(&key);
        let timer = match found {
            Some(timer) => *timer,
            None => {
                return;
            },
        };
        let period_in_ticks = (period as u64) * TICKS_PER_SECOND / 1000;
        let remaining_ticks = if due_time >= 0 {
            (due_time as u64) * TICKS_PER_SECOND / INTERVALS_PER_SECOND - self.ticks
        } else {
            ((-due_time) as u64) * TICKS_PER_SECOND / INTERVALS_PER_SECOND
        };
        let updated = WaitableTimer {
            reset_automatically: timer.reset_automatically,
            signaled: false,
            remaining_ticks,
            period_in_ticks: if period_in_ticks == 0 {
                None
            } else {
                Some(period_in_ticks)
            },
        };
        self.waitable_timer_handles.insert(key, updated);
    }

    /// How long a wait on the handle may sleep, in ticks, if the handle is a
    /// known timer (see `timer_wait_ticks`); `None` for any other handle.
    pub fn timer_wait_duration(&self, handle: usize, timeout_ms: u32) -> (ticks: Option<u64>)
        ensures
            ticks == if self.waitable_timer_handles@.contains_key(handle as u32) {
                Some(timer_wait_ticks(self.waitable_timer_handles@[handle as u32], timeout_ms))
            } else {
                None::<u64>
            },
    {
        let key = handle as u32;
        match self.waitable_timer_handles.get(&key) {
            Some(timer) => {
                let timeout_ticks = (timeout_ms as u64) * TICKS_PER_SECOND / 1000;
                let ticks = if timer.signaled {
                    0
                } else if timer.running() {
                    if timeout_ticks < timer.remaining_ticks {
                        timeout_ticks
                    } else {
                        timer.remaining_ticks
                    }
                } else {
                    timeout_ticks
                };
                Some(ticks)
            },
            None => None,
        }
    }

    /// Ends a wait on a known timer: the wait succeeds when the timer is
    /// signaled, and a timer that resets automatically is then no longer
    /// signaled. `None` for a handle that is not a known timer.
    pub fn finish_timer_wait(&mut self, handle: usize) -> (signaled: Option<bool>)
        requires
            old(self).wf(),
        ensures
            final(self).wf(),
            signaled == if old(self).waitable_timer_handles@.contains_key(handle as u32) {
                Some(old(self).waitable_timer_handles@[handle as u32].signaled)
            } else {
                None::<bool>
            },
            final(self).waitable_timer_handles@ == if old(self).waitable_timer_handles@.contains_key(
                handle as u32,
            ) && old(self).waitable_timer_handles@[handle as u32].signaled && old(
                self,
            ).waitable_timer_handles@[handle as u32].reset_automatically {
                old(self).waitable_timer_handles@.insert(
                    handle as u32,
                    WaitableTimer {
                        signaled: false,
                        ..old(self).waitable_timer_handles@[handle as u32]
                    },
                )
            } else {
                old(self).waitable_timer_handles@
            },
            final(self).ticks == old(self).ticks,
            final(self).pending_ticks == old(self).pending_ticks,
            final(self).busy_wait_count == old(self).busy_wait_count,
            final(self).key_states@ == old(self).key_states@,
            final(self).mouse == old(self).mouse,
            final(self).custom_message_queue@ == old(self).custom_message_queue@,
    {
        let key = handle as u32;
        let timer = match self.waitable_timer_handles.get(&key) {
            Some(timer) => *timer,
            None => {
                return None;
            },
        };
        if timer.signaled && timer.reset_automatically {
            self.waitable_timer_handles.insert(key, WaitableTimer { signaled: false, ..timer });
        }
        Some(timer.signaled)
    }
}

} // verus!
