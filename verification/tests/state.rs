use std::collections::BTreeMap;
use winter::input::{
    MouseButton, VK_CONTROL, VK_LCONTROL, VK_LSHIFT, VK_SHIFT, WM_KEYDOWN, WM_KEYUP,
    WM_LBUTTONDOWN, WM_MOUSEMOVE, WM_XBUTTONUP, PM_REMOVE,
};
use winter::state::{
    advance_timers, Event, EventAction, State, TimeSpan, WaitableTimer, WindowMessage,
    BUSY_WAIT_THRESHOLD,
};

fn message(action: EventAction) -> WindowMessage {
    match action {
        EventAction::PostMessage(m) => m,
        other => panic!("expected a message, got {:?}", other),
    }
}

#[test]
fn new_state_is_at_rest() {
    let state = State::new();
    assert_eq!(state.ticks(), 0);
    assert_eq!(state.pending_ticks, 0);
    assert_eq!(state.key_states.len(), 256);
    assert!(state.key_states.iter().all(|k| !k));
    assert_eq!(state.mouse.x, 0);
    assert_eq!(state.mouse.y, 0);
    assert!(state.custom_message_queue.is_empty());
    assert!(state.waitable_timer_handles.is_empty());
}

#[test]
fn key_down_then_up_messages() {
    let mut state = State::new();
    let down = message(state.handle_event(Event::SetKeyState { id: 65, state: true }));
    assert_eq!(
        down,
        WindowMessage { hwnd: 0, message: WM_KEYDOWN, w_param: 65, l_param: 0x0000_0001, time: 0 }
    );
    assert!(state.get_key_state(65));
    let repeat = message(state.handle_event(Event::SetKeyState { id: 65, state: true }));
    assert_eq!(repeat.l_param, 0x4000_0001);
    let up = message(state.handle_event(Event::SetKeyState { id: 65, state: false }));
    assert_eq!(up.message, WM_KEYUP);
    assert_eq!(up.l_param, 0xC000_0001u32 as isize);
    assert!(!state.get_key_state(65));
}

#[test]
fn key_reads_back_what_was_set() {
    let mut state = State::new();
    state.set_key_state(0x41, true);
    assert!(state.get_key_state(0x41));
    assert!(!state.get_key_state(0x42));
    state.set_key_state(0x41, false);
    assert!(!state.get_key_state(0x41));
}

#[test]
fn generic_modifiers_follow_left_and_right_keys() {
    let mut state = State::new();
    assert!(!state.get_key_state(VK_SHIFT));
    state.set_key_state(VK_LSHIFT, true);
    assert!(state.get_key_state(VK_SHIFT));
    // Setting the generic code itself is not what it reads.
    state.set_key_state(VK_LSHIFT, false);
    state.set_key_state(VK_SHIFT, true);
    assert!(!state.get_key_state(VK_SHIFT));
    state.set_key_state(VK_LCONTROL, true);
    assert!(state.get_key_state(VK_CONTROL));
}

#[test]
fn keyboard_state_and_key_state_word() {
    let mut state = State::new();
    state.set_key_state(VK_LSHIFT, true);
    state.set_key_state(0x41, true);
    let bytes = state.keyboard_state();
    assert_eq!(bytes.len(), 256);
    assert_eq!(bytes[VK_SHIFT as usize], 0x80);
    assert_eq!(bytes[VK_LSHIFT as usize], 0x80);
    assert_eq!(bytes[0x41], 0x80);
    assert_eq!(bytes[0x42], 0);
    assert_eq!(state.key_state_word(0x41), i16::MIN);
    assert_eq!(state.key_state_word(0x141), i16::MIN);
    assert_eq!(state.key_state_word(0x42), 0);
}

#[test]
fn mouse_events_messages() {
    let mut state = State::new();
    let moved = message(state.handle_event(Event::SetMousePosition { x: 10, y: 20 }));
    assert_eq!(
        moved,
        WindowMessage { hwnd: 0, message: WM_MOUSEMOVE, w_param: 0, l_param: 20 * 0x10000 + 10, time: 0 }
    );
    state.set_key_state(VK_LCONTROL, true);
    let pressed = message(state.handle_event(Event::SetMouseButtonState {
        button: MouseButton::Left,
        state: true,
    }));
    assert_eq!(pressed.message, WM_LBUTTONDOWN);
    assert_eq!(pressed.w_param, 0x8 | 0x1);
    assert_eq!(pressed.l_param, 20 * 0x10000 + 10);
    assert!(state.mouse.left_button);
    let x2 = message(state.handle_event(Event::SetMouseButtonState {
        button: MouseButton::X2,
        state: false,
    }));
    assert_eq!(x2.message, WM_XBUTTONUP);
    assert_eq!(x2.w_param, 2 * 0x10000 + 0x8 + 0x1);
}

#[test]
fn time_and_idle_events_change_nothing() {
    let mut state = State::new();
    let span = TimeSpan { secs: 2, nanos: 500 };
    assert_eq!(state.handle_event(Event::AdvanceTime(span)), EventAction::AdvanceTime(span));
    assert_eq!(state.handle_event(Event::Idle), EventAction::SendIdle);
    assert_eq!(state.ticks(), 0);
    assert!(state.custom_message_queue.is_empty());
}

#[test]
fn sleep_consumes_pending_ticks() {
    let mut state = State::new();
    state.add_pending_ticks(100);
    assert_eq!(state.sleep_step(30), 0);
    assert_eq!(state.ticks(), 30);
    assert_eq!(state.pending_ticks, 70);
    assert_eq!(state.sleep_step(100), 30);
    assert_eq!(state.ticks(), 100);
    assert_eq!(state.pending_ticks, 0);
}

#[test]
fn indefinite_sleep_wakes_on_pending_ticks() {
    let mut state = State::new();
    assert!(!state.wake_from_indefinite_sleep());
    state.add_pending_ticks(5);
    assert!(state.wake_from_indefinite_sleep());
    assert_eq!(state.ticks(), 5);
    assert_eq!(state.pending_ticks, 0);
}

#[test]
fn busy_wait_threshold() {
    let mut state = State::new();
    for _ in 1..BUSY_WAIT_THRESHOLD {
        assert!(!state.register_busy_wait());
    }
    assert!(state.register_busy_wait());
    state.add_pending_ticks(1);
    assert!(state.wake_from_indefinite_sleep());
    assert_eq!(state.busy_wait_count, 0);
}

#[test]
fn peek_filters_and_removes() {
    let mut state = State::new();
    let template = WindowMessage { hwnd: 0, message: WM_KEYDOWN, w_param: 1, l_param: 1, time: 0 };
    state.post_to_window(template, 0x10, true);
    state.post_to_window(WindowMessage { message: WM_KEYUP, ..template }, 0x20, true);
    state.post_to_window(template, 0x30, false);
    assert_eq!(state.custom_message_queue.len(), 2);
    let peeked = state.peek_custom_message(0x20, 0, 0, 0);
    assert_eq!(peeked, Some(WindowMessage { hwnd: 0x20, message: WM_KEYUP, ..template }));
    assert_eq!(state.custom_message_queue.len(), 2);
    let removed = state.peek_custom_message(0, WM_KEYUP, WM_KEYUP, PM_REMOVE);
    assert_eq!(removed, Some(WindowMessage { hwnd: 0x20, message: WM_KEYUP, ..template }));
    assert_eq!(state.custom_message_queue.len(), 1);
    assert_eq!(state.peek_custom_message(0x99, 0, 0, PM_REMOVE), None);
    assert_eq!(state.custom_message_queue.len(), 1);
    assert_eq!(
        state.peek_custom_message(0, 0, 0, PM_REMOVE),
        Some(WindowMessage { hwnd: 0x10, ..template })
    );
    assert!(state.custom_message_queue.is_empty());
}

#[test]
fn one_shot_timer_fires_and_resets() {
    let mut state = State::new();
    state.register_waitable_timer(0x1234, 0);
    assert_eq!(state.timer_wait_duration(0x1234, 500), Some(1500));
    // One second from now, relative.
    state.set_waitable_timer(0x1234, -10_000_000, 0);
    assert_eq!(state.timer_wait_duration(0x1234, 500), Some(1500));
    assert_eq!(state.timer_wait_duration(0x1234, 5000), Some(3000));
    assert_eq!(state.finish_timer_wait(0x1234), Some(false));
    state.add_pending_ticks(3000);
    assert_eq!(state.sleep_step(3000), 0);
    assert_eq!(state.timer_wait_duration(0x1234, 500), Some(0));
    assert_eq!(state.finish_timer_wait(0x1234), Some(true));
    assert_eq!(state.finish_timer_wait(0x1234), Some(false));
    assert_eq!(state.finish_timer_wait(0x9999), None);
    assert_eq!(state.timer_wait_duration(0x9999, 500), None);
}

#[test]
fn manual_reset_periodic_timer() {
    let mut state = State::new();
    state.register_waitable_timer(7, 1);
    state.add_pending_ticks(300);
    state.sleep_step(300);
    // Absolute due time: 0.2 s after start, that is tick 600; period 100 ms.
    state.set_waitable_timer(7, 2_000_000, 100);
    let timer = state.waitable_timer_handles[&7];
    assert_eq!(timer.remaining_ticks, 300);
    assert_eq!(timer.period_in_ticks, Some(300));
    assert!(!timer.reset_automatically);
    state.add_pending_ticks(350);
    state.sleep_step(350);
    let timer = state.waitable_timer_handles[&7];
    assert!(timer.signaled);
    assert_eq!(timer.remaining_ticks, 250);
    assert_eq!(state.finish_timer_wait(7), Some(true));
    assert_eq!(state.finish_timer_wait(7), Some(true));
}

#[test]
fn timer_advance_in_steps_equals_at_once() {
    let timer = WaitableTimer {
        reset_automatically: true,
        signaled: false,
        remaining_ticks: 100,
        period_in_ticks: Some(30),
    };
    for (a, b) in [(0u64, 0u64), (40, 50), (99, 1), (100, 0), (120, 95), (500, 7)] {
        let mut once = timer;
        once.advance(a + b);
        let mut twice = timer;
        twice.advance(a);
        twice.advance(b);
        assert_eq!(once, twice);
    }
    let mut fired = timer;
    fired.advance(175);
    assert!(fired.signaled);
    assert_eq!(fired.remaining_ticks, 30 - 75 % 30);
}

#[test]
fn advance_every_timer_of_a_table() {
    let mut timers = BTreeMap::new();
    let idle = WaitableTimer {
        reset_automatically: false,
        signaled: false,
        remaining_ticks: 0,
        period_in_ticks: None,
    };
    let running = WaitableTimer { remaining_ticks: 10, ..idle };
    timers.insert(1u32, idle);
    timers.insert(2u32, running);
    advance_timers(&mut timers, 4);
    assert_eq!(timers[&1], idle);
    assert_eq!(timers[&2].remaining_ticks, 6);
    advance_timers(&mut timers, 6);
    assert!(timers[&2].signaled);
    assert_eq!(timers[&2].remaining_ticks, 0);
    assert!(!timers[&2].running());
}
