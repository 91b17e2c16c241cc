use vstd::prelude::*;

verus! {

/// A mouse button.
#[derive(Clone, Copy, Debug, PartialEq, Eq, Structural)]
pub enum MouseButton {
    Left,
    Right,
    Middle,
    X1,
    X2,
}

/// Virtual-key codes of the modifier keys, and of their left and right keys.
pub const VK_SHIFT: u8 = 0x10;
pub const VK_CONTROL: u8 = 0x11;
pub const VK_MENU: u8 = 0x12;
pub const VK_LSHIFT: u8 = 0xA0;
pub const VK_RSHIFT: u8 = 0xA1;
pub const VK_LCONTROL: u8 = 0xA2;
pub const VK_RCONTROL: u8 = 0xA3;
pub const VK_LMENU: u8 = 0xA4;
pub const VK_RMENU: u8 = 0xA5;

/// Window-message identifiers.
pub const WM_ACTIVATE: u32 = 0x0006;
pub const WM_SETFOCUS: u32 = 0x0007;
pub const WM_KILLFOCUS: u32 = 0x0008;
pub const WM_QUIT: u32 = 0x0012;
pub const WM_ACTIVATEAPP: u32 = 0x001C;
pub const WM_KEYDOWN: u32 = 0x0100;
pub const WM_KEYUP: u32 = 0x0101;
pub const WM_CHAR: u32 = 0x0102;
pub const WM_MOUSEMOVE: u32 = 0x0200;
pub const WM_LBUTTONDOWN: u32 = 0x0201;
pub const WM_LBUTTONUP: u32 = 0x0202;
pub const WM_RBUTTONDOWN: u32 = 0x0204;
pub const WM_RBUTTONUP: u32 = 0x0205;
pub const WM_MBUTTONDOWN: u32 = 0x0207;
pub const WM_MBUTTONUP: u32 = 0x0208;
pub const WM_XBUTTONDOWN: u32 = 0x020B;
pub const WM_XBUTTONUP: u32 = 0x020C;

/// `PeekMessage` flag that removes the message it returns.
pub const PM_REMOVE: u32 = 0x0001;

pub open spec fn bit(b: bool) -> int {
    if b {
        1
    } else {
        0
    }
}

/// The 32 bits of the `lParam` of a key message: bit 31 is set for a key
/// release, bit 30 when the key was down before, and the repeat count is 1.
pub open spec fn key_l_param_bits(pressed: bool, previously_pressed: bool) -> int {
    bit(!pressed) * 0x8000_0000 + bit(previously_pressed) * 0x4000_0000 + 1
}

/// The `lParam` of a key message, the 32 bits above taken as a pointer-sized
/// signed value (on a 32-bit target, bit 31 is its sign).
pub fn key_l_param(pressed: bool, previously_pressed: bool) -> (l_param: isize)
    ensures
        l_param == (key_l_param_bits(pressed, previously_pressed) as u32) as isize,
{
    let bits: u32 = (if pressed { 0u32 } else { 0x8000_0000u32 }) + (if previously_pressed {
        0x4000_0000u32
    } else {
        0u32
    }) + 1;
    bits as isize
}

/// The message identifier of a mouse-button event.
pub open spec fn spec_mouse_button_message(button: MouseButton, pressed: bool) -> u32 {
    match button {
        MouseButton::Left => if pressed { WM_LBUTTONDOWN } else { WM_LBUTTONUP },
        MouseButton::Right => if pressed { WM_RBUTTONDOWN } else { WM_RBUTTONUP },
        MouseButton::Middle => if pressed { WM_MBUTTONDOWN } else { WM_MBUTTONUP },
        MouseButton::X1 | MouseButton::X2 => if pressed { WM_XBUTTONDOWN } else { WM_XBUTTONUP },
    }
}

/// Each button event becomes the Windows message of that button: left
/// 0x201/0x202, right 0x204/0x205, middle 0x207/0x208, and either extra
/// button 0x20B/0x20C (down/up). A release is the message right after the
/// press, and the three main buttons never share a message.
pub proof fn lemma_mouse_button_messages(button: MouseButton, pressed: bool, other: MouseButton)
    ensures
        button == MouseButton::Left ==> spec_mouse_button_message(button, pressed) == (if pressed {
            0x201u32
        } else {
            0x202u32
        }),
        button == MouseButton::Right ==> spec_mouse_button_message(button, pressed) == (if pressed {
            0x204u32
        } else {
            0x205u32
        }),
        button == MouseButton::Middle ==> spec_mouse_button_message(button, pressed) == (if pressed {
            0x207u32
        } else {
            0x208u32
        }),
        (button == MouseButton::X1 || button == MouseButton::X2) ==> spec_mouse_button_message(
            button,
            pressed,
        ) == (if pressed {
            0x20Bu32
        } else {
            0x20Cu32
        }),
        spec_mouse_button_message(button, false) == spec_mouse_button_message(button, true) + 1,
        button != other && !(button is X1 || button is X2) ==> spec_mouse_button_message(
            button,
            pressed,
        ) != spec_mouse_button_message(other, pressed),
{
}

/// A key message's `lParam` has repeat count 1, bit 30 set exactly when the
/// key was already down, and bit 31 set exactly for a release; the extra
/// buttons are told apart by the high word 1 (first) and 2 (second), and the
/// other buttons have high word 0.
pub proof fn lemma_input_parameters(pressed: bool, previously_pressed: bool, button: MouseButton)
    ensures
        key_l_param_bits(pressed, previously_pressed) % 0x4000_0000 == 1,
        (key_l_param_bits(pressed, previously_pressed) / 0x4000_0000) % 2 == (if previously_pressed {
            1int
        } else {
            0int
        }),
        key_l_param_bits(pressed, previously_pressed) / 0x8000_0000 == (if pressed {
            0int
        } else {
            1int
        }),
        spec_mouse_button_high_word(button) == (if button is X1 {
            1u16
        } else if button is X2 {
            2u16
        } else {
            0u16
        }),
{
}

pub fn mouse_button_message(button: MouseButton, pressed: bool) -> (message: u32)
    ensures
        message == spec_mouse_button_message(button, pressed),
{
    match button {
        MouseButton::Left => if pressed { WM_LBUTTONDOWN } else { WM_LBUTTONUP },
        MouseButton::Right => if pressed { WM_RBUTTONDOWN } else { WM_RBUTTONUP },
        MouseButton::Middle => if pressed { WM_MBUTTONDOWN } else { WM_MBUTTONUP },
        MouseButton::X1 | MouseButton::X2 => if pressed { WM_XBUTTONDOWN } else { WM_XBUTTONUP },
    }
}

/// The high word of the `wParam` of a mouse-button message: which extra
/// button it is about (1 or 2), or 0 for the other buttons.
pub open spec fn spec_mouse_button_high_word(button: MouseButton) -> u16 {
    match button {
        MouseButton::X1 => 1,
        MouseButton::X2 => 2,
        _ => 0,
    }
}

pub fn mouse_button_high_word(button: MouseButton) -> (word: u16)
    ensures
        word == spec_mouse_button_high_word(button),
{
    match button {
        MouseButton::X1 => 1,
        MouseButton::X2 => 2,
        _ => 0,
    }
}

/// Messages that a focus change sends; the hooked window procedure swallows
/// them so that the program never sees itself lose focus.
pub open spec fn spec_is_focus_message(message: u32) -> bool {
    message == WM_SETFOCUS || message == WM_KILLFOCUS || message == WM_ACTIVATE || message
        == WM_ACTIVATEAPP
}

pub fn is_focus_message(message: u32) -> (focus: bool)
    ensures
        focus == spec_is_focus_message(message),
{
    message == WM_SETFOCUS || message == WM_KILLFOCUS || message == WM_ACTIVATE || message
        == WM_ACTIVATEAPP
}

/// Keyboard and mouse messages, which only the simulated input may deliver.
pub open spec fn spec_is_input_message(message: u32) -> bool {
    message == WM_KEYDOWN || message == WM_KEYUP || message == WM_CHAR || message == WM_MOUSEMOVE
        || message == WM_LBUTTONDOWN || message == WM_LBUTTONUP || message == WM_RBUTTONDOWN
        || message == WM_RBUTTONUP || message == WM_MBUTTONDOWN || message == WM_MBUTTONUP
        || message == WM_XBUTTONDOWN || message == WM_XBUTTONUP
}

pub fn is_input_message(message: u32) -> (input: bool)
    ensures
        input == spec_is_input_message(message),
{
    message == WM_KEYDOWN || message == WM_KEYUP || message == WM_CHAR || message == WM_MOUSEMOVE
        || message == WM_LBUTTONDOWN || message == WM_LBUTTONUP || message == WM_RBUTTONDOWN
        || message == WM_RBUTTONUP || message == WM_MBUTTONDOWN || message == WM_MBUTTONUP
        || message == WM_XBUTTONDOWN || message == WM_XBUTTONUP
}

/// The result that the hooked `PeekMessage` returns for a message that the
/// real `PeekMessage` returned: a real keyboard or mouse message is hidden (0),
/// anything else passes through.
pub fn filter_peeked_message(result: i32, message: u32) -> (filtered: i32)
    ensures
        filtered == (if result != 0 && spec_is_input_message(message) {
            0
        } else {
            result
        }),
{
    if result != 0 && is_input_message(message) {
        0
    } else {
        result
    }
}

/// The result of `GetMessage` for the message it retrieved: 0 for `WM_QUIT`,
/// 1 otherwise.
pub fn get_message_result(message: u32) -> (result: i32)
    ensures
        result == (if message == WM_QUIT {
            0i32
        } else {
            1i32
        }),
{
    if message == WM_QUIT {
        0
    } else {
        1
    }
}

} // verus!
