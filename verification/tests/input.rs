use winter::input::{
    filter_peeked_message, get_message_result, is_focus_message, is_input_message, key_l_param,
    mouse_button_high_word, mouse_button_message, MouseButton, WM_ACTIVATE, WM_ACTIVATEAPP,
    WM_CHAR, WM_KEYDOWN, WM_KILLFOCUS, WM_LBUTTONDOWN, WM_LBUTTONUP, WM_MBUTTONDOWN,
    WM_MOUSEMOVE, WM_QUIT, WM_RBUTTONUP, WM_SETFOCUS, WM_XBUTTONDOWN,
};

#[test]
fn key_message_l_params() {
    assert_eq!(key_l_param(true, false), 0x0000_0001);
    assert_eq!(key_l_param(true, true), 0x4000_0001);
    assert_eq!(key_l_param(false, true), 0xC000_0001u32 as isize);
    assert_eq!(key_l_param(false, false), 0x8000_0001u32 as isize);
}

#[test]
fn mouse_button_messages() {
    assert_eq!(mouse_button_message(MouseButton::Left, true), WM_LBUTTONDOWN);
    assert_eq!(mouse_button_message(MouseButton::Left, false), WM_LBUTTONUP);
    assert_eq!(mouse_button_message(MouseButton::Right, false), WM_RBUTTONUP);
    assert_eq!(mouse_button_message(MouseButton::Middle, true), WM_MBUTTONDOWN);
    assert_eq!(mouse_button_message(MouseButton::X2, true), WM_XBUTTONDOWN);
    assert_eq!(mouse_button_high_word(MouseButton::X1), 1);
    assert_eq!(mouse_button_high_word(MouseButton::X2), 2);
    assert_eq!(mouse_button_high_word(MouseButton::Right), 0);
}

#[test]
fn message_classes() {
    for m in [WM_SETFOCUS, WM_KILLFOCUS, WM_ACTIVATE, WM_ACTIVATEAPP] {
        assert!(is_focus_message(m));
        assert!(!is_input_message(m));
    }
    for m in [WM_KEYDOWN, WM_CHAR, WM_MOUSEMOVE, WM_LBUTTONDOWN, WM_XBUTTONDOWN] {
        assert!(is_input_message(m));
        assert!(!is_focus_message(m));
    }
    assert!(!is_input_message(WM_QUIT));
}

#[test]
fn peeked_input_is_hidden() {
    assert_eq!(filter_peeked_message(1, WM_KEYDOWN), 0);
    assert_eq!(filter_peeked_message(1, WM_QUIT), 1);
    assert_eq!(filter_peeked_message(0, WM_KEYDOWN), 0);
    assert_eq!(get_message_result(WM_QUIT), 0);
    assert_eq!(get_message_result(WM_KEYDOWN), 1);
}
