use dualsense::codes;
use evdev::{AbsoluteAxisCode, EventType, KeyCode, RelativeAxisCode};

#[test]
fn codes_have_the_values_of_evdev() {
    assert_eq!(codes::BTN_SOUTH, KeyCode::BTN_SOUTH.0);
    assert_eq!(codes::BTN_EAST, KeyCode::BTN_EAST.0);
    assert_eq!(codes::BTN_NORTH, KeyCode::BTN_NORTH.0);
    assert_eq!(codes::BTN_WEST, KeyCode::BTN_WEST.0);
    assert_eq!(codes::BTN_TL, KeyCode::BTN_TL.0);
    assert_eq!(codes::BTN_TR, KeyCode::BTN_TR.0);
    assert_eq!(codes::BTN_TL2, KeyCode::BTN_TL2.0);
    assert_eq!(codes::BTN_TR2, KeyCode::BTN_TR2.0);
    assert_eq!(codes::BTN_SELECT, KeyCode::BTN_SELECT.0);
    assert_eq!(codes::BTN_START, KeyCode::BTN_START.0);
    assert_eq!(codes::BTN_MODE, KeyCode::BTN_MODE.0);
    assert_eq!(codes::BTN_THUMBL, KeyCode::BTN_THUMBL.0);
    assert_eq!(codes::BTN_THUMBR, KeyCode::BTN_THUMBR.0);
    assert_eq!(codes::BTN_DPAD_UP, KeyCode::BTN_DPAD_UP.0);
    assert_eq!(codes::BTN_DPAD_DOWN, KeyCode::BTN_DPAD_DOWN.0);
    assert_eq!(codes::BTN_DPAD_LEFT, KeyCode::BTN_DPAD_LEFT.0);
    assert_eq!(codes::BTN_DPAD_RIGHT, KeyCode::BTN_DPAD_RIGHT.0);
    assert_eq!(codes::KEY_A, KeyCode::KEY_A.0);
    assert_eq!(codes::KEY_B, KeyCode::KEY_B.0);
    assert_eq!(codes::KEY_C, KeyCode::KEY_C.0);
    assert_eq!(codes::KEY_D, KeyCode::KEY_D.0);
    assert_eq!(codes::KEY_E, KeyCode::KEY_E.0);
    assert_eq!(codes::KEY_F, KeyCode::KEY_F.0);
    assert_eq!(codes::KEY_G, KeyCode::KEY_G.0);
    assert_eq!(codes::KEY_H, KeyCode::KEY_H.0);
    assert_eq!(codes::KEY_I, KeyCode::KEY_I.0);
    assert_eq!(codes::KEY_J, KeyCode::KEY_J.0);
    assert_eq!(codes::KEY_K, KeyCode::KEY_K.0);
    assert_eq!(codes::KEY_L, KeyCode::KEY_L.0);
    assert_eq!(codes::KEY_M, KeyCode::KEY_M.0);
    assert_eq!(codes::KEY_N, KeyCode::KEY_N.0);
    assert_eq!(codes::KEY_O, KeyCode::KEY_O.0);
    assert_eq!(codes::KEY_P, KeyCode::KEY_P.0);
    assert_eq!(codes::KEY_Q, KeyCode::KEY_Q.0);
    assert_eq!(codes::KEY_R, KeyCode::KEY_R.0);
    assert_eq!(codes::KEY_S, KeyCode::KEY_S.0);
    assert_eq!(codes::KEY_T, KeyCode::KEY_T.0);
    assert_eq!(codes::KEY_U, KeyCode::KEY_U.0);
    assert_eq!(codes::KEY_V, KeyCode::KEY_V.0);
    assert_eq!(codes::KEY_W, KeyCode::KEY_W.0);
    assert_eq!(codes::KEY_X, KeyCode::KEY_X.0);
    assert_eq!(codes::KEY_Y, KeyCode::KEY_Y.0);
    assert_eq!(codes::KEY_Z, KeyCode::KEY_Z.0);
    assert_eq!(codes::KEY_0, KeyCode::KEY_0.0);
    assert_eq!(codes::KEY_1, KeyCode::KEY_1.0);
    assert_eq!(codes::KEY_2, KeyCode::KEY_2.0);
    assert_eq!(codes::KEY_3, KeyCode::KEY_3.0);
    assert_eq!(codes::KEY_4, KeyCode::KEY_4.0);
    assert_eq!(codes::KEY_5, KeyCode::KEY_5.0);
    assert_eq!(codes::KEY_6, KeyCode::KEY_6.0);
    assert_eq!(codes::KEY_7, KeyCode::KEY_7.0);
    assert_eq!(codes::KEY_8, KeyCode::KEY_8.0);
    assert_eq!(codes::KEY_9, KeyCode::KEY_9.0);
    assert_eq!(codes::KEY_MINUS, KeyCode::KEY_MINUS.0);
    assert_eq!(codes::KEY_EQUAL, KeyCode::KEY_EQUAL.0);
    assert_eq!(codes::KEY_LEFTBRACE, KeyCode::KEY_LEFTBRACE.0);
    assert_eq!(codes::KEY_RIGHTBRACE, KeyCode::KEY_RIGHTBRACE.0);
    assert_eq!(codes::KEY_BACKSLASH, KeyCode::KEY_BACKSLASH.0);
    assert_eq!(codes::KEY_SEMICOLON, KeyCode::KEY_SEMICOLON.0);
    assert_eq!(codes::KEY_APOSTROPHE, KeyCode::KEY_APOSTROPHE.0);
    assert_eq!(codes::KEY_GRAVE, KeyCode::KEY_GRAVE.0);
    assert_eq!(codes::KEY_COMMA, KeyCode::KEY_COMMA.0);
    assert_eq!(codes::KEY_DOT, KeyCode::KEY_DOT.0);
    assert_eq!(codes::KEY_SLASH, KeyCode::KEY_SLASH.0);
    assert_eq!(codes::KEY_ENTER, KeyCode::KEY_ENTER.0);
    assert_eq!(codes::KEY_SPACE, KeyCode::KEY_SPACE.0);
    assert_eq!(codes::KEY_TAB, KeyCode::KEY_TAB.0);
    assert_eq!(codes::KEY_LEFTCTRL, KeyCode::KEY_LEFTCTRL.0);
    assert_eq!(codes::KEY_LEFTALT, KeyCode::KEY_LEFTALT.0);
    assert_eq!(codes::KEY_LEFTMETA, KeyCode::KEY_LEFTMETA.0);
    assert_eq!(codes::KEY_LEFTSHIFT, KeyCode::KEY_LEFTSHIFT.0);
    assert_eq!(codes::KEY_LEFT, KeyCode::KEY_LEFT.0);
    assert_eq!(codes::KEY_RIGHT, KeyCode::KEY_RIGHT.0);
    assert_eq!(codes::KEY_UP, KeyCode::KEY_UP.0);
    assert_eq!(codes::KEY_DOWN, KeyCode::KEY_DOWN.0);
    assert_eq!(codes::ABS_X, AbsoluteAxisCode::ABS_X.0);
    assert_eq!(codes::ABS_Y, AbsoluteAxisCode::ABS_Y.0);
    assert_eq!(codes::ABS_Z, AbsoluteAxisCode::ABS_Z.0);
    assert_eq!(codes::ABS_RX, AbsoluteAxisCode::ABS_RX.0);
    assert_eq!(codes::ABS_RY, AbsoluteAxisCode::ABS_RY.0);
    assert_eq!(codes::ABS_RZ, AbsoluteAxisCode::ABS_RZ.0);
    assert_eq!(codes::ABS_HAT0X, AbsoluteAxisCode::ABS_HAT0X.0);
    assert_eq!(codes::ABS_HAT0Y, AbsoluteAxisCode::ABS_HAT0Y.0);
    assert_eq!(codes::REL_HWHEEL, RelativeAxisCode::REL_HWHEEL.0);
    assert_eq!(codes::REL_WHEEL, RelativeAxisCode::REL_WHEEL.0);
    assert_eq!(codes::EV_KEY, EventType::KEY.0);
    assert_eq!(codes::EV_REL, EventType::RELATIVE.0);
    assert_eq!(codes::EV_ABS, EventType::ABSOLUTE.0);
}

#[test]
fn key_events_carry_the_edge() {
    let down = codes::key_event(codes::KEY_A, true);
    assert_eq!(down, codes::InputEvent::new(codes::EV_KEY, codes::KEY_A, 1));
    let up = codes::key_event(codes::KEY_A, false);
    assert_eq!(up, codes::InputEvent::new(codes::EV_KEY, codes::KEY_A, 0));
}
