//! Linux input event codes, with the values that evdev gives them.

use vstd::prelude::*;

verus! {

/// A key or button code.
pub type KeyCode = u16;

/// An absolute axis code.
pub type AxisCode = u16;

/// Event type of keys and buttons.
pub const EV_KEY: u16 = 0x01;

/// Event type of relative axes.
pub const EV_REL: u16 = 0x02;

/// Event type of absolute axes.
pub const EV_ABS: u16 = 0x03;

pub const ABS_X: AxisCode = 0x00;

pub const ABS_Y: AxisCode = 0x01;

pub const ABS_Z: AxisCode = 0x02;

pub const ABS_RX: AxisCode = 0x03;

pub const ABS_RY: AxisCode = 0x04;

pub const ABS_RZ: AxisCode = 0x05;

pub const ABS_HAT0X: AxisCode = 0x10;

pub const ABS_HAT0Y: AxisCode = 0x11;

pub const REL_HWHEEL: u16 = 0x06;

pub const REL_WHEEL: u16 = 0x08;

pub const BTN_SOUTH: KeyCode = 0x130;

pub const BTN_EAST: KeyCode = 0x131;

pub const BTN_NORTH: KeyCode = 0x133;

pub const BTN_WEST: KeyCode = 0x134;

pub const BTN_TL: KeyCode = 0x136;

pub const BTN_TR: KeyCode = 0x137;

pub const BTN_TL2: KeyCode = 0x138;

pub const BTN_TR2: KeyCode = 0x139;

pub const BTN_SELECT: KeyCode = 0x13a;

pub const BTN_START: KeyCode = 0x13b;

pub const BTN_MODE: KeyCode = 0x13c;

pub const BTN_THUMBL: KeyCode = 0x13d;

pub const BTN_THUMBR: KeyCode = 0x13e;

pub const BTN_DPAD_UP: KeyCode = 0x220;

pub const BTN_DPAD_DOWN: KeyCode = 0x221;

pub const BTN_DPAD_LEFT: KeyCode = 0x222;

pub const BTN_DPAD_RIGHT: KeyCode = 0x223;

pub const KEY_A: KeyCode = 30;

pub const KEY_B: KeyCode = 48;

pub const KEY_C: KeyCode = 46;

pub const KEY_D: KeyCode = 32;

pub const KEY_E: KeyCode = 18;

pub const KEY_F: KeyCode = 33;

pub const KEY_G: KeyCode = 34;

pub const KEY_H: KeyCode = 35;

pub const KEY_I: KeyCode = 23;

pub const KEY_J: KeyCode = 36;

pub const KEY_K: KeyCode = 37;

pub const KEY_L: KeyCode = 38;

pub const KEY_M: KeyCode = 50;

pub const KEY_N: KeyCode = 49;

pub const KEY_O: KeyCode = 24;

pub const KEY_P: KeyCode = 25;

pub const KEY_Q: KeyCode = 16;

pub const KEY_R: KeyCode = 19;

pub const KEY_S: KeyCode = 31;

pub const KEY_T: KeyCode = 20;

pub const KEY_U: KeyCode = 22;

pub const KEY_V: KeyCode = 47;

pub const KEY_W: KeyCode = 17;

pub const KEY_X: KeyCode = 45;

pub const KEY_Y: KeyCode = 21;

pub const KEY_Z: KeyCode = 44;

pub const KEY_0: KeyCode = 11;

pub const KEY_1: KeyCode = 2;

pub const KEY_2: KeyCode = 3;

pub const KEY_3: KeyCode = 4;

pub const KEY_4: KeyCode = 5;

pub const KEY_5: KeyCode = 6;

pub const KEY_6: KeyCode = 7;

pub const KEY_7: KeyCode = 8;

pub const KEY_8: KeyCode = 9;

pub const KEY_9: KeyCode = 10;

pub const KEY_MINUS: KeyCode = 12;

pub const KEY_EQUAL: KeyCode = 13;

pub const KEY_LEFTBRACE: KeyCode = 26;

pub const KEY_RIGHTBRACE: KeyCode = 27;

pub const KEY_BACKSLASH: KeyCode = 43;

pub const KEY_SEMICOLON: KeyCode = 39;

pub const KEY_APOSTROPHE: KeyCode = 40;

pub const KEY_GRAVE: KeyCode = 41;

pub const KEY_COMMA: KeyCode = 51;

pub const KEY_DOT: KeyCode = 52;

pub const KEY_SLASH: KeyCode = 53;

pub const KEY_ENTER: KeyCode = 28;

pub const KEY_SPACE: KeyCode = 57;

pub const KEY_TAB: KeyCode = 15;

pub const KEY_LEFTCTRL: KeyCode = 29;

pub const KEY_LEFTALT: KeyCode = 56;

pub const KEY_LEFTMETA: KeyCode = 125;

pub const KEY_LEFTSHIFT: KeyCode = 42;

pub const KEY_LEFT: KeyCode = 105;

pub const KEY_RIGHT: KeyCode = 106;

pub const KEY_UP: KeyCode = 103;

pub const KEY_DOWN: KeyCode = 108;

/// One raw input event: its type, its code and its value.
#[derive(Debug, Clone, Copy, PartialEq, Eq, Structural)]
pub struct InputEvent {
    pub event_type: u16,
    pub code: u16,
    pub value: i32,
}

impl InputEvent {
    /// An event of the given type, code and value.
    pub fn new(event_type: u16, code: u16, value: i32) -> (event: InputEvent)
        ensures
            event == (InputEvent { event_type, code, value }),
    {
        InputEvent { event_type, code, value }
    }
}

/// The event that presses or releases a key.
pub open spec fn key_edge(code: KeyCode, down: bool) -> InputEvent {
    InputEvent {
        event_type: EV_KEY,
        code,
        value: if down {
            1
        } else {
            0
        },
    }
}

/// The event that presses or releases a key.
pub fn key_event(code: KeyCode, down: bool) -> (event: InputEvent)
    ensures
        event == key_edge(code, down),
{
    InputEvent::new(
        EV_KEY,
        code,
        if down {
            1
        } else {
            0
        },
    )
}

} // verus!
