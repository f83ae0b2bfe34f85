//! What the decoder gives for each code, said code by code.

use crate::codes::{
    ABS_HAT0X, ABS_HAT0Y, ABS_RX, ABS_RY, ABS_RZ, ABS_X, ABS_Y, ABS_Z, AxisCode, BTN_DPAD_DOWN,
    BTN_DPAD_LEFT, BTN_DPAD_RIGHT, BTN_DPAD_UP, BTN_EAST, BTN_MODE, BTN_NORTH, BTN_SELECT,
    BTN_SOUTH, BTN_START, BTN_THUMBL, BTN_THUMBR, BTN_TL, BTN_TL2, BTN_TR, BTN_TR2, BTN_WEST,
    EV_ABS, EV_KEY, EV_REL, InputEvent, KEY_DOWN, KEY_ENTER, KEY_LEFT, KEY_LEFTALT,
    KEY_LEFTCTRL, KEY_LEFTMETA, KEY_LEFTSHIFT, KEY_RIGHT, KEY_SPACE, KEY_TAB, KEY_UP, KeyCode,
    REL_HWHEEL, REL_WHEEL,
};
use crate::input::{
    button_of, hat_position, reported_range, AxisInfo, AxisRange, Button, ButtonState,
    ControllerEvent, ControllerEventKind, EventDecoder, Stick, StickAxis, Trigger,
};
use vstd::prelude::*;

verus! {

/// The event types, axes, buttons and keys have the numbers of the kernel.
pub proof fn law_codes_have_the_numbers_of_the_kernel()
    ensures
        EV_KEY == 0x01,
        EV_REL == 0x02,
        EV_ABS == 0x03,
        ABS_X == 0x00,
        ABS_Y == 0x01,
        ABS_Z == 0x02,
        ABS_RX == 0x03,
        ABS_RY == 0x04,
        ABS_RZ == 0x05,
        ABS_HAT0X == 0x10,
        ABS_HAT0Y == 0x11,
        REL_HWHEEL == 0x06,
        REL_WHEEL == 0x08,
        BTN_SOUTH == 0x130,
        BTN_EAST == 0x131,
        BTN_NORTH == 0x133,
        BTN_WEST == 0x134,
        BTN_TL == 0x136,
        BTN_TR == 0x137,
        BTN_TL2 == 0x138,
        BTN_TR2 == 0x139,
        BTN_SELECT == 0x13a,
        BTN_START == 0x13b,
        BTN_MODE == 0x13c,
        BTN_THUMBL == 0x13d,
        BTN_THUMBR == 0x13e,
        BTN_DPAD_UP == 0x220,
        BTN_DPAD_DOWN == 0x221,
        BTN_DPAD_LEFT == 0x222,
        BTN_DPAD_RIGHT == 0x223,
        KEY_TAB == 15,
        KEY_ENTER == 28,
        KEY_LEFTCTRL == 29,
        KEY_LEFTSHIFT == 42,
        KEY_LEFTALT == 56,
        KEY_SPACE == 57,
        KEY_UP == 103,
        KEY_LEFT == 105,
        KEY_RIGHT == 106,
        KEY_DOWN == 108,
        KEY_LEFTMETA == 125,
{
}

/// Every key code stands for the button that bears its name; the D-pad is also
/// reported with the keyboard's direction keys. No other code stands for a button.
pub proof fn law_codes_stand_for_their_buttons(code: KeyCode)
    ensures
        button_of(BTN_SOUTH) == Some(Button::South),
        button_of(BTN_EAST) == Some(Button::East),
        button_of(BTN_NORTH) == Some(Button::North),
        button_of(BTN_WEST) == Some(Button::West),
        button_of(BTN_TL) == Some(Button::L1),
        button_of(BTN_TR) == Some(Button::R1),
        button_of(BTN_TL2) == Some(Button::L2),
        button_of(BTN_TR2) == Some(Button::R2),
        button_of(BTN_SELECT) == Some(Button::Create),
        button_of(BTN_START) == Some(Button::Options),
        button_of(BTN_MODE) == Some(Button::Ps),
        button_of(BTN_THUMBL) == Some(Button::L3),
        button_of(BTN_THUMBR) == Some(Button::R3),
        button_of(BTN_DPAD_UP) == Some(Button::DpadUp),
        button_of(KEY_UP) == Some(Button::DpadUp),
        button_of(BTN_DPAD_DOWN) == Some(Button::DpadDown),
        button_of(KEY_DOWN) == Some(Button::DpadDown),
        button_of(BTN_DPAD_LEFT) == Some(Button::DpadLeft),
        button_of(KEY_LEFT) == Some(Button::DpadLeft),
        button_of(BTN_DPAD_RIGHT) == Some(Button::DpadRight),
        button_of(KEY_RIGHT) == Some(Button::DpadRight),
        code != BTN_SOUTH && code != BTN_EAST && code != BTN_NORTH && code != BTN_WEST && code != BTN_TL && code != BTN_TR && code != BTN_TL2 && code != BTN_TR2 && code != BTN_SELECT && code != BTN_START && code != BTN_MODE && code != BTN_THUMBL && code != BTN_THUMBR && code != BTN_DPAD_UP && code != KEY_UP && code != BTN_DPAD_DOWN && code != KEY_DOWN && code != BTN_DPAD_LEFT && code != KEY_LEFT && code != BTN_DPAD_RIGHT && code != KEY_RIGHT
            ==> button_of(code) is None,
{
}

/// A key event is one edge of its button, a release if its value is zero and a
/// press otherwise. A key that is no button gives nothing.
pub proof fn law_key_events_are_edges(decoder: EventDecoder, code: KeyCode, value: i32)
    ensures
        ({
            let event = InputEvent { event_type: EV_KEY, code, value };
            match button_of(code) {
                Some(button) => {
                    &&& decoder.decoded(event).len() == 1
                    &&& decoder.decoded(event)[0] == (ControllerEvent {
                        kind: ControllerEventKind::Button {
                            button,
                            state: if value == 0 {
                                ButtonState::Up
                            } else {
                                ButtonState::Down
                            },
                        },
                        raw: event,
                    })
                },
                None => decoder.decoded(event).len() == 0,
            }
        }),
{
}

/// A hat axis holds left or up at minus one, right or down at one, and nothing at
/// any other value.
pub proof fn law_hat_values_hold_their_buttons(value: i32)
    ensures
        hat_position(true, (-1) as i32) == Some(Button::DpadLeft),
        hat_position(true, 1) == Some(Button::DpadRight),
        hat_position(false, (-1) as i32) == Some(Button::DpadUp),
        hat_position(false, 1) == Some(Button::DpadDown),
        value != -1 && value != 1 ==> hat_position(true, value) is None && hat_position(
            false,
            value,
        ) is None,
{
}

/// A hat event gives the edges of its own axis: none if the axis stays where it
/// is, else the release of what it held and the press of what it holds now.
pub proof fn law_hat_events_are_edges(decoder: EventDecoder, code: AxisCode, value: i32)
    requires
        code == ABS_HAT0X || code == ABS_HAT0Y,
    ensures
        ({
            let event = InputEvent { event_type: EV_ABS, code, value };
            let out = decoder.decoded(event);
            let horizontal = code == ABS_HAT0X;
            let held = hat_position(
                horizontal,
                if horizontal {
                    decoder.dpad_x
                } else {
                    decoder.dpad_y
                },
            );
            let holds = hat_position(horizontal, value);
            let press = |b: Button| ControllerEventKind::Button { button: b, state: ButtonState::Down };
            let release = |b: Button| ControllerEventKind::Button { button: b, state: ButtonState::Up };
            &&& (if horizontal {
                decoder.after(event).dpad_x
            } else {
                decoder.after(event).dpad_y
            }) == value
            &&& held == holds ==> out.len() == 0
            &&& held != holds ==> match (held, holds) {
                (Some(old_one), Some(new_one)) => out.len() == 2 && out[0].kind == release(old_one)
                    && out[1].kind == press(new_one),
                (Some(old_one), None) => out.len() == 1 && out[0].kind == release(old_one),
                (None, Some(new_one)) => out.len() == 1 && out[0].kind == press(new_one),
                (None, None) => out.len() == 0,
            }
        }),
{
}

/// What an axis of a stick or a trigger reports, given its range.
pub open spec fn movement(code: AxisCode, raw_value: i32, range: AxisRange) -> Option<
    ControllerEventKind,
> {
    if code == ABS_X {
        Some(
            ControllerEventKind::Stick { stick: Stick::Left, axis: StickAxis::X, raw_value, range },
        )
    } else if code == ABS_Y {
        Some(
            ControllerEventKind::Stick { stick: Stick::Left, axis: StickAxis::Y, raw_value, range },
        )
    } else if code == ABS_RX {
        Some(
            ControllerEventKind::Stick { stick: Stick::Right, axis: StickAxis::X, raw_value, range },
        )
    } else if code == ABS_RY {
        Some(
            ControllerEventKind::Stick { stick: Stick::Right, axis: StickAxis::Y, raw_value, range },
        )
    } else if code == ABS_Z {
        Some(ControllerEventKind::Trigger { trigger: Trigger::Left, raw_value, range })
    } else if code == ABS_RZ {
        Some(ControllerEventKind::Trigger { trigger: Trigger::Right, raw_value, range })
    } else {
        None
    }
}

/// The decoder has the ranges that a device reports.
pub open spec fn has_ranges(decoder: EventDecoder, infos: Seq<AxisInfo>) -> bool {
    forall|slot: int|
        0 <= slot < 6 ==> #[trigger] decoder.axes@[slot] == reported_range(infos, slot)
}

/// The range that a device reports for an axis: that of the last entry for it.
pub open spec fn range_of(infos: Seq<AxisInfo>, code: AxisCode) -> AxisRange
    decreases infos.len(),
{
    if infos.len() == 0 {
        AxisRange { minimum: (-32768) as i32, maximum: 32767 }
    } else if infos.last().axis == code {
        AxisRange { minimum: infos.last().minimum, maximum: infos.last().maximum }
    } else {
        range_of(infos.drop_last(), code)
    }
}

proof fn lemma_range_of(infos: Seq<AxisInfo>)
    ensures
        reported_range(infos, 0) == range_of(infos, ABS_X),
        reported_range(infos, 1) == range_of(infos, ABS_Y),
        reported_range(infos, 2) == range_of(infos, ABS_Z),
        reported_range(infos, 3) == range_of(infos, ABS_RX),
        reported_range(infos, 4) == range_of(infos, ABS_RY),
        reported_range(infos, 5) == range_of(infos, ABS_RZ),
    decreases infos.len(),
{
    if infos.len() > 0 {
        lemma_range_of(infos.drop_last());
    }
}

/// An axis event of a stick or a trigger is one movement of that stick or trigger,
/// along its own axis, with the value of the event and the range that the device
/// reports for that very axis. Other axes but the hat give nothing.
pub proof fn law_axes_move_their_own_stick(
    decoder: EventDecoder,
    infos: Seq<AxisInfo>,
    code: AxisCode,
    value: i32,
)
    requires
        has_ranges(decoder, infos),
        code != ABS_HAT0X,
        code != ABS_HAT0Y,
    ensures
        ({
            let event = InputEvent { event_type: EV_ABS, code, value };
            &&& match movement(code, value, range_of(infos, code)) {
                Some(kind) => decoder.decoded(event).len() == 1 && decoder.decoded(event)[0].kind
                    == kind,
                None => decoder.decoded(event).len() == 0,
            }
            &&& decoder.after(event) == decoder
        }),
{
    lemma_range_of(infos);
    assert(decoder.axes@[0] == reported_range(infos, 0));
    assert(decoder.axes@[1] == reported_range(infos, 1));
    assert(decoder.axes@[2] == reported_range(infos, 2));
    assert(decoder.axes@[3] == reported_range(infos, 3));
    assert(decoder.axes@[4] == reported_range(infos, 4));
    assert(decoder.axes@[5] == reported_range(infos, 5));
}

/// Events that are neither keys nor axes give nothing and change nothing.
pub proof fn law_other_events_are_ignored(decoder: EventDecoder, event: InputEvent)
    requires
        event.event_type != EV_KEY,
        event.event_type != EV_ABS,
    ensures
        decoder.decoded(event).len() == 0,
        decoder.after(event) == decoder,
{
}

} // verus!
