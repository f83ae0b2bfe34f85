use dualsense::codes::{
    InputEvent, ABS_HAT0X, ABS_HAT0Y, ABS_RX, ABS_RZ, ABS_X, ABS_Z, BTN_MODE, BTN_SOUTH, EV_ABS,
    EV_KEY, EV_REL, KEY_A, KEY_UP,
};
use dualsense::input::{
    hat_button, AxisInfo, AxisRange, Button, ButtonState, ControllerEvent, ControllerEventKind,
    EventDecoder, Stick, StickAxis, Trigger,
};

fn decoder() -> EventDecoder {
    EventDecoder::new(&[])
}

fn edges(events: &[ControllerEvent]) -> Vec<(Button, ButtonState)> {
    events
        .iter()
        .map(|event| match event.kind {
            ControllerEventKind::Button { button, state } => (button, state),
            _ => panic!("expected button event"),
        })
        .collect()
}

#[test]
fn hat_transition_emits_release_then_press() {
    let mut decoder = EventDecoder {
        axes: [AxisRange::default(); 6],
        dpad_x: -1,
        dpad_y: 0,
    };
    let raw = InputEvent::new(EV_ABS, ABS_HAT0X, 1);
    let events = decoder.decode(raw);
    assert!(matches!(
        events[0].kind,
        ControllerEventKind::Button {
            button: Button::DpadLeft,
            state: ButtonState::Up
        }
    ));
    assert!(matches!(
        events[1].kind,
        ControllerEventKind::Button {
            button: Button::DpadRight,
            state: ButtonState::Down
        }
    ));
}

#[test]
fn dpad_edges_alternate_from_down() {
    let mut decoder = decoder();
    let mut left = Vec::new();
    for (code, value) in [
        (ABS_HAT0X, -1),
        (ABS_HAT0Y, 1),
        (ABS_HAT0X, -1),
        (ABS_HAT0X, 1),
        (ABS_HAT0Y, 0),
        (ABS_HAT0X, -1),
    ] {
        for (button, state) in edges(&decoder.decode(InputEvent::new(EV_ABS, code, value))) {
            if button == Button::DpadLeft {
                left.push(state);
            }
        }
    }
    assert_eq!(
        left,
        vec![ButtonState::Down, ButtonState::Up, ButtonState::Down]
    );
}

#[test]
fn stick_value_is_normalized() {
    let mut decoder = EventDecoder {
        axes: [AxisRange {
            minimum: -100,
            maximum: 100,
        }; 6],
        dpad_x: 0,
        dpad_y: 0,
    };
    let raw = InputEvent::new(EV_ABS, ABS_X, 50);
    let events = decoder.decode(raw);
    match events[0].kind {
        ControllerEventKind::Stick {
            raw_value, range, ..
        } => {
            let span = (range.maximum - range.minimum) as f32;
            let value = (raw_value - range.minimum) as f32 / span * 2.0 - 1.0;
            assert!((value - 0.5).abs() < 0.01)
        }
        _ => panic!("expected stick event"),
    }
}

#[test]
fn keys_are_button_edges() {
    let mut decoder = decoder();
    let down = InputEvent::new(EV_KEY, BTN_SOUTH, 1);
    let events = decoder.decode(down);
    assert_eq!(edges(&events), vec![(Button::South, ButtonState::Down)]);
    assert_eq!(events[0].raw, down);
    assert_eq!(
        edges(&decoder.decode(InputEvent::new(EV_KEY, BTN_SOUTH, 0))),
        vec![(Button::South, ButtonState::Up)]
    );
    assert_eq!(
        edges(&decoder.decode(InputEvent::new(EV_KEY, BTN_MODE, 2))),
        vec![(Button::Ps, ButtonState::Down)]
    );
    assert_eq!(
        edges(&decoder.decode(InputEvent::new(EV_KEY, KEY_UP, 1))),
        vec![(Button::DpadUp, ButtonState::Down)]
    );
    assert!(decoder.decode(InputEvent::new(EV_KEY, KEY_A, 1)).is_empty());
    assert!(decoder.decode(InputEvent::new(EV_REL, BTN_SOUTH, 1)).is_empty());
}

#[test]
fn hat_edges_follow_the_hat() {
    let mut decoder = decoder();
    assert_eq!(
        edges(&decoder.decode(InputEvent::new(EV_ABS, ABS_HAT0Y, -1))),
        vec![(Button::DpadUp, ButtonState::Down)]
    );
    assert!(decoder.decode(InputEvent::new(EV_ABS, ABS_HAT0Y, -1)).is_empty());
    assert_eq!(
        edges(&decoder.decode(InputEvent::new(EV_ABS, ABS_HAT0Y, 0))),
        vec![(Button::DpadUp, ButtonState::Up)]
    );
    assert_eq!(hat_button(true, -1), Some(Button::DpadLeft));
    assert_eq!(hat_button(true, 1), Some(Button::DpadRight));
    assert_eq!(hat_button(false, 1), Some(Button::DpadDown));
    assert_eq!(hat_button(false, 0), None);
}

#[test]
fn sticks_and_triggers_carry_their_range() {
    let mut decoder = EventDecoder::new(&[
        AxisInfo {
            axis: ABS_RX,
            minimum: 0,
            maximum: 255,
            value: 128,
        },
        AxisInfo {
            axis: ABS_RZ,
            minimum: 1,
            maximum: 99,
            value: 1,
        },
    ]);
    let stick = decoder.decode(InputEvent::new(EV_ABS, ABS_RX, 200));
    assert_eq!(
        stick[0].kind,
        ControllerEventKind::Stick {
            stick: Stick::Right,
            axis: StickAxis::X,
            raw_value: 200,
            range: AxisRange {
                minimum: 0,
                maximum: 255
            },
        }
    );
    let trigger = decoder.decode(InputEvent::new(EV_ABS, ABS_RZ, 5));
    assert_eq!(
        trigger[0].kind,
        ControllerEventKind::Trigger {
            trigger: Trigger::Right,
            raw_value: 5,
            range: AxisRange {
                minimum: 1,
                maximum: 99
            },
        }
    );
    let unreported = decoder.decode(InputEvent::new(EV_ABS, ABS_Z, 5));
    assert_eq!(
        unreported[0].kind,
        ControllerEventKind::Trigger {
            trigger: Trigger::Left,
            raw_value: 5,
            range: AxisRange {
                minimum: -32768,
                maximum: 32767
            },
        }
    );
}
