use dualsense::calibration::{AxisCalibration, JoystickCalibration};
use dualsense::codes::{
    InputEvent, ABS_HAT0X, ABS_HAT0Y, ABS_RX, ABS_X, ABS_Z, BTN_DPAD_DOWN, BTN_SOUTH, EV_ABS, EV_KEY,
    KEY_A, KEY_UP,
};
use dualsense::input::{AxisInfo, AxisRange, ControllerEvent, ControllerEventKind, Trigger};
use dualsense::light::ControllerLight;
use dualsense::outputs::VoiceOutput;
use dualsense::state::{describe_color, ControllerState, LightOutcome, LightReading};
use dualsense::tui::{relay_voice_output, Monitor, ReaderMessage, TerminalKey};

fn reading(contents: Result<&str, &str>) -> Option<LightReading> {
    Some(LightReading {
        light: ControllerLight {
            rgb_path: b"/led".to_vec(),
        },
        contents: contents.map(str::to_owned).map_err(str::to_owned),
    })
}

fn state(reading: Option<LightReading>) -> ControllerState {
    let axes = [AxisInfo {
        axis: ABS_RX,
        minimum: 0,
        maximum: 200,
        value: 50,
    }];
    ControllerState::new(
        "/dev/input/event5".to_owned(),
        None,
        reading,
        &axes,
        &[BTN_SOUTH, KEY_A],
        None,
    )
}

fn monitor() -> Monitor {
    Monitor::new(state(reading(Ok("10 250 128\n"))))
}

fn input(raw: InputEvent) -> ReaderMessage {
    ReaderMessage::Input(ControllerEvent {
        kind: ControllerEventKind::Trigger {
            trigger: Trigger::Left,
            raw_value: raw.value,
            range: AxisRange::default(),
        },
        raw,
    })
}

#[test]
fn controllers_are_shown_as_they_are_found() {
    let state = state(reading(Ok("10 20 30\n")));
    assert_eq!(state.path(), "/dev/input/event5");
    assert_eq!(state.name(), "DualSense");
    assert!(state.pressed(BTN_SOUTH) && !state.pressed(KEY_A));
    assert_eq!(state.light_rgb(), [10, 20, 30]);
    assert_eq!(
        state.light_status(),
        "Use r/R, g/G, b/B to adjust; 0 turns it off"
    );
    assert_eq!(state.mic_status(), "Searching for the DualSense microphone...");
    let sticks = state.sticks();
    assert_eq!(
        (sticks.right_x.value, sticks.right_x.minimum, sticks.right_x.maximum),
        (50, 0, 200)
    );
    assert_eq!(
        (sticks.left_y.value, sticks.left_y.minimum, sticks.left_y.maximum),
        (0, -32768, 32767)
    );
    assert_eq!(state.triggers().0.maximum, 255);
    assert_eq!(state.calibration().right_x.center, 100);
    assert_eq!(state.calibration().left_x.center, 0);
    assert_eq!(state.reader_error(), None);
    assert_eq!(state.calibration_message(), None);
    assert_eq!(state.mic_level(), (0, 0));
}

#[test]
fn lights_that_cannot_be_read_are_black() {
    let unread = state(reading(Err("could not read /led")));
    assert_eq!(unread.light_rgb(), [0, 0, 0]);
    assert_eq!(
        unread.light_status(),
        "RGB light read failed: could not read /led"
    );
    let odd = state(reading(Ok("1 2")));
    assert_eq!(
        odd.light_status(),
        "RGB light read failed: unexpected RGB LED intensity format"
    );
    let missing = state(None);
    assert_eq!(missing.light_status(), "RGB LED not exposed by hid-playstation");
}

#[test]
fn saved_calibration_is_taken() {
    let axis = AxisCalibration {
        center: 1,
        minimum: 0,
        maximum: 2,
    };
    let saved = JoystickCalibration {
        left_x: axis,
        left_y: axis,
        right_x: axis,
        right_y: axis,
    };
    let state = ControllerState::new(
        String::new(),
        Some("Pad".to_owned()),
        None,
        &[],
        &[],
        Some(saved),
    );
    assert_eq!(state.name(), "Pad");
    assert_eq!(state.calibration(), saved);
}

#[test]
fn raw_events_move_the_controls() {
    let mut state = state(None);
    state.apply(InputEvent::new(EV_KEY, BTN_SOUTH, 0));
    assert!(!state.pressed(BTN_SOUTH));
    state.apply(InputEvent::new(EV_KEY, KEY_A, 1));
    assert!(!state.pressed(KEY_A));
    state.apply(InputEvent::new(EV_ABS, ABS_X, 42));
    assert_eq!(state.sticks().left_x.value, 42);
    state.apply(InputEvent::new(EV_ABS, ABS_Z, 9));
    assert_eq!(state.triggers().0.value, 9);
    state.apply(InputEvent::new(EV_ABS, ABS_HAT0X, -1));
    assert!(state.dpad_left() && !state.dpad_right());
    state.apply(InputEvent::new(EV_ABS, ABS_HAT0X, 1));
    assert!(!state.dpad_left() && state.dpad_right());
    state.apply(InputEvent::new(EV_ABS, ABS_HAT0Y, 0));
    assert!(!state.dpad_up() && !state.dpad_down());
    state.apply(InputEvent::new(EV_KEY, KEY_UP, 1));
    assert!(state.dpad_up());
    state.apply(InputEvent::new(EV_KEY, BTN_DPAD_DOWN, 1));
    assert!(state.dpad_down());
}

#[test]
fn light_keys_turn_one_channel() {
    let mut monitor = monitor();
    let red = monitor.press(TerminalKey::Char('r')).light.unwrap();
    assert_eq!(red.rgb, [0, 250, 128]);
    assert_eq!(red.command.contents, "0 250 128\n");
    // The colour that is shown changes only when it has been set.
    assert_eq!(monitor.state().light_rgb(), [10, 250, 128]);
    monitor.light_was_set(red.rgb, LightOutcome::Done);
    assert_eq!(monitor.state().light_rgb(), [0, 250, 128]);
    assert_eq!(monitor.state().light_status(), "RGB #00FA80");
    let green = monitor.press(TerminalKey::Char('G')).light.unwrap();
    assert_eq!(green.rgb, [0, 255, 128]);
    let blue = monitor.press(TerminalKey::Char('b')).light.unwrap();
    assert_eq!(blue.rgb, [0, 250, 112]);
    assert_eq!(
        monitor.press(TerminalKey::Char('R')).light.unwrap().rgb,
        [16, 250, 128]
    );
    assert_eq!(
        monitor.press(TerminalKey::Char('g')).light.unwrap().rgb,
        [0, 234, 128]
    );
    assert_eq!(
        monitor.press(TerminalKey::Char('B')).light.unwrap().rgb,
        [0, 250, 144]
    );
    let off = monitor.press(TerminalKey::Char('0')).light.unwrap();
    assert_eq!(off.command.contents, "0 0 0\n");
    monitor.light_was_set(off.rgb, LightOutcome::PermissionDenied);
    assert_eq!(
        monitor.state().light_status(),
        "RGB permission denied; install udev/99-dualsense-led.rules"
    );
    monitor.light_was_set(off.rgb, LightOutcome::Failed("gone".to_owned()));
    assert_eq!(monitor.state().light_status(), "RGB light error: gone");
    assert_eq!(describe_color([255, 0, 10]), "RGB #FF000A");
}

#[test]
fn missing_lights_cannot_be_set() {
    let mut monitor = Monitor::new(state(None));
    assert!(monitor.press(TerminalKey::Char('r')).light.is_none());
    assert_eq!(monitor.state().light_status(), "RGB LED is unavailable");
}

#[test]
fn keys_quit_and_toggle() {
    let mut monitor = monitor();
    assert!(monitor.press(TerminalKey::Escape).quit);
    assert!(monitor.press(TerminalKey::Char('q')).quit);
    assert!(!monitor.press(TerminalKey::Char('x')).quit);
    assert!(!monitor.press(TerminalKey::Other).quit);
    assert!(!monitor.shows_mappings());
    monitor.press(TerminalKey::Char('m'));
    assert!(monitor.shows_mappings());
    monitor.press(TerminalKey::Char('m'));
    assert!(!monitor.shows_mappings());
}

#[test]
fn calibration_takes_effect_when_it_is_kept() {
    let mut monitor = monitor();
    assert!(monitor.press(TerminalKey::Enter).save.is_none());
    assert!(monitor.press(TerminalKey::Char('c')).start_clock);
    assert!(monitor.may_sample());
    monitor.sample(0);
    assert!(monitor.press(TerminalKey::Enter).save.is_none());
    monitor.receive(input(InputEvent::new(EV_ABS, ABS_X, -9)));
    monitor.receive(input(InputEvent::new(EV_ABS, ABS_X, 9)));
    monitor.sample(0);
    let before = monitor.state().calibration();
    let saved = monitor.press(TerminalKey::Enter).save.unwrap();
    assert!(monitor.calibration().is_none());
    assert_eq!(
        saved.left_x,
        AxisCalibration {
            center: 0,
            minimum: -9,
            maximum: 9
        }
    );
    monitor.calibration_was_saved(saved, Err("read-only".to_owned()));
    assert_eq!(monitor.state().calibration(), before);
    assert_eq!(
        monitor.state().calibration_message(),
        Some("Calibration measured, but save failed: read-only")
    );
    monitor.calibration_was_saved(saved, Ok(()));
    assert_eq!(monitor.state().calibration(), saved);
    assert_eq!(
        monitor.state().calibration_message(),
        Some("Calibration saved; press c to recalibrate")
    );
    monitor.press(TerminalKey::Char('c'));
    assert_eq!(monitor.state().calibration_message(), None);
}

#[test]
fn reader_messages_are_shown() {
    let mut monitor = monitor();
    monitor.receive(ReaderMessage::Error("gone".to_owned()));
    assert_eq!(monitor.state().reader_error(), Some("gone"));
    monitor.receive(ReaderMessage::MicStatus("Listening".to_owned()));
    assert_eq!(monitor.state().mic_status(), "Listening");
    monitor.receive(ReaderMessage::Light([1, 2, 3]));
    assert_eq!(monitor.state().light_rgb(), [1, 2, 3]);
    assert_eq!(monitor.state().light_status(), "RGB #010203");
    for level in 0..130 {
        monitor.receive(ReaderMessage::MicSample {
            rms_bits: level,
            peak_bits: level + 1,
        });
    }
    assert_eq!(monitor.state().mic_level(), (129, 130));
    assert_eq!(monitor.state().mic_history_len(), 128);
    assert_eq!(monitor.state().mic_history_at(0), 2);
    assert_eq!(monitor.state().mic_history_at(127), 129);
}

#[test]
fn voice_reports_are_relayed_to_the_screen() {
    let relay = relay_voice_output(VoiceOutput::Transcript("hi".to_owned()));
    assert!(matches!(relay.message, ReaderMessage::MicStatus(text) if text == "Voice input: hi"));
    let delivery = relay.delivery.unwrap();
    assert!(delivery.text == "hi" && !delivery.partial);
    let relay = relay_voice_output(VoiceOutput::PartialTranscript("h".to_owned()));
    assert!(
        matches!(relay.message, ReaderMessage::MicStatus(text) if text == "Voice input (partial): h")
    );
    assert!(relay.delivery.unwrap().partial);
    let relay = relay_voice_output(VoiceOutput::Status("s".to_owned()));
    assert!(matches!(relay.message, ReaderMessage::MicStatus(text) if text == "s"));
    assert!(relay.delivery.is_none());
    let relay = relay_voice_output(VoiceOutput::Light([1, 2, 3]));
    assert!(matches!(relay.message, ReaderMessage::Light([1, 2, 3])));
    let relay = relay_voice_output(VoiceOutput::MicSample {
        rms_bits: 1,
        peak_bits: 2,
    });
    assert!(matches!(
        relay.message,
        ReaderMessage::MicSample {
            rms_bits: 1,
            peak_bits: 2
        }
    ));
}
