use dualsense::codes::{InputEvent, EV_KEY};
use dualsense::input::{
    AxisRange, Button, ButtonState, ControllerEvent, ControllerEventKind, Trigger,
};
use dualsense::light::ControllerLight;
use dualsense::outputs::VoiceOutput;
use dualsense::text_input::{Next, Outcome, Request};
use dualsense::voice::{Command, VoiceInput};

fn button(button: Button, state: ButtonState) -> ControllerEvent {
    ControllerEvent {
        kind: ControllerEventKind::Button { button, state },
        raw: InputEvent::new(EV_KEY, 0, 0),
    }
}

fn voice() -> VoiceInput {
    let light = ControllerLight {
        rgb_path: b"/led".to_vec(),
    };
    let (voice, change) = VoiceInput::new(Some(light), None);
    let change = change.unwrap();
    assert_eq!(change.rgb, [0, 0, 255]);
    assert_eq!(change.command.contents, "0 0 255\n");
    voice
}

#[test]
fn talk_button_starts_and_stops_in_turns() {
    let mut voice = voice();
    let up = voice.handle(button(Button::East, ButtonState::Up));
    assert_eq!(up.command, None);
    let down = voice.handle(button(Button::East, ButtonState::Down));
    assert_eq!(down.command, Some(Command::Start));
    assert!(down.begin_turn && voice.is_recording());
    let light = down.light.unwrap();
    assert_eq!(light.rgb, [0, 255, 0]);
    assert_eq!(light.command.path, b"/led");
    let again = voice.handle(button(Button::East, ButtonState::Down));
    assert!(again.command.is_none() && again.light.is_none() && !again.begin_turn);
    let up = voice.handle(button(Button::East, ButtonState::Up));
    assert_eq!(up.command, Some(Command::Stop));
    assert_eq!(up.light.unwrap().rgb, [0, 0, 255]);
    assert!(!up.begin_turn && !voice.is_recording());
}

#[test]
fn other_controls_do_not_talk() {
    let mut voice = voice();
    let reaction = voice.handle(button(Button::South, ButtonState::Down));
    assert!(reaction.command.is_none() && reaction.light.is_none());
    let trigger = ControllerEvent {
        kind: ControllerEventKind::Trigger {
            trigger: Trigger::Left,
            raw_value: 255,
            range: AxisRange::default(),
        },
        raw: InputEvent::new(EV_KEY, 0, 0),
    };
    assert!(voice.handle(trigger).command.is_none());
}

#[test]
fn controllers_without_a_light_talk_too() {
    let (mut voice, change) = VoiceInput::new(None, None);
    assert!(change.is_none());
    let down = voice.handle(button(Button::East, ButtonState::Down));
    assert_eq!(down.command, Some(Command::Start));
    assert!(down.light.is_none());
}

#[test]
fn microphone_is_started_once() {
    let mut voice = voice();
    assert!(voice.spawn_microphone());
    assert!(!voice.spawn_microphone());
}

#[test]
fn reports_are_received_in_order() {
    let mut voice = voice();
    assert_eq!(voice.try_recv(), None);
    voice.light_was_set([1, 2, 3], Ok(()));
    voice.light_was_set([1, 2, 3], Err("denied".to_owned()));
    voice.send(VoiceOutput::MicSample {
        rms_bits: 1,
        peak_bits: 2,
    });
    assert_eq!(voice.try_recv(), Some(VoiceOutput::Light([1, 2, 3])));
    assert_eq!(
        voice.try_recv(),
        Some(VoiceOutput::Status(
            "Controller light error: denied".to_owned()
        ))
    );
    assert_eq!(
        voice.try_recv(),
        Some(VoiceOutput::MicSample {
            rms_bits: 1,
            peak_bits: 2
        })
    );
    assert_eq!(voice.try_recv(), None);
}

#[test]
fn text_input_reports_through_the_voice_input() {
    let mut voice = voice();
    assert_eq!(voice.begin_text_turn(), Next::Finished(Outcome::Ready));
    assert_eq!(voice.type_partial("a"), Next::Perform(Request::OpenClient));
    assert!(voice.text_is_busy());
    assert_eq!(
        voice.text_reply(Ok(())),
        Next::Perform(Request::Type("a".to_owned()))
    );
    assert_eq!(
        voice.text_reply(Ok(())),
        Next::Finished(Outcome::Typed(true))
    );
    assert_eq!(voice.type_final("a"), Next::Finished(Outcome::Typed(true)));
    assert_eq!(
        voice.try_recv(),
        Some(VoiceOutput::Status(
            "Using Wayland virtual keyboard for transcription".to_owned()
        ))
    );
    assert_eq!(voice.try_recv(), None);
}
