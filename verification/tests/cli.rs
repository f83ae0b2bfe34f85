use dualsense::cli::{
    button_name, choose_mode, delivery_failure, device_info, event_report, handle_voice_output,
    is_off, light_color, light_command, light_report, list_entry, missing_light, Mode, Printed,
};
use dualsense::device::DeviceIdentity;
use dualsense::input::{AxisRange, Button, ButtonState, ControllerEventKind, Trigger};
use dualsense::light::ControllerLight;
use dualsense::outputs::VoiceOutput;

#[test]
fn arguments_choose_the_mode() {
    assert_eq!(choose_mode(false, None, false), Mode::Listen);
    assert_eq!(choose_mode(false, None, true), Mode::Tui);
    assert_eq!(
        choose_mode(false, Some("off".to_owned()), true),
        Mode::Light("off".to_owned())
    );
    assert_eq!(choose_mode(true, Some("off".to_owned()), true), Mode::List);
}

#[test]
fn light_colors_have_names() {
    assert_eq!(light_color("OFF"), Ok((0, 0, 0)));
    assert_eq!(light_color("#0080ff"), Ok((0, 128, 255)));
    assert_eq!(
        light_color("purple").unwrap_err(),
        "invalid color 'purple'; use RRGGBB, #RRGGBB, or off"
    );
    for name in ["+1+2+3", "a\u{e9}123", ""] {
        assert_eq!(
            light_color(name).unwrap_err(),
            format!("invalid color '{name}'; use RRGGBB, #RRGGBB, or off")
        );
    }
    assert!(is_off("Off") && !is_off("of") && !is_off("off "));
    assert_eq!(light_report("off"), "Controller light set to off");
    assert_eq!(
        missing_light("/dev/input/event5"),
        "no RGB LED sysfs device found for /dev/input/event5. Check that hid-playstation is loaded"
    );
}

#[test]
fn light_is_set_by_one_write() {
    let light = || ControllerLight {
        rgb_path: b"/leds/x/multi_intensity".to_vec(),
    };
    let color = light_color("#0080ff").unwrap();
    let command = light_command(color, "/dev/x", Some(light())).unwrap();
    assert_eq!(command.path, light().rgb_path);
    assert_eq!(command.contents, "0 128 255\n");
    let off = light_color("off").unwrap();
    assert_eq!(light_command(off, "/dev/x", Some(light())), Ok(light().off()));
    assert_eq!(
        light_command(off, "/dev/x", None),
        Err(missing_light("/dev/x"))
    );
}

#[test]
fn devices_are_listed_with_their_class() {
    let touchpad = DeviceIdentity {
        name: Some("DualSense Touchpad".to_owned()),
        vendor: 0x054c,
        product: 0x0ce6,
    };
    assert_eq!(device_info("/dev/x", "None", "id"), "/dev/x: name=None, id=id");
    assert_eq!(
        list_entry("/dev/x", "Some(\"DualSense Touchpad\")", "id", &touchpad),
        "/dev/x: name=Some(\"DualSense Touchpad\"), id=id, dualsense=true, gamepad=false"
    );
}

#[test]
fn voice_reports_are_printed_and_delivered() {
    let relay = handle_voice_output("/dev/x", VoiceOutput::Transcript("hi".to_owned()));
    assert_eq!(
        relay.printed,
        Printed::Output("[/dev/x] transcribed text: hi".to_owned())
    );
    let delivery = relay.delivery.unwrap();
    assert!(delivery.text == "hi" && !delivery.partial);
    let relay = handle_voice_output("/dev/x", VoiceOutput::PartialTranscript("h".to_owned()));
    assert_eq!(
        relay.printed,
        Printed::Output("[/dev/x] transcribed partial: h".to_owned())
    );
    assert!(relay.delivery.unwrap().partial);
    let relay = handle_voice_output("/dev/x", VoiceOutput::Status("s".to_owned()));
    assert_eq!(relay.printed, Printed::Error("[/dev/x] s".to_owned()));
    assert!(relay.delivery.is_none());
    let relay = handle_voice_output("/dev/x", VoiceOutput::Light([1, 2, 3]));
    assert!(relay.printed == Printed::Nothing && relay.delivery.is_none());
    assert_eq!(
        delivery_failure("/dev/x", "gone"),
        "[/dev/x] clipboard paste failed: gone"
    );
}

#[test]
fn buttons_are_printed_by_name() {
    let down = ControllerEventKind::Button {
        button: Button::DpadLeft,
        state: ButtonState::Down,
    };
    assert_eq!(
        event_report("/dev/x", down).unwrap(),
        "[/dev/x] button DpadLeft Down"
    );
    let up = ControllerEventKind::Button {
        button: Button::Ps,
        state: ButtonState::Up,
    };
    assert_eq!(event_report("/dev/x", up).unwrap(), "[/dev/x] button Ps Up");
    let trigger = ControllerEventKind::Trigger {
        trigger: Trigger::Left,
        raw_value: 1,
        range: AxisRange::default(),
    };
    assert_eq!(event_report("/dev/x", trigger), None);
    for button in [
        Button::South,
        Button::East,
        Button::North,
        Button::West,
        Button::L1,
        Button::R1,
        Button::L2,
        Button::R2,
        Button::Create,
        Button::Options,
        Button::Ps,
        Button::L3,
        Button::R3,
        Button::DpadUp,
        Button::DpadDown,
        Button::DpadLeft,
        Button::DpadRight,
    ] {
        assert_eq!(button_name(button), format!("{button:?}"));
    }
}
