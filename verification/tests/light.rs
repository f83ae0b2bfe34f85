use dualsense::light::{
    fallback_file_of, intensity_file_of, led_directory_of, parse_color,
    ControllerLight, LedEntry, LightError,
};

fn light() -> ControllerLight {
    ControllerLight {
        rgb_path: b"/leds/x/multi_intensity".to_vec(),
    }
}

fn entry(name: &str, has_intensity: bool) -> LedEntry {
    LedEntry {
        name: name.as_bytes().to_vec(),
        has_intensity,
    }
}

#[test]
fn colors_are_read_with_and_without_number_sign() {
    assert_eq!(parse_color("ff8000"), Some((255, 128, 0)));
    assert_eq!(parse_color("#FF8000"), Some((255, 128, 0)));
    assert_eq!(parse_color("#ff800"), None);
    assert_eq!(parse_color("##ff8000"), None);
    assert_eq!(parse_color("gg0000"), None);
    assert_eq!(parse_color("00gg00"), None);
    assert_eq!(parse_color("0000gg"), None);
    assert_eq!(parse_color(""), None);
    assert_eq!(parse_color("#"), None);
    assert_eq!(parse_color("##12345"), None);
    assert_eq!(parse_color("+f0000"), None);
    assert_eq!(parse_color("+1+2+3"), None);
    assert_eq!(parse_color("-f0000"), None);
    assert_eq!(parse_color("aBcDeF"), parse_color("AbCdEf"));
    assert_eq!(parse_color("abcdef"), Some((0xab, 0xcd, 0xef)));
}

#[test]
fn other_characters_name_no_color() {
    assert_eq!(parse_color("\u{e9}\u{e9}\u{e9}"), None);
    assert_eq!(parse_color("f\u{e9}000"), None);
    assert_eq!(parse_color("a\u{e9}123"), None);
    assert_eq!(parse_color("ffa\u{e9}0"), None);
    assert_eq!(parse_color("\u{ff11}00000"), None);
}

#[test]
fn light_commands_name_the_file_and_the_color() {
    let command = light().set_rgb(1, 20, 255);
    assert_eq!(command.path, light().rgb_path);
    assert_eq!(command.contents, "1 20 255\n");
    assert_eq!(light().off().contents, "0 0 0\n");
}

#[test]
fn light_reads_back_what_was_written() {
    for (red, green, blue) in [(0, 0, 0), (1, 2, 3), (255, 100, 9)] {
        let contents = light().set_rgb(red, green, blue).contents;
        assert_eq!(light().current_rgb(&contents), Ok((red, green, blue)));
    }
}

#[test]
fn unreadable_intensities_are_told_apart() {
    assert_eq!(light().current_rgb("1 2 x"), Err(LightError::InvalidValue));
    assert_eq!(light().current_rgb("1 2 256"), Err(LightError::InvalidValue));
    assert_eq!(light().current_rgb("1 2"), Err(LightError::UnexpectedFormat));
    assert_eq!(light().current_rgb("1 2 3 4"), Err(LightError::UnexpectedFormat));
    assert_eq!(light().current_rgb(""), Err(LightError::UnexpectedFormat));
    assert_eq!(light().current_rgb("1 x"), Err(LightError::InvalidValue));
    assert_eq!(light().current_rgb("+1\t02\u{a0}3"), Ok((1, 2, 3)));
    assert_eq!(
        LightError::InvalidValue.message(),
        "invalid RGB LED intensity value"
    );
    assert_eq!(
        LightError::UnexpectedFormat.message(),
        "unexpected RGB LED intensity format"
    );
}

#[test]
fn first_indicator_of_the_device_is_taken() {
    let entries = [
        entry("input7::player", true),
        entry("input7:rgb:indicator", false),
        entry("input8:rgb:indicator", true),
        entry("input9:rgb:indicator", true),
    ];
    let light = ControllerLight::from_event_path("event5", &entries, true).unwrap();
    assert_eq!(
        light.rgb_path,
        b"/sys/class/input/event5/device/device/leds/input8:rgb:indicator/multi_intensity"
    );
    assert_eq!(
        led_directory_of("event5"),
        b"/sys/class/input/event5/device/device/leds"
    );
    assert_eq!(
        intensity_file_of(b"/leds", b"x"),
        b"/leds/x/multi_intensity"
    );
}

#[test]
fn fallback_follows_the_event_number() {
    assert_eq!(
        fallback_file_of("event12").unwrap(),
        b"/sys/class/leds/input12:rgb:indicator/multi_intensity"
    );
    assert_eq!(fallback_file_of("js0"), None);
    let light = ControllerLight::from_event_path("event12", &[], true).unwrap();
    assert_eq!(
        light.rgb_path,
        b"/sys/class/leds/input12:rgb:indicator/multi_intensity"
    );
    assert!(ControllerLight::from_event_path("event12", &[], false).is_none());
    assert!(ControllerLight::from_event_path("js0", &[], true).is_none());
}
