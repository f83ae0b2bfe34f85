use dualsense::codes::{BTN_DPAD_UP, BTN_SOUTH, KEY_A, KEY_UP};
use dualsense::device::{
    button_event, discover_controller, is_dualsense, is_dualsense_gamepad, open_controller,
    open_for_listening, DeviceIdentity,
};

fn device(name: Option<&str>, vendor: u16, product: u16) -> DeviceIdentity {
    DeviceIdentity {
        name: name.map(str::to_owned),
        vendor,
        product,
    }
}

#[test]
fn vendor_and_product_identify_a_dualsense() {
    assert!(is_dualsense(&device(None, 0x054c, 0x0ce6)));
    assert!(is_dualsense(&device(Some("x"), 0x054c, 0x0df2)));
    assert!(is_dualsense(&device(Some("My DualSENSE Edge"), 0x054c, 1)));
    assert!(!is_dualsense(&device(Some("Sony pad"), 0x054c, 1)));
    assert!(!is_dualsense(&device(
        Some("DualSense keyboard mapper"),
        0,
        0x0ce6
    )));
}

#[test]
fn auxiliary_devices_are_no_gamepads() {
    for name in [
        "DualSense Wireless Controller Touchpad",
        "DualSense Wireless Controller Motion Sensors",
        "DualSense Wireless Controller Headset Jack",
    ] {
        let device = device(Some(name), 0x054c, 0x0ce6);
        assert!(is_dualsense(&device));
        assert!(!is_dualsense_gamepad(&device));
    }
    assert!(is_dualsense_gamepad(&device(
        Some("DualSense Wireless Controller"),
        0x054c,
        0x0ce6
    )));
}

#[test]
fn first_gamepad_is_discovered() {
    let devices = [
        device(Some("Keyboard"), 1, 1),
        device(Some("DualSense Touchpad"), 0x054c, 0x0ce6),
        device(Some("DualSense"), 0x054c, 0x0ce6),
        device(Some("DualSense"), 0x054c, 0x0df2),
    ];
    assert_eq!(discover_controller(&devices), Some(2));
    assert_eq!(discover_controller(&devices[..2]), None);
    assert_eq!(discover_controller(&[]), None);
}

#[test]
fn selected_devices_are_checked() {
    let pad = device(Some("DualSense"), 0x054c, 0x0ce6);
    let touchpad = device(Some("DualSense Touchpad"), 0x054c, 0x0ce6);
    let keyboard = device(Some("Keyboard"), 1, 1);
    assert_eq!(open_controller("/dev/x", &pad), Ok(()));
    assert_eq!(
        open_controller("/dev/x", &touchpad).unwrap_err(),
        "/dev/x is a DualSense auxiliary device; use the main gamepad event device instead"
    );
    assert_eq!(
        open_controller("/dev/x", &keyboard).unwrap_err(),
        "/dev/x is not a DualSense gamepad device"
    );
    assert_eq!(open_for_listening("/dev/x", &pad), Ok(()));
    assert_eq!(open_for_listening("/dev/x", &keyboard), Ok(()));
    assert_eq!(
        open_for_listening("/dev/x", &touchpad).unwrap_err(),
        "/dev/x is a DualSense auxiliary device; use the main gamepad event device instead"
    );
}

#[test]
fn buttons_and_direction_keys_are_button_events() {
    assert!(button_event(BTN_SOUTH));
    assert!(button_event(BTN_DPAD_UP));
    assert!(button_event(KEY_UP));
    assert!(!button_event(KEY_A));
}
