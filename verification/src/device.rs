//! DualSense device discovery and identification helpers.
//!
//! A DualSense exposes several evdev devices (the gamepad, touchpad, motion
//! sensors, and headset jack).  The gamepad device is the one consumers of
//! controller input should open by default.

use crate::codes::{
    KeyCode, BTN_DPAD_DOWN, BTN_DPAD_LEFT, BTN_DPAD_RIGHT, BTN_DPAD_UP, BTN_EAST, BTN_MODE,
    BTN_NORTH, BTN_SELECT, BTN_SOUTH, BTN_START, BTN_THUMBL, BTN_THUMBR, BTN_TL, BTN_TL2, BTN_TR,
    BTN_TR2, BTN_WEST, KEY_DOWN, KEY_LEFT, KEY_RIGHT, KEY_UP,
};
use crate::input::button_of;
use crate::text;
use vstd::prelude::*;
use vstd::string::*;

verus! {

pub const SONY_VENDOR_ID: u16 = 0x054c;

pub const DUALSENSE_USB_PRODUCT_ID: u16 = 0x0ce6;

pub const DUALSENSE_BLUETOOTH_PRODUCT_ID: u16 = 0x0df2;

/// What an evdev device says it is.
#[derive(Debug, PartialEq, Eq)]
pub struct DeviceIdentity {
    pub name: Option<String>,
    pub vendor: u16,
    pub product: u16,
}

/// The name and the numbers of a device. A device without a name has the empty
/// name.
#[verifier::ext_equal]
pub struct IdentityView {
    pub name: Seq<char>,
    pub vendor: u16,
    pub product: u16,
}

impl View for DeviceIdentity {
    type V = IdentityView;

    open spec fn view(&self) -> IdentityView {
        IdentityView {
            name: match self.name {
                Some(name) => name@,
                None => Seq::empty(),
            },
            vendor: self.vendor,
            product: self.product,
        }
    }
}

impl IdentityView {
    /// The name holds `part`, whatever the case of its ASCII letters.
    pub open spec fn named(self, part: Seq<char>) -> bool {
        text::occurs(text::lowered(self.name), part)
    }

    /// The device belongs to a DualSense controller.
    pub open spec fn dualsense(self) -> bool {
        &&& self.vendor == SONY_VENDOR_ID
        &&& {
            ||| self.product == DUALSENSE_USB_PRODUCT_ID
            ||| self.product == DUALSENSE_BLUETOOTH_PRODUCT_ID
            ||| self.named("dualsense"@)
        }
    }

    /// The device is the controller's main gamepad interface.
    pub open spec fn gamepad(self) -> bool {
        &&& self.dualsense()
        &&& !self.named("touchpad"@)
        &&& !self.named("motion sensor"@)
        &&& !self.named("headset jack"@)
    }

    /// The device is another part of a DualSense.
    pub open spec fn auxiliary(self) -> bool {
        self.dualsense() && !self.gamepad()
    }
}

fn lower_name(device: &DeviceIdentity) -> (name: Vec<char>)
    ensures
        name@ == text::lowered(device@.name),
{
    match &device.name {
        Some(name) => text::lower_chars(name.as_str()),
        None => {
            let none = String::new();
            text::lower_chars(none.as_str())
        },
    }
}

/// Whether an evdev device belongs to a DualSense controller.
pub fn is_dualsense(device: &DeviceIdentity) -> (r: bool)
    ensures
        r == device@.dualsense(),
{
    let name = lower_name(device);
    // Do not identify devices by name alone: virtual mapper devices can also
    // contain "DualSense" in their name. The Sony vendor ID is authoritative.
    device.vendor == SONY_VENDOR_ID && (device.product == DUALSENSE_USB_PRODUCT_ID || device.product
        == DUALSENSE_BLUETOOTH_PRODUCT_ID || text::has_text(name.as_slice(), "dualsense"))
}

/// Whether an evdev device is the controller's main gamepad interface.
pub fn is_dualsense_gamepad(device: &DeviceIdentity) -> (r: bool)
    ensures
        r == device@.gamepad(),
{
    if !is_dualsense(device) {
        return false;
    }
    // hid-playstation exposes separate evdev devices for the touchpad, motion
    // sensors, and headset jack.

    let name = lower_name(device);
    !text::has_text(name.as_slice(), "touchpad") && !text::has_text(name.as_slice(), "motion sensor")
        && !text::has_text(name.as_slice(), "headset jack")
}

/// Find the first DualSense gamepad device.
pub fn discover_controller(devices: &[DeviceIdentity]) -> (found: Option<usize>)
    ensures
        match found {
            Some(index) => index < devices@.len() && devices@[index as int]@.gamepad() && (forall|
                i: int,
            |
                0 <= i < index ==> !(#[trigger] devices@[i])@.gamepad()),
            None => forall|i: int| 0 <= i < devices@.len() ==> !(#[trigger] devices@[i])@.gamepad(),
        },
{
    let mut i: usize = 0;
    while i < devices.len()
        invariant
            i <= devices.len(),
            forall|k: int| 0 <= k < i ==> !(#[trigger] devices@[k])@.gamepad(),
        decreases devices.len() - i,
    {
        if is_dualsense_gamepad(&devices[i]) {
            return Some(i);
        }
        i = i + 1;
    }
    None
}

/// The complaint about a device that is another part of a DualSense.
pub open spec fn auxiliary_complaint(path: Seq<char>) -> Seq<char> {
    path + " is a DualSense auxiliary device; use the main gamepad event device instead"@
}

/// Whether an explicitly selected device can be opened as a controller: only a
/// DualSense gamepad can. `path` is how the device is called in a complaint.
pub fn open_controller(path: &str, device: &DeviceIdentity) -> (opened: Result<(), String>)
    ensures
        opened is Ok <==> device@.gamepad(),
        opened matches Err(complaint) ==> complaint@ == (if device@.auxiliary() {
            auxiliary_complaint(path@)
        } else {
            path@ + " is not a DualSense gamepad device"@
        }),
{
    if is_dualsense_gamepad(device) {
        return Ok(());
    }
    if is_dualsense(device) {
        return Err(
            text::joined(
                path,
                " is a DualSense auxiliary device; use the main gamepad event device instead",
            ),
        );
    }
    Err(text::joined(path, " is not a DualSense gamepad device"))
}

/// Whether an explicitly selected device can be listened to: any device but
/// another part of a DualSense can. `path` is how the device is called in a
/// complaint.
pub fn open_for_listening(path: &str, device: &DeviceIdentity) -> (opened: Result<(), String>)
    ensures
        opened is Ok <==> !device@.auxiliary(),
        opened matches Err(complaint) ==> complaint@ == auxiliary_complaint(path@),
{
    if is_dualsense(device) && !is_dualsense_gamepad(device) {
        return Err(
            text::joined(
                path,
                " is a DualSense auxiliary device; use the main gamepad event device instead",
            ),
        );
    }
    Ok(())
}

/// Return whether an input code represents a controller button.
pub fn button_event(code: KeyCode) -> (r: bool)
    ensures
        r == (button_of(code) is Some),
{
    match code {
        BTN_SOUTH | BTN_EAST | BTN_NORTH | BTN_WEST | BTN_TL | BTN_TR | BTN_TL2 | BTN_TR2
        | BTN_SELECT | BTN_START | BTN_MODE | BTN_THUMBL | BTN_THUMBR | BTN_DPAD_UP | BTN_DPAD_DOWN
        | BTN_DPAD_LEFT | BTN_DPAD_RIGHT => true,
        // hid-playstation reports the DualSense D-pad as the standard
        // keyboard direction key codes on some kernel versions.
        KEY_UP | KEY_DOWN | KEY_LEFT | KEY_RIGHT => true,
        _ => false,
    }
}

/// A device whose name alone speaks of a DualSense is none: without Sony's
/// vendor number nothing is taken for the controller.
pub proof fn law_name_alone_is_not_enough(device: IdentityView)
    requires
        device.vendor != SONY_VENDOR_ID,
    ensures
        !device.dualsense(),
        !device.gamepad(),
{
}

} // verus!
