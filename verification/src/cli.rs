//! What the program does with its arguments, and what it prints.

use crate::device::{is_dualsense, is_dualsense_gamepad, DeviceIdentity};
use crate::input::{Button, ButtonState, ControllerEventKind};
use crate::light::{intensities, named_color, parse_color, ControllerLight, LightCommand};
use crate::outputs::{OutputView, VoiceOutput};
use crate::text;
use crate::tui::{deliverable, Delivery};
use vstd::prelude::*;
use vstd::string::*;

verus! {

/// What the program was asked to do.
#[derive(Debug, PartialEq, Eq)]
pub enum Mode {
    /// List the devices.
    List,
    /// Set the light to a colour.
    Light(String),
    /// Show the status screen.
    Tui,
    /// Map the controller.
    Listen,
}

/// What the program was asked to do. Listing the devices comes before setting the
/// light, and that before the status screen.
pub fn choose_mode(list: bool, light: Option<String>, tui: bool) -> (mode: Mode)
    ensures
        match mode {
            Mode::List => list,
            Mode::Light(color) => !list && light == Some(color),
            Mode::Tui => !list && light is None && tui,
            Mode::Listen => !list && light is None && !tui,
        },
{
    if list {
        return Mode::List;
    }
    match light {
        Some(color) => Mode::Light(color),
        None => if tui {
            Mode::Tui
        } else {
            Mode::Listen
        },
    }
}

/// The word that turns the light off, in whatever case.
pub open spec fn means_off(name: Seq<char>) -> bool {
    text::lowered(name) == "off"@
}

/// Whether the name of a colour turns the light off.
pub fn is_off(name: &str) -> (r: bool)
    ensures
        r == means_off(name@),
{
    let lower = text::text_of(text::lower_chars(name).as_slice());
    text::same_text(lower.as_str(), "off")
}

/// The colour that a name stands for. Turning the light off is the colour black.
pub open spec fn requested_color(name: Seq<char>) -> Option<(u8, u8, u8)> {
    if means_off(name) {
        Some((0u8, 0u8, 0u8))
    } else {
        named_color(name)
    }
}

/// The colour that a name stands for, or the complaint about a name that stands
/// for none.
pub fn light_color(name: &str) -> (color: Result<(u8, u8, u8), String>)
    ensures
        match color {
            Ok(color) => requested_color(name@) == Some(color),
            Err(complaint) => {
                &&& requested_color(name@) is None
                &&& complaint@ == "invalid color '"@ + name@
                    + "'; use RRGGBB, #RRGGBB, or off"@
            },
        },
{
    if is_off(name) {
        return Ok((0, 0, 0));
    }
    match parse_color(name) {
        Some(color) => Ok(color),
        None => {
            let mut complaint = text::joined("invalid color '", name);
            complaint.append("'; use RRGGBB, #RRGGBB, or off");
            Err(complaint)
        },
    }
}

/// The one thing to write to set the light of the controller at `path` to a
/// colour, or the complaint about a controller without a light.
pub fn light_command(color: (u8, u8, u8), path: &str, light: Option<ControllerLight>) -> (command:
    Result<LightCommand, String>)
    ensures
        match command {
            Ok(command) => {
                &&& light is Some
                &&& command.path@ == light->0.rgb_path@
                &&& command.contents@ == intensities(color.0, color.1, color.2)
            },
            Err(complaint) => {
                &&& light is None
                &&& complaint@ == "no RGB LED sysfs device found for "@ + path@
                    + ". Check that hid-playstation is loaded"@
            },
        },
{
    match light {
        Some(light) => Ok(light.set_rgb(color.0, color.1, color.2)),
        None => Err(missing_light(path)),
    }
}

/// What is printed when the light has been set.
pub fn light_report(name: &str) -> (report: String)
    ensures
        report@ == "Controller light set to "@ + name@,
{
    text::joined("Controller light set to ", name)
}

/// The complaint about a controller without a light.
pub fn missing_light(path: &str) -> (complaint: String)
    ensures
        complaint@ == "no RGB LED sysfs device found for "@ + path@
            + ". Check that hid-playstation is loaded"@,
{
    let mut complaint = text::joined("no RGB LED sysfs device found for ", path);
    complaint.append(". Check that hid-playstation is loaded");
    complaint
}

/// A truth value in words.
pub open spec fn truth(value: bool) -> Seq<char> {
    if value {
        "true"@
    } else {
        "false"@
    }
}

fn truth_text(value: bool) -> (s: &'static str)
    ensures
        s@ == truth(value),
{
    if value {
        "true"
    } else {
        "false"
    }
}

/// A device in one line, given its name and its numbers in words.
pub open spec fn device_text(path: Seq<char>, name: Seq<char>, id: Seq<char>) -> Seq<char> {
    path + ": name="@ + name + ", id="@ + id
}

/// A compact description of an evdev device, given its name and its numbers in
/// words.
pub fn device_info(path: &str, name: &str, id: &str) -> (line: String)
    ensures
        line@ == device_text(path@, name@, id@),
{
    let mut line = text::joined(path, ": name=");
    line.append(name);
    line.append(", id=");
    line.append(id);
    line
}

/// A device in the list, with its DualSense classification.
pub fn list_entry(path: &str, name: &str, id: &str, device: &DeviceIdentity) -> (line: String)
    ensures
        line@ == device_text(path@, name@, id@) + ", dualsense="@ + truth(device@.dualsense())
            + ", gamepad="@ + truth(device@.gamepad()),
{
    let mut line = device_info(path, name, id);
    line.append(", dualsense=");
    line.append(truth_text(is_dualsense(device)));
    line.append(", gamepad=");
    line.append(truth_text(is_dualsense_gamepad(device)));
    line
}

/// A line with the device that it is about in front.
pub open spec fn tagged(path: Seq<char>, rest: Seq<char>) -> Seq<char> {
    "["@ + path + "] "@ + rest
}

fn tag(path: &str, rest: &str) -> (line: String)
    ensures
        line@ == tagged(path@, rest@),
{
    let mut line = text::joined("[", path);
    line.append("] ");
    line.append(rest);
    assert(line@ =~= tagged(path@, rest@));
    line
}

/// What is printed, and where.
#[derive(Debug, PartialEq, Eq)]
pub enum Printed {
    Output(String),
    Error(String),
    Nothing,
}

/// What is printed about a report of the voice input.
pub open spec fn voice_line(path: Seq<char>, output: OutputView) -> Option<(Seq<char>, bool)> {
    match output {
        OutputView::Transcript(text) => Some(
            (tagged(path, "transcribed text: "@ + text), false),
        ),
        OutputView::PartialTranscript(text) => Some(
            (tagged(path, "transcribed partial: "@ + text), false),
        ),
        OutputView::Status(status) => Some((tagged(path, status), true)),
        _ => None,
    }
}

/// What is done about a report of the voice input without a status screen: a line
/// is printed, then a text is delivered.
#[derive(Debug)]
pub struct DirectRelay {
    pub printed: Printed,
    pub delivery: Option<Delivery>,
}

/// What is done about a report of the voice input without a status screen.
pub fn handle_voice_output(path: &str, output: VoiceOutput) -> (relay: DirectRelay)
    ensures
        match relay.printed {
            Printed::Output(line) => voice_line(path@, output@) == Some((line@, false)),
            Printed::Error(line) => voice_line(path@, output@) == Some((line@, true)),
            Printed::Nothing => voice_line(path@, output@) is None,
        },
        match (relay.delivery, deliverable(output@)) {
            (Some(delivery), Some((text, partial))) => delivery.text@ == text && delivery.partial
                == partial,
            (None, None) => true,
            _ => false,
        },
{
    match output {
        VoiceOutput::Transcript(text) => {
            let line = text::joined("transcribed text: ", text.as_str());
            DirectRelay {
                printed: Printed::Output(tag(path, line.as_str())),
                delivery: Some(Delivery { text, partial: false }),
            }
        },
        VoiceOutput::PartialTranscript(text) => {
            let line = text::joined("transcribed partial: ", text.as_str());
            DirectRelay {
                printed: Printed::Output(tag(path, line.as_str())),
                delivery: Some(Delivery { text, partial: true }),
            }
        },
        VoiceOutput::Status(status) => DirectRelay {
            printed: Printed::Error(tag(path, status.as_str())),
            delivery: None,
        },
        _ => DirectRelay { printed: Printed::Nothing, delivery: None },
    }
}

/// What is printed when a text could not be delivered.
pub fn delivery_failure(path: &str, error: &str) -> (line: String)
    ensures
        line@ == tagged(path@, "clipboard paste failed: "@ + error@),
{
    let rest = text::joined("clipboard paste failed: ", error);
    tag(path, rest.as_str())
}

/// The name of a button.
pub open spec fn button_word(button: Button) -> Seq<char> {
    match button {
        Button::South => "South"@,
        Button::East => "East"@,
        Button::North => "North"@,
        Button::West => "West"@,
        Button::L1 => "L1"@,
        Button::R1 => "R1"@,
        Button::L2 => "L2"@,
        Button::R2 => "R2"@,
        Button::Create => "Create"@,
        Button::Options => "Options"@,
        Button::Ps => "Ps"@,
        Button::L3 => "L3"@,
        Button::R3 => "R3"@,
        Button::DpadUp => "DpadUp"@,
        Button::DpadDown => "DpadDown"@,
        Button::DpadLeft => "DpadLeft"@,
        Button::DpadRight => "DpadRight"@,
    }
}

/// The name of a button.
pub fn button_name(button: Button) -> (name: &'static str)
    ensures
        name@ == button_word(button),
{
    match button {
        Button::South => "South",
        Button::East => "East",
        Button::North => "North",
        Button::West => "West",
        Button::L1 => "L1",
        Button::R1 => "R1",
        Button::L2 => "L2",
        Button::R2 => "R2",
        Button::Create => "Create",
        Button::Options => "Options",
        Button::Ps => "Ps",
        Button::L3 => "L3",
        Button::R3 => "R3",
        Button::DpadUp => "DpadUp",
        Button::DpadDown => "DpadDown",
        Button::DpadLeft => "DpadLeft",
        Button::DpadRight => "DpadRight",
    }
}

/// What is printed about a controller event: only buttons are printed.
pub open spec fn event_line(path: Seq<char>, kind: ControllerEventKind) -> Option<Seq<char>> {
    match kind {
        ControllerEventKind::Button { button, state } => Some(
            tagged(
                path,
                "button "@ + button_word(button) + (if state == ButtonState::Down {
                    " Down"@
                } else {
                    " Up"@
                }),
            ),
        ),
        _ => None,
    }
}

/// What is printed about a controller event.
pub fn event_report(path: &str, kind: ControllerEventKind) -> (line: Option<String>)
    ensures
        match line {
            Some(line) => event_line(path@, kind) == Some(line@),
            None => event_line(path@, kind) is None,
        },
{
    match kind {
        ControllerEventKind::Button { button, state } => {
            let mut rest = text::joined("button ", button_name(button));
            match state {
                ButtonState::Down => rest.append(" Down"),
                ButtonState::Up => rest.append(" Up"),
            }
            Some(tag(path, rest.as_str()))
        },
        _ => None,
    }
}

/// The word that turns the light off names no colour.
pub proof fn law_off_names_no_color(name: Seq<char>)
    requires
        means_off(name),
    ensures
        named_color(name) is None,
{
    reveal_strlit("off");
    assert(text::lowered(name).len() == name.len());
}

} // verus!
