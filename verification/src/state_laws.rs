//! What the status screen knows and does, said of what it was told.

use crate::calibration::{AxisState, CalibrationStage, CalibrationView, JoystickCalibration};
use crate::codes::{
    AxisCode, InputEvent, KeyCode, ABS_HAT0X, ABS_HAT0Y, ABS_RX, ABS_RY, ABS_RZ, ABS_X, ABS_Y,
    ABS_Z, BTN_DPAD_DOWN, BTN_DPAD_LEFT, BTN_DPAD_RIGHT, BTN_DPAD_UP, EV_ABS, EV_KEY, KEY_DOWN,
    KEY_LEFT, KEY_RIGHT, KEY_UP,
};
use crate::input::{
    button_of, hat_position, AxisInfo, Button, ControllerEvent, ControllerEventKind, EventDecoder,
    Stick, StickAxis, Trigger,
};
use crate::light::{
    intensities, law_light_reads_back_what_was_written, named_color, told_color, LightError,
};
use crate::outputs::OutputView;
use crate::state::{color_text, first_light, ControllerView, LightOutcome, LightReading};
use crate::text;
use crate::tui::{
    deliverable, light_key, relayed, MessageView, MonitorView, ReaderMessage, TerminalKey,
};
use crate::voice::{
    as_statuses, ready_color, sets_light, speaking_color, Command, LightChange, VoiceView,
};
use vstd::prelude::*;

verus! {

/// The axis of a stick.
pub open spec fn stick_axis(view: ControllerView, stick: Stick, axis: StickAxis) -> AxisState {
    match (stick, axis) {
        (Stick::Left, StickAxis::X) => view.sticks.left_x,
        (Stick::Left, StickAxis::Y) => view.sticks.left_y,
        (Stick::Right, StickAxis::X) => view.sticks.right_x,
        (Stick::Right, StickAxis::Y) => view.sticks.right_y,
    }
}

/// The axis of a trigger.
pub open spec fn trigger_axis(view: ControllerView, trigger: Trigger) -> AxisState {
    match trigger {
        Trigger::Left => view.left_trigger,
        Trigger::Right => view.right_trigger,
    }
}

/// What the decoder calls a movement of a stick or a trigger moves that axis on the
/// screen, to the same value, and no other; the axis keeps its range.
pub proof fn law_screen_follows_the_decoder(
    view: ControllerView,
    decoder: EventDecoder,
    event: InputEvent,
    stick: Stick,
    axis: StickAxis,
    trigger: Trigger,
)
    requires
        event.event_type == EV_ABS,
        decoder.decoded(event).len() == 1,
    ensures
        ({
            let after = view.applied(event);
            match decoder.decoded(event)[0].kind {
                ControllerEventKind::Stick { stick: s, axis: a, raw_value, .. } => {
                    &&& stick_axis(after, stick, axis) == (if s == stick && a == axis {
                        AxisState { value: raw_value, ..stick_axis(view, stick, axis) }
                    } else {
                        stick_axis(view, stick, axis)
                    })
                    &&& trigger_axis(after, trigger) == trigger_axis(view, trigger)
                    &&& after.dpad_x == view.dpad_x && after.dpad_y == view.dpad_y
                },
                ControllerEventKind::Trigger { trigger: t, raw_value, .. } => {
                    &&& trigger_axis(after, trigger) == (if t == trigger {
                        AxisState { value: raw_value, ..trigger_axis(view, trigger) }
                    } else {
                        trigger_axis(view, trigger)
                    })
                    &&& stick_axis(after, stick, axis) == stick_axis(view, stick, axis)
                    &&& after.dpad_x == view.dpad_x && after.dpad_y == view.dpad_y
                },
                ControllerEventKind::Button { .. } => {
                    &&& stick_axis(after, stick, axis) == stick_axis(view, stick, axis)
                    &&& trigger_axis(after, trigger) == trigger_axis(view, trigger)
                },
            }
        }),
{
}

/// The axes of the screen, by their codes.
pub open spec fn screen_axis(view: ControllerView, code: AxisCode) -> Option<AxisState> {
    if code == ABS_X {
        Some(view.sticks.left_x)
    } else if code == ABS_Y {
        Some(view.sticks.left_y)
    } else if code == ABS_RX {
        Some(view.sticks.right_x)
    } else if code == ABS_RY {
        Some(view.sticks.right_y)
    } else if code == ABS_Z {
        Some(view.left_trigger)
    } else if code == ABS_RZ {
        Some(view.right_trigger)
    } else {
        None
    }
}

/// An axis event gives the axis of its code the value of the event, and leaves
/// every other axis where it is. The hat moves the D-pad.
pub proof fn law_axis_events_move_their_axis(
    view: ControllerView,
    code: AxisCode,
    value: i32,
    other: AxisCode,
)
    ensures
        ({
            let after = view.applied(InputEvent { event_type: EV_ABS, code, value });
            &&& screen_axis(view, code) matches Some(axis) ==> screen_axis(after, code) == Some(
                AxisState { value, ..axis },
            )
            &&& other != code ==> screen_axis(after, other) == screen_axis(view, other)
            &&& after.dpad_x == (if code == ABS_HAT0X {
                value
            } else {
                view.dpad_x
            })
            &&& after.dpad_y == (if code == ABS_HAT0Y {
                value
            } else {
                view.dpad_y
            })
            &&& after.buttons == view.buttons
        }),
{
}

/// What the kernel says of an axis is taken over for that axis alone.
pub proof fn law_kernel_tells_each_axis(view: ControllerView, info: AxisInfo, other: AxisCode)
    ensures
        screen_axis(view, info.axis) is Some ==> screen_axis(view.ranged(info), info.axis) == Some(
            AxisState { value: info.value, minimum: info.minimum, maximum: info.maximum },
        ),
        other != info.axis ==> screen_axis(view.ranged(info), other) == screen_axis(view, other),
{
}

/// A key event of a button puts it among the buttons that are down, or takes it
/// out; other keys, and the other buttons, are not touched.
pub proof fn law_buttons_are_down_while_pressed(
    view: ControllerView,
    code: KeyCode,
    value: i32,
    other: KeyCode,
)
    ensures
        ({
            let after = view.applied(InputEvent { event_type: EV_KEY, code, value });
            &&& button_of(code) is Some ==> after.buttons.contains(code) == (value != 0)
            &&& other != code || button_of(code) is None ==> after.buttons.contains(other)
                == view.buttons.contains(other)
            &&& after.sticks == view.sticks
        }),
{
}

/// The D-pad lights up in the direction that the hat holds, and in the direction of
/// each D-pad key that is down, whichever of its two codes it has.
pub proof fn law_dpad_shows_what_is_held(view: ControllerView)
    ensures
        hat_position(true, view.dpad_x) == Some(Button::DpadLeft) ==> view.left(),
        hat_position(true, view.dpad_x) == Some(Button::DpadRight) ==> view.right(),
        hat_position(false, view.dpad_y) == Some(Button::DpadUp) ==> view.up(),
        hat_position(false, view.dpad_y) == Some(Button::DpadDown) ==> view.down(),
        view.dpad_x == 0 ==> {
            &&& view.left() <==> view.buttons.contains(BTN_DPAD_LEFT) || view.buttons.contains(
                KEY_LEFT,
            )
            &&& view.right() <==> view.buttons.contains(BTN_DPAD_RIGHT) || view.buttons.contains(
                KEY_RIGHT,
            )
        },
        view.dpad_y == 0 ==> {
            &&& view.up() <==> view.buttons.contains(BTN_DPAD_UP) || view.buttons.contains(KEY_UP)
            &&& view.down() <==> view.buttons.contains(BTN_DPAD_DOWN) || view.buttons.contains(
                KEY_DOWN,
            )
        },
        view.buttons == Set::<KeyCode>::empty() ==> {
            &&& view.left() <==> view.dpad_x < 0
            &&& view.right() <==> view.dpad_x > 0
            &&& view.up() <==> view.dpad_y < 0
            &&& view.down() <==> view.dpad_y > 0
        },
{
}

/// A colour is shown as a number sign and the digits that name it.
pub proof fn law_shown_colors_can_be_read(rgb: [u8; 3])
    ensures
        color_text(rgb).len() == 11,
        color_text(rgb).take(4) == "RGB "@,
        named_color(color_text(rgb).skip(4)) == Some((rgb[0], rgb[1], rgb[2])),
{
    reveal_strlit("RGB #");
    reveal_strlit("RGB ");
    let digits = text::hex_pair(rgb[0]) + text::hex_pair(rgb[1]) + text::hex_pair(rgb[2]);
    crate::light::law_written_color_is_read_back(digits, rgb[0], rgb[1], rgb[2]);
    assert(color_text(rgb).take(4) =~= "RGB "@);
    assert(color_text(rgb).skip(4) =~= seq!['#'] + digits);
    assert(digits[0] == text::hex_pair(rgb[0])[0]);
    crate::light::law_number_sign_makes_no_difference(digits);
}

/// Adjusting the light turns one channel by the step, as far as a byte goes, and
/// leaves the other two alone.
pub proof fn law_adjusting_turns_one_channel(view: ControllerView, channel: int, delta: int)
    requires
        0 <= channel < 3,
    ensures
        ({
            let turned = view.adjusted(channel, delta);
            let wanted = view.light_rgb@[channel] + delta;
            &&& turned.len() == 3
            &&& turned[channel] == wanted || (wanted < 0 && turned[channel] == 0) || (wanted > 255
                && turned[channel] == 255)
            &&& forall|other: int|
                0 <= other < 3 && other != channel ==> #[trigger] turned[other]
                    == view.light_rgb@[other]
        }),
{
}

/// Six keys turn the light: `r`, `g` and `b` turn red, green and blue down, and
/// their capitals turn them up, by sixteen each time.
pub proof fn law_keys_turn_their_channel(key: TerminalKey)
    ensures
        light_key(TerminalKey::Char('r')) == Some((0int, -16int)),
        light_key(TerminalKey::Char('R')) == Some((0int, 16int)),
        light_key(TerminalKey::Char('g')) == Some((1int, -16int)),
        light_key(TerminalKey::Char('G')) == Some((1int, 16int)),
        light_key(TerminalKey::Char('b')) == Some((2int, -16int)),
        light_key(TerminalKey::Char('B')) == Some((2int, 16int)),
        light_key(key) is Some ==> key == TerminalKey::Char('r') || key == TerminalKey::Char('R')
            || key == TerminalKey::Char('g') || key == TerminalKey::Char('G') || key
            == TerminalKey::Char('b') || key == TerminalKey::Char('B'),
{
}

/// `m` toggles the mappings and nothing else; `c` begins a calibration from where
/// the sticks are and drops what was said about the last one; Enter ends the stage
/// that a calibration is in, and does nothing without one; the keys of the light
/// and all others leave mappings and calibration alone.
pub proof fn law_keys_do_what_the_footer_says(screen: MonitorView, key: TerminalKey)
    ensures
        ({
            let after = screen.pressed(key);
            &&& after.show_mappings == (if key == TerminalKey::Char('m') {
                !screen.show_mappings
            } else {
                screen.show_mappings
            })
            &&& key == TerminalKey::Char('c') ==> {
                &&& after.calibration == Some(CalibrationView::fresh(screen.state.sticks))
                &&& after.state.calibration_message is None
            }
            &&& key == TerminalKey::Enter ==> match screen.calibration {
                Some(session) => match session.stage {
                    CalibrationStage::Center => {
                        &&& after.calibration == Some(session.centered(screen.state.sticks))
                        &&& screen.ended_calibration(key) is None
                    },
                    CalibrationStage::Range => {
                        &&& after.calibration is None
                        &&& screen.ended_calibration(key) == Some(
                            session.result(screen.state.sticks),
                        )
                    },
                },
                None => after == screen && screen.ended_calibration(key) is None,
            }
            &&& key != TerminalKey::Char('c') && key != TerminalKey::Enter ==> {
                &&& after.calibration == screen.calibration
                &&& screen.ended_calibration(key) is None
            }
            &&& after.state.sticks == screen.state.sticks
            &&& after.state.buttons == screen.state.buttons
            &&& after.state.calibration == screen.state.calibration
            &&& after.state.light_rgb == screen.state.light_rgb
            &&& after.state.light_status != screen.state.light_status ==> {
                &&& light_key(key) is Some || key == TerminalKey::Char('0')
                &&& screen.state.light is None
                &&& after.state.light_status == "RGB LED is unavailable"@
            }
            &&& (light_key(key) is Some || key == TerminalKey::Char('0')) && screen.state.light
                is None ==> after.state.light_status == "RGB LED is unavailable"@
        }),
{
}

/// A message of the reader ends up where it belongs: an input in the controller's
/// state and in a calibration, and each of the others in the one thing that it is
/// about.
pub proof fn law_messages_end_up_where_they_belong(
    screen: MonitorView,
    event: ControllerEvent,
    words: Seq<char>,
    rms_bits: u32,
    peak_bits: u32,
    rgb: [u8; 3],
)
    ensures
        ({
            let input = screen.received(MessageView::Input(event));
            &&& input.state == screen.state.applied(event.raw)
            &&& screen.calibration is None ==> input.calibration is None
            &&& screen.calibration matches Some(session) ==> input.calibration == Some(
                session.observed(event.raw),
            )
        }),
        screen.received(MessageView::Error(words)) == (MonitorView {
            state: ControllerView { reader_error: Some(words), ..screen.state },
            ..screen
        }),
        screen.received(MessageView::MicStatus(words)) == (MonitorView {
            state: ControllerView { mic_status: words, ..screen.state },
            ..screen
        }),
        ({
            let heard = screen.received(MessageView::MicSample { rms_bits, peak_bits });
            &&& heard.state.mic_rms_bits == rms_bits
            &&& heard.state.mic_peak_bits == peak_bits
            &&& heard.state.mic_history.last() == rms_bits
            &&& heard.state.mic_history.len() == (if screen.state.mic_history.len() < 128 {
                screen.state.mic_history.len() + 1
            } else {
                128
            })
            &&& heard.calibration == screen.calibration
            &&& heard.state.light_rgb == screen.state.light_rgb
        }),
        ({
            let lit = screen.received(MessageView::Light(rgb));
            &&& lit.state.light_rgb == rgb
            &&& lit.state.light_status == color_text(rgb)
            &&& lit.state.mic_status == screen.state.mic_status
        }),
{
}

/// A transcript is delivered, and shown as voice input; so is a delta, which is
/// marked as one. Messages, levels and colours are passed on as they are, and
/// nothing of them is typed.
pub proof fn law_reports_are_relayed(words: Seq<char>, rms_bits: u32, peak_bits: u32, rgb: [u8; 3])
    ensures
        deliverable(OutputView::Transcript(words)) == Some((words, false)),
        deliverable(OutputView::PartialTranscript(words)) == Some((words, true)),
        deliverable(OutputView::Status(words)) is None,
        deliverable(OutputView::MicSample { rms_bits, peak_bits }) is None,
        deliverable(OutputView::Light(rgb)) is None,
        relayed(OutputView::Transcript(words)) == MessageView::MicStatus("Voice input: "@ + words),
        relayed(OutputView::PartialTranscript(words)) == MessageView::MicStatus(
            "Voice input (partial): "@ + words,
        ),
        relayed(OutputView::Status(words)) == MessageView::MicStatus(words),
        relayed(OutputView::MicSample { rms_bits, peak_bits }) == (MessageView::MicSample {
            rms_bits,
            peak_bits,
        }),
        relayed(OutputView::Light(rgb)) == MessageView::Light(rgb),
{
}

/// The colour on the screen changes exactly when the light has changed; a failure
/// is told, with its reason.
pub proof fn law_failed_light_keeps_its_color(
    view: ControllerView,
    rgb: [u8; 3],
    outcome: LightOutcome,
)
    ensures
        ({
            let after = view.light_tried(rgb, outcome);
            match outcome {
                LightOutcome::Done => after.light_rgb == rgb && after.light_status == color_text(
                    rgb,
                ),
                LightOutcome::PermissionDenied => {
                    &&& after.light_rgb == view.light_rgb
                    &&& after.light_status
                        == "RGB permission denied; install udev/99-dualsense-led.rules"@
                },
                LightOutcome::Failed(error) => {
                    &&& after.light_rgb == view.light_rgb
                    &&& after.light_status == "RGB light error: "@ + error@
                },
            }
        }),
{
}

/// The colour that was written to a light is the one that is shown for it at first;
/// a light that cannot be read is shown black, and so is no light at all.
pub proof fn law_written_light_is_shown_at_first(
    reading: LightReading,
    red: u8,
    green: u8,
    blue: u8,
)
    ensures
        reading.contents matches Ok(contents) && contents@ == intensities(red, green, blue)
            ==> first_light(Some(reading)).0@ == seq![red, green, blue],
        reading.contents matches Err(error) ==> first_light(Some(reading)).0@ == seq![0u8, 0, 0]
            && first_light(Some(reading)).1 == "RGB light read failed: "@ + error@,
        reading.contents matches Ok(contents) && contents@ == intensities(red, green, blue)
            ==> first_light(Some(reading)).1 == "Use r/R, g/G, b/B to adjust; 0 turns it off"@,
        reading.contents matches Ok(contents) ==> (told_color(contents@) matches Err(error)
            ==> first_light(Some(reading)).0@ == seq![0u8, 0, 0] && first_light(Some(reading)).1
            == "RGB light read failed: "@ + error.words()),
        LightError::InvalidValue.words() == "invalid RGB LED intensity value"@,
        LightError::UnexpectedFormat.words() == "unexpected RGB LED intensity format"@,
        first_light(None).0@ == seq![0u8, 0, 0],
        first_light(None).1 == "RGB LED not exposed by hid-playstation"@,
{
    law_light_reads_back_what_was_written(red, green, blue);
    assert([red, green, blue]@ =~= seq![red, green, blue]);
    assert([0u8, 0u8, 0u8]@ =~= seq![0u8, 0, 0]);
}

/// A controller is shown as it is found: by its own name or else as a DualSense,
/// with the buttons that are down and nothing else, with the calibration that was
/// kept or else the middles of the sticks.
pub proof fn law_controllers_are_shown_as_found(
    path: Seq<char>,
    name: Option<Seq<char>>,
    reading: Option<LightReading>,
    axes: Seq<AxisInfo>,
    keys: Seq<KeyCode>,
    saved: Option<JoystickCalibration>,
    code: KeyCode,
)
    ensures
        ({
            let found = ControllerView::found(path, name, reading, axes, keys, saved);
            &&& found.path == path
            &&& name matches Some(name) ==> found.name == name
            &&& name is None ==> found.name == "DualSense"@
            &&& found.buttons.contains(code) <==> keys.contains(code) && button_of(code) is Some
            &&& saved matches Some(kept) ==> found.calibration == kept
            &&& saved is None ==> found.calibration == found.sticks.middles()
            &&& found.light == (match reading {
                Some(reading) => Some(reading.light.rgb_path@),
                None => None,
            })
            &&& found.light_rgb == first_light(reading).0
            &&& found.light_status == first_light(reading).1
            &&& found.dpad_x == 0 && found.dpad_y == 0
            &&& found.mic_status == "Searching for the DualSense microphone..."@
            &&& found.mic_rms_bits == 0 && found.mic_peak_bits == 0
            &&& found.mic_history.len() == 0
            &&& found.calibration_message is None
            &&& found.reader_error is None
        }),
{
    let read = ControllerView::unread(
        path,
        name.unwrap_or("DualSense"@),
        crate::state::reading_path(reading),
        first_light(reading).0,
        first_light(reading).1,
    );
    lemma_ranging_keeps_the_rest(read, axes);
}

proof fn lemma_ranging_keeps_the_rest(view: ControllerView, infos: Seq<AxisInfo>)
    ensures
        ({
            let after = view.ranged_all(infos);
            &&& after.path == view.path
            &&& after.name == view.name
            &&& after.light == view.light
            &&& after.light_rgb == view.light_rgb
            &&& after.light_status == view.light_status
            &&& after.dpad_x == view.dpad_x && after.dpad_y == view.dpad_y
            &&& after.mic_status == view.mic_status
            &&& after.mic_rms_bits == view.mic_rms_bits
            &&& after.mic_peak_bits == view.mic_peak_bits
            &&& after.mic_history == view.mic_history
            &&& after.calibration_message == view.calibration_message
            &&& after.reader_error == view.reader_error
        }),
    decreases infos.len(),
{
    if infos.len() > 0 {
        lemma_ranging_keeps_the_rest(view, infos.drop_last());
    }
}

/// The last thing that the kernel says of an axis counts.
pub open spec fn last_info(infos: Seq<AxisInfo>, code: AxisCode) -> Option<AxisState>
    decreases infos.len(),
{
    if infos.len() == 0 {
        None
    } else if infos.last().axis == code {
        Some(
            AxisState {
                value: infos.last().value,
                minimum: infos.last().minimum,
                maximum: infos.last().maximum,
            },
        )
    } else {
        last_info(infos.drop_last(), code)
    }
}

/// Each axis is shown as the kernel reports it; one that is not reported is at rest
/// in the range that a stick or a trigger usually has.
pub proof fn law_axes_are_shown_as_reported(
    path: Seq<char>,
    name: Option<Seq<char>>,
    reading: Option<LightReading>,
    axes: Seq<AxisInfo>,
    keys: Seq<KeyCode>,
    saved: Option<JoystickCalibration>,
    code: AxisCode,
)
    ensures
        ({
            let found = ControllerView::found(path, name, reading, axes, keys, saved);
            &&& code == ABS_X || code == ABS_Y || code == ABS_RX || code == ABS_RY
                ==> screen_axis(found, code) == Some(
                match last_info(axes, code) {
                    Some(axis) => axis,
                    None => AxisState { value: 0, minimum: (-32768) as i32, maximum: 32767 },
                },
            )
            &&& code == ABS_Z || code == ABS_RZ ==> screen_axis(found, code) == Some(
                match last_info(axes, code) {
                    Some(axis) => axis,
                    None => AxisState { value: 0, minimum: 0, maximum: 255 },
                },
            )
        }),
{
    let read = ControllerView::unread(
        path,
        name.unwrap_or("DualSense"@),
        crate::state::reading_path(reading),
        first_light(reading).0,
        first_light(reading).1,
    );
    lemma_last_info(read, axes, code);
}

proof fn lemma_last_info(view: ControllerView, infos: Seq<AxisInfo>, code: AxisCode)
    ensures
        screen_axis(view, code) matches Some(axis) ==> screen_axis(view.ranged_all(infos), code)
            == Some(
            match last_info(infos, code) {
                Some(axis) => axis,
                None => axis,
            },
        ),
    decreases infos.len(),
{
    if infos.len() > 0 {
        lemma_last_info(view, infos.drop_last(), code);
    }
}

/// Pressing the right face button starts a recording that is not running, and
/// releasing it stops one that is. The light is green while the user speaks, and
/// blue while they can.
pub proof fn law_talk_button_starts_and_stops(voice: VoiceView)
    ensures
        ({
            let press = ControllerEventKind::Button {
                button: Button::East,
                state: crate::input::ButtonState::Down,
            };
            let release = ControllerEventKind::Button {
                button: Button::East,
                state: crate::input::ButtonState::Up,
            };
            &&& voice.commanded(press) == (if voice.recording {
                None
            } else {
                Some(Command::Start)
            })
            &&& voice.commanded(release) == (if voice.recording {
                Some(Command::Stop)
            } else {
                None
            })
            &&& voice.after_event(press).recording
            &&& !voice.after_event(release).recording
        }),
        speaking_color()@ == seq![0u8, 255, 0],
        ready_color()@ == seq![0u8, 0, 255],
{
    assert(speaking_color()@ =~= seq![0u8, 255, 0]);
    assert(ready_color()@ =~= seq![0u8, 0, 255]);
}

/// What the text input says comes behind the reports that are waiting, in order.
pub proof fn law_text_messages_queue_up(voice: VoiceView, step: crate::text_input::Step, i: int)
    ensures
        ({
            let after = voice.after_text(step);
            &&& after.outputs.len() == voice.outputs.len() + step.statuses.len()
            &&& 0 <= i < voice.outputs.len() ==> after.outputs[i] == voice.outputs[i]
            &&& 0 <= i < step.statuses.len() ==> after.outputs[voice.outputs.len() + i]
                == OutputView::Status(step.statuses[i])
            &&& after.text_input == step.state
            &&& after.recording == voice.recording
            &&& after.light == voice.light
        }),
{
    assert(as_statuses(step.statuses).len() == step.statuses.len());
}

/// A change of the light goes to the file of the light, tells its colour to whoever
/// reads the file, and is there exactly if there is a light.
pub proof fn law_light_changes_set_the_color(
    change: Option<LightChange>,
    path: Option<Seq<u8>>,
    rgb: [u8; 3],
)
    requires
        sets_light(change, path, rgb),
    ensures
        change is Some <==> path is Some,
        change matches Some(change) ==> {
            &&& Some(change.command.path@) == path
            &&& change.rgb == rgb
            &&& told_color(change.command.contents@) == Ok::<(u8, u8, u8), LightError>(
                (rgb[0], rgb[1], rgb[2]),
            )
        },
{
    law_light_reads_back_what_was_written(rgb[0], rgb[1], rgb[2]);
}

/// What the reader sends is taken for what it is.
pub proof fn law_reader_messages_are_taken_for_what_they_are(
    event: ControllerEvent,
    words: String,
    rms_bits: u32,
    peak_bits: u32,
    rgb: [u8; 3],
)
    ensures
        ReaderMessage::Input(event)@ == MessageView::Input(event),
        ReaderMessage::Error(words)@ == MessageView::Error(words@),
        ReaderMessage::MicStatus(words)@ == MessageView::MicStatus(words@),
        (ReaderMessage::MicSample { rms_bits, peak_bits })@ == (MessageView::MicSample {
            rms_bits,
            peak_bits,
        }),
        ReaderMessage::Light(rgb)@ == MessageView::Light(rgb),
{
}

/// The user is told whether a calibration was kept and, if it was not, why.
pub proof fn law_users_are_told_about_the_calibration(
    screen: MonitorView,
    calibration: JoystickCalibration,
    error: Seq<char>,
)
    ensures
        screen.kept(calibration, Ok(())).state.calibration_message == Some(
            "Calibration saved; press c to recalibrate"@,
        ),
        screen.kept(calibration, Err(error)).state.calibration_message == Some(
            "Calibration measured, but save failed: "@ + error,
        ),
        screen.kept(calibration, Ok(())).calibration == screen.calibration,
        screen.kept(calibration, Err(error)).state.calibration == screen.state.calibration,
        screen.kept(calibration, Ok(())).state.light_rgb == screen.state.light_rgb,
{
}

} // verus!
