//! What the status screen knows of the controller.

use crate::calibration::{
    default_calibration, AxisCalibration, AxisState, JoystickCalibration, Sticks,
};
use crate::codes::{
    AxisCode, InputEvent, KeyCode, ABS_HAT0X, ABS_HAT0Y, ABS_RX, ABS_RY, ABS_RZ, ABS_X, ABS_Y,
    ABS_Z, BTN_DPAD_DOWN, BTN_DPAD_LEFT, BTN_DPAD_RIGHT, BTN_DPAD_UP, EV_ABS, EV_KEY, KEY_DOWN,
    KEY_LEFT, KEY_RIGHT, KEY_UP,
};
use crate::device::button_event;
use crate::focus::text_view;
use crate::input::{button_of, AxisInfo};
use crate::light::{told_color, ControllerLight};
use crate::text;
use crate::voice::{light_view, sets_light, LightChange};
use std::collections::{HashSet, VecDeque};
use vstd::prelude::*;
use vstd::string::*;

verus! {

broadcast use vstd::std_specs::hash::group_hash_axioms;

/// The number of microphone levels that are remembered.
pub const MIC_HISTORY: usize = 128;

/// What the status screen knows of the controller.
#[derive(Debug)]
pub struct ControllerState {
    path: String,
    name: String,
    buttons: HashSet<KeyCode>,
    sticks: Sticks,
    left_trigger: AxisState,
    right_trigger: AxisState,
    dpad_x: i32,
    dpad_y: i32,
    calibration: JoystickCalibration,
    calibration_message: Option<String>,
    reader_error: Option<String>,
    light: Option<ControllerLight>,
    light_rgb: [u8; 3],
    light_status: String,
    mic_status: String,
    mic_rms_bits: u32,
    mic_peak_bits: u32,
    mic_history: VecDeque<u32>,
}

/// What the status screen knows, in mathematical terms. Microphone levels are the
/// bits of single-precision numbers.
#[verifier::ext_equal]
pub struct ControllerView {
    pub path: Seq<char>,
    pub name: Seq<char>,
    pub buttons: Set<KeyCode>,
    pub sticks: Sticks,
    pub left_trigger: AxisState,
    pub right_trigger: AxisState,
    pub dpad_x: i32,
    pub dpad_y: i32,
    pub calibration: JoystickCalibration,
    pub calibration_message: Option<Seq<char>>,
    pub reader_error: Option<Seq<char>>,
    /// The path of the light's file.
    pub light: Option<Seq<u8>>,
    pub light_rgb: [u8; 3],
    pub light_status: Seq<char>,
    pub mic_status: Seq<char>,
    pub mic_rms_bits: u32,
    pub mic_peak_bits: u32,
    pub mic_history: Seq<u32>,
}

impl View for ControllerState {
    type V = ControllerView;

    closed spec fn view(&self) -> ControllerView {
        ControllerView {
            path: self.path@,
            name: self.name@,
            buttons: self.buttons@,
            sticks: self.sticks,
            left_trigger: self.left_trigger,
            right_trigger: self.right_trigger,
            dpad_x: self.dpad_x,
            dpad_y: self.dpad_y,
            calibration: self.calibration,
            calibration_message: text_view(self.calibration_message),
            reader_error: text_view(self.reader_error),
            light: light_view(self.light),
            light_rgb: self.light_rgb,
            light_status: self.light_status@,
            mic_status: self.mic_status@,
            mic_rms_bits: self.mic_rms_bits,
            mic_peak_bits: self.mic_peak_bits,
            mic_history: self.mic_history@,
        }
    }
}

/// A light that was found, and the contents of its file or why it could not be
/// read.
#[derive(Debug)]
pub struct LightReading {
    pub light: ControllerLight,
    pub contents: Result<String, String>,
}

/// The colour that is shown for a light at first, and what is said about it.
pub open spec fn first_light(reading: Option<LightReading>) -> ([u8; 3], Seq<char>) {
    match reading {
        Some(reading) => match reading.contents {
            Ok(contents) => match told_color(contents@) {
                Ok((red, green, blue)) => (
                    [red, green, blue],
                    "Use r/R, g/G, b/B to adjust; 0 turns it off"@,
                ),
                Err(error) => ([0, 0, 0], "RGB light read failed: "@ + error.words()),
            },
            Err(error) => ([0, 0, 0], "RGB light read failed: "@ + error@),
        },
        None => ([0, 0, 0], "RGB LED not exposed by hid-playstation"@),
    }
}

/// The path of the file of a light that was found.
pub open spec fn reading_path(reading: Option<LightReading>) -> Option<Seq<u8>> {
    match reading {
        Some(reading) => Some(reading.light.rgb_path@),
        None => None,
    }
}

/// The colour that is shown for a light at first, and what is said about it.
fn read_light(reading: &Option<LightReading>) -> (shown: ([u8; 3], String))
    ensures
        shown.0@ == first_light(*reading).0@,
        shown.1@ == first_light(*reading).1,
{
    match reading {
        Some(reading) => match &reading.contents {
            Ok(contents) => match reading.light.current_rgb(contents.as_str()) {
                Ok((red, green, blue)) => (
                    [red, green, blue],
                    "Use r/R, g/G, b/B to adjust; 0 turns it off".to_owned(),
                ),
                Err(error) => {
                    let message = error.message();
                    (
                        [0, 0, 0],
                        text::joined("RGB light read failed: ", message.as_str()),
                    )
                },
            },
            Err(error) => ([0, 0, 0], text::joined("RGB light read failed: ", error.as_str())),
        },
        None => ([0, 0, 0], "RGB LED not exposed by hid-playstation".to_owned()),
    }
}

/// How writing to the light went.
#[derive(Debug, PartialEq, Eq)]
pub enum LightOutcome {
    Done,
    PermissionDenied,
    Failed(String),
}

/// A colour as it is shown.
pub open spec fn color_text(rgb: [u8; 3]) -> Seq<char> {
    "RGB #"@ + text::hex_pair(rgb[0]) + text::hex_pair(rgb[1]) + text::hex_pair(rgb[2])
}

/// A colour as it is shown.
pub fn describe_color(rgb: [u8; 3]) -> (s: String)
    ensures
        s@ == color_text(rgb),
{
    let red = text::hex_text(rgb[0]);
    let mut s = text::joined("RGB #", red.as_str());
    s.append(text::hex_text(rgb[1]).as_str());
    s.append(text::hex_text(rgb[2]).as_str());
    s
}

/// The value nearest to `n` that a byte can have.
pub open spec fn nearest_byte(n: int) -> u8 {
    if n < 0 {
        0
    } else if n > 255 {
        255
    } else {
        n as u8
    }
}

/// An axis at rest that reaches from `minimum` to `maximum`.
pub open spec fn resting(minimum: i32, maximum: i32) -> AxisState {
    AxisState { value: 0, minimum, maximum }
}

impl ControllerView {
    /// An axis is where `value` says.
    pub open spec fn moved(self, axis: AxisCode, value: i32) -> ControllerView {
        let sticks = self.sticks;
        match axis {
            ABS_X => ControllerView {
                sticks: Sticks { left_x: AxisState { value, ..sticks.left_x }, ..sticks },
                ..self
            },
            ABS_Y => ControllerView {
                sticks: Sticks { left_y: AxisState { value, ..sticks.left_y }, ..sticks },
                ..self
            },
            ABS_RX => ControllerView {
                sticks: Sticks { right_x: AxisState { value, ..sticks.right_x }, ..sticks },
                ..self
            },
            ABS_RY => ControllerView {
                sticks: Sticks { right_y: AxisState { value, ..sticks.right_y }, ..sticks },
                ..self
            },
            ABS_Z => ControllerView {
                left_trigger: AxisState { value, ..self.left_trigger },
                ..self
            },
            ABS_RZ => ControllerView {
                right_trigger: AxisState { value, ..self.right_trigger },
                ..self
            },
            ABS_HAT0X => ControllerView { dpad_x: value, ..self },
            ABS_HAT0Y => ControllerView { dpad_y: value, ..self },
            _ => self,
        }
    }

    /// An axis is what the kernel says. The hat has no range.
    pub open spec fn ranged(self, info: AxisInfo) -> ControllerView {
        let state = AxisState { value: info.value, minimum: info.minimum, maximum: info.maximum };
        match info.axis {
            ABS_X => ControllerView { sticks: Sticks { left_x: state, ..self.sticks }, ..self },
            ABS_Y => ControllerView { sticks: Sticks { left_y: state, ..self.sticks }, ..self },
            ABS_RX => ControllerView { sticks: Sticks { right_x: state, ..self.sticks }, ..self },
            ABS_RY => ControllerView { sticks: Sticks { right_y: state, ..self.sticks }, ..self },
            ABS_Z => ControllerView { left_trigger: state, ..self },
            ABS_RZ => ControllerView { right_trigger: state, ..self },
            _ => self,
        }
    }

    /// Every axis is what the kernel says.
    pub open spec fn ranged_all(self, infos: Seq<AxisInfo>) -> ControllerView
        decreases infos.len(),
    {
        if infos.len() == 0 {
            self
        } else {
            self.ranged_all(infos.drop_last()).ranged(infos.last())
        }
    }

    /// A controller about which nothing is known but its name and its light.
    pub open spec fn unread(
        path: Seq<char>,
        name: Seq<char>,
        light: Option<Seq<u8>>,
        light_rgb: [u8; 3],
        light_status: Seq<char>,
    ) -> ControllerView {
        let stick = resting((-32768) as i32, 32767);
        let middle = AxisCalibration { center: 0, minimum: (-32768) as i32, maximum: 32767 };
        ControllerView {
            path,
            name,
            buttons: Set::empty(),
            sticks: Sticks { left_x: stick, left_y: stick, right_x: stick, right_y: stick },
            left_trigger: resting(0, 255),
            right_trigger: resting(0, 255),
            dpad_x: 0,
            dpad_y: 0,
            calibration: JoystickCalibration {
                left_x: middle,
                left_y: middle,
                right_x: middle,
                right_y: middle,
            },
            calibration_message: None,
            reader_error: None,
            light,
            light_rgb,
            light_status,
            mic_status: "Searching for the DualSense microphone..."@,
            mic_rms_bits: 0,
            mic_peak_bits: 0,
            mic_history: Seq::empty(),
        }
    }

    /// A controller as it is found.
    pub open spec fn found(
        path: Seq<char>,
        name: Option<Seq<char>>,
        reading: Option<LightReading>,
        axes: Seq<AxisInfo>,
        keys: Seq<KeyCode>,
        saved: Option<JoystickCalibration>,
    ) -> ControllerView {
        let read = ControllerView::unread(
            path,
            name.unwrap_or("DualSense"@),
            reading_path(reading),
            first_light(reading).0,
            first_light(reading).1,
        ).ranged_all(axes);
        ControllerView {
            buttons: keys.to_set().filter(|code: KeyCode| button_of(code) is Some),
            calibration: saved.unwrap_or(read.sticks.middles()),
            ..read
        }
    }

    /// A raw event arrives.
    pub open spec fn applied(self, event: InputEvent) -> ControllerView {
        if event.event_type == EV_KEY && button_of(event.code) is Some {
            ControllerView {
                buttons: if event.value == 0 {
                    self.buttons.remove(event.code)
                } else {
                    self.buttons.insert(event.code)
                },
                ..self
            }
        } else if event.event_type == EV_ABS {
            self.moved(event.code, event.value)
        } else {
            self
        }
    }

    /// The D-pad is pressed up.
    pub open spec fn up(self) -> bool {
        self.dpad_y < 0 || self.buttons.contains(BTN_DPAD_UP) || self.buttons.contains(KEY_UP)
    }

    /// The D-pad is pressed down.
    pub open spec fn down(self) -> bool {
        self.dpad_y > 0 || self.buttons.contains(BTN_DPAD_DOWN) || self.buttons.contains(KEY_DOWN)
    }

    /// The D-pad is pressed to the left.
    pub open spec fn left(self) -> bool {
        self.dpad_x < 0 || self.buttons.contains(BTN_DPAD_LEFT) || self.buttons.contains(KEY_LEFT)
    }

    /// The D-pad is pressed to the right.
    pub open spec fn right(self) -> bool {
        self.dpad_x > 0 || self.buttons.contains(BTN_DPAD_RIGHT) || self.buttons.contains(
            KEY_RIGHT,
        )
    }

    /// A change of the light is asked for.
    pub open spec fn light_asked(self) -> ControllerView {
        if self.light is None {
            ControllerView { light_status: "RGB LED is unavailable"@, ..self }
        } else {
            self
        }
    }

    /// The light has another colour.
    pub open spec fn lit(self, rgb: [u8; 3]) -> ControllerView {
        ControllerView { light_rgb: rgb, light_status: color_text(rgb), ..self }
    }

    /// A change of the light was tried.
    pub open spec fn light_tried(self, rgb: [u8; 3], outcome: LightOutcome) -> ControllerView {
        match outcome {
            LightOutcome::Done => self.lit(rgb),
            LightOutcome::PermissionDenied => ControllerView {
                light_status: "RGB permission denied; install udev/99-dualsense-led.rules"@,
                ..self
            },
            LightOutcome::Failed(error) => ControllerView {
                light_status: "RGB light error: "@ + error@,
                ..self
            },
        }
    }

    /// The colour with one channel turned up or down.
    pub open spec fn adjusted(self, channel: int, delta: int) -> Seq<u8> {
        self.light_rgb@.update(channel, nearest_byte(self.light_rgb@[channel] + delta))
    }

    /// The microphone has a level.
    pub open spec fn heard(self, rms_bits: u32, peak_bits: u32) -> ControllerView {
        let all = self.mic_history.push(rms_bits);
        ControllerView {
            mic_rms_bits: rms_bits,
            mic_peak_bits: peak_bits,
            mic_history: if all.len() > MIC_HISTORY {
                all.skip(all.len() - MIC_HISTORY)
            } else {
                all
            },
            ..self
        }
    }
}

/// Two colours with the same channels are the same.
proof fn lemma_same_color(a: [u8; 3], b: [u8; 3])
    requires
        a@ == b@,
    ensures
        a == b,
{
    assert(a =~= b);
}

impl ControllerState {
    /// The state of a controller as it is found: `axes` and `keys` are what the
    /// kernel says of its axes and of the keys that are down, and `saved` is the
    /// calibration that was kept.
    pub fn new(
        path: String,
        name: Option<String>,
        reading: Option<LightReading>,
        axes: &[AxisInfo],
        keys: &[KeyCode],
        saved: Option<JoystickCalibration>,
    ) -> (state: ControllerState)
        requires
            ControllerView::found(
                path@,
                text_view(name),
                reading,
                axes@,
                keys@,
                saved,
            ).sticks.have_middles(),
        ensures
            state@ == ControllerView::found(
                path@,
                text_view(name),
                reading,
                axes@,
                keys@,
                saved,
            ),
    {
        let (light_rgb, light_status) = read_light(&reading);
        let ghost shown = first_light(reading);
        proof {
            lemma_same_color(light_rgb, shown.0);
        }
        let ghost light_path = reading_path(reading);
        let light = match reading {
            Some(reading) => Some(reading.light),
            None => None,
        };
        let name = match name {
            Some(name) => name,
            None => "DualSense".to_owned(),
        };
        let stick = AxisState { value: 0, minimum: -32768, maximum: 32767 };
        let trigger = AxisState { value: 0, minimum: 0, maximum: 255 };
        let middle = AxisCalibration { center: 0, minimum: -32768, maximum: 32767 };
        let mut state = ControllerState {
            path,
            name,
            buttons: HashSet::new(),
            sticks: Sticks { left_x: stick, left_y: stick, right_x: stick, right_y: stick },
            left_trigger: trigger,
            right_trigger: trigger,
            dpad_x: 0,
            dpad_y: 0,
            calibration: JoystickCalibration {
                left_x: middle,
                left_y: middle,
                right_x: middle,
                right_y: middle,
            },
            calibration_message: None,
            reader_error: None,
            light,
            light_rgb,
            light_status,
            mic_status: "Searching for the DualSense microphone...".to_owned(),
            mic_rms_bits: 0,
            mic_peak_bits: 0,
            mic_history: VecDeque::new(),
        };
        let ghost unread = ControllerView::unread(
            state.path@,
            state.name@,
            light_path,
            shown.0,
            shown.1,
        );
        assert(state@ =~= unread);
        let mut i: usize = 0;
        assert(axes@.take(0) =~= Seq::<AxisInfo>::empty());
        while i < axes.len()
            invariant
                i <= axes.len(),
                state@ == unread.ranged_all(axes@.take(i as int)),
            decreases axes.len() - i,
        {
            assert(axes@.take(i + 1).drop_last() =~= axes@.take(i as int));
            let info = axes[i];
            state.set_axis_range(info.axis, info.minimum, info.maximum, info.value);
            i = i + 1;
        }
        assert(axes@.take(i as int) =~= axes@);
        let ghost read = state@;
        assert(read == unread.ranged_all(axes@));
        proof {
            lemma_ranged_all_keeps_buttons(unread, axes@);
        }
        let mut k: usize = 0;
        while k < keys.len()
            invariant
                k <= keys.len(),
                state@ == (ControllerView {
                    buttons: keys@.take(k as int).to_set().filter(
                        |code: KeyCode| button_of(code) is Some,
                    ),
                    ..read
                }),
            decreases keys.len() - k,
        {
            let code = keys[k];
            let ghost before = keys@.take(k as int).to_set().filter(
                |code: KeyCode| button_of(code) is Some,
            );
            let ghost after = keys@.take(k + 1).to_set().filter(
                |code: KeyCode| button_of(code) is Some,
            );
            proof {
                let shorter = keys@.take(k as int);
                let longer = keys@.take(k + 1);
                assert(longer =~= shorter.push(code));
                assert forall|c: KeyCode|
                    longer.contains(c) == (shorter.contains(c) || c == code) by {
                    if longer.contains(c) {
                        let j = choose|j: int| 0 <= j < longer.len() && longer[j] == c;
                        if j < shorter.len() {
                            assert(shorter[j] == c);
                        }
                    }
                    if shorter.contains(c) {
                        let j = choose|j: int| 0 <= j < shorter.len() && shorter[j] == c;
                        assert(longer[j] == c);
                    }
                    assert(longer[k as int] == code);
                }
            }
            if button_event(code) {
                state.buttons.insert(code);
                assert(after =~= before.insert(code));
            } else {
                assert(after =~= before);
            }
            k = k + 1;
        }
        assert(keys@.take(k as int) =~= keys@);
        let default = default_calibration(&state.sticks);
        state.calibration = match saved {
            Some(calibration) => calibration,
            None => default,
        };
        state
    }

    /// Sets the range and the position of an axis.
    fn set_axis_range(&mut self, axis: AxisCode, minimum: i32, maximum: i32, value: i32)
        ensures
            final(self)@ == old(self)@.ranged(AxisInfo { axis, minimum, maximum, value }),
    {
        let state = AxisState { value, minimum, maximum };
        match axis {
            ABS_X => self.sticks.left_x = state,
            ABS_Y => self.sticks.left_y = state,
            ABS_RX => self.sticks.right_x = state,
            ABS_RY => self.sticks.right_y = state,
            ABS_Z => self.left_trigger = state,
            ABS_RZ => self.right_trigger = state,
            _ => {},
        }
    }

    /// Sets the position of an axis.
    fn set_axis_value(&mut self, axis: AxisCode, value: i32)
        ensures
            final(self)@ == old(self)@.moved(axis, value),
    {
        match axis {
            ABS_X => self.sticks.left_x.value = value,
            ABS_Y => self.sticks.left_y.value = value,
            ABS_RX => self.sticks.right_x.value = value,
            ABS_RY => self.sticks.right_y.value = value,
            ABS_Z => self.left_trigger.value = value,
            ABS_RZ => self.right_trigger.value = value,
            ABS_HAT0X => self.dpad_x = value,
            ABS_HAT0Y => self.dpad_y = value,
            _ => {},
        }
    }

    /// Follows a raw event.
    pub fn apply(&mut self, event: InputEvent)
        ensures
            final(self)@ == old(self)@.applied(event),
    {
        if event.event_type == EV_KEY {
            if button_event(event.code) {
                if event.value == 0 {
                    self.buttons.remove(&event.code);
                } else {
                    self.buttons.insert(event.code);
                }
            }
        } else if event.event_type == EV_ABS {
            self.set_axis_value(event.code, event.value);
        }
    }

    /// Whether a button is down.
    pub fn pressed(&self, code: KeyCode) -> (r: bool)
        ensures
            r == self@.buttons.contains(code),
    {
        self.buttons.contains(&code)
    }

    /// Whether the D-pad is pressed up.
    pub fn dpad_up(&self) -> (r: bool)
        ensures
            r == self@.up(),
    {
        self.dpad_y < 0 || self.pressed(BTN_DPAD_UP) || self.pressed(KEY_UP)
    }

    /// Whether the D-pad is pressed down.
    pub fn dpad_down(&self) -> (r: bool)
        ensures
            r == self@.down(),
    {
        self.dpad_y > 0 || self.pressed(BTN_DPAD_DOWN) || self.pressed(KEY_DOWN)
    }

    /// Whether the D-pad is pressed to the left.
    pub fn dpad_left(&self) -> (r: bool)
        ensures
            r == self@.left(),
    {
        self.dpad_x < 0 || self.pressed(BTN_DPAD_LEFT) || self.pressed(KEY_LEFT)
    }

    /// Whether the D-pad is pressed to the right.
    pub fn dpad_right(&self) -> (r: bool)
        ensures
            r == self@.right(),
    {
        self.dpad_x > 0 || self.pressed(BTN_DPAD_RIGHT) || self.pressed(KEY_RIGHT)
    }

    /// Asks for another colour: what has to be written for it, if there is a
    /// light.
    pub fn set_light(&mut self, rgb: [u8; 3]) -> (change: Option<LightChange>)
        ensures
            final(self)@ == old(self)@.light_asked(),
            sets_light(change, old(self)@.light, rgb),
    {
        match &self.light {
            Some(light) => {
                let command = if rgb[0] == 0 && rgb[1] == 0 && rgb[2] == 0 {
                    light.off()
                } else {
                    light.set_rgb(rgb[0], rgb[1], rgb[2])
                };
                Some(LightChange { rgb, command })
            },
            None => {
                self.light_status = "RGB LED is unavailable".to_owned();
                None
            },
        }
    }

    /// Takes how a change of the light went.
    pub fn light_was_set(&mut self, rgb: [u8; 3], outcome: LightOutcome)
        ensures
            final(self)@ == old(self)@.light_tried(rgb, outcome),
    {
        match outcome {
            LightOutcome::Done => self.show_light(rgb),
            LightOutcome::PermissionDenied => {
                self.light_status = "RGB permission denied; install udev/99-dualsense-led.rules".to_owned();
            },
            LightOutcome::Failed(error) => {
                self.light_status = text::joined("RGB light error: ", error.as_str());
            },
        }
    }

    /// Shows another colour.
    pub fn show_light(&mut self, rgb: [u8; 3])
        ensures
            final(self)@ == old(self)@.lit(rgb),
    {
        self.light_rgb = rgb;
        self.light_status = describe_color(rgb);
    }

    /// Asks for a colour with one channel turned up or down.
    pub fn adjust_light(&mut self, channel: usize, delta: i16) -> (change: Option<LightChange>)
        requires
            channel < 3,
            i16::MIN <= old(self)@.light_rgb@[channel as int] + delta <= i16::MAX,
        ensures
            final(self)@ == old(self)@.light_asked(),
            exists|rgb: [u8; 3]|
                rgb@ == old(self)@.adjusted(channel as int, delta as int) && #[trigger] sets_light(
                    change,
                    old(self)@.light,
                    rgb,
                ),
    {
        let mut rgb = self.light_rgb;
        let value: i16 = rgb[channel] as i16 + delta;
        rgb[channel] = if value < 0 {
            0
        } else if value > 255 {
            255
        } else {
            value as u8
        };
        assert(rgb@ =~= self@.adjusted(channel as int, delta as int));
        self.set_light(rgb)
    }

    /// Takes a level of the microphone.
    pub fn hear(&mut self, rms_bits: u32, peak_bits: u32)
        ensures
            final(self)@ == old(self)@.heard(rms_bits, peak_bits),
    {
        self.mic_rms_bits = rms_bits;
        self.mic_peak_bits = peak_bits;
        self.mic_history.push_back(rms_bits);
        let ghost all = self.mic_history@;
        let ghost before = *self;
        assert(all.skip(0) =~= all);
        while self.mic_history.len() > MIC_HISTORY
            invariant
                self.mic_history@.len() <= all.len(),
                self.mic_history@ == all.skip(all.len() - self.mic_history@.len()),
                all.len() > MIC_HISTORY ==> self.mic_history@.len() >= MIC_HISTORY,
                all.len() <= MIC_HISTORY ==> self.mic_history@ == all,
                self@ == (ControllerView { mic_history: self.mic_history@, ..before@ }),
            decreases self.mic_history@.len(),
        {
            let ghost longer = self.mic_history@;
            let _ = self.mic_history.pop_front();
            assert(self.mic_history@ =~= all.skip(all.len() - self.mic_history@.len()));
        }
        assert(self@ =~= old(self)@.heard(rms_bits, peak_bits));
    }

    /// Takes what is said about the microphone.
    pub fn set_mic_status(&mut self, status: String)
        ensures
            final(self)@ == (ControllerView { mic_status: status@, ..old(self)@ }),
    {
        self.mic_status = status;
    }

    /// Takes the error that ended the reading of events.
    pub fn set_reader_error(&mut self, error: String)
        ensures
            final(self)@ == (ControllerView { reader_error: Some(error@), ..old(self)@ }),
    {
        self.reader_error = Some(error);
    }

    /// Takes what is said about the last calibration.
    pub fn set_calibration_message(&mut self, message: Option<String>)
        ensures
            final(self)@ == (ControllerView {
                calibration_message: text_view(message),
                ..old(self)@
            }),
    {
        self.calibration_message = message;
    }

    /// Takes another calibration.
    pub fn set_calibration(&mut self, calibration: JoystickCalibration)
        ensures
            final(self)@ == (ControllerView { calibration, ..old(self)@ }),
    {
        self.calibration = calibration;
    }

    /// The device that is read.
    pub fn path(&self) -> (path: &str)
        ensures
            path@ == self@.path,
    {
        self.path.as_str()
    }

    /// The name of the controller.
    pub fn name(&self) -> (name: &str)
        ensures
            name@ == self@.name,
    {
        self.name.as_str()
    }

    /// Both sticks.
    pub fn sticks(&self) -> (sticks: Sticks)
        ensures
            sticks == self@.sticks,
    {
        self.sticks
    }

    /// The triggers, the left one first.
    pub fn triggers(&self) -> (triggers: (AxisState, AxisState))
        ensures
            triggers == (self@.left_trigger, self@.right_trigger),
    {
        (self.left_trigger, self.right_trigger)
    }

    /// The calibration of the sticks.
    pub fn calibration(&self) -> (calibration: JoystickCalibration)
        ensures
            calibration == self@.calibration,
    {
        self.calibration
    }

    /// What is said about the last calibration.
    pub fn calibration_message(&self) -> (message: Option<&str>)
        ensures
            match message {
                Some(message) => self@.calibration_message == Some(message@),
                None => self@.calibration_message is None,
            },
    {
        match &self.calibration_message {
            Some(message) => Some(message.as_str()),
            None => None,
        }
    }

    /// The error that ended the reading of events.
    pub fn reader_error(&self) -> (error: Option<&str>)
        ensures
            match error {
                Some(error) => self@.reader_error == Some(error@),
                None => self@.reader_error is None,
            },
    {
        match &self.reader_error {
            Some(error) => Some(error.as_str()),
            None => None,
        }
    }

    /// The colour of the light.
    pub fn light_rgb(&self) -> (rgb: [u8; 3])
        ensures
            rgb == self@.light_rgb,
    {
        self.light_rgb
    }

    /// What is said about the light.
    pub fn light_status(&self) -> (status: &str)
        ensures
            status@ == self@.light_status,
    {
        self.light_status.as_str()
    }

    /// What is said about the microphone.
    pub fn mic_status(&self) -> (status: &str)
        ensures
            status@ == self@.mic_status,
    {
        self.mic_status.as_str()
    }

    /// The last level of the microphone: the bits of its mean and of its peak.
    pub fn mic_level(&self) -> (level: (u32, u32))
        ensures
            level == (self@.mic_rms_bits, self@.mic_peak_bits),
    {
        (self.mic_rms_bits, self.mic_peak_bits)
    }

    /// The number of levels that are remembered.
    pub fn mic_history_len(&self) -> (n: usize)
        ensures
            n == self@.mic_history.len(),
    {
        self.mic_history.len()
    }

    /// A level that is remembered; the oldest is the first.
    pub fn mic_history_at(&self, index: usize) -> (rms_bits: u32)
        requires
            index < self@.mic_history.len(),
        ensures
            rms_bits == self@.mic_history[index as int],
    {
        self.mic_history[index]
    }
}

proof fn lemma_ranged_all_keeps_buttons(view: ControllerView, infos: Seq<AxisInfo>)
    requires
        view.buttons == Set::<KeyCode>::empty(),
    ensures
        view.ranged_all(infos).buttons == Set::<KeyCode>::empty(),
    decreases infos.len(),
{
    if infos.len() > 0 {
        lemma_ranged_all_keeps_buttons(view, infos.drop_last());
    }
}

/// The microphone's history never grows beyond what is shown of it.
pub proof fn law_history_is_bounded(view: ControllerView, rms_bits: u32, peak_bits: u32)
    requires
        view.mic_history.len() <= MIC_HISTORY,
    ensures
        view.heard(rms_bits, peak_bits).mic_history.len() <= MIC_HISTORY,
        view.heard(rms_bits, peak_bits).mic_history.last() == rms_bits,
{
}

/// The newest of a list of levels, as many as are remembered.
pub open spec fn newest(levels: Seq<u32>) -> Seq<u32> {
    if levels.len() > MIC_HISTORY {
        levels.skip(levels.len() - MIC_HISTORY)
    } else {
        levels
    }
}

impl ControllerView {
    /// The microphone has one level after another, each with its peak.
    pub open spec fn heard_all(self, levels: Seq<(u32, u32)>) -> ControllerView
        decreases levels.len(),
    {
        if levels.len() == 0 {
            self
        } else {
            self.heard_all(levels.drop_last()).heard(levels.last().0, levels.last().1)
        }
    }
}

/// The history is what was heard last, in the order in which it was heard.
pub proof fn law_history_is_what_was_heard_last(view: ControllerView, levels: Seq<(u32, u32)>)
    requires
        view.mic_history.len() <= MIC_HISTORY,
    ensures
        view.heard_all(levels).mic_history == newest(
            view.mic_history + levels.map_values(|level: (u32, u32)| level.0),
        ),
    decreases levels.len(),
{
    let heard = levels.map_values(|level: (u32, u32)| level.0);
    if levels.len() == 0 {
        assert(view.mic_history + heard =~= view.mic_history);
    } else {
        let first = levels.drop_last();
        law_history_is_what_was_heard_last(view, first);
        let earlier = view.mic_history + first.map_values(|level: (u32, u32)| level.0);
        assert(view.mic_history + heard =~= earlier.push(levels.last().0));
        assert(view.heard_all(levels).mic_history =~= newest(earlier.push(levels.last().0)));
    }
}

} // verus!
