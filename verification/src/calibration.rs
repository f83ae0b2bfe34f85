//! Calibration of the analog sticks.

use crate::codes::{
    AxisCode, InputEvent, ABS_RX, ABS_RY, ABS_X, ABS_Y, EV_ABS,
};
use crate::paths::{join_path, path_in};
use crate::text;
use vstd::prelude::*;
use vstd::string::*;
use vstd::utf8::encode_utf8;

verus! {

/// Where an axis is, and how far it reaches.
#[derive(Debug, Clone, Copy, PartialEq, Eq, Structural)]
pub struct AxisState {
    pub value: i32,
    pub minimum: i32,
    pub maximum: i32,
}

impl AxisState {
    /// The middle of the axis can be computed.
    pub open spec fn has_middle(self) -> bool {
        i32::MIN <= self.minimum + self.maximum <= i32::MAX
    }
}

/// The quotient without its fraction.
pub open spec fn truncated(n: int, d: int) -> int {
    if n >= 0 {
        n / d
    } else {
        -((-n) / d)
    }
}

/// Where the rest position and the ends of an axis are.
#[derive(Debug, Clone, Copy, PartialEq, Eq, Structural)]
pub struct AxisCalibration {
    pub center: i32,
    pub minimum: i32,
    pub maximum: i32,
}

impl AxisCalibration {
    /// The calibration of an axis that rests in its middle.
    pub open spec fn middle_of(axis: AxisState) -> AxisCalibration {
        AxisCalibration {
            center: truncated(axis.minimum + axis.maximum, 2) as i32,
            minimum: axis.minimum,
            maximum: axis.maximum,
        }
    }

    /// The rest position lies between the ends.
    pub open spec fn sound(self) -> bool {
        self.minimum < self.center < self.maximum
    }

    /// The calibration of an axis that rests in its middle.
    pub fn from_axis(axis: AxisState) -> (calibration: AxisCalibration)
        requires
            axis.has_middle(),
        ensures
            calibration == AxisCalibration::middle_of(axis),
    {
        let sum: i32 = axis.minimum + axis.maximum;
        AxisCalibration {
            center: divided(sum as i64, 2),
            minimum: axis.minimum,
            maximum: axis.maximum,
        }
    }

    /// Whether the rest position lies between the ends.
    pub fn valid(self) -> (r: bool)
        ensures
            r == self.sound(),
    {
        self.minimum < self.center && self.center < self.maximum
    }
}

/// A quotient that stays in the range of its terms is no larger than they are.
proof fn lemma_quotient(n: int, d: int)
    requires
        d > 0,
        -0x8000_0000 * d <= n <= 0x7fff_ffff * d,
    ensures
        -0x8000_0000 <= truncated(n, d) <= 0x7fff_ffff,
        n >= 0 ==> 0 <= n / d <= 0x7fff_ffff,
        n < 0 ==> 0 <= (-n) / d <= 0x8000_0000,
{
    if n >= 0 {
        assert(0 <= n / d <= 0x7fff_ffff) by (nonlinear_arith)
            requires
                d > 0,
                0 <= n <= 0x7fff_ffff * d,
        ;
    } else {
        assert(0 <= (-n) / d <= 0x8000_0000) by (nonlinear_arith)
            requires
                d > 0,
                0 <= -n <= 0x8000_0000 * d,
        ;
    }
}

/// The quotient of a sum of `count` values and `count`, without its fraction.
fn divided(sum: i64, count: u32) -> (average: i32)
    requires
        count > 0,
        -0x8000_0000 * count <= sum <= 0x7fff_ffff * count,
    ensures
        average == truncated(sum as int, count as int),
{
    proof {
        lemma_quotient(sum as int, count as int);
    }
    if sum >= 0 {
        (sum as u64 / count as u64) as i32
    } else {
        let magnitude: u64 = ((-(sum as i128)) as u64) / (count as u64);
        (-(magnitude as i64)) as i32
    }
}

/// The calibration of both sticks.
#[derive(Debug, Clone, Copy, PartialEq, Eq, Structural)]
pub struct JoystickCalibration {
    pub left_x: AxisCalibration,
    pub left_y: AxisCalibration,
    pub right_x: AxisCalibration,
    pub right_y: AxisCalibration,
}

impl JoystickCalibration {
    /// Every axis is calibrated soundly.
    pub open spec fn sound(self) -> bool {
        self.left_x.sound() && self.left_y.sound() && self.right_x.sound() && self.right_y.sound()
    }
}

/// The state of both sticks.
#[derive(Debug, Clone, Copy, PartialEq, Eq, Structural)]
pub struct Sticks {
    pub left_x: AxisState,
    pub left_y: AxisState,
    pub right_x: AxisState,
    pub right_y: AxisState,
}

impl Sticks {
    /// The middle of every axis can be computed.
    pub open spec fn have_middles(self) -> bool {
        self.left_x.has_middle() && self.left_y.has_middle() && self.right_x.has_middle()
            && self.right_y.has_middle()
    }

    /// Where the axes are.
    pub open spec fn positions(self) -> Seq<i32> {
        seq![self.left_x.value, self.left_y.value, self.right_x.value, self.right_y.value]
    }

    /// The calibration of sticks that rest in the middle.
    pub open spec fn middles(self) -> JoystickCalibration {
        JoystickCalibration {
            left_x: AxisCalibration::middle_of(self.left_x),
            left_y: AxisCalibration::middle_of(self.left_y),
            right_x: AxisCalibration::middle_of(self.right_x),
            right_y: AxisCalibration::middle_of(self.right_y),
        }
    }
}

/// The calibration of sticks that rest in the middle.
pub fn default_calibration(sticks: &Sticks) -> (calibration: JoystickCalibration)
    requires
        sticks.have_middles(),
    ensures
        calibration == sticks.middles(),
{
    JoystickCalibration {
        left_x: AxisCalibration::from_axis(sticks.left_x),
        left_y: AxisCalibration::from_axis(sticks.left_y),
        right_x: AxisCalibration::from_axis(sticks.right_x),
        right_y: AxisCalibration::from_axis(sticks.right_y),
    }
}

/// Where the axes are: the left stick's, then the right stick's.
pub fn axis_values(sticks: &Sticks) -> (values: [i32; 4])
    ensures
        values@ == sticks.positions(),
{
    let values = [
        sticks.left_x.value,
        sticks.left_y.value,
        sticks.right_x.value,
        sticks.right_y.value,
    ];
    assert(values@ =~= sticks.positions());
    values
}

/// Where the calibration is kept.
pub open spec fn calibration_file(base: Seq<u8>) -> Seq<u8> {
    path_in(path_in(base, encode_utf8("dualsense"@)), encode_utf8("calibration.json"@))
}

/// Where the calibration is kept: in the directory that `XDG_CONFIG_HOME` names
/// or else in the `.config` of the directory that `HOME` names.
pub fn calibration_path(config_home: &Option<Vec<u8>>, home: &Option<Vec<u8>>) -> (path: Option<
    Vec<u8>,
>)
    ensures
        match (config_home, home) {
            (Some(base), _) => path is Some && path->0@ == calibration_file(base@),
            (None, Some(home)) => path is Some && path->0@ == calibration_file(
                path_in(home@, encode_utf8(".config"@)),
            ),
            (None, None) => path is None,
        },
{
    let base = match (config_home, home) {
        (Some(base), _) => join_path(base.as_slice(), "dualsense".as_bytes()),
        (None, Some(home)) => {
            let config = join_path(home.as_slice(), ".config".as_bytes());
            join_path(config.as_slice(), "dualsense".as_bytes())
        },
        (None, None) => {
            return None;
        },
    };
    Some(join_path(base.as_slice(), "calibration.json".as_bytes()))
}

/// The calibration that was read, if it is sound.
pub fn load_calibration(calibration: JoystickCalibration) -> (loaded: Option<JoystickCalibration>)
    ensures
        loaded == (if calibration.sound() {
            Some(calibration)
        } else {
            None
        }),
{
    if calibration.left_x.valid() && calibration.left_y.valid() && calibration.right_x.valid()
        && calibration.right_y.valid() {
        Some(calibration)
    } else {
        None
    }
}

/// What a calibration is about.
#[derive(Debug, Clone, Copy, PartialEq, Eq, Structural)]
pub enum CalibrationStage {
    Center,
    Range,
}

/// Milliseconds for which the rest position is sampled.
pub const CENTER_MILLIS: u64 = 2_000;

/// A calibration that is under way.
#[derive(Debug)]
pub struct CalibrationSession {
    stage: CalibrationStage,
    samples: u32,
    sums: [i64; 4],
    center: [i32; 4],
    minimum: [i32; 4],
    maximum: [i32; 4],
}

/// A calibration that is under way, in mathematical terms. The lists are of the
/// four axes.
#[verifier::ext_equal]
pub struct CalibrationView {
    pub stage: CalibrationStage,
    pub samples: nat,
    pub sums: Seq<int>,
    pub center: Seq<i32>,
    pub minimum: Seq<i32>,
    pub maximum: Seq<i32>,
}

impl View for CalibrationSession {
    type V = CalibrationView;

    closed spec fn view(&self) -> CalibrationView {
        CalibrationView {
            stage: self.stage,
            samples: self.samples as nat,
            sums: Seq::new(4, |i: int| self.sums@[i] as int),
            center: self.center@,
            minimum: self.minimum@,
            maximum: self.maximum@,
        }
    }
}

/// The place of a stick's axis among the four.
pub open spec fn stick_index(axis: AxisCode) -> Option<int> {
    match axis {
        ABS_X => Some(0),
        ABS_Y => Some(1),
        ABS_RX => Some(2),
        ABS_RY => Some(3),
        _ => None,
    }
}

/// The lesser of two values.
pub open spec fn lesser(a: i32, b: i32) -> i32 {
    if b < a {
        b
    } else {
        a
    }
}

/// The greater of two values.
pub open spec fn greater(a: i32, b: i32) -> i32 {
    if b > a {
        b
    } else {
        a
    }
}

impl CalibrationView {
    /// A calibration of sticks that are where they are now.
    pub open spec fn fresh(sticks: Sticks) -> CalibrationView {
        CalibrationView {
            stage: CalibrationStage::Center,
            samples: 0,
            sums: seq![0int, 0, 0, 0],
            center: sticks.positions(),
            minimum: sticks.positions(),
            maximum: sticks.positions(),
        }
    }

    /// The lists are of the four axes, and the sums are sums of as many values as
    /// there are samples.
    pub open spec fn sound(self) -> bool {
        &&& self.sums.len() == 4
        &&& self.center.len() == 4
        &&& self.minimum.len() == 4
        &&& self.maximum.len() == 4
        &&& self.samples <= u32::MAX
        &&& forall|i: int|
            0 <= i < 4 ==> -0x8000_0000 * self.samples <= #[trigger] self.sums[i] <= 0x7fff_ffff
                * self.samples
    }

    /// The ends reach as far as a value of an axis.
    pub open spec fn widened(self, index: int, value: i32) -> CalibrationView {
        CalibrationView {
            minimum: self.minimum.update(index, lesser(self.minimum[index], value)),
            maximum: self.maximum.update(index, greater(self.maximum[index], value)),
            ..self
        }
    }

    /// An event arrives. While the range is measured, the ends follow the sticks.
    pub open spec fn observed(self, event: InputEvent) -> CalibrationView {
        match stick_index(event.code) {
            Some(index) if self.stage == CalibrationStage::Range && event.event_type == EV_ABS => {
                self.widened(index, event.value)
            },
            _ => self,
        }
    }

    /// The rest position is measured: it is the average of the samples, without
    /// its fraction. The range starts where the sticks are.
    pub open spec fn centered(self, sticks: Sticks) -> CalibrationView {
        CalibrationView {
            stage: CalibrationStage::Range,
            center: if self.samples > 0 {
                Seq::new(4, |i: int| truncated(self.sums[i], self.samples as int) as i32)
            } else {
                sticks.positions()
            },
            minimum: sticks.positions(),
            maximum: sticks.positions(),
            ..self
        }
    }

    /// The sticks are looked at, `elapsed_millis` after the stage began.
    pub open spec fn sampled(self, sticks: Sticks, elapsed_millis: u64) -> CalibrationView {
        match self.stage {
            CalibrationStage::Center => {
                let counted = CalibrationView {
                    samples: self.samples + 1,
                    sums: Seq::new(4, |i: int| self.sums[i] + sticks.positions()[i]),
                    ..self
                };
                if elapsed_millis >= CENTER_MILLIS {
                    counted.centered(sticks)
                } else {
                    counted
                }
            },
            CalibrationStage::Range => CalibrationView {
                minimum: Seq::new(4, |i: int| lesser(self.minimum[i], sticks.positions()[i])),
                maximum: Seq::new(4, |i: int| greater(self.maximum[i], sticks.positions()[i])),
                ..self
            },
        }
    }

    /// The calibration of an axis, or `fallback` if what was measured is of no
    /// use.
    pub open spec fn measured(self, index: int, fallback: AxisCalibration) -> AxisCalibration {
        let axis = AxisCalibration {
            center: self.center[index],
            minimum: self.minimum[index],
            maximum: self.maximum[index],
        };
        if axis.sound() {
            axis
        } else {
            fallback
        }
    }

    /// The calibration that was measured.
    pub open spec fn result(self, sticks: Sticks) -> JoystickCalibration {
        JoystickCalibration {
            left_x: self.measured(0, sticks.middles().left_x),
            left_y: self.measured(1, sticks.middles().left_y),
            right_x: self.measured(2, sticks.middles().right_x),
            right_y: self.measured(3, sticks.middles().right_y),
        }
    }

    /// What the user is told.
    pub open spec fn told(self) -> Seq<char> {
        match self.stage {
            CalibrationStage::Center => "Release sticks: sampling center ("@ + text::decimal(
                if self.samples < 40 {
                    self.samples
                } else {
                    40
                },
            ) + "/40)"@,
            CalibrationStage::Range => {
                "Rotate both sticks through their full range, then press Enter"@
            },
        }
    }
}

impl CalibrationSession {
    /// The session is in order.
    pub open spec fn valid(&self) -> bool {
        self@.sound()
    }

    /// Begins a calibration.
    pub fn new(sticks: &Sticks) -> (session: CalibrationSession)
        ensures
            session.valid(),
            session@ == CalibrationView::fresh(*sticks),
    {
        let values = axis_values(sticks);
        let session = CalibrationSession {
            stage: CalibrationStage::Center,
            samples: 0,
            sums: [0, 0, 0, 0],
            center: values,
            minimum: values,
            maximum: values,
        };
        assert(session@ =~= CalibrationView::fresh(*sticks));
        session
    }

    /// The stage of the calibration.
    pub fn stage(&self) -> (stage: CalibrationStage)
        ensures
            stage == self@.stage,
    {
        self.stage
    }

    /// The number of samples of the rest position.
    pub fn samples(&self) -> (samples: u32)
        ensures
            samples == self@.samples,
    {
        self.samples
    }

    fn widen(&mut self, index: usize, value: i32)
        requires
            index < 4,
            old(self).valid(),
        ensures
            final(self).valid(),
            final(self)@ == old(self)@.widened(index as int, value),
    {
        if value < self.minimum[index] {
            self.minimum[index] = value;
        }
        if value > self.maximum[index] {
            self.maximum[index] = value;
        }
        assert(self@ =~= old(self)@.widened(index as int, value));
    }

    /// Follows a raw event of the controller.
    pub fn observe_event(&mut self, event: InputEvent)
        requires
            old(self).valid(),
        ensures
            final(self).valid(),
            final(self)@ == old(self)@.observed(event),
    {
        if self.stage != CalibrationStage::Range || event.event_type != EV_ABS {
            return;
        }
        let index: usize = match event.code {
            ABS_X => 0,
            ABS_Y => 1,
            ABS_RX => 2,
            ABS_RY => 3,
            _ => {
                return;
            },
        };
        self.widen(index, event.value);
    }

    /// Looks at the sticks, `elapsed_millis` after the stage began.
    pub fn sample(&mut self, sticks: &Sticks, elapsed_millis: u64)
        requires
            old(self).valid(),
            old(self)@.stage == CalibrationStage::Center ==> old(self)@.samples < u32::MAX,
        ensures
            final(self).valid(),
            final(self)@ == old(self)@.sampled(*sticks, elapsed_millis),
    {
        let values = axis_values(sticks);
        let ghost before = self@;
        match self.stage {
            CalibrationStage::Center => {
                let ghost counted = CalibrationView {
                    samples: before.samples + 1,
                    sums: Seq::new(4, |i: int| before.sums[i] + sticks.positions()[i]),
                    ..before
                };
                proof {
                    assert(before.sums[0] == self.sums@[0]);
                    assert(before.sums[1] == self.sums@[1]);
                    assert(before.sums[2] == self.sums@[2]);
                    assert(before.sums[3] == self.sums@[3]);
                }
                let sums: [i64; 4] = [
                    self.sums[0] + values[0] as i64,
                    self.sums[1] + values[1] as i64,
                    self.sums[2] + values[2] as i64,
                    self.sums[3] + values[3] as i64,
                ];
                self.sums = sums;
                self.samples = self.samples + 1;
                assert(self@ =~= counted);
                proof {
                    assert forall|i: int| 0 <= i < 4 implies -0x8000_0000 * counted.samples
                        <= #[trigger] counted.sums[i] <= 0x7fff_ffff * counted.samples by {
                        assert(-0x8000_0000 * before.samples <= before.sums[i] <= 0x7fff_ffff
                            * before.samples);
                        assert(-0x8000_0000 * (before.samples + 1) == -0x8000_0000 * before.samples
                            - 0x8000_0000) by (nonlinear_arith);
                        assert(0x7fff_ffff * (before.samples + 1) == 0x7fff_ffff * before.samples
                            + 0x7fff_ffff) by (nonlinear_arith);
                    }
                }
                if elapsed_millis >= CENTER_MILLIS {
                    self.finish_center(sticks);
                }
            },
            CalibrationStage::Range => {
                self.widen(0, values[0]);
                self.widen(1, values[1]);
                self.widen(2, values[2]);
                self.widen(3, values[3]);
                assert(self@ =~= before.sampled(*sticks, elapsed_millis));
            },
        }
    }

    /// Ends the measurement of the rest position.
    pub fn finish_center(&mut self, sticks: &Sticks)
        requires
            old(self).valid(),
        ensures
            final(self).valid(),
            final(self)@ == old(self)@.centered(*sticks),
    {
        let ghost before = self@;
        let values = axis_values(sticks);
        if self.samples > 0 {
            proof {
                assert(before.sums[0] == self.sums@[0]);
                assert(before.sums[1] == self.sums@[1]);
                assert(before.sums[2] == self.sums@[2]);
                assert(before.sums[3] == self.sums@[3]);
            }
            let center: [i32; 4] = [
                divided(self.sums[0], self.samples),
                divided(self.sums[1], self.samples),
                divided(self.sums[2], self.samples),
                divided(self.sums[3], self.samples),
            ];
            self.center = center;
        } else {
            self.center = values;
        }
        self.minimum = values;
        self.maximum = values;
        self.stage = CalibrationStage::Range;
        assert(self@ =~= before.centered(*sticks));
    }

    /// The calibration that was measured. An axis of which nothing useful was
    /// measured counts as resting in its middle.
    pub fn finish_range(&self, sticks: &Sticks) -> (calibration: JoystickCalibration)
        requires
            self.valid(),
            sticks.have_middles(),
        ensures
            calibration == self@.result(*sticks),
    {
        let fallback = default_calibration(sticks);
        JoystickCalibration {
            left_x: self.axis(0, fallback.left_x),
            left_y: self.axis(1, fallback.left_y),
            right_x: self.axis(2, fallback.right_x),
            right_y: self.axis(3, fallback.right_y),
        }
    }

    fn axis(&self, index: usize, fallback: AxisCalibration) -> (calibration: AxisCalibration)
        requires
            index < 4,
        ensures
            calibration == self@.measured(index as int, fallback),
    {
        let axis = AxisCalibration {
            center: self.center[index],
            minimum: self.minimum[index],
            maximum: self.maximum[index],
        };
        if axis.valid() {
            axis
        } else {
            fallback
        }
    }

    /// What the user is told.
    pub fn status(&self) -> (status: String)
        ensures
            status@ == self@.told(),
    {
        match self.stage {
            CalibrationStage::Center => {
                let shown: u32 = if self.samples < 40 {
                    self.samples
                } else {
                    40
                };
                let number = text::decimal_text(shown as u64);
                let mut status = text::joined(
                    "Release sticks: sampling center (",
                    number.as_str(),
                );
                status.append("/40)");
                status
            },
            CalibrationStage::Range => {
                "Rotate both sticks through their full range, then press Enter".to_owned()
            },
        }
    }
}

/// A calibration after a run of events.
pub open spec fn observed_all(session: CalibrationView, events: Seq<InputEvent>) -> CalibrationView
    decreases events.len(),
{
    if events.len() == 0 {
        session
    } else {
        observed_all(session, events.drop_last()).observed(events.last())
    }
}

/// While the range is measured, the ends reach as far as every position that was
/// reported, and never draw back.
pub proof fn law_range_covers_what_was_observed(session: CalibrationView, events: Seq<InputEvent>)
    requires
        session.sound(),
        session.stage == CalibrationStage::Range,
    ensures
        observed_all(session, events).sound(),
        observed_all(session, events).stage == CalibrationStage::Range,
        observed_all(session, events).center == session.center,
        forall|index: int|
            0 <= index < 4 ==> (#[trigger] observed_all(session, events).minimum[index])
                <= session.minimum[index] && observed_all(session, events).maximum[index]
                >= session.maximum[index],
        forall|i: int|
            0 <= i < events.len() && (#[trigger] events[i]).event_type == EV_ABS && stick_index(
                events[i].code,
            ) is Some ==> observed_all(session, events).minimum[stick_index(events[i].code)->0]
                <= events[i].value <= observed_all(
                session,
                events,
            ).maximum[stick_index(events[i].code)->0],
    decreases events.len(),
{
    if events.len() > 0 {
        let first = events.drop_last();
        law_range_covers_what_was_observed(session, first);
        let before = observed_all(session, first);
        let after = observed_all(session, events);
        assert(after == before.observed(events.last()));
        assert forall|i: int|
            0 <= i < events.len() && (#[trigger] events[i]).event_type == EV_ABS && stick_index(
                events[i].code,
            ) is Some implies after.minimum[stick_index(events[i].code)->0] <= events[i].value
            <= after.maximum[stick_index(events[i].code)->0] by {
            if i < first.len() {
                assert(first[i] == events[i]);
            }
        }
    }
}

/// A calibration that was measured on sticks whose middles are inside of their
/// ranges is sound on every axis, so that it is accepted when it is read again.
pub proof fn law_measured_calibration_is_accepted(session: CalibrationView, sticks: Sticks)
    requires
        sticks.middles().sound(),
    ensures
        session.result(sticks).sound(),
{
}

} // verus!
