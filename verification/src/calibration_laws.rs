//! What a calibration measures, said axis by axis.

use crate::calibration::{
    observed_all, truncated, AxisCalibration, AxisState, CalibrationStage, CalibrationView,
    JoystickCalibration, Sticks, CENTER_MILLIS,
};
use crate::codes::{AxisCode, InputEvent, ABS_RX, ABS_RY, ABS_X, ABS_Y, EV_ABS};
use crate::state::ControllerView;
use crate::text;
use vstd::prelude::*;

verus! {

/// The lowest of a first value and the values that a run of events gives an axis.
pub open spec fn lowest(first: i32, events: Seq<InputEvent>, code: AxisCode) -> i32
    decreases events.len(),
{
    if events.len() == 0 {
        first
    } else {
        let before = lowest(first, events.drop_last(), code);
        let event = events.last();
        if event.event_type == EV_ABS && event.code == code && event.value < before {
            event.value
        } else {
            before
        }
    }
}

/// The highest of a first value and the values that a run of events gives an axis.
pub open spec fn highest(first: i32, events: Seq<InputEvent>, code: AxisCode) -> i32
    decreases events.len(),
{
    if events.len() == 0 {
        first
    } else {
        let before = highest(first, events.drop_last(), code);
        let event = events.last();
        if event.event_type == EV_ABS && event.code == code && event.value > before {
            event.value
        } else {
            before
        }
    }
}

/// What was measured of an axis, if its rest position lies between its ends, and
/// otherwise the range of the axis with its middle.
pub open spec fn kept_or_default(
    center: i32,
    minimum: i32,
    maximum: i32,
    axis: AxisState,
    calibration: AxisCalibration,
) -> bool {
    if minimum < center < maximum {
        calibration.center == center && calibration.minimum == minimum && calibration.maximum
            == maximum
    } else {
        calibration == AxisCalibration::middle_of(axis)
    }
}

/// The lowest and the highest value are reached by every value of the axis, and no
/// other axis has a say in them.
pub proof fn law_ends_are_those_of_the_axis(first: i32, events: Seq<InputEvent>, code: AxisCode)
    ensures
        lowest(first, events, code) <= first <= highest(first, events, code),
        forall|i: int|
            0 <= i < events.len() && (#[trigger] events[i]).event_type == EV_ABS && events[i].code
                == code ==> lowest(first, events, code) <= events[i].value <= highest(
                first,
                events,
                code,
            ),
        lowest(first, events, code) == first || exists|i: int|
            0 <= i < events.len() && (#[trigger] events[i]).event_type == EV_ABS && events[i].code
                == code && events[i].value == lowest(first, events, code),
        highest(first, events, code) == first || exists|i: int|
            0 <= i < events.len() && (#[trigger] events[i]).event_type == EV_ABS && events[i].code
                == code && events[i].value == highest(first, events, code),
    decreases events.len(),
{
    if events.len() > 0 {
        let shorter = events.drop_last();
        law_ends_are_those_of_the_axis(first, shorter, code);
        assert(events.last() == events[events.len() - 1]);
        assert(forall|i: int| 0 <= i < shorter.len() ==> shorter[i] == events[i]);
        if lowest(first, shorter, code) != first {
            let i = choose|i: int|
                0 <= i < shorter.len() && (#[trigger] shorter[i]).event_type == EV_ABS
                    && shorter[i].code == code && shorter[i].value == lowest(first, shorter, code);
            assert(events[i] == shorter[i]);
        }
        if highest(first, shorter, code) != first {
            let i = choose|i: int|
                0 <= i < shorter.len() && (#[trigger] shorter[i]).event_type == EV_ABS
                    && shorter[i].code == code && shorter[i].value == highest(first, shorter, code);
            assert(events[i] == shorter[i]);
        }
    }
}

proof fn lemma_ends(session: CalibrationView, events: Seq<InputEvent>)
    requires
        session.sound(),
        session.stage == CalibrationStage::Range,
    ensures
        ({
            let after = observed_all(session, events);
            &&& after.sound()
            &&& after.stage == CalibrationStage::Range
            &&& after.center == session.center
            &&& after.minimum[0] == lowest(session.minimum[0], events, ABS_X)
            &&& after.maximum[0] == highest(session.maximum[0], events, ABS_X)
            &&& after.minimum[1] == lowest(session.minimum[1], events, ABS_Y)
            &&& after.maximum[1] == highest(session.maximum[1], events, ABS_Y)
            &&& after.minimum[2] == lowest(session.minimum[2], events, ABS_RX)
            &&& after.maximum[2] == highest(session.maximum[2], events, ABS_RX)
            &&& after.minimum[3] == lowest(session.minimum[3], events, ABS_RY)
            &&& after.maximum[3] == highest(session.maximum[3], events, ABS_RY)
        }),
    decreases events.len(),
{
    if events.len() > 0 {
        lemma_ends(session, events.drop_last());
    }
}

/// The range of each axis of the sticks is measured by the events of that axis
/// alone: it reaches from the lowest to the highest of where the axis was when the
/// measurement began and of the values reported for it.
pub proof fn law_each_axis_is_measured_by_its_own_events(
    session: CalibrationView,
    start: Sticks,
    events: Seq<InputEvent>,
    end: Sticks,
)
    requires
        session.sound(),
    ensures
        ({
            let centered = session.centered(start);
            let result = observed_all(centered, events).result(end);
            &&& kept_or_default(
                centered.center[0],
                lowest(start.left_x.value, events, ABS_X),
                highest(start.left_x.value, events, ABS_X),
                end.left_x,
                result.left_x,
            )
            &&& kept_or_default(
                centered.center[1],
                lowest(start.left_y.value, events, ABS_Y),
                highest(start.left_y.value, events, ABS_Y),
                end.left_y,
                result.left_y,
            )
            &&& kept_or_default(
                centered.center[2],
                lowest(start.right_x.value, events, ABS_RX),
                highest(start.right_x.value, events, ABS_RX),
                end.right_x,
                result.right_x,
            )
            &&& kept_or_default(
                centered.center[3],
                lowest(start.right_y.value, events, ABS_RY),
                highest(start.right_y.value, events, ABS_RY),
                end.right_y,
                result.right_y,
            )
        }),
{
    let centered = session.centered(start);
    lemma_ends(centered, events);
    assert(centered.minimum[0] == start.left_x.value && centered.maximum[0] == start.left_x.value);
    assert(centered.minimum[1] == start.left_y.value && centered.maximum[1] == start.left_y.value);
    assert(centered.minimum[2] == start.right_x.value);
    assert(centered.minimum[3] == start.right_y.value);
}

/// While the range is measured, an event widens the range of the axis that it
/// moves on the screen: to look at the sticks behind it adds nothing to what the
/// event itself has told of them.
pub proof fn law_events_widen_the_axis_they_move(
    session: CalibrationView,
    state: ControllerView,
    code: AxisCode,
    value: i32,
    elapsed_millis: u64,
)
    requires
        session.sound(),
        session.stage == CalibrationStage::Range,
    ensures
        ({
            let event = InputEvent { event_type: EV_ABS, code, value };
            let seen = session.sampled(state.sticks, elapsed_millis);
            seen.observed(event) == seen.sampled(state.applied(event).sticks, elapsed_millis)
        }),
{
    let event = InputEvent { event_type: EV_ABS, code, value };
    let seen = session.sampled(state.sticks, elapsed_millis);
    assert(seen.observed(event) =~= seen.sampled(state.applied(event).sticks, elapsed_millis));
}

/// Events count only while the range is measured, and only if they are of an axis
/// of a stick.
pub proof fn law_other_events_measure_nothing(session: CalibrationView, event: InputEvent)
    requires
        session.stage == CalibrationStage::Center || event.event_type != EV_ABS || (event.code
            != ABS_X && event.code != ABS_Y && event.code != ABS_RX && event.code != ABS_RY),
    ensures
        session.observed(event) == session,
{
}

/// The sum of where an axis was, over a run of looks at the sticks.
pub open spec fn total(looks: Seq<Sticks>, axis: spec_fn(Sticks) -> AxisState) -> int
    decreases looks.len(),
{
    if looks.len() == 0 {
        0
    } else {
        total(looks.drop_last(), axis) + axis(looks.last()).value
    }
}

/// The session after a run of looks at the sticks, all of them before the time for
/// the rest position is over.
pub open spec fn looked(session: CalibrationView, looks: Seq<Sticks>) -> CalibrationView
    decreases looks.len(),
{
    if looks.len() == 0 {
        session
    } else {
        looked(session, looks.drop_last()).sampled(looks.last(), 0)
    }
}

/// `average` is `sum / count` without its fraction: as near to it as an integer
/// between it and zero can be.
pub open spec fn is_average(average: int, sum: int, count: int) -> bool {
    &&& sum >= 0 ==> average * count <= sum < (average + 1) * count
    &&& sum <= 0 ==> (average - 1) * count < sum <= average * count
}

proof fn lemma_average(sum: int, count: int)
    requires
        count > 0,
    ensures
        is_average(truncated(sum, count), sum, count),
{
    if sum >= 0 {
        let q = sum / count;
        assert(q * count <= sum < (q + 1) * count) by (nonlinear_arith)
            requires
                count > 0,
                sum >= 0,
                q == sum / count,
        ;
        if sum == 0 {
            assert(q == 0) by (nonlinear_arith)
                requires
                    count > 0,
                    sum == 0,
                    q == sum / count,
            ;
            assert((q - 1) * count == -count) by (nonlinear_arith)
                requires
                    q == 0,
            ;
            assert(q * count == 0) by (nonlinear_arith)
                requires
                    q == 0,
            ;
        }
    } else {
        let n = -sum;
        let q = n / count;
        assert(q * count <= n < (q + 1) * count) by (nonlinear_arith)
            requires
                count > 0,
                n >= 0,
                q == n / count,
        ;
        assert((-q) * count == -(q * count) && (-q - 1) * count == -((q + 1) * count))
            by (nonlinear_arith);
    }
}

proof fn lemma_looked(sticks: Sticks, looks: Seq<Sticks>)
    requires
        looks.len() <= u32::MAX,
    ensures
        ({
            let session = looked(CalibrationView::fresh(sticks), looks);
            &&& session.sound()
            &&& session.stage == CalibrationStage::Center
            &&& session.samples == looks.len()
            &&& session.sums[0] == total(looks, |s: Sticks| s.left_x)
            &&& session.sums[1] == total(looks, |s: Sticks| s.left_y)
            &&& session.sums[2] == total(looks, |s: Sticks| s.right_x)
            &&& session.sums[3] == total(looks, |s: Sticks| s.right_y)
        }),
    decreases looks.len(),
{
    if looks.len() > 0 {
        let before = looked(CalibrationView::fresh(sticks), looks.drop_last());
        lemma_looked(sticks, looks.drop_last());
        let after = before.sampled(looks.last(), 0);
        let n = before.samples as int;
        assert forall|i: int| 0 <= i < 4 implies -0x8000_0000 * after.samples
            <= #[trigger] after.sums[i] <= 0x7fff_ffff * after.samples by {
            assert(-0x8000_0000 * n <= before.sums[i] <= 0x7fff_ffff * n);
            assert(-0x8000_0000 * (n + 1) == -0x8000_0000 * n - 0x8000_0000) by (nonlinear_arith);
            assert(0x7fff_ffff * (n + 1) == 0x7fff_ffff * n + 0x7fff_ffff) by (nonlinear_arith);
        }
    }
}

/// The rest position of each axis is the average of where that axis was, over the
/// looks at the sticks since the calibration began.
pub proof fn law_rest_position_is_the_average(sticks: Sticks, looks: Seq<Sticks>, end: Sticks)
    requires
        0 < looks.len() <= u32::MAX,
    ensures
        ({
            let center = looked(CalibrationView::fresh(sticks), looks).centered(end).center;
            let count = looks.len() as int;
            &&& is_average(center[0] as int, total(looks, |s: Sticks| s.left_x), count)
            &&& is_average(center[1] as int, total(looks, |s: Sticks| s.left_y), count)
            &&& is_average(center[2] as int, total(looks, |s: Sticks| s.right_x), count)
            &&& is_average(center[3] as int, total(looks, |s: Sticks| s.right_y), count)
        }),
{
    let session = looked(CalibrationView::fresh(sticks), looks);
    lemma_looked(sticks, looks);
    let count = looks.len() as int;
    assert forall|i: int| 0 <= i < 4 implies is_average(
        session.centered(end).center[i] as int,
        #[trigger] session.sums[i],
        count,
    ) by {
        lemma_average(session.sums[i], count);
        let a = truncated(session.sums[i], count);
        assert(-0x8000_0000 * count <= session.sums[i] <= 0x7fff_ffff * count);
        assert(-0x8000_0000 <= a <= 0x7fff_ffff) by (nonlinear_arith)
            requires
                count > 0,
                is_average(a, session.sums[i], count),
                -0x8000_0000 * count <= session.sums[i] <= 0x7fff_ffff * count,
        ;
    }
}

/// Without a look at the sticks, the rest position is where they are when its
/// measurement ends.
pub proof fn law_rest_position_without_samples(sticks: Sticks, end: Sticks)
    ensures
        ({
            let center = CalibrationView::fresh(sticks).centered(end).center;
            &&& center[0] == end.left_x.value
            &&& center[1] == end.left_y.value
            &&& center[2] == end.right_x.value
            &&& center[3] == end.right_y.value
        }),
{
}

/// The rest position is sampled for two seconds and no longer: the look that comes
/// at or after that time is the last, and the range is measured from then on.
pub proof fn law_rest_position_takes_two_seconds(
    session: CalibrationView,
    sticks: Sticks,
    elapsed_millis: u64,
)
    requires
        session.stage == CalibrationStage::Center,
    ensures
        CENTER_MILLIS == 2_000,
        (session.sampled(sticks, elapsed_millis).stage == CalibrationStage::Range) == (
        elapsed_millis >= 2_000),
        session.sampled(sticks, elapsed_millis).samples == session.samples + 1,
        elapsed_millis >= 2_000 ==> session.sampled(sticks, elapsed_millis) == session.sampled(
            sticks,
            0,
        ).centered(sticks),
{
    assert(session.sampled(sticks, elapsed_millis) =~= session.sampled(sticks, elapsed_millis));
}

/// An axis whose calibration is not known rests in its middle, and reaches as far
/// as the device says.
pub proof fn law_default_rest_position_is_the_middle(axis: AxisState)
    requires
        axis.has_middle(),
    ensures
        ({
            let calibration = AxisCalibration::middle_of(axis);
            &&& calibration.minimum == axis.minimum
            &&& calibration.maximum == axis.maximum
            &&& is_average(calibration.center as int, axis.minimum + axis.maximum, 2)
        }),
{
    lemma_average(axis.minimum + axis.maximum, 2);
}

/// A calibration is sound exactly if every axis rests strictly between its ends.
pub proof fn law_sound_axes_rest_between_their_ends(calibration: JoystickCalibration)
    ensures
        calibration.sound() <==> {
            &&& calibration.left_x.minimum < calibration.left_x.center
            &&& calibration.left_x.center < calibration.left_x.maximum
            &&& calibration.left_y.minimum < calibration.left_y.center
            &&& calibration.left_y.center < calibration.left_y.maximum
            &&& calibration.right_x.minimum < calibration.right_x.center
            &&& calibration.right_x.center < calibration.right_x.maximum
            &&& calibration.right_y.minimum < calibration.right_y.center
            &&& calibration.right_y.center < calibration.right_y.maximum
        },
{
}

/// While the rest position is sampled the user is told how many samples there are,
/// up to forty; then they are asked to move the sticks.
pub proof fn law_users_are_told_what_to_do(session: CalibrationView, samples: nat)
    ensures
        session.stage == CalibrationStage::Center && session.samples == samples && samples <= 40
            ==> session.told() == "Release sticks: sampling center ("@ + text::decimal(samples)
            + "/40)"@,
        session.stage == CalibrationStage::Center && session.samples > 40 ==> session.told()
            == "Release sticks: sampling center ("@ + text::decimal(40) + "/40)"@,
        session.stage == CalibrationStage::Range ==> session.told()
            == "Rotate both sticks through their full range, then press Enter"@,
{
}

/// While the range is measured, every look at the sticks widens the ends of each
/// axis as far as the axis is, and no further. What was measured before stays.
pub proof fn law_looking_widens_every_axis(
    session: CalibrationView,
    sticks: Sticks,
    elapsed_millis: u64,
    i: int,
)
    requires
        session.stage == CalibrationStage::Range,
        0 <= i < 4,
    ensures
        ({
            let after = session.sampled(sticks, elapsed_millis);
            let here = seq![
                sticks.left_x.value,
                sticks.left_y.value,
                sticks.right_x.value,
                sticks.right_y.value,
            ][i];
            &&& after.minimum[i] <= here && after.minimum[i] <= session.minimum[i]
            &&& after.minimum[i] == here || after.minimum[i] == session.minimum[i]
            &&& after.maximum[i] >= here && after.maximum[i] >= session.maximum[i]
            &&& after.maximum[i] == here || after.maximum[i] == session.maximum[i]
            &&& after.stage == CalibrationStage::Range
            &&& after.center == session.center
        }),
{
}

/// The middle of an axis can be computed if the sum of its ends fits in a number,
/// and those of the sticks if that holds of all four axes.
pub proof fn law_middles_need_sums_that_fit(sticks: Sticks)
    ensures
        sticks.have_middles() <==> {
            &&& i32::MIN <= sticks.left_x.minimum + sticks.left_x.maximum <= i32::MAX
            &&& i32::MIN <= sticks.left_y.minimum + sticks.left_y.maximum <= i32::MAX
            &&& i32::MIN <= sticks.right_x.minimum + sticks.right_x.maximum <= i32::MAX
            &&& i32::MIN <= sticks.right_y.minimum + sticks.right_y.maximum <= i32::MAX
        },
{
}

} // verus!
