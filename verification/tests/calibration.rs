use dualsense::calibration::{
    axis_values, calibration_path, default_calibration, load_calibration, AxisCalibration,
    AxisState, CalibrationSession, CalibrationStage, JoystickCalibration, Sticks,
};
use dualsense::codes::{InputEvent, ABS_RY, ABS_X, ABS_Z, EV_ABS, EV_KEY};

fn axis(value: i32, minimum: i32, maximum: i32) -> AxisState {
    AxisState {
        value,
        minimum,
        maximum,
    }
}

fn sticks(values: [i32; 4]) -> Sticks {
    Sticks {
        left_x: axis(values[0], 0, 255),
        left_y: axis(values[1], 0, 255),
        right_x: axis(values[2], 0, 255),
        right_y: axis(values[3], 0, 255),
    }
}

fn calibrated(center: i32, minimum: i32, maximum: i32) -> AxisCalibration {
    AxisCalibration {
        center,
        minimum,
        maximum,
    }
}

#[test]
fn middles_lose_their_fraction() {
    assert_eq!(
        AxisCalibration::from_axis(axis(3, 0, 255)),
        calibrated(127, 0, 255)
    );
    assert_eq!(
        AxisCalibration::from_axis(axis(3, -32768, 32767)),
        calibrated(0, -32768, 32767)
    );
    assert_eq!(
        AxisCalibration::from_axis(axis(3, -4, -1)),
        calibrated(-2, -4, -1)
    );
    assert_eq!(default_calibration(&sticks([0; 4])).right_y, calibrated(127, 0, 255));
    assert_eq!(axis_values(&sticks([1, 2, 3, 4])), [1, 2, 3, 4]);
}

#[test]
fn rest_positions_lie_between_the_ends() {
    assert!(calibrated(0, -1, 1).valid());
    assert!(!calibrated(-1, -1, 1).valid());
    assert!(!calibrated(1, -1, 1).valid());
    let good = calibrated(0, -1, 1);
    let calibration = JoystickCalibration {
        left_x: good,
        left_y: good,
        right_x: good,
        right_y: good,
    };
    assert_eq!(load_calibration(calibration), Some(calibration));
    let bad = JoystickCalibration {
        right_x: calibrated(2, -1, 1),
        ..calibration
    };
    assert_eq!(load_calibration(bad), None);
}

#[test]
fn calibration_is_kept_in_the_config_directory() {
    let config = Some(b"/cfg".to_vec());
    let home = Some(b"/home/me/".to_vec());
    assert_eq!(
        calibration_path(&config, &home).unwrap(),
        b"/cfg/dualsense/calibration.json"
    );
    assert_eq!(
        calibration_path(&None, &home).unwrap(),
        b"/home/me/.config/dualsense/calibration.json"
    );
    assert_eq!(calibration_path(&None, &None), None);
}

#[test]
fn centers_are_averages() {
    let mut session = CalibrationSession::new(&sticks([0; 4]));
    assert_eq!(session.status(), "Release sticks: sampling center (0/40)");
    session.sample(&sticks([10, -10, 1, -1]), 0);
    session.sample(&sticks([11, -11, 2, -2]), 1_999);
    assert_eq!(session.samples(), 2);
    assert_eq!(session.stage(), CalibrationStage::Center);
    session.sample(&sticks([11, -11, 2, -2]), 2_000);
    assert_eq!(session.stage(), CalibrationStage::Range);
    assert_eq!(
        session.status(),
        "Rotate both sticks through their full range, then press Enter"
    );
    for value in [-100, 100] {
        session.sample(&sticks([value; 4]), 0);
    }
    let result = session.finish_range(&sticks([0; 4]));
    assert_eq!(result.left_x, calibrated(10, -100, 100));
    assert_eq!(result.left_y, calibrated(-10, -100, 100));
    assert_eq!(result.right_x, calibrated(1, -100, 100));
    assert_eq!(result.right_y, calibrated(-1, -100, 100));
}

#[test]
fn progress_stops_at_forty() {
    let mut session = CalibrationSession::new(&sticks([0; 4]));
    for _ in 0..41 {
        session.sample(&sticks([0; 4]), 0);
    }
    assert_eq!(session.status(), "Release sticks: sampling center (40/40)");
}

#[test]
fn range_covers_what_was_observed() {
    let mut session = CalibrationSession::new(&sticks([5; 4]));
    session.observe_event(InputEvent::new(EV_ABS, ABS_X, 77));
    session.finish_center(&sticks([5; 4]));
    session.observe_event(InputEvent::new(EV_ABS, ABS_X, -7));
    session.observe_event(InputEvent::new(EV_ABS, ABS_X, 70));
    session.observe_event(InputEvent::new(EV_ABS, ABS_RY, 6));
    session.observe_event(InputEvent::new(EV_ABS, ABS_Z, 99));
    session.observe_event(InputEvent::new(EV_KEY, ABS_X, 99));
    let result = session.finish_range(&sticks([5; 4]));
    assert_eq!(result.left_x, calibrated(5, -7, 70));
    // An axis that did not move both ways counts as resting in its middle.
    assert_eq!(result.left_y, calibrated(127, 0, 255));
    assert_eq!(result.right_y, calibrated(127, 0, 255));
}
