use dualsense::calibration::{AxisState, CalibrationSession};
use dualsense::codes::{
    InputEvent, ABS_HAT0Y, BTN_EAST, BTN_MODE, BTN_THUMBL, BTN_TL, EV_ABS, EV_KEY,
};
use dualsense::screen::{
    base_mapping_lines, center_info_lines, center_line, control_span, dpad_lines, face_button_lines,
    footer, graph_columns, layer_mapping_lines, microphone_text, overlay_area, plot_size,
    shoulder_span, stick_lines, stick_title, title_line, trigger_label, Area, Plot, Side, Span,
    SpanStyle,
};
use dualsense::state::ControllerState;

fn state() -> ControllerState {
    ControllerState::new(
        "/dev/input/event5".to_owned(),
        Some("Pad".to_owned()),
        None,
        &[],
        &[],
        None,
    )
}

fn text(line: &[Span]) -> String {
    line.iter().map(|span| span.text.as_str()).collect()
}

fn active(line: &[Span]) -> Vec<&str> {
    line.iter()
        .filter(|span| span.style == SpanStyle::Active)
        .map(|span| span.text.as_str())
        .collect()
}

fn axis(value: i32) -> AxisState {
    AxisState {
        value,
        minimum: 0,
        maximum: 255,
    }
}

#[test]
fn pressed_controls_stand_out() {
    let mut state = state();
    state.apply(InputEvent::new(EV_ABS, ABS_HAT0Y, -1));
    for code in [BTN_EAST, BTN_MODE, BTN_TL, BTN_THUMBL] {
        state.apply(InputEvent::new(EV_KEY, code, 1));
    }
    let dpad = dpad_lines(&state);
    assert_eq!(text(&dpad[0]), "    ▲");
    assert_eq!(text(&dpad[1]), "  ◀   ▶");
    assert_eq!(text(&dpad[2]), "    ▼");
    assert_eq!(active(&dpad[0]), vec!["▲"]);
    assert!(active(&dpad[1]).is_empty() && active(&dpad[2]).is_empty());
    let face = face_button_lines(&state);
    assert_eq!(text(&face[0]), "        △");
    assert_eq!(text(&face[1]), "    □       ○");
    assert_eq!(text(&face[2]), "        ×");
    assert_eq!(active(&face[1]), vec!["○"]);
    let center = center_line(&state);
    assert_eq!(text(&center), "Create     PS     Options");
    assert_eq!(active(&center), vec!["PS"]);
    assert_eq!(shoulder_span(Side::Left, &state), control_span("L1", true));
    assert_eq!(shoulder_span(Side::Right, &state), control_span("R1", false));
    assert_eq!(stick_title(Side::Left, &state), "Left stick  [L3 ●]");
    assert_eq!(stick_title(Side::Right, &state), "Right stick  [R3 ○]");
}

#[test]
fn plots_fit_their_area() {
    assert_eq!(plot_size(0, 0), (5, 3));
    assert_eq!(plot_size(7, 6), (5, 3));
    assert_eq!(plot_size(10, 10), (8, 7));
    assert_eq!(plot_size(80, 24), (13, 9));
}

#[test]
fn plots_mark_the_stick_and_the_middle() {
    let plot = Plot {
        width: 5,
        height: 3,
        column: 4,
        row: 0,
    };
    let lines = stick_lines(plot, axis(-7), axis(1234));
    let texts: Vec<String> = lines.iter().map(|line| text(line)).collect();
    assert_eq!(
        texts,
        vec!["····●", "··+··", "·····", "X     -7  Y  +1234"]
    );
    assert_eq!(active(&lines[0]), vec!["●"]);
    let middle = Plot {
        column: 2,
        row: 1,
        ..plot
    };
    assert_eq!(text(&stick_lines(middle, axis(0), axis(0))[1]), "··●··");
}

#[test]
fn status_tells_about_everything() {
    let mut state = state();
    let texts = |state: &ControllerState, session: Option<&CalibrationSession>| -> Vec<String> {
        center_info_lines(state, session)
            .iter()
            .map(|line| text(line))
            .collect()
    };
    assert_eq!(
        texts(&state, None),
        vec![
            "LIVE INPUT",
            "",
            "Device: /dev/input/event5",
            "Reading input events...",
            "Light: #000000 (RGB LED not exposed by hid-playstation)",
            "Press c to calibrate sticks",
        ]
    );
    assert_eq!(center_info_lines(&state, None)[0][0].style, SpanStyle::Heading);
    state.set_reader_error("gone".to_owned());
    state.set_calibration_message(Some("saved".to_owned()));
    state.show_light([255, 160, 1]);
    let lines = texts(&state, None);
    assert_eq!(lines[3], "gone");
    assert_eq!(lines[4], "Light: #FFA001 (RGB #FFA001)");
    assert_eq!(lines[5], "saved");
    let session = CalibrationSession::new(&state.sticks());
    assert_eq!(
        texts(&state, Some(&session))[5],
        "Release sticks: sampling center (0/40)"
    );
}

#[test]
fn labels_and_titles_are_composed() {
    assert_eq!(trigger_label(7, axis(-3)), "  7% (-3)");
    assert_eq!(trigger_label(100, axis(255)), "100% (255)");
    assert_eq!(text(&title_line(&state())), " DualSense calibration monitor Pad");
    assert_eq!(
        microphone_text(&state(), "-inf dB", 5),
        "Searching for the DualSense microphone...  RMS -inf dB  peak   5%"
    );
    assert!(footer().starts_with("m: mappings"));
}

#[test]
fn graphs_end_with_the_newest_level() {
    assert_eq!(graph_columns(0, 2), vec![None, None]);
    assert_eq!(graph_columns(2, 4), vec![None, None, Some(0), Some(1)]);
    assert_eq!(graph_columns(5, 3), vec![Some(2), Some(3), Some(4)]);
    assert!(graph_columns(5, 0).is_empty());
}

#[test]
fn overlays_keep_their_distance() {
    let screen = Area {
        x: 0,
        y: 1,
        width: 80,
        height: 3,
    };
    assert_eq!(
        overlay_area(screen),
        Area {
            x: 2,
            y: 3,
            width: 76,
            height: 0
        }
    );
    let far = Area {
        x: u16::MAX,
        y: u16::MAX - 1,
        width: 0,
        height: 5,
    };
    assert_eq!(
        overlay_area(far),
        Area {
            x: u16::MAX,
            y: u16::MAX,
            width: 0,
            height: 1
        }
    );
}

#[test]
fn mappings_are_listed() {
    let base = base_mapping_lines();
    assert_eq!(base.len(), 11);
    assert_eq!(active(&base[0]), vec!["BASE"]);
    assert_eq!(text(&base[1]), "△  Ctrl+U");
    assert_eq!(text(&base[10]), "L2 / R2  no mapping");
    let layers = layer_mapping_lines();
    assert_eq!(layers.len(), 14);
    assert_eq!(active(&layers[8]), vec!["STICKS"]);
    assert_eq!(text(&layers[3]), "R1 + ↑  P I Enter (sequence)");
}
