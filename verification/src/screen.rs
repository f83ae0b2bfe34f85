//! The texts of the status screen.
//!
//! Every part of the screen is a list of lines, and a line is a list of spans in
//! one of a few styles.

use crate::calibration::{AxisState, CalibrationSession, CalibrationView};
use crate::codes::{
    BTN_EAST, BTN_MODE, BTN_NORTH, BTN_SELECT, BTN_SOUTH, BTN_START, BTN_THUMBL, BTN_THUMBR,
    BTN_TL, BTN_TR, BTN_WEST,
};
use crate::state::{ControllerState, ControllerView};
use crate::text;
use vstd::prelude::*;
use vstd::string::*;

verus! {

/// How a span looks.
#[derive(Debug, Clone, Copy, PartialEq, Eq, Structural)]
pub enum SpanStyle {
    Plain,
    Active,
    Inactive,
    Heading,
}

/// A piece of text in one style.
#[derive(Debug, PartialEq, Eq)]
pub struct Span {
    pub text: String,
    pub style: SpanStyle,
}

/// A piece of text in one style, in mathematical terms.
#[verifier::ext_equal]
pub struct SpanView {
    pub text: Seq<char>,
    pub style: SpanStyle,
}

impl View for Span {
    type V = SpanView;

    open spec fn view(&self) -> SpanView {
        SpanView { text: self.text@, style: self.style }
    }
}

/// A line.
pub open spec fn line_view(line: Seq<Span>) -> Seq<SpanView> {
    line.map_values(|span: Span| span@)
}

/// A list of lines.
pub open spec fn lines_view(lines: Seq<Vec<Span>>) -> Seq<Seq<SpanView>> {
    lines.map_values(|line: Vec<Span>| line_view(line@))
}

/// A piece of plain text.
pub open spec fn plain(text: Seq<char>) -> SpanView {
    SpanView { text, style: SpanStyle::Plain }
}

/// A piece of text that stands out.
pub open spec fn active(text: Seq<char>) -> SpanView {
    SpanView { text, style: SpanStyle::Active }
}

/// A label that stands out while something is active.
pub open spec fn control(label: Seq<char>, is_active: bool) -> SpanView {
    SpanView {
        text: label,
        style: if is_active {
            SpanStyle::Active
        } else {
            SpanStyle::Inactive
        },
    }
}

/// A label that stands out while something is active.
pub fn control_span(label: &str, is_active: bool) -> (span: Span)
    ensures
        span@ == control(label@, is_active),
{
    Span {
        text: label.to_owned(),
        style: if is_active {
            SpanStyle::Active
        } else {
            SpanStyle::Inactive
        },
    }
}

fn push_text(line: &mut Vec<Span>, text: &str, style: SpanStyle)
    ensures
        line_view(final(line)@) == line_view(old(line)@).push(SpanView { text: text@, style }),
{
    let span = Span { text: text.to_owned(), style };
    line.push(span);
    assert(line_view(line@) =~= line_view(old(line)@).push(span@));
}

fn push_control(line: &mut Vec<Span>, label: &str, is_active: bool)
    ensures
        line_view(final(line)@) == line_view(old(line)@).push(control(label@, is_active)),
{
    let span = control_span(label, is_active);
    line.push(span);
    assert(line_view(line@) =~= line_view(old(line)@).push(span@));
}

fn push_line(lines: &mut Vec<Vec<Span>>, line: Vec<Span>)
    ensures
        lines_view(final(lines)@) == lines_view(old(lines)@).push(line_view(line@)),
{
    lines.push(line);
    assert(lines_view(lines@) =~= lines_view(old(lines)@).push(line_view(line@)));
}

fn push_text_line(lines: &mut Vec<Vec<Span>>, text: &str, style: SpanStyle)
    ensures
        lines_view(final(lines)@) == lines_view(old(lines)@).push(
            seq![SpanView { text: text@, style }],
        ),
{
    let mut line: Vec<Span> = Vec::new();
    push_text(&mut line, text, style);
    assert(line_view(line@) =~= seq![SpanView { text: text@, style }]);
    push_line(lines, line);
}

/// The D-pad. The four arrows are on a common cross: left and right sit on the
/// same row, with the right arrow in the right-hand arm.
pub open spec fn dpad_picture(state: ControllerView) -> Seq<Seq<SpanView>> {
    seq![
        seq![plain("    "@), control("▲"@, state.up())],
        seq![
            plain("  "@),
            control("◀"@, state.left()),
            plain("   "@),
            control("▶"@, state.right()),
        ],
        seq![plain("    "@), control("▼"@, state.down())],
    ]
}

/// The D-pad.
pub fn dpad_lines(state: &ControllerState) -> (lines: Vec<Vec<Span>>)
    ensures
        lines_view(lines@) == dpad_picture(state@),
{
    let mut lines: Vec<Vec<Span>> = Vec::new();
    let mut line: Vec<Span> = Vec::new();
    push_text(&mut line, "    ", SpanStyle::Plain);
    push_control(&mut line, "▲", state.dpad_up());
    push_line(&mut lines, line);
    let mut line: Vec<Span> = Vec::new();
    push_text(&mut line, "  ", SpanStyle::Plain);
    push_control(&mut line, "◀", state.dpad_left());
    push_text(&mut line, "   ", SpanStyle::Plain);
    push_control(&mut line, "▶", state.dpad_right());
    push_line(&mut lines, line);
    let mut line: Vec<Span> = Vec::new();
    push_text(&mut line, "    ", SpanStyle::Plain);
    push_control(&mut line, "▼", state.dpad_down());
    push_line(&mut lines, line);
    assert(lines_view(lines@) =~~= dpad_picture(state@));
    lines
}

/// The face buttons.
pub open spec fn face_picture(state: ControllerView) -> Seq<Seq<SpanView>> {
    seq![
        seq![plain("        "@), control("△"@, state.buttons.contains(BTN_NORTH))],
        seq![
            plain("    "@),
            control("□"@, state.buttons.contains(BTN_WEST)),
            plain("       "@),
            control("○"@, state.buttons.contains(BTN_EAST)),
        ],
        seq![plain("        "@), control("×"@, state.buttons.contains(BTN_SOUTH))],
    ]
}

/// The face buttons.
pub fn face_button_lines(state: &ControllerState) -> (lines: Vec<Vec<Span>>)
    ensures
        lines_view(lines@) == face_picture(state@),
{
    let mut lines: Vec<Vec<Span>> = Vec::new();
    let mut line: Vec<Span> = Vec::new();
    push_text(&mut line, "        ", SpanStyle::Plain);
    push_control(&mut line, "△", state.pressed(BTN_NORTH));
    push_line(&mut lines, line);
    let mut line: Vec<Span> = Vec::new();
    push_text(&mut line, "    ", SpanStyle::Plain);
    push_control(&mut line, "□", state.pressed(BTN_WEST));
    push_text(&mut line, "       ", SpanStyle::Plain);
    push_control(&mut line, "○", state.pressed(BTN_EAST));
    push_line(&mut lines, line);
    let mut line: Vec<Span> = Vec::new();
    push_text(&mut line, "        ", SpanStyle::Plain);
    push_control(&mut line, "×", state.pressed(BTN_SOUTH));
    push_line(&mut lines, line);
    assert(lines_view(lines@) =~~= face_picture(state@));
    lines
}

/// The buttons between the shoulders.
pub open spec fn center_controls(state: ControllerView) -> Seq<SpanView> {
    seq![
        control("Create"@, state.buttons.contains(BTN_SELECT)),
        plain("     "@),
        control("PS"@, state.buttons.contains(BTN_MODE)),
        plain("     "@),
        control("Options"@, state.buttons.contains(BTN_START)),
    ]
}

/// The buttons between the shoulders.
pub fn center_line(state: &ControllerState) -> (line: Vec<Span>)
    ensures
        line_view(line@) == center_controls(state@),
{
    let mut line: Vec<Span> = Vec::new();
    push_control(&mut line, "Create", state.pressed(BTN_SELECT));
    push_text(&mut line, "     ", SpanStyle::Plain);
    push_control(&mut line, "PS", state.pressed(BTN_MODE));
    push_text(&mut line, "     ", SpanStyle::Plain);
    push_control(&mut line, "Options", state.pressed(BTN_START));
    assert(line_view(line@) =~= center_controls(state@));
    line
}

/// A side of the controller.
#[derive(Debug, Clone, Copy, PartialEq, Eq, Structural)]
pub enum Side {
    Left,
    Right,
}

/// The shoulder button of a side.
pub fn shoulder_span(side: Side, state: &ControllerState) -> (span: Span)
    ensures
        span@ == (match side {
            Side::Left => control("L1"@, state@.buttons.contains(BTN_TL)),
            Side::Right => control("R1"@, state@.buttons.contains(BTN_TR)),
        }),
{
    match side {
        Side::Left => control_span("L1", state.pressed(BTN_TL)),
        Side::Right => control_span("R1", state.pressed(BTN_TR)),
    }
}

/// The title over a stick: whether the stick is pressed in.
pub open spec fn stick_heading(side: Side, state: ControllerView) -> Seq<char> {
    let (name, code) = match side {
        Side::Left => ("Left stick  [L3 "@, BTN_THUMBL),
        Side::Right => ("Right stick  [R3 "@, BTN_THUMBR),
    };
    name + (if state.buttons.contains(code) {
        "●"@
    } else {
        "○"@
    }) + "]"@
}

/// The title over a stick.
pub fn stick_title(side: Side, state: &ControllerState) -> (title: String)
    ensures
        title@ == stick_heading(side, state@),
{
    let pressed: bool = match side {
        Side::Left => state.pressed(BTN_THUMBL),
        Side::Right => state.pressed(BTN_THUMBR),
    };
    let mark = if pressed {
        "●"
    } else {
        "○"
    };
    let mut title = match side {
        Side::Left => text::joined("Left stick  [L3 ", mark),
        Side::Right => text::joined("Right stick  [R3 ", mark),
    };
    title.append("]");
    title
}

/// The value between `low` and `high` that is nearest to `n`.
pub open spec fn between(n: int, low: int, high: int) -> int {
    if n < low {
        low
    } else if n > high {
        high
    } else {
        n
    }
}

/// The size of a stick's plot in an area: it fits small terminals too.
pub fn plot_size(width: u16, height: u16) -> (size: (usize, usize))
    ensures
        size.0 == between(width - 2, 5, 13),
        size.1 == between(height - 3, 3, 9),
{
    let columns: usize = if width < 7 {
        5
    } else if width > 15 {
        13
    } else {
        width as usize - 2
    };
    let rows: usize = if height < 6 {
        3
    } else if height > 12 {
        9
    } else {
        height as usize - 3
    };
    (columns, rows)
}

/// A stick's plot: its size, and the place where the stick is.
#[derive(Debug, Clone, Copy, PartialEq, Eq, Structural)]
pub struct Plot {
    pub width: usize,
    pub height: usize,
    pub column: usize,
    pub row: usize,
}

impl Plot {
    /// A place of the plot.
    pub open spec fn place(self, row: int, column: int) -> SpanView {
        if row == self.row && column == self.column {
            active("●"@)
        } else if row == self.height / 2 && column == self.width / 2 {
            control("+"@, false)
        } else {
            control("·"@, false)
        }
    }

    /// A row of the plot.
    pub open spec fn row_picture(self, row: int) -> Seq<SpanView> {
        Seq::new(self.width as nat, |column: int| self.place(row, column))
    }

    /// The plot and, under it, the values of the axes.
    pub open spec fn picture(self, x: i32, y: i32) -> Seq<Seq<SpanView>> {
        Seq::new(self.height as nat, |row: int| self.row_picture(row)).push(
            seq![plain(axis_text(x, y))],
        )
    }
}

/// The values of a stick's axes.
pub open spec fn axis_text(x: i32, y: i32) -> Seq<char> {
    "X "@ + text::right_aligned(text::with_sign(x as int), 6) + "  Y "@ + text::right_aligned(
        text::with_sign(y as int),
        6,
    )
}

fn describe_axes(x: i32, y: i32) -> (s: String)
    ensures
        s@ == axis_text(x, y),
{
    let x_text = text::right_align(text::with_sign_text(x).as_str(), 6);
    let y_text = text::right_align(text::with_sign_text(y).as_str(), 6);
    let mut s = text::joined("X ", x_text.as_str());
    s.append("  Y ");
    s.append(y_text.as_str());
    s
}

/// A stick's plot and, under it, the values of its axes.
pub fn stick_lines(plot: Plot, x: AxisState, y: AxisState) -> (lines: Vec<Vec<Span>>)
    ensures
        lines_view(lines@) == plot.picture(x.value, y.value),
{
    let mut lines: Vec<Vec<Span>> = Vec::new();
    let mut row: usize = 0;
    while row < plot.height
        invariant
            row <= plot.height,
            lines_view(lines@) == Seq::new(row as nat, |r: int| plot.row_picture(r)),
        decreases plot.height - row,
    {
        let mut line: Vec<Span> = Vec::new();
        let mut column: usize = 0;
        while column < plot.width
            invariant
                column <= plot.width,
                line_view(line@) == Seq::new(column as nat, |c: int| plot.place(row as int, c)),
            decreases plot.width - column,
        {
            if row == plot.row && column == plot.column {
                push_text(&mut line, "●", SpanStyle::Active);
            } else if row == plot.height / 2 && column == plot.width / 2 {
                push_text(&mut line, "+", SpanStyle::Inactive);
            } else {
                push_text(&mut line, "·", SpanStyle::Inactive);
            }
            column = column + 1;
            assert(line_view(line@) =~= Seq::new(
                column as nat,
                |c: int| plot.place(row as int, c),
            ));
        }
        assert(line_view(line@) =~= plot.row_picture(row as int));
        push_line(&mut lines, line);
        row = row + 1;
        assert(lines_view(lines@) =~= Seq::new(row as nat, |r: int| plot.row_picture(r)));
    }
    let values = describe_axes(x.value, y.value);
    push_text_line(&mut lines, values.as_str(), SpanStyle::Plain);
    assert(lines_view(lines@) =~= plot.picture(x.value, y.value));
    lines
}

/// What is said about calibration.
pub open spec fn calibration_text(state: ControllerView, calibration: Option<CalibrationView>) -> Seq<
    char,
> {
    match calibration {
        Some(session) => session.told(),
        None => match state.calibration_message {
            Some(message) => message,
            None => "Press c to calibrate sticks"@,
        },
    }
}

/// What is said about the light.
pub open spec fn light_text(state: ControllerView) -> Seq<char> {
    "Light: #"@ + text::hex_pair(state.light_rgb[0]) + text::hex_pair(state.light_rgb[1])
        + text::hex_pair(state.light_rgb[2]) + " ("@ + state.light_status + ")"@
}

/// The status in the middle of the screen.
pub open spec fn status_picture(state: ControllerView, calibration: Option<CalibrationView>) -> Seq<
    Seq<SpanView>,
> {
    seq![
        seq![SpanView { text: "LIVE INPUT"@, style: SpanStyle::Heading }],
        seq![plain(""@)],
        seq![plain("Device: "@ + state.path)],
        seq![plain(state.reader_error.unwrap_or("Reading input events..."@))],
        seq![plain(light_text(state))],
        seq![plain(calibration_text(state, calibration))],
    ]
}

/// The status in the middle of the screen.
pub fn center_info_lines(state: &ControllerState, calibration: Option<&CalibrationSession>) -> (lines:
    Vec<Vec<Span>>)
    ensures
        lines_view(lines@) == status_picture(
            state@,
            match calibration {
                Some(session) => Some(session@),
                None => None,
            },
        ),
{
    let mut lines: Vec<Vec<Span>> = Vec::new();
    push_text_line(&mut lines, "LIVE INPUT", SpanStyle::Heading);
    push_text_line(&mut lines, "", SpanStyle::Plain);
    let device = text::joined("Device: ", state.path());
    push_text_line(&mut lines, device.as_str(), SpanStyle::Plain);
    let reader = match state.reader_error() {
        Some(error) => error,
        None => "Reading input events...",
    };
    push_text_line(&mut lines, reader, SpanStyle::Plain);
    let rgb = state.light_rgb();
    let mut light = text::joined("Light: #", text::hex_text(rgb[0]).as_str());
    light.append(text::hex_text(rgb[1]).as_str());
    light.append(text::hex_text(rgb[2]).as_str());
    light.append(" (");
    light.append(state.light_status());
    light.append(")");
    push_text_line(&mut lines, light.as_str(), SpanStyle::Plain);
    let message = match calibration {
        Some(session) => session.status(),
        None => match state.calibration_message() {
            Some(message) => message.to_owned(),
            None => "Press c to calibrate sticks".to_owned(),
        },
    };
    push_text_line(&mut lines, message.as_str(), SpanStyle::Plain);
    proof {
        let expected = status_picture(
            state@,
            match calibration {
                Some(session) => Some(session@),
                None => None,
            },
        );
        assert(lines_view(lines@) =~~= expected);
    }
    lines
}

/// The label of a trigger: how far it is pressed, and the raw value.
pub fn trigger_label(percent: u16, axis: AxisState) -> (label: String)
    ensures
        label@ == text::right_aligned(text::decimal(percent as nat), 3) + "% ("@ + text::signed(
            axis.value as int,
        ) + ")"@,
{
    let number = text::decimal_text(percent as u64);
    let mut label = text::right_align(number.as_str(), 3);
    label.append("% (");
    label.append(text::signed_text(axis.value).as_str());
    label.append(")");
    label
}

/// The title of the screen.
pub fn title_line(state: &ControllerState) -> (line: Vec<Span>)
    ensures
        line_view(line@) == seq![
            SpanView { text: " DualSense calibration monitor "@, style: SpanStyle::Heading },
            plain(state@.name),
        ],
{
    let mut line: Vec<Span> = Vec::new();
    push_text(&mut line, " DualSense calibration monitor ", SpanStyle::Heading);
    push_text(&mut line, state.name(), SpanStyle::Plain);
    assert(line_view(line@) =~= seq![
        SpanView { text: " DualSense calibration monitor "@, style: SpanStyle::Heading },
        plain(state@.name),
    ]);
    line
}

/// The keys, at the bottom of the screen.
pub fn footer() -> (text: &'static str)
    ensures
        text@
            == "m: mappings  c: calibrate  Enter: advance/save  r/R g/G b/B: light -/+  0: off  q/Esc: exit"@,
{
    "m: mappings  c: calibrate  Enter: advance/save  r/R g/G b/B: light -/+  0: off  q/Esc: exit"
}

/// What is said about the microphone, given its level in words and its peak in
/// percent.
pub fn microphone_text(state: &ControllerState, level: &str, peak_percent: u16) -> (s: String)
    ensures
        s@ == state@.mic_status + "  RMS "@ + level@ + "  peak "@ + text::right_aligned(
            text::decimal(peak_percent as nat),
            3,
        ) + "%"@,
{
    let mut s = text::joined(state.mic_status(), "  RMS ");
    s.append(level);
    s.append("  peak ");
    let number = text::decimal_text(peak_percent as u64);
    s.append(text::right_align(number.as_str(), 3).as_str());
    s.append("%");
    s
}

/// The level that a column of the microphone's graph shows: the newest is in the
/// last column, and columns without a level are empty.
pub open spec fn graph_column(history: nat, width: nat, column: int) -> Option<int> {
    if column < width - history {
        None
    } else {
        Some(column - (width - history))
    }
}

/// The places of the levels that the columns of the microphone's graph show.
pub fn graph_columns(history: usize, width: usize) -> (columns: Vec<Option<usize>>)
    ensures
        columns@.len() == width,
        forall|column: int|
            0 <= column < width ==> match #[trigger] columns@[column] {
                Some(index) => graph_column(history as nat, width as nat, column) == Some(
                    index as int,
                ) && index < history,
                None => graph_column(history as nat, width as nat, column) is None,
            },
{
    let start: usize = if history > width {
        history - width
    } else {
        0
    };
    let missing: usize = if width > history {
        width - history
    } else {
        0
    };
    let mut columns: Vec<Option<usize>> = Vec::new();
    let mut column: usize = 0;
    while column < width
        invariant
            column <= width,
            columns@.len() == column,
            start == (if history > width {
                history - width
            } else {
                0
            }),
            missing == (if width > history {
                width - history
            } else {
                0
            }),
            forall|c: int|
                0 <= c < column ==> match #[trigger] columns@[c] {
                    Some(index) => graph_column(history as nat, width as nat, c) == Some(
                        index as int,
                    ) && index < history,
                    None => graph_column(history as nat, width as nat, c) is None,
                },
        decreases width - column,
    {
        if column < missing {
            columns.push(None);
        } else {
            columns.push(Some(start + (column - missing)));
        }
        column = column + 1;
    }
    columns
}

/// A rectangle of the terminal.
#[derive(Debug, Clone, Copy, PartialEq, Eq, Structural)]
pub struct Area {
    pub x: u16,
    pub y: u16,
    pub width: u16,
    pub height: u16,
}

/// Where the mappings are shown: two cells away from every edge of the screen.
pub fn overlay_area(screen: Area) -> (popup: Area)
    ensures
        popup.x == between(screen.x + 2, 0, u16::MAX as int),
        popup.y == between(screen.y + 2, 0, u16::MAX as int),
        popup.width == between(screen.width - 4, 0, u16::MAX as int),
        popup.height == between(screen.height - 4, 0, u16::MAX as int),
{
    Area {
        x: screen.x.saturating_add(2),
        y: screen.y.saturating_add(2),
        width: screen.width.saturating_sub(4),
        height: screen.height.saturating_sub(4),
    }
}

/// The left half of the mappings.
pub open spec fn base_mappings() -> Seq<Seq<SpanView>> {
    seq![
        seq![active("BASE"@)],
        seq![plain("△  Ctrl+U"@)],
        seq![plain("×  Ctrl+E"@)],
        seq![plain("□  no mapping"@)],
        seq![plain("○  no mapping"@)],
        seq![plain("D-pad ↑  Alt+↑"@)],
        seq![plain("D-pad ↓  Alt+↓"@)],
        seq![plain("D-pad ←  Alt+←"@)],
        seq![plain("D-pad →  Alt+→"@)],
        seq![plain("L1 / R1  layer modifiers"@)],
        seq![plain("L2 / R2  no mapping"@)],
    ]
}

/// The left half of the mappings.
pub fn base_mapping_lines() -> (lines: Vec<Vec<Span>>)
    ensures
        lines_view(lines@) == base_mappings(),
{
    let mut lines: Vec<Vec<Span>> = Vec::new();
    push_text_line(&mut lines, "BASE", SpanStyle::Active);
    push_text_line(&mut lines, "△  Ctrl+U", SpanStyle::Plain);
    push_text_line(&mut lines, "×  Ctrl+E", SpanStyle::Plain);
    push_text_line(&mut lines, "□  no mapping", SpanStyle::Plain);
    push_text_line(&mut lines, "○  no mapping", SpanStyle::Plain);
    push_text_line(&mut lines, "D-pad ↑  Alt+↑", SpanStyle::Plain);
    push_text_line(&mut lines, "D-pad ↓  Alt+↓", SpanStyle::Plain);
    push_text_line(&mut lines, "D-pad ←  Alt+←", SpanStyle::Plain);
    push_text_line(&mut lines, "D-pad →  Alt+→", SpanStyle::Plain);
    push_text_line(&mut lines, "L1 / R1  layer modifiers", SpanStyle::Plain);
    push_text_line(&mut lines, "L2 / R2  no mapping", SpanStyle::Plain);
    assert(lines_view(lines@) =~~= base_mappings());
    lines
}

/// The right half of the mappings.
pub open spec fn layer_mappings() -> Seq<Seq<SpanView>> {
    seq![
        seq![active("LAYERS"@)],
        seq![plain("L1 + □  N    L1 + ○  I"@)],
        seq![plain("L1 + △  U    L1 + ×  E"@)],
        seq![plain("R1 + ↑  P I Enter (sequence)"@)],
        seq![plain("R1 + ↓  Ctrl+W"@)],
        seq![plain("R1 + ←  Alt+G"@)],
        seq![plain("R1 + →  Ctrl+T"@)],
        seq![plain("Hold ○  voice input (green); release types text"@)],
        seq![active("STICKS"@)],
        seq![plain("Left stick  Meta+N/I/U/E"@)],
        seq![plain("R1 + left stick  Meta+←/→/U/E"@)],
        seq![plain("Right stick  mouse scroll"@)],
        seq![plain("L3 / R3, triggers, Create/PS/Options: none"@)],
        seq![plain("Targets use logical QWERTY; Colemak compensation applies."@)],
    ]
}

/// The right half of the mappings.
pub fn layer_mapping_lines() -> (lines: Vec<Vec<Span>>)
    ensures
        lines_view(lines@) == layer_mappings(),
{
    let mut lines: Vec<Vec<Span>> = Vec::new();
    push_text_line(&mut lines, "LAYERS", SpanStyle::Active);
    push_text_line(&mut lines, "L1 + □  N    L1 + ○  I", SpanStyle::Plain);
    push_text_line(&mut lines, "L1 + △  U    L1 + ×  E", SpanStyle::Plain);
    push_text_line(&mut lines, "R1 + ↑  P I Enter (sequence)", SpanStyle::Plain);
    push_text_line(&mut lines, "R1 + ↓  Ctrl+W", SpanStyle::Plain);
    push_text_line(&mut lines, "R1 + ←  Alt+G", SpanStyle::Plain);
    push_text_line(&mut lines, "R1 + →  Ctrl+T", SpanStyle::Plain);
    push_text_line(&mut lines, "Hold ○  voice input (green); release types text", SpanStyle::Plain);
    push_text_line(&mut lines, "STICKS", SpanStyle::Active);
    push_text_line(&mut lines, "Left stick  Meta+N/I/U/E", SpanStyle::Plain);
    push_text_line(&mut lines, "R1 + left stick  Meta+←/→/U/E", SpanStyle::Plain);
    push_text_line(&mut lines, "Right stick  mouse scroll", SpanStyle::Plain);
    push_text_line(&mut lines, "L3 / R3, triggers, Create/PS/Options: none", SpanStyle::Plain);
    push_text_line(&mut lines, "Targets use logical QWERTY; Colemak compensation applies.", SpanStyle::Plain);
    assert(lines_view(lines@) =~~= layer_mappings());
    lines
}

/// The plot marks one place: where the stick is.
pub proof fn law_plot_marks_one_place(plot: Plot, row: int, column: int)
    requires
        0 <= row < plot.height,
        0 <= column < plot.width,
    ensures
        plot.row_picture(row)[column].style == SpanStyle::Active <==> row == plot.row && column
            == plot.column,
{
}

/// The graph ends with the newest level, and shows every older one next to the
/// one that followed it.
pub proof fn law_graph_ends_with_the_newest(history: nat, width: nat, column: int)
    requires
        history > 0,
        width > 0,
    ensures
        graph_column(history, width, width - 1) == Some(history - 1),
        0 <= column < width - 1 ==> (graph_column(history, width, column) matches Some(index)
            ==> graph_column(history, width, column + 1) == Some(index + 1)),
{
}

} // verus!
