//! What is shown and printed, said of what it is about.

use crate::calibration::CalibrationView;
use crate::cli::{
    button_word, device_text, event_line, means_off, requested_color, tagged, truth, voice_line,
};
use crate::codes::{
    InputEvent, KeyCode, BTN_DPAD_DOWN, BTN_DPAD_LEFT, BTN_DPAD_RIGHT, BTN_DPAD_UP, BTN_EAST,
    BTN_MODE, BTN_NORTH, BTN_SELECT, BTN_SOUTH, BTN_START, BTN_THUMBL, BTN_THUMBR, BTN_WEST,
    EV_ABS, EV_KEY, ABS_HAT0X, ABS_HAT0Y, KEY_DOWN, KEY_ENTER, KEY_LEFT, KEY_LEFTALT,
    KEY_LEFTCTRL, KEY_LEFTMETA, KEY_LEFTSHIFT, KEY_RIGHT, KEY_SPACE, KEY_TAB, KEY_UP,
};
use crate::input::{Button, ButtonState, ControllerEventKind, Stick};
use crate::keyboard_laws::{default_action, left_stick, us_character};
use crate::keymap::{
    first_binding, join, key_label_spec, label_of_action, label_of_key, label_of_stroke,
    stroke_labels, without_prefix, ActionView, Binding, ControllerInput, Direction, Keymap,
    StrokeView,
};
use crate::light::named_color;
use crate::outputs::OutputView;
use crate::screen::{
    axis_text, base_mappings, between, calibration_text, center_controls, control,
    dpad_picture, face_picture, graph_column, layer_mappings, light_text, plain, stick_heading,
    status_picture, Plot, Side, SpanStyle, SpanView,
};
use crate::state::ControllerView;
use crate::text;
use crate::text_laws::law_aligned_texts_end_with_the_text;
use vstd::prelude::*;

verus! {

/// A button goes down, or comes up.
pub open spec fn pushed(code: KeyCode, down: bool) -> InputEvent {
    InputEvent {
        event_type: EV_KEY,
        code,
        value: if down {
            1
        } else {
            0
        },
    }
}

/// The symbol lights up while something is down.
pub open spec fn shows(span: SpanView, symbol: Seq<char>, down: bool) -> bool {
    &&& span.text == symbol
    &&& span.style == SpanStyle::Active <==> down
    &&& span.style == SpanStyle::Inactive <==> !down
}

/// Each face button lights its own symbol up while it is down: the triangle above,
/// the square and the circle to the left and the right, the cross below.
pub proof fn law_face_buttons_light_their_symbols(view: ControllerView, down: bool)
    ensures
        shows(face_picture(view.applied(pushed(BTN_NORTH, down)))[0][1], "△"@, down),
        shows(face_picture(view.applied(pushed(BTN_WEST, down)))[1][1], "□"@, down),
        shows(face_picture(view.applied(pushed(BTN_EAST, down)))[1][3], "○"@, down),
        shows(face_picture(view.applied(pushed(BTN_SOUTH, down)))[2][1], "×"@, down),
        face_picture(view.applied(pushed(BTN_NORTH, down)))[1] == face_picture(view)[1],
        face_picture(view.applied(pushed(BTN_NORTH, down)))[2] == face_picture(view)[2],
        face_picture(view.applied(pushed(BTN_SOUTH, down)))[0] == face_picture(view)[0],
        face_picture(view.applied(pushed(BTN_SOUTH, down)))[1] == face_picture(view)[1],
        face_picture(view.applied(pushed(BTN_WEST, down)))[1][3] == face_picture(view)[1][3],
        face_picture(view.applied(pushed(BTN_EAST, down)))[1][1] == face_picture(view)[1][1],
{
}

/// The buttons in the middle light up their names.
pub proof fn law_middle_buttons_light_their_names(view: ControllerView, down: bool)
    ensures
        shows(center_controls(view.applied(pushed(BTN_SELECT, down)))[0], "Create"@, down),
        shows(center_controls(view.applied(pushed(BTN_MODE, down)))[2], "PS"@, down),
        shows(center_controls(view.applied(pushed(BTN_START, down)))[4], "Options"@, down),
        center_controls(view.applied(pushed(BTN_SELECT, down)))[2] == center_controls(view)[2],
        center_controls(view.applied(pushed(BTN_SELECT, down)))[4] == center_controls(view)[4],
        center_controls(view.applied(pushed(BTN_START, down)))[0] == center_controls(view)[0],
        center_controls(view.applied(pushed(BTN_START, down)))[2] == center_controls(view)[2],
{
}

/// The arrows of the D-pad stand where they point to and light up while the D-pad
/// is pressed there, by a key or by the hat.
pub proof fn law_dpad_lights_its_arrows(view: ControllerView, value: i32)
    ensures
        shows(dpad_picture(view.applied(pushed(BTN_DPAD_UP, true)))[0][1], "▲"@, true),
        shows(dpad_picture(view.applied(pushed(BTN_DPAD_LEFT, true)))[1][1], "◀"@, true),
        shows(dpad_picture(view.applied(pushed(BTN_DPAD_RIGHT, true)))[1][3], "▶"@, true),
        shows(dpad_picture(view.applied(pushed(BTN_DPAD_DOWN, true)))[2][1], "▼"@, true),
        shows(dpad_picture(view.applied(pushed(KEY_UP, true)))[0][1], "▲"@, true),
        shows(dpad_picture(view.applied(pushed(KEY_LEFT, true)))[1][1], "◀"@, true),
        shows(dpad_picture(view.applied(pushed(KEY_RIGHT, true)))[1][3], "▶"@, true),
        shows(dpad_picture(view.applied(pushed(KEY_DOWN, true)))[2][1], "▼"@, true),
        view.buttons == Set::<KeyCode>::empty() ==> {
            let across = dpad_picture(
                view.applied(InputEvent { event_type: EV_ABS, code: ABS_HAT0X, value }),
            );
            let along = dpad_picture(
                view.applied(InputEvent { event_type: EV_ABS, code: ABS_HAT0Y, value }),
            );
            &&& shows(across[1][1], "◀"@, value < 0)
            &&& shows(across[1][3], "▶"@, value > 0)
            &&& shows(along[0][1], "▲"@, value < 0)
            &&& shows(along[2][1], "▼"@, value > 0)
        },
{
}

/// A stick's title tells whether it is pressed in.
pub proof fn law_titles_tell_whether_a_stick_is_pressed(view: ControllerView, down: bool)
    ensures
        stick_heading(Side::Left, view.applied(pushed(BTN_THUMBL, down)))
            == "Left stick  [L3 "@ + (if down {
            "●"@
        } else {
            "○"@
        }) + "]"@,
        stick_heading(Side::Right, view.applied(pushed(BTN_THUMBR, down)))
            == "Right stick  [R3 "@ + (if down {
            "●"@
        } else {
            "○"@
        }) + "]"@,
        stick_heading(Side::Left, view.applied(pushed(BTN_THUMBR, down))) == stick_heading(
            Side::Left,
            view,
        ),
        stick_heading(Side::Right, view.applied(pushed(BTN_THUMBL, down))) == stick_heading(
            Side::Right,
            view,
        ),
{
}

/// The nearest value of a range lies in it, and is the value itself if that does.
pub proof fn law_nearest_value_of_a_range(n: int, low: int, high: int, other: int)
    requires
        low <= high,
    ensures
        low <= between(n, low, high) <= high,
        low <= n <= high ==> between(n, low, high) == n,
        low <= other <= high && n < low ==> between(n, low, high) - n <= other - n,
        low <= other <= high && n > high ==> n - between(n, low, high) <= n - other,
{
}

/// The cross of a plot stands in the middle: as far from the left as from the
/// right, and as far from the top as from the bottom. It is seen unless the stick
/// is there.
pub proof fn law_cross_stands_in_the_middle(plot: Plot, row: int, column: int)
    requires
        plot.width % 2 == 1,
        plot.height % 2 == 1,
        0 <= row < plot.height,
        0 <= column < plot.width,
    ensures
        plot.place(plot.row as int, plot.column as int).text == "●"@,
        row == plot.height - 1 - row && column == plot.width - 1 - column && !(row == plot.row
            && column == plot.column) ==> plot.place(row, column).text == "+"@,
        (row != plot.height - 1 - row || column != plot.width - 1 - column) && !(row == plot.row
            && column == plot.column) ==> plot.place(row, column).text == "·"@,
        plot.picture(0, 0).len() == plot.height + 1,
        plot.picture(0, 0)[row].len() == plot.width,
        plot.picture(0, 0)[row][column] == plot.place(row, column),
{
    assert(plot.picture(0, 0)[row] == plot.row_picture(row));
}

/// Under a plot stand the values of the two axes, each with its sign and filled up
/// with spaces to six characters.
pub proof fn law_axis_values_are_shown(x: i32, y: i32, plot: Plot)
    ensures
        ({
            let left = text::right_aligned(text::with_sign(x as int), 6);
            let right = text::right_aligned(text::with_sign(y as int), 6);
            &&& axis_text(x, y) == seq!['X', ' '] + left + seq![' ', ' ', 'Y', ' '] + right
            &&& left.skip(left.len() - text::with_sign(x as int).len()) == text::with_sign(x as int)
            &&& right.skip(right.len() - text::with_sign(y as int).len()) == text::with_sign(
                y as int,
            )
            &&& plot.picture(x, y).last() == seq![plain(axis_text(x, y))]
        }),
{
    reveal_strlit("X ");
    reveal_strlit("  Y ");
    assert("X "@ =~= seq!['X', ' ']);
    assert("  Y "@ =~= seq![' ', ' ', 'Y', ' ']);
    law_aligned_texts_end_with_the_text(text::with_sign(x as int), 6, 0);
    law_aligned_texts_end_with_the_text(text::with_sign(y as int), 6, 0);
}

/// The status tells the device, the error of the reader if there is one, the colour
/// of the light in a form that can be read back, and what there is to say about
/// calibration: of one that is under way, else of the last one, else how to begin
/// one.
pub proof fn law_status_tells_everything(
    view: ControllerView,
    session: CalibrationView,
    message: Seq<char>,
)
    ensures
        status_picture(view, None)[2][0].text == "Device: "@ + view.path,
        status_picture(view, None)[3][0].text == (match view.reader_error {
            Some(error) => error,
            None => "Reading input events..."@,
        }),
        status_picture(view, None)[4][0].text == light_text(view),
        named_color(light_text(view).subrange(7, 14)) == Some(
            (view.light_rgb[0], view.light_rgb[1], view.light_rgb[2]),
        ),
        light_text(view).skip(14) == " ("@ + view.light_status + ")"@,
        status_picture(view, Some(session))[5][0].text == session.told(),
        status_picture(view, None)[5][0].text == calibration_text(view, None),
        view.calibration_message is None ==> calibration_text(view, None)
            == "Press c to calibrate sticks"@,
        view.calibration_message == Some(message) ==> calibration_text(view, None) == message,
{
    reveal_strlit("Light: #");
    let digits = text::hex_pair(view.light_rgb[0]) + text::hex_pair(view.light_rgb[1])
        + text::hex_pair(view.light_rgb[2]);
    crate::light::law_written_color_is_read_back(
        digits,
        view.light_rgb[0],
        view.light_rgb[1],
        view.light_rgb[2],
    );
    assert(digits[0] == text::hex_pair(view.light_rgb[0])[0]);
    crate::light::law_number_sign_makes_no_difference(digits);
    assert(light_text(view).subrange(7, 14) =~= seq!['#'] + digits);
    assert(light_text(view).skip(14) =~= " ("@ + view.light_status + ")"@);
}

/// The graph shows as many of the newest levels as it has columns, and leaves the
/// columns that it has too many empty, on the left.
pub proof fn law_graph_shows_the_newest_levels(history: nat, width: nat, column: int)
    requires
        0 <= column < width,
    ensures
        graph_column(history, width, column) is None <==> column + history < width,
        graph_column(history, width, column) matches Some(index) ==> 0 <= index < history && width
            - column == history - index,
{
}

/// How a key is written where mappings are listed.
pub open spec fn key_sign(key: KeyCode) -> Seq<char> {
    if key == KEY_LEFTCTRL {
        "Ctrl"@
    } else if key == KEY_LEFTALT {
        "Alt"@
    } else if key == KEY_LEFTMETA {
        "Meta"@
    } else if key == KEY_ENTER {
        "Enter"@
    } else if key == KEY_UP {
        "↑"@
    } else if key == KEY_DOWN {
        "↓"@
    } else if key == KEY_LEFT {
        "←"@
    } else if key == KEY_RIGHT {
        "→"@
    } else {
        match us_character(key, true) {
            Some(c) => seq![c],
            None => Seq::empty(),
        }
    }
}

/// How a stroke is written where mappings are listed.
pub open spec fn stroke_sign(stroke: StrokeView) -> Seq<char> {
    if stroke.modifiers.len() == 1 {
        key_sign(stroke.modifiers[0]) + "+"@ + key_sign(stroke.key)
    } else {
        key_sign(stroke.key)
    }
}

/// How an action is written where mappings are listed.
pub open spec fn action_sign(action: Option<ActionView>) -> Seq<char> {
    match action {
        Some(ActionView::Stroke(stroke)) => stroke_sign(stroke),
        Some(ActionView::Sequence(strokes)) => if strokes.len() == 3 {
            stroke_sign(strokes[0]) + " "@ + stroke_sign(strokes[1]) + " "@ + stroke_sign(
                strokes[2],
            )
        } else {
            Seq::empty()
        },
        _ => "no mapping"@,
    }
}

/// The action of a button by default.
pub open spec fn button_action(button: Button, l1: bool, r1: bool) -> Option<ActionView> {
    default_action(ControllerInput::Button(button), l1, r1)
}

/// The list of the base mappings tells what the default profile does with the
/// triangle, the cross, the circle, the D-pad and the triggers.
pub proof fn law_listed_mappings_are_the_default_ones()
    ensures
        base_mappings()[1][0].text == "△  "@ + action_sign(
            button_action(Button::North, false, false),
        ),
        base_mappings()[2][0].text == "×  "@ + action_sign(
            button_action(Button::South, false, false),
        ),
        base_mappings()[4][0].text == "○  "@ + action_sign(
            button_action(Button::East, false, false),
        ),
        base_mappings()[5][0].text == "D-pad ↑  "@ + action_sign(
            button_action(Button::DpadUp, false, false),
        ),
        base_mappings()[6][0].text == "D-pad ↓  "@ + action_sign(
            button_action(Button::DpadDown, false, false),
        ),
        base_mappings()[7][0].text == "D-pad ←  "@ + action_sign(
            button_action(Button::DpadLeft, false, false),
        ),
        base_mappings()[8][0].text == "D-pad →  "@ + action_sign(
            button_action(Button::DpadRight, false, false),
        ),
        base_mappings()[10][0].text == "L2 / R2  "@ + action_sign(
            button_action(Button::L2, false, false),
        ),
{
    reveal_strlit("△  ");
    reveal_strlit("×  ");
    reveal_strlit("○  ");
    reveal_strlit("D-pad ↑  ");
    reveal_strlit("D-pad ↓  ");
    reveal_strlit("D-pad ←  ");
    reveal_strlit("D-pad →  ");
    reveal_strlit("L2 / R2  ");
    reveal_strlit("△  Ctrl+U");
    reveal_strlit("×  Ctrl+E");
    reveal_strlit("○  no mapping");
    reveal_strlit("D-pad ↑  Alt+↑");
    reveal_strlit("D-pad ↓  Alt+↓");
    reveal_strlit("D-pad ←  Alt+←");
    reveal_strlit("D-pad →  Alt+→");
    reveal_strlit("L2 / R2  no mapping");
    reveal_strlit("Ctrl");
    reveal_strlit("Alt");
    reveal_strlit("+");
    reveal_strlit("↑");
    reveal_strlit("↓");
    reveal_strlit("←");
    reveal_strlit("→");
    reveal_strlit("no mapping");
}

/// The list of the layers tells what the default profile does while L1 or R1 is
/// held.
pub proof fn law_listed_layers_are_the_default_ones()
    ensures
        layer_mappings()[1][0].text == "L1 + □  "@ + action_sign(
            button_action(Button::West, true, false),
        ) + "    L1 + ○  "@ + action_sign(button_action(Button::East, true, false)),
        layer_mappings()[2][0].text == "L1 + △  "@ + action_sign(
            button_action(Button::North, true, false),
        ) + "    L1 + ×  "@ + action_sign(button_action(Button::South, true, false)),
        layer_mappings()[3][0].text == "R1 + ↑  "@ + action_sign(
            button_action(Button::DpadUp, false, true),
        ) + " (sequence)"@,
        layer_mappings()[4][0].text == "R1 + ↓  "@ + action_sign(
            button_action(Button::DpadDown, false, true),
        ),
        layer_mappings()[5][0].text == "R1 + ←  "@ + action_sign(
            button_action(Button::DpadLeft, false, true),
        ),
        layer_mappings()[6][0].text == "R1 + →  "@ + action_sign(
            button_action(Button::DpadRight, false, true),
        ),
{
    reveal_strlit("L1 + □  ");
    reveal_strlit("    L1 + ○  ");
    reveal_strlit("L1 + △  ");
    reveal_strlit("    L1 + ×  ");
    reveal_strlit("R1 + ↑  ");
    reveal_strlit(" (sequence)");
    reveal_strlit("R1 + ↓  ");
    reveal_strlit("R1 + ←  ");
    reveal_strlit("R1 + →  ");
    reveal_strlit("L1 + □  N    L1 + ○  I");
    reveal_strlit("L1 + △  U    L1 + ×  E");
    reveal_strlit("R1 + ↑  P I Enter (sequence)");
    reveal_strlit("R1 + ↓  Ctrl+W");
    reveal_strlit("R1 + ←  Alt+G");
    reveal_strlit("R1 + →  Ctrl+T");
    reveal_strlit("Ctrl");
    reveal_strlit("Alt");
    reveal_strlit("Enter");
    reveal_strlit("+");
    reveal_strlit(" ");
}

/// The stroke of an action that holds one.
pub open spec fn held_stroke(action: Option<ActionView>) -> StrokeView {
    match action {
        Some(ActionView::Stroke(stroke)) => stroke,
        _ => StrokeView { modifiers: Seq::empty(), key: 0 },
    }
}

/// The keys of the four directions of the left stick, in the order left, right, up,
/// down.
pub open spec fn stick_signs(r1: bool) -> Seq<char> {
    key_sign(held_stroke(default_action(left_stick(Direction::Left), false, r1)).key) + "/"@
        + key_sign(held_stroke(default_action(left_stick(Direction::Right), false, r1)).key) + "/"@
        + key_sign(held_stroke(default_action(left_stick(Direction::Up), false, r1)).key) + "/"@
        + key_sign(held_stroke(default_action(left_stick(Direction::Down), false, r1)).key)
}

/// The list of the stick mappings tells what the default profile does with the left
/// stick.
pub proof fn law_listed_sticks_are_the_default_ones()
    ensures
        layer_mappings()[9][0].text == "Left stick  Meta+"@ + stick_signs(false),
        layer_mappings()[10][0].text == "R1 + left stick  Meta+"@ + stick_signs(true),
        forall|direction: Direction, r1: bool|
            (#[trigger] held_stroke(default_action(left_stick(direction), false, r1))).modifiers
                == seq![KEY_LEFTMETA],
{
    reveal_strlit("Left stick  Meta+");
    reveal_strlit("R1 + left stick  Meta+");
    reveal_strlit("Left stick  Meta+N/I/U/E");
    reveal_strlit("R1 + left stick  Meta+←/→/U/E");
    reveal_strlit("/");
    reveal_strlit("←");
    reveal_strlit("→");
}

/// Eleven keys have a label of their own; every other key is called as evdev calls
/// it, without the `KEY_` in front.
pub proof fn law_keys_have_their_labels(key: KeyCode, name: Seq<char>)
    requires
        !"KEY_"@.is_prefix_of(name),
    ensures
        key_label_spec(KEY_LEFTCTRL, name) == "Ctrl"@,
        key_label_spec(KEY_LEFTALT, name) == "Alt"@,
        key_label_spec(KEY_LEFTMETA, name) == "Meta"@,
        key_label_spec(KEY_LEFTSHIFT, name) == "Shift"@,
        key_label_spec(KEY_ENTER, name) == "Enter"@,
        key_label_spec(KEY_SPACE, name) == "Space"@,
        key_label_spec(KEY_TAB, name) == "Tab"@,
        key_label_spec(KEY_LEFT, name) == "←"@,
        key_label_spec(KEY_RIGHT, name) == "→"@,
        key_label_spec(KEY_UP, name) == "↑"@,
        key_label_spec(KEY_DOWN, name) == "↓"@,
        ({
            let own = key == KEY_LEFTCTRL || key == KEY_LEFTALT || key == KEY_LEFTMETA || key
                == KEY_LEFTSHIFT || key == KEY_ENTER || key == KEY_SPACE || key == KEY_TAB || key
                == KEY_LEFT || key == KEY_RIGHT || key == KEY_UP || key == KEY_DOWN;
            !own ==> key_label_spec(key, name) == name && key_label_spec(key, "KEY_"@ + name)
                == name
        }),
{
    reveal_strlit("KEY_");
    let full = "KEY_"@ + name;
    assert(full.take(4) =~= "KEY_"@);
    assert(full.skip(4) =~= name);
    assert(without_prefix(full, "KEY_"@) == without_prefix(name, "KEY_"@));
}

/// The labels of a combination stand in the order in which its keys are pressed,
/// with a plus sign between each two; those of a sequence have a space between
/// them.
pub proof fn law_labels_are_put_together(
    modifiers: Seq<KeyCode>,
    modifier: KeyCode,
    key: KeyCode,
    strokes: Seq<StrokeView>,
    stroke: StrokeView,
)
    ensures
        label_of_stroke(StrokeView { modifiers: Seq::empty(), key }) == label_of_key(key),
        label_of_stroke(StrokeView { modifiers: seq![modifier], key }) == label_of_key(modifier)
            + "+"@ + label_of_key(key),
        label_of_stroke(StrokeView { modifiers: modifiers.push(modifier), key })
            == label_of_stroke(StrokeView { modifiers, key: modifier }) + "+"@ + label_of_key(key),
        label_of_action(Some(ActionView::Stroke(stroke))) == label_of_stroke(stroke),
        label_of_action(Some(ActionView::Sequence(seq![stroke]))) == label_of_stroke(stroke),
        strokes.len() > 0 ==> label_of_action(Some(ActionView::Sequence(strokes.push(stroke))))
            == label_of_action(Some(ActionView::Sequence(strokes))) + " "@ + label_of_stroke(stroke),
        label_of_action(None) == "no mapping"@,
        label_of_action(Some(ActionView::Disabled)) == "disabled"@,
{
    let none = StrokeView { modifiers: Seq::empty(), key };
    assert(stroke_labels(none) =~= seq![label_of_key(key)]);
    let one = StrokeView { modifiers: seq![modifier], key };
    assert(stroke_labels(one) =~= seq![label_of_key(modifier), label_of_key(key)]);
    assert(stroke_labels(one).drop_last() =~= seq![label_of_key(modifier)]);
    assert(join(seq![label_of_key(modifier)], "+"@) == label_of_key(modifier));
    let more = StrokeView { modifiers: modifiers.push(modifier), key };
    let fewer = StrokeView { modifiers, key: modifier };
    assert(stroke_labels(more).drop_last() =~= stroke_labels(fewer));
    let labels = |all: Seq<StrokeView>| all.map_values(|s: StrokeView| label_of_stroke(s));
    assert(labels(seq![stroke]) =~= seq![label_of_stroke(stroke)]);
    assert(labels(strokes.push(stroke)).drop_last() =~= labels(strokes));
}

/// The binding of a control is the first that lists it; without one there is none.
/// Buttons are looked up among the buttons, stick directions among the sticks.
pub proof fn law_first_listing_counts(
    keymap: Keymap,
    bindings: Seq<Binding>,
    input: ControllerInput,
    i: int,
    button: Button,
    stick: Stick,
    direction: Direction,
)
    requires
        0 <= i <= bindings.len(),
        forall|k: int| 0 <= k < i ==> (#[trigger] bindings[k]).input != input,
    ensures
        i < bindings.len() && bindings[i].input == input ==> first_binding(bindings, input) == Some(
            bindings[i].action,
        ),
        i == bindings.len() ==> first_binding(bindings, input) is None,
        keymap.base(ControllerInput::Button(button)) == keymap.buttons@,
        keymap.base(ControllerInput::Stick { stick, direction }) == keymap.sticks@,
    decreases bindings.len(),
{
    if i > 0 {
        let rest = bindings.drop_first();
        assert(bindings[0].input != input);
        assert(forall|k: int| 0 <= k < rest.len() ==> rest[k] == bindings[k + 1]);
        law_first_listing_counts(keymap, rest, input, i - 1, button, stick, direction);
    }
}

/// `off` turns the light black, in whatever case; every other name is that of a
/// colour or of none.
pub proof fn law_off_is_black(name: Seq<char>)
    ensures
        text::lowered(name) == seq!['o', 'f', 'f'] ==> means_off(name) && requested_color(name)
            == Some((0u8, 0u8, 0u8)),
        text::lowered(name) != seq!['o', 'f', 'f'] ==> !means_off(name) && requested_color(name)
            == named_color(name),
{
    reveal_strlit("off");
    assert("off"@ =~= seq!['o', 'f', 'f']);
}

/// A line tells the device in brackets and then what there is to say.
pub proof fn law_lines_begin_with_the_device(path: Seq<char>, rest: Seq<char>)
    ensures
        tagged(path, rest) == seq!['['] + path + seq![']', ' '] + rest,
{
    reveal_strlit("[");
    reveal_strlit("] ");
    assert("["@ =~= seq!['[']);
    assert("] "@ =~= seq![']', ' ']);
}

/// A device is told by its path, its name and its numbers, in this order.
pub proof fn law_devices_are_told_in_one_line(path: Seq<char>, name: Seq<char>, id: Seq<char>)
    ensures
        device_text(path, name, id) == path + ": name="@ + name + ", id="@ + id,
        truth(true) == "true"@,
        truth(false) == "false"@,
{
}

/// What was said is printed, a transcript and a delta each under its own name;
/// messages go to the errors. Levels and colours are not printed.
pub proof fn law_voice_reports_are_printed(
    path: Seq<char>,
    words: Seq<char>,
    rms_bits: u32,
    peak_bits: u32,
    rgb: [u8; 3],
)
    ensures
        voice_line(path, OutputView::Transcript(words)) == Some(
            (tagged(path, "transcribed text: "@ + words), false),
        ),
        voice_line(path, OutputView::PartialTranscript(words)) == Some(
            (tagged(path, "transcribed partial: "@ + words), false),
        ),
        voice_line(path, OutputView::Status(words)) == Some((tagged(path, words), true)),
        voice_line(path, OutputView::MicSample { rms_bits, peak_bits }) is None,
        voice_line(path, OutputView::Light(rgb)) is None,
{
}

/// Buttons are printed, with their names and where they went; sticks and triggers
/// are not.
pub proof fn law_buttons_are_printed(path: Seq<char>, button: Button, kind: ControllerEventKind)
    ensures
        event_line(path, ControllerEventKind::Button { button, state: ButtonState::Down }) == Some(
            tagged(path, "button "@ + button_word(button) + " Down"@),
        ),
        event_line(path, ControllerEventKind::Button { button, state: ButtonState::Up }) == Some(
            tagged(path, "button "@ + button_word(button) + " Up"@),
        ),
        kind !is Button ==> event_line(path, kind) is None,
        button_word(Button::South) == "South"@,
        button_word(Button::East) == "East"@,
        button_word(Button::North) == "North"@,
        button_word(Button::West) == "West"@,
        button_word(Button::L1) == "L1"@,
        button_word(Button::R1) == "R1"@,
        button_word(Button::L2) == "L2"@,
        button_word(Button::R2) == "R2"@,
        button_word(Button::Create) == "Create"@,
        button_word(Button::Options) == "Options"@,
        button_word(Button::Ps) == "Ps"@,
        button_word(Button::L3) == "L3"@,
        button_word(Button::R3) == "R3"@,
        button_word(Button::DpadUp) == "DpadUp"@,
        button_word(Button::DpadDown) == "DpadDown"@,
        button_word(Button::DpadLeft) == "DpadLeft"@,
        button_word(Button::DpadRight) == "DpadRight"@,
{
}

} // verus!
