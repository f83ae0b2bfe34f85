//! What the keyboard mapper does, said of its results.
//!
//! The laws here relate what comes out of the mapper to what a user sees: which
//! controls hold which keys, which keys are down, and which text appears.

use crate::codes::{
    InputEvent, KeyCode, EV_KEY, EV_REL, REL_HWHEEL, REL_WHEEL,
    KEY_0, KEY_1, KEY_2, KEY_3, KEY_4, KEY_5, KEY_6, KEY_7, KEY_8, KEY_9, KEY_A,
    KEY_APOSTROPHE, KEY_B, KEY_BACKSLASH, KEY_C, KEY_COMMA, KEY_D, KEY_DOT, KEY_DOWN, KEY_E,
    KEY_ENTER, KEY_EQUAL, KEY_F, KEY_G, KEY_GRAVE, KEY_H, KEY_I, KEY_J, KEY_K, KEY_L,
    KEY_LEFT, KEY_LEFTALT, KEY_LEFTBRACE, KEY_LEFTCTRL, KEY_LEFTMETA, KEY_LEFTSHIFT, KEY_M,
    KEY_MINUS, KEY_N, KEY_O, KEY_P, KEY_Q, KEY_R, KEY_RIGHT, KEY_RIGHTBRACE, KEY_S,
    KEY_SEMICOLON, KEY_SLASH, KEY_SPACE, KEY_T, KEY_TAB, KEY_U, KEY_UP, KEY_V, KEY_W, KEY_X,
    KEY_Y, KEY_Z,
};
use crate::input::{Button, ButtonState, ControllerEventKind, Stick, StickAxis};
use crate::keyboard::{
    colemak, combo_events, down_after, key_for, law_batches_bring_the_held_combos_about,
    physical, physical_key, scroll_axis, typing_stroke, wheel_events, AxisZone, ComboView,
    EmissionView, MapperView,
};
use crate::keymap::{
    base_button_bindings, base_stick_bindings, bindings_view, default_layer_bindings,
    default_profile, first_binding, l1_bindings, layer_action, r1_bindings, strokes_view,
    ActionView, Binding, BindingView, ControllerInput, Direction, KeyAction, Keymap, Layer,
    StrokeView,
};
use vstd::prelude::*;

verus! {

/// What a key gives on a US keyboard, without and with the shift key.
pub open spec fn us_character(key: KeyCode, shift: bool) -> Option<char> {
    match (key, shift) {
        (KEY_1, false) => Some('1'),
        (KEY_1, true) => Some('!'),
        (KEY_2, false) => Some('2'),
        (KEY_2, true) => Some('@'),
        (KEY_3, false) => Some('3'),
        (KEY_3, true) => Some('#'),
        (KEY_4, false) => Some('4'),
        (KEY_4, true) => Some('$'),
        (KEY_5, false) => Some('5'),
        (KEY_5, true) => Some('%'),
        (KEY_6, false) => Some('6'),
        (KEY_6, true) => Some('^'),
        (KEY_7, false) => Some('7'),
        (KEY_7, true) => Some('&'),
        (KEY_8, false) => Some('8'),
        (KEY_8, true) => Some('*'),
        (KEY_9, false) => Some('9'),
        (KEY_9, true) => Some('('),
        (KEY_0, false) => Some('0'),
        (KEY_0, true) => Some(')'),
        (KEY_A, false) => Some('a'),
        (KEY_A, true) => Some('A'),
        (KEY_B, false) => Some('b'),
        (KEY_B, true) => Some('B'),
        (KEY_C, false) => Some('c'),
        (KEY_C, true) => Some('C'),
        (KEY_D, false) => Some('d'),
        (KEY_D, true) => Some('D'),
        (KEY_E, false) => Some('e'),
        (KEY_E, true) => Some('E'),
        (KEY_F, false) => Some('f'),
        (KEY_F, true) => Some('F'),
        (KEY_G, false) => Some('g'),
        (KEY_G, true) => Some('G'),
        (KEY_H, false) => Some('h'),
        (KEY_H, true) => Some('H'),
        (KEY_I, false) => Some('i'),
        (KEY_I, true) => Some('I'),
        (KEY_J, false) => Some('j'),
        (KEY_J, true) => Some('J'),
        (KEY_K, false) => Some('k'),
        (KEY_K, true) => Some('K'),
        (KEY_L, false) => Some('l'),
        (KEY_L, true) => Some('L'),
        (KEY_M, false) => Some('m'),
        (KEY_M, true) => Some('M'),
        (KEY_N, false) => Some('n'),
        (KEY_N, true) => Some('N'),
        (KEY_O, false) => Some('o'),
        (KEY_O, true) => Some('O'),
        (KEY_P, false) => Some('p'),
        (KEY_P, true) => Some('P'),
        (KEY_Q, false) => Some('q'),
        (KEY_Q, true) => Some('Q'),
        (KEY_R, false) => Some('r'),
        (KEY_R, true) => Some('R'),
        (KEY_S, false) => Some('s'),
        (KEY_S, true) => Some('S'),
        (KEY_T, false) => Some('t'),
        (KEY_T, true) => Some('T'),
        (KEY_U, false) => Some('u'),
        (KEY_U, true) => Some('U'),
        (KEY_V, false) => Some('v'),
        (KEY_V, true) => Some('V'),
        (KEY_W, false) => Some('w'),
        (KEY_W, true) => Some('W'),
        (KEY_X, false) => Some('x'),
        (KEY_X, true) => Some('X'),
        (KEY_Y, false) => Some('y'),
        (KEY_Y, true) => Some('Y'),
        (KEY_Z, false) => Some('z'),
        (KEY_Z, true) => Some('Z'),
        (KEY_MINUS, false) => Some('-'),
        (KEY_MINUS, true) => Some('_'),
        (KEY_EQUAL, false) => Some('='),
        (KEY_EQUAL, true) => Some('+'),
        (KEY_LEFTBRACE, false) => Some('['),
        (KEY_LEFTBRACE, true) => Some('{'),
        (KEY_RIGHTBRACE, false) => Some(']'),
        (KEY_RIGHTBRACE, true) => Some('}'),
        (KEY_BACKSLASH, false) => Some('\\'),
        (KEY_BACKSLASH, true) => Some('|'),
        (KEY_SEMICOLON, false) => Some(';'),
        (KEY_SEMICOLON, true) => Some(':'),
        (KEY_APOSTROPHE, false) => Some('\''),
        (KEY_APOSTROPHE, true) => Some('"'),
        (KEY_GRAVE, false) => Some('`'),
        (KEY_GRAVE, true) => Some('~'),
        (KEY_COMMA, false) => Some(','),
        (KEY_COMMA, true) => Some('<'),
        (KEY_DOT, false) => Some('.'),
        (KEY_DOT, true) => Some('>'),
        (KEY_SLASH, false) => Some('/'),
        (KEY_SLASH, true) => Some('?'),
        (KEY_TAB, false) => Some('\t'),
        (KEY_ENTER, false) => Some('\n'),
        (KEY_SPACE, false) => Some(' '),
        _ => None,
    }
}

/// The characters of a US keyboard.
pub open spec fn typable(c: char) -> bool {
    ' ' <= c <= '~' || c == '\t' || c == '\n' || c == '\r'
}

/// What appears for a character that can be typed: itself, and a new line for a
/// carriage return.
pub open spec fn appearance(c: char) -> char {
    if c == '\r' {
        '\n'
    } else {
        c
    }
}

/// The keys stand in four rows, and the kernel numbers those of a row one after
/// another. So a key of a row gives the character at its place.
pub proof fn law_keys_stand_in_rows(i: int)
    ensures
        0 <= i < 12 ==> us_character((2 + i) as u16, false) == Some("1234567890-="@[i]),
        0 <= i < 12 ==> us_character((2 + i) as u16, true) == Some("!@#$%^&*()_+"@[i]),
        0 <= i < 12 ==> us_character((16 + i) as u16, false) == Some("qwertyuiop[]"@[i]),
        0 <= i < 12 ==> us_character((16 + i) as u16, true) == Some("QWERTYUIOP{}"@[i]),
        0 <= i < 12 ==> us_character((30 + i) as u16, false) == Some("asdfghjkl;'`"@[i]),
        0 <= i < 12 ==> us_character((30 + i) as u16, true) == Some("ASDFGHJKL:\"~"@[i]),
        0 <= i < 11 ==> us_character((43 + i) as u16, false) == Some("\\zxcvbnm,./"@[i]),
        0 <= i < 11 ==> us_character((43 + i) as u16, true) == Some("|ZXCVBNM<>?"@[i]),
{
    reveal_strlit("1234567890-=");
    reveal_strlit("!@#$%^&*()_+");
    reveal_strlit("qwertyuiop[]");
    reveal_strlit("QWERTYUIOP{}");
    reveal_strlit("asdfghjkl;'`");
    reveal_strlit("ASDFGHJKL:\"~");
    reveal_strlit("\\zxcvbnm,./");
    reveal_strlit("|ZXCVBNM<>?");
}

/// The key of a character gives that character on a US keyboard, and exactly the
/// characters of a US keyboard have one.
pub proof fn law_keys_give_their_characters(c: char)
    ensures
        key_for(c) is Some <==> typable(c),
        key_for(c) matches Some((key, shift)) ==> us_character(key, shift) == Some(appearance(c)),
{
}

/// What a combo makes appear with a Colemak layout.
pub open spec fn appears(combo: ComboView) -> Option<char> {
    if combo.modifiers == Seq::<KeyCode>::empty() {
        us_character(colemak(combo.key), false)
    } else if combo.modifiers == seq![KEY_LEFTSHIFT] {
        us_character(colemak(combo.key), true)
    } else {
        None
    }
}

/// The text that a list of batches makes appear.
pub open spec fn shown(emissions: Seq<EmissionView>) -> Seq<char>
    decreases emissions.len(),
{
    if emissions.len() == 0 {
        Seq::empty()
    } else {
        let before = shown(emissions.drop_last());
        match appears(emissions.last().combo) {
            Some(c) if emissions.last().down => before.push(c),
            _ => before,
        }
    }
}

/// A text without the characters that cannot be typed.
pub open spec fn kept(text: Seq<char>) -> Seq<char>
    decreases text.len(),
{
    if text.len() == 0 {
        Seq::empty()
    } else if typable(text.last()) {
        kept(text.drop_last()).push(appearance(text.last()))
    } else {
        kept(text.drop_last())
    }
}

proof fn lemma_shown_strike(before: Seq<EmissionView>, state: MapperView, stroke: StrokeView)
    ensures
        shown(before + state.strike(stroke)) == (match appears(physical(stroke)) {
            Some(c) => shown(before).push(c),
            None => shown(before),
        }),
{
    let all = before + state.strike(stroke);
    assert(all.drop_last().drop_last() =~= before);
    assert(all.drop_last().last() == state.strike(stroke)[0]);
    assert(all.last() == state.strike(stroke)[1]);
    assert(shown(all) == shown(all.drop_last()));
}

/// What is typed appears: with a Colemak layout the strokes of a text give the
/// text back, without the characters that cannot be typed. The semicolon and the
/// colon are left out, because their key is sent as it is.
pub proof fn law_typed_text_appears(state: MapperView, text: Seq<char>)
    requires
        forall|i: int| 0 <= i < text.len() ==> (#[trigger] text[i]) != ';' && text[i] != ':',
    ensures
        shown(state.typed(text)) == kept(text),
    decreases text.len(),
{
    if text.len() > 0 {
        let first = text.drop_last();
        assert(forall|i: int| 0 <= i < first.len() ==> first[i] == text[i]);
        law_typed_text_appears(state, first);
        let c = text[text.len() - 1];
        law_keys_give_their_characters(c);
        if let Some((key, shift)) = key_for(c) {
            let stroke = typing_stroke(key, shift);
            lemma_shown_strike(state.typed(first), state, stroke);
            assert(seq![KEY_LEFTSHIFT].len() == 1);
            assert(appears(physical(stroke)) == us_character(colemak(physical_key(key)), shift));
            lemma_typed_key(c);
        } else {
            assert(state.typed(text) =~= state.typed(first));
        }
    }
}

proof fn lemma_typed_key(c: char)
    requires
        c != ';',
        c != ':',
    ensures
        key_for(c) matches Some((key, shift)) ==> us_character(colemak(physical_key(key)), shift)
            == Some(appearance(c)),
{
}

/// Every stroke of a text is one batch that takes a combo down and one that brings
/// it up, and a refusal of either leaves the mapper as it was.
pub proof fn law_typed_strokes_come_in_pairs(state: MapperView, text: Seq<char>)
    ensures
        state.typed(text).len() == 2 * kept(text).len(),
        forall|i: int|
            0 <= i < kept(text).len() ==> {
                &&& (#[trigger] state.typed(text)[2 * i]).down
                &&& !state.typed(text)[2 * i + 1].down
                &&& state.typed(text)[2 * i].combo == state.typed(text)[2 * i + 1].combo
            },
        forall|i: int|
            0 <= i < state.typed(text).len() ==> (#[trigger] state.typed(text)[i]).refused == state,
    decreases text.len(),
{
    if text.len() > 0 {
        let first = text.drop_last();
        law_typed_strokes_come_in_pairs(state, first);
        law_keys_give_their_characters(text.last());
        let out = state.typed(text);
        let n = kept(first).len() as int;
        if let Some((key, shift)) = key_for(text.last()) {
            let strike = state.strike(typing_stroke(key, shift));
            assert(out == state.typed(first) + strike);
            assert forall|i: int| 0 <= i < kept(text).len() implies {
                &&& (#[trigger] out[2 * i]).down
                &&& !out[2 * i + 1].down
                &&& out[2 * i].combo == out[2 * i + 1].combo
            } by {
                if i < n {
                    assert(out[2 * i] == state.typed(first)[2 * i]);
                    assert(out[2 * i + 1] == state.typed(first)[2 * i + 1]);
                } else {
                    assert(out[2 * i] == strike[0]);
                    assert(out[2 * i + 1] == strike[1]);
                }
            }
        } else {
            assert(out =~= state.typed(first));
        }
    }
}

/// The keys that are down behind a run of key events.
pub open spec fn keys_after(down: Set<KeyCode>, events: Seq<InputEvent>) -> Set<KeyCode>
    decreases events.len(),
{
    if events.len() == 0 {
        down
    } else {
        let before = keys_after(down, events.drop_last());
        let event = events.last();
        if event.event_type != EV_KEY {
            before
        } else if event.value == 1 {
            before.insert(event.code)
        } else if event.value == 0 {
            before.remove(event.code)
        } else {
            before
        }
    }
}

/// The events that press a combo take exactly its keys down, the key last and
/// with every modifier already down.
pub proof fn law_pressing_takes_the_keys_down(combo: ComboView, down: Set<KeyCode>)
    ensures
        ({
            let events = combo_events(combo, true);
            &&& events.len() == combo.modifiers.len() + 1
            &&& forall|i: int|
                0 <= i < combo.modifiers.len() ==> #[trigger] events[i] == (InputEvent {
                    event_type: EV_KEY,
                    code: combo.modifiers[i],
                    value: 1,
                })
            &&& keys_after(down, events) == down.union(combo.modifiers.to_set()).insert(combo.key)
            &&& keys_after(down, events.drop_last()) == down.union(combo.modifiers.to_set())
        }),
{
    let events = combo_events(combo, true);
    lemma_modifiers_down(combo.modifiers, down);
    assert(events.drop_last() =~= pressed(combo.modifiers));
}

/// The events that press keys in turn.
pub open spec fn pressed(keys: Seq<KeyCode>) -> Seq<InputEvent> {
    Seq::new(
        keys.len(),
        |i: int| InputEvent { event_type: EV_KEY, code: keys[i], value: 1 },
    )
}

/// The events that release keys in turn.
pub open spec fn released(keys: Seq<KeyCode>) -> Seq<InputEvent> {
    Seq::new(
        keys.len(),
        |i: int| InputEvent { event_type: EV_KEY, code: keys[i], value: 0 },
    )
}

proof fn lemma_modifiers_down(keys: Seq<KeyCode>, down: Set<KeyCode>)
    ensures
        keys_after(down, pressed(keys)) == down.union(keys.to_set()),
    decreases keys.len(),
{
    let first = keys.drop_last();
    if keys.len() == 0 {
        assert(down.union(keys.to_set()) =~= down);
    } else {
        lemma_modifiers_down(first, down);
        assert(pressed(keys).drop_last() =~= pressed(first));
        assert forall|k: KeyCode| #[trigger]
            keys.to_set().contains(k) == first.to_set().insert(keys.last()).contains(k) by {
            if keys.contains(k) {
                let i = choose|i: int| 0 <= i < keys.len() && keys[i] == k;
                if i < first.len() {
                    assert(first[i] == k);
                }
            }
            if first.contains(k) {
                let i = choose|i: int| 0 <= i < first.len() && first[i] == k;
                assert(keys[i] == k);
            }
            assert(keys[keys.len() - 1] == keys.last());
        }
        assert(keys_after(down, pressed(keys)) =~= down.union(keys.to_set()));
    }
}

proof fn lemma_modifiers_up(keys: Seq<KeyCode>, down: Set<KeyCode>)
    ensures
        keys_after(down, released(keys)) == down.difference(keys.to_set()),
    decreases keys.len(),
{
    let first = keys.drop_last();
    if keys.len() == 0 {
        assert(down.difference(keys.to_set()) =~= down);
    } else {
        lemma_modifiers_up(first, down);
        assert(released(keys).drop_last() =~= released(first));
        assert forall|k: KeyCode| #[trigger]
            keys.to_set().contains(k) == first.to_set().insert(keys.last()).contains(k) by {
            if keys.contains(k) {
                let i = choose|i: int| 0 <= i < keys.len() && keys[i] == k;
                if i < first.len() {
                    assert(first[i] == k);
                }
            }
            if first.contains(k) {
                let i = choose|i: int| 0 <= i < first.len() && first[i] == k;
                assert(keys[i] == k);
            }
            assert(keys[keys.len() - 1] == keys.last());
        }
        assert(keys_after(down, released(keys)) =~= down.difference(keys.to_set()));
    }
}

proof fn lemma_keys_concat(down: Set<KeyCode>, a: Seq<InputEvent>, b: Seq<InputEvent>)
    ensures
        keys_after(down, a + b) == keys_after(keys_after(down, a), b),
    decreases b.len(),
{
    if b.len() == 0 {
        assert(a + b =~= a);
    } else {
        assert((a + b).drop_last() =~= a + b.drop_last());
        lemma_keys_concat(down, a, b.drop_last());
    }
}

/// The events that release a combo bring exactly its keys up, the key first, and
/// the modifiers in the opposite order of the one in which they went down.
pub proof fn law_releasing_brings_the_keys_up(combo: ComboView, down: Set<KeyCode>)
    ensures
        ({
            let events = combo_events(combo, false);
            &&& events.len() == combo.modifiers.len() + 1
            &&& events[0] == (InputEvent { event_type: EV_KEY, code: combo.key, value: 0 })
            &&& forall|i: int|
                0 <= i < combo.modifiers.len() ==> #[trigger] events[1 + i] == (InputEvent {
                    event_type: EV_KEY,
                    code: combo.modifiers[combo.modifiers.len() - 1 - i],
                    value: 0,
                })
            &&& keys_after(down, events) == down.difference(combo.modifiers.to_set()).remove(
                combo.key,
            )
        }),
{
    let events = combo_events(combo, false);
    let back = combo.modifiers.reverse();
    let key = released(seq![combo.key]);
    lemma_modifiers_up(seq![combo.key], down);
    lemma_modifiers_up(back, keys_after(down, key));
    lemma_keys_concat(down, key, released(back));
    assert(events =~= key + released(back));
    assert forall|k: KeyCode| #[trigger]
        back.to_set().contains(k) == combo.modifiers.to_set().contains(k) by {
        if back.contains(k) {
            let i = choose|i: int| 0 <= i < back.len() && back[i] == k;
            assert(combo.modifiers[back.len() - 1 - i] == k);
        }
        if combo.modifiers.contains(k) {
            let i = choose|i: int| 0 <= i < back.len() && combo.modifiers[i] == k;
            assert(back[back.len() - 1 - i] == k);
        }
    }
    assert(seq![combo.key].to_set() =~= set![combo.key]) by {
        assert(seq![combo.key][0] == combo.key);
    }
    assert(keys_after(down, events) =~= down.difference(combo.modifiers.to_set()).remove(combo.key));
}

/// How far a run of events turns a wheel.
pub open spec fn turned(events: Seq<InputEvent>, wheel: u16) -> int
    decreases events.len(),
{
    if events.len() == 0 {
        0
    } else {
        turned(events.drop_last(), wheel) + if events.last().event_type == EV_REL
            && events.last().code == wheel {
            events.last().value as int
        } else {
            0
        }
    }
}

/// Scrolling turns the horizontal wheel by the steps to the right and the vertical
/// wheel against the steps down, with one event for each wheel that turns.
pub proof fn law_wheels_turn_by_the_steps(horizontal: i32, vertical: i32)
    requires
        vertical != i32::MIN,
    ensures
        turned(wheel_events(horizontal, vertical), REL_HWHEEL) == horizontal,
        turned(wheel_events(horizontal, vertical), REL_WHEEL) == -vertical,
        wheel_events(horizontal, vertical).len() == (if horizontal == 0 {
            0int
        } else {
            1
        }) + (if vertical == 0 {
            0int
        } else {
            1
        }),
{
    let events = wheel_events(horizontal, vertical);
    reveal_with_fuel(turned, 3);
    if events.len() == 2 {
        assert(events.drop_last() =~= seq![events[0]]);
        assert(events.drop_last().drop_last() =~= Seq::<InputEvent>::empty());
    } else if events.len() == 1 {
        assert(events.drop_last() =~= Seq::<InputEvent>::empty());
    }
}

/// A control is as its action wants it while it is active or not: it holds the
/// combo of a stroke, it has played its sequence, or it does nothing.
pub open spec fn settled(
    state: MapperView,
    input: ControllerInput,
    action: Option<KeyAction>,
    active: bool,
) -> bool {
    match action {
        Some(KeyAction::Stroke(stroke)) => {
            &&& !state.sequences.contains(input)
            &&& state.sources.contains_key(input) == active
            &&& active ==> state.sources[input].modifiers == stroke.modifiers@
            &&& active ==> state.sources[input].key == physical_key(stroke.key)
        },
        Some(KeyAction::Sequence(_)) => {
            &&& !state.sources.contains_key(input)
            &&& state.sequences.contains(input) == active
        },
        _ => {
            &&& !state.sources.contains_key(input)
            &&& !state.sequences.contains(input)
        },
    }
}

/// What `input` does is the same before and after.
pub open spec fn undisturbed(before: MapperView, after: MapperView, input: ControllerInput) -> bool {
    &&& after.sources.contains_key(input) == before.sources.contains_key(input)
    &&& before.sources.contains_key(input) ==> after.sources[input] == before.sources[input]
    &&& after.sequences.contains(input) == before.sequences.contains(input)
}

/// A control that becomes active or inactive does what its action says, and no
/// other control is disturbed.
pub proof fn law_controls_do_what_their_action_says(
    state: MapperView,
    keymap: Keymap,
    input: ControllerInput,
    active: bool,
)
    ensures
        ({
            let after = state.applied(keymap, input, active).0;
            &&& settled(after, input, keymap.action(input, state.layers), active)
            &&& forall|other: ControllerInput|
                other != input ==> #[trigger] undisturbed(state, after, other)
            &&& after.layers == state.layers
            &&& after.left_x == state.left_x
            &&& after.left_y == state.left_y
        }),
{
    reveal(MapperView::applied);
}

/// A direction of the left stick.
pub open spec fn left_stick(direction: Direction) -> ControllerInput {
    ControllerInput::Stick { stick: Stick::Left, direction }
}

/// Behind a movement of the left stick each of its four directions is active
/// exactly if its own side of its own axis lies beyond the deadzone: left and
/// right go by the horizontal axis, up and down by the vertical one, whichever of
/// the two has moved. No other control is disturbed.
pub proof fn law_left_stick_acts_by_its_sides(
    state: MapperView,
    keymap: Keymap,
    axis: StickAxis,
    zone: AxisZone,
    raw_value: i32,
    range: crate::input::AxisRange,
)
    ensures
        ({
            let kind = ControllerEventKind::Stick { stick: Stick::Left, axis, raw_value, range };
            let after = state.after_event(keymap, kind, zone).0;
            let x = if axis == StickAxis::X { zone } else { state.left_x };
            let y = if axis == StickAxis::Y { zone } else { state.left_y };
            let action = |direction: Direction| keymap.action(left_stick(direction), state.layers);
            &&& settled(after, left_stick(Direction::Left), action(Direction::Left), x.below)
            &&& settled(after, left_stick(Direction::Right), action(Direction::Right), x.above)
            &&& settled(after, left_stick(Direction::Up), action(Direction::Up), y.below)
            &&& settled(after, left_stick(Direction::Down), action(Direction::Down), y.above)
            &&& forall|other: ControllerInput|
                !(other matches ControllerInput::Stick { stick: Stick::Left, .. })
                    ==> #[trigger] undisturbed(state, after, other)
            &&& after.layers == state.layers
            &&& after.left_x == x
            &&& after.left_y == y
        }),
{
    let x = if axis == StickAxis::X { zone } else { state.left_x };
    let y = if axis == StickAxis::Y { zone } else { state.left_y };
    let s0 = MapperView { left_x: x, left_y: y, ..state };
    let s1 = s0.applied(keymap, left_stick(Direction::Left), x.below).0;
    let s2 = s1.applied(keymap, left_stick(Direction::Right), x.above).0;
    let s3 = s2.applied(keymap, left_stick(Direction::Up), y.below).0;
    law_controls_do_what_their_action_says(s0, keymap, left_stick(Direction::Left), x.below);
    law_controls_do_what_their_action_says(s1, keymap, left_stick(Direction::Right), x.above);
    law_controls_do_what_their_action_says(s2, keymap, left_stick(Direction::Up), y.below);
    law_controls_do_what_their_action_says(s3, keymap, left_stick(Direction::Down), y.above);
    let s4 = s3.applied(keymap, left_stick(Direction::Down), y.above).0;
    let left = left_stick(Direction::Left);
    let right = left_stick(Direction::Right);
    let up = left_stick(Direction::Up);
    assert(undisturbed(s1, s2, left) && undisturbed(s2, s3, left) && undisturbed(s3, s4, left));
    assert(undisturbed(s2, s3, right) && undisturbed(s3, s4, right));
    assert(undisturbed(s3, s4, up));
    assert forall|other: ControllerInput|
        !(other matches ControllerInput::Stick { stick: Stick::Left, .. }) implies #[trigger]
        undisturbed(state, s4, other) by {
        assert(undisturbed(s0, s1, other));
        assert(undisturbed(s1, s2, other));
        assert(undisturbed(s2, s3, other));
        assert(undisturbed(s3, s4, other));
    }
}

/// A button that switches no layer does what its action says: it is active from
/// its press to its release. A button that switches a layer does only that.
pub proof fn law_buttons_act_or_switch_a_layer(
    state: MapperView,
    keymap: Keymap,
    button: Button,
    edge: ButtonState,
    zone: AxisZone,
)
    ensures
        ({
            let kind = ControllerEventKind::Button { button, state: edge };
            let (after, out) = state.after_event(keymap, kind, zone);
            let input = ControllerInput::Button(button);
            &&& if exists|i: int|
                0 <= i < keymap.layers@.len() && (#[trigger] keymap.layers@[i]).modifier == button {
                &&& out.len() == 0
                &&& after.layers.contains(button) == (edge == ButtonState::Down)
                &&& forall|b: Button|
                    b != button ==> #[trigger] after.layers.contains(b) == state.layers.contains(b)
                &&& undisturbed(state, after, input)
            } else {
                &&& after.layers == state.layers
                &&& settled(
                    after,
                    input,
                    keymap.action(input, state.layers),
                    edge == ButtonState::Down,
                )
            }
            &&& forall|other: ControllerInput|
                other != input ==> #[trigger] undisturbed(state, after, other)
            &&& after.left_x == state.left_x
            &&& after.left_y == state.left_y
        }),
{
    let active = edge == ButtonState::Down;
    law_controls_do_what_their_action_says(state, keymap, ControllerInput::Button(button), active);
}

/// The right stick and the triggers leave the keyboard alone; the right stick, and
/// nothing else, scrolls, along the axis that moved.
pub proof fn law_only_the_right_stick_scrolls(
    state: MapperView,
    keymap: Keymap,
    kind: ControllerEventKind,
    zone: AxisZone,
)
    ensures
        match kind {
            ControllerEventKind::Stick { stick: Stick::Right, axis, .. } => {
                &&& state.after_event(keymap, kind, zone) == (state, Seq::<EmissionView>::empty())
                &&& scroll_axis(kind) == Some(axis)
            },
            ControllerEventKind::Trigger { .. } => {
                &&& state.after_event(keymap, kind, zone) == (state, Seq::<EmissionView>::empty())
                &&& scroll_axis(kind) is None
            },
            _ => scroll_axis(kind) is None,
        },
{
}

/// Replaying the batches of an event from the combos that were down gives the
/// combos that are held afterwards. Left out are controls that play a sequence,
/// whose strokes may be those of a held combo.
pub proof fn law_events_bring_the_held_combos_about(
    state: MapperView,
    keymap: Keymap,
    kind: ControllerEventKind,
    zone: AxisZone,
)
    requires
        state.counted(),
        forall|input: ControllerInput|
            !((#[trigger] keymap.action(input, state.layers)) matches Some(
                KeyAction::Sequence(_),
            )),
    ensures
        down_after(state.combos.dom(), state.after_event(keymap, kind, zone).1)
            == state.after_event(keymap, kind, zone).0.combos.dom(),
        state.after_event(keymap, kind, zone).0.counted(),
{
    crate::keyboard::law_every_event_keeps_the_counts(state, keymap, kind, zone);
    match kind {
        ControllerEventKind::Button { button, state: edge } => {
            let input = ControllerInput::Button(button);
            let active = edge == ButtonState::Down;
            assert(!(keymap.action(input, state.layers) matches Some(KeyAction::Sequence(_))));
            law_batches_bring_the_held_combos_about(state, keymap, input, active);
            if keymap.modifies_layer(button) {
                assert(down_after(state.combos.dom(), Seq::<EmissionView>::empty())
                    == state.combos.dom());
            }
        },
        ControllerEventKind::Stick { stick: Stick::Left, axis, .. } => {
            let x = if axis == StickAxis::X { zone } else { state.left_x };
            let y = if axis == StickAxis::Y { zone } else { state.left_y };
            let s0 = MapperView { left_x: x, left_y: y, ..state };
            assert(s0.counted()) by {
                assert forall|combo: ComboView|
                    #![trigger s0.combos.contains_key(combo)]
                    #![trigger s0.holders(combo)]
                    {
                        &&& s0.combos.contains_key(combo) <==> s0.holders(combo).len() > 0
                        &&& s0.combos.contains_key(combo) ==> s0.combos[combo] == s0.holders(
                            combo,
                        ).len()
                    } by {
                    assert(s0.holders(combo) =~= state.holders(combo));
                    assert(state.combos.contains_key(combo) <==> state.holders(combo).len() > 0);
                }
            }
            let (s1, o1) = s0.applied(keymap, left_stick(Direction::Left), x.below);
            lemma_plain_control(s0, keymap, left_stick(Direction::Left), x.below);
            let (s2, o2) = s1.applied(keymap, left_stick(Direction::Right), x.above);
            lemma_plain_control(s1, keymap, left_stick(Direction::Right), x.above);
            let (s3, o3) = s2.applied(keymap, left_stick(Direction::Up), y.below);
            lemma_plain_control(s2, keymap, left_stick(Direction::Up), y.below);
            let (s4, o4) = s3.applied(keymap, left_stick(Direction::Down), y.above);
            lemma_plain_control(s3, keymap, left_stick(Direction::Down), y.above);
            let down = state.combos.dom();
            lemma_down_chain(down, o1, o2);
            lemma_down_chain(down, o1 + o2, o3);
            lemma_down_chain(down, o1 + o2 + o3, o4);
            assert(state.after_event(keymap, kind, zone) == (s4, o1 + o2 + o3 + o4));
        },
        _ => {
            assert(down_after(state.combos.dom(), Seq::<EmissionView>::empty())
                == state.combos.dom());
        },
    }
}

proof fn lemma_plain_control(state: MapperView, keymap: Keymap, input: ControllerInput, active: bool)
    requires
        state.counted(),
        !(keymap.action(input, state.layers) matches Some(KeyAction::Sequence(_))),
    ensures
        state.applied(keymap, input, active).0.counted(),
        state.applied(keymap, input, active).0.layers == state.layers,
        down_after(state.combos.dom(), state.applied(keymap, input, active).1) == state.applied(
            keymap,
            input,
            active,
        ).0.combos.dom(),
{
    law_batches_bring_the_held_combos_about(state, keymap, input, active);
    law_controls_do_what_their_action_says(state, keymap, input, active);
}

proof fn lemma_down_chain(down: Set<ComboView>, a: Seq<EmissionView>, b: Seq<EmissionView>)
    ensures
        down_after(down, a + b) == down_after(down_after(down, a), b),
    decreases b.len(),
{
    if b.len() == 0 {
        assert(a + b =~= a);
    } else {
        lemma_down_chain(down, a, b.drop_last());
        assert((a + b).drop_last() =~= a + b.drop_last());
    }
}

/// A control that starts a sequence emits its strokes in order, each of them down
/// and up at once, and does not repeat them while it stays active.
pub proof fn law_sequences_play_once_and_in_order(
    state: MapperView,
    keymap: Keymap,
    input: ControllerInput,
    strokes: Seq<StrokeView>,
)
    requires
        keymap.action(input, state.layers) matches Some(action) && action@ == ActionView::Sequence(
            strokes,
        ),
        !state.sources.contains_key(input),
    ensures
        ({
            let out = state.applied(keymap, input, true).1;
            &&& state.sequences.contains(input) ==> out.len() == 0
            &&& !state.sequences.contains(input) ==> {
                &&& out.len() == 2 * strokes.len()
                &&& forall|i: int|
                    0 <= i < strokes.len() ==> {
                        &&& (#[trigger] out[2 * i]).down
                        &&& !out[2 * i + 1].down
                        &&& out[2 * i].combo.modifiers == strokes[i].modifiers
                        &&& out[2 * i].combo.key == physical_key(strokes[i].key)
                        &&& out[2 * i + 1].combo == out[2 * i].combo
                    }
            }
            &&& state.applied(keymap, input, false).1.len() == 0
        }),
{
    reveal(MapperView::applied);
    if let Some(KeyAction::Sequence(played)) = keymap.action(input, state.layers) {
        assert(strokes_view(played@) == strokes);
        let after = state.with_sequence(input, true);
        lemma_struck(after, strokes);
        assert(Seq::<EmissionView>::empty() + after.struck(strokes) =~= after.struck(strokes));
    }
}

proof fn lemma_struck(state: MapperView, strokes: Seq<StrokeView>)
    ensures
        state.struck(strokes).len() == 2 * strokes.len(),
        forall|i: int|
            0 <= i < strokes.len() ==> {
                &&& (#[trigger] state.struck(strokes)[2 * i]).down
                &&& !state.struck(strokes)[2 * i + 1].down
                &&& state.struck(strokes)[2 * i].combo == physical(strokes[i])
                &&& state.struck(strokes)[2 * i + 1].combo == physical(strokes[i])
            },
    decreases strokes.len(),
{
    if strokes.len() > 0 {
        let first = strokes.drop_last();
        lemma_struck(state, first);
        let out = state.struck(strokes);
        let strike = state.strike(strokes.last());
        assert(out == state.struck(first) + strike);
        assert forall|i: int| 0 <= i < strokes.len() implies {
            &&& (#[trigger] out[2 * i]).down
            &&& !out[2 * i + 1].down
            &&& out[2 * i].combo == physical(strokes[i])
            &&& out[2 * i + 1].combo == physical(strokes[i])
        } by {
            if i < first.len() {
                assert(out[2 * i] == state.struck(first)[2 * i]);
                assert(out[2 * i + 1] == state.struck(first)[2 * i + 1]);
            } else {
                assert(out[2 * i] == strike[0]);
                assert(out[2 * i + 1] == strike[1]);
            }
        }
    }
}

/// A batch that is refused leaves a state in which the control does not hold the
/// combo, nobody else is disturbed and the counts are in step.
pub proof fn law_refused_batches_leave_nothing_held(
    state: MapperView,
    input: ControllerInput,
    combo: Option<ComboView>,
    active: bool,
)
    requires
        state.counted(),
    ensures
        ({
            let out = state.sourced(input, combo, active).1;
            forall|i: int|
                0 <= i < out.len() ==> {
                    &&& (#[trigger] out[i]).refused.counted()
                    &&& !out[i].refused.sources.contains_key(input)
                    &&& !out[i].refused.combos.contains_key(out[i].combo)
                    &&& out[i].refused.sources == state.sources.remove(input)
                    &&& out[i].refused.layers == state.layers
                    &&& out[i].refused.sequences == state.sequences
                }
        }),
{
    let freed = state.released(input).0;
    let dummy = ComboView { modifiers: Seq::empty(), key: 0 };
    crate::keyboard::law_first_holder_presses_and_last_releases(state, input, None, false, dummy);
    assert(state.sourced(input, None, false).0 == freed);
    assert(freed.counted());
    assert(freed.sources =~= state.sources.remove(input));
    assert forall|c: ComboView| freed.combos.contains_key(c) implies #[trigger] freed.holders(
        c,
    ).len() > 0 by {}
    if let Some(wanted) = combo {
        assert(freed.combos.contains_key(wanted) <==> freed.holders(wanted).len() > 0);
    }
}

/// One key alone.
pub open spec fn key_alone(key: KeyCode) -> Option<ActionView> {
    Some(ActionView::Stroke(StrokeView { modifiers: Seq::empty(), key }))
}

/// One key with a modifier.
pub open spec fn key_with(modifier: KeyCode, key: KeyCode) -> Option<ActionView> {
    Some(ActionView::Stroke(StrokeView { modifiers: seq![modifier], key }))
}

/// The arrow key of a D-pad button.
pub open spec fn arrow_of(button: Button) -> Option<KeyCode> {
    match button {
        Button::DpadUp => Some(KEY_UP),
        Button::DpadDown => Some(KEY_DOWN),
        Button::DpadLeft => Some(KEY_LEFT),
        Button::DpadRight => Some(KEY_RIGHT),
        _ => None,
    }
}

/// What a control does by default, while L1 and R1 are held or not.
///
/// The D-pad gives Alt and its arrow, the left stick Meta and one of the movement
/// keys N, I, U and E. L1 puts the movement keys on the face buttons; R1 puts
/// shortcuts on the D-pad and the arrows on the horizontal axis of the stick.
pub open spec fn default_action(input: ControllerInput, l1: bool, r1: bool) -> Option<ActionView> {
    match input {
        ControllerInput::Button(Button::North) => if l1 {
            key_alone(KEY_U)
        } else {
            key_with(KEY_LEFTCTRL, KEY_U)
        },
        ControllerInput::Button(Button::South) => if l1 {
            key_alone(KEY_E)
        } else {
            key_with(KEY_LEFTCTRL, KEY_E)
        },
        ControllerInput::Button(Button::West) => if l1 {
            key_alone(KEY_N)
        } else {
            key_alone(KEY_ENTER)
        },
        ControllerInput::Button(Button::East) => if l1 {
            key_alone(KEY_I)
        } else {
            None
        },
        ControllerInput::Button(button) => match arrow_of(button) {
            Some(arrow) => if !r1 {
                key_with(KEY_LEFTALT, arrow)
            } else if button == Button::DpadUp {
                Some(
                    ActionView::Sequence(
                        seq![
                            StrokeView { modifiers: Seq::empty(), key: KEY_P },
                            StrokeView { modifiers: Seq::empty(), key: KEY_I },
                            StrokeView { modifiers: Seq::empty(), key: KEY_ENTER },
                        ],
                    ),
                )
            } else if button == Button::DpadDown {
                key_with(KEY_LEFTCTRL, KEY_W)
            } else if button == Button::DpadLeft {
                key_with(KEY_LEFTALT, KEY_G)
            } else {
                key_with(KEY_LEFTCTRL, KEY_T)
            },
            None => None,
        },
        ControllerInput::Stick { stick: Stick::Left, direction: Direction::Left } => key_with(
            KEY_LEFTMETA,
            if r1 {
                KEY_LEFT
            } else {
                KEY_N
            },
        ),
        ControllerInput::Stick { stick: Stick::Left, direction: Direction::Right } => key_with(
            KEY_LEFTMETA,
            if r1 {
                KEY_RIGHT
            } else {
                KEY_I
            },
        ),
        ControllerInput::Stick { stick: Stick::Left, direction: Direction::Up } => key_with(
            KEY_LEFTMETA,
            KEY_U,
        ),
        ControllerInput::Stick { stick: Stick::Left, direction: Direction::Down } => key_with(
            KEY_LEFTMETA,
            KEY_E,
        ),
        ControllerInput::Stick { stick: Stick::Right, .. } => None,
    }
}

/// What an action does, if there is one.
pub open spec fn action_view(action: Option<KeyAction>) -> Option<ActionView> {
    match action {
        Some(action) => Some(action@),
        None => None,
    }
}

/// The action of the first binding for `input` in a table.
spec fn first_listed(bindings: Seq<BindingView>, input: ControllerInput) -> Option<ActionView>
    decreases bindings.len(),
{
    if bindings.len() == 0 {
        None
    } else if bindings[0].input == input {
        Some(bindings[0].action)
    } else {
        first_listed(bindings.drop_first(), input)
    }
}

proof fn lemma_first_listed(bindings: Seq<Binding>, input: ControllerInput)
    ensures
        action_view(first_binding(bindings, input)) == first_listed(bindings_view(bindings), input),
    decreases bindings.len(),
{
    if bindings.len() > 0 {
        assert(bindings_view(bindings)[0] == bindings[0]@);
        assert(bindings_view(bindings).drop_first() =~= bindings_view(bindings.drop_first()));
        lemma_first_listed(bindings.drop_first(), input);
    }
}

proof fn lemma_base_tables(input: ControllerInput)
    ensures
        input is Button ==> first_listed(base_button_bindings(), input) == default_action(
            input,
            false,
            false,
        ),
        input is Stick ==> first_listed(base_stick_bindings(), input) == default_action(
            input,
            false,
            false,
        ),
{
    reveal_with_fuel(first_listed, 8);
    let buttons = base_button_bindings();
    let sticks = base_stick_bindings();
    assert(buttons.drop_first() =~= buttons.skip(1));
    assert(buttons.skip(1).drop_first() =~= buttons.skip(2));
    assert(buttons.skip(2).drop_first() =~= buttons.skip(3));
    assert(buttons.skip(3).drop_first() =~= buttons.skip(4));
    assert(buttons.skip(4).drop_first() =~= buttons.skip(5));
    assert(buttons.skip(5).drop_first() =~= buttons.skip(6));
    assert(buttons.skip(6).drop_first() =~= Seq::<BindingView>::empty());
    assert(sticks.drop_first() =~= sticks.skip(1));
    assert(sticks.skip(1).drop_first() =~= sticks.skip(2));
    assert(sticks.skip(2).drop_first() =~= sticks.skip(3));
    assert(sticks.skip(3).drop_first() =~= Seq::<BindingView>::empty());
}

/// The controls that L1 gives another action.
spec fn on_l1(input: ControllerInput) -> bool {
    input matches ControllerInput::Button(b) && (b == Button::North || b == Button::South || b
        == Button::West || b == Button::East)
}

/// The controls that R1 gives another action.
spec fn on_r1(input: ControllerInput) -> bool {
    match input {
        ControllerInput::Button(b) => arrow_of(b) is Some,
        ControllerInput::Stick { stick, direction } => stick == Stick::Left && (direction
            == Direction::Left || direction == Direction::Right),
    }
}

proof fn lemma_layer_tables(input: ControllerInput)
    ensures
        first_listed(l1_bindings(), input) == (if on_l1(input) {
            default_action(input, true, false)
        } else {
            None
        }),
        first_listed(r1_bindings(), input) == (if on_r1(input) {
            default_action(input, false, true)
        } else {
            None
        }),
{
    reveal_with_fuel(first_listed, 7);
    let l1 = l1_bindings();
    let r1 = r1_bindings();
    assert(l1.drop_first() =~= l1.skip(1));
    assert(l1.skip(1).drop_first() =~= l1.skip(2));
    assert(l1.skip(2).drop_first() =~= l1.skip(3));
    assert(l1.skip(3).drop_first() =~= Seq::<BindingView>::empty());
    assert(r1.drop_first() =~= r1.skip(1));
    assert(r1.skip(1).drop_first() =~= r1.skip(2));
    assert(r1.skip(2).drop_first() =~= r1.skip(3));
    assert(r1.skip(3).drop_first() =~= r1.skip(4));
    assert(r1.skip(4).drop_first() =~= r1.skip(5));
    assert(r1.skip(5).drop_first() =~= Seq::<BindingView>::empty());
}

/// The default profile does what [`default_action`] says, whatever else is held,
/// and L1 and R1 are the buttons that switch its layers.
pub proof fn law_default_profile_maps_every_control(
    keymap: Keymap,
    input: ControllerInput,
    active: Set<Button>,
    button: Button,
)
    requires
        keymap@ == default_profile(),
    ensures
        action_view(keymap.action(input, active)) == default_action(
            input,
            active.contains(Button::L1),
            active.contains(Button::R1),
        ),
        keymap.modifies_layer(button) <==> button == Button::L1 || button == Button::R1,
{
    let layers = keymap.layers@;
    assert(keymap@.layers == default_layer_bindings());
    assert(keymap@.buttons == base_button_bindings());
    assert(keymap@.sticks == base_stick_bindings());
    assert(layers.len() == 2);
    assert(keymap@.layers[0] == layers[0]@);
    assert(keymap@.layers[1] == layers[1]@);
    lemma_first_listed(layers[0].bindings@, input);
    lemma_first_listed(layers[1].bindings@, input);
    lemma_first_listed(keymap.base(input), input);
    lemma_layer_tables(input);
    lemma_base_tables(input);
    let rest = layers.drop_first();
    assert(rest[0] == layers[1]);
    assert(rest.drop_first() =~= Seq::<Layer>::empty());
    reveal_with_fuel(layer_action, 3);
    assert(layer_action(layers, input, active) == (if active.contains(Button::L1) && on_l1(input) {
        first_binding(layers[0].bindings@, input)
    } else if active.contains(Button::R1) && on_r1(input) {
        first_binding(layers[1].bindings@, input)
    } else {
        None
    }));
    assert(layers[0].modifier == Button::L1 && layers[1].modifier == Button::R1);
}

/// With the default profile and no layer held, the left stick holds Meta and the
/// keys that give N, I, U and E with Colemak, each while the stick is beyond the
/// deadzone on its side.
pub proof fn law_left_stick_moves_by_default(
    state: MapperView,
    keymap: Keymap,
    axis: StickAxis,
    zone: AxisZone,
    raw_value: i32,
    range: crate::input::AxisRange,
)
    requires
        keymap@ == default_profile(),
        !state.layers.contains(Button::L1),
        !state.layers.contains(Button::R1),
    ensures
        ({
            let kind = ControllerEventKind::Stick { stick: Stick::Left, axis, raw_value, range };
            let after = state.after_event(keymap, kind, zone).0;
            let x = if axis == StickAxis::X { zone } else { state.left_x };
            let y = if axis == StickAxis::Y { zone } else { state.left_y };
            &&& holds_with_meta(after, Direction::Left, x.below, KEY_J)
            &&& holds_with_meta(after, Direction::Right, x.above, KEY_L)
            &&& holds_with_meta(after, Direction::Up, y.below, KEY_I)
            &&& holds_with_meta(after, Direction::Down, y.above, KEY_K)
        }),
{
    law_left_stick_acts_by_its_sides(state, keymap, axis, zone, raw_value, range);
    let none = Button::East;
    law_default_profile_maps_every_control(keymap, left_stick(Direction::Left), state.layers, none);
    law_default_profile_maps_every_control(keymap, left_stick(Direction::Right), state.layers, none);
    law_default_profile_maps_every_control(keymap, left_stick(Direction::Up), state.layers, none);
    law_default_profile_maps_every_control(keymap, left_stick(Direction::Down), state.layers, none);
}

/// A direction of the left stick holds Meta and `key` while it is active, and
/// nothing otherwise.
pub open spec fn holds_with_meta(
    state: MapperView,
    direction: Direction,
    active: bool,
    key: KeyCode,
) -> bool {
    &&& state.sources.contains_key(left_stick(direction)) == active
    &&& active ==> state.sources[left_stick(direction)] == (ComboView {
        modifiers: seq![KEY_LEFTMETA],
        key,
    })
}

/// A new mapper holds nothing, has no layer, has played no sequence, and its stick
/// is within the deadzone.
pub proof fn law_new_mappers_hold_nothing(input: ControllerInput, combo: ComboView, button: Button)
    ensures
        !MapperView::fresh().sources.contains_key(input),
        !MapperView::fresh().combos.contains_key(combo),
        !MapperView::fresh().sequences.contains(input),
        !MapperView::fresh().layers.contains(button),
        !MapperView::fresh().left_x.below && !MapperView::fresh().left_x.above,
        !MapperView::fresh().left_y.below && !MapperView::fresh().left_y.above,
        MapperView::fresh().counted(),
{
    assert(MapperView::fresh().sources.dom() =~= Set::<ControllerInput>::empty());
    assert forall|c: ComboView| MapperView::fresh().holders(c).len() == 0 by {
        assert(MapperView::fresh().holders(c) =~= Set::<ControllerInput>::empty());
    }
}

/// A combo is counted once for every control that holds it: a control that lets go
/// takes one off, and with the last one the combo is gone and comes up.
pub proof fn law_combos_come_up_with_their_last_control(
    state: MapperView,
    input: ControllerInput,
)
    requires
        state.counted(),
        state.sources.contains_key(input),
    ensures
        ({
            let combo = state.sources[input];
            let (after, out) = state.released(input);
            let others = state.holders(combo).remove(input);
            &&& !after.sources.contains_key(input)
            &&& after.holders(combo) == others
            &&& after.combos.contains_key(combo) <==> others.len() > 0
            &&& others.len() > 0 ==> after.combos[combo] == others.len() && out.len() == 0
            &&& others.len() == 0 ==> out.len() == 1 && out[0].combo == combo && !out[0].down
        }),
{
    let combo = state.sources[input];
    let (after, out) = state.released(input);
    assert(state.holders(combo).contains(input));
    assert(state.holders(combo).finite());
    assert(after.holders(combo) =~= state.holders(combo).remove(input));
    assert(state.combos.contains_key(combo) <==> state.holders(combo).len() > 0);
}

/// A combo goes down with the first control that takes hold of it; every further
/// one is counted and silent.
pub proof fn law_combos_go_down_with_their_first_control(
    state: MapperView,
    input: ControllerInput,
    combo: ComboView,
)
    requires
        state.counted(),
        !state.sources.contains_key(input),
    ensures
        ({
            let (after, out) = state.taken(input, combo);
            let before = state.holders(combo);
            &&& after.sources.contains_key(input) && after.sources[input] == combo
            &&& after.holders(combo) == before.insert(input)
            &&& after.combos.contains_key(combo) && after.combos[combo] == before.len() + 1
            &&& before.len() > 0 ==> out.len() == 0
            &&& before.len() == 0 ==> out.len() == 1 && out[0].combo == combo && out[0].down
        }),
{
    let (after, out) = state.taken(input, combo);
    assert(after.holders(combo) =~= state.holders(combo).insert(input));
    assert(state.combos.contains_key(combo) <==> state.holders(combo).len() > 0);
}

} // verus!
