//! DualSense-to-keyboard and mouse mapping.
//!
//! The mapper consumes semantic events from [`crate::input`] and says which key
//! events the virtual keyboard has to emit. It is intentionally independent of
//! the TUI, so the same mapping is active in both direct and TUI modes.

use crate::codes::{
    key_edge, key_event, InputEvent, KeyCode, EV_REL, REL_HWHEEL, REL_WHEEL, KEY_0, KEY_1,
    KEY_2, KEY_3, KEY_4, KEY_5, KEY_6, KEY_7, KEY_8, KEY_9, KEY_A, KEY_APOSTROPHE, KEY_B,
    KEY_BACKSLASH, KEY_C, KEY_COMMA, KEY_D, KEY_DOT, KEY_DOWN, KEY_E, KEY_ENTER, KEY_EQUAL, KEY_F,
    KEY_G, KEY_GRAVE, KEY_H, KEY_I, KEY_J, KEY_K, KEY_L, KEY_LEFT, KEY_LEFTALT, KEY_LEFTBRACE,
    KEY_LEFTCTRL, KEY_LEFTMETA, KEY_LEFTSHIFT, KEY_RIGHT, KEY_UP,
    KEY_M, KEY_MINUS, KEY_N, KEY_O, KEY_P, KEY_Q, KEY_R, KEY_RIGHTBRACE, KEY_S,
    KEY_SEMICOLON, KEY_SLASH, KEY_SPACE, KEY_T, KEY_TAB, KEY_U, KEY_V, KEY_W, KEY_X,
    KEY_Y, KEY_Z,
};
use crate::input::{Button, ButtonState, ControllerEvent, ControllerEventKind, Stick, StickAxis};
use crate::keymap::{
    advertised_keys, base_button_bindings, base_stick_bindings, bindings_view, default_keymap,
    default_layer_bindings, default_profile, first_binding, l1_bindings, layer_action, modified,
    plain, r1_bindings, strokes_view, ActionView, Binding, BindingView, ButtonSet,
    ControllerInput, Direction, KeyAction, KeyStroke, Keymap, Layer, StrokeView,
};
use crate::tables::{lemma_few_inputs, same_combo, ComboTable, InputSet, SourceTable};
use crate::text;
use vstd::prelude::*;
use vstd::string::*;

verus! {

/// A key on the physical keyboard together with the modifiers held with it.
#[derive(Debug, Clone, Copy, PartialEq, Eq, Hash)]
pub struct KeyCombo {
    pub modifiers: &'static [KeyCode],
    pub key: KeyCode,
}

/// The keys of a combo.
#[verifier::ext_equal]
pub struct ComboView {
    pub modifiers: Seq<KeyCode>,
    pub key: KeyCode,
}

impl View for KeyCombo {
    type V = ComboView;

    open spec fn view(&self) -> ComboView {
        ComboView { modifiers: self.modifiers@, key: self.key }
    }
}

/// The Colemak layout: the key of a QWERTY keyboard that gives what the physical
/// key `physical` gives with Colemak.
pub open spec fn colemak(physical: KeyCode) -> KeyCode {
    match physical {
        KEY_E => KEY_F,
        KEY_R => KEY_P,
        KEY_T => KEY_G,
        KEY_Y => KEY_J,
        KEY_U => KEY_L,
        KEY_I => KEY_U,
        KEY_O => KEY_Y,
        KEY_P => KEY_SEMICOLON,
        KEY_S => KEY_R,
        KEY_D => KEY_S,
        KEY_F => KEY_T,
        KEY_G => KEY_D,
        KEY_J => KEY_N,
        KEY_K => KEY_E,
        KEY_L => KEY_I,
        KEY_SEMICOLON => KEY_O,
        KEY_N => KEY_K,
        _ => physical,
    }
}

/// The key gives a letter on a QWERTY keyboard.
pub open spec fn is_letter(key: KeyCode) -> bool {
    ||| KEY_Q <= key <= KEY_P
    ||| KEY_A <= key <= KEY_L
    ||| KEY_Z <= key <= KEY_M
}

/// The physical key that produces a logical QWERTY letter with a Colemak layout;
/// every other key stands for itself.
pub open spec fn physical_key(key: KeyCode) -> KeyCode {
    match key {
        KEY_D => KEY_G,
        KEY_E => KEY_K,
        KEY_F => KEY_E,
        KEY_G => KEY_T,
        KEY_I => KEY_L,
        KEY_J => KEY_Y,
        KEY_K => KEY_N,
        KEY_L => KEY_U,
        KEY_N => KEY_J,
        KEY_O => KEY_SEMICOLON,
        KEY_P => KEY_R,
        KEY_R => KEY_S,
        KEY_S => KEY_D,
        KEY_T => KEY_F,
        KEY_U => KEY_I,
        KEY_Y => KEY_O,
        _ => key,
    }
}

/// Translate a logical QWERTY key to the physical Linux keycode that produces
/// that same character with a Colemak layout. Letters only are translated; every
/// other key is left as it is, also the key of `;` and `:`, which gives `o` and `O`
/// with Colemak.
pub fn colemak_physical_key(key: KeyCode) -> (physical: KeyCode)
    ensures
        physical == physical_key(key),
        is_letter(key) ==> colemak(physical) == key,
        !is_letter(key) ==> physical == key,
{
    match key {
        KEY_D => KEY_G,
        KEY_E => KEY_K,
        KEY_F => KEY_E,
        KEY_G => KEY_T,
        KEY_I => KEY_L,
        KEY_J => KEY_Y,
        KEY_K => KEY_N,
        KEY_L => KEY_U,
        KEY_N => KEY_J,
        KEY_O => KEY_SEMICOLON,
        KEY_P => KEY_R,
        KEY_R => KEY_S,
        KEY_S => KEY_D,
        KEY_T => KEY_F,
        KEY_U => KEY_I,
        KEY_Y => KEY_O,
        _ => key,
    }
}

/// With a Colemak layout the physical key of a letter gives that letter, so no
/// two letters share a key, and the physical key of anything else is its own.
pub proof fn law_letters_come_out_with_colemak(key: KeyCode)
    ensures
        is_letter(key) ==> colemak(physical_key(key)) == key,
        !is_letter(key) ==> physical_key(key) == key,
        forall|other: KeyCode|
            is_letter(key) && is_letter(other) && #[trigger] physical_key(other) == physical_key(
                key,
            ) ==> other == key,
{
}

/// The combo that produces a logical stroke.
pub open spec fn physical(stroke: StrokeView) -> ComboView {
    ComboView { modifiers: stroke.modifiers, key: physical_key(stroke.key) }
}

/// The combo that produces a logical stroke.
pub fn physical_combo(stroke: KeyStroke) -> (combo: KeyCombo)
    ensures
        combo@ == physical(stroke@),
{
    KeyCombo { modifiers: stroke.modifiers, key: colemak_physical_key(stroke.key) }
}

/// The combo that an action holds.
pub open spec fn held_combo(action: ActionView) -> Option<ComboView> {
    match action {
        ActionView::Stroke(stroke) => Some(physical(stroke)),
        _ => None,
    }
}

/// The key of a character that is no upper-case letter, and whether it takes
/// the shift key.
pub open spec fn unshifted_key(character: char) -> Option<(KeyCode, bool)> {
    match character {
        'a' => Some((KEY_A, false)),
        'b' => Some((KEY_B, false)),
        'c' => Some((KEY_C, false)),
        'd' => Some((KEY_D, false)),
        'e' => Some((KEY_E, false)),
        'f' => Some((KEY_F, false)),
        'g' => Some((KEY_G, false)),
        'h' => Some((KEY_H, false)),
        'i' => Some((KEY_I, false)),
        'j' => Some((KEY_J, false)),
        'k' => Some((KEY_K, false)),
        'l' => Some((KEY_L, false)),
        'm' => Some((KEY_M, false)),
        'n' => Some((KEY_N, false)),
        'o' => Some((KEY_O, false)),
        'p' => Some((KEY_P, false)),
        'q' => Some((KEY_Q, false)),
        'r' => Some((KEY_R, false)),
        's' => Some((KEY_S, false)),
        't' => Some((KEY_T, false)),
        'u' => Some((KEY_U, false)),
        'v' => Some((KEY_V, false)),
        'w' => Some((KEY_W, false)),
        'x' => Some((KEY_X, false)),
        'y' => Some((KEY_Y, false)),
        'z' => Some((KEY_Z, false)),
        '0' => Some((KEY_0, false)),
        '1' => Some((KEY_1, false)),
        '2' => Some((KEY_2, false)),
        '3' => Some((KEY_3, false)),
        '4' => Some((KEY_4, false)),
        '5' => Some((KEY_5, false)),
        '6' => Some((KEY_6, false)),
        '7' => Some((KEY_7, false)),
        '8' => Some((KEY_8, false)),
        '9' => Some((KEY_9, false)),
        ')' => Some((KEY_0, true)),
        '!' => Some((KEY_1, true)),
        '@' => Some((KEY_2, true)),
        '#' => Some((KEY_3, true)),
        '$' => Some((KEY_4, true)),
        '%' => Some((KEY_5, true)),
        '^' => Some((KEY_6, true)),
        '&' => Some((KEY_7, true)),
        '*' => Some((KEY_8, true)),
        '(' => Some((KEY_9, true)),
        ' ' => Some((KEY_SPACE, false)),
        '\t' => Some((KEY_TAB, false)),
        '\n' | '\r' => Some((KEY_ENTER, false)),
        '-' => Some((KEY_MINUS, false)),
        '_' => Some((KEY_MINUS, true)),
        '=' => Some((KEY_EQUAL, false)),
        '+' => Some((KEY_EQUAL, true)),
        '[' => Some((KEY_LEFTBRACE, false)),
        '{' => Some((KEY_LEFTBRACE, true)),
        ']' => Some((KEY_RIGHTBRACE, false)),
        '}' => Some((KEY_RIGHTBRACE, true)),
        '\\' => Some((KEY_BACKSLASH, false)),
        '|' => Some((KEY_BACKSLASH, true)),
        ';' => Some((KEY_SEMICOLON, false)),
        ':' => Some((KEY_SEMICOLON, true)),
        '\'' => Some((KEY_APOSTROPHE, false)),
        '"' => Some((KEY_APOSTROPHE, true)),
        '`' => Some((KEY_GRAVE, false)),
        '~' => Some((KEY_GRAVE, true)),
        ',' => Some((KEY_COMMA, false)),
        '<' => Some((KEY_COMMA, true)),
        '.' => Some((KEY_DOT, false)),
        '>' => Some((KEY_DOT, true)),
        '/' => Some((KEY_SLASH, false)),
        '?' => Some((KEY_SLASH, true)),
        _ => None,
    }
}

/// An ASCII upper-case letter.
pub open spec fn is_upper(character: char) -> bool {
    'A' <= character && character <= 'Z'
}

/// The key that types a character, and whether it takes the shift key.
pub open spec fn key_for(character: char) -> Option<(KeyCode, bool)> {
    match unshifted_key(text::lower(character)) {
        Some((key, shift)) => Some((key, is_upper(character) || shift)),
        None => None,
    }
}

/// The key that types a character, and whether it takes the shift key.
pub fn text_key(character: char) -> (r: Option<(KeyCode, bool)>)
    ensures
        r == key_for(character),
{
    let shift: bool = 'A' <= character && character <= 'Z';
    let character = text::to_lower(character);
    let found: Option<(KeyCode, bool)> = match character {
        'a' => Some((KEY_A, false)),
        'b' => Some((KEY_B, false)),
        'c' => Some((KEY_C, false)),
        'd' => Some((KEY_D, false)),
        'e' => Some((KEY_E, false)),
        'f' => Some((KEY_F, false)),
        'g' => Some((KEY_G, false)),
        'h' => Some((KEY_H, false)),
        'i' => Some((KEY_I, false)),
        'j' => Some((KEY_J, false)),
        'k' => Some((KEY_K, false)),
        'l' => Some((KEY_L, false)),
        'm' => Some((KEY_M, false)),
        'n' => Some((KEY_N, false)),
        'o' => Some((KEY_O, false)),
        'p' => Some((KEY_P, false)),
        'q' => Some((KEY_Q, false)),
        'r' => Some((KEY_R, false)),
        's' => Some((KEY_S, false)),
        't' => Some((KEY_T, false)),
        'u' => Some((KEY_U, false)),
        'v' => Some((KEY_V, false)),
        'w' => Some((KEY_W, false)),
        'x' => Some((KEY_X, false)),
        'y' => Some((KEY_Y, false)),
        'z' => Some((KEY_Z, false)),
        '0' => Some((KEY_0, false)),
        '1' => Some((KEY_1, false)),
        '2' => Some((KEY_2, false)),
        '3' => Some((KEY_3, false)),
        '4' => Some((KEY_4, false)),
        '5' => Some((KEY_5, false)),
        '6' => Some((KEY_6, false)),
        '7' => Some((KEY_7, false)),
        '8' => Some((KEY_8, false)),
        '9' => Some((KEY_9, false)),
        ')' => Some((KEY_0, true)),
        '!' => Some((KEY_1, true)),
        '@' => Some((KEY_2, true)),
        '#' => Some((KEY_3, true)),
        '$' => Some((KEY_4, true)),
        '%' => Some((KEY_5, true)),
        '^' => Some((KEY_6, true)),
        '&' => Some((KEY_7, true)),
        '*' => Some((KEY_8, true)),
        '(' => Some((KEY_9, true)),
        ' ' => Some((KEY_SPACE, false)),
        '\t' => Some((KEY_TAB, false)),
        '\n' | '\r' => Some((KEY_ENTER, false)),
        '-' => Some((KEY_MINUS, false)),
        '_' => Some((KEY_MINUS, true)),
        '=' => Some((KEY_EQUAL, false)),
        '+' => Some((KEY_EQUAL, true)),
        '[' => Some((KEY_LEFTBRACE, false)),
        '{' => Some((KEY_LEFTBRACE, true)),
        ']' => Some((KEY_RIGHTBRACE, false)),
        '}' => Some((KEY_RIGHTBRACE, true)),
        '\\' => Some((KEY_BACKSLASH, false)),
        '|' => Some((KEY_BACKSLASH, true)),
        ';' => Some((KEY_SEMICOLON, false)),
        ':' => Some((KEY_SEMICOLON, true)),
        '\'' => Some((KEY_APOSTROPHE, false)),
        '"' => Some((KEY_APOSTROPHE, true)),
        '`' => Some((KEY_GRAVE, false)),
        '~' => Some((KEY_GRAVE, true)),
        ',' => Some((KEY_COMMA, false)),
        '<' => Some((KEY_COMMA, true)),
        '.' => Some((KEY_DOT, false)),
        '>' => Some((KEY_DOT, true)),
        '/' => Some((KEY_SLASH, false)),
        '?' => Some((KEY_SLASH, true)),
        _ => None,
    };
    match found {
        Some((key, punctuation_shift)) => Some((key, shift || punctuation_shift)),
        None => None,
    }
}

/// The stroke of a key with or without the shift key.
pub open spec fn typing_stroke(key: KeyCode, shift: bool) -> StrokeView {
    StrokeView {
        modifiers: if shift {
            seq![KEY_LEFTSHIFT]
        } else {
            Seq::empty()
        },
        key,
    }
}

/// The key events that press or release a combo: modifiers go down before the
/// key and come up behind it, in the opposite order.
pub open spec fn combo_events(combo: ComboView, down: bool) -> Seq<InputEvent> {
    if down {
        combo.modifiers.map_values(|key: KeyCode| key_edge(key, true)).push(
            key_edge(combo.key, true),
        )
    } else {
        seq![key_edge(combo.key, false)] + combo.modifiers.reverse().map_values(
            |key: KeyCode| key_edge(key, false),
        )
    }
}

/// The key events that press or release a combo.
pub fn emit_combo(combo: KeyCombo, down: bool) -> (events: Vec<InputEvent>)
    ensures
        events@ == combo_events(combo@, down),
{
    let modifiers: &[KeyCode] = combo.modifiers;
    let mut events: Vec<InputEvent> = Vec::new();
    if down {
        let mut i: usize = 0;
        while i < modifiers.len()
            invariant
                i <= modifiers.len(),
                events@ == modifiers@.take(i as int).map_values(|key: KeyCode| key_edge(key, true)),
            decreases modifiers.len() - i,
        {
            events.push(key_event(modifiers[i], true));
            assert(events@ =~= modifiers@.take(i + 1).map_values(
                |key: KeyCode| key_edge(key, true),
            ));
            i = i + 1;
        }
        assert(modifiers@.take(i as int) == modifiers@);
        events.push(key_event(combo.key, true));
    } else {
        events.push(key_event(combo.key, false));
        let mut i: usize = modifiers.len();
        let ghost all = combo_events(combo@, false);
        assert(events@ =~= all.take(1));
        while i > 0
            invariant
                i <= modifiers.len(),
                modifiers@ == combo@.modifiers,
                all == combo_events(combo@, false),
                events@ == all.take(1 + modifiers.len() - i),
            decreases i,
        {
            i = i - 1;
            events.push(key_event(modifiers[i], false));
            assert(all[modifiers.len() - i] == key_edge(modifiers@[i as int], false));
            assert(events@ =~= all.take(1 + modifiers.len() - i));
        }
        assert(all.take(all.len() as int) == all);
    }
    events
}

/// On which sides of the deadzone a stick axis lies.
#[derive(Debug, Clone, Copy, PartialEq, Eq, Structural)]
pub struct AxisZone {
    /// The value is less than the negated deadzone.
    pub below: bool,
    /// The value is greater than the deadzone.
    pub above: bool,
}

/// The mutable part of a mapper.
#[derive(Debug)]
pub struct MapperState {
    active_layers: ButtonSet,
    active_sources: SourceTable,
    active_combos: ComboTable,
    sequence_sources: InputSet,
    left_x: AxisZone,
    left_y: AxisZone,
}

/// What a mapper keeps: the layers that are held, the combo that each control
/// holds, the number of controls that hold each combo, the controls whose
/// sequence has been emitted, and where the left stick is.
#[verifier::ext_equal]
pub struct MapperView {
    pub layers: Set<Button>,
    pub sources: Map<ControllerInput, ComboView>,
    pub combos: Map<ComboView, nat>,
    pub sequences: Set<ControllerInput>,
    pub left_x: AxisZone,
    pub left_y: AxisZone,
}

impl View for MapperState {
    type V = MapperView;

    closed spec fn view(&self) -> MapperView {
        MapperView {
            layers: self.active_layers@,
            sources: self.active_sources@,
            combos: self.active_combos@,
            sequences: self.sequence_sources@,
            left_x: self.left_x,
            left_y: self.left_y,
        }
    }
}

/// One batch of key events for the virtual keyboard.
///
/// A mapper leaves its state as if every batch had been accepted. If the
/// keyboard refuses one, `refused` is the state in which the mapper stops.
#[derive(Debug)]
pub struct Emission {
    pub combo: KeyCombo,
    pub down: bool,
    pub refused: MapperState,
}

/// A combo that goes down or comes up, and the state if that is refused.
#[verifier::ext_equal]
pub struct EmissionView {
    pub combo: ComboView,
    pub down: bool,
    pub refused: MapperView,
}

impl View for Emission {
    type V = EmissionView;

    open spec fn view(&self) -> EmissionView {
        EmissionView { combo: self.combo@, down: self.down, refused: self.refused@ }
    }
}

impl Emission {
    /// The key events of the batch.
    pub fn events(&self) -> (events: Vec<InputEvent>)
        ensures
            events@ == combo_events(self.combo@, self.down),
    {
        emit_combo(self.combo, self.down)
    }
}

/// A list of batches.
pub open spec fn emissions_view(emissions: Seq<Emission>) -> Seq<EmissionView> {
    emissions.map_values(|emission: Emission| emission@)
}

/// Every batch of a list can be refused: the state behind it is valid.
pub open spec fn emissions_valid(emissions: Seq<Emission>) -> bool {
    forall|i: int| 0 <= i < emissions.len() ==> (#[trigger] emissions[i]).refused.valid()
}

impl MapperView {
    /// A mapper that has seen no event.
    pub open spec fn fresh() -> MapperView {
        MapperView {
            layers: Set::empty(),
            sources: Map::empty(),
            combos: Map::empty(),
            sequences: Set::empty(),
            left_x: AxisZone { below: false, above: false },
            left_y: AxisZone { below: false, above: false },
        }
    }

    /// The controls that hold a combo.
    pub open spec fn holders(self, combo: ComboView) -> Set<ControllerInput> {
        self.sources.dom().filter(|input: ControllerInput| self.sources[input] == combo)
    }

    /// The count of each combo is the number of controls that hold it, and only
    /// combos that some control holds have a count.
    pub open spec fn counted(self) -> bool {
        &&& self.sources.dom().finite()
        &&& forall|combo: ComboView|
            #![trigger self.combos.contains_key(combo)]
            #![trigger self.holders(combo)]
            {
                &&& self.combos.contains_key(combo) <==> self.holders(combo).len() > 0
                &&& self.combos.contains_key(combo) ==> self.combos[combo] == self.holders(
                    combo,
                ).len()
            }
    }

    /// `input` lets go of the combo that it holds. The combo comes up with the
    /// last control that held it.
    pub open spec fn released(self, input: ControllerInput) -> (MapperView, Seq<EmissionView>) {
        if !self.sources.contains_key(input) {
            (self, Seq::empty())
        } else {
            let combo = self.sources[input];
            let left = (self.combos[combo] - 1) as nat;
            let after = MapperView {
                sources: self.sources.remove(input),
                combos: if left == 0 {
                    self.combos.remove(combo)
                } else {
                    self.combos.insert(combo, left)
                },
                ..self
            };
            (
                after,
                if left == 0 {
                    seq![EmissionView { combo, down: false, refused: after }]
                } else {
                    Seq::empty()
                },
            )
        }
    }

    /// `input`, which holds nothing, takes hold of `combo`. The combo goes down
    /// with the first control that holds it.
    pub open spec fn taken(self, input: ControllerInput, combo: ComboView) -> (
        MapperView,
        Seq<EmissionView>,
    ) {
        let held = if self.combos.contains_key(combo) {
            self.combos[combo]
        } else {
            0
        };
        (
            MapperView {
                sources: self.sources.insert(input, combo),
                combos: self.combos.insert(combo, held + 1),
                ..self
            },
            if held == 0 {
                seq![EmissionView { combo, down: true, refused: self }]
            } else {
                Seq::empty()
            },
        )
    }

    /// `input` holds `combo` from now on, if there is one and the control is
    /// active, and whatever it held before comes up first.
    pub open spec fn sourced(
        self,
        input: ControllerInput,
        combo: Option<ComboView>,
        active: bool,
    ) -> (MapperView, Seq<EmissionView>) {
        if active && self.sources.contains_key(input) && combo == Some(self.sources[input]) {
            (self, Seq::empty())
        } else {
            let (freed, up) = self.released(input);
            match combo {
                Some(combo) if active => {
                    let (held, down) = freed.taken(input, combo);
                    (held, up + down)
                },
                _ => (freed, up),
            }
        }
    }

    /// Every stroke of a sequence goes down and comes up at once.
    pub open spec fn struck(self, strokes: Seq<StrokeView>) -> Seq<EmissionView>
        decreases strokes.len(),
    {
        if strokes.len() == 0 {
            Seq::empty()
        } else {
            self.struck(strokes.drop_last()) + self.strike(strokes.last())
        }
    }

    /// One stroke that goes down and comes up at once.
    pub open spec fn strike(self, stroke: StrokeView) -> Seq<EmissionView> {
        seq![
            EmissionView { combo: physical(stroke), down: true, refused: self },
            EmissionView { combo: physical(stroke), down: false, refused: self },
        ]
    }

    /// The strokes that type a text. Characters without a key are left out.
    pub open spec fn typed(self, text: Seq<char>) -> Seq<EmissionView>
        decreases text.len(),
    {
        if text.len() == 0 {
            Seq::empty()
        } else {
            self.typed(text.drop_last()) + match key_for(text.last()) {
                Some((key, shift)) => self.strike(typing_stroke(key, shift)),
                None => Seq::empty(),
            }
        }
    }

    /// The state with the sequence of `input` marked as emitted or not.
    pub open spec fn with_sequence(self, input: ControllerInput, emitted: bool) -> MapperView {
        MapperView {
            sequences: if emitted {
                self.sequences.insert(input)
            } else {
                self.sequences.remove(input)
            },
            ..self
        }
    }

    /// A control becomes or stays active or inactive.
    #[verifier::opaque]
    pub open spec fn applied(self, keymap: Keymap, input: ControllerInput, active: bool) -> (
        MapperView,
        Seq<EmissionView>,
    ) {
        match keymap.action(input, self.layers) {
            Some(KeyAction::Sequence(strokes)) => {
                if active {
                    let (freed, up) = self.released(input);
                    if freed.sequences.contains(input) {
                        (freed, up)
                    } else {
                        let after = freed.with_sequence(input, true);
                        (after, up + after.struck(strokes_view(strokes@)))
                    }
                } else {
                    self.with_sequence(input, false).released(input)
                }
            },
            Some(action) => self.with_sequence(input, false).sourced(
                input,
                held_combo(action@),
                active,
            ),
            None => self.with_sequence(input, false).sourced(input, None, active),
        }
    }

    /// A button goes down or comes up. Layer modifiers only switch their layer.
    pub open spec fn after_button(self, keymap: Keymap, button: Button, state: ButtonState) -> (
        MapperView,
        Seq<EmissionView>,
    ) {
        let active = state == ButtonState::Down;
        if keymap.modifies_layer(button) {
            (
                MapperView {
                    layers: if active {
                        self.layers.insert(button)
                    } else {
                        self.layers.remove(button)
                    },
                    ..self
                },
                Seq::empty(),
            )
        } else {
            self.applied(keymap, ControllerInput::Button(button), active)
        }
    }

    /// A direction of the left stick becomes or stays active or inactive.
    pub open spec fn tilted(self, keymap: Keymap, direction: Direction, active: bool) -> (
        MapperView,
        Seq<EmissionView>,
    ) {
        self.applied(keymap, ControllerInput::Stick { stick: Stick::Left, direction }, active)
    }

    /// A stick moves along one axis. The left stick acts as four controls,
    /// taken in the order left, right, up, down; the right stick scrolls.
    pub open spec fn after_stick(
        self,
        keymap: Keymap,
        stick: Stick,
        axis: StickAxis,
        zone: AxisZone,
    ) -> (MapperView, Seq<EmissionView>) {
        if stick == Stick::Right {
            (self, Seq::empty())
        } else {
            let moved = match axis {
                StickAxis::X => MapperView { left_x: zone, ..self },
                StickAxis::Y => MapperView { left_y: zone, ..self },
            };
            let (s1, o1) = moved.tilted(keymap, Direction::Left, moved.left_x.below);
            let (s2, o2) = s1.tilted(keymap, Direction::Right, moved.left_x.above);
            let (s3, o3) = s2.tilted(keymap, Direction::Up, moved.left_y.below);
            let (s4, o4) = s3.tilted(keymap, Direction::Down, moved.left_y.above);
            (s4, o1 + o2 + o3 + o4)
        }
    }

    /// A controller event arrives. `zone` is where the value of a stick event
    /// lies; it matters to no other event.
    pub open spec fn after_event(self, keymap: Keymap, kind: ControllerEventKind, zone: AxisZone) -> (
        MapperView,
        Seq<EmissionView>,
    ) {
        match kind {
            ControllerEventKind::Button { button, state } => self.after_button(
                keymap,
                button,
                state,
            ),
            ControllerEventKind::Stick { stick, axis, .. } => self.after_stick(
                keymap,
                stick,
                axis,
                zone,
            ),
            ControllerEventKind::Trigger { .. } => (self, Seq::empty()),
        }
    }
}

proof fn lemma_released_counted(state: MapperView, input: ControllerInput)
    requires
        state.counted(),
    ensures
        state.released(input).0.counted(),
        state.sources.contains_key(input) ==> state.combos.contains_key(state.sources[input])
            && state.combos[state.sources[input]] > 0,
{
    if state.sources.contains_key(input) {
        let combo = state.sources[input];
        let after = state.released(input).0;
        assert(state.holders(combo).contains(input));
        assert(state.holders(combo).finite());
        vstd::set_lib::lemma_set_empty_equivalency_len(state.holders(combo));
        assert forall|c: ComboView|
            #![trigger after.combos.contains_key(c)]
            #![trigger after.holders(c)]
            {
                &&& after.combos.contains_key(c) <==> after.holders(c).len() > 0
                &&& after.combos.contains_key(c) ==> after.combos[c] == after.holders(c).len()
            } by {
            assert(state.combos.contains_key(c) <==> state.holders(c).len() > 0);
            if c == combo {
                assert(after.holders(c) =~= state.holders(c).remove(input));
            } else {
                assert(after.holders(c) =~= state.holders(c));
            }
        }
    }
}

proof fn lemma_taken_counted(state: MapperView, input: ControllerInput, combo: ComboView)
    requires
        state.counted(),
        !state.sources.contains_key(input),
    ensures
        state.taken(input, combo).0.counted(),
        state.combos.contains_key(combo) ==> state.combos[combo] <= 25,
{
    let after = state.taken(input, combo).0;
    assert(state.holders(combo).finite());
    lemma_few_inputs(state.holders(combo));
    assert forall|c: ComboView|
        #![trigger after.combos.contains_key(c)]
        #![trigger after.holders(c)]
        {
            &&& after.combos.contains_key(c) <==> after.holders(c).len() > 0
            &&& after.combos.contains_key(c) ==> after.combos[c] == after.holders(c).len()
        } by {
        assert(state.combos.contains_key(c) <==> state.holders(c).len() > 0);
        if c == combo {
            assert(after.holders(c) =~= state.holders(c).insert(input));
            assert(!state.holders(c).contains(input));
        } else {
            assert(after.holders(c) =~= state.holders(c));
        }
    }
}

impl MapperState {
    /// The counts of the active combos agree with the active controls.
    pub closed spec fn valid(&self) -> bool {
        self.active_combos.distinct() && self@.counted()
    }

    /// A mapper that has seen no event.
    pub fn new() -> (state: MapperState)
        ensures
            state.valid(),
            state@ == MapperView::fresh(),
    {
        let centred = AxisZone { below: false, above: false };
        let state = MapperState {
            active_layers: ButtonSet::new(),
            active_sources: SourceTable::new(),
            active_combos: ComboTable::new(),
            sequence_sources: InputSet::new(),
            left_x: centred,
            left_y: centred,
        };
        assert forall|combo: ComboView|
            #![trigger state@.combos.contains_key(combo)]
            #![trigger state@.holders(combo)]
            {
                &&& state@.combos.contains_key(combo) <==> state@.holders(combo).len() > 0
                &&& state@.combos.contains_key(combo) ==> state@.combos[combo] == state@.holders(
                    combo,
                ).len()
            } by {
            assert(state@.holders(combo) =~= Set::empty());
        }
        state
    }

    /// A copy of the state.
    pub fn copied(&self) -> (state: MapperState)
        requires
            self.valid(),
        ensures
            state.valid(),
            state@ == self@,
    {
        MapperState {
            active_layers: self.active_layers,
            active_sources: self.active_sources,
            active_combos: self.active_combos.copied(),
            sequence_sources: self.sequence_sources,
            left_x: self.left_x,
            left_y: self.left_y,
        }
    }

    /// Adds a batch that leaves the state as it is now if it is refused.
    fn emit(&self, combo: KeyCombo, down: bool, emissions: &mut Vec<Emission>)
        requires
            self.valid(),
            emissions_valid(old(emissions)@),
        ensures
            emissions_valid(final(emissions)@),
            emissions_view(final(emissions)@) == emissions_view(old(emissions)@).push(
                EmissionView { combo: combo@, down, refused: self@ },
            ),
    {
        let emission = Emission { combo, down, refused: self.copied() };
        emissions.push(emission);
        assert(emissions_view(emissions@) =~= emissions_view(old(emissions)@).push(emission@));
    }

    /// Lets `source` go of the combo that it holds.
    fn release_source(&mut self, source: ControllerInput, emissions: &mut Vec<Emission>)
        requires
            old(self).valid(),
            emissions_valid(old(emissions)@),
        ensures
            final(self).valid(),
            final(self)@ == old(self)@.released(source).0,
            emissions_valid(final(emissions)@),
            emissions_view(final(emissions)@) == emissions_view(old(emissions)@) + old(
                self,
            )@.released(source).1,
    {
        proof {
            lemma_released_counted(self@, source);
        }
        let ghost before = self@;
        match self.active_sources.get(source) {
            None => {},
            Some(combo) => {
                self.active_sources.remove(source);
                let count: usize = self.active_combos.count(combo);
                if count == 1 {
                    self.active_combos.remove(combo);
                    assert(self@ =~= before.released(source).0);
                    self.emit(combo, false, emissions);
                } else {
                    self.active_combos.set(combo, count - 1);
                    assert(self@ =~= before.released(source).0);
                }
            },
        }
        assert(emissions_view(emissions@) =~= emissions_view(old(emissions)@)
            + before.released(source).1);
    }

    /// Makes `source` hold `combo` while it is active.
    fn set_source(
        &mut self,
        source: ControllerInput,
        combo: Option<KeyCombo>,
        active: bool,
        emissions: &mut Vec<Emission>,
    )
        requires
            old(self).valid(),
            emissions_valid(old(emissions)@),
        ensures
            final(self).valid(),
            final(self)@ == old(self)@.sourced(source, view_of(combo), active).0,
            emissions_valid(final(emissions)@),
            emissions_view(final(emissions)@) == emissions_view(old(emissions)@) + old(
                self,
            )@.sourced(source, view_of(combo), active).1,
    {
        let ghost before = self@;
        let ghost start = emissions_view(emissions@);
        if active {
            if let (Some(current), Some(wanted)) = (self.active_sources.get(source), combo) {
                if same_combo(current, wanted) {
                    assert(emissions_view(emissions@) =~= start + Seq::<EmissionView>::empty());
                    return;
                }
            }
        }
        self.release_source(source, emissions);
        if active {
            if let Some(wanted) = combo {
                proof {
                    lemma_taken_counted(self@, source, wanted@);
                }
                let ghost freed = self@;
                let count: usize = self.active_combos.count(wanted);
                if count == 0 {
                    self.emit(wanted, true, emissions);
                }
                self.active_combos.set(wanted, count + 1);
                self.active_sources.insert(source, wanted);
                assert(self@ =~= freed.taken(source, wanted@).0);
                assert(emissions_view(emissions@) =~= start + (before.released(source).1
                    + freed.taken(source, wanted@).1));
            }
        }
    }

    /// Presses and releases every stroke of a sequence.
    fn emit_sequence(&self, strokes: &[KeyStroke], emissions: &mut Vec<Emission>)
        requires
            self.valid(),
            emissions_valid(old(emissions)@),
        ensures
            emissions_valid(final(emissions)@),
            emissions_view(final(emissions)@) == emissions_view(old(emissions)@) + self@.struck(
                strokes_view(strokes@),
            ),
    {
        let mut i: usize = 0;
        let ghost start = emissions_view(emissions@);
        assert(emissions_view(emissions@) =~= start + self@.struck(strokes_view(strokes@.take(0))));
        while i < strokes.len()
            invariant
                i <= strokes.len(),
                self.valid(),
                emissions_valid(emissions@),
                emissions_view(emissions@) == start + self@.struck(
                    strokes_view(strokes@.take(i as int)),
                ),
            decreases strokes.len() - i,
        {
            let combo = physical_combo(strokes[i]);
            self.emit(combo, true, emissions);
            self.emit(combo, false, emissions);
            proof {
                let done = strokes_view(strokes@.take(i + 1));
                assert(done.drop_last() =~= strokes_view(strokes@.take(i as int)));
                assert(done.last() == strokes@[i as int]@);
                assert(emissions_view(emissions@) =~= start + self@.struck(done));
            }
            i = i + 1;
        }
        assert(strokes@.take(i as int) == strokes@);
    }
}

/// The combo behind an optional combo.
pub open spec fn view_of(combo: Option<KeyCombo>) -> Option<ComboView> {
    match combo {
        Some(combo) => Some(combo@),
        None => None,
    }
}

/// A list of combos.
pub open spec fn combos_view(combos: Seq<KeyCombo>) -> Seq<ComboView> {
    combos.map_values(|combo: KeyCombo| combo@)
}

/// The wheel events for whole scroll steps to the right and down.
pub open spec fn wheel_events(horizontal: i32, vertical: i32) -> Seq<InputEvent> {
    (if horizontal == 0 {
        Seq::empty()
    } else {
        seq![InputEvent { event_type: EV_REL, code: REL_HWHEEL, value: horizontal }]
    }) + (if vertical == 0 {
        Seq::empty()
    } else {
        seq![InputEvent { event_type: EV_REL, code: REL_WHEEL, value: (-vertical) as i32 }]
    })
}

/// The wheel events for whole scroll steps to the right and down. Linux uses
/// positive `REL_WHEEL` for scrolling up.
pub fn scroll_events(horizontal: i32, vertical: i32) -> (events: Vec<InputEvent>)
    requires
        vertical != i32::MIN,
    ensures
        events@ == wheel_events(horizontal, vertical),
{
    let mut events: Vec<InputEvent> = Vec::new();
    if horizontal != 0 {
        events.push(InputEvent::new(EV_REL, REL_HWHEEL, horizontal));
    }
    if vertical != 0 {
        events.push(InputEvent::new(EV_REL, REL_WHEEL, -vertical));
    }
    assert(events@ =~= wheel_events(horizontal, vertical));
    events
}

/// The combo that an action holds while its control is active.
pub fn combo_for(action: KeyAction) -> (combo: Option<KeyCombo>)
    ensures
        view_of(combo) == held_combo(action@),
{
    match action {
        KeyAction::Stroke(stroke) => Some(physical_combo(stroke)),
        _ => None,
    }
}

/// Maps controller events to keyboard events by a profile.
#[derive(Debug)]
pub struct KeyboardMapper {
    pub keymap: Keymap,
    pub state: MapperState,
}

/// What a controller event asks of the virtual devices.
#[derive(Debug)]
pub struct Handled {
    /// The batches for the keyboard, in order.
    pub emissions: Vec<Emission>,
    /// The axis of the right stick that moved, which scrolls.
    pub scroll: Option<StickAxis>,
}

/// The axis that a controller event scrolls along.
pub open spec fn scroll_axis(kind: ControllerEventKind) -> Option<StickAxis> {
    match kind {
        ControllerEventKind::Stick { stick: Stick::Right, axis, .. } => Some(axis),
        _ => None,
    }
}

impl KeyboardMapper {
    /// Create a mapper with the default profile.
    pub fn new() -> (mapper: KeyboardMapper)
        ensures
            mapper.keymap@ == default_profile(),
            mapper.state.valid(),
            mapper.state@ == MapperView::fresh(),
    {
        Self::with_keymap(default_keymap())
    }

    /// Create a mapper with a specific profile.
    ///
    /// Keeping profile selection outside the event engine makes it possible to
    /// choose an application-specific keymap later without duplicating input
    /// handling.
    pub fn with_keymap(keymap: Keymap) -> (mapper: KeyboardMapper)
        ensures
            mapper.keymap == keymap,
            mapper.state.valid(),
            mapper.state@ == MapperView::fresh(),
    {
        KeyboardMapper { keymap, state: MapperState::new() }
    }

    /// Type text through the virtual keyboard. Letter keycodes are mapped to
    /// Colemak in the same way as the controller's logical mappings.
    pub fn type_text(&self, text: &str) -> (emissions: Vec<Emission>)
        requires
            self.state.valid(),
        ensures
            emissions_valid(emissions@),
            emissions_view(emissions@) == self.state@.typed(text@),
    {
        let chars: Vec<char> = text::chars_of(text);
        let mut emissions: Vec<Emission> = Vec::new();
        let mut i: usize = 0;
        assert(emissions_view(emissions@) =~= self.state@.typed(chars@.take(0)));
        while i < chars.len()
            invariant
                i <= chars.len(),
                self.state.valid(),
                emissions_valid(emissions@),
                emissions_view(emissions@) == self.state@.typed(chars@.take(i as int)),
            decreases chars.len() - i,
        {
            let ghost before = emissions_view(emissions@);
            assert(chars@.take(i + 1).drop_last() =~= chars@.take(i as int));
            if let Some((key, shift)) = text_key(chars[i]) {
                let modifiers: &'static [KeyCode] = if shift {
                    &[KEY_LEFTSHIFT]
                } else {
                    &[]
                };
                let stroke = KeyStroke::with_modifiers(modifiers, key);
                assert(stroke@ =~= typing_stroke(key, shift));
                let combo = physical_combo(stroke);
                self.state.emit(combo, true, &mut emissions);
                self.state.emit(combo, false, &mut emissions);
                assert(emissions_view(emissions@) =~= before + self.state@.strike(stroke@));
            } else {
                assert(before =~= before + Seq::<EmissionView>::empty());
            }
            i = i + 1;
        }
        assert(chars@.take(i as int) == chars@);
        emissions
    }

    /// Forgets every control that is held and returns the combos that have to
    /// come up for that, each once.
    pub fn release_all(&mut self) -> (released: Vec<KeyCombo>)
        requires
            old(self).state.valid(),
        ensures
            final(self).keymap == old(self).keymap,
            final(self).state.valid(),
            final(self).state@ == (MapperView {
                sources: Map::empty(),
                combos: Map::empty(),
                ..old(self).state@
            }),
            combos_view(released@).no_duplicates(),
            combos_view(released@).to_set() == old(self).state@.combos.dom(),
    {
        let combos = self.state.active_combos.copied();
        let mut released: Vec<KeyCombo> = Vec::new();
        let mut i: usize = 0;
        while i < combos.len()
            invariant
                i <= combos.order().len(),
                combos_view(released@) == combos.order().take(i as int),
            decreases combos.order().len() - i,
        {
            let ghost before = released@;
            released.push(combos.at(i));
            assert(combos_view(released@) =~= combos_view(before).push(combos.order()[i as int]));
            assert(combos_view(released@) =~= combos.order().take(i + 1));
            i = i + 1;
        }
        proof {
            combos.lemma_order();
            assert(combos.order().take(i as int) =~= combos.order());
        }
        let fresh = MapperState::new();
        self.state.active_sources = fresh.active_sources;
        self.state.active_combos = fresh.active_combos;
        proof {
            lemma_same_sources_counted(MapperView::fresh(), self.state@);
        }
        released
    }

    /// Takes back what a batch stands for, because the keyboard refused it: the
    /// mapper goes on from the state that the batch carries.
    pub fn refuse(&mut self, emission: Emission)
        requires
            emission.refused.valid(),
        ensures
            final(self).keymap == old(self).keymap,
            final(self).state == emission.refused,
    {
        self.state = emission.refused;
    }

    /// Follows a controller event. `zone` is where the value of a stick event
    /// lies; it matters to no other event.
    pub fn handle(&mut self, event: ControllerEvent, zone: AxisZone) -> (handled: Handled)
        requires
            old(self).state.valid(),
        ensures
            final(self).keymap == old(self).keymap,
            final(self).state.valid(),
            final(self).state@ == old(self).state@.after_event(
                old(self).keymap,
                event.kind,
                zone,
            ).0,
            emissions_valid(handled.emissions@),
            emissions_view(handled.emissions@) == old(self).state@.after_event(
                old(self).keymap,
                event.kind,
                zone,
            ).1,
            handled.scroll == scroll_axis(event.kind),
    {
        let mut emissions: Vec<Emission> = Vec::new();
        let mut scroll: Option<StickAxis> = None;
        assert(emissions_view(emissions@) =~= Seq::<EmissionView>::empty());
        match event.kind {
            ControllerEventKind::Button { button, state } => {
                self.handle_button(button, state, &mut emissions);
            },
            ControllerEventKind::Stick { stick, axis, .. } => {
                if stick == Stick::Right {
                    scroll = Some(axis);
                }
                self.handle_stick(stick, axis, zone, &mut emissions);
            },
            ControllerEventKind::Trigger { .. } => {},
        }
        assert(emissions_view(emissions@) =~= old(self).state@.after_event(
            old(self).keymap,
            event.kind,
            zone,
        ).1);
        Handled { emissions, scroll }
    }

    /// Follows a button.
    fn handle_button(&mut self, button: Button, state: ButtonState, emissions: &mut Vec<Emission>)
        requires
            old(self).state.valid(),
            emissions_valid(old(emissions)@),
        ensures
            final(self).keymap == old(self).keymap,
            final(self).state.valid(),
            final(self).state@ == old(self).state@.after_button(old(self).keymap, button, state).0,
            emissions_valid(final(emissions)@),
            emissions_view(final(emissions)@) == emissions_view(old(emissions)@) + old(
                self,
            ).state@.after_button(old(self).keymap, button, state).1,
    {
        let active: bool = state == ButtonState::Down;
        let ghost before = self.state@;
        if self.keymap.is_layer_modifier(button) {
            if active {
                self.state.active_layers.insert(button);
            } else {
                self.state.active_layers.remove(button);
            }
            proof {
                lemma_same_sources_counted(before, self.state@);
            }
            assert(emissions_view(emissions@) =~= emissions_view(old(emissions)@) + Seq::<
                EmissionView,
            >::empty());
            return;
        }
        self.apply_action(ControllerInput::Button(button), active, emissions);
    }

    /// Follows a stick.
    fn handle_stick(
        &mut self,
        stick: Stick,
        axis: StickAxis,
        zone: AxisZone,
        emissions: &mut Vec<Emission>,
    )
        requires
            old(self).state.valid(),
            emissions_valid(old(emissions)@),
        ensures
            final(self).keymap == old(self).keymap,
            final(self).state.valid(),
            final(self).state@ == old(self).state@.after_stick(
                old(self).keymap,
                stick,
                axis,
                zone,
            ).0,
            emissions_valid(final(emissions)@),
            emissions_view(final(emissions)@) == emissions_view(old(emissions)@) + old(
                self,
            ).state@.after_stick(old(self).keymap, stick, axis, zone).1,
    {
        let ghost before = self.state@;
        let ghost start = emissions_view(emissions@);
        if stick == Stick::Right {
            assert(start =~= start + Seq::<EmissionView>::empty());
            return;
        }
        match axis {
            StickAxis::X => self.state.left_x = zone,
            StickAxis::Y => self.state.left_y = zone,
        }
        proof {
            lemma_same_sources_counted(before, self.state@);
        }
        let ghost moved = match axis {
            StickAxis::X => MapperView { left_x: zone, ..before },
            StickAxis::Y => MapperView { left_y: zone, ..before },
        };
        assert(self.state@ =~= moved);
        let left_x = self.state.left_x;
        let left_y = self.state.left_y;
        let left = ControllerInput::Stick { stick, direction: Direction::Left };
        self.apply_action(left, left_x.below, emissions);
        let right = ControllerInput::Stick { stick, direction: Direction::Right };
        self.apply_action(right, left_x.above, emissions);
        let up = ControllerInput::Stick { stick, direction: Direction::Up };
        self.apply_action(up, left_y.below, emissions);
        let down = ControllerInput::Stick { stick, direction: Direction::Down };
        self.apply_action(down, left_y.above, emissions);
        assert(emissions_view(emissions@) =~= start + before.after_stick(
            self.keymap,
            stick,
            axis,
            zone,
        ).1);
    }

    /// Makes a control active or inactive.
    fn apply_action(&mut self, input: ControllerInput, active: bool, emissions: &mut Vec<Emission>)
        requires
            old(self).state.valid(),
            emissions_valid(old(emissions)@),
        ensures
            final(self).keymap == old(self).keymap,
            final(self).state.valid(),
            final(self).state@ == old(self).state@.applied(old(self).keymap, input, active).0,
            emissions_valid(final(emissions)@),
            emissions_view(final(emissions)@) == emissions_view(old(emissions)@) + old(
                self,
            ).state@.applied(old(self).keymap, input, active).1,
    {
        let ghost before = self.state@;
        let ghost start = emissions_view(emissions@);
        proof {
            reveal(MapperView::applied);
        }
        match self.keymap.action_for(input, &self.state.active_layers) {
            Some(KeyAction::Sequence(strokes)) => {
                // A layer can change while a control is held. Release any old
                // held stroke before treating a new press as a sequence.
                if active {
                    self.state.release_source(input, emissions);
                    if !self.state.sequence_sources.contains(input) {
                        let ghost freed = self.state@;
                        self.state.sequence_sources.insert(input);
                        proof {
                            lemma_same_sources_counted(freed, self.state@);
                        }
                        assert(self.state@ =~= freed.with_sequence(input, true));
                        self.state.emit_sequence(strokes, emissions);
                        assert(emissions_view(emissions@) =~= start + before.applied(
                            self.keymap,
                            input,
                            active,
                        ).1);
                    }
                } else {
                    self.state.sequence_sources.remove(input);
                    proof {
                        lemma_same_sources_counted(before, self.state@);
                    }
                    assert(self.state@ =~= before.with_sequence(input, false));
                    self.state.release_source(input, emissions);
                }
            },
            Some(action) => {
                self.state.sequence_sources.remove(input);
                proof {
                    lemma_same_sources_counted(before, self.state@);
                }
                assert(self.state@ =~= before.with_sequence(input, false));
                self.state.set_source(input, combo_for(action), active, emissions);
            },
            None => {
                self.state.sequence_sources.remove(input);
                proof {
                    lemma_same_sources_counted(before, self.state@);
                }
                assert(self.state@ =~= before.with_sequence(input, false));
                self.state.set_source(input, None, active, emissions);
            },
        }
    }
}

/// A state with the same controls and counts is counted too.
proof fn lemma_same_sources_counted(a: MapperView, b: MapperView)
    requires
        a.counted(),
        a.sources == b.sources,
        a.combos == b.combos,
    ensures
        b.counted(),
{
    assert forall|combo: ComboView|
        #![trigger b.combos.contains_key(combo)]
        #![trigger b.holders(combo)]
        {
            &&& b.combos.contains_key(combo) <==> b.holders(combo).len() > 0
            &&& b.combos.contains_key(combo) ==> b.combos[combo] == b.holders(combo).len()
        } by {
        assert(a.holders(combo) =~= b.holders(combo));
        assert(a.combos.contains_key(combo) <==> a.holders(combo).len() > 0);
    }
}

/// The combos that are down after a list of batches, starting from `down`.
pub open spec fn down_after(down: Set<ComboView>, emissions: Seq<EmissionView>) -> Set<ComboView>
    decreases emissions.len(),
{
    if emissions.len() == 0 {
        down
    } else {
        let before = down_after(down, emissions.drop_last());
        if emissions.last().down {
            before.insert(emissions.last().combo)
        } else {
            before.remove(emissions.last().combo)
        }
    }
}

proof fn lemma_down_concat(down: Set<ComboView>, a: Seq<EmissionView>, b: Seq<EmissionView>)
    ensures
        down_after(down, a + b) == down_after(down_after(down, a), b),
    decreases b.len(),
{
    if b.len() == 0 {
        assert(a + b =~= a);
    } else {
        lemma_down_concat(down, a, b.drop_last());
        assert((a + b).drop_last() =~= a + b.drop_last());
    }
}

proof fn lemma_down_one(down: Set<ComboView>, emission: EmissionView)
    ensures
        down_after(down, seq![emission]) == (if emission.down {
            down.insert(emission.combo)
        } else {
            down.remove(emission.combo)
        }),
{
    assert(seq![emission].drop_last() =~= Seq::empty());
    assert(down_after(down, Seq::<EmissionView>::empty()) == down);
}

impl MapperView {
    /// A stroke of a sequence is held by a control.
    pub open spec fn holds_stroke(self, strokes: Seq<StrokeView>) -> bool {
        exists|i: int|
            0 <= i < strokes.len() && self.combos.contains_key(#[trigger] physical(strokes[i]))
    }

    /// Making `input` active starts a sequence with a stroke that another
    /// control holds down.
    pub open spec fn strikes_held(self, keymap: Keymap, input: ControllerInput, active: bool) -> bool {
        &&& active
        &&& !self.sequences.contains(input)
        &&& keymap.action(input, self.layers) matches Some(KeyAction::Sequence(strokes))
        &&& self.released(input).0.holds_stroke(strokes_view(strokes@))
    }
}

proof fn lemma_struck_leaves_nothing_down(
    state: MapperView,
    down: Set<ComboView>,
    strokes: Seq<StrokeView>,
)
    requires
        forall|i: int| 0 <= i < strokes.len() ==> !down.contains(#[trigger] physical(strokes[i])),
    ensures
        down_after(down, state.struck(strokes)) == down,
    decreases strokes.len(),
{
    if strokes.len() > 0 {
        let first = strokes.drop_last();
        let combo = physical(strokes.last());
        assert forall|i: int| 0 <= i < first.len() implies !down.contains(
            #[trigger] physical(first[i]),
        ) by {
            assert(first[i] == strokes[i]);
        }
        lemma_struck_leaves_nothing_down(state, down, first);
        let press = EmissionView { combo, down: true, refused: state };
        let release = EmissionView { combo, down: false, refused: state };
        assert(state.strike(strokes.last()) =~= seq![press] + seq![release]);
        lemma_down_concat(down, state.struck(first), state.strike(strokes.last()));
        lemma_down_concat(down, seq![press], seq![release]);
        lemma_down_one(down, press);
        lemma_down_one(down.insert(combo), release);
        assert(!down.contains(physical(strokes[strokes.len() - 1])));
        assert(down.insert(combo).remove(combo) =~= down);
    }
}

proof fn lemma_released_down(state: MapperView, input: ControllerInput)
    requires
        state.counted(),
    ensures
        down_after(state.combos.dom(), state.released(input).1) == state.released(
            input,
        ).0.combos.dom(),
{
    lemma_released_counted(state, input);
    if state.sources.contains_key(input) {
        let combo = state.sources[input];
        let (after, out) = state.released(input);
        if state.combos[combo] == 1 {
            lemma_down_one(state.combos.dom(), out[0]);
            assert(out =~= seq![out[0]]);
            assert(after.combos.dom() =~= state.combos.dom().remove(combo));
        } else {
            assert(after.combos.dom() =~= state.combos.dom());
        }
    }
}

proof fn lemma_sourced_down(
    state: MapperView,
    input: ControllerInput,
    combo: Option<ComboView>,
    active: bool,
)
    requires
        state.counted(),
    ensures
        state.sourced(input, combo, active).0.counted(),
        down_after(state.combos.dom(), state.sourced(input, combo, active).1) == state.sourced(
            input,
            combo,
            active,
        ).0.combos.dom(),
{
    lemma_released_counted(state, input);
    lemma_released_down(state, input);
    let (freed, up) = state.released(input);
    if let Some(wanted) = combo {
        lemma_taken_counted(freed, input, wanted);
        let (held, down) = freed.taken(input, wanted);
        lemma_down_concat(state.combos.dom(), up, down);
        assert(freed.holders(wanted).finite());
        if freed.combos.contains_key(wanted) {
            assert(freed.combos[wanted] == freed.holders(wanted).len());
            assert(held.combos.dom() =~= freed.combos.dom());
        } else {
            lemma_down_one(freed.combos.dom(), down[0]);
            assert(down =~= seq![down[0]]);
            assert(held.combos.dom() =~= freed.combos.dom().insert(wanted));
        }
    }
}

/// Whatever a control does, the counts of the active combos stay in step with
/// the controls that hold them, and replaying the emitted batches from the
/// combos that were down gives the combos that are down afterwards. The one
/// exception is a sequence that strikes a combo which another control holds:
/// its release brings the held combo up.
pub proof fn law_batches_bring_the_held_combos_about(
    state: MapperView,
    keymap: Keymap,
    input: ControllerInput,
    active: bool,
)
    requires
        state.counted(),
    ensures
        state.applied(keymap, input, active).0.counted(),
        !state.strikes_held(keymap, input, active) ==> down_after(
            state.combos.dom(),
            state.applied(keymap, input, active).1,
        ) == state.applied(keymap, input, active).0.combos.dom(),
{
    reveal(MapperView::applied);
    let unmarked = state.with_sequence(input, false);
    lemma_same_sources_counted(state, unmarked);
    lemma_released_counted(state, input);
    lemma_released_down(state, input);
    lemma_released_counted(unmarked, input);
    lemma_released_down(unmarked, input);
    lemma_sourced_down(unmarked, input, None, active);
    match keymap.action(input, state.layers) {
        Some(KeyAction::Sequence(strokes)) => {
            let (freed, up) = state.released(input);
            let after = freed.with_sequence(input, true);
            let out = after.struck(strokes_view(strokes@));
            lemma_same_sources_counted(freed, after);
            lemma_down_concat(state.combos.dom(), up, out);
            if active && !state.sequences.contains(input) && !freed.holds_stroke(
                strokes_view(strokes@),
            ) {
                lemma_struck_leaves_nothing_down(after, freed.combos.dom(), strokes_view(strokes@));
            }
        },
        Some(action) => {
            lemma_sourced_down(unmarked, input, held_combo(action@), active);
        },
        None => {},
    }
}

/// How many batches of a list take `combo` down, or bring it up.
pub open spec fn batches_of(emissions: Seq<EmissionView>, combo: ComboView, down: bool) -> nat
    decreases emissions.len(),
{
    if emissions.len() == 0 {
        0
    } else {
        batches_of(emissions.drop_last(), combo, down) + if emissions.last().combo == combo
            && emissions.last().down == down {
            1nat
        } else {
            0nat
        }
    }
}

proof fn lemma_batches_concat(
    a: Seq<EmissionView>,
    b: Seq<EmissionView>,
    combo: ComboView,
    down: bool,
)
    ensures
        batches_of(a + b, combo, down) == batches_of(a, combo, down) + batches_of(b, combo, down),
    decreases b.len(),
{
    if b.len() == 0 {
        assert(a + b =~= a);
    } else {
        lemma_batches_concat(a, b.drop_last(), combo, down);
        assert((a + b).drop_last() =~= a + b.drop_last());
    }
}

proof fn lemma_batches_one(emission: EmissionView, combo: ComboView, down: bool)
    ensures
        batches_of(seq![emission], combo, down) == (if emission.combo == combo && emission.down
            == down {
            1nat
        } else {
            0nat
        }),
{
    assert(seq![emission].drop_last() =~= Seq::empty());
    assert(batches_of(Seq::<EmissionView>::empty(), combo, down) == 0);
}

proof fn lemma_released_batches(state: MapperView, input: ControllerInput, c: ComboView)
    requires
        state.counted(),
    ensures
        ({
            let (freed, up) = state.released(input);
            let n = state.holders(c).len();
            let m = freed.holders(c).len();
            &&& batches_of(up, c, true) == 0
            &&& batches_of(up, c, false) == (if n == 1 && m == 0 { 1nat } else { 0nat })
            &&& m == (if state.sources.contains_key(input) && state.sources[input] == c {
                n - 1
            } else {
                n as int
            })
        }),
{
    let (freed, up) = state.released(input);
    lemma_released_counted(state, input);
    assert(state.combos.contains_key(c) <==> state.holders(c).len() > 0);
    if state.sources.contains_key(input) {
        let held = state.sources[input];
        if held == c {
            assert(freed.holders(c) =~= state.holders(c).remove(input));
            assert(state.holders(c).contains(input));
        } else {
            assert(freed.holders(c) =~= state.holders(c));
        }
        if up.len() > 0 {
            assert(up =~= seq![up[0]]);
            lemma_batches_one(up[0], c, true);
            lemma_batches_one(up[0], c, false);
        }
    }
}

proof fn lemma_taken_batches(
    state: MapperView,
    input: ControllerInput,
    combo: ComboView,
    c: ComboView,
)
    requires
        state.counted(),
        !state.sources.contains_key(input),
    ensures
        ({
            let (held, down) = state.taken(input, combo);
            let n = state.holders(c).len();
            let m = held.holders(c).len();
            &&& batches_of(down, c, false) == 0
            &&& batches_of(down, c, true) == (if n == 0 && m == 1 { 1nat } else { 0nat })
            &&& m == (if combo == c { n + 1 } else { n })
        }),
{
    let (held, down) = state.taken(input, combo);
    assert(state.combos.contains_key(c) <==> state.holders(c).len() > 0);
    assert(state.combos.contains_key(combo) ==> state.combos[combo] == state.holders(combo).len());
    assert(state.combos.contains_key(combo) <==> state.holders(combo).len() > 0);
    if combo == c {
        assert(held.holders(c) =~= state.holders(c).insert(input));
        assert(!state.holders(c).contains(input));
    } else {
        assert(held.holders(c) =~= state.holders(c));
    }
    if down.len() > 0 {
        assert(down =~= seq![down[0]]);
        lemma_batches_one(down[0], c, true);
        lemma_batches_one(down[0], c, false);
    }
}

/// A combo goes down only when the number of controls that hold it goes from none
/// to one, and comes up only when it goes from one to none. A control holds at
/// most one combo: what it held before comes up before another one goes down, and
/// taking hold of the same combo again emits nothing.
pub proof fn law_first_holder_presses_and_last_releases(
    state: MapperView,
    input: ControllerInput,
    combo: Option<ComboView>,
    active: bool,
    c: ComboView,
)
    requires
        state.counted(),
    ensures
        ({
            let (after, out) = state.sourced(input, combo, active);
            let n = state.holders(c).len();
            let m = after.holders(c).len();
            &&& after.counted()
            &&& batches_of(out, c, true) == (if n == 0 && m == 1 { 1nat } else { 0nat })
            &&& batches_of(out, c, false) == (if n == 1 && m == 0 { 1nat } else { 0nat })
            &&& n <= m + 1 && m <= n + 1
            &&& out.len() <= 2
            &&& out.len() == 2 ==> !out[0].down && out[1].down
            &&& active && combo is Some ==> after.sourced(input, combo, active) == (
                after,
                Seq::<EmissionView>::empty(),
            )
            &&& after.sources == (match combo {
                Some(combo) if active => state.sources.insert(input, combo),
                _ => state.sources.remove(input),
            })
        }),
{
    let (after, out) = state.sourced(input, combo, active);
    lemma_sourced_down(state, input, combo, active);
    if active && state.sources.contains_key(input) && combo == Some(state.sources[input]) {
        assert(after.sources =~= state.sources.insert(input, combo->0));
    } else {
        let (freed, up) = state.released(input);
        lemma_released_counted(state, input);
        lemma_released_batches(state, input, c);
        assert(freed.sources =~= state.sources.remove(input));
        match combo {
            Some(wanted) if active => {
                let (held, down) = freed.taken(input, wanted);
                lemma_taken_batches(freed, input, wanted, c);
                lemma_batches_concat(up, down, c, true);
                lemma_batches_concat(up, down, c, false);
                assert(held.sources =~= state.sources.insert(input, wanted));
            },
            _ => {},
        }
    }
}

/// A control that is told to hold a combo, or to hold none.
pub struct Hold {
    pub input: ControllerInput,
    pub combo: Option<ComboView>,
    pub active: bool,
}

impl MapperView {
    /// The state behind a run of holds and releases, and the batches emitted on
    /// the way.
    pub open spec fn sourced_run(self, holds: Seq<Hold>) -> (MapperView, Seq<EmissionView>)
        decreases holds.len(),
    {
        if holds.len() == 0 {
            (self, Seq::empty())
        } else {
            let (before, out) = self.sourced_run(holds.drop_last());
            let hold = holds.last();
            let (after, more) = before.sourced(hold.input, hold.combo, hold.active);
            (after, out + more)
        }
    }
}

/// Over any run of holds and releases that a new mapper goes through, a combo has
/// gone down once more than it has come up while some control holds it, and as
/// often otherwise.
pub proof fn law_presses_and_releases_balance(holds: Seq<Hold>, c: ComboView)
    ensures
        ({
            let (after, out) = MapperView::fresh().sourced_run(holds);
            &&& after.counted()
            &&& batches_of(out, c, true) == batches_of(out, c, false) + if after.holders(c).len()
                > 0 {
                1nat
            } else {
                0nat
            }
        }),
    decreases holds.len(),
{
    let fresh = MapperView::fresh();
    if holds.len() == 0 {
        assert forall|combo: ComboView| #[trigger] fresh.holders(combo).len() == 0 by {
            assert(fresh.holders(combo) =~= Set::empty());
        }
        assert(fresh.counted());
        assert(batches_of(Seq::<EmissionView>::empty(), c, true) == 0);
        assert(batches_of(Seq::<EmissionView>::empty(), c, false) == 0);
    } else {
        let hold = holds.last();
        law_presses_and_releases_balance(holds.drop_last(), c);
        let (before, out) = fresh.sourced_run(holds.drop_last());
        let more = before.sourced(hold.input, hold.combo, hold.active).1;
        law_first_holder_presses_and_last_releases(
            before,
            hold.input,
            hold.combo,
            hold.active,
            c,
        );
        lemma_batches_concat(out, more, c, true);
        lemma_batches_concat(out, more, c, false);
    }
}

/// A control that stays active does nothing more: repeating what made it active
/// emits nothing and changes nothing.
pub proof fn law_staying_active_is_silent(state: MapperView, keymap: Keymap, input: ControllerInput)
    requires
        state.counted(),
    ensures
        state.applied(keymap, input, true).0.applied(keymap, input, true) == (
            state.applied(keymap, input, true).0,
            Seq::<EmissionView>::empty(),
        ),
{
    reveal(MapperView::applied);
    let first = state.applied(keymap, input, true).0;
    assert(first.with_sequence(input, false).sequences =~= first.sequences.remove(input));
}

/// Pressing a control and letting it go, with nothing in between, leaves the
/// mapper as it was, and every combo that the press took down has come up.
pub proof fn law_release_undoes_press(state: MapperView, keymap: Keymap, input: ControllerInput)
    requires
        state.counted(),
        !state.sources.contains_key(input),
        !state.sequences.contains(input),
    ensures
        state.applied(keymap, input, true).0.applied(keymap, input, false).0 == state,
        !state.strikes_held(keymap, input, true) ==> down_after(
            state.combos.dom(),
            state.applied(keymap, input, true).1 + state.applied(keymap, input, true).0.applied(
                keymap,
                input,
                false,
            ).1,
        ) == state.combos.dom(),
{
    reveal(MapperView::applied);
    let (held, down) = state.applied(keymap, input, true);
    let (after, up) = held.applied(keymap, input, false);
    law_batches_bring_the_held_combos_about(state, keymap, input, true);
    law_batches_bring_the_held_combos_about(held, keymap, input, false);
    lemma_down_concat(state.combos.dom(), down, up);
    assert(state.with_sequence(input, false) =~= state);
    if let Some(action) = keymap.action(input, state.layers) {
        if let Some(combo) = held_combo(action@) {
            lemma_taken_counted(state, input, combo);
            assert(held.combos.contains_key(combo));
            assert(state.combos.contains_key(combo) <==> state.holders(combo).len() > 0);
        }
    }
    assert(after.sources =~= state.sources);
    assert(after.combos =~= state.combos);
    assert(after.sequences =~= state.sequences);
}

/// A control that is let go holds nothing any more, whatever layers were switched
/// while it was held.
pub proof fn law_letting_go_always_releases(
    state: MapperView,
    keymap: Keymap,
    input: ControllerInput,
)
    ensures
        !state.applied(keymap, input, false).0.sources.contains_key(input),
        !state.applied(keymap, input, false).0.sequences.contains(input),
{
    reveal(MapperView::applied);
}

/// A control that a layer disables emits nothing of its own: it only lets go of
/// what it held before.
pub proof fn law_disabled_controls_only_let_go(
    state: MapperView,
    keymap: Keymap,
    input: ControllerInput,
    active: bool,
)
    requires
        keymap.action(input, state.layers) == Some(KeyAction::Disabled),
    ensures
        state.applied(keymap, input, active) == state.with_sequence(input, false).released(input),
        !state.sources.contains_key(input) ==> state.applied(keymap, input, active).1.len() == 0,
{
    reveal(MapperView::applied);
}

/// Every event keeps the counts in step with the controls.
pub proof fn law_every_event_keeps_the_counts(
    state: MapperView,
    keymap: Keymap,
    kind: ControllerEventKind,
    zone: AxisZone,
)
    requires
        state.counted(),
    ensures
        state.after_event(keymap, kind, zone).0.counted(),
{
    match kind {
        ControllerEventKind::Button { button, state: edge } => {
            let active = edge == ButtonState::Down;
            if keymap.modifies_layer(button) {
                lemma_same_sources_counted(state, state.after_event(keymap, kind, zone).0);
            } else {
                law_batches_bring_the_held_combos_about(
                    state,
                    keymap,
                    ControllerInput::Button(button),
                    active,
                );
            }
        },
        ControllerEventKind::Stick { stick, axis, .. } => {
            if stick == Stick::Left {
                let s0 = match axis {
                    StickAxis::X => MapperView { left_x: zone, ..state },
                    StickAxis::Y => MapperView { left_y: zone, ..state },
                };
                lemma_same_sources_counted(state, s0);
                let left = ControllerInput::Stick { stick, direction: Direction::Left };
                let s1 = s0.applied(keymap, left, s0.left_x.below).0;
                law_batches_bring_the_held_combos_about(s0, keymap, left, s0.left_x.below);
                let right = ControllerInput::Stick { stick, direction: Direction::Right };
                let s2 = s1.applied(keymap, right, s0.left_x.above).0;
                law_batches_bring_the_held_combos_about(s1, keymap, right, s0.left_x.above);
                let up = ControllerInput::Stick { stick, direction: Direction::Up };
                let s3 = s2.applied(keymap, up, s0.left_y.below).0;
                law_batches_bring_the_held_combos_about(s2, keymap, up, s0.left_y.below);
                let down = ControllerInput::Stick { stick, direction: Direction::Down };
                law_batches_bring_the_held_combos_about(s3, keymap, down, s0.left_y.above);
            }
        },
        ControllerEventKind::Trigger { .. } => {},
    }
}

/// Typing a text leaves every key up that was up before: each stroke that goes
/// down comes up at once.
pub proof fn law_typing_leaves_nothing_down(state: MapperView, text: Seq<char>)
    ensures
        down_after(Set::empty(), state.typed(text)) == Set::<ComboView>::empty(),
    decreases text.len(),
{
    if text.len() > 0 {
        let first = text.drop_last();
        law_typing_leaves_nothing_down(state, first);
        if let Some((key, shift)) = key_for(text.last()) {
            let strokes = seq![typing_stroke(key, shift)];
            let none = Set::<ComboView>::empty();
            assert(strokes.drop_last() =~= Seq::<StrokeView>::empty());
            assert(state.struck(strokes.drop_last()) =~= Seq::<EmissionView>::empty());
            assert(state.struck(strokes) =~= state.strike(strokes[0]));
            lemma_struck_leaves_nothing_down(state, none, strokes);
            lemma_down_concat(none, state.typed(first), state.strike(strokes[0]));
        } else {
            assert(state.typed(text) =~= state.typed(first));
        }
    }
}

/// A text is typed character by character: typing one text behind another emits
/// what the first emits and then what the second emits.
pub proof fn law_typing_goes_on(state: MapperView, first: Seq<char>, second: Seq<char>)
    ensures
        state.typed(first + second) == state.typed(first) + state.typed(second),
    decreases second.len(),
{
    if second.len() == 0 {
        assert(first + second =~= first);
        assert(state.typed(first) + state.typed(second) =~= state.typed(first));
    } else {
        assert((first + second).drop_last() =~= first + second.drop_last());
        law_typing_goes_on(state, first, second.drop_last());
        assert(state.typed(first + second) =~= state.typed(first) + state.typed(second));
    }
}

/// Every key of a combo is among the keys that the default profile advertises.
pub open spec fn advertised(combo: ComboView) -> bool {
    &&& advertised_keys().contains(combo.key)
    &&& forall|i: int|
        0 <= i < combo.modifiers.len() ==> advertised_keys().contains(
            #[trigger] combo.modifiers[i],
        )
}

proof fn lemma_advertised_key(key: KeyCode)
    requires
        2 <= key <= 13 || 15 <= key <= 53 || key == KEY_LEFTALT || key == KEY_SPACE || key
            == KEY_UP || key == KEY_LEFT || key == KEY_RIGHT || key == KEY_DOWN || key
            == KEY_LEFTMETA,
    ensures
        advertised_keys().contains(key),
{
    let keys = advertised_keys();
    assert(keys[0] == KEY_A);
    assert(keys[1] == KEY_B);
    assert(keys[2] == KEY_C);
    assert(keys[3] == KEY_D);
    assert(keys[4] == KEY_E);
    assert(keys[5] == KEY_F);
    assert(keys[6] == KEY_G);
    assert(keys[7] == KEY_H);
    assert(keys[8] == KEY_I);
    assert(keys[9] == KEY_J);
    assert(keys[10] == KEY_K);
    assert(keys[11] == KEY_L);
    assert(keys[12] == KEY_M);
    assert(keys[13] == KEY_N);
    assert(keys[14] == KEY_O);
    assert(keys[15] == KEY_P);
    assert(keys[16] == KEY_Q);
    assert(keys[17] == KEY_R);
    assert(keys[18] == KEY_S);
    assert(keys[19] == KEY_T);
    assert(keys[20] == KEY_U);
    assert(keys[21] == KEY_V);
    assert(keys[22] == KEY_W);
    assert(keys[23] == KEY_X);
    assert(keys[24] == KEY_Y);
    assert(keys[25] == KEY_Z);
    assert(keys[26] == KEY_0);
    assert(keys[27] == KEY_1);
    assert(keys[28] == KEY_2);
    assert(keys[29] == KEY_3);
    assert(keys[30] == KEY_4);
    assert(keys[31] == KEY_5);
    assert(keys[32] == KEY_6);
    assert(keys[33] == KEY_7);
    assert(keys[34] == KEY_8);
    assert(keys[35] == KEY_9);
    assert(keys[36] == KEY_MINUS);
    assert(keys[37] == KEY_EQUAL);
    assert(keys[38] == KEY_LEFTBRACE);
    assert(keys[39] == KEY_RIGHTBRACE);
    assert(keys[40] == KEY_BACKSLASH);
    assert(keys[41] == KEY_SEMICOLON);
    assert(keys[42] == KEY_APOSTROPHE);
    assert(keys[43] == KEY_GRAVE);
    assert(keys[44] == KEY_COMMA);
    assert(keys[45] == KEY_DOT);
    assert(keys[46] == KEY_SLASH);
    assert(keys[47] == KEY_ENTER);
    assert(keys[48] == KEY_SPACE);
    assert(keys[49] == KEY_TAB);
    assert(keys[50] == KEY_LEFTCTRL);
    assert(keys[51] == KEY_LEFTALT);
    assert(keys[52] == KEY_LEFTMETA);
    assert(keys[53] == KEY_LEFTSHIFT);
    assert(keys[54] == KEY_LEFT);
    assert(keys[55] == KEY_RIGHT);
    assert(keys[56] == KEY_UP);
    assert(keys[57] == KEY_DOWN);
}

proof fn lemma_advertised_combo(combo: ComboView, modifier: KeyCode)
    requires
        2 <= combo.key <= 13 || 15 <= combo.key <= 53 || combo.key == KEY_SPACE || combo.key
            == KEY_UP || combo.key == KEY_LEFT || combo.key == KEY_RIGHT || combo.key == KEY_DOWN,
        modifier == KEY_LEFTCTRL || modifier == KEY_LEFTALT || modifier == KEY_LEFTMETA || modifier
            == KEY_LEFTSHIFT,
        combo.modifiers == Seq::<KeyCode>::empty() || combo.modifiers == seq![modifier],
    ensures
        advertised(combo),
{
    lemma_advertised_key(combo.key);
    lemma_advertised_key(modifier);
}

/// Every key that typing needs is advertised by the default profile.
pub proof fn law_typed_keys_are_advertised(character: char)
    ensures
        key_for(character) matches Some((key, shift)) ==> advertised(
            physical(typing_stroke(key, shift)),
        ),
{
    if let Some((key, shift)) = key_for(character) {
        lemma_advertised_combo(physical(typing_stroke(key, shift)), KEY_LEFTSHIFT);
    }
}

/// Every key that an action emits is advertised.
pub open spec fn action_advertised(action: ActionView) -> bool {
    match action {
        ActionView::Stroke(stroke) => advertised(physical(stroke)),
        ActionView::Sequence(strokes) => forall|i: int|
            0 <= i < strokes.len() ==> advertised(#[trigger] physical(strokes[i])),
        ActionView::Disabled => true,
    }
}

spec fn table_advertised(bindings: Seq<BindingView>) -> bool {
    forall|i: int| 0 <= i < bindings.len() ==> action_advertised((#[trigger] bindings[i]).action)
}

proof fn lemma_plain_advertised(key: KeyCode)
    requires
        2 <= physical_key(key) <= 13 || 15 <= physical_key(key) <= 53,
    ensures
        advertised(physical(plain(key))),
{
    lemma_advertised_combo(physical(plain(key)), KEY_LEFTSHIFT);
}

proof fn lemma_modified_advertised(modifier: KeyCode, key: KeyCode)
    requires
        2 <= physical_key(key) <= 13 || 15 <= physical_key(key) <= 53 || key == KEY_UP || key
            == KEY_LEFT || key == KEY_RIGHT || key == KEY_DOWN,
        modifier == KEY_LEFTCTRL || modifier == KEY_LEFTALT || modifier == KEY_LEFTMETA,
    ensures
        advertised(physical(modified(modifier, key))),
{
    lemma_advertised_combo(physical(modified(modifier, key)), modifier);
}

proof fn lemma_base_tables_advertised()
    ensures
        table_advertised(base_button_bindings()),
        table_advertised(base_stick_bindings()),
{
    lemma_modified_advertised(KEY_LEFTCTRL, KEY_U);
    lemma_modified_advertised(KEY_LEFTCTRL, KEY_E);
    lemma_plain_advertised(KEY_ENTER);
    lemma_modified_advertised(KEY_LEFTALT, KEY_UP);
    lemma_modified_advertised(KEY_LEFTALT, KEY_DOWN);
    lemma_modified_advertised(KEY_LEFTALT, KEY_LEFT);
    lemma_modified_advertised(KEY_LEFTALT, KEY_RIGHT);
    lemma_modified_advertised(KEY_LEFTMETA, KEY_N);
    lemma_modified_advertised(KEY_LEFTMETA, KEY_I);
    lemma_modified_advertised(KEY_LEFTMETA, KEY_U);
    lemma_modified_advertised(KEY_LEFTMETA, KEY_E);
}

proof fn lemma_layer_tables_advertised()
    ensures
        table_advertised(l1_bindings()),
        table_advertised(r1_bindings()),
{
    lemma_plain_advertised(KEY_N);
    lemma_plain_advertised(KEY_I);
    lemma_plain_advertised(KEY_U);
    lemma_plain_advertised(KEY_E);
    lemma_plain_advertised(KEY_P);
    lemma_plain_advertised(KEY_ENTER);
    lemma_modified_advertised(KEY_LEFTCTRL, KEY_W);
    lemma_modified_advertised(KEY_LEFTALT, KEY_G);
    lemma_modified_advertised(KEY_LEFTCTRL, KEY_T);
    lemma_modified_advertised(KEY_LEFTMETA, KEY_LEFT);
    lemma_modified_advertised(KEY_LEFTMETA, KEY_RIGHT);
}

proof fn lemma_first_binding_advertised(bindings: Seq<Binding>, input: ControllerInput)
    requires
        table_advertised(bindings_view(bindings)),
    ensures
        first_binding(bindings, input) matches Some(action) ==> action_advertised(action@),
    decreases bindings.len(),
{
    if bindings.len() > 0 {
        let rest = bindings.drop_first();
        assert(bindings_view(bindings)[0].action == bindings[0].action@);
        assert forall|i: int| 0 <= i < bindings_view(rest).len() implies action_advertised(
            (#[trigger] bindings_view(rest)[i]).action,
        ) by {
            assert(bindings_view(rest)[i] == bindings_view(bindings)[i + 1]);
        }
        lemma_first_binding_advertised(rest, input);
    }
}

proof fn lemma_layer_action_advertised(
    layers: Seq<Layer>,
    input: ControllerInput,
    active: Set<Button>,
)
    requires
        forall|i: int|
            0 <= i < layers.len() ==> table_advertised(
                bindings_view((#[trigger] layers[i]).bindings@),
            ),
    ensures
        layer_action(layers, input, active) matches Some(action) ==> action_advertised(action@),
    decreases layers.len(),
{
    if layers.len() > 0 {
        assert(table_advertised(bindings_view(layers[0].bindings@)));
        lemma_first_binding_advertised(layers[0].bindings@, input);
        lemma_layer_action_advertised(layers.drop_first(), input, active);
    }
}

/// Whatever control of the default profile is used, and whatever layers are
/// held, the keys that it emits are keys that the profile advertises.
pub proof fn law_default_profile_emits_advertised_keys(
    keymap: Keymap,
    input: ControllerInput,
    active: Set<Button>,
)
    requires
        keymap@ == default_profile(),
    ensures
        keymap.action(input, active) matches Some(action) ==> action_advertised(action@),
{
    lemma_base_tables_advertised();
    lemma_layer_tables_advertised();
    assert forall|i: int| 0 <= i < keymap.layers@.len() implies table_advertised(
        bindings_view((#[trigger] keymap.layers@[i]).bindings@),
    ) by {
        assert(keymap@.layers == default_layer_bindings());
        assert(keymap@.layers[i] == keymap.layers@[i]@);
        assert(i == 0 || i == 1);
    }
    lemma_layer_action_advertised(keymap.layers@, input, active);
    assert(keymap@.buttons == base_button_bindings());
    assert(keymap@.sticks == base_stick_bindings());
    lemma_first_binding_advertised(keymap.base(input), input);
}

} // verus!
