//! Declarative controller-to-keyboard mappings.
//!
//! Keep the mapping tables in this file and leave event handling in
//! [`crate::keyboard`]. A mapping starts with the base table, while an active
//! layer overrides only the controls it lists. The first matching active layer
//! wins when more than one layer is held.

use crate::codes::{
    KeyCode, KEY_0, KEY_1, KEY_2, KEY_3, KEY_4, KEY_5, KEY_6, KEY_7, KEY_8, KEY_9, KEY_A,
    KEY_APOSTROPHE, KEY_B, KEY_BACKSLASH, KEY_C, KEY_COMMA, KEY_D, KEY_DOT, KEY_DOWN, KEY_E,
    KEY_ENTER, KEY_EQUAL, KEY_F, KEY_G, KEY_GRAVE, KEY_H, KEY_I, KEY_J, KEY_K, KEY_L, KEY_LEFT,
    KEY_LEFTALT, KEY_LEFTBRACE, KEY_LEFTCTRL, KEY_LEFTMETA, KEY_LEFTSHIFT, KEY_M, KEY_MINUS, KEY_N,
    KEY_O, KEY_P, KEY_Q, KEY_R, KEY_RIGHT, KEY_RIGHTBRACE, KEY_S, KEY_SEMICOLON, KEY_SLASH,
    KEY_SPACE, KEY_T, KEY_TAB, KEY_U, KEY_UP, KEY_V, KEY_W, KEY_X, KEY_Y, KEY_Z,
};
use crate::input::{Button, Stick};
use crate::text;
use vstd::prelude::*;
use vstd::string::*;

verus! {

/// A direction produced by a stick after it crosses the deadzone.
#[derive(Debug, Clone, Copy, PartialEq, Eq, Hash, Structural)]
pub enum Direction {
    Left,
    Right,
    Up,
    Down,
}

/// A semantic controller control that can have a keyboard mapping.
#[derive(Debug, Clone, Copy, PartialEq, Eq, Hash, Structural)]
pub enum ControllerInput {
    Button(Button),
    Stick { stick: Stick, direction: Direction },
}

/// The number of controller buttons.
pub const BUTTONS: usize = 17;

/// The position of a button in a table of buttons.
pub open spec fn button_slot(button: Button) -> int {
    match button {
        Button::South => 0,
        Button::East => 1,
        Button::North => 2,
        Button::West => 3,
        Button::L1 => 4,
        Button::R1 => 5,
        Button::L2 => 6,
        Button::R2 => 7,
        Button::Create => 8,
        Button::Options => 9,
        Button::Ps => 10,
        Button::L3 => 11,
        Button::R3 => 12,
        Button::DpadUp => 13,
        Button::DpadDown => 14,
        Button::DpadLeft => 15,
        Button::DpadRight => 16,
    }
}

pub fn button_index(button: Button) -> (index: usize)
    ensures
        index == button_slot(button),
        index < BUTTONS,
{
    match button {
        Button::South => 0,
        Button::East => 1,
        Button::North => 2,
        Button::West => 3,
        Button::L1 => 4,
        Button::R1 => 5,
        Button::L2 => 6,
        Button::R2 => 7,
        Button::Create => 8,
        Button::Options => 9,
        Button::Ps => 10,
        Button::L3 => 11,
        Button::R3 => 12,
        Button::DpadUp => 13,
        Button::DpadDown => 14,
        Button::DpadLeft => 15,
        Button::DpadRight => 16,
    }
}

/// A set of controller buttons.
#[derive(Debug, Clone, Copy)]
pub struct ButtonSet {
    held: [bool; 17],
}

impl View for ButtonSet {
    type V = Set<Button>;

    closed spec fn view(&self) -> Set<Button> {
        Set::new(|b: Button| self.held@[button_slot(b)])
    }
}

impl ButtonSet {
    /// The empty set.
    pub fn new() -> (set: ButtonSet)
        ensures
            set@ == Set::<Button>::empty(),
    {
        let set = ButtonSet { held: [false;17] };
        assert(set@ =~= Set::<Button>::empty());
        set
    }

    /// Whether `button` is in the set.
    pub fn contains(&self, button: Button) -> (r: bool)
        ensures
            r == self@.contains(button),
    {
        self.held[button_index(button)]
    }

    /// Adds `button`.
    pub fn insert(&mut self, button: Button)
        ensures
            final(self)@ == old(self)@.insert(button),
    {
        self.held[button_index(button)] = true;
        assert(self@ =~= old(self)@.insert(button));
    }

    /// Takes `button` out.
    pub fn remove(&mut self, button: Button)
        ensures
            final(self)@ == old(self)@.remove(button),
    {
        self.held[button_index(button)] = false;
        assert(self@ =~= old(self)@.remove(button));
    }
}

/// One key press, expressed in logical QWERTY terms.
///
/// Colemak compensation is deliberately applied by the output side of the
/// mapper, not in these tables. That keeps mappings readable and makes the
/// same logical keys work for both controller mappings and voice typing.
#[derive(Debug, Clone, Copy, PartialEq, Eq, Hash)]
pub struct KeyStroke {
    pub modifiers: &'static [KeyCode],
    pub key: KeyCode,
}

/// The modifiers and the key of a stroke.
#[verifier::ext_equal]
pub struct StrokeView {
    pub modifiers: Seq<KeyCode>,
    pub key: KeyCode,
}

impl View for KeyStroke {
    type V = StrokeView;

    open spec fn view(&self) -> StrokeView {
        StrokeView { modifiers: self.modifiers@, key: self.key }
    }
}

impl KeyStroke {
    /// A key without modifiers.
    pub fn key(key: KeyCode) -> (stroke: KeyStroke)
        ensures
            stroke@ == plain(key),
    {
        let stroke = KeyStroke { modifiers: &[], key };
        assert(stroke.modifiers@ =~= Seq::<KeyCode>::empty());
        stroke
    }

    /// A key with modifiers.
    pub fn with_modifiers(modifiers: &'static [KeyCode], key: KeyCode) -> (stroke: KeyStroke)
        ensures
            stroke == (KeyStroke { modifiers, key }),
    {
        KeyStroke { modifiers, key }
    }
}

/// A stroke without modifiers.
pub open spec fn plain(key: KeyCode) -> StrokeView {
    StrokeView { modifiers: Seq::empty(), key }
}

/// A stroke with one modifier.
pub open spec fn modified(modifier: KeyCode, key: KeyCode) -> StrokeView {
    StrokeView { modifiers: seq![modifier], key }
}

/// What a controller control does while it is active.
#[derive(Debug, Clone, Copy, PartialEq, Eq)]
pub enum KeyAction {
    /// Hold one key stroke until the controller control is released.
    Stroke(KeyStroke),
    /// Emit each stroke once when the control is pressed.
    Sequence(&'static [KeyStroke]),
    /// Explicitly suppress a lower-priority/base mapping.
    Disabled,
}

/// The strokes of an action.
#[verifier::ext_equal]
pub enum ActionView {
    Stroke(StrokeView),
    Sequence(Seq<StrokeView>),
    Disabled,
}

impl View for KeyAction {
    type V = ActionView;

    open spec fn view(&self) -> ActionView {
        match *self {
            KeyAction::Stroke(stroke) => ActionView::Stroke(stroke@),
            KeyAction::Sequence(strokes) => ActionView::Sequence(strokes_view(strokes@)),
            KeyAction::Disabled => ActionView::Disabled,
        }
    }
}

/// The strokes of a sequence.
pub open spec fn strokes_view(strokes: Seq<KeyStroke>) -> Seq<StrokeView> {
    strokes.map_values(|stroke: KeyStroke| stroke@)
}

impl KeyAction {
    /// Holds a key without modifiers.
    pub fn key(key: KeyCode) -> (action: KeyAction)
        ensures
            action@ == ActionView::Stroke(plain(key)),
    {
        KeyAction::Stroke(KeyStroke::key(key))
    }

    /// Holds a key with modifiers.
    pub fn combo(modifiers: &'static [KeyCode], key: KeyCode) -> (action: KeyAction)
        ensures
            action == KeyAction::Stroke(KeyStroke { modifiers, key }),
    {
        KeyAction::Stroke(KeyStroke::with_modifiers(modifiers, key))
    }

    /// Emits strokes one after another.
    pub fn sequence(strokes: &'static [KeyStroke]) -> (action: KeyAction)
        ensures
            action == KeyAction::Sequence(strokes),
    {
        KeyAction::Sequence(strokes)
    }

    /// Suppresses a lower-priority mapping.
    pub fn disabled() -> (action: KeyAction)
        ensures
            action == KeyAction::Disabled,
    {
        KeyAction::Disabled
    }
}

/// One controller control and its action.
#[derive(Debug, Clone, Copy, PartialEq, Eq)]
pub struct Binding {
    pub input: ControllerInput,
    pub action: KeyAction,
}

/// A control and what its action does.
#[verifier::ext_equal]
pub struct BindingView {
    pub input: ControllerInput,
    pub action: ActionView,
}

impl View for Binding {
    type V = BindingView;

    open spec fn view(&self) -> BindingView {
        BindingView { input: self.input, action: self.action@ }
    }
}

/// The contents of a binding table.
pub open spec fn bindings_view(bindings: Seq<Binding>) -> Seq<BindingView> {
    bindings.map_values(|binding: Binding| binding@)
}

impl Binding {
    /// Binds a button.
    pub fn button(button: Button, action: KeyAction) -> (binding: Binding)
        ensures
            binding == (Binding { input: ControllerInput::Button(button), action }),
    {
        Binding { input: ControllerInput::Button(button), action }
    }

    /// Binds a stick direction.
    pub fn stick(stick: Stick, direction: Direction, action: KeyAction) -> (binding: Binding)
        ensures
            binding == (Binding { input: ControllerInput::Stick { stick, direction }, action }),
    {
        Binding { input: ControllerInput::Stick { stick, direction }, action }
    }
}

/// A set of overrides enabled while a controller button is held.
#[derive(Debug, Clone, Copy, PartialEq, Eq)]
pub struct Layer {
    pub modifier: Button,
    pub bindings: &'static [Binding],
}

/// The contents of a layer.
#[verifier::ext_equal]
pub struct LayerView {
    pub modifier: Button,
    pub bindings: Seq<BindingView>,
}

impl View for Layer {
    type V = LayerView;

    open spec fn view(&self) -> LayerView {
        LayerView { modifier: self.modifier, bindings: bindings_view(self.bindings@) }
    }
}

/// The contents of a list of layers.
pub open spec fn layers_view(layers: Seq<Layer>) -> Seq<LayerView> {
    layers.map_values(|layer: Layer| layer@)
}

/// A complete mapping profile.
#[derive(Debug, Clone, Copy)]
pub struct Keymap {
    pub buttons: &'static [Binding],
    pub sticks: &'static [Binding],
    pub layers: &'static [Layer],
    pub keyboard_keys: &'static [KeyCode],
}

/// The contents of a profile.
#[verifier::ext_equal]
pub struct KeymapView {
    pub buttons: Seq<BindingView>,
    pub sticks: Seq<BindingView>,
    pub layers: Seq<LayerView>,
    pub keyboard_keys: Seq<KeyCode>,
}

impl View for Keymap {
    type V = KeymapView;

    open spec fn view(&self) -> KeymapView {
        KeymapView {
            buttons: bindings_view(self.buttons@),
            sticks: bindings_view(self.sticks@),
            layers: layers_view(self.layers@),
            keyboard_keys: self.keyboard_keys@,
        }
    }
}

/// The action of the first binding for `input`.
pub open spec fn first_binding(bindings: Seq<Binding>, input: ControllerInput) -> Option<KeyAction>
    decreases bindings.len(),
{
    if bindings.len() == 0 {
        None
    } else if bindings[0].input == input {
        Some(bindings[0].action)
    } else {
        first_binding(bindings.drop_first(), input)
    }
}

/// The action that the first active layer with a binding for `input` gives it.
pub open spec fn layer_action(
    layers: Seq<Layer>,
    input: ControllerInput,
    active: Set<Button>,
) -> Option<KeyAction>
    decreases layers.len(),
{
    if layers.len() == 0 {
        None
    } else if active.contains(layers[0].modifier) && first_binding(
        layers[0].bindings@,
        input,
    ) is Some {
        first_binding(layers[0].bindings@, input)
    } else {
        layer_action(layers.drop_first(), input, active)
    }
}

impl Keymap {
    /// The base table that a control belongs to.
    pub open spec fn base(self, input: ControllerInput) -> Seq<Binding> {
        match input {
            ControllerInput::Button(_) => self.buttons@,
            ControllerInput::Stick { .. } => self.sticks@,
        }
    }

    /// The action of a control while the layers `active` are held.
    pub open spec fn action(self, input: ControllerInput, active: Set<Button>) -> Option<
        KeyAction,
    > {
        match layer_action(self.layers@, input, active) {
            Some(action) => Some(action),
            None => first_binding(self.base(input), input),
        }
    }

    /// Some layer is enabled by `button`.
    pub open spec fn modifies_layer(self, button: Button) -> bool {
        exists|i: int| 0 <= i < self.layers@.len() && (#[trigger] self.layers@[i]).modifier == button
    }

    /// Find the action for a control in the currently active layers.
    ///
    /// A layer only overrides controls that it explicitly lists. Missing layer
    /// entries fall back to the base mapping, while [`KeyAction::Disabled`]
    /// intentionally prevents that fallback.
    pub fn action_for(&self, input: ControllerInput, active_layers: &ButtonSet) -> (action: Option<
        KeyAction,
    >)
        ensures
            action == self.action(input, active_layers@),
    {
        let layers = self.layers;
        let mut i: usize = 0;
        assert(layers@.skip(0) == layers@);
        while i < layers.len()
            invariant
                i <= layers.len(),
                layers == self.layers,
                layer_action(layers@, input, active_layers@) == layer_action(
                    layers@.skip(i as int),
                    input,
                    active_layers@,
                ),
            decreases layers.len() - i,
        {
            let layer = layers[i];
            assert(layers@.skip(i as int)[0] == layer);
            assert(layers@.skip(i as int).drop_first() == layers@.skip(i + 1));
            if active_layers.contains(layer.modifier) {
                if let Some(action) = find_binding(layer.bindings, input) {
                    return Some(action);
                }
            }
            i = i + 1;
        }
        let bindings = match input {
            ControllerInput::Button(_) => self.buttons,
            ControllerInput::Stick { .. } => self.sticks,
        };
        find_binding(bindings, input)
    }

    /// Whether a button only enables a layer.
    pub fn is_layer_modifier(&self, button: Button) -> (r: bool)
        ensures
            r == self.modifies_layer(button),
    {
        let layers = self.layers;
        let mut i: usize = 0;
        while i < layers.len()
            invariant
                i <= layers.len(),
                layers == self.layers,
                forall|k: int| 0 <= k < i ==> (#[trigger] layers@[k]).modifier != button,
            decreases layers.len() - i,
        {
            if layers[i].modifier == button {
                return true;
            }
            i = i + 1;
        }
        false
    }
}

/// The action of the first binding for `input`.
pub fn find_binding(bindings: &[Binding], input: ControllerInput) -> (action: Option<KeyAction>)
    ensures
        action == first_binding(bindings@, input),
{
    let mut i: usize = 0;
    assert(bindings@.skip(0) == bindings@);
    while i < bindings.len()
        invariant
            i <= bindings.len(),
            first_binding(bindings@, input) == first_binding(bindings@.skip(i as int), input),
        decreases bindings.len() - i,
    {
        let binding = bindings[i];
        assert(bindings@.skip(i as int)[0] == binding);
        assert(bindings@.skip(i as int).drop_first() == bindings@.skip(i + 1));
        if binding.input == input {
            return Some(binding.action);
        }
        i = i + 1;
    }
    None
}

/// A button binding of the default profile.
pub open spec fn on_button(button: Button, action: ActionView) -> BindingView {
    BindingView { input: ControllerInput::Button(button), action }
}

/// A left-stick binding of the default profile.
pub open spec fn on_stick(direction: Direction, action: ActionView) -> BindingView {
    BindingView { input: ControllerInput::Stick { stick: Stick::Left, direction }, action }
}

/// What D-pad up types while R1 is held.
pub open spec fn r1_dpad_up_strokes() -> Seq<StrokeView> {
    seq![plain(KEY_P), plain(KEY_I), plain(KEY_ENTER)]
}

/// Base face-button and D-pad mappings.
pub open spec fn base_button_bindings() -> Seq<BindingView> {
    seq![
        on_button(Button::North, ActionView::Stroke(modified(KEY_LEFTCTRL, KEY_U))),
        on_button(Button::South, ActionView::Stroke(modified(KEY_LEFTCTRL, KEY_E))),
        on_button(Button::West, ActionView::Stroke(plain(KEY_ENTER))),
        on_button(Button::DpadUp, ActionView::Stroke(modified(KEY_LEFTALT, KEY_UP))),
        on_button(Button::DpadDown, ActionView::Stroke(modified(KEY_LEFTALT, KEY_DOWN))),
        on_button(Button::DpadLeft, ActionView::Stroke(modified(KEY_LEFTALT, KEY_LEFT))),
        on_button(Button::DpadRight, ActionView::Stroke(modified(KEY_LEFTALT, KEY_RIGHT))),
    ]
}

/// Left stick directions, digitalized by the mapper after applying the deadzone.
pub open spec fn base_stick_bindings() -> Seq<BindingView> {
    seq![
        on_stick(Direction::Left, ActionView::Stroke(modified(KEY_LEFTMETA, KEY_N))),
        on_stick(Direction::Right, ActionView::Stroke(modified(KEY_LEFTMETA, KEY_I))),
        on_stick(Direction::Up, ActionView::Stroke(modified(KEY_LEFTMETA, KEY_U))),
        on_stick(Direction::Down, ActionView::Stroke(modified(KEY_LEFTMETA, KEY_E))),
    ]
}

/// L1 turns the face buttons into the movement keys used by the desktop app.
pub open spec fn l1_bindings() -> Seq<BindingView> {
    seq![
        on_button(Button::West, ActionView::Stroke(plain(KEY_N))),
        on_button(Button::East, ActionView::Stroke(plain(KEY_I))),
        on_button(Button::North, ActionView::Stroke(plain(KEY_U))),
        on_button(Button::South, ActionView::Stroke(plain(KEY_E))),
    ]
}

/// R1 provides navigation shortcuts. It also turns D-pad up into a one-shot
/// sequence rather than a held key.
pub open spec fn r1_bindings() -> Seq<BindingView> {
    seq![
        on_button(Button::DpadUp, ActionView::Sequence(r1_dpad_up_strokes())),
        on_button(Button::DpadDown, ActionView::Stroke(modified(KEY_LEFTCTRL, KEY_W))),
        on_button(Button::DpadLeft, ActionView::Stroke(modified(KEY_LEFTALT, KEY_G))),
        on_button(Button::DpadRight, ActionView::Stroke(modified(KEY_LEFTCTRL, KEY_T))),
        on_stick(Direction::Left, ActionView::Stroke(modified(KEY_LEFTMETA, KEY_LEFT))),
        on_stick(Direction::Right, ActionView::Stroke(modified(KEY_LEFTMETA, KEY_RIGHT))),
    ]
}

/// The keys that the virtual keyboard advertises: letters and digits,
/// punctuation and editing keys, then modifiers and navigation.
pub open spec fn advertised_keys() -> Seq<KeyCode> {
    seq![
        KEY_A, KEY_B, KEY_C, KEY_D, KEY_E, KEY_F, KEY_G, KEY_H, KEY_I, KEY_J, KEY_K,
        KEY_L, KEY_M, KEY_N, KEY_O, KEY_P, KEY_Q, KEY_R, KEY_S, KEY_T, KEY_U, KEY_V,
        KEY_W, KEY_X, KEY_Y, KEY_Z, KEY_0, KEY_1, KEY_2, KEY_3, KEY_4, KEY_5, KEY_6,
        KEY_7, KEY_8, KEY_9, KEY_MINUS, KEY_EQUAL, KEY_LEFTBRACE, KEY_RIGHTBRACE,
        KEY_BACKSLASH, KEY_SEMICOLON, KEY_APOSTROPHE, KEY_GRAVE, KEY_COMMA, KEY_DOT,
        KEY_SLASH, KEY_ENTER, KEY_SPACE, KEY_TAB, KEY_LEFTCTRL, KEY_LEFTALT,
        KEY_LEFTMETA, KEY_LEFTSHIFT, KEY_LEFT, KEY_RIGHT, KEY_UP, KEY_DOWN,
    ]
}

/// The layers of the default profile.
pub open spec fn default_layer_bindings() -> Seq<LayerView> {
    seq![
        LayerView { modifier: Button::L1, bindings: l1_bindings() },
        LayerView { modifier: Button::R1, bindings: r1_bindings() },
    ]
}

/// The default profile.
pub open spec fn default_profile() -> KeymapView {
    KeymapView {
        buttons: base_button_bindings(),
        sticks: base_stick_bindings(),
        layers: default_layer_bindings(),
        keyboard_keys: advertised_keys(),
    }
}

/// The base button table.
fn base_buttons() -> (bindings: &'static [Binding])
    ensures
        bindings_view(bindings@) == base_button_bindings(),
{
    let bindings: &'static [Binding] = &[
        Binding {
            input: ControllerInput::Button(Button::North),
            action: KeyAction::Stroke(KeyStroke { modifiers: &[KEY_LEFTCTRL], key: KEY_U }),
        },
        Binding {
            input: ControllerInput::Button(Button::South),
            action: KeyAction::Stroke(KeyStroke { modifiers: &[KEY_LEFTCTRL], key: KEY_E }),
        },
        Binding {
            input: ControllerInput::Button(Button::West),
            action: KeyAction::Stroke(KeyStroke { modifiers: &[], key: KEY_ENTER }),
        },
        Binding {
            input: ControllerInput::Button(Button::DpadUp),
            action: KeyAction::Stroke(KeyStroke { modifiers: &[KEY_LEFTALT], key: KEY_UP }),
        },
        Binding {
            input: ControllerInput::Button(Button::DpadDown),
            action: KeyAction::Stroke(KeyStroke { modifiers: &[KEY_LEFTALT], key: KEY_DOWN }),
        },
        Binding {
            input: ControllerInput::Button(Button::DpadLeft),
            action: KeyAction::Stroke(KeyStroke { modifiers: &[KEY_LEFTALT], key: KEY_LEFT }),
        },
        Binding {
            input: ControllerInput::Button(Button::DpadRight),
            action: KeyAction::Stroke(KeyStroke { modifiers: &[KEY_LEFTALT], key: KEY_RIGHT }),
        },
    ];
    assert(bindings_view(bindings@) =~~= base_button_bindings());
    bindings
}

/// The base stick table.
fn base_sticks() -> (bindings: &'static [Binding])
    ensures
        bindings_view(bindings@) == base_stick_bindings(),
{
    let bindings: &'static [Binding] = &[
        Binding {
            input: ControllerInput::Stick { stick: Stick::Left, direction: Direction::Left },
            action: KeyAction::Stroke(KeyStroke { modifiers: &[KEY_LEFTMETA], key: KEY_N }),
        },
        Binding {
            input: ControllerInput::Stick { stick: Stick::Left, direction: Direction::Right },
            action: KeyAction::Stroke(KeyStroke { modifiers: &[KEY_LEFTMETA], key: KEY_I }),
        },
        Binding {
            input: ControllerInput::Stick { stick: Stick::Left, direction: Direction::Up },
            action: KeyAction::Stroke(KeyStroke { modifiers: &[KEY_LEFTMETA], key: KEY_U }),
        },
        Binding {
            input: ControllerInput::Stick { stick: Stick::Left, direction: Direction::Down },
            action: KeyAction::Stroke(KeyStroke { modifiers: &[KEY_LEFTMETA], key: KEY_E }),
        },
    ];
    assert(bindings_view(bindings@) =~~= base_stick_bindings());
    bindings
}

/// The layers of the default profile.
fn default_layers() -> (layers: &'static [Layer])
    ensures
        layers_view(layers@) == default_layer_bindings(),
{
    let layers: &'static [Layer] = &[
        Layer {
            modifier: Button::L1,
            bindings: &[
                Binding {
                    input: ControllerInput::Button(Button::West),
                    action: KeyAction::Stroke(KeyStroke { modifiers: &[], key: KEY_N }),
                },
                Binding {
                    input: ControllerInput::Button(Button::East),
                    action: KeyAction::Stroke(KeyStroke { modifiers: &[], key: KEY_I }),
                },
                Binding {
                    input: ControllerInput::Button(Button::North),
                    action: KeyAction::Stroke(KeyStroke { modifiers: &[], key: KEY_U }),
                },
                Binding {
                    input: ControllerInput::Button(Button::South),
                    action: KeyAction::Stroke(KeyStroke { modifiers: &[], key: KEY_E }),
                },
            ],
        },
        Layer {
            modifier: Button::R1,
            bindings: &[
                Binding {
                    input: ControllerInput::Button(Button::DpadUp),
                    action: KeyAction::Sequence(
                        &[
                            KeyStroke { modifiers: &[], key: KEY_P },
                            KeyStroke { modifiers: &[], key: KEY_I },
                            KeyStroke { modifiers: &[], key: KEY_ENTER },
                        ],
                    ),
                },
                Binding {
                    input: ControllerInput::Button(Button::DpadDown),
                    action: KeyAction::Stroke(KeyStroke { modifiers: &[KEY_LEFTCTRL], key: KEY_W }),
                },
                Binding {
                    input: ControllerInput::Button(Button::DpadLeft),
                    action: KeyAction::Stroke(KeyStroke { modifiers: &[KEY_LEFTALT], key: KEY_G }),
                },
                Binding {
                    input: ControllerInput::Button(Button::DpadRight),
                    action: KeyAction::Stroke(KeyStroke { modifiers: &[KEY_LEFTCTRL], key: KEY_T }),
                },
                Binding {
                    input: ControllerInput::Stick { stick: Stick::Left, direction: Direction::Left },
                    action: KeyAction::Stroke(KeyStroke { modifiers: &[KEY_LEFTMETA], key: KEY_LEFT }),
                },
                Binding {
                    input: ControllerInput::Stick { stick: Stick::Left, direction: Direction::Right },
                    action: KeyAction::Stroke(KeyStroke { modifiers: &[KEY_LEFTMETA], key: KEY_RIGHT }),
                },
            ],
        },
    ];
    assert(bindings_view(layers@[0].bindings@) =~~= l1_bindings());
    assert(bindings_view(layers@[1].bindings@) =~~= r1_bindings());
    assert(layers_view(layers@) =~= default_layer_bindings());
    layers
}

/// Keys advertised by the virtual keyboard device.
///
/// This includes the logical keys used by the default profile. Keeping the
/// list here makes adding a new configurable mapping less error-prone: add its
/// key once to this capability list if it is not already present.
pub fn virtual_keyboard_keys() -> (keys: &'static [KeyCode])
    ensures
        keys@ == advertised_keys(),
{
    &[
        KEY_A, KEY_B, KEY_C, KEY_D, KEY_E, KEY_F, KEY_G, KEY_H, KEY_I, KEY_J, KEY_K,
        KEY_L, KEY_M, KEY_N, KEY_O, KEY_P, KEY_Q, KEY_R, KEY_S, KEY_T, KEY_U, KEY_V,
        KEY_W, KEY_X, KEY_Y, KEY_Z, KEY_0, KEY_1, KEY_2, KEY_3, KEY_4, KEY_5, KEY_6,
        KEY_7, KEY_8, KEY_9, KEY_MINUS, KEY_EQUAL, KEY_LEFTBRACE, KEY_RIGHTBRACE,
        KEY_BACKSLASH, KEY_SEMICOLON, KEY_APOSTROPHE, KEY_GRAVE, KEY_COMMA, KEY_DOT,
        KEY_SLASH, KEY_ENTER, KEY_SPACE, KEY_TAB, KEY_LEFTCTRL, KEY_LEFTALT,
        KEY_LEFTMETA, KEY_LEFTSHIFT, KEY_LEFT, KEY_RIGHT, KEY_UP, KEY_DOWN,
    ]
}

/// The default profile used by direct mode and the TUI.
pub fn default_keymap() -> (keymap: Keymap)
    ensures
        keymap@ == default_profile(),
{
    Keymap {
        buttons: base_buttons(),
        sticks: base_sticks(),
        layers: default_layers(),
        keyboard_keys: virtual_keyboard_keys(),
    }
}

/// The texts of `parts` with `separator` between each two.
pub open spec fn join(parts: Seq<Seq<char>>, separator: Seq<char>) -> Seq<char>
    decreases parts.len(),
{
    if parts.len() == 0 {
        Seq::empty()
    } else if parts.len() == 1 {
        parts[0]
    } else {
        join(parts.drop_last(), separator) + separator + parts.last()
    }
}

/// `s` without any number of leading occurrences of `prefix`.
pub open spec fn without_prefix(s: Seq<char>, prefix: Seq<char>) -> Seq<char>
    decreases s.len(),
{
    if 0 < prefix.len() && prefix.is_prefix_of(s) {
        without_prefix(s.skip(prefix.len() as int), prefix)
    } else {
        s
    }
}

/// What evdev calls a key code.
pub uninterp spec fn evdev_name(code: u16) -> Seq<char>;

/// The text that the `Debug` impl of `evdev::KeyCode` writes for a code.
///
/// The text depends on the code alone.
#[verifier::external_body]
fn evdev_name_of(code: KeyCode) -> (name: String)
    ensures
        name@ == evdev_name(code),
{
    format!("{:?}", evdev::KeyCode::new(code))
}

/// The label of a key whose evdev name is `name`.
pub open spec fn key_label_spec(key: KeyCode, name: Seq<char>) -> Seq<char> {
    match key {
        KEY_LEFTCTRL => "Ctrl"@,
        KEY_LEFTALT => "Alt"@,
        KEY_LEFTMETA => "Meta"@,
        KEY_LEFTSHIFT => "Shift"@,
        KEY_ENTER => "Enter"@,
        KEY_SPACE => "Space"@,
        KEY_TAB => "Tab"@,
        KEY_LEFT => "←"@,
        KEY_RIGHT => "→"@,
        KEY_UP => "↑"@,
        KEY_DOWN => "↓"@,
        _ => without_prefix(name, "KEY_"@),
    }
}

/// The label of a key.
pub open spec fn label_of_key(key: KeyCode) -> Seq<char> {
    key_label_spec(key, evdev_name(key))
}

/// The labels of the keys of a stroke, modifiers first.
pub open spec fn stroke_labels(stroke: StrokeView) -> Seq<Seq<char>> {
    stroke.modifiers.map_values(|key: KeyCode| label_of_key(key)).push(label_of_key(stroke.key))
}

/// The label of a stroke.
pub open spec fn label_of_stroke(stroke: StrokeView) -> Seq<char> {
    join(stroke_labels(stroke), "+"@)
}

/// The label of an action.
pub open spec fn label_of_action(action: Option<ActionView>) -> Seq<char> {
    match action {
        None => "no mapping"@,
        Some(ActionView::Disabled) => "disabled"@,
        Some(ActionView::Stroke(stroke)) => label_of_stroke(stroke),
        Some(ActionView::Sequence(strokes)) => join(
            strokes.map_values(|stroke: StrokeView| label_of_stroke(stroke)),
            " "@,
        ),
    }
}

/// A compact label for the mapping overlay and diagnostics.
pub fn action_label(action: Option<KeyAction>) -> (label: String)
    ensures
        label@ == label_of_action(
            match action {
                Some(action) => Some(action@),
                None => None,
            },
        ),
{
    match action {
        None => "no mapping".to_owned(),
        Some(KeyAction::Disabled) => "disabled".to_owned(),
        Some(KeyAction::Stroke(stroke)) => stroke_label(stroke),
        Some(KeyAction::Sequence(strokes)) => {
            let ghost labels = strokes_view(strokes@).map_values(
                |stroke: StrokeView| label_of_stroke(stroke),
            );
            let mut label = String::new();
            let mut i: usize = 0;
            assert(labels.take(0) == Seq::<Seq<char>>::empty());
            while i < strokes.len()
                invariant
                    i <= strokes.len(),
                    labels == strokes_view(strokes@).map_values(
                        |stroke: StrokeView| label_of_stroke(stroke),
                    ),
                    label@ == join(labels.take(i as int), " "@),
                decreases strokes.len() - i,
            {
                let part = stroke_label(strokes[i]);
                assert(labels[i as int] == part@);
                assert(labels.take(i + 1).drop_last() == labels.take(i as int));
                if i > 0 {
                    label.append(" ");
                }
                label.append(part.as_str());
                assert(label@ == join(labels.take(i + 1), " "@));
                i = i + 1;
            }
            assert(labels.take(i as int) == labels);
            label
        },
    }
}

fn stroke_label(stroke: KeyStroke) -> (label: String)
    ensures
        label@ == label_of_stroke(stroke@),
{
    let modifiers = stroke.modifiers;
    let ghost labels = stroke_labels(stroke@);
    let mut label = String::new();
    let mut i: usize = 0;
    assert(labels.take(0) == Seq::<Seq<char>>::empty());
    while i < modifiers.len()
        invariant
            i <= modifiers.len(),
            modifiers == stroke.modifiers,
            labels == stroke_labels(stroke@),
            label@ == join(labels.take(i as int), "+"@),
        decreases modifiers.len() - i,
    {
        let part = key_label(modifiers[i]);
        assert(labels[i as int] == part@);
        assert(labels.take(i + 1).drop_last() == labels.take(i as int));
        if i > 0 {
            label.append("+");
        }
        label.append(part.as_str());
        assert(label@ == join(labels.take(i + 1), "+"@));
        i = i + 1;
    }
    let part = key_label(stroke.key);
    assert(labels.drop_last() == labels.take(i as int));
    if i > 0 {
        label.append("+");
    }
    label.append(part.as_str());
    assert(label@ == join(labels, "+"@));
    label
}

/// The label of a key.
pub fn key_label(key: KeyCode) -> (label: String)
    ensures
        label@ == label_of_key(key),
{
    let name = evdev_name_of(key);
    key_label_from(key, name.as_str())
}

/// The label of a key whose evdev name is `name`.
pub fn key_label_from(key: KeyCode, name: &str) -> (label: String)
    ensures
        label@ == key_label_spec(key, name@),
{
    match key {
        KEY_LEFTCTRL => "Ctrl".to_owned(),
        KEY_LEFTALT => "Alt".to_owned(),
        KEY_LEFTMETA => "Meta".to_owned(),
        KEY_LEFTSHIFT => "Shift".to_owned(),
        KEY_ENTER => "Enter".to_owned(),
        KEY_SPACE => "Space".to_owned(),
        KEY_TAB => "Tab".to_owned(),
        KEY_LEFT => "←".to_owned(),
        KEY_RIGHT => "→".to_owned(),
        KEY_UP => "↑".to_owned(),
        KEY_DOWN => "↓".to_owned(),
        _ => {
            let mut rest = text::chars_of(name);
            proof {
                reveal_strlit("KEY_");
            }
            while text::begins_with(rest.as_slice(), "KEY_")
                invariant
                    without_prefix(name@, "KEY_"@) == without_prefix(rest@, "KEY_"@),
                    "KEY_"@.len() == 4,
                decreases rest.len(),
            {
                let ghost before = rest@;
                rest = rest.split_off(4);
                assert(rest@ == before.skip(4));
            }
            text::text_of(rest.as_slice())
        },
    }
}

/// A layer overrides only the controls that it lists: where no active layer
/// lists a control, its base mapping applies.
pub proof fn law_unlisted_controls_keep_their_base_mapping(
    keymap: Keymap,
    input: ControllerInput,
    active: Set<Button>,
)
    requires
        forall|i: int|
            0 <= i < keymap.layers@.len() && active.contains(
                (#[trigger] keymap.layers@[i]).modifier,
            ) ==> first_binding(keymap.layers@[i].bindings@, input) is None,
    ensures
        keymap.action(input, active) == first_binding(keymap.base(input), input),
{
    lemma_no_layer_applies(keymap.layers@, input, active);
}

proof fn lemma_no_layer_applies(layers: Seq<Layer>, input: ControllerInput, active: Set<Button>)
    requires
        forall|i: int|
            0 <= i < layers.len() && active.contains((#[trigger] layers[i]).modifier)
                ==> first_binding(layers[i].bindings@, input) is None,
    ensures
        layer_action(layers, input, active) is None,
    decreases layers.len(),
{
    if layers.len() > 0 {
        let rest = layers.drop_first();
        assert(forall|i: int| 0 <= i < rest.len() ==> rest[i] == layers[i + 1]);
        lemma_no_layer_applies(rest, input, active);
    }
}

/// The first active layer that lists a control decides its action, whatever
/// later layers and the base table say. So a layer that lists the control as
/// [`KeyAction::Disabled`] keeps the base mapping from applying.
pub proof fn law_first_listing_layer_wins(
    keymap: Keymap,
    input: ControllerInput,
    active: Set<Button>,
    i: int,
)
    requires
        0 <= i < keymap.layers@.len(),
        active.contains(keymap.layers@[i].modifier),
        first_binding(keymap.layers@[i].bindings@, input) is Some,
        forall|k: int|
            0 <= k < i && active.contains((#[trigger] keymap.layers@[k]).modifier)
                ==> first_binding(keymap.layers@[k].bindings@, input) is None,
    ensures
        keymap.action(input, active) == first_binding(keymap.layers@[i].bindings@, input),
{
    lemma_first_layer_applies(keymap.layers@, input, active, i);
}

proof fn lemma_first_layer_applies(
    layers: Seq<Layer>,
    input: ControllerInput,
    active: Set<Button>,
    i: int,
)
    requires
        0 <= i < layers.len(),
        active.contains(layers[i].modifier),
        first_binding(layers[i].bindings@, input) is Some,
        forall|k: int|
            0 <= k < i && active.contains((#[trigger] layers[k]).modifier) ==> first_binding(
                layers[k].bindings@,
                input,
            ) is None,
    ensures
        layer_action(layers, input, active) == first_binding(layers[i].bindings@, input),
    decreases layers.len(),
{
    if i > 0 {
        let rest = layers.drop_first();
        assert(forall|k: int| 0 <= k < rest.len() ==> rest[k] == layers[k + 1]);
        lemma_first_layer_applies(rest, input, active, i - 1);
    }
}

} // verus!
