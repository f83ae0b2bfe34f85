use dualsense::codes::{
    KEY_DOT, KEY_ENTER, KEY_I, KEY_LEFTALT, KEY_LEFTCTRL, KEY_LEFTMETA, KEY_LEFTSHIFT, KEY_N, KEY_P,
    KEY_RIGHT, KEY_U, KEY_UP, KEY_W,
};
use dualsense::input::{Button, Stick};
use dualsense::keymap::{
    action_label, default_keymap, key_label, key_label_from, virtual_keyboard_keys, Binding,
    ButtonSet, ControllerInput, Direction, KeyAction, KeyStroke, Keymap, Layer,
};

fn holding(buttons: &[Button]) -> ButtonSet {
    let mut set = ButtonSet::new();
    for &button in buttons {
        set.insert(button);
    }
    set
}

#[test]
fn layers_override_only_their_declared_controls() {
    let no_layers = ButtonSet::new();
    let l1 = holding(&[Button::L1]);

    assert_eq!(
        default_keymap().action_for(ControllerInput::Button(Button::North), &no_layers),
        Some(KeyAction::combo(&[KEY_LEFTCTRL], KEY_U)),
    );
    assert_eq!(
        default_keymap().action_for(ControllerInput::Button(Button::North), &l1),
        Some(KeyAction::key(KEY_U)),
    );
    assert_eq!(
        default_keymap().action_for(ControllerInput::Button(Button::DpadUp), &l1),
        Some(KeyAction::combo(&[KEY_LEFTALT], KEY_UP)),
    );
}

#[test]
fn sequence_is_configured_as_a_layer_action() {
    let r1 = holding(&[Button::R1]);
    assert_eq!(
        default_keymap().action_for(ControllerInput::Button(Button::DpadUp), &r1),
        Some(KeyAction::sequence(&[
            KeyStroke {
                modifiers: &[],
                key: KEY_P
            },
            KeyStroke {
                modifiers: &[],
                key: KEY_I
            },
            KeyStroke {
                modifiers: &[],
                key: KEY_ENTER
            },
        ])),
    );
}

#[test]
fn first_layer_that_lists_a_control_wins() {
    let west = ControllerInput::Button(Button::West);
    let both = holding(&[Button::R1, Button::L1]);
    assert_eq!(
        default_keymap().action_for(west, &both),
        Some(KeyAction::key(KEY_N))
    );
    let down = ControllerInput::Button(Button::DpadDown);
    assert_eq!(
        default_keymap().action_for(down, &both),
        Some(KeyAction::combo(&[KEY_LEFTCTRL], KEY_W))
    );
}

#[test]
fn disabled_prevents_the_fallback() {
    let keymap = Keymap {
        buttons: &[Binding {
            input: ControllerInput::Button(Button::South),
            action: KeyAction::Stroke(KeyStroke {
                modifiers: &[],
                key: KEY_ENTER,
            }),
        }],
        sticks: &[],
        layers: &[Layer {
            modifier: Button::L1,
            bindings: &[Binding {
                input: ControllerInput::Button(Button::South),
                action: KeyAction::Disabled,
            }],
        }],
        keyboard_keys: &[KEY_ENTER],
    };
    let south = ControllerInput::Button(Button::South);
    assert_eq!(
        keymap.action_for(south, &ButtonSet::new()),
        Some(KeyAction::key(KEY_ENTER))
    );
    assert_eq!(
        keymap.action_for(south, &holding(&[Button::L1])),
        Some(KeyAction::disabled())
    );
    assert_eq!(
        keymap.action_for(ControllerInput::Button(Button::East), &ButtonSet::new()),
        None
    );
    assert!(keymap.is_layer_modifier(Button::L1));
    assert!(!keymap.is_layer_modifier(Button::R1));
}

#[test]
fn stick_bindings_are_looked_up_apart() {
    let right = ControllerInput::Stick {
        stick: Stick::Left,
        direction: Direction::Right,
    };
    assert_eq!(
        default_keymap().action_for(right, &ButtonSet::new()),
        Some(KeyAction::combo(&[KEY_LEFTMETA], KEY_I))
    );
    assert_eq!(
        default_keymap().action_for(right, &holding(&[Button::R1])),
        Some(KeyAction::combo(&[KEY_LEFTMETA], KEY_RIGHT))
    );
    let unused = ControllerInput::Stick {
        stick: Stick::Right,
        direction: Direction::Right,
    };
    assert_eq!(default_keymap().action_for(unused, &ButtonSet::new()), None);
}

#[test]
fn bindings_and_strokes_are_built_as_told() {
    let action = KeyAction::combo(&[KEY_LEFTSHIFT], KEY_N);
    assert_eq!(
        action,
        KeyAction::Stroke(KeyStroke::with_modifiers(&[KEY_LEFTSHIFT], KEY_N))
    );
    assert_eq!(
        KeyStroke::key(KEY_N),
        KeyStroke::with_modifiers(&[], KEY_N)
    );
    assert_eq!(
        Binding::button(Button::Ps, action).input,
        ControllerInput::Button(Button::Ps)
    );
    assert_eq!(
        Binding::stick(Stick::Right, Direction::Up, action).input,
        ControllerInput::Stick {
            stick: Stick::Right,
            direction: Direction::Up
        }
    );
    let mut set = holding(&[Button::L1]);
    assert!(set.contains(Button::L1) && !set.contains(Button::R1));
    set.remove(Button::L1);
    assert!(!set.contains(Button::L1));
}

#[test]
fn labels_show_modifiers_and_arrows() {
    assert_eq!(
        action_label(Some(KeyAction::combo(&[KEY_LEFTCTRL], KEY_U))),
        "Ctrl+U"
    );
    assert_eq!(
        action_label(Some(KeyAction::combo(&[KEY_LEFTALT], KEY_UP))),
        "Alt+↑"
    );
    assert_eq!(
        action_label(default_keymap().action_for(
            ControllerInput::Button(Button::DpadUp),
            &holding(&[Button::R1])
        )),
        "P I Enter"
    );
    assert_eq!(key_label(KEY_DOT), "DOT");
    assert_eq!(key_label_from(KEY_DOT, "KEY_KEY_DOT"), "DOT");
    assert_eq!(key_label_from(KEY_LEFTMETA, "anything"), "Meta");
}

#[test]
fn advertised_keys_are_distinct() {
    let keys = virtual_keyboard_keys();
    assert_eq!(keys.len(), 58);
    for (i, key) in keys.iter().enumerate() {
        assert!(!keys[..i].contains(key));
    }
}
