use dualsense::codes::{
    key_event, InputEvent, EV_ABS, EV_KEY, EV_REL, KEY_1, KEY_C, KEY_D, KEY_E, KEY_ENTER, KEY_F,
    KEY_G, KEY_H, KEY_I, KEY_J, KEY_K, KEY_L, KEY_LEFT, KEY_LEFTALT, KEY_LEFTCTRL, KEY_LEFTMETA,
    KEY_LEFTSHIFT, KEY_N, KEY_O, KEY_P, KEY_R, KEY_SEMICOLON, KEY_T, KEY_U, KEY_UP, KEY_Y, REL_HWHEEL, REL_WHEEL,
};
use dualsense::input::{
    AxisRange, Button, ButtonState, ControllerEvent, ControllerEventKind, Stick, StickAxis, Trigger,
};
use dualsense::keyboard::{
    colemak_physical_key, emit_combo, scroll_events, text_key, AxisZone, Emission, Handled, KeyCombo,
    KeyboardMapper,
};
use dualsense::keymap::{Binding, ControllerInput, KeyAction, KeyStroke, Keymap};

const CENTRED: AxisZone = AxisZone {
    below: false,
    above: false,
};
const BELOW: AxisZone = AxisZone {
    below: true,
    above: false,
};

fn raw() -> InputEvent {
    InputEvent::new(EV_KEY, 0, 0)
}

fn button(button: Button, state: ButtonState) -> ControllerEvent {
    ControllerEvent {
        kind: ControllerEventKind::Button { button, state },
        raw: raw(),
    }
}

fn stick(stick: Stick, axis: StickAxis) -> ControllerEvent {
    ControllerEvent {
        kind: ControllerEventKind::Stick {
            stick,
            axis,
            raw_value: 0,
            range: AxisRange::default(),
        },
        raw: InputEvent::new(EV_ABS, 0, 0),
    }
}

fn combos(emissions: &[Emission]) -> Vec<(Vec<u16>, u16, bool)> {
    emissions
        .iter()
        .map(|emission| {
            (
                emission.combo.modifiers.to_vec(),
                emission.combo.key,
                emission.down,
            )
        })
        .collect()
}

fn press(mapper: &mut KeyboardMapper, which: Button) -> Handled {
    mapper.handle(button(which, ButtonState::Down), CENTRED)
}

fn release(mapper: &mut KeyboardMapper, which: Button) -> Handled {
    mapper.handle(button(which, ButtonState::Up), CENTRED)
}

#[test]
fn translates_logical_qwerty_letters_for_colemak() {
    assert_eq!(colemak_physical_key(KEY_N), KEY_J);
    assert_eq!(colemak_physical_key(KEY_I), KEY_L);
    assert_eq!(colemak_physical_key(KEY_U), KEY_I);
    assert_eq!(colemak_physical_key(KEY_E), KEY_K);
    assert_eq!(colemak_physical_key(KEY_G), KEY_T);
    assert_eq!(colemak_physical_key(KEY_T), KEY_F);
    assert_eq!(colemak_physical_key(KEY_P), KEY_R);
    assert_eq!(colemak_physical_key(KEY_LEFT), KEY_LEFT);
}

#[test]
fn every_letter_comes_out_with_colemak() {
    assert_eq!(colemak_physical_key(KEY_Y), KEY_O);
    assert_eq!(colemak_physical_key(KEY_K), KEY_N);
    assert_eq!(colemak_physical_key(KEY_L), KEY_U);
    assert_eq!(colemak_physical_key(KEY_O), KEY_SEMICOLON);
    let mut keys: Vec<u16> = ('a'..='z')
        .map(|letter| colemak_physical_key(text_key(letter).unwrap().0))
        .collect();
    keys.sort_unstable();
    keys.dedup();
    assert_eq!(keys.len(), 26);
}

#[test]
fn modifiers_go_down_first_and_come_up_last() {
    let combo = KeyCombo {
        modifiers: &[KEY_LEFTCTRL, KEY_LEFTSHIFT],
        key: KEY_C,
    };
    assert_eq!(
        emit_combo(combo, true),
        vec![
            key_event(KEY_LEFTCTRL, true),
            key_event(KEY_LEFTSHIFT, true),
            key_event(KEY_C, true)
        ]
    );
    assert_eq!(
        emit_combo(combo, false),
        vec![
            key_event(KEY_C, false),
            key_event(KEY_LEFTSHIFT, false),
            key_event(KEY_LEFTCTRL, false)
        ]
    );
}

#[test]
fn pressing_and_releasing_holds_and_lets_go() {
    let mut mapper = KeyboardMapper::new();
    let down = press(&mut mapper, Button::North);
    assert_eq!(combos(&down.emissions), vec![(vec![KEY_LEFTCTRL], KEY_I, true)]);
    assert_eq!(
        down.emissions[0].events(),
        vec![key_event(KEY_LEFTCTRL, true), key_event(KEY_I, true)]
    );
    assert!(press(&mut mapper, Button::North).emissions.is_empty());
    let up = release(&mut mapper, Button::North);
    assert_eq!(combos(&up.emissions), vec![(vec![KEY_LEFTCTRL], KEY_I, false)]);
    assert!(release(&mut mapper, Button::North).emissions.is_empty());
    assert!(mapper.release_all().is_empty());
}

#[test]
fn shared_combo_comes_up_with_its_last_control() {
    let stroke = KeyAction::Stroke(KeyStroke {
        modifiers: &[],
        key: KEY_ENTER,
    });
    let keymap = Keymap {
        buttons: Box::leak(Box::new([
            Binding::button(Button::South, stroke),
            Binding::button(Button::East, stroke),
        ])),
        sticks: &[],
        layers: &[],
        keyboard_keys: &[KEY_ENTER],
    };
    let mut mapper = KeyboardMapper::with_keymap(keymap);
    assert_eq!(press(&mut mapper, Button::South).emissions.len(), 1);
    assert!(press(&mut mapper, Button::East).emissions.is_empty());
    assert!(release(&mut mapper, Button::South).emissions.is_empty());
    let up = release(&mut mapper, Button::East);
    assert_eq!(combos(&up.emissions), vec![(vec![], KEY_ENTER, false)]);
    let again = press(&mut mapper, Button::East);
    assert_eq!(combos(&again.emissions), vec![(vec![], KEY_ENTER, true)]);
    assert!(press(&mut mapper, Button::East).emissions.is_empty());
}

#[test]
fn layers_change_what_buttons_do() {
    let mut mapper = KeyboardMapper::new();
    assert!(press(&mut mapper, Button::L1).emissions.is_empty());
    let down = press(&mut mapper, Button::West);
    assert_eq!(combos(&down.emissions), vec![(vec![], KEY_J, true)]);
    assert!(release(&mut mapper, Button::L1).emissions.is_empty());
    let changed = press(&mut mapper, Button::West);
    assert_eq!(
        combos(&changed.emissions),
        vec![(vec![], KEY_J, false), (vec![], KEY_ENTER, true)]
    );
    let up = release(&mut mapper, Button::West);
    assert_eq!(combos(&up.emissions), vec![(vec![], KEY_ENTER, false)]);
}

#[test]
fn letting_go_releases_what_another_layer_took() {
    let mut mapper = KeyboardMapper::new();
    press(&mut mapper, Button::L1);
    press(&mut mapper, Button::East);
    release(&mut mapper, Button::L1);
    let up = release(&mut mapper, Button::East);
    assert_eq!(combos(&up.emissions), vec![(vec![], KEY_L, false)]);
}

#[test]
fn sequences_are_struck_once_per_press() {
    let mut mapper = KeyboardMapper::new();
    press(&mut mapper, Button::R1);
    let struck = press(&mut mapper, Button::DpadUp);
    assert_eq!(
        combos(&struck.emissions),
        vec![
            (vec![], KEY_R, true),
            (vec![], KEY_R, false),
            (vec![], KEY_L, true),
            (vec![], KEY_L, false),
            (vec![], KEY_ENTER, true),
            (vec![], KEY_ENTER, false),
        ]
    );
    assert!(press(&mut mapper, Button::DpadUp).emissions.is_empty());
    assert!(release(&mut mapper, Button::DpadUp).emissions.is_empty());
    assert_eq!(press(&mut mapper, Button::DpadUp).emissions.len(), 6);
}

#[test]
fn sequence_releases_what_the_control_held() {
    let mut mapper = KeyboardMapper::new();
    press(&mut mapper, Button::DpadUp);
    press(&mut mapper, Button::R1);
    let struck = press(&mut mapper, Button::DpadUp);
    assert_eq!(struck.emissions.len(), 7);
    assert_eq!(
        combos(&struck.emissions)[0],
        (vec![KEY_LEFTALT], KEY_UP, false)
    );
}

#[test]
fn left_stick_acts_as_four_controls() {
    let mut mapper = KeyboardMapper::new();
    let left = mapper.handle(stick(Stick::Left, StickAxis::X), BELOW);
    assert_eq!(combos(&left.emissions), vec![(vec![KEY_LEFTMETA], KEY_J, true)]);
    assert_eq!(left.scroll, None);
    let up = mapper.handle(stick(Stick::Left, StickAxis::Y), BELOW);
    assert_eq!(combos(&up.emissions), vec![(vec![KEY_LEFTMETA], KEY_I, true)]);
    let right = mapper.handle(
        stick(Stick::Left, StickAxis::X),
        AxisZone {
            below: false,
            above: true,
        },
    );
    assert_eq!(
        combos(&right.emissions),
        vec![
            (vec![KEY_LEFTMETA], KEY_J, false),
            (vec![KEY_LEFTMETA], KEY_L, true)
        ]
    );
    let mut released: Vec<u16> = mapper.release_all().iter().map(|combo| combo.key).collect();
    released.sort();
    assert_eq!(released, vec![KEY_I, KEY_L]);
    assert!(mapper
        .handle(stick(Stick::Left, StickAxis::X), CENTRED)
        .emissions
        .iter()
        .all(|emission| emission.down));
}

#[test]
fn right_stick_scrolls_and_triggers_do_nothing() {
    let mut mapper = KeyboardMapper::new();
    let handled = mapper.handle(stick(Stick::Right, StickAxis::Y), BELOW);
    assert!(handled.emissions.is_empty());
    assert_eq!(handled.scroll, Some(StickAxis::Y));
    let trigger = ControllerEvent {
        kind: ControllerEventKind::Trigger {
            trigger: Trigger::Left,
            raw_value: 1,
            range: AxisRange::default(),
        },
        raw: raw(),
    };
    let handled = mapper.handle(trigger, CENTRED);
    assert!(handled.emissions.is_empty() && handled.scroll.is_none());
}

#[test]
fn refused_batches_leave_the_state_they_carry() {
    let mut mapper = KeyboardMapper::new();
    let mut down = press(&mut mapper, Button::North);
    mapper.refuse(down.emissions.remove(0));
    // The press did not happen, so it can be tried again.
    assert_eq!(press(&mut mapper, Button::North).emissions.len(), 1);
    let mut up = release(&mut mapper, Button::North);
    mapper.refuse(up.emissions.remove(0));
    // The control has let go even though the keyboard was not told.
    assert!(mapper.release_all().is_empty());
}

#[test]
fn text_is_typed_key_by_key() {
    let mapper = KeyboardMapper::new();
    let emissions = mapper.type_text("Hi\u{e9}!");
    assert_eq!(
        combos(&emissions),
        vec![
            (vec![KEY_LEFTSHIFT], KEY_H, true),
            (vec![KEY_LEFTSHIFT], KEY_H, false),
            (vec![], KEY_L, true),
            (vec![], KEY_L, false),
            (vec![KEY_LEFTSHIFT], KEY_1, true),
            (vec![KEY_LEFTSHIFT], KEY_1, false),
        ]
    );
    assert!(mapper.type_text("").is_empty());
    let mut parts = combos(&mapper.type_text("Hi"));
    parts.extend(combos(&mapper.type_text("\u{e9}!")));
    assert_eq!(combos(&emissions), parts);
}

#[test]
fn characters_have_their_us_keys() {
    assert_eq!(text_key('d'), Some((KEY_D, false)));
    assert_eq!(text_key('F'), Some((KEY_F, true)));
    assert_eq!(text_key('\r'), Some((KEY_ENTER, false)));
    assert_eq!(text_key('\u{e4}'), None);
    let keys = dualsense::keymap::virtual_keyboard_keys();
    for code in 0..=0x24ff_u32 {
        if let Some((key, _)) = char::from_u32(code).and_then(text_key) {
            assert!(keys.contains(&colemak_physical_key(key)));
        }
    }
}

#[test]
fn whole_scroll_steps_become_wheel_events() {
    assert!(scroll_events(0, 0).is_empty());
    assert_eq!(
        scroll_events(2, -3),
        vec![
            InputEvent::new(EV_REL, REL_HWHEEL, 2),
            InputEvent::new(EV_REL, REL_WHEEL, 3)
        ]
    );
    assert_eq!(
        scroll_events(0, 4),
        vec![InputEvent::new(EV_REL, REL_WHEEL, -4)]
    );
    assert_eq!(
        scroll_events(-1, 0),
        vec![InputEvent::new(EV_REL, REL_HWHEEL, -1)]
    );
}

#[test]
fn disabled_controls_only_let_go() {
    let keymap = Keymap {
        buttons: &[Binding {
            input: ControllerInput::Button(Button::South),
            action: KeyAction::Disabled,
        }],
        sticks: &[],
        layers: &[],
        keyboard_keys: &[],
    };
    let mut mapper = KeyboardMapper::with_keymap(keymap);
    assert!(press(&mut mapper, Button::South).emissions.is_empty());
    assert!(release(&mut mapper, Button::South).emissions.is_empty());
}
