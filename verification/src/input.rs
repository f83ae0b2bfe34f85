//! Stateful conversion from raw evdev events into controller events.
//!
//! This is the boundary that the keyboard mapper consumes. Raw values stay
//! attached to each event, together with the range that the axis reported, so a
//! consumer can scale an analog value without losing what the device sent.

use crate::codes::{
    AxisCode, InputEvent, KeyCode, ABS_HAT0X, ABS_HAT0Y, ABS_RX, ABS_RY, ABS_RZ, ABS_X, ABS_Y,
    ABS_Z, BTN_DPAD_DOWN, BTN_DPAD_LEFT, BTN_DPAD_RIGHT, BTN_DPAD_UP, BTN_EAST, BTN_MODE,
    BTN_NORTH, BTN_SELECT, BTN_SOUTH, BTN_START, BTN_THUMBL, BTN_THUMBR, BTN_TL, BTN_TL2, BTN_TR,
    BTN_TR2, BTN_WEST, EV_ABS, EV_KEY, KEY_DOWN, KEY_LEFT, KEY_RIGHT, KEY_UP,
};
use vstd::prelude::*;

verus! {

#[derive(Debug, Clone, Copy, PartialEq, Eq, Hash, Structural)]
pub enum Button {
    South,
    East,
    North,
    West,
    L1,
    R1,
    L2,
    R2,
    Create,
    Options,
    Ps,
    L3,
    R3,
    DpadUp,
    DpadDown,
    DpadLeft,
    DpadRight,
}

#[derive(Debug, Clone, Copy, PartialEq, Eq, Structural)]
pub enum ButtonState {
    Down,
    Up,
}

#[derive(Debug, Clone, Copy, PartialEq, Eq, Hash, Structural)]
pub enum Stick {
    Left,
    Right,
}

#[derive(Debug, Clone, Copy, PartialEq, Eq, Structural)]
pub enum StickAxis {
    X,
    Y,
}

#[derive(Debug, Clone, Copy, PartialEq, Eq, Structural)]
pub enum Trigger {
    Left,
    Right,
}

/// The values between which an axis reports.
#[derive(Debug, Clone, Copy, PartialEq, Eq, Structural)]
pub struct AxisRange {
    pub minimum: i32,
    pub maximum: i32,
}

impl Default for AxisRange {
    /// The range of a signed 16-bit axis.
    fn default() -> (range: AxisRange)
        ensures
            range == AxisRange::full(),
    {
        AxisRange { minimum: -32768, maximum: 32767 }
    }
}

impl AxisRange {
    /// The range of a signed 16-bit axis.
    pub open spec fn full() -> AxisRange {
        AxisRange { minimum: (-32768) as i32, maximum: 32767 }
    }
}

/// What a device reports of one absolute axis.
#[derive(Debug, Clone, Copy, PartialEq, Eq, Structural)]
pub struct AxisInfo {
    pub axis: AxisCode,
    pub minimum: i32,
    pub maximum: i32,
    pub value: i32,
}

/// A semantic controller event generated from one raw event.
///
/// `Button` events are edge events (`Down`/`Up`). Stick and trigger events are
/// value updates: a mapper can apply its own deadzone or threshold without
/// losing the underlying raw value.
#[derive(Debug, Clone, Copy, PartialEq, Eq, Structural)]
pub struct ControllerEvent {
    pub kind: ControllerEventKind,
    pub raw: InputEvent,
}

#[derive(Debug, Clone, Copy, PartialEq, Eq, Structural)]
pub enum ControllerEventKind {
    Button { button: Button, state: ButtonState },
    /// A stick moved along one axis; `range` is the range of that axis.
    Stick { stick: Stick, axis: StickAxis, raw_value: i32, range: AxisRange },
    /// A trigger moved; `range` is the range of its axis.
    Trigger { trigger: Trigger, raw_value: i32, range: AxisRange },
}

/// The slot in which the decoder keeps the range of an axis.
pub open spec fn axis_slot(axis: AxisCode) -> Option<int> {
    match axis {
        ABS_X => Some(0),
        ABS_Y => Some(1),
        ABS_Z => Some(2),
        ABS_RX => Some(3),
        ABS_RY => Some(4),
        ABS_RZ => Some(5),
        _ => None,
    }
}

/// The range that `infos` gives for the axis in a slot: that of the last entry
/// for the axis, or the default.
pub open spec fn reported_range(infos: Seq<AxisInfo>, slot: int) -> AxisRange
    decreases infos.len(),
{
    if infos.len() == 0 {
        AxisRange::full()
    } else if axis_slot(infos.last().axis) == Some(slot) {
        AxisRange { minimum: infos.last().minimum, maximum: infos.last().maximum }
    } else {
        reported_range(infos.drop_last(), slot)
    }
}

/// The button that a key code stands for.
///
/// Some kernel versions report the D-pad with the keyboard's direction keys.
pub open spec fn button_of(code: KeyCode) -> Option<Button> {
    match code {
        BTN_SOUTH => Some(Button::South),
        BTN_EAST => Some(Button::East),
        BTN_NORTH => Some(Button::North),
        BTN_WEST => Some(Button::West),
        BTN_TL => Some(Button::L1),
        BTN_TR => Some(Button::R1),
        BTN_TL2 => Some(Button::L2),
        BTN_TR2 => Some(Button::R2),
        BTN_SELECT => Some(Button::Create),
        BTN_START => Some(Button::Options),
        BTN_MODE => Some(Button::Ps),
        BTN_THUMBL => Some(Button::L3),
        BTN_THUMBR => Some(Button::R3),
        BTN_DPAD_UP | KEY_UP => Some(Button::DpadUp),
        BTN_DPAD_DOWN | KEY_DOWN => Some(Button::DpadDown),
        BTN_DPAD_LEFT | KEY_LEFT => Some(Button::DpadLeft),
        BTN_DPAD_RIGHT | KEY_RIGHT => Some(Button::DpadRight),
        _ => None,
    }
}

/// The D-pad button that a hat axis holds down at `value`.
pub open spec fn hat_position(horizontal: bool, value: i32) -> Option<Button> {
    if value == -1 {
        Some(if horizontal { Button::DpadLeft } else { Button::DpadUp })
    } else if value == 1 {
        Some(if horizontal { Button::DpadRight } else { Button::DpadDown })
    } else {
        None
    }
}

/// The edge event of a button.
pub open spec fn edge(event: InputEvent, button: Button, state: ButtonState) -> ControllerEvent {
    ControllerEvent { kind: ControllerEventKind::Button { button, state }, raw: event }
}

/// The edge of `button`, where there is one.
pub open spec fn edge_of(
    event: InputEvent,
    button: Option<Button>,
    state: ButtonState,
) -> Seq<ControllerEvent> {
    match button {
        Some(button) => seq![edge(event, button, state)],
        None => Seq::empty(),
    }
}

/// The edges of a hat axis that moves from `previous` to the value of `event`:
/// the release of the old position, then the press of the new one.
pub open spec fn hat_edges(event: InputEvent, horizontal: bool, previous: i32) -> Seq<
    ControllerEvent,
> {
    if previous == event.value {
        Seq::empty()
    } else {
        edge_of(event, hat_position(horizontal, previous), ButtonState::Up) + edge_of(
            event,
            hat_position(horizontal, event.value),
            ButtonState::Down,
        )
    }
}

/// The event of a stick axis.
pub open spec fn stick_update(
    event: InputEvent,
    stick: Stick,
    axis: StickAxis,
    range: AxisRange,
) -> ControllerEvent {
    ControllerEvent {
        kind: ControllerEventKind::Stick { stick, axis, raw_value: event.value, range },
        raw: event,
    }
}

/// The event of a trigger.
pub open spec fn trigger_update(
    event: InputEvent,
    trigger: Trigger,
    range: AxisRange,
) -> ControllerEvent {
    ControllerEvent {
        kind: ControllerEventKind::Trigger { trigger, raw_value: event.value, range },
        raw: event,
    }
}

/// Converts raw evdev input into stable, controller-specific events.
///
/// The decoder is stateful for D-pad hat axes so a transition such as left to
/// right becomes `DpadLeft Up` followed by `DpadRight Down`.
#[derive(Debug, Clone, Copy)]
pub struct EventDecoder {
    pub axes: [AxisRange; 6],
    pub dpad_x: i32,
    pub dpad_y: i32,
}

impl EventDecoder {
    /// The events that `event` stands for.
    pub open spec fn decoded(self, event: InputEvent) -> Seq<ControllerEvent> {
        if event.event_type == EV_KEY {
            edge_of(
                event,
                button_of(event.code),
                if event.value == 0 {
                    ButtonState::Up
                } else {
                    ButtonState::Down
                },
            )
        } else if event.event_type == EV_ABS {
            self.decoded_absolute(event)
        } else {
            Seq::empty()
        }
    }

    /// The events that an absolute-axis event stands for.
    pub open spec fn decoded_absolute(self, event: InputEvent) -> Seq<ControllerEvent> {
        match event.code {
            ABS_X => seq![stick_update(event, Stick::Left, StickAxis::X, self.axes@[0])],
            ABS_Y => seq![stick_update(event, Stick::Left, StickAxis::Y, self.axes@[1])],
            ABS_RX => seq![stick_update(event, Stick::Right, StickAxis::X, self.axes@[3])],
            ABS_RY => seq![stick_update(event, Stick::Right, StickAxis::Y, self.axes@[4])],
            ABS_Z => seq![trigger_update(event, Trigger::Left, self.axes@[2])],
            ABS_RZ => seq![trigger_update(event, Trigger::Right, self.axes@[5])],
            ABS_HAT0X => hat_edges(event, true, self.dpad_x),
            ABS_HAT0Y => hat_edges(event, false, self.dpad_y),
            _ => Seq::empty(),
        }
    }

    /// The decoder behind `event`: only the hat positions move.
    pub open spec fn after(self, event: InputEvent) -> EventDecoder {
        EventDecoder {
            axes: self.axes,
            dpad_x: if event.event_type == EV_ABS && event.code == ABS_HAT0X {
                event.value
            } else {
                self.dpad_x
            },
            dpad_y: if event.event_type == EV_ABS && event.code == ABS_HAT0Y {
                event.value
            } else {
                self.dpad_y
            },
        }
    }

    /// A decoder for a device that reports the axes `absinfo`, with the D-pad
    /// at rest.
    pub fn new(absinfo: &[AxisInfo]) -> (decoder: EventDecoder)
        ensures
            decoder.dpad_x == 0,
            decoder.dpad_y == 0,
            forall|slot: int|
                0 <= slot < 6 ==> #[trigger] decoder.axes@[slot] == reported_range(
                    absinfo@,
                    slot,
                ),
    {
        let mut decoder = EventDecoder { axes: [AxisRange::default();6], dpad_x: 0, dpad_y: 0 };
        let mut i: usize = 0;
        while i < absinfo.len()
            invariant
                i <= absinfo.len(),
                decoder.dpad_x == 0,
                decoder.dpad_y == 0,
                forall|slot: int|
                    0 <= slot < 6 ==> #[trigger] decoder.axes@[slot] == reported_range(
                        absinfo@.take(i as int),
                        slot,
                    ),
            decreases absinfo.len() - i,
        {
            let info = absinfo[i];
            let ghost longer = absinfo@.take(i + 1);
            assert(longer.drop_last() == absinfo@.take(i as int));
            assert(longer.last() == info);
            let index: Option<usize> = match info.axis {
                ABS_X => Some(0),
                ABS_Y => Some(1),
                ABS_Z => Some(2),
                ABS_RX => Some(3),
                ABS_RY => Some(4),
                ABS_RZ => Some(5),
                _ => None,
            };
            if let Some(index) = index {
                decoder.axes[index] = AxisRange { minimum: info.minimum, maximum: info.maximum };
            }
            i = i + 1;
        }
        assert(absinfo@.take(i as int) == absinfo@);
        decoder
    }

    /// Decode one raw event. Most raw events produce zero or one event; a
    /// direct D-pad direction change can produce two edge events.
    pub fn decode(&mut self, event: InputEvent) -> (events: Vec<ControllerEvent>)
        ensures
            events@ == old(self).decoded(event),
            *final(self) == old(self).after(event),
    {
        match event.event_type {
            EV_KEY => {
                let mut events: Vec<ControllerEvent> = Vec::new();
                if let Some(button) = self.button_from_key(event.code) {
                    events.push(
                        button_event(
                            event,
                            button,
                            if event.value == 0 {
                                ButtonState::Up
                            } else {
                                ButtonState::Down
                            },
                        ),
                    );
                }
                events
            },
            EV_ABS => self.decode_absolute(event),
            _ => Vec::new(),
        }
    }

    fn decode_absolute(&mut self, event: InputEvent) -> (events: Vec<ControllerEvent>)
        requires
            event.event_type == EV_ABS,
        ensures
            events@ == old(self).decoded_absolute(event),
            *final(self) == old(self).after(event),
    {
        let value = event.value;
        match event.code {
            ABS_X => vec![self.stick(event, Stick::Left, StickAxis::X, 0)],
            ABS_Y => vec![self.stick(event, Stick::Left, StickAxis::Y, 1)],
            ABS_RX => vec![self.stick(event, Stick::Right, StickAxis::X, 3)],
            ABS_RY => vec![self.stick(event, Stick::Right, StickAxis::Y, 4)],
            ABS_Z => vec![self.trigger(event, Trigger::Left, 2)],
            ABS_RZ => vec![self.trigger(event, Trigger::Right, 5)],
            ABS_HAT0X => self.decode_hat(event, true, value),
            ABS_HAT0Y => self.decode_hat(event, false, value),
            _ => Vec::new(),
        }
    }

    fn stick(&self, event: InputEvent, stick: Stick, axis: StickAxis, range: usize) -> (r:
        ControllerEvent)
        requires
            range < 6,
        ensures
            r == stick_update(event, stick, axis, self.axes@[range as int]),
    {
        ControllerEvent {
            kind: ControllerEventKind::Stick {
                stick,
                axis,
                raw_value: event.value,
                range: self.axes[range],
            },
            raw: event,
        }
    }

    fn trigger(&self, event: InputEvent, trigger: Trigger, range: usize) -> (r: ControllerEvent)
        requires
            range < 6,
        ensures
            r == trigger_update(event, trigger, self.axes@[range as int]),
    {
        ControllerEvent {
            kind: ControllerEventKind::Trigger {
                trigger,
                raw_value: event.value,
                range: self.axes[range],
            },
            raw: event,
        }
    }

    fn decode_hat(&mut self, event: InputEvent, horizontal: bool, value: i32) -> (events: Vec<
        ControllerEvent,
    >)
        requires
            value == event.value,
        ensures
            events@ == hat_edges(
                event,
                horizontal,
                if horizontal {
                    old(self).dpad_x
                } else {
                    old(self).dpad_y
                },
            ),
            final(self).axes == old(self).axes,
            final(self).dpad_x == (if horizontal {
                value
            } else {
                old(self).dpad_x
            }),
            final(self).dpad_y == (if horizontal {
                old(self).dpad_y
            } else {
                value
            }),
    {
        let previous: i32 = if horizontal {
            self.dpad_x
        } else {
            self.dpad_y
        };
        if horizontal {
            self.dpad_x = value;
        } else {
            self.dpad_y = value;
        }
        let mut events: Vec<ControllerEvent> = Vec::with_capacity(2);
        if previous == value {
            return events;
        }
        if let Some(button) = hat_button(horizontal, previous) {
            events.push(button_event(event, button, ButtonState::Up));
        }
        if let Some(button) = hat_button(horizontal, value) {
            events.push(button_event(event, button, ButtonState::Down));
        }
        assert(events@ == hat_edges(event, horizontal, previous));
        events
    }

    /// The button that a key code stands for.
    pub fn button_from_key(&self, code: KeyCode) -> (button: Option<Button>)
        ensures
            button == button_of(code),
            code == BTN_SOUTH ==> button == Some(Button::South),
            code == BTN_EAST ==> button == Some(Button::East),
            code == BTN_NORTH ==> button == Some(Button::North),
            code == BTN_WEST ==> button == Some(Button::West),
            code == BTN_TL ==> button == Some(Button::L1),
            code == BTN_TR ==> button == Some(Button::R1),
            code == BTN_TL2 ==> button == Some(Button::L2),
            code == BTN_TR2 ==> button == Some(Button::R2),
            code == BTN_SELECT ==> button == Some(Button::Create),
            code == BTN_START ==> button == Some(Button::Options),
            code == BTN_MODE ==> button == Some(Button::Ps),
            code == BTN_THUMBL ==> button == Some(Button::L3),
            code == BTN_THUMBR ==> button == Some(Button::R3),
            code == BTN_DPAD_UP ==> button == Some(Button::DpadUp),
            code == KEY_UP ==> button == Some(Button::DpadUp),
            code == BTN_DPAD_DOWN ==> button == Some(Button::DpadDown),
            code == KEY_DOWN ==> button == Some(Button::DpadDown),
            code == BTN_DPAD_LEFT ==> button == Some(Button::DpadLeft),
            code == KEY_LEFT ==> button == Some(Button::DpadLeft),
            code == BTN_DPAD_RIGHT ==> button == Some(Button::DpadRight),
            code == KEY_RIGHT ==> button == Some(Button::DpadRight),
            button is Some ==> code == BTN_SOUTH || code == BTN_EAST || code == BTN_NORTH
                || code == BTN_WEST || code == BTN_TL || code == BTN_TR || code == BTN_TL2
                || code == BTN_TR2 || code == BTN_SELECT || code == BTN_START || code == BTN_MODE
                || code == BTN_THUMBL || code == BTN_THUMBR || code == BTN_DPAD_UP
                || code == KEY_UP || code == BTN_DPAD_DOWN || code == KEY_DOWN
                || code == BTN_DPAD_LEFT || code == KEY_LEFT || code == BTN_DPAD_RIGHT
                || code == KEY_RIGHT,
    {
        match code {
            BTN_SOUTH => Some(Button::South),
            BTN_EAST => Some(Button::East),
            BTN_NORTH => Some(Button::North),
            BTN_WEST => Some(Button::West),
            BTN_TL => Some(Button::L1),
            BTN_TR => Some(Button::R1),
            BTN_TL2 => Some(Button::L2),
            BTN_TR2 => Some(Button::R2),
            BTN_SELECT => Some(Button::Create),
            BTN_START => Some(Button::Options),
            BTN_MODE => Some(Button::Ps),
            BTN_THUMBL => Some(Button::L3),
            BTN_THUMBR => Some(Button::R3),
            BTN_DPAD_UP | KEY_UP => Some(Button::DpadUp),
            BTN_DPAD_DOWN | KEY_DOWN => Some(Button::DpadDown),
            BTN_DPAD_LEFT | KEY_LEFT => Some(Button::DpadLeft),
            BTN_DPAD_RIGHT | KEY_RIGHT => Some(Button::DpadRight),
            _ => None,
        }
    }
}

/// The D-pad button that a hat axis holds down at `value`.
pub fn hat_button(horizontal: bool, value: i32) -> (button: Option<Button>)
    ensures
        button == hat_position(horizontal, value),
{
    match (horizontal, value) {
        (true, -1) => Some(Button::DpadLeft),
        (true, 1) => Some(Button::DpadRight),
        (false, -1) => Some(Button::DpadUp),
        (false, 1) => Some(Button::DpadDown),
        _ => None,
    }
}

fn button_event(event: InputEvent, button: Button, state: ButtonState) -> (r: ControllerEvent)
    ensures
        r == edge(event, button, state),
{
    ControllerEvent { kind: ControllerEventKind::Button { button, state }, raw: event }
}

/// The buttons that are down behind a run of edge events.
pub open spec fn pressed_after(down: Set<Button>, events: Seq<ControllerEvent>) -> Set<Button>
    decreases events.len(),
{
    if events.len() == 0 {
        down
    } else {
        let before = pressed_after(down, events.drop_last());
        match events.last().kind {
            ControllerEventKind::Button { button, state: ButtonState::Down } => before.insert(
                button,
            ),
            ControllerEventKind::Button { button, state: ButtonState::Up } => before.remove(button),
            _ => before,
        }
    }
}

/// The D-pad buttons that the hat axes of a decoder hold down.
pub open spec fn hat_buttons(decoder: EventDecoder) -> Set<Button> {
    Set::new(
        |b: Button|
            hat_position(true, decoder.dpad_x) == Some(b) || hat_position(false, decoder.dpad_y)
                == Some(b),
    )
}

/// The events of a run of raw events, decoded one after another.
pub open spec fn decoded_run(decoder: EventDecoder, raw: Seq<InputEvent>) -> Seq<ControllerEvent>
    decreases raw.len(),
{
    if raw.len() == 0 {
        Seq::empty()
    } else {
        decoded_run(decoder, raw.drop_last()) + run_state(decoder, raw.drop_last()).decoded(
            raw.last(),
        )
    }
}

/// The decoder behind a run of raw events.
pub open spec fn run_state(decoder: EventDecoder, raw: Seq<InputEvent>) -> EventDecoder
    decreases raw.len(),
{
    if raw.len() == 0 {
        decoder
    } else {
        run_state(decoder, raw.drop_last()).after(raw.last())
    }
}

proof fn lemma_pressed_concat(down: Set<Button>, a: Seq<ControllerEvent>, b: Seq<ControllerEvent>)
    ensures
        pressed_after(down, a + b) == pressed_after(pressed_after(down, a), b),
    decreases b.len(),
{
    if b.len() == 0 {
        assert(a + b == a);
    } else {
        assert((a + b).drop_last() == a + b.drop_last());
        lemma_pressed_concat(down, a, b.drop_last());
    }
}

/// The edges that a hat axis reports always add up to its position: behind any
/// run of absolute-axis events the D-pad buttons left down by the decoded edges
/// are exactly those that the hat axes hold.
pub proof fn law_hat_edges_follow_the_hat(decoder: EventDecoder, raw: Seq<InputEvent>)
    requires
        forall|i: int| 0 <= i < raw.len() ==> (#[trigger] raw[i]).event_type == EV_ABS,
    ensures
        pressed_after(hat_buttons(decoder), decoded_run(decoder, raw)) == hat_buttons(
            run_state(decoder, raw),
        ),
    decreases raw.len(),
{
    if raw.len() > 0 {
        let prefix = raw.drop_last();
        assert(forall|i: int| 0 <= i < prefix.len() ==> prefix[i] == raw[i]);
        law_hat_edges_follow_the_hat(decoder, prefix);
        let before = run_state(decoder, prefix);
        let event = raw.last();
        assert(event == raw[raw.len() - 1]);
        lemma_pressed_concat(
            hat_buttons(decoder),
            decoded_run(decoder, prefix),
            before.decoded(event),
        );
        let events = before.decoded(event);
        reveal_with_fuel(pressed_after, 3);
        if events.len() == 2 {
            assert(events.drop_last() == seq![events[0]]);
            assert(events.drop_last().drop_last() == Seq::<ControllerEvent>::empty());
        } else if events.len() == 1 {
            assert(events.drop_last() == Seq::<ControllerEvent>::empty());
        }
        assert(pressed_after(hat_buttons(before), events) =~= hat_buttons(before.after(event)));
    }
}

/// The edges of one button among a run of events.
pub open spec fn edges_of(button: Button, events: Seq<ControllerEvent>) -> Seq<ButtonState>
    decreases events.len(),
{
    if events.len() == 0 {
        Seq::empty()
    } else {
        let before = edges_of(button, events.drop_last());
        match events.last().kind {
            ControllerEventKind::Button { button: b, state } if b == button => before.push(state),
            _ => before,
        }
    }
}

/// The edges are Down, Up, Down and so on.
pub open spec fn alternate(edges: Seq<ButtonState>) -> bool {
    forall|i: int|
        0 <= i < edges.len() ==> #[trigger] edges[i] == (if i % 2 == 0 {
            ButtonState::Down
        } else {
            ButtonState::Up
        })
}

/// The value that a hat axis was last given by a run of raw events; it starts at
/// rest.
pub open spec fn last_hat_value(raw: Seq<InputEvent>, code: AxisCode) -> i32
    decreases raw.len(),
{
    if raw.len() == 0 {
        0
    } else if raw.last().event_type == EV_ABS && raw.last().code == code {
        raw.last().value
    } else {
        last_hat_value(raw.drop_last(), code)
    }
}

proof fn lemma_edges_concat(button: Button, a: Seq<ControllerEvent>, b: Seq<ControllerEvent>)
    ensures
        edges_of(button, a + b) == edges_of(button, a) + edges_of(button, b),
    decreases b.len(),
{
    if b.len() == 0 {
        assert(a + b =~= a);
        assert(edges_of(button, a) + edges_of(button, b) =~= edges_of(button, a));
    } else {
        assert((a + b).drop_last() =~= a + b.drop_last());
        lemma_edges_concat(button, a, b.drop_last());
        assert(edges_of(button, a + b) =~= edges_of(button, a) + edges_of(button, b));
    }
}

/// What one absolute-axis event adds to the edges of a button: its release if it
/// was held and is not any more, its press if it was not held and now is.
proof fn lemma_hat_step(button: Button, decoder: EventDecoder, event: InputEvent)
    requires
        event.event_type == EV_ABS,
    ensures
        edges_of(button, decoder.decoded(event)) == (if hat_buttons(decoder).contains(button)
            == hat_buttons(decoder.after(event)).contains(button) {
            Seq::<ButtonState>::empty()
        } else if hat_buttons(decoder).contains(button) {
            seq![ButtonState::Up]
        } else {
            seq![ButtonState::Down]
        }),
{
    let events = decoder.decoded(event);
    reveal_with_fuel(edges_of, 3);
    if events.len() == 2 {
        assert(events.drop_last() =~= seq![events[0]]);
        assert(events.drop_last().drop_last() =~= Seq::<ControllerEvent>::empty());
    } else if events.len() == 1 {
        assert(events.drop_last() =~= Seq::<ControllerEvent>::empty());
    }
}

/// The edges of every D-pad button alternate, from Down on, over any run of
/// absolute-axis events that a new decoder sees, and the last of them is Down
/// exactly if the hat axes were last moved to that button.
pub proof fn law_dpad_edges_alternate(button: Button, decoder: EventDecoder, raw: Seq<InputEvent>)
    requires
        decoder.dpad_x == 0,
        decoder.dpad_y == 0,
        forall|i: int| 0 <= i < raw.len() ==> (#[trigger] raw[i]).event_type == EV_ABS,
    ensures
        run_state(decoder, raw).dpad_x == last_hat_value(raw, ABS_HAT0X),
        run_state(decoder, raw).dpad_y == last_hat_value(raw, ABS_HAT0Y),
        ({
            let edges = edges_of(button, decoded_run(decoder, raw));
            let held = hat_position(true, last_hat_value(raw, ABS_HAT0X)) == Some(button)
                || hat_position(false, last_hat_value(raw, ABS_HAT0Y)) == Some(button);
            &&& alternate(edges)
            &&& held <==> edges.len() > 0 && edges.last() == ButtonState::Down
        }),
    decreases raw.len(),
{
    if raw.len() > 0 {
        let prefix = raw.drop_last();
        let event = raw.last();
        assert(forall|i: int| 0 <= i < prefix.len() ==> prefix[i] == raw[i]);
        assert(event == raw[raw.len() - 1]);
        law_dpad_edges_alternate(button, decoder, prefix);
        let before = run_state(decoder, prefix);
        lemma_edges_concat(button, decoded_run(decoder, prefix), before.decoded(event));
        lemma_hat_step(button, before, event);
        let earlier = edges_of(button, decoded_run(decoder, prefix));
        if earlier.len() > 0 {
            assert(earlier.last() == earlier[earlier.len() - 1]);
        }
    }
}

/// A hat event touches its own axis only, and where it gives two edges, a release
/// comes before a press.
pub proof fn law_hat_axes_are_independent(decoder: EventDecoder, event: InputEvent)
    requires
        event.event_type == EV_ABS,
        event.code == ABS_HAT0X || event.code == ABS_HAT0Y,
    ensures
        event.code == ABS_HAT0X ==> decoder.after(event).dpad_y == decoder.dpad_y,
        event.code == ABS_HAT0Y ==> decoder.after(event).dpad_x == decoder.dpad_x,
        forall|i: int|
            0 <= i < decoder.decoded(event).len() ==> match (#[trigger] decoder.decoded(
                event,
            )[i]).kind {
                ControllerEventKind::Button { button, .. } => if event.code == ABS_HAT0X {
                    button == Button::DpadLeft || button == Button::DpadRight
                } else {
                    button == Button::DpadUp || button == Button::DpadDown
                },
                _ => false,
            },
        decoder.decoded(event).len() == 2 ==> {
            &&& decoder.decoded(event)[0].kind matches ControllerEventKind::Button {
                state: ButtonState::Up,
                ..
            }
            &&& decoder.decoded(event)[1].kind matches ControllerEventKind::Button {
                state: ButtonState::Down,
                ..
            }
        },
{
}

/// A hat axis that reports its position again produces no event.
pub proof fn law_repeated_hat_value_is_silent(decoder: EventDecoder, event: InputEvent)
    requires
        event.event_type == EV_ABS,
        event.code == ABS_HAT0X || event.code == ABS_HAT0Y,
    ensures
        decoder.after(event).decoded(event) == Seq::<ControllerEvent>::empty(),
{
}

/// Every decoded event carries the raw event that it came from.
pub proof fn law_raw_event_stays_attached(decoder: EventDecoder, event: InputEvent, i: int)
    requires
        0 <= i < decoder.decoded(event).len(),
    ensures
        decoder.decoded(event)[i].raw == event,
        decoder.decoded(event).len() <= 2,
{
}

} // verus!
