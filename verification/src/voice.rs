//! Push-to-talk voice input for the DualSense microphone.
//!
//! Holding the right face button (○) captures the controller microphone, streams
//! 24 kHz PCM audio to OpenAI's realtime transcription session, and returns
//! transcript updates to the input reader. Text goes through Wayland with
//! Unicode support, and the user's clipboard is restored after each completed
//! turn.

use crate::input::{Button, ButtonState, ControllerEvent, ControllerEventKind};
use crate::light::{intensities, ControllerLight, LightCommand};
use crate::outputs::{outputs_view, OutputView, VoiceOutput};
use crate::text;
use crate::text_input::{
    asks_for_plain_paste, pastes_with_shift, reply_view, texts_view, Next, Step, TextInput,
    TextInputView,
};
use std::collections::VecDeque;
use vstd::prelude::*;
use vstd::string::*;

verus! {

/// A command to the transcription session.
#[derive(Debug, Clone, Copy, PartialEq, Eq, Structural)]
pub enum Command {
    Start,
    Stop,
}

/// A change of the controller's light.
#[derive(Debug, PartialEq, Eq)]
pub struct LightChange {
    pub rgb: [u8; 3],
    /// What has to be written for it.
    pub command: LightCommand,
}

/// What follows a controller event, in this order.
#[derive(Debug, PartialEq, Eq)]
pub struct VoiceReaction {
    /// Begin a turn of the text input.
    pub begin_turn: bool,
    pub light: Option<LightChange>,
    pub command: Option<Command>,
}

/// The light while the user can speak.
pub open spec fn ready_color() -> [u8; 3] {
    [0, 0, 255]
}

/// The light while the user speaks.
pub open spec fn speaking_color() -> [u8; 3] {
    [0, 255, 0]
}

/// Push-to-talk voice input.
#[derive(Debug)]
pub struct VoiceInput {
    recording: bool,
    microphone_started: bool,
    outputs: VecDeque<VoiceOutput>,
    text_input: TextInput,
    light: Option<ControllerLight>,
}

/// What voice input knows.
pub struct VoiceView {
    /// The button is held.
    pub recording: bool,
    pub microphone_started: bool,
    /// The reports that nobody has received yet, the oldest first.
    pub outputs: Seq<OutputView>,
    pub text_input: TextInputView,
    /// The path of the light's file.
    pub light: Option<Seq<u8>>,
}

impl View for VoiceInput {
    type V = VoiceView;

    closed spec fn view(&self) -> VoiceView {
        VoiceView {
            recording: self.recording,
            microphone_started: self.microphone_started,
            outputs: outputs_view(self.outputs@),
            text_input: self.text_input@,
            light: light_view(self.light),
        }
    }
}

/// The path of a light's file.
pub open spec fn light_view(light: Option<ControllerLight>) -> Option<Seq<u8>> {
    match light {
        Some(light) => Some(light.rgb_path@),
        None => None,
    }
}

/// The reports that messages to the user are.
pub open spec fn as_statuses(texts: Seq<Seq<char>>) -> Seq<OutputView> {
    texts.map_values(|text: Seq<char>| OutputView::Status(text))
}

/// The change sets the light behind `path` to `rgb`; without a light there is
/// none.
pub open spec fn sets_light(change: Option<LightChange>, path: Option<Seq<u8>>, rgb: [u8; 3]) -> bool {
    match change {
        Some(change) => {
            &&& path == Some(change.command.path@)
            &&& change.rgb == rgb
            &&& change.command.contents@ == intensities(rgb[0], rgb[1], rgb[2])
        },
        None => path is None,
    }
}

impl VoiceView {
    /// The command that a controller event gives: the talk button starts and
    /// stops the session, everything else is of no concern.
    pub open spec fn commanded(self, kind: ControllerEventKind) -> Option<Command> {
        match kind {
            ControllerEventKind::Button { button: Button::East, state: ButtonState::Down } => {
                if self.recording {
                    None
                } else {
                    Some(Command::Start)
                }
            },
            ControllerEventKind::Button { button: Button::East, state: ButtonState::Up } => {
                if self.recording {
                    Some(Command::Stop)
                } else {
                    None
                }
            },
            _ => None,
        }
    }

    /// Voice input after a controller event.
    pub open spec fn after_event(self, kind: ControllerEventKind) -> VoiceView {
        match self.commanded(kind) {
            Some(Command::Start) => VoiceView { recording: true, ..self },
            Some(Command::Stop) => VoiceView { recording: false, ..self },
            None => self,
        }
    }

    /// Voice input after a step of its text input.
    pub open spec fn after_text(self, step: Step) -> VoiceView {
        VoiceView {
            text_input: step.state,
            outputs: self.outputs + as_statuses(step.statuses),
            ..self
        }
    }
}

impl VoiceInput {
    /// Voice input for a controller with or without a light, and the change that
    /// shows that it is ready. `paste_setting` is the value of
    /// `DUALSENSE_VOICE_PASTE`.
    pub fn new(light: Option<ControllerLight>, paste_setting: Option<&str>) -> (started: (
        VoiceInput,
        Option<LightChange>,
    ))
        ensures
            started.0@ == (VoiceView {
                recording: false,
                microphone_started: false,
                outputs: Seq::empty(),
                text_input: TextInputView::fresh(
                    !asks_for_plain_paste(
                        match paste_setting {
                            Some(setting) => Some(setting@),
                            None => None,
                        },
                    ),
                ),
                light: light_view(light),
            }),
            sets_light(started.1, light_view(light), ready_color()),
    {
        let input = VoiceInput {
            recording: false,
            microphone_started: false,
            outputs: VecDeque::new(),
            text_input: TextInput::new(pastes_with_shift(paste_setting)),
            light,
        };
        assert(input@.outputs =~= Seq::<OutputView>::empty());
        let change = input.set_light([0, 0, 255]);
        (input, change)
    }

    /// React to the semantic controller event that controls push-to-talk.
    pub fn handle(&mut self, event: ControllerEvent) -> (reaction: VoiceReaction)
        ensures
            final(self)@ == old(self)@.after_event(event.kind),
            reaction.command == old(self)@.commanded(event.kind),
            reaction.begin_turn == (reaction.command == Some(Command::Start)),
            match reaction.command {
                Some(Command::Start) => sets_light(
                    reaction.light,
                    old(self)@.light,
                    speaking_color(),
                ),
                Some(Command::Stop) => sets_light(
                    reaction.light,
                    old(self)@.light,
                    ready_color(),
                ),
                None => reaction.light is None,
            },
    {
        if let ControllerEventKind::Button { button: Button::East, state } = event.kind {
            match state {
                ButtonState::Down => {
                    if !self.recording {
                        self.recording = true;
                        return VoiceReaction {
                            begin_turn: true,
                            light: self.set_light([0, 255, 0]),
                            command: Some(Command::Start),
                        };
                    }
                },
                ButtonState::Up => {
                    if self.recording {
                        self.recording = false;
                        return VoiceReaction {
                            begin_turn: false,
                            light: self.set_light([0, 0, 255]),
                            command: Some(Command::Stop),
                        };
                    }
                },
            }
        }
        VoiceReaction { begin_turn: false, light: None, command: None }
    }

    /// Whether audio is wanted.
    pub fn is_recording(&self) -> (recording: bool)
        ensures
            recording == self@.recording,
    {
        self.recording
    }

    /// Whether the microphone has to be started: only once.
    pub fn spawn_microphone(&mut self) -> (start: bool)
        ensures
            start == !old(self)@.microphone_started,
            final(self)@ == (VoiceView { microphone_started: true, ..old(self)@ }),
    {
        let start: bool = !self.microphone_started;
        self.microphone_started = true;
        start
    }

    /// Adds a report.
    pub fn send(&mut self, output: VoiceOutput)
        ensures
            final(self)@ == (VoiceView {
                outputs: old(self)@.outputs.push(output@),
                ..old(self)@
            }),
    {
        self.outputs.push_back(output);
        assert(self@.outputs =~= old(self)@.outputs.push(output@));
    }

    /// Takes the oldest report that nobody has received yet.
    pub fn try_recv(&mut self) -> (output: Option<VoiceOutput>)
        ensures
            match output {
                Some(output) => {
                    &&& old(self)@.outputs.len() > 0
                    &&& output@ == old(self)@.outputs[0]
                    &&& final(self)@ == (VoiceView {
                        outputs: old(self)@.outputs.drop_first(),
                        ..old(self)@
                    })
                },
                None => old(self)@.outputs.len() == 0 && final(self)@ == old(self)@,
            },
    {
        let output = self.outputs.pop_front();
        proof {
            if output is Some {
                assert(self@.outputs =~= old(self)@.outputs.drop_first());
            } else {
                assert(self@.outputs =~= old(self)@.outputs);
            }
        }
        output
    }

    fn report(&mut self, statuses: Vec<String>)
        ensures
            final(self)@ == (VoiceView {
                outputs: old(self)@.outputs + as_statuses(texts_view(statuses@)),
                ..old(self)@
            }),
    {
        let ghost before = self@;
        let ghost said = as_statuses(texts_view(statuses@));
        let mut i: usize = 0;
        assert(before.outputs + said.take(0) =~= before.outputs);
        while i < statuses.len()
            invariant
                i <= statuses.len(),
                said == as_statuses(texts_view(statuses@)),
                self@ == (VoiceView {
                    outputs: before.outputs + said.take(i as int),
                    ..before
                }),
            decreases statuses.len() - i,
        {
            self.send(VoiceOutput::Status(statuses[i].clone()));
            assert((before.outputs + said.take(i as int)).push(said[i as int]) =~= before.outputs
                + said.take(i + 1));
            i = i + 1;
        }
        assert(said.take(i as int) =~= said);
    }

    /// Begins a turn of the text input.
    pub fn begin_text_turn(&mut self) -> (next: Next)
        requires
            !old(self)@.text_input.busy(),
        ensures
            final(self)@ == old(self)@.after_text(old(self)@.text_input.turn_begun()),
            next@ == old(self)@.text_input.turn_begun().next,
    {
        let mut statuses: Vec<String> = Vec::new();
        let next = self.text_input.begin_turn(&mut statuses);
        let ghost step = old(self)@.text_input.turn_begun();
        assert(texts_view(statuses@) =~= step.statuses);
        self.report(statuses);
        next
    }

    /// Deliver a transcript delta through the ordered virtual keyboard.
    ///
    /// If that protocol is unavailable, the delta is deferred and the
    /// final transcript is entered once through the fallback path.
    pub fn type_partial(&mut self, text: &str) -> (next: Next)
        requires
            !old(self)@.text_input.busy(),
        ensures
            final(self)@ == old(self)@.after_text(old(self)@.text_input.partial(text@)),
            next@ == old(self)@.text_input.partial(text@).next,
    {
        let mut statuses: Vec<String> = Vec::new();
        let next = self.text_input.type_partial(text.to_owned(), &mut statuses);
        let ghost step = old(self)@.text_input.partial(text@);
        assert(texts_view(statuses@) =~= step.statuses);
        self.report(statuses);
        next
    }

    /// Complete a transcript turn without duplicating streamed deltas.
    ///
    /// When virtual-keyboard delivery was unavailable, partials were
    /// deferred and this final transcript is delivered once through the
    /// normal fallback path.  When partials were typed, the final API
    /// event is only an acknowledgement and must not be entered again.
    pub fn type_final(&mut self, text: &str) -> (next: Next)
        requires
            !old(self)@.text_input.busy(),
        ensures
            final(self)@ == old(self)@.after_text(old(self)@.text_input.completed(text@)),
            next@ == old(self)@.text_input.completed(text@).next,
    {
        let mut statuses: Vec<String> = Vec::new();
        let next = self.text_input.type_final(text.to_owned(), &mut statuses);
        let ghost step = old(self)@.text_input.completed(text@);
        assert(texts_view(statuses@) =~= step.statuses);
        self.report(statuses);
        next
    }

    /// Takes the reply to the request of the text input that is being performed.
    pub fn text_reply(&mut self, reply: Result<(), String>) -> (next: Next)
        requires
            old(self)@.text_input.busy(),
        ensures
            final(self)@ == old(self)@.after_text(
                old(self)@.text_input.replied(reply_view(reply)),
            ),
            next@ == old(self)@.text_input.replied(reply_view(reply)).next,
    {
        let mut statuses: Vec<String> = Vec::new();
        let ghost step = old(self)@.text_input.replied(reply_view(reply));
        let next = self.text_input.reply(reply, &mut statuses);
        assert(texts_view(statuses@) =~= step.statuses);
        self.report(statuses);
        next
    }

    /// Whether a request of the text input is being performed.
    pub fn text_is_busy(&self) -> (busy: bool)
        ensures
            busy == self@.text_input.busy(),
    {
        self.text_input.is_busy()
    }

    /// What sets the light to a colour, if there is one.
    pub fn set_light(&self, rgb: [u8; 3]) -> (change: Option<LightChange>)
        ensures
            sets_light(change, self@.light, rgb),
    {
        match &self.light {
            Some(light) => Some(
                LightChange { rgb, command: light.set_rgb(rgb[0], rgb[1], rgb[2]) },
            ),
            None => None,
        }
    }

    /// Reports how a change of the light went.
    pub fn light_was_set(&mut self, rgb: [u8; 3], result: Result<(), String>)
        ensures
            final(self)@ == (VoiceView {
                outputs: old(self)@.outputs.push(
                    match result {
                        Ok(()) => OutputView::Light(rgb),
                        Err(error) => OutputView::Status("Controller light error: "@ + error@),
                    },
                ),
                ..old(self)@
            }),
    {
        match result {
            Ok(()) => self.send(VoiceOutput::Light(rgb)),
            Err(error) => self.send(
                VoiceOutput::Status(text::joined("Controller light error: ", error.as_str())),
            ),
        }
    }
}

/// The session is started and stopped in turns: it is started only while it is
/// not recording and stopped only while it is, and without a command nothing
/// changes.
pub proof fn law_commands_alternate(voice: VoiceView, kind: ControllerEventKind)
    ensures
        match voice.commanded(kind) {
            Some(Command::Start) => !voice.recording && voice.after_event(kind).recording,
            Some(Command::Stop) => voice.recording && !voice.after_event(kind).recording,
            None => voice.after_event(kind) == voice,
        },
{
}

/// Only the right face button talks.
pub proof fn law_only_the_talk_button_talks(voice: VoiceView, kind: ControllerEventKind)
    requires
        !(kind matches ControllerEventKind::Button { button: Button::East, .. }),
    ensures
        voice.commanded(kind) is None,
        voice.after_event(kind) == voice,
{
}

} // verus!
