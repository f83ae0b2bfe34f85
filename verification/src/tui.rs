//! The state of the interactive status screen.
//!
//! [`Monitor`] follows what the reader of the controller reports, the passing of
//! time and the keys of the terminal. Whoever drives it draws the screen and does
//! what a [`Reaction`] asks for.

use crate::calibration::{
    CalibrationSession, CalibrationStage, CalibrationView, JoystickCalibration,
};
use crate::input::ControllerEvent;
use crate::outputs::{OutputView, VoiceOutput};
use crate::state::{ControllerState, ControllerView, LightOutcome};
use crate::text;
use crate::voice::{sets_light, LightChange};
use vstd::prelude::*;
use vstd::string::*;

verus! {

/// What the reader of the controller reports.
#[derive(Debug)]
pub enum ReaderMessage {
    Input(ControllerEvent),
    Error(String),
    /// A level of the microphone, as the bits of single-precision numbers.
    MicSample { rms_bits: u32, peak_bits: u32 },
    MicStatus(String),
    Light([u8; 3]),
}

/// What the reader reports, in mathematical terms.
pub enum MessageView {
    Input(ControllerEvent),
    Error(Seq<char>),
    MicSample { rms_bits: u32, peak_bits: u32 },
    MicStatus(Seq<char>),
    Light([u8; 3]),
}

impl View for ReaderMessage {
    type V = MessageView;

    open spec fn view(&self) -> MessageView {
        match self {
            ReaderMessage::Input(event) => MessageView::Input(*event),
            ReaderMessage::Error(error) => MessageView::Error(error@),
            ReaderMessage::MicSample { rms_bits, peak_bits } => MessageView::MicSample {
                rms_bits: *rms_bits,
                peak_bits: *peak_bits,
            },
            ReaderMessage::MicStatus(status) => MessageView::MicStatus(status@),
            ReaderMessage::Light(rgb) => MessageView::Light(*rgb),
        }
    }
}

/// A text that the reader has to deliver.
#[derive(Debug, PartialEq, Eq)]
pub struct Delivery {
    pub text: String,
    /// The text is a delta of a transcript.
    pub partial: bool,
}

/// What the reader does about a report of the voice input: it delivers the text
/// if there is one, and passes a message on.
#[derive(Debug)]
pub struct VoiceRelay {
    pub delivery: Option<Delivery>,
    pub message: ReaderMessage,
}

/// The text that a report asks to deliver, and whether it is a delta.
pub open spec fn deliverable(output: OutputView) -> Option<(Seq<char>, bool)> {
    match output {
        OutputView::Transcript(text) => Some((text, false)),
        OutputView::PartialTranscript(text) => Some((text, true)),
        _ => None,
    }
}

/// The message that a report is passed on as.
pub open spec fn relayed(output: OutputView) -> MessageView {
    match output {
        OutputView::Transcript(text) => MessageView::MicStatus("Voice input: "@ + text),
        OutputView::PartialTranscript(text) => MessageView::MicStatus(
            "Voice input (partial): "@ + text,
        ),
        OutputView::Status(status) => MessageView::MicStatus(status),
        OutputView::MicSample { rms_bits, peak_bits } => MessageView::MicSample {
            rms_bits,
            peak_bits,
        },
        OutputView::Light(rgb) => MessageView::Light(rgb),
    }
}

/// What the reader does about a report of the voice input.
pub fn relay_voice_output(output: VoiceOutput) -> (relay: VoiceRelay)
    ensures
        relay.message@ == relayed(output@),
        match (relay.delivery, deliverable(output@)) {
            (Some(delivery), Some((text, partial))) => delivery.text@ == text && delivery.partial
                == partial,
            (None, None) => true,
            _ => false,
        },
{
    match output {
        VoiceOutput::Transcript(text) => VoiceRelay {
            message: ReaderMessage::MicStatus(text::joined("Voice input: ", text.as_str())),
            delivery: Some(Delivery { text, partial: false }),
        },
        VoiceOutput::PartialTranscript(text) => VoiceRelay {
            message: ReaderMessage::MicStatus(
                text::joined("Voice input (partial): ", text.as_str()),
            ),
            delivery: Some(Delivery { text, partial: true }),
        },
        VoiceOutput::Status(status) => VoiceRelay {
            message: ReaderMessage::MicStatus(status),
            delivery: None,
        },
        VoiceOutput::MicSample { rms_bits, peak_bits } => VoiceRelay {
            message: ReaderMessage::MicSample { rms_bits, peak_bits },
            delivery: None,
        },
        VoiceOutput::Light(rgb) => VoiceRelay {
            message: ReaderMessage::Light(rgb),
            delivery: None,
        },
    }
}

/// A key of the terminal.
#[derive(Debug, Clone, Copy, PartialEq, Eq, Structural)]
pub enum TerminalKey {
    Escape,
    Enter,
    Char(char),
    Other,
}

/// What a key asks for.
#[derive(Debug, PartialEq, Eq)]
pub struct Reaction {
    /// Leave the screen.
    pub quit: bool,
    /// A calibration begins: take the time.
    pub start_clock: bool,
    pub light: Option<LightChange>,
    /// A calibration that has to be kept.
    pub save: Option<JoystickCalibration>,
}

/// The status screen.
#[derive(Debug)]
pub struct Monitor {
    state: ControllerState,
    calibration: Option<CalibrationSession>,
    show_mappings: bool,
}

/// The status screen, in mathematical terms.
#[verifier::ext_equal]
pub struct MonitorView {
    pub state: ControllerView,
    pub calibration: Option<CalibrationView>,
    pub show_mappings: bool,
}

/// A calibration that may be under way.
pub open spec fn session_view(session: Option<CalibrationSession>) -> Option<CalibrationView> {
    match session {
        Some(session) => Some(session@),
        None => None,
    }
}

impl View for Monitor {
    type V = MonitorView;

    closed spec fn view(&self) -> MonitorView {
        MonitorView {
            state: self.state@,
            calibration: session_view(self.calibration),
            show_mappings: self.show_mappings,
        }
    }
}

/// The channel of the light that a key turns, and by how much.
pub open spec fn light_key(key: TerminalKey) -> Option<(int, int)> {
    match key {
        TerminalKey::Char('r') => Some((0, -16)),
        TerminalKey::Char('R') => Some((0, 16)),
        TerminalKey::Char('g') => Some((1, -16)),
        TerminalKey::Char('G') => Some((1, 16)),
        TerminalKey::Char('b') => Some((2, -16)),
        TerminalKey::Char('B') => Some((2, 16)),
        _ => None,
    }
}

impl MonitorView {
    /// A calibration that is under way is in order.
    pub open spec fn sound(self) -> bool {
        self.calibration matches Some(session) ==> session.sound()
    }

    /// The screen after a message of the reader.
    pub open spec fn received(self, message: MessageView) -> MonitorView {
        match message {
            MessageView::Input(event) => MonitorView {
                state: self.state.applied(event.raw),
                calibration: match self.calibration {
                    Some(session) => Some(session.observed(event.raw)),
                    None => None,
                },
                ..self
            },
            MessageView::Error(error) => MonitorView {
                state: ControllerView { reader_error: Some(error), ..self.state },
                ..self
            },
            MessageView::MicSample { rms_bits, peak_bits } => MonitorView {
                state: self.state.heard(rms_bits, peak_bits),
                ..self
            },
            MessageView::MicStatus(status) => MonitorView {
                state: ControllerView { mic_status: status, ..self.state },
                ..self
            },
            MessageView::Light(rgb) => MonitorView { state: self.state.lit(rgb), ..self },
        }
    }

    /// A calibration can take another sample.
    pub open spec fn can_sample(self) -> bool {
        self.calibration matches Some(session) ==> session.stage == CalibrationStage::Center
            ==> session.samples < u32::MAX
    }

    /// The screen when the sticks have been looked at, `elapsed_millis` after the
    /// calibration began.
    pub open spec fn sampled(self, elapsed_millis: u64) -> MonitorView {
        MonitorView {
            calibration: match self.calibration {
                Some(session) => Some(session.sampled(self.state.sticks, elapsed_millis)),
                None => None,
            },
            ..self
        }
    }

    /// The calibration that a key ends.
    pub open spec fn ended_calibration(self, key: TerminalKey) -> Option<JoystickCalibration> {
        match self.calibration {
            Some(session) if key == TerminalKey::Enter && session.stage
                == CalibrationStage::Range => Some(session.result(self.state.sticks)),
            _ => None,
        }
    }

    /// The screen after a key.
    pub open spec fn pressed(self, key: TerminalKey) -> MonitorView {
        if light_key(key) is Some || key == TerminalKey::Char('0') {
            MonitorView { state: self.state.light_asked(), ..self }
        } else if key == TerminalKey::Char('m') {
            MonitorView { show_mappings: !self.show_mappings, ..self }
        } else if key == TerminalKey::Char('c') {
            MonitorView {
                calibration: Some(CalibrationView::fresh(self.state.sticks)),
                state: ControllerView { calibration_message: None, ..self.state },
                ..self
            }
        } else if key == TerminalKey::Enter {
            match self.calibration {
                Some(session) => MonitorView {
                    calibration: match session.stage {
                        CalibrationStage::Center => Some(session.centered(self.state.sticks)),
                        CalibrationStage::Range => None,
                    },
                    ..self
                },
                None => self,
            }
        } else {
            self
        }
    }

    /// The screen when a calibration has been kept or could not be.
    pub open spec fn kept(
        self,
        calibration: JoystickCalibration,
        outcome: Result<(), Seq<char>>,
    ) -> MonitorView {
        MonitorView {
            state: match outcome {
                Ok(()) => ControllerView {
                    calibration,
                    calibration_message: Some("Calibration saved; press c to recalibrate"@),
                    ..self.state
                },
                Err(error) => ControllerView {
                    calibration_message: Some(
                        "Calibration measured, but save failed: "@ + error,
                    ),
                    ..self.state
                },
            },
            ..self
        }
    }
}

impl Monitor {
    /// The screen is in order.
    pub open spec fn valid(&self) -> bool {
        self@.sound()
    }

    /// The screen of a controller.
    pub fn new(state: ControllerState) -> (monitor: Monitor)
        ensures
            monitor.valid(),
            monitor@ == (MonitorView {
                state: state@,
                calibration: None,
                show_mappings: false,
            }),
    {
        Monitor { state, calibration: None, show_mappings: false }
    }

    /// Follows a message of the reader.
    pub fn receive(&mut self, message: ReaderMessage)
        requires
            old(self).valid(),
        ensures
            final(self).valid(),
            final(self)@ == old(self)@.received(message@),
    {
        match message {
            ReaderMessage::Input(event) => {
                self.state.apply(event.raw);
                let mut calibration = None;
                std::mem::swap(&mut calibration, &mut self.calibration);
                if let Some(session) = calibration {
                    let mut session = session;
                    session.observe_event(event.raw);
                    self.calibration = Some(session);
                }
            },
            ReaderMessage::Error(error) => self.state.set_reader_error(error),
            ReaderMessage::MicSample { rms_bits, peak_bits } => self.state.hear(
                rms_bits,
                peak_bits,
            ),
            ReaderMessage::MicStatus(status) => self.state.set_mic_status(status),
            ReaderMessage::Light(rgb) => self.state.show_light(rgb),
        }
    }

    /// Whether a calibration can take another sample.
    pub fn may_sample(&self) -> (r: bool)
        ensures
            r ==> self@.can_sample(),
            !r ==> !self@.can_sample(),
    {
        match &self.calibration {
            Some(session) => match session.stage() {
                CalibrationStage::Center => session.samples() < u32::MAX,
                CalibrationStage::Range => true,
            },
            None => true,
        }
    }

    /// Looks at the sticks, `elapsed_millis` after the calibration began.
    pub fn sample(&mut self, elapsed_millis: u64)
        requires
            old(self).valid(),
            old(self)@.can_sample(),
        ensures
            final(self).valid(),
            final(self)@ == old(self)@.sampled(elapsed_millis),
    {
        let sticks = self.state.sticks();
        let mut calibration = None;
        std::mem::swap(&mut calibration, &mut self.calibration);
        if let Some(session) = calibration {
            let mut session = session;
            session.sample(&sticks, elapsed_millis);
            self.calibration = Some(session);
        }
    }

    /// Follows a key of the terminal.
    pub fn press(&mut self, key: TerminalKey) -> (reaction: Reaction)
        requires
            old(self).valid(),
            old(self)@.ended_calibration(key) is Some ==> old(self)@.state.sticks.have_middles(),
        ensures
            final(self).valid(),
            final(self)@ == old(self)@.pressed(key),
            reaction.quit == (key == TerminalKey::Escape || key == TerminalKey::Char('q')),
            reaction.start_clock == (key == TerminalKey::Char('c')),
            reaction.save == old(self)@.ended_calibration(key),
            match light_key(key) {
                Some((channel, delta)) => exists|rgb: [u8; 3]|
                    rgb@ == old(self)@.state.adjusted(channel, delta) && #[trigger] sets_light(
                        reaction.light,
                        old(self)@.state.light,
                        rgb,
                    ),
                None => if key == TerminalKey::Char('0') {
                    sets_light(reaction.light, old(self)@.state.light, [0, 0, 0])
                } else {
                    reaction.light is None
                },
            },
    {
        let mut reaction = Reaction { quit: false, start_clock: false, light: None, save: None };
        match key {
            TerminalKey::Escape | TerminalKey::Char('q') => {
                reaction.quit = true;
            },
            TerminalKey::Char('m') => {
                self.show_mappings = !self.show_mappings;
            },
            TerminalKey::Char('c') => {
                let sticks = self.state.sticks();
                self.calibration = Some(CalibrationSession::new(&sticks));
                self.state.set_calibration_message(None);
                reaction.start_clock = true;
            },
            TerminalKey::Char('r') => {
                reaction.light = self.state.adjust_light(0, -16);
            },
            TerminalKey::Char('R') => {
                reaction.light = self.state.adjust_light(0, 16);
            },
            TerminalKey::Char('g') => {
                reaction.light = self.state.adjust_light(1, -16);
            },
            TerminalKey::Char('G') => {
                reaction.light = self.state.adjust_light(1, 16);
            },
            TerminalKey::Char('b') => {
                reaction.light = self.state.adjust_light(2, -16);
            },
            TerminalKey::Char('B') => {
                reaction.light = self.state.adjust_light(2, 16);
            },
            TerminalKey::Char('0') => {
                reaction.light = self.state.set_light([0, 0, 0]);
            },
            TerminalKey::Enter => {
                let sticks = self.state.sticks();
                let mut calibration = None;
                std::mem::swap(&mut calibration, &mut self.calibration);
                if let Some(session) = calibration {
                    let mut session = session;
                    match session.stage() {
                        CalibrationStage::Center => {
                            session.finish_center(&sticks);
                            self.calibration = Some(session);
                        },
                        CalibrationStage::Range => {
                            reaction.save = Some(session.finish_range(&sticks));
                        },
                    }
                }
            },
            _ => {},
        }
        reaction
    }

    /// Takes whether the calibration that was measured could be kept.
    pub fn calibration_was_saved(
        &mut self,
        calibration: JoystickCalibration,
        outcome: Result<(), String>,
    )
        requires
            old(self).valid(),
        ensures
            final(self).valid(),
            final(self)@ == old(self)@.kept(
                calibration,
                match outcome {
                    Ok(()) => Ok(()),
                    Err(error) => Err(error@),
                },
            ),
    {
        match outcome {
            Ok(()) => {
                self.state.set_calibration(calibration);
                self.state.set_calibration_message(
                    Some("Calibration saved; press c to recalibrate".to_owned()),
                );
            },
            Err(error) => {
                let message = text::joined(
                    "Calibration measured, but save failed: ",
                    error.as_str(),
                );
                self.state.set_calibration_message(Some(message));
            },
        }
    }

    /// Takes how a change of the light went.
    pub fn light_was_set(&mut self, rgb: [u8; 3], outcome: LightOutcome)
        requires
            old(self).valid(),
        ensures
            final(self).valid(),
            final(self)@ == (MonitorView {
                state: old(self)@.state.light_tried(rgb, outcome),
                ..old(self)@
            }),
    {
        self.state.light_was_set(rgb, outcome);
    }

    /// What is known of the controller.
    pub fn state(&self) -> (state: &ControllerState)
        ensures
            state@ == self@.state,
    {
        &self.state
    }

    /// The calibration that is under way.
    pub fn calibration(&self) -> (session: Option<&CalibrationSession>)
        ensures
            match session {
                Some(session) => self@.calibration == Some(session@),
                None => self@.calibration is None,
            },
    {
        match &self.calibration {
            Some(session) => Some(session),
            None => None,
        }
    }

    /// Whether the mappings are shown over the screen.
    pub fn shows_mappings(&self) -> (r: bool)
        ensures
            r == self@.show_mappings,
    {
        self.show_mappings
    }
}

/// Opening and closing the mappings leaves the screen as it was.
pub proof fn law_mappings_toggle(monitor: MonitorView)
    ensures
        monitor.pressed(TerminalKey::Char('m')).pressed(TerminalKey::Char('m')) == monitor,
        monitor.pressed(TerminalKey::Char('m')).show_mappings != monitor.show_mappings,
{
}

/// A calibration takes effect only when it has been kept: until then, whatever
/// keys are pressed and whatever is reported, the old one stays.
pub proof fn law_calibration_changes_only_when_kept(
    monitor: MonitorView,
    key: TerminalKey,
    message: MessageView,
    elapsed_millis: u64,
    calibration: JoystickCalibration,
    outcome: Result<(), Seq<char>>,
)
    ensures
        monitor.pressed(key).state.calibration == monitor.state.calibration,
        monitor.received(message).state.calibration == monitor.state.calibration,
        monitor.sampled(elapsed_millis).state.calibration == monitor.state.calibration,
        monitor.kept(calibration, outcome).state.calibration == (if outcome is Ok {
            calibration
        } else {
            monitor.state.calibration
        }),
{
}

} // verus!
