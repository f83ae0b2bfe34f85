//! Choosing and starting the controller's microphone.
//!
//! [`Microphone`] decides how the microphone is found and started. Whoever
//! drives it performs one [`MicrophoneAction`] at a time and hands the outcome
//! back.

use crate::outputs::{OutputView, VoiceOutput};
use crate::session::INPUT_RATE;
use crate::text;
use vstd::prelude::*;
use vstd::string::*;

verus! {

/// How much an audio device looks like the controller's microphone, by its name;
/// nothing if it does not at all.
pub open spec fn likeness(name: Seq<char>) -> Option<u8> {
    let lower = text::lowered(name);
    if text::occurs(lower, "hw:card=controller"@) && text::occurs(lower, "dev=0"@) {
        Some(4)
    } else if text::occurs(lower, "dualsense"@) || text::occurs(lower, "wireless controller"@) {
        Some(3)
    } else if text::occurs(lower, "controller"@) {
        Some(1)
    } else {
        None
    }
}

/// How much an audio device looks like the controller's microphone.
pub fn rank(name: &str) -> (rank: Option<u8>)
    ensures
        rank == likeness(name@),
{
    let lower = text::lower_chars(name);
    if text::has_text(lower.as_slice(), "hw:card=controller") && text::has_text(
        lower.as_slice(),
        "dev=0",
    ) {
        Some(4)
    } else if text::has_text(lower.as_slice(), "dualsense") || text::has_text(
        lower.as_slice(),
        "wireless controller",
    ) {
        Some(3)
    } else if text::has_text(lower.as_slice(), "controller") {
        Some(1)
    } else {
        None
    }
}

/// The likeness of a device whose name may not be known.
pub open spec fn device_likeness(name: Option<String>) -> Option<u8> {
    match name {
        Some(name) => likeness(name@),
        None => None,
    }
}

/// The device at `index` is the last of those that look most like the
/// controller's microphone.
pub open spec fn is_best(names: Seq<Option<String>>, index: int) -> bool {
    &&& 0 <= index < names.len()
    &&& device_likeness(names[index]) is Some
    &&& forall|i: int|
        0 <= i < names.len() ==> match device_likeness(#[trigger] names[i]) {
            Some(other) => other <= device_likeness(names[index])->0 && (i > index ==> other
                < device_likeness(names[index])->0),
            None => true,
        }
}

/// Chooses the device that looks most like the controller's microphone. Of equal
/// ones the last is taken.
pub fn choose_microphone(names: &[Option<String>]) -> (chosen: Option<usize>)
    ensures
        match chosen {
            Some(index) => is_best(names@, index as int),
            None => forall|i: int|
                0 <= i < names@.len() ==> device_likeness(#[trigger] names@[i]) is None,
        },
{
    let mut best: Option<(usize, u8)> = None;
    let mut i: usize = 0;
    while i < names.len()
        invariant
            i <= names.len(),
            match best {
                Some((index, rank)) => is_best(names@.take(i as int), index as int)
                    && device_likeness(names@[index as int]) == Some(rank),
                None => forall|k: int|
                    0 <= k < i ==> device_likeness(#[trigger] names@[k]) is None,
            },
        decreases names.len() - i,
    {
        let found: Option<u8> = match &names[i] {
            Some(name) => rank(name.as_str()),
            None => None,
        };
        assert(found == device_likeness(names@[i as int]));
        let ghost shorter = names@.take(i as int);
        let ghost longer = names@.take(i + 1);
        assert(forall|k: int| 0 <= k < i ==> (#[trigger] longer[k]) == shorter[k]);
        if let Some(rank) = found {
            let better: bool = match best {
                Some((_, highest)) => rank >= highest,
                None => true,
            };
            if better {
                best = Some((i, rank));
            }
        }
        i = i + 1;
    }
    assert(names@.take(i as int) =~= names@);
    match best {
        Some((index, _)) => Some(index),
        None => None,
    }
}

/// The form of the samples that a device gives.
#[derive(Debug, PartialEq, Eq)]
pub enum SampleFormat {
    I8,
    I16,
    I32,
    I64,
    U8,
    U16,
    U32,
    U64,
    F32,
    F64,
    /// A form that is not supported, by its name.
    Other(String),
}

/// The form of samples, in mathematical terms.
pub enum FormatView {
    I8,
    I16,
    I32,
    I64,
    U8,
    U16,
    U32,
    U64,
    F32,
    F64,
    Other(Seq<char>),
}

impl View for SampleFormat {
    type V = FormatView;

    open spec fn view(&self) -> FormatView {
        match self {
            SampleFormat::I8 => FormatView::I8,
            SampleFormat::I16 => FormatView::I16,
            SampleFormat::I32 => FormatView::I32,
            SampleFormat::I64 => FormatView::I64,
            SampleFormat::U8 => FormatView::U8,
            SampleFormat::U16 => FormatView::U16,
            SampleFormat::U32 => FormatView::U32,
            SampleFormat::U64 => FormatView::U64,
            SampleFormat::F32 => FormatView::F32,
            SampleFormat::F64 => FormatView::F64,
            SampleFormat::Other(name) => FormatView::Other(name@),
        }
    }
}

/// What comes of an action.
#[derive(Debug, PartialEq, Eq)]
pub enum MicrophoneEvent {
    /// The names of the audio devices, where they are known.
    Listed(Result<Vec<Option<String>>, String>),
    /// The form of the samples of the chosen device.
    Configured(Result<SampleFormat, String>),
    Built(Result<(), String>),
    Played(Result<(), String>),
}

/// What is done next.
#[derive(Debug, PartialEq, Eq)]
pub enum MicrophoneAction {
    /// Read how the device at this place of the list is configured.
    Configure(usize),
    /// Build a stream of samples of this form.
    Build(SampleFormat),
    Play,
    /// The stream runs; there is nothing left to do.
    Listen,
    /// There is no microphone.
    GiveUp,
    /// The device gives samples that nothing can be done with.
    Abort,
}

/// What is reported and done about an event.
#[derive(Debug, PartialEq, Eq)]
pub struct MicrophoneStep {
    pub output: Option<VoiceOutput>,
    pub action: MicrophoneAction,
}

/// How far the microphone has been started.
#[derive(Debug, Clone, Copy, PartialEq, Eq, Structural)]
pub enum Stage {
    Listing,
    Configuring,
    Building,
    Starting,
    Done,
}

/// The start of a microphone.
#[derive(Debug)]
pub struct Microphone {
    stage: Stage,
    name: String,
}

/// The stage, and the name of the device that was chosen.
pub struct MicrophoneView {
    pub stage: Stage,
    pub name: Seq<char>,
}

impl View for Microphone {
    type V = MicrophoneView;

    closed spec fn view(&self) -> MicrophoneView {
        MicrophoneView { stage: self.stage, name: self.name@ }
    }
}

impl MicrophoneView {
    /// The event can happen now.
    pub open spec fn expects(self, event: MicrophoneEvent) -> bool {
        match self.stage {
            Stage::Listing => event is Listed,
            Stage::Configuring => event is Configured,
            Stage::Building => event is Built,
            Stage::Starting => event is Played,
            Stage::Done => false,
        }
    }

    /// The start goes on with an action.
    pub open spec fn goes_on(self, after: MicrophoneView, step: MicrophoneStep, stage: Stage) -> bool {
        &&& after == MicrophoneView { stage, ..self }
        &&& step.output is None
    }

    /// The start is over, and this is said about it.
    pub open spec fn ends(
        self,
        after: MicrophoneView,
        step: MicrophoneStep,
        status: Seq<char>,
        action: MicrophoneAction,
    ) -> bool {
        &&& after == MicrophoneView { stage: Stage::Done, ..self }
        &&& says(step, status)
        &&& step.action == action
    }

    /// The step that an event leads to.
    pub open spec fn leads_to(
        self,
        event: MicrophoneEvent,
        after: MicrophoneView,
        step: MicrophoneStep,
    ) -> bool {
        match event {
            MicrophoneEvent::Listed(Err(error)) => self.ends(
                after,
                step,
                "Microphone unavailable: "@ + error@,
                MicrophoneAction::GiveUp,
            ),
            MicrophoneEvent::Listed(Ok(names)) => match step.action {
                MicrophoneAction::Configure(index) => {
                    &&& is_best(names@, index as int)
                    &&& after == MicrophoneView {
                        stage: Stage::Configuring,
                        name: names@[index as int]->0@,
                    }
                    &&& step.output is None
                },
                _ => {
                    &&& forall|i: int|
                        0 <= i < names@.len() ==> device_likeness(#[trigger] names@[i]) is None
                    &&& self.ends(
                        after,
                        step,
                        "DualSense microphone not found (is the headset input exposed?)"@,
                        MicrophoneAction::GiveUp,
                    )
                },
            },
            MicrophoneEvent::Configured(Err(error)) => self.ends(
                after,
                step,
                "Cannot open "@ + self.name + ": "@ + error@,
                MicrophoneAction::GiveUp,
            ),
            MicrophoneEvent::Configured(Ok(format)) => match format@ {
                FormatView::Other(name) => self.ends(
                    after,
                    step,
                    "Unsupported microphone sample format: "@ + name,
                    MicrophoneAction::Abort,
                ),
                _ => {
                    &&& self.goes_on(after, step, Stage::Building)
                    &&& step.action matches MicrophoneAction::Build(built) && built@ == format@
                },
            },
            MicrophoneEvent::Built(Err(error)) => self.ends(
                after,
                step,
                "Cannot start "@ + self.name + ": "@ + error@,
                MicrophoneAction::GiveUp,
            ),
            MicrophoneEvent::Built(Ok(())) => {
                &&& self.goes_on(after, step, Stage::Starting)
                &&& step.action == MicrophoneAction::Play
            },
            MicrophoneEvent::Played(Err(error)) => self.ends(
                after,
                step,
                "Cannot play "@ + self.name + ": "@ + error@,
                MicrophoneAction::GiveUp,
            ),
            MicrophoneEvent::Played(Ok(())) => self.ends(
                after,
                step,
                "Listening: "@ + self.name,
                MicrophoneAction::Listen,
            ),
        }
    }
}

/// The step tells the user something.
pub open spec fn says(step: MicrophoneStep, status: Seq<char>) -> bool {
    match step.output {
        Some(output) => output@ == OutputView::Status(status),
        None => false,
    }
}

/// What is reported when the running stream fails.
pub fn stream_error(error: &str) -> (output: VoiceOutput)
    ensures
        output@ == OutputView::Status("Microphone stream error: "@ + error@),
{
    VoiceOutput::Status(text::joined("Microphone stream error: ", error))
}

impl Microphone {
    /// A microphone that still has to be found.
    pub fn new() -> (microphone: Microphone)
        ensures
            microphone@ == (MicrophoneView { stage: Stage::Listing, name: Seq::empty() }),
    {
        Microphone { stage: Stage::Listing, name: String::new() }
    }

    /// Whether the event can happen now.
    pub fn is_expecting(&self, event: &MicrophoneEvent) -> (r: bool)
        ensures
            r == self@.expects(*event),
    {
        match (self.stage, event) {
            (Stage::Listing, MicrophoneEvent::Listed(_)) => true,
            (Stage::Configuring, MicrophoneEvent::Configured(_)) => true,
            (Stage::Building, MicrophoneEvent::Built(_)) => true,
            (Stage::Starting, MicrophoneEvent::Played(_)) => true,
            _ => false,
        }
    }

    fn end(&mut self, status: String, action: MicrophoneAction) -> (step: MicrophoneStep)
        ensures
            old(self)@.ends(final(self)@, step, status@, action),
    {
        self.stage = Stage::Done;
        MicrophoneStep { output: Some(VoiceOutput::Status(status)), action }
    }

    /// Ends with a complaint about the device that was chosen.
    fn fail(&mut self, verb: &str, error: String) -> (step: MicrophoneStep)
        ensures
            old(self)@.ends(
                final(self)@,
                step,
                verb@ + old(self)@.name + ": "@ + error@,
                MicrophoneAction::GiveUp,
            ),
    {
        let mut status = text::joined(verb, self.name.as_str());
        status.append(": ");
        status.append(error.as_str());
        self.end(status, MicrophoneAction::GiveUp)
    }

    /// Follows the start of the microphone.
    pub fn step(&mut self, event: MicrophoneEvent) -> (step: MicrophoneStep)
        requires
            old(self)@.expects(event),
        ensures
            old(self)@.leads_to(event, final(self)@, step),
    {
        match event {
            MicrophoneEvent::Listed(Err(error)) => self.end(
                text::joined("Microphone unavailable: ", error.as_str()),
                MicrophoneAction::GiveUp,
            ),
            MicrophoneEvent::Listed(Ok(names)) => {
                if let Some(index) = choose_microphone(names.as_slice()) {
                    if let Some(name) = &names[index] {
                        self.name = name.clone();
                        self.stage = Stage::Configuring;
                        return MicrophoneStep {
                            output: None,
                            action: MicrophoneAction::Configure(index),
                        };
                    }
                }
                self.end(
                    "DualSense microphone not found (is the headset input exposed?)".to_owned(),
                    MicrophoneAction::GiveUp,
                )
            },
            MicrophoneEvent::Configured(Err(error)) => self.fail("Cannot open ", error),
            MicrophoneEvent::Configured(Ok(format)) => match format {
                SampleFormat::Other(name) => self.end(
                    text::joined("Unsupported microphone sample format: ", name.as_str()),
                    MicrophoneAction::Abort,
                ),
                format => {
                    self.stage = Stage::Building;
                    MicrophoneStep { output: None, action: MicrophoneAction::Build(format) }
                },
            },
            MicrophoneEvent::Built(Err(error)) => self.fail("Cannot start ", error),
            MicrophoneEvent::Built(Ok(())) => {
                self.stage = Stage::Starting;
                MicrophoneStep { output: None, action: MicrophoneAction::Play }
            },
            MicrophoneEvent::Played(Err(error)) => self.fail("Cannot play ", error),
            MicrophoneEvent::Played(Ok(())) => {
                let status = text::joined("Listening: ", self.name.as_str());
                self.end(status, MicrophoneAction::Listen)
            },
        }
    }
}

/// The form of the audio that a resampler works on.
#[derive(Debug, Clone, Copy, PartialEq, Eq, Structural)]
pub struct AudioFormat {
    pub input_rate: u32,
    pub channels: u16,
}

/// What a chunk of audio means to a resampler.
#[derive(Debug, Clone, Copy, PartialEq, Eq, Structural)]
pub enum Intake {
    /// A chunk without a rate or without channels is of no use.
    Rejected,
    /// The form is that of the chunks before.
    Continued,
    /// The form is another: what is left of the chunks before is dropped.
    Restarted,
}

impl AudioFormat {
    /// The form before any audio.
    pub fn none() -> (format: AudioFormat)
        ensures
            format == (AudioFormat { input_rate: 0, channels: 0 }),
    {
        AudioFormat { input_rate: 0, channels: 0 }
    }

    /// Takes the form of the next chunk in.
    pub fn take_in(&mut self, sample_rate: u32, channels: u16) -> (intake: Intake)
        ensures
            intake == (if sample_rate == 0 || channels == 0 {
                Intake::Rejected
            } else if *old(self) == (AudioFormat { input_rate: sample_rate, channels }) {
                Intake::Continued
            } else {
                Intake::Restarted
            }),
            *final(self) == (if sample_rate == 0 || channels == 0 {
                *old(self)
            } else {
                AudioFormat { input_rate: sample_rate, channels }
            }),
    {
        if sample_rate == 0 || channels == 0 {
            return Intake::Rejected;
        }
        if self.input_rate == sample_rate && self.channels == channels {
            return Intake::Continued;
        }
        self.input_rate = sample_rate;
        self.channels = channels;
        Intake::Restarted
    }

    /// Whether the audio already has the rate in which it is sent.
    pub fn is_direct(&self) -> (direct: bool)
        ensures
            direct == (self.input_rate == INPUT_RATE),
    {
        self.input_rate == INPUT_RATE
    }
}

/// While a hardware device of the controller is listed, such a device is chosen
/// and nothing that only carries the controller's name.
pub proof fn law_hardware_device_is_preferred(
    names: Seq<Option<String>>,
    chosen: int,
    hardware: int,
)
    requires
        is_best(names, chosen),
        0 <= hardware < names.len(),
        device_likeness(names[hardware]) == Some(4u8),
    ensures
        device_likeness(names[chosen]) == Some(4u8),
{
    assert(device_likeness(names[hardware])->0 <= device_likeness(names[chosen])->0);
}

} // verus!
