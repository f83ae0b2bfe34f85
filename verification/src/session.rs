//! The realtime transcription session.
//!
//! [`Session`] decides what the worker does with the connection to the
//! transcription service. Whoever drives it performs one [`Action`] at a time
//! and hands the event that comes of it back.

use crate::json::{json_document, json_rendering, parse_json, put_member, render_json, Json, JsonView, Payload};
use crate::outputs::{as_list, optional_output, outputs_view, OutputView, VoiceOutput};
use crate::text;
use crate::text_input::reply_view;
use vstd::prelude::*;
use vstd::string::*;

verus! {

/// Samples per second of the audio that is sent.
pub const INPUT_RATE: u32 = 24_000;

/// Seconds after which a session that is not recording is closed.
pub const SESSION_IDLE_SECONDS: u64 = 5;

/// The bytes of a sample, the low one first.
pub open spec fn sample_bytes(sample: i16) -> Seq<u8> {
    let bits = if sample < 0 {
        sample + 65536
    } else {
        sample as int
    };
    seq![(bits % 256) as u8, (bits / 256) as u8]
}

/// The bytes of 16-bit audio.
pub open spec fn pcm_bytes(pcm: Seq<i16>) -> Seq<u8>
    decreases pcm.len(),
{
    if pcm.len() == 0 {
        Seq::empty()
    } else {
        pcm_bytes(pcm.drop_last()) + sample_bytes(pcm.last())
    }
}

/// The bytes of 16-bit audio.
pub fn bytes_of_pcm(pcm: &[i16]) -> (bytes: Vec<u8>)
    ensures
        bytes@ == pcm_bytes(pcm@),
{
    let mut bytes: Vec<u8> = Vec::new();
    let mut i: usize = 0;
    assert(pcm@.take(0) =~= Seq::<i16>::empty());
    while i < pcm.len()
        invariant
            i <= pcm.len(),
            bytes@ == pcm_bytes(pcm@.take(i as int)),
        decreases pcm.len() - i,
    {
        let sample: i16 = pcm[i];
        let bits: u32 = if sample < 0 {
            (sample as i32 + 65536) as u32
        } else {
            sample as u32
        };
        let ghost before = bytes@;
        bytes.push((bits % 256) as u8);
        bytes.push((bits / 256) as u8);
        proof {
            assert(pcm@.take(i + 1).drop_last() =~= pcm@.take(i as int));
            assert(bytes@ =~= before + sample_bytes(sample));
        }
        i = i + 1;
    }
    assert(pcm@.take(i as int) =~= pcm@);
    bytes
}

/// The text that `base64` gives to bytes in its standard alphabet.
pub uninterp spec fn base64_text(bytes: Seq<u8>) -> Seq<char>;

/// `base64`'s `STANDARD.encode`: a text that depends on the bytes alone.
#[verifier::external_body]
fn encoded(bytes: &[u8]) -> (text: String)
    ensures
        text@ == base64_text(bytes@),
{
    base64::Engine::encode(&base64::engine::general_purpose::STANDARD, bytes)
}

/// The message that sends audio, given the text that the audio is encoded as.
pub open spec fn append_message(audio: Seq<char>) -> JsonView {
    JsonView::Object(
        map![
            "type"@ => JsonView::Text("input_audio_buffer.append"@),
            "audio"@ => JsonView::Text(audio),
        ],
    )
}

/// The message that sends audio, given the text that the audio is encoded as.
pub fn append_payload(audio: String) -> (payload: Payload)
    ensures
        payload@ == append_message(audio@),
{
    let mut members: Vec<(String, Payload)> = Vec::new();
    assert(fields_are(members@, Map::empty()));
    put_member(&mut members, "type", Payload::Text("input_audio_buffer.append".to_owned()));
    put_member(&mut members, "audio", Payload::Text(audio));
    Payload::Object(members)
}

/// The members say what the map says.
spec fn fields_are(members: Seq<(String, Payload)>, fields: Map<Seq<char>, JsonView>) -> bool {
    crate::json::fields_view(members) == fields
}

/// The message that sends audio.
pub fn audio_message(pcm: &[i16]) -> (message: String)
    ensures
        message@ == json_rendering(append_message(base64_text(pcm_bytes(pcm@)))),
{
    let bytes = bytes_of_pcm(pcm);
    render_json(append_payload(encoded(bytes.as_slice())))
}

/// The message that ends an utterance.
pub open spec fn commit_message() -> JsonView {
    JsonView::Object(map!["type"@ => JsonView::Text("input_audio_buffer.commit"@)])
}

/// The message that ends an utterance.
pub fn commit_payload() -> (payload: Payload)
    ensures
        payload@ == commit_message(),
{
    let mut members: Vec<(String, Payload)> = Vec::new();
    assert(fields_are(members@, Map::empty()));
    put_member(&mut members, "type", Payload::Text("input_audio_buffer.commit".to_owned()));
    Payload::Object(members)
}

/// The message that sets a session up: audio of [`INPUT_RATE`], transcribed with
/// little delay, in turns that the user ends.
pub open spec fn setup_message() -> JsonView {
    let format = JsonView::Object(
        map![
            "type"@ => JsonView::Text("audio/pcm"@),
            "rate"@ => JsonView::Number(Some(INPUT_RATE as u64)),
        ],
    );
    let transcription = JsonView::Object(
        map![
            "model"@ => JsonView::Text("gpt-live-transcribe"@),
            "delay"@ => JsonView::Text("low"@),
        ],
    );
    let input = JsonView::Object(
        map![
            "format"@ => format,
            "transcription"@ => transcription,
            "turn_detection"@ => JsonView::Null,
        ],
    );
    let audio = JsonView::Object(map!["input"@ => input]);
    let session = JsonView::Object(
        map!["type"@ => JsonView::Text("transcription"@), "audio"@ => audio],
    );
    JsonView::Object(map!["type"@ => JsonView::Text("session.update"@), "session"@ => session])
}

/// The message that sets a session up.
pub fn setup_payload() -> (payload: Payload)
    ensures
        payload@ == setup_message(),
{
    let mut format: Vec<(String, Payload)> = Vec::new();
    assert(fields_are(format@, Map::empty()));
    put_member(&mut format, "type", Payload::Text("audio/pcm".to_owned()));
    put_member(&mut format, "rate", Payload::Unsigned(INPUT_RATE as u64));
    let mut transcription: Vec<(String, Payload)> = Vec::new();
    assert(fields_are(transcription@, Map::empty()));
    put_member(&mut transcription, "model", Payload::Text("gpt-live-transcribe".to_owned()));
    put_member(&mut transcription, "delay", Payload::Text("low".to_owned()));
    let mut input: Vec<(String, Payload)> = Vec::new();
    assert(fields_are(input@, Map::empty()));
    put_member(&mut input, "format", Payload::Object(format));
    put_member(&mut input, "transcription", Payload::Object(transcription));
    put_member(&mut input, "turn_detection", Payload::Null);
    let mut audio: Vec<(String, Payload)> = Vec::new();
    assert(fields_are(audio@, Map::empty()));
    put_member(&mut audio, "input", Payload::Object(input));
    let mut session: Vec<(String, Payload)> = Vec::new();
    assert(fields_are(session@, Map::empty()));
    put_member(&mut session, "type", Payload::Text("transcription".to_owned()));
    put_member(&mut session, "audio", Payload::Object(audio));
    let mut members: Vec<(String, Payload)> = Vec::new();
    assert(fields_are(members@, Map::empty()));
    put_member(&mut members, "type", Payload::Text("session.update".to_owned()));
    put_member(&mut members, "session", Payload::Object(session));
    Payload::Object(members)
}

/// What is needed to open a session.
#[derive(Debug, PartialEq, Eq)]
pub struct ConnectRequest {
    pub url: String,
    /// The value of the `Authorization` header.
    pub authorization: String,
    /// The first message to send.
    pub setup: String,
}

/// What is needed to open a session with an API key.
pub fn connect_session(api_key: &str) -> (request: ConnectRequest)
    ensures
        request.url@ == "wss://api.openai.com/v1/realtime?intent=transcription"@,
        request.authorization@ == "Bearer "@ + api_key@,
        request.setup@ == json_rendering(setup_message()),
{
    ConnectRequest {
        url: "wss://api.openai.com/v1/realtime?intent=transcription".to_owned(),
        authorization: text::joined("Bearer ", api_key),
        setup: render_json(setup_payload()),
    }
}

/// What a message of the service reports.
pub open spec fn reported(message: JsonView) -> Option<OutputView> {
    match message.text_member("type"@) {
        Some(kind) => if kind == "input_audio_buffer.committed"@ {
            Some(OutputView::Status("Voice audio committed; waiting for transcript"@))
        } else if kind == "conversation.item.input_audio_transcription.delta"@ {
            match message.text_member("delta"@) {
                Some(delta) if delta.len() > 0 => Some(OutputView::PartialTranscript(delta)),
                _ => None,
            }
        } else if kind == "conversation.item.input_audio_transcription.completed"@ {
            match message.text_member("transcript"@) {
                Some(transcript) if text::trimmed(transcript).len() > 0 => Some(
                    OutputView::Transcript(text::trimmed(transcript)),
                ),
                _ => None,
            }
        } else if kind == "error"@ {
            Some(OutputView::Status("Voice API error: "@ + api_error(message)))
        } else {
            None
        },
        None => None,
    }
}

/// What an error message of the service says.
pub open spec fn api_error(message: JsonView) -> Seq<char> {
    match message.member("error"@) {
        Some(error) => match error.text_member("message"@) {
            Some(text) => text,
            None => "unknown realtime API error"@,
        },
        None => "unknown realtime API error"@,
    }
}

/// What a text of the service reports. A text that is no JSON reports nothing.
pub open spec fn reported_by(text: Seq<char>) -> Option<OutputView> {
    match json_document(text) {
        Some(message) => reported(message),
        None => None,
    }
}

/// What a message of the service reports.
pub fn report_of(message: &Json) -> (output: Option<VoiceOutput>)
    ensures
        optional_output(output) == reported(message@),
{
    let kind = match message.text_member("type") {
        Some(kind) => kind,
        None => {
            return None;
        },
    };
    if text::same_text(kind, "input_audio_buffer.committed") {
        return Some(
            VoiceOutput::Status("Voice audio committed; waiting for transcript".to_owned()),
        );
    }
    if text::same_text(kind, "conversation.item.input_audio_transcription.delta") {
        if let Some(delta) = message.text_member("delta") {
            if !delta.is_empty() {
                return Some(VoiceOutput::PartialTranscript(delta.to_owned()));
            }
        }
        return None;
    }
    if text::same_text(kind, "conversation.item.input_audio_transcription.completed") {
        if let Some(transcript) = message.text_member("transcript") {
            let transcript = text::trim(transcript);
            if !transcript.as_str().is_empty() {
                return Some(VoiceOutput::Transcript(transcript));
            }
        }
        return None;
    }
    if text::same_text(kind, "error") {
        let error = match message.get("error") {
            Some(error) => error.text_member("message"),
            None => None,
        };
        let error = match error {
            Some(error) => error,
            None => "unknown realtime API error",
        };
        return Some(VoiceOutput::Status(text::joined("Voice API error: ", error)));
    }
    None
}

/// What a text of the service reports.
pub fn handle_server_event(text: &str) -> (output: Option<VoiceOutput>)
    ensures
        optional_output(output) == reported_by(text@),
{
    match parse_json(text) {
        Some(message) => report_of(&message),
        None => None,
    }
}

/// What arrives on the connection.
#[derive(Debug, PartialEq, Eq)]
pub enum Incoming {
    Text(String),
    Binary,
    Close,
    /// The connection failed.
    Error,
    /// A message that carries nothing for the session.
    Other,
    /// There are no more messages.
    Ended,
}

/// Something that happens to a session.
#[derive(Debug, PartialEq, Eq)]
pub enum Event {
    /// Nobody can send commands any more.
    CommandsClosed,
    /// The user starts to speak.
    Start,
    /// The user stops speaking.
    Stop,
    /// The microphone has audio.
    Audio,
    Connected(Result<(), String>),
    /// The audio in the form in which it is sent.
    Converted(Vec<i16>),
    Sent(Result<(), String>),
    Incoming(Incoming),
    IdleExpired,
    /// The closing message is sent, or could not be.
    CloseSent,
}

/// An event, in mathematical terms.
pub enum EventView {
    CommandsClosed,
    Start,
    Stop,
    Audio,
    Connected(Result<(), Seq<char>>),
    Converted(Seq<i16>),
    Sent(Result<(), Seq<char>>),
    Incoming(IncomingView),
    IdleExpired,
    CloseSent,
}

/// What arrives, in mathematical terms.
pub enum IncomingView {
    Text(Seq<char>),
    Binary,
    Close,
    Error,
    Other,
    Ended,
}

impl View for Incoming {
    type V = IncomingView;

    open spec fn view(&self) -> IncomingView {
        match self {
            Incoming::Text(text) => IncomingView::Text(text@),
            Incoming::Binary => IncomingView::Binary,
            Incoming::Close => IncomingView::Close,
            Incoming::Error => IncomingView::Error,
            Incoming::Other => IncomingView::Other,
            Incoming::Ended => IncomingView::Ended,
        }
    }
}

impl View for Event {
    type V = EventView;

    open spec fn view(&self) -> EventView {
        match self {
            Event::CommandsClosed => EventView::CommandsClosed,
            Event::Start => EventView::Start,
            Event::Stop => EventView::Stop,
            Event::Audio => EventView::Audio,
            Event::Connected(result) => EventView::Connected(reply_view(*result)),
            Event::Converted(pcm) => EventView::Converted(pcm@),
            Event::Sent(result) => EventView::Sent(reply_view(*result)),
            Event::Incoming(incoming) => EventView::Incoming(incoming@),
            Event::IdleExpired => EventView::IdleExpired,
            Event::CloseSent => EventView::CloseSent,
        }
    }
}

/// What the worker does next.
#[derive(Debug, PartialEq, Eq)]
pub enum Action {
    /// Wait for a command.
    AwaitCommand,
    /// Wait for a command, for a message or, if it is armed, for the idle timer.
    Await,
    /// Connect to the service.
    Connect(ConnectRequest),
    /// Bring the audio that arrived into the form in which it is sent.
    Convert,
    /// Send a text.
    Send(String),
    /// Send the closing message and drop the connection.
    SendClose,
    /// Stop working.
    Finish,
}

/// What the worker does next, in mathematical terms. To connect it needs the
/// API key.
pub enum ActionView {
    AwaitCommand,
    Await,
    Connect { api_key: Seq<char> },
    Convert,
    Send(Seq<char>),
    SendClose,
    Finish,
}

/// The action is the one that the view describes.
pub open spec fn is_action(action: Action, view: ActionView) -> bool {
    match action {
        Action::AwaitCommand => view == ActionView::AwaitCommand,
        Action::Await => view == ActionView::Await,
        Action::Connect(request) => match view {
            ActionView::Connect { api_key } => {
                &&& request.url@ == "wss://api.openai.com/v1/realtime?intent=transcription"@
                &&& request.authorization@ == "Bearer "@ + api_key
                &&& request.setup@ == json_rendering(setup_message())
            },
            _ => false,
        },
        Action::Convert => view == ActionView::Convert,
        Action::Send(message) => view == ActionView::Send(message@),
        Action::SendClose => view == ActionView::SendClose,
        Action::Finish => view == ActionView::Finish,
    }
}

/// What a session is doing.
#[derive(Debug, Clone, Copy, PartialEq, Eq, Structural)]
pub enum Phase {
    Disconnected,
    Connecting,
    Open,
    Converting,
    SendingAudio,
    SendingCommit,
    SendingClose,
    Finished,
}

/// A transcription session.
#[derive(Debug)]
pub struct Session {
    api_key: Option<String>,
    recording: bool,
    idle_timer: bool,
    warned_missing_key: bool,
    phase: Phase,
}

/// What a session knows.
pub struct SessionView {
    pub api_key: Option<Seq<char>>,
    /// The user is speaking.
    pub recording: bool,
    /// The idle timer is armed.
    pub idle_timer: bool,
    /// The user has been told that there is no key.
    pub warned_missing_key: bool,
    pub phase: Phase,
}

impl View for Session {
    type V = SessionView;

    closed spec fn view(&self) -> SessionView {
        SessionView {
            api_key: match self.api_key {
                Some(key) => Some(key@),
                None => None,
            },
            recording: self.recording,
            idle_timer: self.idle_timer,
            warned_missing_key: self.warned_missing_key,
            phase: self.phase,
        }
    }
}

/// What a session does about an event.
#[derive(Debug, PartialEq, Eq)]
pub struct SessionStep {
    /// What is reported, in order.
    pub outputs: Vec<VoiceOutput>,
    /// Arm the idle timer anew.
    pub arm_timer: bool,
    /// Forget the audio that has not been sent.
    pub reset_audio: bool,
    pub action: Action,
}

/// A step of a session: the state behind it, what is reported and what comes
/// next.
pub struct StepView {
    pub state: SessionView,
    pub outputs: Seq<OutputView>,
    pub arm_timer: bool,
    pub reset_audio: bool,
    pub action: ActionView,
}

impl SessionView {
    /// A session that has not started.
    pub open spec fn fresh(api_key: Option<Seq<char>>) -> SessionView {
        SessionView {
            api_key,
            recording: false,
            idle_timer: false,
            warned_missing_key: false,
            phase: Phase::Disconnected,
        }
    }

    /// There is a connection to the service.
    pub open spec fn connected(self) -> bool {
        match self.phase {
            Phase::Open | Phase::Converting | Phase::SendingAudio | Phase::SendingCommit => true,
            _ => false,
        }
    }

    /// The event can happen now.
    pub open spec fn expects(self, event: EventView) -> bool {
        match self.phase {
            Phase::Disconnected => event is CommandsClosed || event is Start || event is Stop
                || event is Audio,
            Phase::Connecting => event is Connected,
            Phase::Open => event is CommandsClosed || event is Start || event is Stop || event
                is Audio || event is Incoming || (event is IdleExpired && self.idle_timer),
            Phase::Converting => event is Converted,
            Phase::SendingAudio | Phase::SendingCommit => event is Sent,
            Phase::SendingClose => event is CloseSent,
            Phase::Finished => false,
        }
    }

    /// The session does nothing but go on to `phase`.
    pub open spec fn going_on(self, phase: Phase, action: ActionView) -> StepView {
        StepView {
            state: SessionView { phase, ..self },
            outputs: Seq::empty(),
            arm_timer: false,
            reset_audio: false,
            action,
        }
    }

    /// The session waits with the connection open.
    pub open spec fn waiting(self) -> StepView {
        self.going_on(Phase::Open, ActionView::Await)
    }

    /// The session waits without a connection.
    pub open spec fn away(self) -> StepView {
        SessionView { idle_timer: false, ..self }.going_on(
            Phase::Disconnected,
            ActionView::AwaitCommand,
        )
    }

    /// The connection is gone.
    pub open spec fn dropped(self, status: Seq<char>) -> StepView {
        SessionView { recording: false, ..self }.away().saying(OutputView::Status(status))
    }

    /// What happens without a connection.
    pub open spec fn stepped_away(self, event: EventView) -> StepView {
        match event {
            EventView::CommandsClosed => self.going_on(Phase::Finished, ActionView::Finish),
            EventView::Start => {
                let started = SessionView { recording: true, ..self };
                match self.api_key {
                    Some(api_key) => started.going_on(
                        Phase::Connecting,
                        ActionView::Connect { api_key },
                    ),
                    None => if self.warned_missing_key {
                        started.away()
                    } else {
                        SessionView { warned_missing_key: true, ..started }.away().saying(
                            OutputView::Status("Voice input disabled: OPENAI_API_KEY is not set"@),
                        )
                    },
                }
            },
            EventView::Stop => SessionView { recording: false, ..self }.away(),
            _ => self.away(),
        }
    }

    /// What happens with a connection.
    pub open spec fn stepped_open(self, event: EventView) -> StepView {
        match event {
            EventView::CommandsClosed => self.going_on(Phase::Finished, ActionView::Finish),
            EventView::Start => SessionView {
                recording: true,
                idle_timer: false,
                ..self
            }.waiting(),
            EventView::Stop => SessionView { recording: false, ..self }.going_on(
                Phase::SendingCommit,
                ActionView::Send(json_rendering(commit_message())),
            ),
            EventView::Audio => if self.recording {
                self.going_on(Phase::Converting, ActionView::Convert)
            } else {
                self.waiting()
            },
            EventView::IdleExpired => self.going_on(Phase::SendingClose, ActionView::SendClose),
            EventView::Incoming(incoming) => self.received(incoming),
            _ => self.waiting(),
        }
    }

    /// A message arrives.
    pub open spec fn received(self, incoming: IncomingView) -> StepView {
        match incoming {
            IncomingView::Text(text) => StepView {
                outputs: as_list(reported_by(text)),
                ..self.waiting()
            },
            IncomingView::Binary | IncomingView::Close | IncomingView::Error => self.dropped(
                "Voice transcription disconnected"@,
            ),
            IncomingView::Other => self.waiting(),
            IncomingView::Ended => self.going_on(Phase::Finished, ActionView::Finish),
        }
    }

    /// The session after an event, and what it does about it.
    pub open spec fn stepped(self, event: EventView) -> StepView {
        match (self.phase, event) {
            (Phase::Disconnected, _) => self.stepped_away(event),
            (Phase::Connecting, EventView::Connected(Ok(()))) => StepView {
                outputs: seq![OutputView::Status("Voice transcription connected"@)],
                reset_audio: true,
                ..self.waiting()
            },
            (Phase::Connecting, EventView::Connected(Err(error))) => self.away().saying(
                OutputView::Status("Voice connection failed: "@ + error),
            ),
            (Phase::Open, _) => self.stepped_open(event),
            (Phase::Converting, EventView::Converted(pcm)) => if pcm.len() == 0 {
                self.waiting()
            } else {
                self.going_on(
                    Phase::SendingAudio,
                    ActionView::Send(
                        json_rendering(append_message(base64_text(pcm_bytes(pcm)))),
                    ),
                )
            },
            (Phase::SendingAudio, EventView::Sent(Ok(()))) => self.waiting(),
            (Phase::SendingAudio, EventView::Sent(Err(error))) => self.dropped(
                "Voice audio send failed: "@ + error,
            ),
            (Phase::SendingCommit, EventView::Sent(sent)) => {
                let armed = StepView {
                    arm_timer: true,
                    ..SessionView { idle_timer: true, ..self }.waiting()
                };
                match sent {
                    Ok(()) => armed,
                    Err(error) => armed.saying(
                        OutputView::Status("Voice commit failed: "@ + error),
                    ),
                }
            },
            (Phase::SendingClose, _) => self.dropped(
                "Voice transcription session closed after 5 seconds idle"@,
            ),
            _ => self.going_on(Phase::Finished, ActionView::Finish),
        }
    }
}

impl StepView {
    /// The step with a report in it.
    pub open spec fn saying(self, output: OutputView) -> StepView {
        StepView { outputs: self.outputs.push(output), ..self }
    }
}

impl SessionStep {
    /// The step is the one that the view describes.
    pub open spec fn shows(self, view: StepView) -> bool {
        &&& outputs_view(self.outputs@) == view.outputs
        &&& self.arm_timer == view.arm_timer
        &&& self.reset_audio == view.reset_audio
        &&& is_action(self.action, view.action)
    }
}

fn status(text: &str) -> (outputs: Vec<VoiceOutput>)
    ensures
        outputs_view(outputs@) == seq![OutputView::Status(text@)],
{
    let mut outputs: Vec<VoiceOutput> = Vec::new();
    outputs.push(VoiceOutput::Status(text.to_owned()));
    assert(outputs_view(outputs@) =~= seq![OutputView::Status(text@)]);
    outputs
}

fn status_of(text: &str, error: &str) -> (outputs: Vec<VoiceOutput>)
    ensures
        outputs_view(outputs@) == seq![OutputView::Status(text@ + error@)],
{
    let message = text::joined(text, error);
    status(message.as_str())
}

impl Session {
    /// A session with the value of `OPENAI_API_KEY`.
    pub fn new(api_key: Option<String>) -> (session: Session)
        ensures
            session@ == SessionView::fresh(
                match api_key {
                    Some(key) => Some(key@),
                    None => None,
                },
            ),
    {
        Session {
            api_key,
            recording: false,
            idle_timer: false,
            warned_missing_key: false,
            phase: Phase::Disconnected,
        }
    }

    /// Whether the event can happen now.
    pub fn is_expecting(&self, event: &Event) -> (r: bool)
        ensures
            r == self@.expects(event@),
    {
        match self.phase {
            Phase::Disconnected => match event {
                Event::CommandsClosed | Event::Start | Event::Stop | Event::Audio => true,
                _ => false,
            },
            Phase::Connecting => match event {
                Event::Connected(_) => true,
                _ => false,
            },
            Phase::Open => match event {
                Event::CommandsClosed | Event::Start | Event::Stop | Event::Audio
                | Event::Incoming(_) => true,
                Event::IdleExpired => self.idle_timer,
                _ => false,
            },
            Phase::Converting => match event {
                Event::Converted(_) => true,
                _ => false,
            },
            Phase::SendingAudio | Phase::SendingCommit => match event {
                Event::Sent(_) => true,
                _ => false,
            },
            Phase::SendingClose => match event {
                Event::CloseSent => true,
                _ => false,
            },
            Phase::Finished => false,
        }
    }

    /// Whether the idle timer is armed.
    pub fn timer_is_armed(&self) -> (armed: bool)
        ensures
            armed == self@.idle_timer,
    {
        self.idle_timer
    }

    fn go_on(&mut self, phase: Phase, outputs: Vec<VoiceOutput>, action: Action) -> (step: SessionStep)
        ensures
            final(self)@ == (SessionView { phase, ..old(self)@ }),
            step.outputs == outputs,
            !step.arm_timer,
            !step.reset_audio,
            step.action == action,
    {
        self.phase = phase;
        SessionStep { outputs, arm_timer: false, reset_audio: false, action }
    }

    fn wait(&mut self) -> (step: SessionStep)
        ensures
            final(self)@ == old(self)@.waiting().state,
            step.shows(old(self)@.waiting()),
    {
        let outputs: Vec<VoiceOutput> = Vec::new();
        assert(outputs_view(outputs@) =~= Seq::<OutputView>::empty());
        self.go_on(Phase::Open, outputs, Action::Await)
    }

    fn finish(&mut self) -> (step: SessionStep)
        ensures
            final(self)@ == old(self)@.going_on(Phase::Finished, ActionView::Finish).state,
            step.shows(old(self)@.going_on(Phase::Finished, ActionView::Finish)),
    {
        let outputs: Vec<VoiceOutput> = Vec::new();
        assert(outputs_view(outputs@) =~= Seq::<OutputView>::empty());
        self.go_on(Phase::Finished, outputs, Action::Finish)
    }

    fn stay_away(&mut self, outputs: Vec<VoiceOutput>) -> (step: SessionStep)
        ensures
            final(self)@ == old(self)@.away().state,
            step.shows(StepView { outputs: outputs_view(outputs@), ..old(self)@.away() }),
    {
        self.idle_timer = false;
        self.go_on(Phase::Disconnected, outputs, Action::AwaitCommand)
    }

    fn drop_connection(&mut self, text: &str) -> (step: SessionStep)
        ensures
            final(self)@ == old(self)@.dropped(text@).state,
            step.shows(old(self)@.dropped(text@)),
    {
        let ghost before = self@;
        self.recording = false;
        let outputs = status(text);
        assert(outputs_view(outputs@) =~= before.dropped(text@).outputs);
        self.stay_away(outputs)
    }

    fn step_away(&mut self, event: Event) -> (step: SessionStep)
        ensures
            final(self)@ == old(self)@.stepped_away(event@).state,
            step.shows(old(self)@.stepped_away(event@)),
    {
        let ghost before = self@;
        let nothing: Vec<VoiceOutput> = Vec::new();
        assert(outputs_view(nothing@) =~= Seq::<OutputView>::empty());
        match event {
            Event::CommandsClosed => self.finish(),
            Event::Start => {
                self.recording = true;
                let request = match &self.api_key {
                    Some(api_key) => Some(connect_session(api_key.as_str())),
                    None => None,
                };
                match request {
                    Some(request) => self.go_on(
                        Phase::Connecting,
                        nothing,
                        Action::Connect(request),
                    ),
                    None => {
                        if self.warned_missing_key {
                            return self.stay_away(nothing);
                        }
                        self.warned_missing_key = true;
                        let outputs = status("Voice input disabled: OPENAI_API_KEY is not set");
                        assert(outputs_view(outputs@) =~= before.stepped_away(event@).outputs);
                        self.stay_away(outputs)
                    },
                }
            },
            Event::Stop => {
                self.recording = false;
                self.stay_away(nothing)
            },
            _ => self.stay_away(nothing),
        }
    }

    fn receive(&mut self, incoming: Incoming) -> (step: SessionStep)
        ensures
            final(self)@ == old(self)@.received(incoming@).state,
            step.shows(old(self)@.received(incoming@)),
    {
        match incoming {
            Incoming::Text(text) => {
                let mut outputs: Vec<VoiceOutput> = Vec::new();
                if let Some(output) = handle_server_event(text.as_str()) {
                    outputs.push(output);
                }
                assert(outputs_view(outputs@) =~= as_list(reported_by(text@)));
                self.go_on(Phase::Open, outputs, Action::Await)
            },
            Incoming::Binary | Incoming::Close | Incoming::Error => self.drop_connection(
                "Voice transcription disconnected",
            ),
            Incoming::Other => self.wait(),
            Incoming::Ended => self.finish(),
        }
    }

    fn step_open(&mut self, event: Event) -> (step: SessionStep)
        ensures
            final(self)@ == old(self)@.stepped_open(event@).state,
            step.shows(old(self)@.stepped_open(event@)),
    {
        let nothing: Vec<VoiceOutput> = Vec::new();
        assert(outputs_view(nothing@) =~= Seq::<OutputView>::empty());
        match event {
            Event::CommandsClosed => self.finish(),
            Event::Start => {
                self.recording = true;
                self.idle_timer = false;
                self.wait()
            },
            Event::Stop => {
                self.recording = false;
                let message = render_json(commit_payload());
                self.go_on(Phase::SendingCommit, nothing, Action::Send(message))
            },
            Event::Audio => {
                if !self.recording {
                    return self.wait();
                }
                self.go_on(Phase::Converting, nothing, Action::Convert)
            },
            Event::IdleExpired => self.go_on(Phase::SendingClose, nothing, Action::SendClose),
            Event::Incoming(incoming) => self.receive(incoming),
            _ => self.wait(),
        }
    }

    /// Follows an event of the session.
    pub fn step(&mut self, event: Event) -> (step: SessionStep)
        requires
            old(self)@.expects(event@),
        ensures
            final(self)@ == old(self)@.stepped(event@).state,
            step.shows(old(self)@.stepped(event@)),
    {
        let ghost before = self@;
        let ghost view = before.stepped(event@);
        match (self.phase, event) {
            (Phase::Disconnected, event) => self.step_away(event),
            (Phase::Connecting, Event::Connected(Ok(()))) => {
                let outputs = status("Voice transcription connected");
                let mut step = self.go_on(Phase::Open, outputs, Action::Await);
                step.reset_audio = true;
                step
            },
            (Phase::Connecting, Event::Connected(Err(error))) => {
                let outputs = status_of("Voice connection failed: ", error.as_str());
                assert(outputs_view(outputs@) =~= view.outputs);
                self.stay_away(outputs)
            },
            (Phase::Open, event) => self.step_open(event),
            (Phase::Converting, Event::Converted(pcm)) => {
                if pcm.len() == 0 {
                    return self.wait();
                }
                let outputs: Vec<VoiceOutput> = Vec::new();
                assert(outputs_view(outputs@) =~= Seq::<OutputView>::empty());
                let message = audio_message(pcm.as_slice());
                self.go_on(Phase::SendingAudio, outputs, Action::Send(message))
            },
            (Phase::SendingAudio, Event::Sent(Ok(()))) => self.wait(),
            (Phase::SendingAudio, Event::Sent(Err(error))) => {
                let message = text::joined("Voice audio send failed: ", error.as_str());
                self.drop_connection(message.as_str())
            },
            (Phase::SendingCommit, Event::Sent(sent)) => {
                self.idle_timer = true;
                let outputs = match sent {
                    Ok(()) => Vec::new(),
                    Err(error) => status_of("Voice commit failed: ", error.as_str()),
                };
                assert(outputs_view(outputs@) =~= view.outputs);
                let mut step = self.go_on(Phase::Open, outputs, Action::Await);
                step.arm_timer = true;
                step
            },
            (Phase::SendingClose, _) => self.drop_connection(
                "Voice transcription session closed after 5 seconds idle",
            ),
            _ => self.finish(),
        }
    }
}

impl SessionView {
    /// What holds of every session that started fresh.
    pub open spec fn consistent(self) -> bool {
        &&& self.idle_timer ==> self.connected() || self.phase == Phase::SendingClose || self.phase
            == Phase::Finished
        &&& self.phase == Phase::Converting || self.phase == Phase::SendingAudio ==> self.recording
        &&& self.phase == Phase::Connecting ==> self.api_key is Some
        &&& self.connected() ==> self.api_key is Some
    }
}

/// A session stays consistent: the idle timer is armed only with a connection,
/// audio is under way only while the user speaks, and without an API key there
/// is never a connection.
pub proof fn law_session_stays_consistent(
    session: SessionView,
    event: EventView,
    api_key: Option<Seq<char>>,
)
    requires
        session.consistent(),
        session.expects(event),
    ensures
        SessionView::fresh(api_key).consistent(),
        session.stepped(event).state.consistent(),
        session.stepped(event).state.api_key == session.api_key,
{
}

/// Audio is brought into form only while the user speaks, and only what was
/// brought into form is sent as audio: everything else that is sent ends an
/// utterance.
pub proof fn law_audio_is_sent_only_while_speaking(session: SessionView, event: EventView)
    requires
        session.consistent(),
        session.expects(event),
    ensures
        session.stepped(event).action == ActionView::Convert ==> session.recording && session.phase
            == Phase::Open && event is Audio,
        session.stepped(event).action matches ActionView::Send(message) ==> {
            ||| event matches EventView::Converted(pcm) && session.recording && pcm.len() > 0
                && message == json_rendering(append_message(base64_text(pcm_bytes(pcm))))
            ||| event is Stop && session.phase == Phase::Open && message == json_rendering(
                commit_message(),
            )
        },
{
}

/// Losing the connection, in whatever way, ends the recording and disarms the
/// idle timer, and the user is told.
pub proof fn law_lost_connection_ends_the_recording(session: SessionView, event: EventView)
    requires
        session.consistent(),
        session.expects(event),
        session.connected() || session.phase == Phase::SendingClose,
        session.stepped(event).state.phase == Phase::Disconnected,
    ensures
        !session.stepped(event).state.recording,
        !session.stepped(event).state.idle_timer,
        session.stepped(event).outputs.len() == 1,
        session.stepped(event).outputs[0] is Status,
{
}

/// The session after a run of events, and everything that it reported on the way.
pub open spec fn session_run(session: SessionView, events: Seq<EventView>) -> (
    SessionView,
    Seq<OutputView>,
)
    decreases events.len(),
{
    if events.len() == 0 {
        (session, Seq::empty())
    } else {
        let (before, outputs) = session_run(session, events.drop_last());
        let step = before.stepped(events.last());
        (step.state, outputs + step.outputs)
    }
}

/// Every event of a run can happen when it does.
pub open spec fn expects_all(session: SessionView, events: Seq<EventView>) -> bool
    decreases events.len(),
{
    events.len() > 0 ==> {
        &&& expects_all(session, events.drop_last())
        &&& session_run(session, events.drop_last()).0.expects(events.last())
    }
}

/// What the user is told where there is no API key.
pub open spec fn missing_key_report() -> OutputView {
    OutputView::Status("Voice input disabled: OPENAI_API_KEY is not set"@)
}

/// Without an API key nothing is ever connected to. The user is told about it
/// once, however often they start to speak, and is told nothing else.
pub proof fn law_missing_key_is_reported_once(events: Seq<EventView>)
    requires
        expects_all(SessionView::fresh(None), events),
    ensures
        ({
            let (after, outputs) = session_run(SessionView::fresh(None), events);
            &&& after.phase == Phase::Disconnected || after.phase == Phase::Finished
            &&& after.api_key is None
            &&& outputs == (if exists|i: int|
                0 <= i < events.len() && (#[trigger] events[i]) is Start {
                seq![missing_key_report()]
            } else {
                Seq::empty()
            })
            &&& after.warned_missing_key == (outputs.len() > 0)
        }),
    decreases events.len(),
{
    if events.len() > 0 {
        let first = events.drop_last();
        law_missing_key_is_reported_once(first);
        let (before, outputs) = session_run(SessionView::fresh(None), first);
        let step = before.stepped(events.last());
        assert(events.last() == events[events.len() - 1]);
        if exists|i: int| 0 <= i < first.len() && (#[trigger] first[i]) is Start {
            let i = choose|i: int| 0 <= i < first.len() && (#[trigger] first[i]) is Start;
            assert(events[i] is Start);
            assert(outputs + step.outputs =~= seq![missing_key_report()]);
        } else if events.last() is Start {
            assert(outputs + step.outputs =~= seq![missing_key_report()]);
        } else {
            assert forall|i: int| 0 <= i < events.len() implies (#[trigger] events[i])
                !is Start by {
                if i < first.len() {
                    assert(first[i] !is Start);
                }
            }
            assert(outputs + step.outputs =~= Seq::<OutputView>::empty());
        }
    }
}

} // verus!
