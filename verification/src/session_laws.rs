//! What a transcription session does, said of what goes in and what comes out.

use crate::json::{json_rendering, JsonView};
use crate::outputs::{OutputView, VoiceOutput};
use crate::session::{
    append_message, commit_message, expects_all, pcm_bytes, reported, reported_by, session_run,
    setup_message, Action, ActionView, Event, EventView, Incoming, IncomingView, Phase,
    SessionStep, SessionView, StepView, INPUT_RATE, SESSION_IDLE_SECONDS,
};
use crate::text;
use vstd::prelude::*;

verus! {

/// The connection is there, or being closed.
pub open spec fn up(session: SessionView) -> bool {
    match session.phase {
        Phase::Disconnected | Phase::Connecting | Phase::Finished => false,
        _ => true,
    }
}

/// The step of `session` loses the connection.
pub open spec fn loses_connection(session: SessionView, event: EventView) -> bool {
    up(session) && !up(session.stepped(event).state)
}

/// The session records from a start on, with or without a connection, until a
/// stop or the loss of the connection. Nothing else starts or stops a recording.
pub proof fn law_recording_follows_the_talk_button(session: SessionView, event: EventView)
    requires
        session.expects(event),
    ensures
        event is Start ==> session.stepped(event).state.recording,
        event is Stop ==> !session.stepped(event).state.recording,
        event !is Start && event !is Stop && session.stepped(event).state.phase != Phase::Finished
            ==> session.stepped(event).state.recording == (session.recording && !loses_connection(
            session,
            event,
        )),
{
}

/// The user is speaking after a run of events: the last start or stop was a start,
/// and the connection has not been lost since.
pub open spec fn speaking(session: SessionView, events: Seq<EventView>) -> bool
    decreases events.len(),
{
    if events.len() == 0 {
        false
    } else {
        match events.last() {
            EventView::Start => true,
            EventView::Stop => false,
            event => speaking(session, events.drop_last()) && !loses_connection(
                session_run(session, events.drop_last()).0,
                event,
            ),
        }
    }
}

/// Audio that arrives on an open connection is converted, to be sent, exactly if
/// the user is speaking: if the last start or stop since the connection was opened
/// was a start. This holds of the first utterance and of every later one.
pub proof fn law_audio_is_taken_exactly_while_speaking(
    api_key: Option<Seq<char>>,
    events: Seq<EventView>,
)
    requires
        expects_all(SessionView::fresh(api_key), events),
        session_run(SessionView::fresh(api_key), events).0.phase != Phase::Finished,
    ensures
        ({
            let session = session_run(SessionView::fresh(api_key), events).0;
            &&& session.recording == speaking(SessionView::fresh(api_key), events)
            &&& session.phase == Phase::Open ==> {
                &&& session.stepped(EventView::Audio).action == (if speaking(
                    SessionView::fresh(api_key),
                    events,
                ) {
                    ActionView::Convert
                } else {
                    ActionView::Await
                })
            }
        }),
    decreases events.len(),
{
    let fresh = SessionView::fresh(api_key);
    if events.len() > 0 {
        let first = events.drop_last();
        let before = session_run(fresh, first).0;
        assert(before.expects(events.last()));
        assert(before.phase != Phase::Finished);
        law_audio_is_taken_exactly_while_speaking(api_key, first);
        law_recording_follows_the_talk_button(before, events.last());
    }
}

/// A start on an open connection keeps it open: the idle timer is disarmed and
/// nothing is sent or reported. Without a connection it connects with the key.
pub proof fn law_starting_connects_or_goes_on(session: SessionView)
    ensures
        ({
            let step = session.stepped(EventView::Start);
            &&& session.phase == Phase::Open ==> {
                &&& step.state.phase == Phase::Open
                &&& !step.state.idle_timer
                &&& step.action == ActionView::Await
                &&& step.outputs.len() == 0
            }
            &&& session.phase == Phase::Disconnected && session.api_key is Some ==> {
                &&& step.state.phase == Phase::Connecting
                &&& step.action == (ActionView::Connect { api_key: session.api_key->0 })
                &&& step.outputs.len() == 0
            }
            &&& session.phase == Phase::Disconnected && session.api_key is None ==> {
                &&& step.state.phase == Phase::Disconnected
                &&& step.action == ActionView::AwaitCommand
                &&& step.state.warned_missing_key
                &&& session.warned_missing_key ==> step.outputs.len() == 0
                &&& !session.warned_missing_key ==> step.outputs == seq![
                    OutputView::Status("Voice input disabled: OPENAI_API_KEY is not set"@),
                ]
            }
        }),
{
}

/// A connection that is made is reported, and audio from before it is forgotten; a
/// connection that fails is reported with its reason, and the session waits for
/// the next command. Audio is forgotten at no other time.
pub proof fn law_connecting_is_reported(
    session: SessionView,
    event: EventView,
    outcome: Result<(), Seq<char>>,
)
    requires
        session.expects(event),
    ensures
        session.stepped(event).reset_audio <==> event matches EventView::Connected(Ok(_)),
        session.phase == Phase::Connecting && event == EventView::Connected(outcome) ==> {
            let step = session.stepped(event);
            match outcome {
                Ok(()) => {
                    &&& step.state.phase == Phase::Open
                    &&& step.action == ActionView::Await
                    &&& step.outputs == seq![OutputView::Status("Voice transcription connected"@)]
                },
                Err(error) => {
                    &&& step.state.phase == Phase::Disconnected
                    &&& step.action == ActionView::AwaitCommand
                    &&& step.outputs == seq![
                        OutputView::Status("Voice connection failed: "@ + error),
                    ]
                },
            }
        },
{
    let step = session.stepped(event);
    if let EventView::Connected(Err(error)) = event {
        assert(step.outputs =~= seq![OutputView::Status("Voice connection failed: "@ + error)]);
    }
}

/// Audio that was converted is sent whole, unless there is none; then the session
/// goes on listening, and a failure to send ends the connection with its reason.
pub proof fn law_converted_audio_is_sent(
    session: SessionView,
    pcm: Seq<i16>,
    outcome: Result<(), Seq<char>>,
)
    requires
        session.phase == Phase::Converting,
    ensures
        ({
            let step = session.stepped(EventView::Converted(pcm));
            let sent = step.state.stepped(EventView::Sent(outcome));
            &&& step.outputs.len() == 0
            &&& pcm.len() == 0 ==> step.action == ActionView::Await && step.state.phase
                == Phase::Open
            &&& pcm.len() > 0 ==> {
                &&& step.action == ActionView::Send(
                    json_rendering(append_message(crate::session::base64_text(pcm_bytes(pcm)))),
                )
                &&& outcome is Ok ==> {
                    &&& sent.action == ActionView::Await
                    &&& sent.outputs.len() == 0
                    &&& sent.state == (SessionView { phase: Phase::Open, ..session })
                }
                &&& outcome matches Err(error) ==> {
                    &&& sent.action == ActionView::AwaitCommand
                    &&& sent.state.phase == Phase::Disconnected
                    &&& sent.outputs == seq![
                        OutputView::Status("Voice audio send failed: "@ + error),
                    ]
                }
            }
        }),
{
    let step = session.stepped(EventView::Converted(pcm));
    let sent = step.state.stepped(EventView::Sent(outcome));
    if let Err(error) = outcome {
        if pcm.len() > 0 {
            assert(sent.outputs =~= seq![OutputView::Status("Voice audio send failed: "@ + error)]);
        }
    }
}

/// A stop on an open connection ends the utterance: the commit is sent and, whether
/// or not that fails, the idle timer is armed anew and the session goes on
/// listening. Only a failure is reported. Nothing else arms the timer.
pub proof fn law_stopping_commits_and_arms_the_timer(
    session: SessionView,
    outcome: Result<(), Seq<char>>,
    event: EventView,
)
    requires
        session.phase == Phase::Open,
    ensures
        ({
            let step = session.stepped(EventView::Stop);
            let sent = step.state.stepped(EventView::Sent(outcome));
            &&& step.action == ActionView::Send(json_rendering(commit_message()))
            &&& step.outputs.len() == 0
            &&& sent.arm_timer
            &&& sent.state == (SessionView { recording: false, idle_timer: true, ..session })
            &&& sent.action == ActionView::Await
            &&& sent.outputs == (match outcome {
                Ok(()) => Seq::<OutputView>::empty(),
                Err(error) => seq![OutputView::Status("Voice commit failed: "@ + error)],
            })
            &&& session.expects(event) ==> !session.stepped(event).arm_timer
            &&& session.expects(event) && session.stepped(event).state.idle_timer
                ==> session.idle_timer
        }),
{
    let step = session.stepped(EventView::Stop);
    let sent = step.state.stepped(EventView::Sent(outcome));
    if let Err(error) = outcome {
        assert(sent.outputs =~= seq![OutputView::Status("Voice commit failed: "@ + error)]);
    }
}

/// A session that stays idle is closed: the closing message is sent, and the user
/// is told. Idle means five seconds.
pub proof fn law_idle_sessions_are_closed(session: SessionView)
    requires
        session.phase == Phase::Open,
        session.idle_timer,
    ensures
        ({
            let closing = session.stepped(EventView::IdleExpired);
            let closed = closing.state.stepped(EventView::CloseSent);
            &&& session.expects(EventView::IdleExpired)
            &&& closing.action == ActionView::SendClose
            &&& closing.outputs.len() == 0
            &&& closed.state == (SessionView {
                recording: false,
                idle_timer: false,
                phase: Phase::Disconnected,
                ..session
            })
            &&& closed.action == ActionView::AwaitCommand
            &&& closed.outputs == seq![
                OutputView::Status("Voice transcription session closed after 5 seconds idle"@),
            ]
        }),
        SESSION_IDLE_SECONDS == 5,
{
    let closed = session.stepped(EventView::IdleExpired).state.stepped(EventView::CloseSent);
    assert(closed.outputs =~= seq![
        OutputView::Status("Voice transcription session closed after 5 seconds idle"@),
    ]);
}

/// A message of the service changes nothing about the session; what it says is
/// reported. A lost connection is reported and waited out, and the end of the
/// messages, or of the commands, ends the session.
pub proof fn law_messages_are_reported(session: SessionView, incoming: IncomingView)
    requires
        session.phase == Phase::Open,
    ensures
        ({
            let step = session.stepped(EventView::Incoming(incoming));
            match incoming {
                IncomingView::Text(text) => {
                    &&& step.state == session
                    &&& step.action == ActionView::Await
                    &&& match reported_by(text) {
                        Some(output) => step.outputs == seq![output],
                        None => step.outputs.len() == 0,
                    }
                },
                IncomingView::Other => {
                    &&& step.state == session
                    &&& step.action == ActionView::Await
                    &&& step.outputs.len() == 0
                },
                IncomingView::Binary | IncomingView::Close | IncomingView::Error => {
                    &&& step.state.phase == Phase::Disconnected
                    &&& !step.state.recording
                    &&& !step.state.idle_timer
                    &&& step.action == ActionView::AwaitCommand
                    &&& step.outputs == seq![
                        OutputView::Status("Voice transcription disconnected"@),
                    ]
                },
                IncomingView::Ended => {
                    &&& step.state.phase == Phase::Finished
                    &&& step.action == ActionView::Finish
                    &&& step.outputs.len() == 0
                },
            }
        }),
        session.stepped(EventView::CommandsClosed).action == ActionView::Finish,
        session.stepped(EventView::CommandsClosed).state.phase == Phase::Finished,
        session.stepped(EventView::CommandsClosed).outputs.len() == 0,
{
    let step = session.stepped(EventView::Incoming(incoming));
    if incoming is Binary || incoming is Close || incoming is Error {
        assert(step.outputs =~= seq![OutputView::Status("Voice transcription disconnected"@)]);
    }
}

/// Without a connection a stop and audio are of no consequence, and the end of the
/// commands ends the session.
pub proof fn law_nothing_is_sent_without_a_connection(session: SessionView, event: EventView)
    requires
        session.phase == Phase::Disconnected,
        session.expects(event),
    ensures
        session.stepped(event).action !is Send,
        session.stepped(event).action !is SendClose,
        session.stepped(event).action !is Convert,
        event is Stop || event is Audio ==> {
            &&& session.stepped(event).action == ActionView::AwaitCommand
            &&& session.stepped(event).outputs.len() == 0
            &&& session.stepped(event).state.phase == Phase::Disconnected
        },
        event is CommandsClosed ==> session.stepped(event).action == ActionView::Finish,
{
}

/// Audio goes out as the bytes of its samples, two for each, the low one first:
/// the samples can be read back from them.
pub proof fn law_samples_are_read_back_from_their_bytes(pcm: Seq<i16>)
    ensures
        pcm_bytes(pcm).len() == 2 * pcm.len(),
        forall|i: int|
            0 <= i < pcm.len() ==> {
                let word = pcm_bytes(pcm)[2 * i] + 256 * pcm_bytes(pcm)[2 * i + 1];
                (#[trigger] pcm[i]) == (if word < 0x8000 {
                    word
                } else {
                    word - 0x10000
                })
            },
    decreases pcm.len(),
{
    if pcm.len() > 0 {
        let first = pcm.drop_last();
        law_samples_are_read_back_from_their_bytes(first);
        let bytes = pcm_bytes(pcm);
        assert forall|i: int| 0 <= i < pcm.len() implies {
            let word = bytes[2 * i] + 256 * bytes[2 * i + 1];
            (#[trigger] pcm[i]) == (if word < 0x8000 {
                word
            } else {
                word - 0x10000
            })
        } by {
            if i < first.len() {
                assert(first[i] == pcm[i]);
                assert(bytes[2 * i] == pcm_bytes(first)[2 * i]);
                assert(bytes[2 * i + 1] == pcm_bytes(first)[2 * i + 1]);
            } else {
                assert(bytes[2 * i] == crate::session::sample_bytes(pcm.last())[0]);
                assert(bytes[2 * i + 1] == crate::session::sample_bytes(pcm.last())[1]);
            }
        }
    }
}

/// The messages to the service name what they are, and carry what they are for:
/// the audio in base64, and the form of the audio with the model that hears it. The
/// turns are ended by the user, and not by the service.
pub proof fn law_messages_carry_what_they_are_for(audio: Seq<char>)
    ensures
        append_message(audio).text_member("type"@) == Some("input_audio_buffer.append"@),
        append_message(audio).text_member("audio"@) == Some(audio),
        commit_message().text_member("type"@) == Some("input_audio_buffer.commit"@),
        setup_message().text_member("type"@) == Some("session.update"@),
        ({
            let session = setup_message().member("session"@)->0;
            let input = session.member("audio"@)->0.member("input"@)->0;
            let format = input.member("format"@)->0;
            let transcription = input.member("transcription"@)->0;
            &&& session.text_member("type"@) == Some("transcription"@)
            &&& format.text_member("type"@) == Some("audio/pcm"@)
            &&& format.member("rate"@) == Some(JsonView::Number(Some(24_000)))
            &&& transcription.text_member("model"@) == Some("gpt-live-transcribe"@)
            &&& transcription.text_member("delay"@) == Some("low"@)
            &&& input.member("turn_detection"@) == Some(JsonView::Null)
        }),
        INPUT_RATE == 24_000,
{
    reveal_strlit("type");
    reveal_strlit("audio");
    reveal_strlit("session");
    reveal_strlit("rate");
    reveal_strlit("format");
    reveal_strlit("model");
    reveal_strlit("delay");
    reveal_strlit("transcription");
    reveal_strlit("turn_detection");
    assert("type"@[0] != "audio"@[0]);
    assert("type"@[0] != "session"@[0]);
    assert("type"@[0] != "rate"@[0]);
    assert("model"@[0] != "delay"@[0]);
    assert("format"@[0] != "transcription"@[0]);
    assert("format"@[0] != "turn_detection"@[0]);
    assert("transcription"@.len() != "turn_detection"@.len());
}

/// What the service says is passed on: a delta as it is, a completed transcript
/// without the white space around it, a commit and an error as messages. Empty
/// texts are not passed on, nor is anything that the service calls otherwise.
pub proof fn law_service_messages_are_passed_on(message: JsonView, kind: Seq<char>, said: Seq<char>)
    requires
        message.text_member("type"@) == Some(kind),
    ensures
        kind == "input_audio_buffer.committed"@ ==> reported(message) == Some(
            OutputView::Status("Voice audio committed; waiting for transcript"@),
        ),
        kind == "conversation.item.input_audio_transcription.delta"@ && message.text_member(
            "delta"@,
        ) == Some(said) ==> reported(message) == (if said.len() == 0 {
            None
        } else {
            Some(OutputView::PartialTranscript(said))
        }),
        kind == "conversation.item.input_audio_transcription.completed"@ && message.text_member(
            "transcript"@,
        ) == Some(said) ==> reported(message) == (if text::trimmed(said).len() == 0 {
            None
        } else {
            Some(OutputView::Transcript(text::trimmed(said)))
        }),
        kind == "error"@ && message.member("error"@) is Some && message.member(
            "error"@,
        )->0.text_member("message"@) == Some(said) ==> reported(message) == Some(
            OutputView::Status("Voice API error: "@ + said),
        ),
        reported(message) is Some ==> {
            ||| kind == "input_audio_buffer.committed"@
            ||| kind == "conversation.item.input_audio_transcription.delta"@
            ||| kind == "conversation.item.input_audio_transcription.completed"@
            ||| kind == "error"@
        },
        reported(message) matches Some(OutputView::Transcript(_)) ==> kind
            == "conversation.item.input_audio_transcription.completed"@,
        reported(message) matches Some(OutputView::PartialTranscript(_)) ==> kind
            == "conversation.item.input_audio_transcription.delta"@,
{
    reveal_strlit("input_audio_buffer.committed");
    reveal_strlit("conversation.item.input_audio_transcription.delta");
    reveal_strlit("conversation.item.input_audio_transcription.completed");
    reveal_strlit("error");
    assert("input_audio_buffer.committed"@.len() == 28);
    assert("conversation.item.input_audio_transcription.delta"@.len() == 49);
    assert("conversation.item.input_audio_transcription.completed"@.len() == 53);
    assert("error"@.len() == 5);
}

/// A step is carried out as it was decided: the same reports, the same timer and
/// audio, and the action that the decision names.
pub proof fn law_steps_are_carried_out_as_decided(step: SessionStep, decided: StepView)
    requires
        step.shows(decided),
    ensures
        step.outputs@.len() == decided.outputs.len(),
        forall|i: int|
            0 <= i < decided.outputs.len() ==> (#[trigger] step.outputs@[i])@ == decided.outputs[i],
        step.arm_timer == decided.arm_timer,
        step.reset_audio == decided.reset_audio,
        match decided.action {
            ActionView::AwaitCommand => step.action == Action::AwaitCommand,
            ActionView::Await => step.action == Action::Await,
            ActionView::Connect { api_key } => step.action matches Action::Connect(request)
                && request.url@ == "wss://api.openai.com/v1/realtime?intent=transcription"@
                && request.authorization@ == "Bearer "@ + api_key && request.setup@
                == json_rendering(setup_message()),
            ActionView::Convert => step.action == Action::Convert,
            ActionView::Send(message) => step.action matches Action::Send(sent) && sent@ == message,
            ActionView::SendClose => step.action == Action::SendClose,
            ActionView::Finish => step.action == Action::Finish,
        },
{
    assert(crate::outputs::outputs_view(step.outputs@).len() == step.outputs@.len());
    assert forall|i: int| 0 <= i < decided.outputs.len() implies (#[trigger] step.outputs@[i])@
        == decided.outputs[i] by {
        assert(crate::outputs::outputs_view(step.outputs@)[i] == step.outputs@[i]@);
    }
}

/// What happens is taken for what it is.
pub proof fn law_events_are_taken_for_what_they_are(
    pcm: Vec<i16>,
    words: String,
    error: String,
)
    ensures
        Event::CommandsClosed@ == EventView::CommandsClosed,
        Event::Start@ == EventView::Start,
        Event::Stop@ == EventView::Stop,
        Event::Audio@ == EventView::Audio,
        Event::IdleExpired@ == EventView::IdleExpired,
        Event::CloseSent@ == EventView::CloseSent,
        Event::Converted(pcm)@ == EventView::Converted(pcm@),
        Event::Connected(Ok(()))@ matches EventView::Connected(Ok(_)),
        Event::Connected(Err(error))@ == EventView::Connected(Err(error@)),
        Event::Sent(Ok(()))@ matches EventView::Sent(Ok(_)),
        Event::Sent(Err(error))@ == EventView::Sent(Err(error@)),
        Event::Incoming(Incoming::Text(words))@ == EventView::Incoming(IncomingView::Text(words@)),
        Event::Incoming(Incoming::Binary)@ == EventView::Incoming(IncomingView::Binary),
        Event::Incoming(Incoming::Close)@ == EventView::Incoming(IncomingView::Close),
        Event::Incoming(Incoming::Error)@ == EventView::Incoming(IncomingView::Error),
        Event::Incoming(Incoming::Other)@ == EventView::Incoming(IncomingView::Other),
        Event::Incoming(Incoming::Ended)@ == EventView::Incoming(IncomingView::Ended),
{
}

/// A report is taken for what it is.
pub proof fn law_reports_are_taken_for_what_they_are(
    words: String,
    rms_bits: u32,
    peak_bits: u32,
    rgb: [u8; 3],
)
    ensures
        VoiceOutput::Transcript(words)@ == OutputView::Transcript(words@),
        VoiceOutput::PartialTranscript(words)@ == OutputView::PartialTranscript(words@),
        VoiceOutput::Status(words)@ == OutputView::Status(words@),
        (VoiceOutput::MicSample { rms_bits, peak_bits })@ == (OutputView::MicSample {
            rms_bits,
            peak_bits,
        }),
        VoiceOutput::Light(rgb)@ == OutputView::Light(rgb),
{
}

/// A new session has a key or none; it neither records nor waits, has complained of
/// nothing and has no connection.
pub proof fn law_new_sessions_are_idle(api_key: Option<Seq<char>>)
    ensures
        SessionView::fresh(api_key).api_key == api_key,
        !SessionView::fresh(api_key).recording,
        !SessionView::fresh(api_key).idle_timer,
        !SessionView::fresh(api_key).warned_missing_key,
        SessionView::fresh(api_key).phase == Phase::Disconnected,
{
}

/// What a session waits for depends on what it does: a command or, while it is
/// connected, a message or the idle timer if that is armed; else the outcome of
/// what it asked for.
pub proof fn law_sessions_wait_for_what_they_asked_for(session: SessionView, event: EventView)
    ensures
        session.expects(event) <==> match event {
            EventView::CommandsClosed | EventView::Start | EventView::Stop | EventView::Audio => {
                session.phase == Phase::Disconnected || session.phase == Phase::Open
            },
            EventView::Incoming(_) => session.phase == Phase::Open,
            EventView::IdleExpired => session.phase == Phase::Open && session.idle_timer,
            EventView::Connected(_) => session.phase == Phase::Connecting,
            EventView::Converted(_) => session.phase == Phase::Converting,
            EventView::Sent(_) => session.phase == Phase::SendingAudio || session.phase
                == Phase::SendingCommit,
            EventView::CloseSent => session.phase == Phase::SendingClose,
        },
{
}

} // verus!
