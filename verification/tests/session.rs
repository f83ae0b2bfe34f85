use dualsense::json::{parse_json, render_json, Json, Payload};
use dualsense::outputs::VoiceOutput;
use dualsense::session::{
    append_payload, audio_message, bytes_of_pcm, commit_payload, connect_session,
    handle_server_event, report_of, Action, Event, Incoming, Session, SessionStep,
};

fn status(text: &str) -> Vec<VoiceOutput> {
    vec![VoiceOutput::Status(text.to_owned())]
}

fn step(session: &mut Session, event: Event) -> SessionStep {
    assert!(session.is_expecting(&event));
    session.step(event)
}

fn open() -> Session {
    let mut session = Session::new(Some("SECRET".to_owned()));
    step(&mut session, Event::Start);
    step(&mut session, Event::Connected(Ok(())));
    session
}

#[test]
fn samples_are_little_endian() {
    let pcm = [0_i16, 1, -1, 0x1234, i16::MIN, i16::MAX];
    let expected: Vec<u8> = pcm.iter().flat_map(|sample| sample.to_le_bytes()).collect();
    assert_eq!(bytes_of_pcm(&pcm), expected);
}

#[test]
fn audio_is_sent_in_base64() {
    assert_eq!(
        audio_message(&[1, -2]),
        r#"{"audio":"AQD+/w==","type":"input_audio_buffer.append"}"#
    );
    assert_eq!(
        render_json(append_payload("A\"B".to_owned())),
        r#"{"audio":"A\"B","type":"input_audio_buffer.append"}"#
    );
    assert_eq!(
        render_json(commit_payload()),
        r#"{"type":"input_audio_buffer.commit"}"#
    );
}

#[test]
fn sessions_are_set_up_for_transcription() {
    let request = connect_session("SECRET");
    assert_eq!(
        request.url,
        "wss://api.openai.com/v1/realtime?intent=transcription"
    );
    assert_eq!(request.authorization, "Bearer SECRET");
    assert_eq!(
        request.setup,
        concat_lines(&[
            r#"{"session":{"audio":{"input":{"format":{"rate":24000,"type":"audio/pcm"},"#,
            r#""transcription":{"delay":"low","model":"gpt-live-transcribe"},"#,
            r#""turn_detection":null}},"type":"transcription"},"type":"session.update"}"#,
        ])
    );
}

fn concat_lines(lines: &[&str]) -> String {
    lines.concat()
}

#[test]
fn server_events_become_reports() {
    assert_eq!(
        handle_server_event(r#"{"type":"input_audio_buffer.committed"}"#),
        Some(VoiceOutput::Status(
            "Voice audio committed; waiting for transcript".to_owned()
        ))
    );
    assert_eq!(
        handle_server_event(
            r#"{"type":"conversation.item.input_audio_transcription.delta","delta":" hé"}"#
        ),
        Some(VoiceOutput::PartialTranscript(" h\u{e9}".to_owned()))
    );
    assert_eq!(
        handle_server_event(
            r#"{"type":"conversation.item.input_audio_transcription.delta","delta":""}"#
        ),
        None
    );
    assert_eq!(
        handle_server_event(
            r#"{"type":"conversation.item.input_audio_transcription.completed","transcript":" hi \n"}"#
        ),
        Some(VoiceOutput::Transcript("hi".to_owned()))
    );
    assert_eq!(
        handle_server_event(
            r#"{"type":"conversation.item.input_audio_transcription.completed","transcript":"  "}"#
        ),
        None
    );
    assert_eq!(
        handle_server_event(r#"{"type":"error","error":{"message":"bad"}}"#),
        Some(VoiceOutput::Status("Voice API error: bad".to_owned()))
    );
    for unknown in [
        r#"{"type":"error"}"#,
        r#"{"type":"error","error":"bad"}"#,
        r#"{"type":"error","error":{"message":5}}"#,
    ] {
        assert_eq!(
            handle_server_event(unknown),
            Some(VoiceOutput::Status(
                "Voice API error: unknown realtime API error".to_owned()
            ))
        );
    }
    for ignored in ["", "[]", "{}", r#"{"type":5}"#, r#"{"type":"session.created"}"#] {
        assert_eq!(handle_server_event(ignored), None);
    }
}

#[test]
fn reports_are_made_from_parsed_messages() {
    let message = Json::Object(vec![
        ("type".to_owned(), Json::Text("error".to_owned())),
        (
            "error".to_owned(),
            Json::Object(vec![("message".to_owned(), Json::Text("m".to_owned()))]),
        ),
    ]);
    assert_eq!(
        report_of(&message),
        Some(VoiceOutput::Status("Voice API error: m".to_owned()))
    );
}

#[test]
fn json_is_parsed_and_rendered() {
    let json = parse_json(r#"{"a":[null,true,1,-1,1.5,"x"],"b":18446744073709551615}"#).unwrap();
    match json.get("a") {
        Some(Json::Array(items)) => {
            assert!(matches!(items[0], Json::Null));
            assert!(matches!(items[1], Json::Bool(true)));
            assert_eq!(items[2].as_u64(), Some(1));
            assert!(matches!(items[3], Json::Number(None)));
            assert!(matches!(items[4], Json::Number(None)));
            assert_eq!(items[5].as_str(), Some("x"));
        }
        _ => panic!("expected an array"),
    }
    assert_eq!(json.get("b").and_then(Json::as_u64), Some(u64::MAX));
    assert!(json.get("c").is_none());
    assert!(Json::Null.get("a").is_none());
    assert!(parse_json("{").is_none());
    assert_eq!(
        render_json(Payload::Object(vec![
            ("b".to_owned(), Payload::Unsigned(1)),
            ("a".to_owned(), Payload::Null),
            ("b".to_owned(), Payload::Text("\n".to_owned())),
        ])),
        r#"{"a":null,"b":"\n"}"#
    );
}

#[test]
fn missing_key_is_reported_once() {
    let mut session = Session::new(None);
    let first = step(&mut session, Event::Start);
    assert_eq!(
        first.outputs,
        status("Voice input disabled: OPENAI_API_KEY is not set")
    );
    assert_eq!(first.action, Action::AwaitCommand);
    step(&mut session, Event::Stop);
    let second = step(&mut session, Event::Start);
    assert!(second.outputs.is_empty());
    assert_eq!(second.action, Action::AwaitCommand);
    assert_eq!(step(&mut session, Event::CommandsClosed).action, Action::Finish);
    assert!(!session.is_expecting(&Event::Start));
}

#[test]
fn connection_is_opened_when_the_user_speaks() {
    let mut session = Session::new(Some("SECRET".to_owned()));
    assert_eq!(step(&mut session, Event::Audio).action, Action::AwaitCommand);
    let start = step(&mut session, Event::Start);
    assert_eq!(start.action, Action::Connect(connect_session("SECRET")));
    assert!(!session.is_expecting(&Event::Stop));
    let failed = step(&mut session, Event::Connected(Err("refused".to_owned())));
    assert_eq!(failed.outputs, status("Voice connection failed: refused"));
    assert_eq!(failed.action, Action::AwaitCommand);
    step(&mut session, Event::Start);
    let connected = step(&mut session, Event::Connected(Ok(())));
    assert_eq!(connected.outputs, status("Voice transcription connected"));
    assert!(connected.reset_audio && !connected.arm_timer);
    assert_eq!(connected.action, Action::Await);
}

#[test]
fn audio_is_sent_only_while_speaking() {
    let mut session = open();
    assert_eq!(step(&mut session, Event::Audio).action, Action::Convert);
    let empty = step(&mut session, Event::Converted(Vec::new()));
    assert_eq!(empty.action, Action::Await);
    step(&mut session, Event::Audio);
    let send = step(&mut session, Event::Converted(vec![1, -2]));
    assert_eq!(send.action, Action::Send(audio_message(&[1, -2])));
    assert_eq!(step(&mut session, Event::Sent(Ok(()))).action, Action::Await);
    let stop = step(&mut session, Event::Stop);
    assert_eq!(stop.action, Action::Send(render_json(commit_payload())));
    step(&mut session, Event::Sent(Ok(())));
    assert_eq!(step(&mut session, Event::Audio).action, Action::Await);
}

#[test]
fn failed_audio_drops_the_connection() {
    let mut session = open();
    step(&mut session, Event::Audio);
    step(&mut session, Event::Converted(vec![1]));
    let failed = step(&mut session, Event::Sent(Err("broken".to_owned())));
    assert_eq!(failed.outputs, status("Voice audio send failed: broken"));
    assert_eq!(failed.action, Action::AwaitCommand);
    assert!(!session.timer_is_armed());
}

#[test]
fn idle_sessions_are_closed() {
    let mut session = open();
    assert!(!session.is_expecting(&Event::IdleExpired));
    step(&mut session, Event::Stop);
    let committed = step(&mut session, Event::Sent(Err("broken".to_owned())));
    assert_eq!(committed.outputs, status("Voice commit failed: broken"));
    assert!(committed.arm_timer && session.timer_is_armed());
    assert_eq!(step(&mut session, Event::IdleExpired).action, Action::SendClose);
    let closed = step(&mut session, Event::CloseSent);
    assert_eq!(
        closed.outputs,
        status("Voice transcription session closed after 5 seconds idle")
    );
    assert_eq!(closed.action, Action::AwaitCommand);

    let mut session = open();
    step(&mut session, Event::Stop);
    step(&mut session, Event::Sent(Ok(())));
    step(&mut session, Event::Start);
    assert!(!session.timer_is_armed());
}

#[test]
fn messages_are_reported_and_hangups_disconnect() {
    let mut session = open();
    let text = step(
        &mut session,
        Event::Incoming(Incoming::Text(
            r#"{"type":"input_audio_buffer.committed"}"#.to_owned(),
        )),
    );
    assert_eq!(
        text.outputs,
        status("Voice audio committed; waiting for transcript")
    );
    let other = step(&mut session, Event::Incoming(Incoming::Other));
    assert!(other.outputs.is_empty());
    for hangup in [Incoming::Close, Incoming::Error, Incoming::Binary] {
        let mut session = open();
        let gone = step(&mut session, Event::Incoming(hangup));
        assert_eq!(gone.outputs, status("Voice transcription disconnected"));
        assert_eq!(gone.action, Action::AwaitCommand);
    }
    assert_eq!(
        step(&mut session, Event::Incoming(Incoming::Ended)).action,
        Action::Finish
    );
    let mut session = open();
    assert_eq!(step(&mut session, Event::CommandsClosed).action, Action::Finish);
}
