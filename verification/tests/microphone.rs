use dualsense::microphone::{
    choose_microphone, rank, stream_error, AudioFormat, Intake, Microphone, MicrophoneAction,
    MicrophoneEvent, MicrophoneStep, SampleFormat,
};
use dualsense::outputs::VoiceOutput;

fn status(text: &str) -> Option<VoiceOutput> {
    Some(VoiceOutput::Status(text.to_owned()))
}

fn step(microphone: &mut Microphone, event: MicrophoneEvent) -> MicrophoneStep {
    assert!(microphone.is_expecting(&event));
    microphone.step(event)
}

fn names(names: &[Option<&str>]) -> Vec<Option<String>> {
    names.iter().map(|name| name.map(str::to_owned)).collect()
}

#[test]
fn names_are_ranked() {
    assert_eq!(rank("hw:CARD=Controller,DEV=0"), Some(4));
    assert_eq!(rank("plughw:CARD=Controller,DEV=1"), Some(1));
    assert_eq!(rank("DualSense Mic"), Some(3));
    assert_eq!(rank("Wireless Controller"), Some(3));
    assert_eq!(rank("Some controller"), Some(1));
    assert_eq!(rank("Built-in Audio"), None);
}

#[test]
fn last_of_the_best_is_chosen() {
    assert_eq!(choose_microphone(&[]), None);
    assert_eq!(choose_microphone(&names(&[Some("Built-in"), None])), None);
    assert_eq!(
        choose_microphone(&names(&[
            Some("controller"),
            Some("DualSense a"),
            None,
            Some("DualSense b"),
            Some("controller"),
        ])),
        Some(3)
    );
    assert_eq!(
        choose_microphone(&names(&[
            Some("hw:CARD=Controller,DEV=0"),
            Some("DualSense"),
        ])),
        Some(0)
    );
}

#[test]
fn microphone_is_started_step_by_step() {
    let mut microphone = Microphone::new();
    let chosen = step(
        &mut microphone,
        MicrophoneEvent::Listed(Ok(names(&[Some("Built-in"), Some("DualSense")]))),
    );
    assert_eq!(chosen.output, None);
    assert_eq!(chosen.action, MicrophoneAction::Configure(1));
    let configured = step(
        &mut microphone,
        MicrophoneEvent::Configured(Ok(SampleFormat::F32)),
    );
    assert_eq!(configured.action, MicrophoneAction::Build(SampleFormat::F32));
    let built = step(&mut microphone, MicrophoneEvent::Built(Ok(())));
    assert_eq!(built.action, MicrophoneAction::Play);
    let playing = step(&mut microphone, MicrophoneEvent::Played(Ok(())));
    assert_eq!(playing.output, status("Listening: DualSense"));
    assert_eq!(playing.action, MicrophoneAction::Listen);
    assert!(!microphone.is_expecting(&MicrophoneEvent::Played(Ok(()))));
}

#[test]
fn missing_microphones_are_reported() {
    let mut microphone = Microphone::new();
    let failed = step(
        &mut microphone,
        MicrophoneEvent::Listed(Err("no ALSA".to_owned())),
    );
    assert_eq!(failed.output, status("Microphone unavailable: no ALSA"));
    assert_eq!(failed.action, MicrophoneAction::GiveUp);
    let mut microphone = Microphone::new();
    let missing = step(&mut microphone, MicrophoneEvent::Listed(Ok(Vec::new())));
    assert_eq!(
        missing.output,
        status("DualSense microphone not found (is the headset input exposed?)")
    );
    assert_eq!(missing.action, MicrophoneAction::GiveUp);
}

fn chosen() -> Microphone {
    let mut microphone = Microphone::new();
    step(
        &mut microphone,
        MicrophoneEvent::Listed(Ok(names(&[Some("DualSense")]))),
    );
    microphone
}

#[test]
fn failures_name_the_device() {
    let mut microphone = chosen();
    let failed = step(
        &mut microphone,
        MicrophoneEvent::Configured(Err("busy".to_owned())),
    );
    assert_eq!(failed.output, status("Cannot open DualSense: busy"));
    let mut microphone = chosen();
    step(
        &mut microphone,
        MicrophoneEvent::Configured(Ok(SampleFormat::I16)),
    );
    let failed = step(&mut microphone, MicrophoneEvent::Built(Err("busy".to_owned())));
    assert_eq!(failed.output, status("Cannot start DualSense: busy"));
    let mut microphone = chosen();
    step(
        &mut microphone,
        MicrophoneEvent::Configured(Ok(SampleFormat::U8)),
    );
    step(&mut microphone, MicrophoneEvent::Built(Ok(())));
    let failed = step(&mut microphone, MicrophoneEvent::Played(Err("busy".to_owned())));
    assert_eq!(failed.output, status("Cannot play DualSense: busy"));
    assert_eq!(failed.action, MicrophoneAction::GiveUp);
    let mut microphone = chosen();
    let odd = step(
        &mut microphone,
        MicrophoneEvent::Configured(Ok(SampleFormat::Other("dsd".to_owned()))),
    );
    assert_eq!(odd.output, status("Unsupported microphone sample format: dsd"));
    assert_eq!(odd.action, MicrophoneAction::Abort);
    assert_eq!(
        Some(stream_error("xrun")),
        status("Microphone stream error: xrun")
    );
}

#[test]
fn other_audio_formats_start_over() {
    let mut format = AudioFormat::none();
    assert_eq!(format.take_in(0, 2), Intake::Rejected);
    assert_eq!(format.take_in(48_000, 0), Intake::Rejected);
    assert_eq!(format, AudioFormat::none());
    assert_eq!(format.take_in(48_000, 2), Intake::Restarted);
    assert_eq!(format.take_in(48_000, 2), Intake::Continued);
    assert!(!format.is_direct());
    assert_eq!(format.take_in(24_000, 2), Intake::Restarted);
    assert!(format.is_direct());
}
