use dualsense::text_input::{pastes_with_shift, Next, Outcome, Request, TextInput};

fn finished(outcome: Outcome) -> Next {
    Next::Finished(outcome)
}

fn perform(request: Request) -> Next {
    Next::Perform(request)
}

fn paste(text: &str) -> Next {
    perform(Request::Paste {
        text: text.to_owned(),
        with_shift: true,
    })
}

fn typing(text: &str) -> Next {
    perform(Request::Type(text.to_owned()))
}

const OPENED: &str = "Using Wayland virtual keyboard for transcription";

#[test]
fn typed_deltas_are_not_entered_again() {
    let mut input = TextInput::new(true);
    let mut said = Vec::new();
    assert_eq!(input.begin_turn(&mut said), finished(Outcome::Ready));
    assert_eq!(
        input.type_partial("Hel".to_owned(), &mut said),
        perform(Request::OpenClient)
    );
    assert!(input.is_busy());
    assert_eq!(input.reply(Ok(()), &mut said), typing("Hel"));
    assert_eq!(
        input.reply(Ok(()), &mut said),
        finished(Outcome::Typed(true))
    );
    assert_eq!(input.type_partial("lo".to_owned(), &mut said), typing("lo"));
    assert_eq!(
        input.reply(Ok(()), &mut said),
        finished(Outcome::Typed(true))
    );
    assert_eq!(
        input.type_final("Hello".to_owned(), &mut said),
        finished(Outcome::Typed(true))
    );
    assert_eq!(said, vec![OPENED]);
}

#[test]
fn deferred_deltas_are_pasted_once_at_the_end() {
    let mut input = TextInput::new(true);
    let mut said = Vec::new();
    input.type_partial("Hel".to_owned(), &mut said);
    assert_eq!(
        input.reply(Err("no protocol".to_owned()), &mut said),
        finished(Outcome::Typed(true))
    );
    assert_eq!(
        input.type_partial("lo".to_owned(), &mut said),
        finished(Outcome::Typed(true))
    );
    assert_eq!(
        input.type_final("Hello".to_owned(), &mut said),
        perform(Request::Capture)
    );
    // Without the virtual keyboard the paste shortcut cannot be sent either.
    assert_eq!(input.reply(Ok(()), &mut said), perform(Request::Restore));
    assert_eq!(
        input.reply(Ok(()), &mut said),
        finished(Outcome::Typed(false))
    );
    assert_eq!(
        said,
        vec![
            "Wayland virtual keyboard unavailable; deferring partials until the final transcript: no protocol",
            "Using clipboard paste (Ctrl+Shift+V) for transcription",
        ]
    );
}

#[test]
fn transcripts_without_deltas_are_pasted() {
    let mut input = TextInput::new(true);
    let mut said = Vec::new();
    assert_eq!(
        input.type_final("Hello".to_owned(), &mut said),
        perform(Request::Capture)
    );
    assert_eq!(input.reply(Ok(()), &mut said), perform(Request::OpenClient));
    assert_eq!(input.reply(Ok(()), &mut said), paste("Hello"));
    assert_eq!(input.reply(Ok(()), &mut said), perform(Request::Restore));
    assert_eq!(
        input.reply(Err("busy".to_owned()), &mut said),
        finished(Outcome::Typed(true))
    );
    assert_eq!(
        said,
        vec![
            "Using clipboard paste (Ctrl+Shift+V) for transcription",
            OPENED,
            "Could not restore clipboard: busy",
        ]
    );
    assert!(!input.is_busy());
}

#[test]
fn failed_pastes_are_typed_instead() {
    let mut input = TextInput::new(false);
    let mut said = Vec::new();
    input.type_final("Hello".to_owned(), &mut said);
    input.reply(Ok(()), &mut said);
    assert_eq!(
        input.reply(Ok(()), &mut said),
        perform(Request::Paste {
            text: "Hello".to_owned(),
            with_shift: false
        })
    );
    assert_eq!(
        input.reply(Err("denied".to_owned()), &mut said),
        perform(Request::Restore)
    );
    assert_eq!(input.reply(Ok(()), &mut said), typing("Hello"));
    assert_eq!(
        input.reply(Ok(()), &mut said),
        finished(Outcome::Typed(true))
    );
    assert_eq!(
        said,
        vec![
            "Using clipboard paste (Ctrl+V) for transcription",
            OPENED,
            "Clipboard paste failed; using paced Wayland keyboard input: denied",
        ]
    );
    // The clipboard is not tried again.
    assert_eq!(
        input.type_final("again".to_owned(), &mut said),
        typing("again")
    );
    assert_eq!(
        input.reply(Err("gone".to_owned()), &mut said),
        finished(Outcome::Failed("gone".to_owned()))
    );
}

#[test]
fn missing_clipboard_falls_back_to_typing() {
    let mut input = TextInput::new(true);
    let mut said = Vec::new();
    input.type_final("Hello".to_owned(), &mut said);
    assert_eq!(
        input.reply(Err("no seat".to_owned()), &mut said),
        perform(Request::OpenClient)
    );
    assert_eq!(
        input.reply(Err("no protocol".to_owned()), &mut said),
        finished(Outcome::Typed(false))
    );
    assert_eq!(
        said,
        vec![
            "Clipboard unavailable; using paced Wayland keyboard input: no seat",
            "Wayland virtual keyboard unavailable; deferring partials until the final transcript: no protocol",
        ]
    );
    // The virtual keyboard is not tried again.
    assert_eq!(
        input.type_final("again".to_owned(), &mut said),
        finished(Outcome::Typed(false))
    );
}

#[test]
fn failed_deltas_are_errors() {
    let mut input = TextInput::new(true);
    let mut said = Vec::new();
    input.type_partial("a".to_owned(), &mut said);
    input.reply(Ok(()), &mut said);
    assert_eq!(
        input.reply(Err("broken pipe".to_owned()), &mut said),
        finished(Outcome::Failed("broken pipe".to_owned()))
    );
    // Nothing of the turn was typed, so the transcript is entered whole.
    assert_eq!(
        input.type_final("ab".to_owned(), &mut said),
        perform(Request::Capture)
    );
}

#[test]
fn new_turns_forget_old_deltas() {
    let mut input = TextInput::new(true);
    let mut said = Vec::new();
    input.type_partial("a".to_owned(), &mut said);
    input.reply(Ok(()), &mut said);
    input.reply(Ok(()), &mut said);
    assert_eq!(input.begin_turn(&mut said), finished(Outcome::Ready));
    assert_eq!(
        input.type_final("b".to_owned(), &mut said),
        perform(Request::Capture)
    );
}

#[test]
fn shift_is_held_unless_told_otherwise() {
    assert!(pastes_with_shift(None));
    assert!(pastes_with_shift(Some("")));
    assert!(!pastes_with_shift(Some("control_v")));
}
