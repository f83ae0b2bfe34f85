use dualsense::clipboard::{
    capture, is_protocol_target, restore_plan, Clipboard, ClipboardSnapshot, ListingError,
    MimeSource, RestorePlan,
};
use dualsense::codes::{key_event, KEY_LEFTCTRL, KEY_LEFTSHIFT, KEY_V};

fn names(names: &[&str]) -> Vec<String> {
    names.iter().map(|name| (*name).to_owned()).collect()
}

#[test]
fn paste_setting_decides_about_the_shift_key() {
    assert!(Clipboard::new(None).paste_with_shift);
    assert!(Clipboard::new(Some("shift")).paste_with_shift);
    assert!(Clipboard::new(Some("CTRL-V")).paste_with_shift);
    for plain in ["ctrl-v", "ctrl_v", "control-v", "control_v"] {
        assert!(!Clipboard::new(Some(plain)).paste_with_shift);
    }
    assert_eq!(
        Clipboard::new(None).keyboard_keys(),
        vec![KEY_LEFTCTRL, KEY_LEFTSHIFT, KEY_V]
    );
}

#[test]
fn shortcut_releases_what_it_presses() {
    assert_eq!(
        Clipboard::new(None).send_paste_shortcut(),
        vec![
            key_event(KEY_LEFTCTRL, true),
            key_event(KEY_LEFTSHIFT, true),
            key_event(KEY_V, true),
            key_event(KEY_V, false),
            key_event(KEY_LEFTSHIFT, false),
            key_event(KEY_LEFTCTRL, false),
        ]
    );
    let command = Clipboard::new(Some("ctrl-v")).paste("h\u{e9}");
    assert_eq!(command.data, "h\u{e9}".as_bytes());
    assert_eq!(
        command.shortcut,
        vec![
            key_event(KEY_LEFTCTRL, true),
            key_event(KEY_V, true),
            key_event(KEY_V, false),
            key_event(KEY_LEFTCTRL, false),
        ]
    );
}

#[test]
fn protocol_targets_are_not_read() {
    assert!(is_protocol_target("TARGETS"));
    assert!(!is_protocol_target("targets"));
    let listing = names(&[
        "text/plain",
        "TARGETS",
        "MULTIPLE",
        "image/png",
        "SAVE_TARGETS",
        "COMPOUND_TEXT",
    ]);
    let mut task = Clipboard::new(None).snapshot(Ok(listing)).unwrap();
    assert_eq!(task.wanted(), Some("text/plain"));
    task.add_source("text/plain;charset=utf-8".to_owned(), b"a".to_vec());
    assert_eq!(task.wanted(), Some("image/png"));
    task.add_source("image/png".to_owned(), Vec::new());
    assert_eq!(task.wanted(), None);
    let snapshot = task.finish();
    assert_eq!(
        snapshot.sources,
        vec![
            MimeSource {
                mime_type: "text/plain;charset=utf-8".to_owned(),
                data: b"a".to_vec()
            },
            MimeSource {
                mime_type: "image/png".to_owned(),
                data: Vec::new()
            },
        ]
    );
}

#[test]
fn captures_read_everything_that_is_offered() {
    let task = capture(Ok(names(&["TARGETS"]))).unwrap();
    assert_eq!(task.wanted(), Some("TARGETS"));
}

#[test]
fn empty_clipboards_are_no_errors() {
    for error in [
        ListingError::NoSeats,
        ListingError::ClipboardEmpty,
        ListingError::NoMimeType,
    ] {
        let task = Clipboard::new(None).snapshot(Err(error)).unwrap();
        assert_eq!(task.wanted(), None);
    }
    assert_eq!(
        capture(Err(ListingError::Other("boom".to_owned()))).unwrap_err(),
        "boom"
    );
    assert_eq!(
        Clipboard::new(None)
            .snapshot(Err(ListingError::Other("boom".to_owned())))
            .unwrap_err(),
        "boom"
    );
}

#[test]
fn empty_snapshots_clear_the_clipboard() {
    let empty = ClipboardSnapshot {
        sources: Vec::new(),
    };
    assert_eq!(restore_plan(empty), RestorePlan::Clear);
    let source = || MimeSource {
        mime_type: "text/plain".to_owned(),
        data: b"x".to_vec(),
    };
    let full = ClipboardSnapshot {
        sources: vec![source()],
    };
    assert_eq!(
        Clipboard::new(None).restore(full),
        RestorePlan::Offer(vec![source()])
    );
}
