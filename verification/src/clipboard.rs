//! Wayland clipboard-backed text input.
//!
//! A clipboard paste avoids emitting one virtual-keyboard event for every
//! character in a transcript. The paste shortcut is sent through a small
//! virtual keyboard so this works for native Wayland and XWayland applications
//! alike.

use crate::codes::{
    key_edge, key_event, InputEvent, KeyCode, KEY_LEFTCTRL, KEY_LEFTSHIFT, KEY_V,
};
use crate::text;
use crate::text_input::{asks_for_plain_paste, pastes_with_shift, texts_view};
use vstd::prelude::*;
use vstd::string::*;

verus! {

/// Clipboard contents in one format.
#[derive(Debug, PartialEq, Eq)]
pub struct MimeSource {
    pub mime_type: String,
    pub data: Vec<u8>,
}

/// Clipboard contents in one format, in mathematical terms.
#[verifier::ext_equal]
pub struct SourceView {
    pub mime_type: Seq<char>,
    pub data: Seq<u8>,
}

impl View for MimeSource {
    type V = SourceView;

    open spec fn view(&self) -> SourceView {
        SourceView { mime_type: self.mime_type@, data: self.data@ }
    }
}

/// Clipboard contents in several formats.
pub open spec fn sources_view(sources: Seq<MimeSource>) -> Seq<SourceView> {
    sources.map_values(|source: MimeSource| source@)
}

/// A saved set of clipboard MIME sources that can be restored later.
#[derive(Debug, PartialEq, Eq)]
pub struct ClipboardSnapshot {
    pub sources: Vec<MimeSource>,
}

/// Why the formats of the clipboard are not known.
#[derive(Debug, PartialEq, Eq)]
pub enum ListingError {
    NoSeats,
    ClipboardEmpty,
    NoMimeType,
    Other(String),
}

/// A snapshot that is being taken: the formats that have to be read, and what
/// has been read.
#[derive(Debug)]
pub struct SnapshotTask {
    types: Vec<String>,
    sources: Vec<MimeSource>,
}

/// A snapshot that is being taken, in mathematical terms.
#[verifier::ext_equal]
pub struct TaskView {
    pub types: Seq<Seq<char>>,
    pub sources: Seq<SourceView>,
}

impl View for SnapshotTask {
    type V = TaskView;

    closed spec fn view(&self) -> TaskView {
        TaskView { types: texts_view(self.types@), sources: sources_view(self.sources@) }
    }
}

impl TaskView {
    /// Not every format has been read.
    pub open spec fn unfinished(self) -> bool {
        self.sources.len() < self.types.len()
    }
}

/// A name that is a clipboard protocol target, not a data format. Asking its
/// owner for contents can wait forever, which would stall transcription output
/// while a clipboard manager is active.
pub open spec fn protocol_target(name: Seq<char>) -> bool {
    name == "TARGETS"@ || name == "MULTIPLE"@ || name == "SAVE_TARGETS"@ || name
        == "COMPOUND_TEXT"@
}

/// Whether a name is a clipboard protocol target.
pub fn is_protocol_target(name: &str) -> (r: bool)
    ensures
        r == protocol_target(name@),
{
    text::same_text(name, "TARGETS") || text::same_text(name, "MULTIPLE") || text::same_text(
        name,
        "SAVE_TARGETS",
    ) || text::same_text(name, "COMPOUND_TEXT")
}

/// The names that are data formats, in order.
pub open spec fn data_formats(names: Seq<Seq<char>>) -> Seq<Seq<char>>
    decreases names.len(),
{
    if names.len() == 0 {
        Seq::empty()
    } else if protocol_target(names.last()) {
        data_formats(names.drop_last())
    } else {
        data_formats(names.drop_last()).push(names.last())
    }
}

/// The formats that a listing gives: an empty clipboard has none.
pub open spec fn listed_formats(listing: Result<Vec<String>, ListingError>) -> Result<
    Seq<Seq<char>>,
    Seq<char>,
> {
    match listing {
        Ok(names) => Ok(texts_view(names@)),
        Err(ListingError::Other(error)) => Err(error@),
        Err(_) => Ok(Seq::empty()),
    }
}

/// Begins a snapshot of everything that the clipboard offers.
pub fn capture(listing: Result<Vec<String>, ListingError>) -> (task: Result<SnapshotTask, String>)
    ensures
        match (task, listed_formats(listing)) {
            (Ok(task), Ok(names)) => task@ == (TaskView { types: names, sources: Seq::empty() }),
            (Err(error), Err(expected)) => error@ == expected,
            _ => false,
        },
{
    let types = match listing {
        Ok(types) => types,
        Err(ListingError::Other(error)) => {
            return Err(error);
        },
        Err(_) => Vec::new(),
    };
    let task = SnapshotTask { types, sources: Vec::new() };
    proof {
        if listing is Err {
            assert(task@.types =~= Seq::<Seq<char>>::empty());
        }
        assert(task@.sources =~= Seq::<SourceView>::empty());
    }
    Ok(task)
}

impl SnapshotTask {
    /// The format that has to be read next.
    pub fn wanted(&self) -> (name: Option<&str>)
        ensures
            match name {
                Some(name) => self@.unfinished() && name@ == self@.types[self@.sources.len() as int],
                None => !self@.unfinished(),
            },
    {
        if self.sources.len() < self.types.len() {
            Some(self.types[self.sources.len()].as_str())
        } else {
            None
        }
    }

    /// Takes the contents of the format that was read, under the name that the
    /// clipboard's owner gave them.
    pub fn add_source(&mut self, mime_type: String, data: Vec<u8>)
        requires
            old(self)@.unfinished(),
        ensures
            final(self)@ == (TaskView {
                sources: old(self)@.sources.push(
                    SourceView { mime_type: mime_type@, data: data@ },
                ),
                ..old(self)@
            }),
    {
        let source = MimeSource { mime_type, data };
        self.sources.push(source);
        assert(self@.sources =~= old(self)@.sources.push(source@));
    }

    /// The snapshot, when every format has been read.
    pub fn finish(self) -> (snapshot: ClipboardSnapshot)
        requires
            !self@.unfinished(),
        ensures
            sources_view(snapshot.sources@) == self@.sources,
    {
        ClipboardSnapshot { sources: self.sources }
    }
}

/// How a snapshot is put back.
#[derive(Debug, PartialEq, Eq)]
pub enum RestorePlan {
    /// There was nothing on the clipboard.
    Clear,
    Offer(Vec<MimeSource>),
}

/// How a snapshot is put back.
pub fn restore_plan(snapshot: ClipboardSnapshot) -> (plan: RestorePlan)
    ensures
        match plan {
            RestorePlan::Clear => snapshot.sources@.len() == 0,
            RestorePlan::Offer(sources) => sources == snapshot.sources && sources@.len() > 0,
        },
{
    if snapshot.sources.len() == 0 {
        RestorePlan::Clear
    } else {
        RestorePlan::Offer(snapshot.sources)
    }
}

/// What pasting a text takes.
#[derive(Debug, PartialEq, Eq)]
pub struct PasteCommand {
    /// The bytes to put on the clipboard.
    pub data: Vec<u8>,
    /// The events of the paste shortcut.
    pub shortcut: Vec<InputEvent>,
}

/// The events of the paste shortcut: the modifiers go down, V is pressed, and the
/// modifiers come up in the opposite order.
pub open spec fn shortcut_events(with_shift: bool) -> Seq<InputEvent> {
    if with_shift {
        seq![
            key_edge(KEY_LEFTCTRL, true),
            key_edge(KEY_LEFTSHIFT, true),
            key_edge(KEY_V, true),
            key_edge(KEY_V, false),
            key_edge(KEY_LEFTSHIFT, false),
            key_edge(KEY_LEFTCTRL, false),
        ]
    } else {
        seq![
            key_edge(KEY_LEFTCTRL, true),
            key_edge(KEY_V, true),
            key_edge(KEY_V, false),
            key_edge(KEY_LEFTCTRL, false),
        ]
    }
}

/// Provides clipboard snapshot, restore, and paste operations.
#[derive(Debug, Clone, Copy, PartialEq, Eq, Structural)]
pub struct Clipboard {
    pub paste_with_shift: bool,
}

impl Clipboard {
    /// Create a clipboard text-input device. `setting` is the value of
    /// `DUALSENSE_VOICE_PASTE`.
    pub fn new(setting: Option<&str>) -> (clipboard: Clipboard)
        ensures
            clipboard.paste_with_shift == !asks_for_plain_paste(
                match setting {
                    Some(setting) => Some(setting@),
                    None => None,
                },
            ),
    {
        Clipboard { paste_with_shift: pastes_with_shift(setting) }
    }

    /// The keys that the device advertises.
    pub fn keyboard_keys(&self) -> (keys: Vec<KeyCode>)
        ensures
            keys@ == seq![KEY_LEFTCTRL, KEY_LEFTSHIFT, KEY_V],
    {
        let mut keys: Vec<KeyCode> = Vec::new();
        keys.push(KEY_LEFTCTRL);
        keys.push(KEY_LEFTSHIFT);
        keys.push(KEY_V);
        assert(keys@ =~= seq![KEY_LEFTCTRL, KEY_LEFTSHIFT, KEY_V]);
        keys
    }

    /// Begins to capture all currently advertised regular-clipboard MIME sources.
    pub fn snapshot(&self, listing: Result<Vec<String>, ListingError>) -> (task: Result<
        SnapshotTask,
        String,
    >)
        ensures
            match (task, listed_formats(listing)) {
                (Ok(task), Ok(names)) => task@ == (TaskView {
                    types: data_formats(names),
                    sources: Seq::empty(),
                }),
                (Err(error), Err(expected)) => error@ == expected,
                _ => false,
            },
    {
        let all = match capture(listing) {
            Ok(task) => task.types,
            Err(error) => {
                return Err(error);
            },
        };
        let mut types: Vec<String> = Vec::new();
        let mut i: usize = 0;
        let ghost names = texts_view(all@);
        assert(names.take(0) =~= Seq::<Seq<char>>::empty());
        assert(texts_view(types@) =~= Seq::<Seq<char>>::empty());
        while i < all.len()
            invariant
                i <= all.len(),
                names == texts_view(all@),
                texts_view(types@) == data_formats(names.take(i as int)),
            decreases all.len() - i,
        {
            assert(names.take(i + 1).drop_last() =~= names.take(i as int));
            assert(names.take(i + 1).last() == all@[i as int]@);
            if !is_protocol_target(all[i].as_str()) {
                let ghost before = types@;
                types.push(all[i].clone());
                assert(texts_view(types@) =~= texts_view(before).push(all@[i as int]@));
            }
            i = i + 1;
        }
        assert(names.take(i as int) =~= names);
        let task = SnapshotTask { types, sources: Vec::new() };
        assert(task@.sources =~= Seq::<SourceView>::empty());
        Ok(task)
    }

    /// How a snapshot captured by [`Self::snapshot`] is restored.
    pub fn restore(&self, snapshot: ClipboardSnapshot) -> (plan: RestorePlan)
        ensures
            match plan {
                RestorePlan::Clear => snapshot.sources@.len() == 0,
                RestorePlan::Offer(sources) => sources == snapshot.sources && sources@.len() > 0,
            },
    {
        restore_plan(snapshot)
    }

    /// What puts `text` on the clipboard and sends the configured paste shortcut.
    pub fn paste(&self, text: &str) -> (command: PasteCommand)
        ensures
            command.data@ == vstd::utf8::encode_utf8(text@),
            command.shortcut@ == shortcut_events(self.paste_with_shift),
    {
        let mut data: Vec<u8> = Vec::new();
        data.extend_from_slice(text.as_bytes());
        assert(data@ =~= vstd::utf8::encode_utf8(text@));
        PasteCommand { data, shortcut: self.send_paste_shortcut() }
    }

    /// The events of the configured paste shortcut.
    pub fn send_paste_shortcut(&self) -> (events: Vec<InputEvent>)
        ensures
            events@ == shortcut_events(self.paste_with_shift),
    {
        let mut events: Vec<InputEvent> = Vec::new();
        events.push(key_event(KEY_LEFTCTRL, true));
        if self.paste_with_shift {
            events.push(key_event(KEY_LEFTSHIFT, true));
        }
        events.push(key_event(KEY_V, true));
        events.push(key_event(KEY_V, false));
        if self.paste_with_shift {
            events.push(key_event(KEY_LEFTSHIFT, false));
        }
        events.push(key_event(KEY_LEFTCTRL, false));
        assert(events@ =~= shortcut_events(self.paste_with_shift));
        events
    }
}

/// The paste shortcut releases what it presses, the last key first.
pub proof fn law_shortcut_releases_what_it_presses(with_shift: bool, i: int)
    requires
        0 <= i < shortcut_events(with_shift).len() / 2,
    ensures
        ({
            let events = shortcut_events(with_shift);
            &&& events.len() % 2 == 0
            &&& events[i] == key_edge(events[i].code, true)
            &&& events[events.len() - 1 - i] == key_edge(events[i].code, false)
        }),
{
}

} // verus!
