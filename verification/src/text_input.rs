//! Delivery of transcripts to the focused application.
//!
//! Realtime deltas go through the compositor's virtual keyboard, in order. A
//! transcript whose deltas could not be typed is entered once at the end of its
//! turn: pasted from the clipboard, or typed where pasting is not possible.
//!
//! [`TextInput`] decides what has to be done next. Whoever drives it performs
//! one [`Request`] at a time and hands the reply back.

use crate::text;
use vstd::prelude::*;
use vstd::string::*;

verus! {

/// Something that has to be done outside.
#[derive(Debug, PartialEq, Eq)]
pub enum Request {
    /// Connect to the compositor's virtual keyboard.
    OpenClient,
    /// Type a text through the virtual keyboard.
    Type(String),
    /// Save what is on the clipboard.
    Capture,
    /// Put a text on the clipboard and send the paste shortcut.
    Paste { text: String, with_shift: bool },
    /// Put back what was saved.
    Restore,
}

/// A request, in mathematical terms.
pub enum RequestView {
    OpenClient,
    Type(Seq<char>),
    Capture,
    Paste { text: Seq<char>, with_shift: bool },
    Restore,
}

impl View for Request {
    type V = RequestView;

    open spec fn view(&self) -> RequestView {
        match self {
            Request::OpenClient => RequestView::OpenClient,
            Request::Type(text) => RequestView::Type(text@),
            Request::Capture => RequestView::Capture,
            Request::Paste { text, with_shift } => RequestView::Paste {
                text: text@,
                with_shift: *with_shift,
            },
            Request::Restore => RequestView::Restore,
        }
    }
}

/// How an operation ended.
#[derive(Debug, PartialEq, Eq)]
pub enum Outcome {
    /// A new turn can be typed.
    Ready,
    /// The text is taken care of, or it still has to be typed by other means.
    Typed(bool),
    /// The virtual keyboard failed.
    Failed(String),
}

/// An outcome, in mathematical terms.
pub enum OutcomeView {
    Ready,
    Typed(bool),
    Failed(Seq<char>),
}

impl View for Outcome {
    type V = OutcomeView;

    open spec fn view(&self) -> OutcomeView {
        match self {
            Outcome::Ready => OutcomeView::Ready,
            Outcome::Typed(typed) => OutcomeView::Typed(*typed),
            Outcome::Failed(error) => OutcomeView::Failed(error@),
        }
    }
}

/// What comes next in an operation.
#[derive(Debug, PartialEq, Eq)]
pub enum Next {
    Perform(Request),
    Finished(Outcome),
}

/// What comes next, in mathematical terms.
pub enum NextView {
    Perform(RequestView),
    Finished(OutcomeView),
}

impl View for Next {
    type V = NextView;

    open spec fn view(&self) -> NextView {
        match self {
            Next::Perform(request) => NextView::Perform(request@),
            Next::Finished(outcome) => NextView::Finished(outcome@),
        }
    }
}

/// What waits for the clipboard to be restored.
#[derive(Debug, PartialEq, Eq)]
pub enum AfterRestore {
    /// A new turn.
    BeginTurn,
    /// The end of a turn whose text is entered.
    EndTurn,
    /// The text itself, because it could not be pasted.
    Type { text: String, paste_error: Option<String> },
}

/// What waits for the clipboard, in mathematical terms.
pub enum AfterRestoreView {
    BeginTurn,
    EndTurn,
    Type { text: Seq<char>, paste_error: Option<Seq<char>> },
}

impl View for AfterRestore {
    type V = AfterRestoreView;

    open spec fn view(&self) -> AfterRestoreView {
        match self {
            AfterRestore::BeginTurn => AfterRestoreView::BeginTurn,
            AfterRestore::EndTurn => AfterRestoreView::EndTurn,
            AfterRestore::Type { text, paste_error } => AfterRestoreView::Type {
                text: text@,
                paste_error: match paste_error {
                    Some(error) => Some(error@),
                    None => None,
                },
            },
        }
    }
}

/// The request that an operation waits for.
#[derive(Debug, PartialEq, Eq)]
pub enum Waiting {
    Nothing,
    OpeningToType { text: String, partial: bool },
    Typing { partial: bool },
    Capturing { text: String },
    OpeningToPaste { text: String },
    Pasting { text: String },
    Restoring(AfterRestore),
}

/// What is waited for, in mathematical terms.
pub enum WaitingView {
    Nothing,
    OpeningToType { text: Seq<char>, partial: bool },
    Typing { partial: bool },
    Capturing { text: Seq<char> },
    OpeningToPaste { text: Seq<char> },
    Pasting { text: Seq<char> },
    Restoring(AfterRestoreView),
}

impl View for Waiting {
    type V = WaitingView;

    open spec fn view(&self) -> WaitingView {
        match self {
            Waiting::Nothing => WaitingView::Nothing,
            Waiting::OpeningToType { text, partial } => WaitingView::OpeningToType {
                text: text@,
                partial: *partial,
            },
            Waiting::Typing { partial } => WaitingView::Typing { partial: *partial },
            Waiting::Capturing { text } => WaitingView::Capturing { text: text@ },
            Waiting::OpeningToPaste { text } => WaitingView::OpeningToPaste { text: text@ },
            Waiting::Pasting { text } => WaitingView::Pasting { text: text@ },
            Waiting::Restoring(after) => WaitingView::Restoring(after@),
        }
    }
}

/// Types transcripts.
#[derive(Debug)]
pub struct TextInput {
    client: bool,
    attempted: bool,
    partial_seen: bool,
    partial_typed: bool,
    clipboard: bool,
    clipboard_disabled: bool,
    paste_with_shift: bool,
    waiting: Waiting,
}

/// What a text input knows.
pub struct TextInputView {
    /// There is a connection to the virtual keyboard.
    pub client: bool,
    /// Connecting to the virtual keyboard has been tried.
    pub attempted: bool,
    /// The turn has had a delta.
    pub partial_seen: bool,
    /// A delta of the turn has been typed.
    pub partial_typed: bool,
    /// The clipboard is saved and has to be restored.
    pub clipboard: bool,
    /// The clipboard is not used any more.
    pub clipboard_disabled: bool,
    pub paste_with_shift: bool,
    pub waiting: WaitingView,
}

impl View for TextInput {
    type V = TextInputView;

    closed spec fn view(&self) -> TextInputView {
        TextInputView {
            client: self.client,
            attempted: self.attempted,
            partial_seen: self.partial_seen,
            partial_typed: self.partial_typed,
            clipboard: self.clipboard,
            clipboard_disabled: self.clipboard_disabled,
            paste_with_shift: self.paste_with_shift,
            waiting: self.waiting@,
        }
    }
}

/// A list of texts.
pub open spec fn texts_view(texts: Seq<String>) -> Seq<Seq<char>> {
    texts.map_values(|text: String| text@)
}

/// The value of `DUALSENSE_VOICE_PASTE` asks for pasting without the shift key.
pub open spec fn asks_for_plain_paste(setting: Option<Seq<char>>) -> bool {
    match setting {
        Some(setting) => setting == "ctrl-v"@ || setting == "ctrl_v"@ || setting == "control-v"@
            || setting == "control_v"@,
        None => false,
    }
}

/// Whether the paste shortcut holds the shift key: unless the value of
/// `DUALSENSE_VOICE_PASTE` says otherwise.
pub fn pastes_with_shift(setting: Option<&str>) -> (with_shift: bool)
    ensures
        with_shift == !asks_for_plain_paste(
            match setting {
                Some(setting) => Some(setting@),
                None => None,
            },
        ),
{
    match setting {
        Some(setting) => !(text::same_text(setting, "ctrl-v") || text::same_text(setting, "ctrl_v")
            || text::same_text(setting, "control-v") || text::same_text(setting, "control_v")),
        None => true,
    }
}

/// A step of an operation: the state behind it, what is told to the user and
/// what comes next.
pub struct Step {
    pub state: TextInputView,
    pub statuses: Seq<Seq<char>>,
    pub next: NextView,
}

impl Step {
    /// The step with a message in front of the others.
    pub open spec fn after_saying(self, status: Seq<char>) -> Step {
        Step { statuses: seq![status] + self.statuses, ..self }
    }
}

/// What is said when the virtual keyboard is there.
pub open spec fn client_opened() -> Seq<char> {
    "Using Wayland virtual keyboard for transcription"@
}

/// What is said when the virtual keyboard is not there.
pub open spec fn client_missing(error: Seq<char>) -> Seq<char> {
    "Wayland virtual keyboard unavailable; deferring partials until the final transcript: "@ + error
}

/// What is said when the clipboard cannot be restored.
pub open spec fn restore_failed(error: Seq<char>) -> Seq<char> {
    "Could not restore clipboard: "@ + error
}

/// What is said when the clipboard can be used.
pub open spec fn clipboard_ready(with_shift: bool) -> Seq<char> {
    "Using clipboard paste ("@ + (if with_shift {
        "Ctrl+Shift+V"@
    } else {
        "Ctrl+V"@
    }) + ") for transcription"@
}

/// What is said when the clipboard cannot be used.
pub open spec fn clipboard_missing(error: Seq<char>) -> Seq<char> {
    "Clipboard unavailable; using paced Wayland keyboard input: "@ + error
}

/// What is said when pasting does not work.
pub open spec fn paste_failed(error: Seq<char>) -> Seq<char> {
    "Clipboard paste failed; using paced Wayland keyboard input: "@ + error
}

impl TextInputView {
    /// A text input that has done nothing yet.
    pub open spec fn fresh(paste_with_shift: bool) -> TextInputView {
        TextInputView {
            client: false,
            attempted: false,
            partial_seen: false,
            partial_typed: false,
            clipboard: false,
            clipboard_disabled: false,
            paste_with_shift,
            waiting: WaitingView::Nothing,
        }
    }

    /// A request is being performed.
    pub open spec fn busy(self) -> bool {
        self.waiting !is Nothing
    }

    /// The operation goes on with a request.
    pub open spec fn requesting(self, request: RequestView, waiting: WaitingView) -> Step {
        Step {
            state: TextInputView { waiting, ..self },
            statuses: Seq::empty(),
            next: NextView::Perform(request),
        }
    }

    /// The operation is over.
    pub open spec fn finished(self, outcome: OutcomeView) -> Step {
        Step {
            state: TextInputView { waiting: WaitingView::Nothing, ..self },
            statuses: Seq::empty(),
            next: NextView::Finished(outcome),
        }
    }

    /// The text is entered: the turn is over when the clipboard is restored.
    pub open spec fn turn_ended(self) -> Step {
        if self.clipboard {
            TextInputView { clipboard: false, ..self }.requesting(
                RequestView::Restore,
                WaitingView::Restoring(AfterRestoreView::EndTurn),
            )
        } else {
            self.finished(OutcomeView::Typed(true))
        }
    }

    /// The clipboard is restored if it has to be, then the rest follows.
    pub open spec fn restoring(self, after: AfterRestoreView) -> Step {
        if self.clipboard {
            TextInputView { clipboard: false, ..self }.requesting(
                RequestView::Restore,
                WaitingView::Restoring(after),
            )
        } else {
            self.restored(after)
        }
    }

    /// What follows when the clipboard is restored.
    pub open spec fn restored(self, after: AfterRestoreView) -> Step {
        match after {
            AfterRestoreView::BeginTurn => TextInputView {
                partial_seen: false,
                partial_typed: false,
                ..self
            }.finished(OutcomeView::Ready),
            AfterRestoreView::EndTurn => self.finished(OutcomeView::Typed(true)),
            AfterRestoreView::Type { text, paste_error } => {
                let step = self.typing(text, false);
                match paste_error {
                    Some(error) => step.after_saying(paste_failed(error)),
                    None => step,
                }
            },
        }
    }

    /// A text is typed through the virtual keyboard, which is connected to at
    /// most once.
    pub open spec fn typing(self, text: Seq<char>, partial: bool) -> Step {
        if self.client {
            self.requesting(RequestView::Type(text), WaitingView::Typing { partial })
        } else if self.attempted {
            self.typed(false, partial)
        } else {
            TextInputView { attempted: true, ..self }.requesting(
                RequestView::OpenClient,
                WaitingView::OpeningToType { text, partial },
            )
        }
    }

    /// A text has been typed, or there is no virtual keyboard. A delta that was
    /// not typed is deferred to the end of the turn.
    pub open spec fn typed(self, typed: bool, partial: bool) -> Step {
        if partial {
            TextInputView { partial_typed: self.partial_typed || typed, ..self }.finished(
                OutcomeView::Typed(true),
            )
        } else if typed {
            self.turn_ended()
        } else {
            self.finished(OutcomeView::Typed(false))
        }
    }

    /// A whole transcript is entered, by the clipboard if that can be used.
    pub open spec fn entering(self, text: Seq<char>) -> Step {
        if !self.clipboard_disabled && !self.clipboard {
            self.requesting(RequestView::Capture, WaitingView::Capturing { text })
        } else {
            self.pasting(text)
        }
    }

    /// A whole transcript is pasted if the clipboard is saved, and typed
    /// otherwise.
    pub open spec fn pasting(self, text: Seq<char>) -> Step {
        if !self.clipboard {
            self.typing(text, false)
        } else if self.client {
            self.requesting(
                RequestView::Paste { text, with_shift: self.paste_with_shift },
                WaitingView::Pasting { text },
            )
        } else if self.attempted {
            self.giving_up_pasting(text, None)
        } else {
            TextInputView { attempted: true, ..self }.requesting(
                RequestView::OpenClient,
                WaitingView::OpeningToPaste { text },
            )
        }
    }

    /// The clipboard is not used any more, and the text is typed instead.
    pub open spec fn giving_up_pasting(self, text: Seq<char>, paste_error: Option<Seq<char>>) -> Step {
        TextInputView { clipboard_disabled: true, ..self }.restoring(
            AfterRestoreView::Type { text, paste_error },
        )
    }

    /// A turn begins.
    pub open spec fn turn_begun(self) -> Step {
        self.restoring(AfterRestoreView::BeginTurn)
    }

    /// A delta arrives.
    pub open spec fn partial(self, text: Seq<char>) -> Step {
        TextInputView { partial_seen: true, ..self }.typing(text, true)
    }

    /// A completed transcript arrives. If a delta of it has been typed it is only
    /// an acknowledgement.
    pub open spec fn completed(self, text: Seq<char>) -> Step {
        let next = TextInputView { partial_seen: false, partial_typed: false, ..self };
        if self.partial_seen && self.partial_typed {
            next.turn_ended()
        } else if self.partial_seen {
            next.entering(text)
        } else {
            self.entering(text)
        }
    }

    /// The virtual keyboard has been connected to, for a text to type.
    #[verifier::opaque]
    pub open spec fn opened_to_type(
        self,
        text: Seq<char>,
        partial: bool,
        reply: Result<(), Seq<char>>,
    ) -> Step {
        match reply {
            Ok(()) => TextInputView { client: true, ..self }.requesting(
                RequestView::Type(text),
                WaitingView::Typing { partial },
            ).after_saying(client_opened()),
            Err(error) => self.typed(false, partial).after_saying(client_missing(error)),
        }
    }

    /// The clipboard has been saved, for a text to paste.
    #[verifier::opaque]
    pub open spec fn captured(self, text: Seq<char>, reply: Result<(), Seq<char>>) -> Step {
        match reply {
            Ok(()) => TextInputView { clipboard: true, ..self }.pasting(text).after_saying(
                clipboard_ready(self.paste_with_shift),
            ),
            Err(error) => TextInputView { clipboard_disabled: true, ..self }.pasting(
                text,
            ).after_saying(clipboard_missing(error)),
        }
    }

    /// The virtual keyboard has been connected to, for a text to paste.
    #[verifier::opaque]
    pub open spec fn opened_to_paste(self, text: Seq<char>, reply: Result<(), Seq<char>>) -> Step {
        match reply {
            Ok(()) => TextInputView { client: true, ..self }.pasting(text).after_saying(
                client_opened(),
            ),
            Err(error) => self.giving_up_pasting(text, None).after_saying(client_missing(error)),
        }
    }

    /// A request has been performed.
    pub open spec fn replied(self, reply: Result<(), Seq<char>>) -> Step {
        let idle = TextInputView { waiting: WaitingView::Nothing, ..self };
        match self.waiting {
            WaitingView::Nothing => idle.finished(OutcomeView::Ready),
            WaitingView::OpeningToType { text, partial } => idle.opened_to_type(
                text,
                partial,
                reply,
            ),
            WaitingView::Typing { partial } => match reply {
                Ok(()) => idle.typed(true, partial),
                Err(error) => idle.finished(OutcomeView::Failed(error)),
            },
            WaitingView::Capturing { text } => idle.captured(text, reply),
            WaitingView::OpeningToPaste { text } => idle.opened_to_paste(text, reply),
            WaitingView::Pasting { text } => match reply {
                Ok(()) => idle.turn_ended(),
                Err(error) => idle.giving_up_pasting(text, Some(error)),
            },
            WaitingView::Restoring(after) => match reply {
                Ok(()) => idle.restored(after),
                Err(error) => idle.restored(after).after_saying(restore_failed(error)),
            },
        }
    }
}

/// A reply, in mathematical terms.
pub open spec fn reply_view(reply: Result<(), String>) -> Result<(), Seq<char>> {
    match reply {
        Ok(()) => Ok(()),
        Err(error) => Err(error@),
    }
}

/// A message is added to those that there are.
proof fn lemma_said(before: Seq<Seq<char>>, status: Seq<char>, rest: Seq<Seq<char>>)
    ensures
        before.push(status) + rest == before + (seq![status] + rest),
{
    assert(before.push(status) + rest =~= before + (seq![status] + rest));
}

fn say(statuses: &mut Vec<String>, status: String)
    ensures
        texts_view(final(statuses)@) == texts_view(old(statuses)@).push(status@),
{
    statuses.push(status);
    assert(texts_view(statuses@) =~= texts_view(old(statuses)@).push(status@));
}

impl TextInput {
    /// A text input that pastes with or without the shift key.
    pub fn new(paste_with_shift: bool) -> (input: TextInput)
        ensures
            input@ == TextInputView::fresh(paste_with_shift),
    {
        TextInput {
            client: false,
            attempted: false,
            partial_seen: false,
            partial_typed: false,
            clipboard: false,
            clipboard_disabled: false,
            paste_with_shift,
            waiting: Waiting::Nothing,
        }
    }

    /// Whether a request is being performed.
    pub fn is_busy(&self) -> (busy: bool)
        ensures
            busy == self@.busy(),
    {
        match self.waiting {
            Waiting::Nothing => false,
            _ => true,
        }
    }

    fn finish(&mut self, outcome: Outcome) -> (next: Next)
        ensures
            final(self)@ == old(self)@.finished(outcome@).state,
            next@ == old(self)@.finished(outcome@).next,
    {
        self.waiting = Waiting::Nothing;
        Next::Finished(outcome)
    }

    fn end_turn(&mut self) -> (next: Next)
        ensures
            final(self)@ == old(self)@.turn_ended().state,
            next@ == old(self)@.turn_ended().next,
    {
        if self.clipboard {
            self.clipboard = false;
            self.waiting = Waiting::Restoring(AfterRestore::EndTurn);
            return Next::Perform(Request::Restore);
        }
        self.finish(Outcome::Typed(true))
    }

    fn restore_clipboard(&mut self, after: AfterRestore, statuses: &mut Vec<String>) -> (next: Next)
        ensures
            final(self)@ == old(self)@.restoring(after@).state,
            next@ == old(self)@.restoring(after@).next,
            texts_view(final(statuses)@) == texts_view(old(statuses)@) + old(self)@.restoring(
                after@,
            ).statuses,
    {
        if self.clipboard {
            self.clipboard = false;
            self.waiting = Waiting::Restoring(after);
            assert(texts_view(statuses@) =~= texts_view(old(statuses)@) + Seq::<Seq<char>>::empty());
            return Next::Perform(Request::Restore);
        }
        self.follow_restore(after, statuses)
    }

    fn follow_restore(&mut self, after: AfterRestore, statuses: &mut Vec<String>) -> (next: Next)
        ensures
            final(self)@ == old(self)@.restored(after@).state,
            next@ == old(self)@.restored(after@).next,
            texts_view(final(statuses)@) == texts_view(old(statuses)@) + old(self)@.restored(
                after@,
            ).statuses,
    {
        assert(texts_view(statuses@) =~= texts_view(statuses@) + Seq::<Seq<char>>::empty());
        match after {
            AfterRestore::BeginTurn => {
                self.partial_seen = false;
                self.partial_typed = false;
                self.finish(Outcome::Ready)
            },
            AfterRestore::EndTurn => self.finish(Outcome::Typed(true)),
            AfterRestore::Type { text, paste_error } => {
                if let Some(error) = paste_error {
                    let ghost rest = self@.typing(text@, false).statuses;
                    proof {
                        lemma_said(texts_view(statuses@), paste_failed(error@), rest);
                    }
                    say(
                        statuses,
                        text::joined(
                            "Clipboard paste failed; using paced Wayland keyboard input: ",
                            error.as_str(),
                        ),
                    );
                }
                self.type_wayland(text, false, statuses)
            },
        }
    }

    fn type_wayland(&mut self, text: String, partial: bool, statuses: &mut Vec<String>) -> (next: Next)
        ensures
            final(self)@ == old(self)@.typing(text@, partial).state,
            next@ == old(self)@.typing(text@, partial).next,
            texts_view(final(statuses)@) == texts_view(old(statuses)@) + old(self)@.typing(
                text@,
                partial,
            ).statuses,
    {
        assert(texts_view(statuses@) =~= texts_view(statuses@) + Seq::<Seq<char>>::empty());
        if self.client {
            self.waiting = Waiting::Typing { partial };
            return Next::Perform(Request::Type(text));
        }
        if self.attempted {
            return self.finish_typing(false, partial, statuses);
        }
        self.attempted = true;
        self.waiting = Waiting::OpeningToType { text, partial };
        Next::Perform(Request::OpenClient)
    }

    fn finish_typing(&mut self, typed: bool, partial: bool, statuses: &mut Vec<String>) -> (next: Next)
        ensures
            final(self)@ == old(self)@.typed(typed, partial).state,
            next@ == old(self)@.typed(typed, partial).next,
            texts_view(final(statuses)@) == texts_view(old(statuses)@) + old(self)@.typed(
                typed,
                partial,
            ).statuses,
    {
        assert(texts_view(statuses@) =~= texts_view(statuses@) + Seq::<Seq<char>>::empty());
        if partial {
            // Do not fall back to one clipboard paste per delta. The final,
            // authoritative transcript is entered once instead.
            self.partial_typed = self.partial_typed || typed;
            return self.finish(Outcome::Typed(true));
        }
        if !typed {
            return self.finish(Outcome::Typed(false));
        }
        self.end_turn()
    }

    fn give_up_pasting(&mut self, text: String, paste_error: Option<String>, statuses: &mut Vec<
        String,
    >) -> (next: Next)
        ensures
            ({
                let step = old(self)@.giving_up_pasting(
                    text@,
                    match paste_error {
                        Some(error) => Some(error@),
                        None => None,
                    },
                );
                &&& final(self)@ == step.state
                &&& next@ == step.next
                &&& texts_view(final(statuses)@) == texts_view(old(statuses)@) + step.statuses
            }),
    {
        self.clipboard_disabled = true;
        self.restore_clipboard(AfterRestore::Type { text, paste_error }, statuses)
    }

    fn paste_text(&mut self, text: String, statuses: &mut Vec<String>) -> (next: Next)
        ensures
            final(self)@ == old(self)@.pasting(text@).state,
            next@ == old(self)@.pasting(text@).next,
            texts_view(final(statuses)@) == texts_view(old(statuses)@) + old(self)@.pasting(
                text@,
            ).statuses,
    {
        assert(texts_view(statuses@) =~= texts_view(statuses@) + Seq::<Seq<char>>::empty());
        if !self.clipboard {
            return self.type_wayland(text, false, statuses);
        }
        if self.client {
            self.waiting = Waiting::Pasting { text: text.clone() };
            return Next::Perform(Request::Paste { text, with_shift: self.paste_with_shift });
        }
        if self.attempted {
            return self.give_up_pasting(text, None, statuses);
        }
        self.attempted = true;
        self.waiting = Waiting::OpeningToPaste { text };
        Next::Perform(Request::OpenClient)
    }

    fn type_text(&mut self, text: String, statuses: &mut Vec<String>) -> (next: Next)
        ensures
            final(self)@ == old(self)@.entering(text@).state,
            next@ == old(self)@.entering(text@).next,
            texts_view(final(statuses)@) == texts_view(old(statuses)@) + old(self)@.entering(
                text@,
            ).statuses,
    {
        assert(texts_view(statuses@) =~= texts_view(statuses@) + Seq::<Seq<char>>::empty());
        if !self.clipboard_disabled && !self.clipboard {
            self.waiting = Waiting::Capturing { text };
            return Next::Perform(Request::Capture);
        }
        self.paste_text(text, statuses)
    }

    /// Begins a turn.
    pub fn begin_turn(&mut self, statuses: &mut Vec<String>) -> (next: Next)
        requires
            !old(self)@.busy(),
        ensures
            final(self)@ == old(self)@.turn_begun().state,
            next@ == old(self)@.turn_begun().next,
            texts_view(final(statuses)@) == texts_view(old(statuses)@)
                + old(self)@.turn_begun().statuses,
    {
        self.restore_clipboard(AfterRestore::BeginTurn, statuses)
    }

    /// Deliver a transcript delta through the ordered virtual keyboard.
    ///
    /// If that protocol is unavailable, the delta is deferred and the final
    /// transcript is entered once through the fallback path. The clipboard is
    /// never replaced for a delta: its ownership and the target application's
    /// paste request are asynchronous, and the next delta may come first.
    pub fn type_partial(&mut self, text: String, statuses: &mut Vec<String>) -> (next: Next)
        requires
            !old(self)@.busy(),
        ensures
            final(self)@ == old(self)@.partial(text@).state,
            next@ == old(self)@.partial(text@).next,
            texts_view(final(statuses)@) == texts_view(old(statuses)@) + old(self)@.partial(
                text@,
            ).statuses,
    {
        self.partial_seen = true;
        self.type_wayland(text, true, statuses)
    }

    /// Complete a transcript turn without duplicating streamed deltas.
    ///
    /// When virtual-keyboard delivery was unavailable, partials were deferred and
    /// this final transcript is delivered once through the normal fallback path.
    /// When partials were typed, the final transcript is only an
    /// acknowledgement and must not be entered again.
    pub fn type_final(&mut self, text: String, statuses: &mut Vec<String>) -> (next: Next)
        requires
            !old(self)@.busy(),
        ensures
            final(self)@ == old(self)@.completed(text@).state,
            next@ == old(self)@.completed(text@).next,
            texts_view(final(statuses)@) == texts_view(old(statuses)@) + old(self)@.completed(
                text@,
            ).statuses,
    {
        assert(texts_view(statuses@) =~= texts_view(statuses@) + Seq::<Seq<char>>::empty());
        if self.partial_seen {
            let partial_typed = self.partial_typed;
            self.partial_seen = false;
            self.partial_typed = false;
            if partial_typed {
                return self.end_turn();
            }
        }
        self.type_text(text, statuses)
    }

    /// Takes the reply to the request that is being performed.
    #[verifier::rlimit(30)]
    pub fn reply(&mut self, reply: Result<(), String>, statuses: &mut Vec<String>) -> (next: Next)
        requires
            old(self)@.busy(),
        ensures
            final(self)@ == old(self)@.replied(reply_view(reply)).state,
            next@ == old(self)@.replied(reply_view(reply)).next,
            texts_view(final(statuses)@) == texts_view(old(statuses)@) + old(self)@.replied(
                reply_view(reply),
            ).statuses,
    {
        let ghost before = texts_view(statuses@);
        let ghost step = self@.replied(reply_view(reply));
        let ghost idle = TextInputView { waiting: WaitingView::Nothing, ..self@ };
        assert(before =~= before + Seq::<Seq<char>>::empty());
        let mut waiting = Waiting::Nothing;
        std::mem::swap(&mut waiting, &mut self.waiting);
        assert(self@ == idle);
        match waiting {
            Waiting::Nothing => self.finish(Outcome::Ready),
            Waiting::OpeningToType { text, partial } => self.opened_to_type(
                text,
                partial,
                reply,
                statuses,
            ),
            Waiting::Typing { partial } => match reply {
                Ok(()) => self.finish_typing(true, partial, statuses),
                Err(error) => self.finish(Outcome::Failed(error)),
            },
            Waiting::Capturing { text } => self.captured(text, reply, statuses),
            Waiting::OpeningToPaste { text } => self.opened_to_paste(text, reply, statuses),
            Waiting::Pasting { text } => match reply {
                Ok(()) => self.end_turn(),
                Err(error) => self.give_up_pasting(text, Some(error), statuses),
            },
            Waiting::Restoring(after) => {
                if let Err(error) = reply {
                    proof {
                        lemma_said(before, restore_failed(error@), idle.restored(after@).statuses);
                    }
                    say(statuses, text::joined("Could not restore clipboard: ", error.as_str()));
                }
                self.follow_restore(after, statuses)
            },
        }
    }

    fn opened_to_type(
        &mut self,
        text: String,
        partial: bool,
        reply: Result<(), String>,
        statuses: &mut Vec<String>,
    ) -> (next: Next)
        ensures
            ({
                let step = old(self)@.opened_to_type(text@, partial, reply_view(reply));
                &&& final(self)@ == step.state
                &&& next@ == step.next
                &&& texts_view(final(statuses)@) == texts_view(old(statuses)@) + step.statuses
            }),
    {
        proof {
            reveal(TextInputView::opened_to_type);
        }
        let ghost before = texts_view(statuses@);
        match reply {
            Ok(()) => {
                self.client = true;
                say(statuses, "Using Wayland virtual keyboard for transcription".to_owned());
                self.waiting = Waiting::Typing { partial };
                proof {
                    lemma_said(before, client_opened(), Seq::empty());
                }
                assert(texts_view(statuses@) =~= before.push(client_opened()) + Seq::<
                    Seq<char>,
                >::empty());
                Next::Perform(Request::Type(text))
            },
            Err(error) => {
                proof {
                    lemma_said(
                        before,
                        client_missing(error@),
                        self@.typed(false, partial).statuses,
                    );
                }
                say_client_missing(statuses, error);
                self.finish_typing(false, partial, statuses)
            },
        }
    }

    fn captured(&mut self, text: String, reply: Result<(), String>, statuses: &mut Vec<String>) -> (next:
        Next)
        ensures
            ({
                let step = old(self)@.captured(text@, reply_view(reply));
                &&& final(self)@ == step.state
                &&& next@ == step.next
                &&& texts_view(final(statuses)@) == texts_view(old(statuses)@) + step.statuses
            }),
    {
        proof {
            reveal(TextInputView::captured);
        }
        let ghost before = texts_view(statuses@);
        match reply {
            Ok(()) => {
                self.clipboard = true;
                let shortcut = if self.paste_with_shift {
                    "Ctrl+Shift+V"
                } else {
                    "Ctrl+V"
                };
                let mut status = text::joined("Using clipboard paste (", shortcut);
                status.append(") for transcription");
                proof {
                    lemma_said(before, status@, self@.pasting(text@).statuses);
                }
                say(statuses, status);
            },
            Err(error) => {
                self.clipboard_disabled = true;
                proof {
                    lemma_said(
                        before,
                        clipboard_missing(error@),
                        self@.pasting(text@).statuses,
                    );
                }
                say(
                    statuses,
                    text::joined(
                        "Clipboard unavailable; using paced Wayland keyboard input: ",
                        error.as_str(),
                    ),
                );
            },
        }
        self.paste_text(text, statuses)
    }

    fn opened_to_paste(&mut self, text: String, reply: Result<(), String>, statuses: &mut Vec<
        String,
    >) -> (next: Next)
        ensures
            ({
                let step = old(self)@.opened_to_paste(text@, reply_view(reply));
                &&& final(self)@ == step.state
                &&& next@ == step.next
                &&& texts_view(final(statuses)@) == texts_view(old(statuses)@) + step.statuses
            }),
    {
        proof {
            reveal(TextInputView::opened_to_paste);
        }
        let ghost before = texts_view(statuses@);
        match reply {
            Ok(()) => {
                self.client = true;
                proof {
                    lemma_said(before, client_opened(), self@.pasting(text@).statuses);
                }
                say(statuses, "Using Wayland virtual keyboard for transcription".to_owned());
                self.paste_text(text, statuses)
            },
            Err(error) => {
                proof {
                    lemma_said(
                        before,
                        client_missing(error@),
                        self@.giving_up_pasting(text@, None).statuses,
                    );
                }
                say_client_missing(statuses, error);
                self.give_up_pasting(text, None, statuses)
            },
        }
    }
}

fn say_client_missing(statuses: &mut Vec<String>, error: String)
    ensures
        texts_view(final(statuses)@) == texts_view(old(statuses)@).push(client_missing(error@)),
{
    say(
        statuses,
        text::joined(
            "Wayland virtual keyboard unavailable; deferring partials until the final transcript: ",
            error.as_str(),
        ),
    );
}

impl TextInputView {
    /// What holds of every text input that started fresh.
    pub open spec fn consistent(self) -> bool {
        &&& self.client ==> self.attempted
        &&& self.partial_typed ==> self.partial_seen
        &&& match self.waiting {
            WaitingView::Nothing => !self.clipboard,
            WaitingView::OpeningToType { partial, .. } => {
                &&& !self.clipboard
                &&& self.attempted
                &&& !self.client
                &&& partial ==> self.partial_seen
            },
            WaitingView::Typing { partial } => {
                &&& !self.clipboard
                &&& self.client
                &&& partial ==> self.partial_seen
            },
            WaitingView::Capturing { .. } => !self.clipboard && !self.clipboard_disabled,
            WaitingView::OpeningToPaste { .. } => self.clipboard && self.attempted && !self.client,
            WaitingView::Pasting { .. } => self.clipboard && self.client,
            WaitingView::Restoring(_) => !self.clipboard,
        }
    }
}

/// The clipboard is never left replaced: a text input that is not busy has no
/// saved clipboard that waits to be restored, whatever was done with it and
/// whatever was replied.
#[verifier::spinoff_prover]
pub proof fn law_idle_means_clipboard_is_restored(
    input: TextInputView,
    text: Seq<char>,
    reply: Result<(), Seq<char>>,
    paste_with_shift: bool,
)
    requires
        input.consistent(),
    ensures
        TextInputView::fresh(paste_with_shift).consistent(),
        !input.busy() ==> !input.clipboard,
        !input.busy() ==> input.turn_begun().state.consistent(),
        !input.busy() ==> input.partial(text).state.consistent(),
        !input.busy() ==> input.completed(text).state.consistent(),
        input.busy() ==> input.replied(reply).state.consistent(),
{
    reveal(TextInputView::opened_to_type);
    reveal(TextInputView::opened_to_paste);
    reveal(TextInputView::captured);
}

impl Step {
    /// The step of `input` asks for a connection only if none has been tried, and
    /// what has been tried counts as tried from then on.
    pub open spec fn opens_once(self, input: TextInputView) -> bool {
        &&& input.attempted ==> self.state.attempted
        &&& self.next == NextView::Perform(RequestView::OpenClient) ==> !input.attempted
            && self.state.attempted
    }
}

/// Connecting to the virtual keyboard is tried once: it is requested only if it
/// has not been tried, and counts as tried from then on.
#[verifier::spinoff_prover]
pub proof fn law_client_is_opened_once(
    input: TextInputView,
    text: Seq<char>,
    reply: Result<(), Seq<char>>,
)
    ensures
        input.turn_begun().opens_once(input),
        input.partial(text).opens_once(input),
        input.completed(text).opens_once(input),
        input.replied(reply).opens_once(input),
{
    lemma_reply_opens_once(input, reply);
}

#[verifier::spinoff_prover]
proof fn lemma_reply_opens_once(input: TextInputView, reply: Result<(), Seq<char>>)
    ensures
        input.replied(reply).opens_once(input),
{
    reveal(TextInputView::opened_to_type);
    reveal(TextInputView::opened_to_paste);
    reveal(TextInputView::captured);
}

/// A transcript of which a delta has been typed is not entered again: it is only
/// acknowledged.
pub proof fn law_typed_deltas_are_not_entered_again(input: TextInputView, text: Seq<char>)
    requires
        input.consistent(),
        !input.busy(),
        input.partial_typed,
    ensures
        input.completed(text).next == NextView::Finished(OutcomeView::Typed(true)),
        input.completed(text).statuses == Seq::<Seq<char>>::empty(),
{
}

impl Step {
    /// A delta is on its way through the virtual keyboard.
    pub open spec fn delta_under_way(self, text: Seq<char>) -> bool {
        match self.state.waiting {
            WaitingView::OpeningToType { text: waiting, partial } => partial && waiting == text
                && self.next == NextView::Perform(RequestView::OpenClient),
            WaitingView::Typing { partial } => partial && self.next == NextView::Perform(
                RequestView::Type(text),
            ),
            _ => false,
        }
    }
}

/// A delta never touches the clipboard: all that is requested for it is to
/// connect to the virtual keyboard and to type it. If that cannot be, nothing
/// is typed, and the caller is told that the delta is taken care of.
pub proof fn law_deltas_never_touch_the_clipboard(
    input: TextInputView,
    text: Seq<char>,
    step: Step,
    reply: Result<(), Seq<char>>,
)
    requires
        !input.busy(),
        step.delta_under_way(text),
    ensures
        input.partial(text).delta_under_way(text) || input.partial(text).next
            == NextView::Finished(OutcomeView::Typed(true)),
        input.partial(text).state.clipboard == input.clipboard,
        step.state.replied(reply).delta_under_way(text) || step.state.replied(reply).next
            is Finished,
        step.state.replied(reply).state.clipboard == step.state.clipboard,
        step.state.replied(reply).next matches NextView::Finished(OutcomeView::Typed(typed))
            ==> typed,
{
    reveal(TextInputView::opened_to_type);
}

impl Step {
    /// A whole transcript is on its way.
    pub open spec fn entry_under_way(self, text: Seq<char>) -> bool {
        match self.state.waiting {
            WaitingView::OpeningToType { text: waiting, partial } => !partial && waiting == text
                && self.next == NextView::Perform(RequestView::OpenClient),
            WaitingView::Typing { partial } => !partial && self.next == NextView::Perform(
                RequestView::Type(text),
            ),
            WaitingView::Capturing { text: waiting } => waiting == text && self.next
                == NextView::Perform(RequestView::Capture),
            WaitingView::OpeningToPaste { text: waiting } => waiting == text && self.next
                == NextView::Perform(RequestView::OpenClient),
            WaitingView::Pasting { text: waiting } => waiting == text && self.next
                == NextView::Perform(
                RequestView::Paste { text, with_shift: self.state.paste_with_shift },
            ),
            WaitingView::Restoring(AfterRestoreView::Type { text: waiting, .. }) => waiting == text
                && self.next == NextView::Perform(RequestView::Restore),
            _ => false,
        }
    }

    /// A transcript has been entered and the clipboard is being restored.
    pub open spec fn entered(self) -> bool {
        ||| self.next == NextView::Finished(OutcomeView::Typed(true))
        ||| self.state.waiting == WaitingView::Restoring(AfterRestoreView::EndTurn) && self.next
            == NextView::Perform(RequestView::Restore)
    }
}

/// The reply says that a text has reached the application.
pub open spec fn text_arrived(step: Step, reply: Result<(), Seq<char>>) -> bool {
    (step.state.waiting is Typing || step.state.waiting is Pasting) && reply is Ok
}

/// The last step of an operation that gets these replies, and how often a text
/// reached the application on the way.
pub open spec fn followed(step: Step, replies: Seq<Result<(), Seq<char>>>) -> (Step, nat)
    decreases replies.len(),
{
    if step.next is Finished || replies.len() == 0 {
        (step, 0)
    } else {
        let (last, times) = followed(step.state.replied(replies[0]), replies.drop_first());
        (
            last,
            times + if text_arrived(step, replies[0]) {
                1nat
            } else {
                0nat
            },
        )
    }
}

proof fn lemma_entered(step: Step, replies: Seq<Result<(), Seq<char>>>)
    requires
        step.entered(),
    ensures
        followed(step, replies).0.entered(),
        followed(step, replies).1 == 0,
    decreases replies.len(),
{
    if step.next is Perform && replies.len() > 0 {
        lemma_entered(step.state.replied(replies[0]), replies.drop_first());
    }
}

/// Whatever is requested to enter a transcript carries that transcript, until
/// the text has reached the application or cannot be entered at all.
#[verifier::rlimit(30)]
pub proof fn law_entry_carries_the_transcript(step: Step, text: Seq<char>, reply: Result<(), Seq<char>>)
    requires
        step.entry_under_way(text),
    ensures
        text_arrived(step, reply) ==> step.state.replied(reply).entered(),
        !text_arrived(step, reply) ==> {
            ||| step.state.replied(reply).entry_under_way(text)
            ||| step.state.replied(reply).next == NextView::Finished(OutcomeView::Typed(false))
            ||| step.state.replied(reply).next matches NextView::Finished(OutcomeView::Failed(_))
        },
{
    reveal(TextInputView::opened_to_type);
    reveal(TextInputView::opened_to_paste);
    reveal(TextInputView::captured);
}

proof fn lemma_entry_is_made_once(
    step: Step,
    text: Seq<char>,
    replies: Seq<Result<(), Seq<char>>>,
)
    requires
        step.entry_under_way(text),
    ensures
        followed(step, replies).1 == (if followed(step, replies).0.entered() {
            1nat
        } else {
            0nat
        }),
    decreases replies.len(),
{
    if step.next is Perform && replies.len() > 0 {
        let reply = replies[0];
        let after = step.state.replied(reply);
        law_entry_carries_the_transcript(step, text, reply);
        if text_arrived(step, reply) {
            lemma_entered(after, replies.drop_first());
        } else if after.entry_under_way(text) {
            lemma_entry_is_made_once(after, text, replies.drop_first());
        } else {
            assert(followed(after, replies.drop_first()) == (after, 0nat));
        }
    }
}

/// A completed transcript reaches the application at most once, and exactly once
/// if it ends as typed: whatever is replied on the way. Only a transcript of
/// which a delta was typed ends as typed without being entered.
pub proof fn law_transcript_is_entered_once(
    input: TextInputView,
    text: Seq<char>,
    replies: Seq<Result<(), Seq<char>>>,
)
    requires
        input.consistent(),
        !input.busy(),
    ensures
        input.partial_typed ==> followed(input.completed(text), replies).1 == 0,
        !input.partial_typed ==> followed(input.completed(text), replies).1 == (if followed(
            input.completed(text),
            replies,
        ).0.entered() {
            1nat
        } else {
            0nat
        }),
{
    let step = input.completed(text);
    if !input.partial_typed {
        if step.entry_under_way(text) {
            lemma_entry_is_made_once(step, text, replies);
        } else {
            assert(step.next == NextView::Finished(OutcomeView::Typed(false)));
        }
    }
}

} // verus!
