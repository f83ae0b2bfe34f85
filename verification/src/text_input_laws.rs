//! What the delivery of a transcript comes to, said of whole operations.
//!
//! A [`World`] says how each request would go. An operation is followed from its
//! first step to its end; the laws say which requests it makes on the way, what the
//! user is told and how it ends.

use crate::text_input::{
    asks_for_plain_paste, client_missing, client_opened, clipboard_missing, clipboard_ready,
    paste_failed, restore_failed, NextView, OutcomeView, RequestView, Step, TextInputView,
    WaitingView,
};
use vstd::prelude::*;

verus! {

/// How the requests go.
pub struct World {
    /// Connecting to the virtual keyboard.
    pub keyboard: Result<(), Seq<char>>,
    /// Typing a text.
    pub typing: Result<(), Seq<char>>,
    /// Saving the clipboard.
    pub capture: Result<(), Seq<char>>,
    /// Pasting a text.
    pub pasting: Result<(), Seq<char>>,
    /// Restoring the clipboard.
    pub restore: Result<(), Seq<char>>,
}

impl World {
    /// The reply to a request.
    pub open spec fn reply(self, request: RequestView) -> Result<(), Seq<char>> {
        match request {
            RequestView::OpenClient => self.keyboard,
            RequestView::Type(_) => self.typing,
            RequestView::Capture => self.capture,
            RequestView::Paste { .. } => self.pasting,
            RequestView::Restore => self.restore,
        }
    }
}

/// What an operation comes to: the requests that it makes, what the user is told,
/// the state behind it and how it ends.
#[verifier::ext_equal]
pub struct Course {
    pub requests: Seq<RequestView>,
    pub statuses: Seq<Seq<char>>,
    pub state: TextInputView,
    pub outcome: Option<OutcomeView>,
}

/// An operation followed from a step on, for at most `limit` requests.
pub open spec fn followed(step: Step, world: World, limit: nat) -> Course
    decreases limit,
{
    match step.next {
        NextView::Finished(outcome) => Course {
            requests: Seq::empty(),
            statuses: step.statuses,
            state: step.state,
            outcome: Some(outcome),
        },
        NextView::Perform(request) => if limit == 0 {
            Course {
                requests: Seq::empty(),
                statuses: step.statuses,
                state: step.state,
                outcome: None,
            }
        } else {
            let rest = followed(
                step.state.replied(world.reply(request)),
                world,
                (limit - 1) as nat,
            );
            Course {
                requests: seq![request] + rest.requests,
                statuses: step.statuses + rest.statuses,
                ..rest
            }
        },
    }
}

/// The virtual keyboard can be used: it is connected, or can be connected to for
/// the first time.
pub open spec fn has_keyboard(input: TextInputView, world: World) -> bool {
    input.client || (!input.attempted && world.keyboard is Ok)
}

/// The request for a first connection, if there has been none.
pub open spec fn connecting(input: TextInputView) -> Seq<RequestView> {
    if input.client || input.attempted {
        Seq::empty()
    } else {
        seq![RequestView::OpenClient]
    }
}

/// What is told about a first connection.
pub open spec fn about_connecting(input: TextInputView, world: World) -> Seq<Seq<char>> {
    if input.client || input.attempted {
        Seq::empty()
    } else {
        match world.keyboard {
            Ok(()) => seq!["Using Wayland virtual keyboard for transcription"@],
            Err(error) => seq![
                "Wayland virtual keyboard unavailable; deferring partials until the final transcript: "@
                    + error,
            ],
        }
    }
}

/// What is told about a clipboard that could not be restored.
pub open spec fn about_restoring(world: World) -> Seq<Seq<char>> {
    match world.restore {
        Ok(()) => Seq::empty(),
        Err(error) => seq!["Could not restore clipboard: "@ + error],
    }
}

/// How typing ends.
pub open spec fn typed_or_failed(world: World) -> OutcomeView {
    match world.typing {
        Ok(()) => OutcomeView::Typed(true),
        Err(error) => OutcomeView::Failed(error),
    }
}

/// A delta is typed if there is a virtual keyboard, and then counts as typed;
/// without one it is kept for the end of the turn, and nobody else is to type it.
pub proof fn law_deltas_are_typed_or_deferred(input: TextInputView, text: Seq<char>, world: World)
    requires
        input.consistent(),
        !input.busy(),
    ensures
        ({
            let course = followed(input.partial(text), world, 2);
            let usable = has_keyboard(input, world);
            &&& course.requests == connecting(input) + (if usable {
                seq![RequestView::Type(text)]
            } else {
                Seq::empty()
            })
            &&& course.statuses == about_connecting(input, world)
            &&& course.outcome == Some(
                if usable {
                    typed_or_failed(world)
                } else {
                    OutcomeView::Typed(true)
                },
            )
            &&& course.state.partial_seen
            &&& course.state.partial_typed == (input.partial_typed || (usable && world.typing
                is Ok))
            &&& course.state.client == usable
            &&& course.state.attempted
            &&& course.state.clipboard_disabled == input.clipboard_disabled
            &&& !course.state.busy()
        }),
{
    reveal(TextInputView::opened_to_type);
    reveal_with_fuel(followed, 3);
    let course = followed(input.partial(text), world, 2);
    let usable = has_keyboard(input, world);
    assert(course.requests =~= connecting(input) + (if usable {
        seq![RequestView::Type(text)]
    } else {
        Seq::empty()
    }));
    assert(course.statuses =~= about_connecting(input, world));
}

/// The requests that enter a whole transcript.
///
/// The clipboard is tried first, unless it is known not to work. A transcript that
/// is pasted, or could not be, is followed by the restoration of the clipboard; one
/// that is not pasted is typed.
pub open spec fn entry_requests(input: TextInputView, text: Seq<char>, world: World) -> Seq<
    RequestView,
> {
    let usable = has_keyboard(input, world);
    let typing = if usable {
        seq![RequestView::Type(text)]
    } else {
        Seq::empty()
    };
    if input.clipboard_disabled {
        connecting(input) + typing
    } else if world.capture is Err {
        seq![RequestView::Capture] + connecting(input) + typing
    } else if !usable {
        seq![RequestView::Capture] + connecting(input) + seq![RequestView::Restore]
    } else {
        let paste = RequestView::Paste { text, with_shift: input.paste_with_shift };
        if world.pasting is Ok {
            seq![RequestView::Capture] + connecting(input) + seq![paste, RequestView::Restore]
        } else {
            seq![RequestView::Capture] + connecting(input) + seq![
                paste,
                RequestView::Restore,
                RequestView::Type(text),
            ]
        }
    }
}

/// How the entry of a whole transcript ends: it is taken care of if it could be
/// pasted or typed, it is left to others without a virtual keyboard, and it fails
/// if typing fails.
pub open spec fn entry_outcome(input: TextInputView, world: World) -> OutcomeView {
    if !has_keyboard(input, world) {
        OutcomeView::Typed(false)
    } else if !input.clipboard_disabled && world.capture is Ok && world.pasting is Ok {
        OutcomeView::Typed(true)
    } else {
        typed_or_failed(world)
    }
}

/// What is told while a whole transcript is entered.
pub open spec fn entry_statuses(input: TextInputView, world: World) -> Seq<Seq<char>> {
    let connected = about_connecting(input, world);
    if input.clipboard_disabled {
        connected
    } else {
        match world.capture {
            Err(error) => seq![
                "Clipboard unavailable; using paced Wayland keyboard input: "@ + error,
            ] + connected,
            Ok(()) => {
                let ready = seq![
                    "Using clipboard paste ("@ + (if input.paste_with_shift {
                        "Ctrl+Shift+V"@
                    } else {
                        "Ctrl+V"@
                    }) + ") for transcription"@,
                ];
                let restored = about_restoring(world);
                if has_keyboard(input, world) && world.pasting is Err {
                    ready + connected + restored + seq![
                        "Clipboard paste failed; using paced Wayland keyboard input: "@
                            + world.pasting->Err_0,
                    ]
                } else {
                    ready + connected + restored
                }
            },
        }
    }
}

/// A completed transcript of which a delta was typed makes no request at all; any
/// other is entered as a whole, exactly once. Either way the turn is over: a next
/// transcript does not count as begun. The clipboard is given up exactly when it
/// could not be saved, could not be pasted from or has no virtual keyboard to it.
#[verifier::rlimit(60)]
#[verifier::spinoff_prover]
pub proof fn law_transcripts_are_entered_as_a_whole(
    input: TextInputView,
    text: Seq<char>,
    world: World,
)
    requires
        input.consistent(),
        !input.busy(),
    ensures
        ({
            let course = followed(input.completed(text), world, 5);
            &&& input.partial_typed ==> {
                &&& course.requests.len() == 0
                &&& course.statuses.len() == 0
                &&& course.outcome == Some(OutcomeView::Typed(true))
            }
            &&& !input.partial_typed ==> {
                &&& course.requests == entry_requests(input, text, world)
                &&& course.statuses == entry_statuses(input, world)
                &&& course.outcome == Some(entry_outcome(input, world))
                &&& course.state.clipboard_disabled == (input.clipboard_disabled || world.capture
                    is Err || !has_keyboard(input, world) || world.pasting is Err)
                &&& course.state.client == has_keyboard(input, world)
                &&& course.state.attempted
            }
            &&& !course.state.partial_seen
            &&& !course.state.partial_typed
            &&& !course.state.busy()
        }),
{
    let course = followed(input.completed(text), world, 5);
    if input.partial_typed {
        assert(input.completed(text).next == NextView::Finished(OutcomeView::Typed(true)));
    } else {
        let begun = TextInputView { partial_seen: false, partial_typed: false, ..input };
        assert(input.completed(text) == begun.entering(text));
        lemma_entry(begun, text, world);
        assert(has_keyboard(begun, world) == has_keyboard(input, world));
    }
}

spec fn idle(input: TextInputView) -> bool {
    input.consistent() && !input.busy() && !input.partial_seen
}

#[verifier::spinoff_prover]
proof fn lemma_typing(input: TextInputView, text: Seq<char>, world: World, limit: nat)
    requires
        input.client ==> input.attempted,
        !input.clipboard,
        limit >= 2,
    ensures
        ({
            let course = followed(input.typing(text, false), world, limit);
            let usable = has_keyboard(input, world);
            &&& course.requests == connecting(input) + (if usable {
                seq![RequestView::Type(text)]
            } else {
                Seq::empty()
            })
            &&& course.statuses == about_connecting(input, world)
            &&& course.outcome == Some(
                if usable {
                    typed_or_failed(world)
                } else {
                    OutcomeView::Typed(false)
                },
            )
            &&& course.state == (TextInputView {
                client: usable,
                attempted: true,
                waiting: WaitingView::Nothing,
                ..input
            })
        }),
{
    reveal(TextInputView::opened_to_type);
    reveal_with_fuel(followed, 3);
    let course = followed(input.typing(text, false), world, limit);
    let usable = has_keyboard(input, world);
    assert(course.requests =~= connecting(input) + (if usable {
        seq![RequestView::Type(text)]
    } else {
        Seq::empty()
    }));
    assert(course.statuses =~= about_connecting(input, world));
}

/// The course with a request and a message in front of it.
spec fn preceded(course: Course, request: RequestView, statuses: Seq<Seq<char>>) -> Course {
    Course {
        requests: seq![request] + course.requests,
        statuses: statuses + course.statuses,
        ..course
    }
}

/// The course with messages in front of it.
spec fn told(course: Course, statuses: Seq<Seq<char>>) -> Course {
    Course { statuses: statuses + course.statuses, ..course }
}

proof fn lemma_followed(step: Step, world: World, limit: nat, request: RequestView)
    requires
        limit > 0,
        step.next == NextView::Perform(request),
    ensures
        followed(step, world, limit) == preceded(
            followed(step.state.replied(world.reply(request)), world, (limit - 1) as nat),
            request,
            step.statuses,
        ),
{
}

proof fn lemma_told(step: Step, world: World, limit: nat, status: Seq<char>)
    ensures
        followed(step.after_saying(status), world, limit) == told(
            followed(step, world, limit),
            seq![status],
        ),
{
    let a = followed(step.after_saying(status), world, limit);
    let b = told(followed(step, world, limit), seq![status]);
    assert(a.statuses =~= b.statuses);
}

/// Giving up on the clipboard: it is restored, and the text typed.
#[verifier::spinoff_prover]
proof fn lemma_giving_up(
    input: TextInputView,
    text: Seq<char>,
    error: Option<Seq<char>>,
    world: World,
    limit: nat,
)
    requires
        input.attempted,
        input.clipboard,
        limit >= 2,
    ensures
        ({
            let course = followed(input.giving_up_pasting(text, error), world, limit);
            &&& course.requests == (if input.client {
                seq![RequestView::Restore, RequestView::Type(text)]
            } else {
                seq![RequestView::Restore]
            })
            &&& course.statuses == about_restoring(world) + (match error {
                Some(error) => seq![
                    "Clipboard paste failed; using paced Wayland keyboard input: "@ + error,
                ],
                None => Seq::empty(),
            })
            &&& course.outcome == Some(
                if input.client {
                    typed_or_failed(world)
                } else {
                    OutcomeView::Typed(false)
                },
            )
            &&& course.state == (TextInputView {
                clipboard: false,
                clipboard_disabled: true,
                waiting: WaitingView::Nothing,
                ..input
            })
        }),
{
    reveal_with_fuel(followed, 3);
    let course = followed(input.giving_up_pasting(text, error), world, limit);
    assert(course.requests =~= (if input.client {
        seq![RequestView::Restore, RequestView::Type(text)]
    } else {
        seq![RequestView::Restore]
    }));
    assert(course.statuses =~= about_restoring(world) + (match error {
        Some(error) => seq![
            "Clipboard paste failed; using paced Wayland keyboard input: "@ + error,
        ],
        None => Seq::empty(),
    }));
}

/// Pasting with a virtual keyboard and a saved clipboard.
#[verifier::spinoff_prover]
proof fn lemma_pasting(input: TextInputView, text: Seq<char>, world: World, limit: nat)
    requires
        input.client,
        input.attempted,
        input.clipboard,
        limit >= 3,
    ensures
        ({
            let course = followed(input.pasting(text), world, limit);
            let paste = RequestView::Paste { text, with_shift: input.paste_with_shift };
            &&& course.requests == (if world.pasting is Ok {
                seq![paste, RequestView::Restore]
            } else {
                seq![paste, RequestView::Restore, RequestView::Type(text)]
            })
            &&& course.statuses == about_restoring(world) + (match world.pasting {
                Err(error) => seq![
                    "Clipboard paste failed; using paced Wayland keyboard input: "@ + error,
                ],
                Ok(()) => Seq::empty(),
            })
            &&& course.outcome == Some(
                if world.pasting is Ok {
                    OutcomeView::Typed(true)
                } else {
                    typed_or_failed(world)
                },
            )
            &&& course.state == (TextInputView {
                clipboard: false,
                clipboard_disabled: input.clipboard_disabled || world.pasting is Err,
                waiting: WaitingView::Nothing,
                ..input
            })
        }),
{
    let paste = RequestView::Paste { text, with_shift: input.paste_with_shift };
    let step = input.pasting(text);
    lemma_followed(step, world, limit, paste);
    let course = followed(step, world, limit);
    let idle = TextInputView { waiting: WaitingView::Nothing, ..input };
    match world.pasting {
        Ok(()) => {
            reveal_with_fuel(followed, 3);
            assert(course.requests =~= seq![paste, RequestView::Restore]);
            assert(course.statuses =~= about_restoring(world) + Seq::<Seq<char>>::empty());
        },
        Err(error) => {
            lemma_giving_up(idle, text, Some(error), world, (limit - 1) as nat);
            assert(course.requests =~= seq![
                paste,
                RequestView::Restore,
                RequestView::Type(text),
            ]);
            assert(course.statuses =~= about_restoring(world) + seq![
                "Clipboard paste failed; using paced Wayland keyboard input: "@ + error,
            ]);
        },
    }
}

#[verifier::rlimit(60)]
#[verifier::spinoff_prover]
proof fn lemma_entry(input: TextInputView, text: Seq<char>, world: World)
    requires
        idle(input),
    ensures
        ({
            let course = followed(input.entering(text), world, 5);
            &&& course.requests == entry_requests(input, text, world)
            &&& course.statuses == entry_statuses(input, world)
            &&& course.outcome == Some(entry_outcome(input, world))
            &&& course.state.clipboard_disabled == (input.clipboard_disabled || world.capture
                is Err || !has_keyboard(input, world) || world.pasting is Err)
            &&& course.state.client == has_keyboard(input, world)
            &&& course.state.attempted
            &&& course.state.partial_seen == input.partial_seen
            &&& course.state.partial_typed == input.partial_typed
            &&& !course.state.busy()
        }),
{
    let step = input.entering(text);
    let course = followed(step, world, 5);
    if input.clipboard_disabled {
        lemma_typing(input, text, world, 5);
    } else {
        lemma_followed(step, world, 5, RequestView::Capture);
        reveal(TextInputView::captured);
        let captured = input.captured(text, world.capture);
        assert(step.state.replied(world.capture) == captured);
        match world.capture {
            Err(error) => {
                let without = TextInputView { clipboard_disabled: true, ..input };
                lemma_told(without.pasting(text), world, 4, clipboard_missing(error));
                lemma_typing(without, text, world, 4);
                assert(course.requests =~= entry_requests(input, text, world));
                assert(course.statuses =~= entry_statuses(input, world));
            },
            Ok(()) => {
                let saved = TextInputView { clipboard: true, ..input };
                lemma_told(saved.pasting(text), world, 4, clipboard_ready(input.paste_with_shift));
                if input.client {
                    lemma_pasting(saved, text, world, 4);
                } else if input.attempted {
                    lemma_giving_up(saved, text, None, world, 4);
                } else {
                    let opening = TextInputView { attempted: true, ..saved };
                    lemma_followed(saved.pasting(text), world, 4, RequestView::OpenClient);
                    reveal(TextInputView::opened_to_paste);
                    assert(saved.pasting(text).state.replied(world.keyboard)
                        == opening.opened_to_paste(text, world.keyboard));
                    match world.keyboard {
                        Ok(()) => {
                            let open = TextInputView { client: true, ..opening };
                            lemma_told(open.pasting(text), world, 3, client_opened());
                            lemma_pasting(open, text, world, 3);
                        },
                        Err(error) => {
                            lemma_told(
                                opening.giving_up_pasting(text, None),
                                world,
                                3,
                                client_missing(error),
                            );
                            lemma_giving_up(opening, text, None, world, 3);
                        },
                    }
                }
                assert(course.requests =~= entry_requests(input, text, world));
                assert(course.statuses =~= entry_statuses(input, world));
            },
        }
    }
}

/// A new turn forgets the deltas of the one before, and asks for nothing.
pub proof fn law_turns_begin_afresh(input: TextInputView, world: World)
    requires
        input.consistent(),
        !input.busy(),
    ensures
        ({
            let course = followed(input.turn_begun(), world, 0);
            &&& course.requests.len() == 0
            &&& course.statuses.len() == 0
            &&& course.outcome == Some(OutcomeView::Ready)
            &&& course.state == (TextInputView {
                partial_seen: false,
                partial_typed: false,
                waiting: WaitingView::Nothing,
                ..input
            })
        }),
{
}

/// The shortcut holds the shift key unless one of four settings asks for the plain
/// one.
pub proof fn law_plain_paste_has_four_names(setting: Seq<char>)
    ensures
        !asks_for_plain_paste(None),
        asks_for_plain_paste(Some("ctrl-v"@)),
        asks_for_plain_paste(Some("ctrl_v"@)),
        asks_for_plain_paste(Some("control-v"@)),
        asks_for_plain_paste(Some("control_v"@)),
        asks_for_plain_paste(Some(setting)) ==> setting == "ctrl-v"@ || setting == "ctrl_v"@
            || setting == "control-v"@ || setting == "control_v"@,
{
}

/// A new text input has tried nothing, has nothing to restore and may use
/// everything; it pastes as it was asked to.
pub proof fn law_new_text_inputs_have_done_nothing(paste_with_shift: bool)
    ensures
        ({
            let input = TextInputView::fresh(paste_with_shift);
            &&& !input.client && !input.attempted
            &&& !input.partial_seen && !input.partial_typed
            &&& !input.clipboard && !input.clipboard_disabled
            &&& input.paste_with_shift == paste_with_shift
            &&& !input.busy()
        }),
{
}

/// The user is told which way the text takes and, where one cannot be taken, why.
/// A paste is told with the shortcut that it uses.
pub proof fn law_users_are_told_the_way_of_the_text(error: Seq<char>)
    ensures
        client_opened() == "Using Wayland virtual keyboard for transcription"@,
        client_missing(error)
            == "Wayland virtual keyboard unavailable; deferring partials until the final transcript: "@
            + error,
        clipboard_ready(true) == "Using clipboard paste ("@ + "Ctrl+Shift+V"@
            + ") for transcription"@,
        clipboard_ready(false) == "Using clipboard paste ("@ + "Ctrl+V"@ + ") for transcription"@,
        clipboard_missing(error) == "Clipboard unavailable; using paced Wayland keyboard input: "@
            + error,
        paste_failed(error) == "Clipboard paste failed; using paced Wayland keyboard input: "@
            + error,
        restore_failed(error) == "Could not restore clipboard: "@ + error,
{
}

} // verus!
