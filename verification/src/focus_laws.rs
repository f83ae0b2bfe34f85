//! What is understood of the compositor, said of what it sends.

use crate::focus::{
    announces_focus, described_window, field, FocusError, FocusMonitorView, FocusedAppView,
    MonitorStepView, StreamEventView,
};
use crate::json::{members_view, Json, JsonView};
use vstd::prelude::*;

verus! {

/// An event of the stream is a name and, behind two angle brackets, what happened.
/// Two names announce that another window is focused; no other event does, and
/// neither does a line without the brackets.
pub proof fn law_two_events_announce_focus(name: Seq<char>, rest: Seq<char>, line: Seq<char>)
    requires
        !name.contains('>'),
        !line.contains('>'),
    ensures
        announces_focus(name + ">>"@ + rest) <==> name == "activewindow"@ || name
            == "activewindowv2"@,
        !announces_focus(line),
{
    reveal_strlit("activewindow");
    reveal_strlit("activewindowv2");
    reveal_strlit("activewindow>>");
    reveal_strlit("activewindowv2>>");
    reveal_strlit(">>");
    lemma_event_name(name, "activewindow"@, rest);
    lemma_event_name(name, "activewindowv2"@, rest);
    assert("activewindow>>"@ =~= "activewindow"@ + ">>"@);
    assert("activewindowv2>>"@ =~= "activewindowv2"@ + ">>"@);
    if "activewindow>>"@.is_prefix_of(line) {
        assert(line.take(14)[12] == line[12]);
        assert(line[12] == '>');
    }
    if "activewindowv2>>"@.is_prefix_of(line) {
        assert(line.take(16)[14] == line[14]);
        assert(line[14] == '>');
    }
}

proof fn lemma_event_name(name: Seq<char>, wanted: Seq<char>, rest: Seq<char>)
    requires
        !name.contains('>'),
        !wanted.contains('>'),
    ensures
        (wanted + ">>"@).is_prefix_of(name + ">>"@ + rest) <==> name == wanted,
{
    reveal_strlit(">>");
    let line = name + ">>"@ + rest;
    let prefix = wanted + ">>"@;
    if name == wanted {
        assert(line.take(prefix.len() as int) =~= prefix);
    }
    if prefix.is_prefix_of(line) {
        assert(forall|i: int| 0 <= i < prefix.len() ==> line.take(prefix.len() as int)[i] == line[i]);
        if name.len() < wanted.len() {
            assert(line[name.len() as int] == '>');
            assert(prefix[name.len() as int] == wanted[name.len() as int]);
            assert(wanted.contains(wanted[name.len() as int]));
        } else if wanted.len() < name.len() {
            assert(prefix[wanted.len() as int] == '>');
            assert(line[wanted.len() as int] == name[wanted.len() as int]);
            assert(name.contains(name[wanted.len() as int]));
        } else {
            assert forall|i: int| 0 <= i < name.len() implies name[i] == wanted[i] by {
                assert(line[i] == name[i]);
                assert(prefix[i] == wanted[i]);
            }
            assert(name =~= wanted);
        }
    }
}

/// A new connection asks for the focused window, an event of another window too;
/// nothing else does. A stream that cannot be had or is gone is connected anew, and
/// only an error is complained about: one of the stream each time, one of the
/// connection once until it is up again.
pub proof fn law_streams_are_followed(
    monitor: FocusMonitorView,
    error: Seq<char>,
    line: Seq<char>,
)
    ensures
        ({
            let (after, step) = monitor.stepped(StreamEventView::Connected);
            &&& !after.warned_connection
            &&& step.refresh && !step.reconnect && step.warning is None
        }),
        ({
            let (after, step) = monitor.stepped(StreamEventView::ConnectionFailed(error));
            &&& after.warned_connection
            &&& !step.refresh && step.reconnect
            &&& step.warning is None <==> monitor.warned_connection
            &&& step.warning matches Some(warning) ==> warning
                == "Focused app detection unavailable: "@ + error
        }),
        ({
            let (after, step) = monitor.stepped(StreamEventView::Line(line));
            &&& after == monitor
            &&& step == (MonitorStepView {
                warning: None,
                refresh: announces_focus(line),
                reconnect: false,
            })
        }),
        ({
            let (after, step) = monitor.stepped(StreamEventView::Ended);
            &&& after == monitor
            &&& !step.refresh && step.reconnect && step.warning is None
        }),
        ({
            let (after, step) = monitor.stepped(StreamEventView::Failed(error));
            &&& after == monitor
            &&& !step.refresh && step.reconnect
            &&& step.warning == Some("Focused app event stream stopped: "@ + error)
        }),
{
}

/// The answer to a query replaces the window that is known, and no window is an
/// answer too; a failed query is told and changes nothing.
pub proof fn law_answers_replace_the_window(
    monitor: FocusMonitorView,
    window: Option<FocusedAppView>,
    error: Seq<char>,
)
    ensures
        monitor.answered(Ok(window)).0.current == window,
        monitor.answered(Ok(window)).0.warned_connection == monitor.warned_connection,
        monitor.answered(Ok(window)).1 is None,
        monitor.answered(Err(error)).0 == monitor,
        monitor.answered(Err(error)).1 == Some("Could not query Hyprland focused app: "@ + error),
{
}

/// The record that the compositor keeps of a window.
pub open spec fn record_of(
    address: Seq<char>,
    class: Seq<char>,
    initial_class: Seq<char>,
    title: Seq<char>,
    pid: Option<u64>,
) -> JsonView {
    JsonView::Object(
        map![
            "address"@ => JsonView::Text(address),
            "class"@ => JsonView::Text(class),
            "initialClass"@ => JsonView::Text(initial_class),
            "title"@ => JsonView::Text(title),
            "pid"@ => JsonView::Number(pid),
        ],
    )
}

/// A window is known by what its record says: its address, its class or, if that is
/// empty, its first class, its title, and its process if the number is one. Without
/// an address, or with the null address, there is no window.
pub proof fn law_windows_are_known_by_their_record(
    address: Seq<char>,
    class: Seq<char>,
    initial_class: Seq<char>,
    title: Seq<char>,
    pid: Option<u64>,
)
    ensures
        ({
            let window = described_window(record_of(address, class, initial_class, title, pid));
            if address.len() == 0 || address == "0x0"@ {
                window == Ok::<Option<FocusedAppView>, FocusError>(None)
            } else {
                window == Ok::<Option<FocusedAppView>, FocusError>(
                    Some(
                        FocusedAppView {
                            address,
                            app_id: if class.len() > 0 {
                                class
                            } else {
                                initial_class
                            },
                            initial_app_id: initial_class,
                            title,
                            pid: match pid {
                                Some(pid) => if pid < 0x1_0000_0000 {
                                    Some(pid as u32)
                                } else {
                                    None
                                },
                                None => None,
                            },
                        },
                    ),
                )
            }
        }),
{
    lemma_member_names();
    let record = record_of(address, class, initial_class, title, pid);
    assert(record.member("address"@) == Some(JsonView::Text(address)));
    assert(record.member("class"@) == Some(JsonView::Text(class)));
    assert(record.member("initialClass"@) == Some(JsonView::Text(initial_class)));
    assert(record.member("title"@) == Some(JsonView::Text(title)));
    assert(record.member("pid"@) == Some(JsonView::Number(pid)));
}

proof fn lemma_member_names()
    ensures
        "address"@ != "class"@,
        "address"@ != "initialClass"@,
        "address"@ != "title"@,
        "address"@ != "pid"@,
        "class"@ != "initialClass"@,
        "class"@ != "title"@,
        "class"@ != "pid"@,
        "initialClass"@ != "title"@,
        "initialClass"@ != "pid"@,
        "title"@ != "pid"@,
{
    reveal_strlit("address");
    reveal_strlit("class");
    reveal_strlit("initialClass");
    reveal_strlit("title");
    reveal_strlit("pid");
    assert("address"@.len() == 7 && "class"@.len() == 5 && "initialClass"@.len() == 12);
    assert("title"@.len() == 5 && "pid"@.len() == 3);
    assert("class"@[0] != "title"@[0]);
}

/// Members that are missing, or that are no text, count as empty; a record that is
/// no object describes nothing.
pub proof fn law_missing_members_count_as_empty(
    members: Map<Seq<char>, JsonView>,
    name: Seq<char>,
    value: JsonView,
)
    ensures
        !members.contains_key(name) ==> field(JsonView::Object(members), name) == Seq::<
            char,
        >::empty(),
        value !is Text ==> field(JsonView::Object(members.insert(name, value)), name) == Seq::<
            char,
        >::empty(),
        value matches JsonView::Text(words) ==> field(
            JsonView::Object(members.insert(name, value)),
            name,
        ) == words,
        FocusError::InvalidJson.words() == "invalid Hyprland activewindow JSON"@,
        FocusError::NotAnObject.words() == "Hyprland activewindow response is not an object"@,
        value !is Object ==> described_window(value) == Err::<Option<FocusedAppView>, FocusError>(
            FocusError::NotAnObject,
        ),
        !members.contains_key("address"@) ==> described_window(JsonView::Object(members)) == Ok::<
            Option<FocusedAppView>,
            FocusError,
        >(None),
{
}

/// A process whose number is missing or is no such number is not known.
pub proof fn law_processes_are_known_by_their_number(members: Map<Seq<char>, JsonView>)
    ensures
        described_window(JsonView::Object(members)) matches Ok(Some(window)) ==> (window.pid
            matches Some(pid) ==> members.contains_key("pid"@) && members["pid"@]
            == JsonView::Number(Some(pid as u64))),
{
}

/// Of the members with one name the last one counts, whatever other names there
/// are.
pub proof fn law_last_member_of_a_name_counts(members: Seq<(String, Json)>, i: int, name: Seq<char>)
    requires
        -1 <= i < members.len(),
        forall|k: int| i < k < members.len() ==> (#[trigger] members[k]).0@ != name,
    ensures
        0 <= i < members.len() && members[i].0@ == name ==> JsonView::Object(
            members_view(members),
        ).member(name) == Some(members[i].1@),
        i == -1 ==> JsonView::Object(members_view(members)).member(name) is None,
    decreases members.len(),
{
    if members.len() > 0 && i < members.len() - 1 {
        let first = members.drop_last();
        assert(members.last() == members[members.len() - 1]);
        assert(forall|k: int| 0 <= k < first.len() ==> first[k] == members[k]);
        law_last_member_of_a_name_counts(first, i, name);
    }
}

/// A member is what an object was last given under its name; nothing but an object
/// has members, and only a text is the text of a member.
pub proof fn law_members_are_what_an_object_was_given(
    members: Map<Seq<char>, JsonView>,
    name: Seq<char>,
    other: Seq<char>,
    value: JsonView,
    words: Seq<char>,
)
    ensures
        JsonView::Object(members.insert(name, value)).member(name) == Some(value),
        other != name ==> JsonView::Object(members.insert(name, value)).member(other)
            == JsonView::Object(members).member(other),
        value !is Object ==> value.member(name) is None,
        JsonView::Object(members.insert(name, JsonView::Text(words))).text_member(name) == Some(
            words,
        ),
        value !is Text ==> JsonView::Object(members.insert(name, value)).text_member(name) is None,
{
}

} // verus!
