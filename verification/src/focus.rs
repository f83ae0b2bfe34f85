//! Focused-application tracking for application-specific mappings.
//!
//! Wayland intentionally does not expose a compositor-independent global
//! focused-window query. The Hyprland backend therefore uses the compositor's
//! own IPC: the event socket tells us when focus changes, and the control
//! socket supplies the complete `activewindow` record for that change.

use crate::json::{json_document, parse_json, Json, JsonView};
use crate::paths::{join_path, path_in};
use crate::text;
use vstd::prelude::*;
use vstd::string::*;

verus! {

/// The focused window identity exposed by a compositor backend.
#[derive(Debug, PartialEq, Eq)]
pub struct FocusedApp {
    /// Hyprland's stable window address for the current compositor instance.
    pub address: String,
    /// The current Wayland app-id / X11 window class.
    pub app_id: String,
    /// The initial app-id / class, which is often more stable than `app_id`.
    pub initial_app_id: String,
    pub title: String,
    pub pid: Option<u32>,
}

/// The texts and the process of a focused window.
#[verifier::ext_equal]
pub struct FocusedAppView {
    pub address: Seq<char>,
    pub app_id: Seq<char>,
    pub initial_app_id: Seq<char>,
    pub title: Seq<char>,
    pub pid: Option<u32>,
}

impl View for FocusedApp {
    type V = FocusedAppView;

    open spec fn view(&self) -> FocusedAppView {
        FocusedAppView {
            address: self.address@,
            app_id: self.app_id@,
            initial_app_id: self.initial_app_id@,
            title: self.title@,
            pid: self.pid,
        }
    }
}

impl Clone for FocusedApp {
    fn clone(&self) -> (app: FocusedApp)
        ensures
            app@ == self@,
    {
        FocusedApp {
            address: self.address.clone(),
            app_id: self.app_id.clone(),
            initial_app_id: self.initial_app_id.clone(),
            title: self.title.clone(),
            pid: self.pid,
        }
    }
}

/// The focused window, if there is one.
pub open spec fn focus_view(app: Option<FocusedApp>) -> Option<FocusedAppView> {
    match app {
        Some(app) => Some(app@),
        None => None,
    }
}

/// A continuously updated focused-window snapshot.
#[derive(Debug)]
pub struct FocusMonitor {
    current: Option<FocusedApp>,
    warned_connection: bool,
}

/// The focused window, and whether the monitor has complained about the
/// connection since it was last up.
#[verifier::ext_equal]
pub struct FocusMonitorView {
    pub current: Option<FocusedAppView>,
    pub warned_connection: bool,
}

impl View for FocusMonitor {
    type V = FocusMonitorView;

    closed spec fn view(&self) -> FocusMonitorView {
        FocusMonitorView {
            current: focus_view(self.current),
            warned_connection: self.warned_connection,
        }
    }
}

/// What the compositor's event stream does.
#[derive(Debug)]
pub enum StreamEvent {
    Connected,
    ConnectionFailed(String),
    Line(String),
    Ended,
    Failed(String),
}

/// What the event stream does, in mathematical terms.
pub enum StreamEventView {
    Connected,
    ConnectionFailed(Seq<char>),
    Line(Seq<char>),
    Ended,
    Failed(Seq<char>),
}

impl View for StreamEvent {
    type V = StreamEventView;

    open spec fn view(&self) -> StreamEventView {
        match self {
            StreamEvent::Connected => StreamEventView::Connected,
            StreamEvent::ConnectionFailed(error) => StreamEventView::ConnectionFailed(error@),
            StreamEvent::Line(line) => StreamEventView::Line(line@),
            StreamEvent::Ended => StreamEventView::Ended,
            StreamEvent::Failed(error) => StreamEventView::Failed(error@),
        }
    }
}

/// What the monitor does about the event stream.
#[derive(Debug)]
pub struct MonitorStep {
    /// A complaint to print.
    pub warning: Option<String>,
    /// The focused window has to be queried.
    pub refresh: bool,
    /// The stream is gone: pause and connect anew. Otherwise read on.
    pub reconnect: bool,
}

/// The text behind an optional text.
pub open spec fn text_view(text: Option<String>) -> Option<Seq<char>> {
    match text {
        Some(text) => Some(text@),
        None => None,
    }
}

/// A monitor step, in mathematical terms.
#[verifier::ext_equal]
pub struct MonitorStepView {
    pub warning: Option<Seq<char>>,
    pub refresh: bool,
    pub reconnect: bool,
}

impl View for MonitorStep {
    type V = MonitorStepView;

    open spec fn view(&self) -> MonitorStepView {
        MonitorStepView {
            warning: text_view(self.warning),
            refresh: self.refresh,
            reconnect: self.reconnect,
        }
    }
}

/// Milliseconds between two attempts to connect.
pub const RECONNECT_DELAY_MILLIS: u64 = 250;

/// What is written to the control socket to query the focused window.
pub fn active_window_request() -> (request: &'static str)
    ensures
        request@ == "j/activewindow"@,
{
    "j/activewindow"
}

impl FocusMonitorView {
    /// A monitor that has not heard of any window.
    pub open spec fn fresh() -> FocusMonitorView {
        FocusMonitorView { current: None, warned_connection: false }
    }

    /// The monitor after an event of the stream, and what it does about it.
    pub open spec fn stepped(self, event: StreamEventView) -> (FocusMonitorView, MonitorStepView) {
        match event {
            // Subscribe before taking the initial snapshot. If focus changes while
            // the control query is in flight, the corresponding event remains in
            // the stream and the later query observes the newest focused window.
            StreamEventView::Connected => (
                FocusMonitorView { warned_connection: false, ..self },
                MonitorStepView { warning: None, refresh: true, reconnect: false },
            ),
            StreamEventView::ConnectionFailed(error) => (
                FocusMonitorView { warned_connection: true, ..self },
                MonitorStepView {
                    warning: if self.warned_connection {
                        None
                    } else {
                        Some("Focused app detection unavailable: "@ + error)
                    },
                    refresh: false,
                    reconnect: true,
                },
            ),
            StreamEventView::Line(line) => (
                self,
                MonitorStepView {
                    warning: None,
                    refresh: announces_focus(line),
                    reconnect: false,
                },
            ),
            StreamEventView::Ended => (
                self,
                MonitorStepView { warning: None, refresh: false, reconnect: true },
            ),
            StreamEventView::Failed(error) => (
                self,
                MonitorStepView {
                    warning: Some("Focused app event stream stopped: "@ + error),
                    refresh: false,
                    reconnect: true,
                },
            ),
        }
    }
}

/// The answer to a query, in mathematical terms.
pub open spec fn query_view(answer: Result<Option<FocusedApp>, String>) -> Result<
    Option<FocusedAppView>,
    Seq<char>,
> {
    match answer {
        Ok(app) => Ok(focus_view(app)),
        Err(error) => Err(error@),
    }
}

impl FocusMonitorView {
    /// The monitor after the answer to a query, and its complaint. A failed query
    /// leaves the snapshot as it was.
    pub open spec fn answered(self, answer: Result<Option<FocusedAppView>, Seq<char>>) -> (
        FocusMonitorView,
        Option<Seq<char>>,
    ) {
        match answer {
            Ok(current) => (FocusMonitorView { current, ..self }, None),
            Err(error) => (self, Some("Could not query Hyprland focused app: "@ + error)),
        }
    }
}

impl FocusMonitor {
    /// Start the best available compositor backend.
    ///
    /// `None` means the current session is unsupported or is not Hyprland. The
    /// monitor is intentionally optional so keyboard mapping continues to work
    /// with the default profile on other desktops.
    pub fn start(paths: &Option<HyprlandPaths>, control_exists: bool, events_exist: bool) -> (monitor:
        Option<FocusMonitor>)
        ensures
            monitor is Some <==> paths is Some && control_exists && events_exist,
            monitor matches Some(monitor) ==> monitor@ == FocusMonitorView::fresh(),
    {
        if paths.is_none() || !control_exists || !events_exist {
            return None;
        }
        Some(FocusMonitor { current: None, warned_connection: false })
    }

    /// The window that is focused, as far as the monitor knows.
    pub fn current(&self) -> (app: Option<FocusedApp>)
        ensures
            focus_view(app) == self@.current,
    {
        match &self.current {
            Some(app) => Some(app.clone()),
            None => None,
        }
    }

    /// Follows the event stream.
    pub fn step(&mut self, event: StreamEvent) -> (step: MonitorStep)
        ensures
            final(self)@ == old(self)@.stepped(event@).0,
            step@ == old(self)@.stepped(event@).1,
    {
        match event {
            StreamEvent::Connected => {
                self.warned_connection = false;
                MonitorStep { warning: None, refresh: true, reconnect: false }
            },
            StreamEvent::ConnectionFailed(error) => {
                let warning = if self.warned_connection {
                    None
                } else {
                    Some(text::joined("Focused app detection unavailable: ", error.as_str()))
                };
                self.warned_connection = true;
                MonitorStep { warning, refresh: false, reconnect: true }
            },
            StreamEvent::Line(line) => MonitorStep {
                warning: None,
                refresh: is_focus_event(line.as_str()),
                reconnect: false,
            },
            StreamEvent::Ended => MonitorStep { warning: None, refresh: false, reconnect: true },
            StreamEvent::Failed(error) => MonitorStep {
                warning: Some(text::joined("Focused app event stream stopped: ", error.as_str())),
                refresh: false,
                reconnect: true,
            },
        }
    }

    /// Takes the answer to a query of the focused window. A failed query leaves
    /// the snapshot as it was and is complained about.
    pub fn refresh(&mut self, answer: Result<Option<FocusedApp>, String>) -> (warning: Option<
        String,
    >)
        ensures
            final(self)@ == old(self)@.answered(query_view(answer)).0,
            text_view(warning) == old(self)@.answered(query_view(answer)).1,
    {
        match answer {
            Ok(app) => {
                self.current = app;
                None
            },
            Err(error) => Some(
                text::joined("Could not query Hyprland focused app: ", error.as_str()),
            ),
        }
    }
}

/// The monitor after a run of events of the stream, and how often it complained
/// that it cannot connect.
pub open spec fn connection_warnings(monitor: FocusMonitorView, events: Seq<StreamEventView>) -> (
    FocusMonitorView,
    nat,
)
    decreases events.len(),
{
    if events.len() == 0 {
        (monitor, 0)
    } else {
        let (before, warnings) = connection_warnings(monitor, events.drop_last());
        let (after, step) = before.stepped(events.last());
        (
            after,
            warnings + if events.last() is ConnectionFailed && step.warning is Some {
                1nat
            } else {
                0nat
            },
        )
    }
}

/// However long the compositor stays away, one complaint is made about it: a
/// run of events without a successful connection gives at most one.
pub proof fn law_one_warning_per_outage(monitor: FocusMonitorView, events: Seq<StreamEventView>)
    requires
        forall|i: int| 0 <= i < events.len() ==> (#[trigger] events[i]) !is Connected,
    ensures
        connection_warnings(monitor, events).1 <= 1,
        monitor.warned_connection ==> connection_warnings(monitor, events).1 == 0,
        connection_warnings(monitor, events).0.warned_connection == (monitor.warned_connection
            || exists|i: int| 0 <= i < events.len() && (#[trigger] events[i]) is ConnectionFailed),
        !monitor.warned_connection && connection_warnings(monitor, events).0.warned_connection
            ==> connection_warnings(monitor, events).1 == 1,
        !connection_warnings(monitor, events).0.warned_connection ==> connection_warnings(
            monitor,
            events,
        ).1 == 0,
    decreases events.len(),
{
    if events.len() > 0 {
        let first = events.drop_last();
        assert forall|i: int| 0 <= i < first.len() implies (#[trigger] first[i])
            !is Connected by {
            assert(first[i] == events[i]);
        }
        law_one_warning_per_outage(monitor, first);
        assert(events.last() == events[events.len() - 1]);
        if exists|i: int| 0 <= i < events.len() && (#[trigger] events[i]) is ConnectionFailed {
            let i = choose|i: int|
                0 <= i < events.len() && (#[trigger] events[i]) is ConnectionFailed;
            if i < first.len() {
                assert(first[i] is ConnectionFailed);
            }
        }
        if exists|i: int| 0 <= i < first.len() && (#[trigger] first[i]) is ConnectionFailed {
            let i = choose|i: int| 0 <= i < first.len() && (#[trigger] first[i])
                is ConnectionFailed;
            assert(events[i] is ConnectionFailed);
        }
    }
}

/// Something that a monitor takes in.
pub enum MonitorInput {
    Stream(StreamEventView),
    Answer(Result<Option<FocusedAppView>, Seq<char>>),
}

/// The monitor behind a run of inputs.
pub open spec fn monitored(monitor: FocusMonitorView, inputs: Seq<MonitorInput>) -> FocusMonitorView
    decreases inputs.len(),
{
    if inputs.len() == 0 {
        monitor
    } else {
        let before = monitored(monitor, inputs.drop_last());
        match inputs.last() {
            MonitorInput::Stream(event) => before.stepped(event).0,
            MonitorInput::Answer(answer) => before.answered(answer).0,
        }
    }
}

/// The last query among a run of inputs that was answered says this.
pub open spec fn last_answer(inputs: Seq<MonitorInput>) -> Option<Option<FocusedAppView>>
    decreases inputs.len(),
{
    if inputs.len() == 0 {
        None
    } else {
        match inputs.last() {
            MonitorInput::Answer(Ok(app)) => Some(app),
            _ => last_answer(inputs.drop_last()),
        }
    }
}

/// The snapshot is what the last answered query said, whatever the stream did and
/// however many queries failed since; a new monitor that has had no answer knows
/// of no window.
pub proof fn law_snapshot_is_the_last_answer(inputs: Seq<MonitorInput>)
    ensures
        monitored(FocusMonitorView::fresh(), inputs).current == (match last_answer(inputs) {
            Some(app) => app,
            None => None,
        }),
    decreases inputs.len(),
{
    if inputs.len() > 0 {
        law_snapshot_is_the_last_answer(inputs.drop_last());
    }
}

/// Where the sockets of a Hyprland instance are, as path bytes.
#[derive(Debug, PartialEq, Eq)]
pub struct HyprlandPaths {
    pub control: Vec<u8>,
    pub events: Vec<u8>,
}

/// The directory of a Hyprland instance.
pub open spec fn instance_directory(runtime_dir: Seq<u8>, instance: Seq<u8>) -> Seq<u8> {
    path_in(path_in(runtime_dir, vstd::utf8::encode_utf8("hypr"@)), instance)
}

impl HyprlandPaths {
    /// The sockets of the instance that the session's environment names: the
    /// values of `XDG_RUNTIME_DIR` and `HYPRLAND_INSTANCE_SIGNATURE`.
    pub fn from_environment(runtime_dir: &Option<Vec<u8>>, instance: &Option<Vec<u8>>) -> (paths:
        Option<HyprlandPaths>)
        ensures
            paths is Some <==> runtime_dir is Some && instance is Some && instance->0@.len() > 0,
            paths matches Some(paths) ==> {
                &&& paths.control@ == path_in(
                    instance_directory(runtime_dir->0@, instance->0@),
                    vstd::utf8::encode_utf8(".socket.sock"@),
                )
                &&& paths.events@ == path_in(
                    instance_directory(runtime_dir->0@, instance->0@),
                    vstd::utf8::encode_utf8(".socket2.sock"@),
                )
            },
    {
        match (runtime_dir, instance) {
            (Some(runtime_dir), Some(instance)) => {
                if instance.len() == 0 {
                    return None;
                }
                let hypr = join_path(runtime_dir.as_slice(), "hypr".as_bytes());
                let base = join_path(hypr.as_slice(), instance.as_slice());
                Some(
                    HyprlandPaths {
                        control: join_path(base.as_slice(), ".socket.sock".as_bytes()),
                        events: join_path(base.as_slice(), ".socket2.sock".as_bytes()),
                    },
                )
            },
            _ => None,
        }
    }
}

/// A line of the event stream says that another window is focused: the name in
/// front of its first `>>` is `activewindow` or `activewindowv2`.
pub open spec fn announces_focus(line: Seq<char>) -> bool {
    ||| "activewindow>>"@.is_prefix_of(line)
    ||| "activewindowv2>>"@.is_prefix_of(line)
}

/// Whether a line of the event stream says that another window is focused.
pub fn is_focus_event(line: &str) -> (r: bool)
    ensures
        r == announces_focus(line@),
{
    let chars = text::chars_of(line);
    text::begins_with(chars.as_slice(), "activewindow>>") || text::begins_with(
        chars.as_slice(),
        "activewindowv2>>",
    )
}

/// Why the answer to a focus query is of no use.
#[derive(Debug, Clone, Copy, PartialEq, Eq, Structural)]
pub enum FocusError {
    InvalidJson,
    NotAnObject,
}

impl FocusError {
    /// The error in words.
    pub open spec fn words(self) -> Seq<char> {
        match self {
            FocusError::InvalidJson => "invalid Hyprland activewindow JSON"@,
            FocusError::NotAnObject => "Hyprland activewindow response is not an object"@,
        }
    }

    /// The error in words.
    pub fn message(self) -> (message: String)
        ensures
            message@ == self.words(),
    {
        match self {
            FocusError::InvalidJson => "invalid Hyprland activewindow JSON".to_owned(),
            FocusError::NotAnObject => "Hyprland activewindow response is not an object".to_owned(),
        }
    }
}

/// A text member of the record, empty if there is none.
pub open spec fn field(record: JsonView, name: Seq<char>) -> Seq<char> {
    match record.text_member(name) {
        Some(text) => text,
        None => Seq::empty(),
    }
}

/// The window that an `activewindow` record describes. No address, or the null
/// address, means that no window is focused.
pub open spec fn described_window(record: JsonView) -> Result<Option<FocusedAppView>, FocusError> {
    if record !is Object {
        Err(FocusError::NotAnObject)
    } else if field(record, "address"@).len() == 0 || field(record, "address"@) == "0x0"@ {
        Ok(None)
    } else {
        Ok(
            Some(
                FocusedAppView {
                    address: field(record, "address"@),
                    app_id: if field(record, "class"@).len() == 0 {
                        field(record, "initialClass"@)
                    } else {
                        field(record, "class"@)
                    },
                    initial_app_id: field(record, "initialClass"@),
                    title: field(record, "title"@),
                    pid: match record.member("pid"@) {
                        Some(JsonView::Number(Some(pid))) if pid <= u32::MAX => Some(pid as u32),
                        _ => None,
                    },
                },
            ),
        )
    }
}

/// The focused window or the error, in mathematical terms.
pub open spec fn answer_view(answer: Result<Option<FocusedApp>, FocusError>) -> Result<
    Option<FocusedAppView>,
    FocusError,
> {
    match answer {
        Ok(app) => Ok(focus_view(app)),
        Err(error) => Err(error),
    }
}

/// The window that an `activewindow` record describes.
pub fn window_of(record: &Json) -> (answer: Result<Option<FocusedApp>, FocusError>)
    ensures
        answer_view(answer) == described_window(record@),
{
    match record {
        Json::Object(_) => {},
        _ => {
            return Err(FocusError::NotAnObject);
        },
    }
    let address = string_field(record, "address");
    if address.as_str().is_empty() || text::same_text(address.as_str(), "0x0") {
        return Ok(None);
    }
    let mut app_id = string_field(record, "class");
    let initial_app_id = string_field(record, "initialClass");
    if app_id.as_str().is_empty() {
        app_id = initial_app_id.clone();
    }
    let title = string_field(record, "title");
    let pid: Option<u32> = match record.get("pid") {
        Some(pid) => match pid.as_u64() {
            Some(pid) if pid <= u32::MAX as u64 => Some(pid as u32),
            _ => None,
        },
        None => None,
    };
    Ok(Some(FocusedApp { address, app_id, initial_app_id, title, pid }))
}

/// A text member of the record, empty if there is none.
fn string_field(record: &Json, name: &str) -> (text: String)
    ensures
        text@ == field(record@, name@),
{
    match record.text_member(name) {
        Some(text) => text.to_owned(),
        None => String::new(),
    }
}

/// The window that the compositor's answer describes.
pub fn parse_active_window(response: &str) -> (answer: Result<Option<FocusedApp>, FocusError>)
    ensures
        answer_view(answer) == (match json_document(response@) {
            Some(record) => described_window(record),
            None => Err(FocusError::InvalidJson),
        }),
{
    match parse_json(response) {
        Some(record) => window_of(&record),
        None => Err(FocusError::InvalidJson),
    }
}

} // verus!
