use dualsense::focus::{
    active_window_request, is_focus_event, parse_active_window, window_of, FocusError,
    FocusMonitor, FocusedApp, HyprlandPaths, StreamEvent,
};
use dualsense::json::Json;

fn paths() -> Option<HyprlandPaths> {
    HyprlandPaths::from_environment(&Some(b"/run/user/1000".to_vec()), &Some(b"abc".to_vec()))
}

fn monitor() -> FocusMonitor {
    FocusMonitor::start(&paths(), true, true).unwrap()
}

fn firefox() -> FocusedApp {
    FocusedApp {
        address: "0x123".to_owned(),
        app_id: "firefox".to_owned(),
        initial_app_id: "firefox".to_owned(),
        title: "Example".to_owned(),
        pid: Some(42),
    }
}

#[test]
fn parses_hyprland_active_window_identity() {
    let window = parse_active_window(
        r#"{
                "address": "0x123",
                "class": "firefox",
                "title": "Example",
                "initialClass": "firefox",
                "pid": 42
            }"#,
    )
    .unwrap()
    .unwrap();

    assert_eq!(window.address, "0x123");
    assert_eq!(window.app_id, "firefox");
    assert_eq!(window.initial_app_id, "firefox");
    assert_eq!(window.title, "Example");
    assert_eq!(window.pid, Some(42));
}

#[test]
fn empty_active_window_means_no_focused_app() {
    assert_eq!(parse_active_window("{}").unwrap(), None);
}

#[test]
fn only_hyprland_focus_events_trigger_refreshes() {
    assert!(is_focus_event("activewindowv2>>0x123\n"));
    assert!(is_focus_event("activewindow>>firefox,Example\n"));
    assert!(!is_focus_event("workspace>>1\n"));
}

#[test]
fn focus_event_names_must_match_whole() {
    assert!(is_focus_event("activewindow>>"));
    assert!(is_focus_event("activewindow>>>x"));
    assert!(!is_focus_event("activewindow>x"));
    assert!(!is_focus_event("activewindowv3>>x"));
    assert!(!is_focus_event(" activewindow>>x"));
    assert!(!is_focus_event("openwindow>>activewindow>>x"));
    assert!(!is_focus_event(""));
}

#[test]
fn null_address_means_no_focused_app() {
    assert_eq!(
        parse_active_window(r#"{"address": "0x0", "class": "x"}"#).unwrap(),
        None
    );
    assert_eq!(
        parse_active_window(r#"{"address": "", "class": "x"}"#).unwrap(),
        None
    );
    assert_eq!(parse_active_window(r#"{"address": 5}"#).unwrap(), None);
}

#[test]
fn missing_class_falls_back_to_initial_class() {
    let window = parse_active_window(r#"{"address":"0x1","initialClass":"kitty"}"#)
        .unwrap()
        .unwrap();
    assert_eq!(window.app_id, "kitty");
    assert_eq!(window.initial_app_id, "kitty");
    assert_eq!(window.title, "");
    assert_eq!(window.pid, None);

    let window =
        parse_active_window(r#"{"address":"0x1","class":"foot","initialClass":"kitty"}"#)
            .unwrap()
            .unwrap();
    assert_eq!(window.app_id, "foot");
    assert_eq!(window.initial_app_id, "kitty");
}

#[test]
fn only_pids_of_32_bits_are_kept() {
    let pid = |text: &str| {
        parse_active_window(&format!(r#"{{"address":"0x1","pid":{text}}}"#))
            .unwrap()
            .unwrap()
            .pid
    };
    assert_eq!(pid("4294967295"), Some(u32::MAX));
    assert_eq!(pid("4294967296"), None);
    assert_eq!(pid("-1"), None);
    assert_eq!(pid("1.5"), None);
    assert_eq!(pid("\"7\""), None);
}

#[test]
fn unusable_answers_are_told_apart() {
    assert_eq!(parse_active_window("{"), Err(FocusError::InvalidJson));
    assert_eq!(parse_active_window(""), Err(FocusError::InvalidJson));
    assert_eq!(parse_active_window("[]"), Err(FocusError::NotAnObject));
    assert_eq!(parse_active_window("\"x\""), Err(FocusError::NotAnObject));
    assert_eq!(
        FocusError::InvalidJson.message(),
        "invalid Hyprland activewindow JSON"
    );
    assert_eq!(
        FocusError::NotAnObject.message(),
        "Hyprland activewindow response is not an object"
    );
}

#[test]
fn last_member_of_one_name_counts() {
    let record = Json::Object(vec![
        ("address".to_owned(), Json::Text("0x1".to_owned())),
        ("address".to_owned(), Json::Text("0x2".to_owned())),
    ]);
    assert_eq!(window_of(&record).unwrap().unwrap().address, "0x2");
}

#[test]
fn socket_paths_come_from_the_environment() {
    let paths = paths().unwrap();
    assert_eq!(paths.control, b"/run/user/1000/hypr/abc/.socket.sock");
    assert_eq!(paths.events, b"/run/user/1000/hypr/abc/.socket2.sock");
    assert_eq!(
        HyprlandPaths::from_environment(&None, &Some(b"abc".to_vec())),
        None
    );
    assert_eq!(
        HyprlandPaths::from_environment(&Some(b"/run".to_vec()), &None),
        None
    );
    assert_eq!(
        HyprlandPaths::from_environment(&Some(b"/run".to_vec()), &Some(Vec::new())),
        None
    );
}

#[test]
fn monitor_needs_both_sockets() {
    assert!(FocusMonitor::start(&None, true, true).is_none());
    assert!(FocusMonitor::start(&paths(), false, true).is_none());
    assert!(FocusMonitor::start(&paths(), true, false).is_none());
    assert_eq!(monitor().current(), None);
}

#[test]
fn an_outage_is_complained_about_once() {
    let mut monitor = monitor();
    let first = monitor.step(StreamEvent::ConnectionFailed("refused".to_owned()));
    assert_eq!(
        first.warning.as_deref(),
        Some("Focused app detection unavailable: refused")
    );
    assert!(first.reconnect && !first.refresh);
    let second = monitor.step(StreamEvent::ConnectionFailed("refused".to_owned()));
    assert_eq!(second.warning, None);
    assert!(second.reconnect);
    let connected = monitor.step(StreamEvent::Connected);
    assert!(connected.refresh && !connected.reconnect);
    let third = monitor.step(StreamEvent::ConnectionFailed("gone".to_owned()));
    assert_eq!(
        third.warning.as_deref(),
        Some("Focused app detection unavailable: gone")
    );
}

#[test]
fn stream_lines_refresh_and_ends_reconnect() {
    let mut monitor = monitor();
    assert!(monitor.step(StreamEvent::Line("activewindow>>a,b\n".to_owned())).refresh);
    assert!(!monitor.step(StreamEvent::Line("workspace>>1\n".to_owned())).refresh);
    assert!(monitor.step(StreamEvent::Ended).reconnect);
    let failed = monitor.step(StreamEvent::Failed("reset".to_owned()));
    assert!(failed.reconnect);
    assert_eq!(
        failed.warning.as_deref(),
        Some("Focused app event stream stopped: reset")
    );
}

#[test]
fn failed_queries_keep_the_snapshot() {
    let mut monitor = monitor();
    assert_eq!(monitor.current(), None);
    assert_eq!(monitor.refresh(Ok(Some(firefox()))), None);
    assert_eq!(monitor.current(), Some(firefox()));
    monitor.step(StreamEvent::Ended);
    monitor.step(StreamEvent::Connected);
    assert_eq!(monitor.current(), Some(firefox()));
    assert_eq!(
        monitor.refresh(Err("timed out".to_owned())).as_deref(),
        Some("Could not query Hyprland focused app: timed out")
    );
    assert_eq!(monitor.current(), Some(firefox()));
    assert_eq!(monitor.refresh(Ok(None)), None);
    assert_eq!(monitor.current(), None);
    assert_eq!(active_window_request(), "j/activewindow");
}
