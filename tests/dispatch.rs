use sway_update::dispatch::{
    event_shape, handle_event, handle_response, reply_shape, request_frame, workspace_infos,
    EventLoop, EventOutcome, Next, Payload, PayloadShape, Phase, SinkUpdate, SinkValue,
};
use sway_update::error::{EventError, EventLoopError, RequestError, ResponseDeserializeError};
use sway_update::event::{EventType, ModeEvent, WindowEvent};
use sway_update::frame::encode_frame;
use sway_update::message::MessageType;
use sway_update::objects::{Window, Workspace};

fn ws(num: usize, name: &str, focused: bool, visible: bool) -> Workspace {
    Workspace {
        id: 100 + num,
        num,
        name: name.to_string(),
        output: "eDP-1".to_string(),
        focused,
        urgent: false,
        visible: Some(visible),
    }
}

fn json_error() -> serde_json::Error {
    serde_json::from_str::<bool>("{\"change\":").unwrap_err()
}

fn window(name: Option<&str>) -> WindowEvent {
    WindowEvent {
        change: "focus".to_string(),
        container: Window {
            id: 7,
            name: name.map(|s| s.to_string()),
            focused: true,
            urgent: false,
            pid: Some(42),
            app_id: None,
        },
    }
}

fn text_of(u: &SinkUpdate) -> (&str, String) {
    match &u.value {
        SinkValue::Text(t) => (u.var.as_str(), t.clone()),
        SinkValue::Flag(b) => (u.var.as_str(), b.to_string()),
        SinkValue::Workspaces(t) => (u.var.as_str(), format!("{} entries", t.len())),
    }
}

#[test]
fn table_fills_missing_slots_with_placeholders() {
    let listing = vec![ws(2, "2: web", true, true), ws(5, "5", false, false)];
    let t = workspace_infos(&listing);
    assert_eq!(t.len(), 8);
    for (i, e) in t.iter().enumerate() {
        assert_eq!(e.num, i + 1);
    }
    assert_eq!(t[1].name, "2: web");
    assert!(t[1].active && t[1].focused && t[1].visible && !t[1].urgent);
    assert_eq!(t[4].name, "5");
    assert!(t[4].active && !t[4].focused && !t[4].visible);
    for i in [0usize, 2, 3, 5, 6, 7] {
        assert_eq!(t[i].name, (i + 1).to_string());
        assert!(!t[i].active && !t[i].focused && !t[i].urgent && !t[i].visible);
    }
}

#[test]
fn table_of_empty_listing_is_all_placeholders() {
    let t = workspace_infos(&Vec::new());
    assert_eq!(t.len(), 8);
    assert!(t.iter().all(|e| !e.active));
    assert_eq!(t[7].name, "8");
}

#[test]
fn table_takes_last_of_equal_numbers_and_ignores_others() {
    let listing = vec![ws(3, "first", false, true), ws(9, "nine", true, true), ws(3, "second", true, false)];
    let t = workspace_infos(&listing);
    assert_eq!(t.len(), 8);
    assert_eq!(t[2].name, "second");
    assert!(t[2].focused && !t[2].visible && t[2].active);
    assert!(t.iter().all(|e| e.name != "nine"));
}

#[test]
fn workspaces_reply_sets_ws_info() {
    let u = handle_response(
        MessageType::GetWorkspaces,
        Ok(Payload::Workspaces(vec![ws(2, "2", false, true), ws(5, "5", true, true)])),
    )
    .unwrap();
    assert_eq!(u.len(), 1);
    assert_eq!(u[0].var, "ws_info");
    match &u[0].value {
        SinkValue::Workspaces(t) => {
            assert_eq!(t.len(), 8);
            assert!(t[1].active && t[4].active && !t[0].active);
        }
        other => panic!("unexpected {other:?}"),
    }
}

#[test]
fn refused_subscription_is_an_error() {
    let r = handle_response(MessageType::Subscribe, Ok(Payload::Subscription(false)));
    assert!(matches!(r, Err(RequestError::UnsuccessfulSubscription)));
    let r = handle_response(MessageType::Subscribe, Ok(Payload::Subscription(true)));
    assert!(r.unwrap().is_empty());
}

#[test]
fn malformed_reply_is_a_deserialize_error() {
    let r = handle_response(MessageType::Subscribe, Err(json_error()));
    assert!(matches!(r, Err(RequestError::Deserialize(_))));
    let r = handle_response(MessageType::GetWorkspaces, Err(json_error()));
    assert!(matches!(r, Err(RequestError::Deserialize(_))));
}

#[test]
fn other_replies_do_nothing() {
    assert!(handle_response(MessageType::GetTree, Ok(Payload::Nothing)).unwrap().is_empty());
    assert!(handle_response(MessageType::RunCommands, Ok(Payload::Nothing)).unwrap().is_empty());
}

#[test]
fn shapes_follow_the_kind() {
    assert_eq!(reply_shape(MessageType::GetWorkspaces), PayloadShape::Workspaces);
    assert_eq!(reply_shape(MessageType::Subscribe), PayloadShape::Subscription);
    assert_eq!(reply_shape(MessageType::GetVersion), PayloadShape::Nothing);
    assert_eq!(event_shape(EventType::Window), PayloadShape::Window);
    assert_eq!(event_shape(EventType::Mode), PayloadShape::Mode);
    assert_eq!(event_shape(EventType::Workspace), PayloadShape::Nothing);
    assert_eq!(event_shape(EventType::Shutdown), PayloadShape::Nothing);
}

#[test]
fn window_event_sets_active_window() {
    match handle_event(EventType::Window, Ok(Payload::Window(window(Some("Terminal"))))).unwrap() {
        EventOutcome::Updates(u) => {
            assert_eq!(u.len(), 1);
            assert_eq!(text_of(&u[0]), ("active_window", "Terminal".to_string()));
        }
        other => panic!("unexpected {other:?}"),
    }
    match handle_event(EventType::Window, Ok(Payload::Window(window(None)))).unwrap() {
        EventOutcome::Updates(u) => assert!(u.is_empty()),
        other => panic!("unexpected {other:?}"),
    }
}

#[test]
fn mode_event_sets_binding_variables() {
    let m = ModeEvent { change: "resize".to_string(), pango_markup: false };
    match handle_event(EventType::Mode, Ok(Payload::Mode(m))).unwrap() {
        EventOutcome::Updates(u) => {
            assert_eq!(u.len(), 2);
            assert_eq!(text_of(&u[0]), ("binding_mode", "resize".to_string()));
            assert_eq!(text_of(&u[1]), ("binding_active", "true".to_string()));
        }
        other => panic!("unexpected {other:?}"),
    }
    let m = ModeEvent { change: "default".to_string(), pango_markup: true };
    match handle_event(EventType::Mode, Ok(Payload::Mode(m))).unwrap() {
        EventOutcome::Updates(u) => {
            assert_eq!(u.len(), 1);
            assert_eq!(text_of(&u[0]), ("binding_active", "false".to_string()));
        }
        other => panic!("unexpected {other:?}"),
    }
}

#[test]
fn workspace_and_shutdown_and_other_events() {
    assert!(matches!(
        handle_event(EventType::Workspace, Ok(Payload::Nothing)),
        Ok(EventOutcome::Request(MessageType::GetWorkspaces))
    ));
    assert!(matches!(handle_event(EventType::Shutdown, Ok(Payload::Nothing)), Ok(EventOutcome::Shutdown)));
    match handle_event(EventType::Tick, Ok(Payload::Nothing)).unwrap() {
        EventOutcome::Updates(u) => assert!(u.is_empty()),
        other => panic!("unexpected {other:?}"),
    }
    assert!(matches!(
        handle_event(EventType::Window, Err(json_error())),
        Err(EventError::DeserializePayload(_))
    ));
}

#[test]
fn loop_starts_by_subscribing() {
    let (l, next) = EventLoop::start("[\"window\",\"workspace\"]");
    assert_eq!(l.phase, Phase::Subscribing);
    assert_eq!(l.awaited(), MessageType::Subscribe);
    match next {
        Next::Send { kind, frame } => {
            assert_eq!(kind, MessageType::Subscribe);
            assert_eq!(frame, encode_frame(2, b"[\"window\",\"workspace\"]"));
        }
        other => panic!("unexpected {other:?}"),
    }
}

#[test]
fn refused_subscription_ends_the_loop() {
    let (mut l, _) = EventLoop::start("[\"mode\"]");
    let s = l.on_reply(Ok(Ok(Payload::Subscription(false))));
    assert_eq!(l.phase, Phase::Finished);
    assert!(matches!(
        s.next,
        Next::Finish(Err(EventLoopError::Subscription(RequestError::UnsuccessfulSubscription)))
    ));
    let (mut l, _) = EventLoop::start("[\"mode\"]");
    let s = l.on_reply(Err(RequestError::Read(ResponseDeserializeError::InvalidMessageType(77))));
    assert_eq!(l.phase, Phase::Finished);
    assert!(matches!(s.next, Next::Finish(Err(EventLoopError::Subscription(RequestError::Read(_))))));
}

#[test]
fn shutdown_as_first_event_ends_cleanly() {
    let (mut l, _) = EventLoop::start("[\"shutdown\"]");
    let s = l.on_reply(Ok(Ok(Payload::Subscription(true))));
    assert_eq!(l.phase, Phase::Listening);
    assert!(matches!(s.next, Next::ReadEvent));
    let s = l.on_event(Ok((EventType::Shutdown, Ok(Payload::Nothing))));
    assert_eq!(l.phase, Phase::Finished);
    assert!(matches!(s.next, Next::Finish(Ok(()))));
    assert!(s.updates.is_empty() && s.warning.is_none());
}

#[test]
fn malformed_window_event_does_not_stop_the_loop() {
    let mut l = EventLoop { phase: Phase::Listening };
    let s = l.on_event(Ok((EventType::Window, Err(json_error()))));
    assert_eq!(l.phase, Phase::Listening);
    assert!(matches!(s.warning, Some(EventError::DeserializePayload(_))));
    assert!(matches!(s.next, Next::ReadEvent));
    let s = l.on_event(Ok((EventType::Window, Ok(Payload::Window(window(Some("editor")))))));
    assert_eq!(l.phase, Phase::Listening);
    assert_eq!(s.updates.len(), 1);
    assert_eq!(text_of(&s.updates[0]), ("active_window", "editor".to_string()));
}

#[test]
fn read_failure_ends_the_loop() {
    let mut l = EventLoop { phase: Phase::Listening };
    let s = l.on_event(Err(ResponseDeserializeError::InvalidEventType(5)));
    assert_eq!(l.phase, Phase::Finished);
    assert!(matches!(s.next, Next::Finish(Err(EventLoopError::Read(ResponseDeserializeError::InvalidEventType(5))))));
}

#[test]
fn workspace_event_refreshes_the_table() {
    let mut l = EventLoop { phase: Phase::Listening };
    let s = l.on_event(Ok((EventType::Workspace, Ok(Payload::Nothing))));
    assert_eq!(l.phase, Phase::Refreshing);
    assert_eq!(l.awaited(), MessageType::GetWorkspaces);
    match s.next {
        Next::Send { kind, frame } => {
            assert_eq!(kind, MessageType::GetWorkspaces);
            assert_eq!(frame, request_frame(MessageType::GetWorkspaces, b""));
            assert_eq!(frame.len(), 14);
        }
        other => panic!("unexpected {other:?}"),
    }
    let s = l.on_reply(Ok(Ok(Payload::Workspaces(vec![ws(1, "1", true, true)]))));
    assert_eq!(l.phase, Phase::Listening);
    assert_eq!(s.updates.len(), 1);
    assert_eq!(s.updates[0].var, "ws_info");
    assert!(matches!(s.next, Next::ReadEvent));
}

#[test]
fn failed_refresh_is_only_a_warning() {
    let mut l = EventLoop { phase: Phase::Refreshing };
    let s = l.on_reply(Ok(Err(json_error())));
    assert_eq!(l.phase, Phase::Listening);
    assert!(matches!(s.warning, Some(EventError::Request(RequestError::Deserialize(_)))));
    assert!(matches!(s.next, Next::ReadEvent));
}
