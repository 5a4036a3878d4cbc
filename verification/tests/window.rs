use taocket::events::{Payload, WindowControl, WindowControlMessage};
use taocket::ipc::build_post_message_script;
use taocket::taocket_context::{build_custom_event_script, build_navigate_script, ScriptEvent};
use taocket::taocket_window::{
    build_callback_script, handle_internal_window_event, handle_ipc_message,
    send_window_state_response, InternalStep, InternalWindowEvent, IpcRoute, WindowAttrs,
    WindowCommand, WindowState,
};
use taocket::windowcontrol::{handle_window_control_internal, ControlReply, ControlStep};

#[test]
fn test_imsg_creation() {
    let msg = WindowControlMessage::new(1, WindowControl::Maximize);
    assert_eq!(msg.payload.id, 1);
    assert_eq!(msg.payload.event, WindowControl::Maximize);
    assert!(msg.payload.value.is_none());

    let mut object = serde_json::Map::new();
    object.insert("reason".to_string(), serde_json::Value::String("test".to_string()));
    let msg_with_value =
        WindowControlMessage::with_value(2, WindowControl::Close, serde_json::Value::Object(object));
    assert_eq!(msg_with_value.payload.id, 2);
    assert!(msg_with_value.payload.value.is_some());
}

#[test]
fn message_with_value_keeps_the_value() {
    let message = WindowControlMessage::with_value(3, 9u8, serde_json::Value::Bool(true));
    assert_eq!(message.payload.event, 9);
    assert_eq!(message.payload.value, Some(serde_json::Value::Bool(true)));
}

#[test]
fn script_events_as_scripts() {
    assert_eq!(ScriptEvent::Raw("f()".to_string()).script(), Some("f()".to_string()));
    assert_eq!(
        ScriptEvent::CustomEvent { name: "tick".to_string(), detail: "{\"n\":1}".to_string() }
            .script(),
        Some("window.dispatchEvent(new CustomEvent('tick', { detail: {\"n\":1} }));".to_string())
    );
    assert_eq!(ScriptEvent::Reload.script(), Some("window.location.reload();".to_string()));
    assert_eq!(
        ScriptEvent::Navigate("https://example.org".to_string()).script(),
        Some("window.location.href = 'https://example.org';".to_string())
    );
    assert_eq!(ScriptEvent::ToggleDevTools.script(), None);
}

#[test]
fn script_builders() {
    assert_eq!(
        build_custom_event_script("a", "1"),
        "window.dispatchEvent(new CustomEvent('a', { detail: 1 }));"
    );
    assert_eq!(build_custom_event_script("", ""), "window.dispatchEvent(new CustomEvent('', { detail:  }));");
    assert_eq!(build_navigate_script("x"), "window.location.href = 'x';");
    assert_eq!(build_post_message_script("{\"id\":1}"), "window.postMessage({\"id\":1})");
    assert_eq!(
        build_callback_script("Move-response", "null"),
        "(() => { const event = new CustomEvent(\"Move-response\", { detail: null }); window.dispatchEvent(event); })();"
    );
}

#[test]
fn internal_event_names() {
    let events = [
        (InternalWindowEvent::Minimize, "Minimize"),
        (InternalWindowEvent::Maximize, "Maximize"),
        (InternalWindowEvent::UnMaximize, "UnMaximize"),
        (InternalWindowEvent::Close, "Close"),
        (InternalWindowEvent::Focus, "Focus"),
        (InternalWindowEvent::IsFocus, "IsFocus"),
        (InternalWindowEvent::Move, "Move"),
        (InternalWindowEvent::IsMaximized, "IsMaximized"),
        (InternalWindowEvent::IsMinimized, "IsMinimized"),
    ];
    for (event, name) in events {
        assert_eq!(event.as_str(), name);
        assert_eq!(event.to_str_response(), format!("{}-response", name));
    }
}

#[test]
fn internal_events_as_steps() {
    let window = WindowState { maximized: true, minimized: false, focused: true };
    let other = WindowState { maximized: false, minimized: true, focused: false };
    assert_eq!(
        handle_internal_window_event(InternalWindowEvent::Minimize, window),
        InternalStep::Apply(WindowCommand::SetMinimized(true))
    );
    assert_eq!(
        handle_internal_window_event(InternalWindowEvent::Maximize, window),
        InternalStep::Apply(WindowCommand::SetMaximized(false))
    );
    assert_eq!(
        handle_internal_window_event(InternalWindowEvent::Maximize, other),
        InternalStep::Apply(WindowCommand::SetMaximized(true))
    );
    assert_eq!(
        handle_internal_window_event(InternalWindowEvent::UnMaximize, window),
        InternalStep::Apply(WindowCommand::SetMaximized(false))
    );
    assert_eq!(handle_internal_window_event(InternalWindowEvent::Close, window), InternalStep::Close);
    assert_eq!(
        handle_internal_window_event(InternalWindowEvent::Move, window),
        InternalStep::Apply(WindowCommand::DragWindow)
    );
    assert_eq!(
        handle_internal_window_event(InternalWindowEvent::Focus, window),
        InternalStep::Apply(WindowCommand::SetFocus)
    );
}

#[test]
fn queries_report_and_do_not_terminate() {
    let window = WindowState { maximized: true, minimized: false, focused: true };
    assert_eq!(
        handle_internal_window_event(InternalWindowEvent::IsMaximized, window),
        InternalStep::Report { event: InternalWindowEvent::IsMaximized, state: true }
    );
    assert_eq!(
        handle_internal_window_event(InternalWindowEvent::IsMinimized, window),
        InternalStep::Report { event: InternalWindowEvent::IsMinimized, state: false }
    );
    assert_eq!(
        handle_internal_window_event(InternalWindowEvent::IsFocus, window),
        InternalStep::Report { event: InternalWindowEvent::IsFocus, state: true }
    );
}

#[test]
fn window_state_answer_is_the_serialised_payload() {
    let mut object = serde_json::Map::new();
    object.insert("type".to_string(), serde_json::Value::String("IsMaximized".to_string()));
    object.insert("value".to_string(), serde_json::Value::Bool(true));
    let json = serde_json::to_string(&serde_json::Value::Object(object)).expect("plain JSON");
    assert_eq!(json, "{\"type\":\"IsMaximized\",\"value\":true}");
    assert_eq!(
        send_window_state_response(InternalWindowEvent::IsMaximized, true),
        build_callback_script("IsMaximized-response", &json)
    );
    assert_eq!(
        send_window_state_response(InternalWindowEvent::IsFocus, false),
        "(() => { const event = new CustomEvent(\"IsFocus-response\", { detail: {\"type\":\"IsFocus\",\"value\":false} }); window.dispatchEvent(event); })();"
    );
}

fn call<T>(id: i32, event: T) -> Payload<T> {
    Payload { id, event, value: None }
}

#[test]
fn ipc_calls_go_to_the_built_in_handler_first() {
    let route = handle_ipc_message(
        Some(call(1, InternalWindowEvent::Close)),
        true,
        Some(call(1, "user".to_string())),
    );
    assert!(matches!(route, IpcRoute::Internal(payload) if payload.event == InternalWindowEvent::Close));

    let not_ready = handle_ipc_message(
        Some(call(1, InternalWindowEvent::Close)),
        false,
        Some(call(1, "user".to_string())),
    );
    assert!(matches!(not_ready, IpcRoute::Dropped));

    let user = handle_ipc_message::<InternalWindowEvent, String>(
        None,
        false,
        Some(call(2, "user".to_string())),
    );
    assert!(matches!(user, IpcRoute::User(payload) if payload.id == 2 && payload.event == "user"));

    let malformed = handle_ipc_message::<InternalWindowEvent, String>(None, true, None);
    assert!(matches!(malformed, IpcRoute::Dropped));
}

#[test]
fn window_control_calls_as_steps() {
    let step = |event| handle_window_control_internal(&call(4, event));
    assert_eq!(
        step(WindowControl::Minimize),
        ControlStep {
            id: 4,
            command: Some(WindowCommand::SetMinimized(true)),
            close: false,
            reply: None
        }
    );
    assert_eq!(
        step(WindowControl::Maximize).command,
        Some(WindowCommand::SetMaximized(true))
    );
    assert_eq!(
        step(WindowControl::UnMaximize).command,
        Some(WindowCommand::SetMaximized(false))
    );
    assert_eq!(
        step(WindowControl::Close),
        ControlStep { id: 4, command: None, close: true, reply: None }
    );
    assert_eq!(
        step(WindowControl::GetSize),
        ControlStep { id: 4, command: None, close: false, reply: Some(ControlReply::Size) }
    );
    assert_eq!(
        step(WindowControl::GetPosition),
        ControlStep { id: 4, command: None, close: false, reply: Some(ControlReply::Position) }
    );
    assert_eq!(
        step(WindowControl::SetSize { width: 800, height: 600 }),
        ControlStep {
            id: 4,
            command: Some(WindowCommand::SetInnerSize { width: 800, height: 600 }),
            close: false,
            reply: Some(ControlReply::Success)
        }
    );
    assert_eq!(
        step(WindowControl::SetPosition { x: -5, y: 10 }),
        ControlStep {
            id: 4,
            command: Some(WindowCommand::SetOuterPosition { x: -5, y: 10 }),
            close: false,
            reply: Some(ControlReply::Success)
        }
    );
}

#[test]
fn window_attrs_follow_the_build() {
    let development = WindowAttrs::from_config(true, "http://localhost:5173", "./frontend", true, 1818);
    assert_eq!(development.dev_url, Some("http://localhost:5173".to_string()));
    assert_eq!(development.build_path, "./frontend");
    assert!(development.with_devtools);
    assert_eq!(development.websocket_port, 1818);

    let release = WindowAttrs::from_config(false, "http://localhost:5173", "dist", false, 9000);
    assert_eq!(release.dev_url, None);
    assert_eq!(release.build_path, "dist");
    assert!(!release.with_devtools);
    assert_eq!(release.websocket_port, 9000);
}
