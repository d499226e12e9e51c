use lx::rebuild::Rebuild;
use lx::reload::{
    frame_reload, handle, reload_message, serve_connection, CloseFrame, ConnectionAction,
    ConnectionEvent, ConnectionState, Frame, WebSocketError, WebSocketState,
};

fn success(paths: &[&str]) -> Rebuild {
    Rebuild::Success { paths: paths.iter().map(|s| s.to_string()).collect() }
}

#[test]
fn reload_message_is_json() {
    assert_eq!(reload_message(&vec!["x.md".to_string()]), "{\"type\":\"reload\",\"paths\":[\"x.md\"]}");
    assert_eq!(reload_message(&Vec::new()), "{\"type\":\"reload\",\"paths\":[]}");
    assert_eq!(
        reload_message(&vec!["a \"b\".md".to_string(), "c\\d".to_string()]),
        "{\"type\":\"reload\",\"paths\":[\"a \\\"b\\\".md\",\"c\\\\d\"]}"
    );
    let parsed: serde_json::Value =
        serde_json::from_str(&reload_message(&vec!["content/é.md".to_string()])).unwrap();
    assert_eq!(parsed["type"], "reload");
    assert_eq!(parsed["paths"][0], "content/é.md");
}

#[test]
fn framing_wraps_the_encoded_paths() {
    assert_eq!(frame_reload("[]"), "{\"type\":\"reload\",\"paths\":[]}");
}

#[test]
fn text_and_binary_frames_are_violations() {
    assert!(matches!(
        handle(Ok(Frame::Text("hi".to_string()))),
        Err(WebSocketError::UnexpectedString(content)) if content == "hi"
    ));
    assert!(matches!(
        handle(Ok(Frame::Binary(vec![1, 2, 255]))),
        Err(WebSocketError::UnexpectedBytes(content)) if content == vec![1, 2, 255]
    ));
    assert!(matches!(
        handle(Err("reset".to_string())),
        Err(WebSocketError::Receive { source }) if source == "reset"
    ));
}

#[test]
fn control_frames_are_in_order() {
    assert!(matches!(handle(Ok(Frame::Ping(vec![1]))), Ok(WebSocketState::Open)));
    assert!(matches!(handle(Ok(Frame::Pong(Vec::new()))), Ok(WebSocketState::Open)));
    assert!(matches!(
        handle(Ok(Frame::Close(None))),
        Ok(WebSocketState::Closed { reason: None })
    ));
    assert!(matches!(
        handle(Ok(Frame::Close(Some(CloseFrame { code: 1000, reason: "bye".to_string() })))),
        Ok(WebSocketState::Closed { reason: Some(reason) }) if reason == "Reason: bye;Code: 1000"
    ));
    assert!(matches!(
        handle(Ok(Frame::Close(Some(CloseFrame { code: 1001, reason: String::new() })))),
        Ok(WebSocketState::Closed { reason: Some(reason) }) if reason == "Code: 1001"
    ));
}

#[test]
fn states_and_errors_read_well() {
    assert_eq!(WebSocketState::Open.describe(), "WebSocket state: open");
    assert_eq!(
        WebSocketState::Closed { reason: Some("Code: 1000".to_string()) }.describe(),
        "WebSocket state: closed. Cause:\nCode: 1000"
    );
    assert_eq!(WebSocketState::Closed { reason: None }.describe(), "WebSocket state: closed.");
    assert_eq!(
        WebSocketError::Receive { source: "reset".to_string() }.describe(),
        "Could not receive WebSocket message:\nreset"
    );
    assert_eq!(
        WebSocketError::UnexpectedString("hi".to_string()).describe(),
        "Unexpectedly received string WebSocket message with content:\nhi"
    );
    assert_eq!(
        WebSocketError::UnexpectedBytes(vec![1, 20, 255]).describe(),
        "Unexpectedly received binary WebSocket message with bytes:\n[1, 20, 255]"
    );
    assert_eq!(
        WebSocketError::UnexpectedBytes(Vec::new()).describe(),
        "Unexpectedly received binary WebSocket message with bytes:\n[]"
    );
}

#[test]
fn a_connected_browser_gets_one_reload_per_success() {
    let (state, action) =
        serve_connection(ConnectionState::Open, ConnectionEvent::Published(success(&["x.md"])));
    assert_eq!(state, ConnectionState::Open);
    assert!(matches!(
        action,
        ConnectionAction::Send { text } if text == "{\"type\":\"reload\",\"paths\":[\"x.md\"]}"
    ));
}

#[test]
fn failures_and_lag_are_not_forwarded() {
    let (state, action) = serve_connection(
        ConnectionState::Open,
        ConnectionEvent::Published(Rebuild::Failure { cause: "broken".to_string() }),
    );
    assert_eq!(state, ConnectionState::Open);
    assert!(matches!(action, ConnectionAction::Wait));
    let (state, action) = serve_connection(state, ConnectionEvent::Lagged { skipped: 4 });
    assert_eq!(state, ConnectionState::Open);
    assert!(matches!(action, ConnectionAction::Wait));
}

#[test]
fn a_violation_ends_only_its_own_connection() {
    let mut connections = vec![ConnectionState::Open, ConnectionState::Open, ConnectionState::Open];
    let (state, action) = serve_connection(
        connections[1],
        ConnectionEvent::Received(Ok(Frame::Text("hello".to_string()))),
    );
    assert!(matches!(action, ConnectionAction::End));
    connections[1] = state;
    assert_eq!(connections, vec![ConnectionState::Open, ConnectionState::Ended, ConnectionState::Open]);
    let mut sent = 0;
    for connection in connections.iter_mut() {
        let (state, action) =
            serve_connection(*connection, ConnectionEvent::Published(success(&["y.md"])));
        *connection = state;
        if let ConnectionAction::Send { text } = action {
            assert_eq!(text, "{\"type\":\"reload\",\"paths\":[\"y.md\"]}");
            sent += 1;
        }
    }
    assert_eq!(sent, 2);
    let (state, action) = serve_connection(
        ConnectionState::Open,
        ConnectionEvent::Received(Ok(Frame::Binary(vec![0]))),
    );
    assert_eq!(state, ConnectionState::Ended);
    assert!(matches!(action, ConnectionAction::End));
}

#[test]
fn control_frames_keep_the_connection() {
    let (state, action) =
        serve_connection(ConnectionState::Open, ConnectionEvent::Received(Ok(Frame::Ping(vec![]))));
    assert_eq!(state, ConnectionState::Open);
    assert!(matches!(action, ConnectionAction::Wait));
    let (state, action) =
        serve_connection(state, ConnectionEvent::Received(Ok(Frame::Close(None))));
    assert_eq!(state, ConnectionState::Open);
    assert!(matches!(action, ConnectionAction::Wait));
    let (state, action) = serve_connection(state, ConnectionEvent::InboundEnded);
    assert_eq!(state, ConnectionState::Ended);
    assert!(matches!(action, ConnectionAction::End));
}

#[test]
fn a_connection_ends_with_its_publisher_or_a_failed_read() {
    let (state, action) = serve_connection(ConnectionState::Open, ConnectionEvent::PublisherGone);
    assert_eq!(state, ConnectionState::Ended);
    assert!(matches!(action, ConnectionAction::End));
    let (state, action) = serve_connection(
        ConnectionState::Open,
        ConnectionEvent::Received(Err("reset".to_string())),
    );
    assert_eq!(state, ConnectionState::Ended);
    assert!(matches!(action, ConnectionAction::End));
    let (state, action) =
        serve_connection(ConnectionState::Ended, ConnectionEvent::Published(success(&["z.md"])));
    assert_eq!(state, ConnectionState::Ended);
    assert!(matches!(action, ConnectionAction::End));
}
