use superbuilder_client::chat::{ChatAction, ChatSession};
use superbuilder_client::connection::{ClientError, ConnectionState, StopKind};
use superbuilder_client::notify::{ChatReply, Notification};

#[test]
fn acquire_before_connect_is_not_initialized() {
    let state: ConnectionState<String> = ConnectionState::new();
    assert!(!state.is_connected());
    assert_eq!(state.acquire(), Err(ClientError::NotInitialized));
    assert_eq!(ClientError::NotInitialized.message(), "Client not initialized");
}

#[test]
fn failed_connects_keep_not_initialized() {
    let mut state: ConnectionState<String> = ConnectionState::new();
    assert_eq!(state.install(Err("refused".to_string())), Err(ClientError::ConnectFailure));
    assert_eq!(state.install(Err("refused".to_string())), Err(ClientError::ConnectFailure));
    assert_eq!(state.acquire(), Err(ClientError::NotInitialized));
    assert_eq!(ClientError::ConnectFailure.message(), "Failed to connect to middleware.");
}

#[test]
fn reconnect_replaces_handle() {
    let mut state: ConnectionState<String> = ConnectionState::new();
    state.install(Ok("first".to_string())).unwrap();
    let in_flight = state.acquire().unwrap();
    state.install(Ok("second".to_string())).unwrap();
    assert_eq!(state.acquire(), Ok("second".to_string()));
    assert_eq!(in_flight, "first");
    drop(in_flight);
    assert_eq!(state.acquire(), Ok("second".to_string()));
}

#[test]
fn failed_reconnect_keeps_old_handle() {
    let mut state: ConnectionState<u32> = ConnectionState::new();
    state.install(Ok(1)).unwrap();
    assert_eq!(state.install(Err("down".to_string())), Err(ClientError::ConnectFailure));
    assert_eq!(state.acquire(), Ok(1));
}

#[test]
fn stop_without_session_leaves_later_chat_alone() {
    let mut state: ConnectionState<u32> = ConnectionState::new();
    state.install(Ok(5)).unwrap();
    // a stop request only copies the handle out; nothing is in flight
    let h = state.acquire().unwrap();
    assert_eq!(h, 5);
    assert_eq!(
        StopKind::Chat.failure("no stream").message(),
        "Failed to stop chat: no stream"
    );
    let mut s = ChatSession::new();
    let acts = s.on_message(ChatReply { message: "hi".to_string(), references: Vec::new() });
    assert_eq!(acts.len(), 2);
    assert!(matches!(acts[0], ChatAction::Notify(Notification::FirstToken)));
    let end = s.on_stream_end();
    assert!(matches!(end[0], ChatAction::Notify(Notification::StreamCompleted)));
    assert_eq!(state.acquire(), Ok(5));
}

#[test]
fn stop_upload_failure_text() {
    match StopKind::Upload.failure("x") {
        ClientError::Transport(m) => assert_eq!(m, "Failed to stop upload file: x"),
        _ => panic!("expected a transport error"),
    }
}

#[test]
fn transport_error_text() {
    let e = ClientError::transport("get file list", "timeout");
    assert_eq!(e.message(), "Failed to get file list: timeout");
    assert_eq!(ClientError::RemoteRejected("duplicate name".to_string()).message(), "duplicate name");
    assert_eq!(ClientError::Validation("bad".to_string()).message(), "bad");
}
