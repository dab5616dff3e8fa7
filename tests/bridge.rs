use superbuilder_client::bridge::{external_message, filter_history, history_handle, history_reply, ListenerReply};
use superbuilder_client::connection::ConnectionState;
use superbuilder_client::notify::Notification;

fn parse(s: &str) -> serde_json::Value {
    serde_json::from_str(s).unwrap()
}

#[test]
fn external_message_empty_text_is_refused() {
    let (reply, note) = external_message(String::new(), None);
    assert!(matches!(reply, ListenerReply::MissingText));
    assert_eq!(reply.status(), 400);
    assert!(note.is_none());
}

#[test]
fn external_message_whitespace_text_is_refused() {
    let (reply, note) = external_message("  ".to_string(), Some(2));
    assert_eq!(reply.status(), 400);
    assert!(note.is_none());
    let (reply, _) = external_message("\t\n\u{3000}".to_string(), None);
    assert_eq!(reply.status(), 400);
}

#[test]
fn external_message_text_is_queued_once() {
    let (reply, note) = external_message("hello".to_string(), None);
    assert!(matches!(reply, ListenerReply::Queued));
    assert_eq!(reply.status(), 202);
    match note {
        Some(Notification::ExternalPrompt { text, chat_id }) => {
            assert_eq!(text, "hello");
            assert_eq!(chat_id, None);
        }
        _ => panic!("expected one external prompt"),
    }
}

#[test]
fn external_message_keeps_padding_and_chat_id() {
    let (reply, note) = external_message(" hi ".to_string(), Some(7));
    assert_eq!(reply.status(), 202);
    match note {
        Some(Notification::ExternalPrompt { text, chat_id }) => {
            assert_eq!(text, " hi ");
            assert_eq!(chat_id, Some(7));
        }
        _ => panic!("expected one external prompt"),
    }
}

#[test]
fn chat_history_sid_three_keeps_two_entries_in_order() {
    let data = r#"[{"sid":1,"n":"a"},{"sid":3,"n":"b"},{"sid":3,"n":"c"},{"sid":5,"n":"d"}]"#;
    let reply = history_reply(Ok(data.to_string()), Some(3));
    assert_eq!(reply.status(), 200);
    match reply {
        ListenerReply::History(v) => {
            assert_eq!(v, parse(r#"[{"sid":3,"n":"b"},{"sid":3,"n":"c"}]"#));
        }
        _ => panic!("expected the history"),
    }
}

#[test]
fn chat_history_without_sid_is_unchanged() {
    let data = r#"[{"sid":1},{"sid":3}]"#;
    match history_reply(Ok(data.to_string()), None) {
        ListenerReply::History(v) => assert_eq!(v, parse(data)),
        _ => panic!("expected the history"),
    }
}

#[test]
fn chat_history_entries_without_integer_sid_are_dropped() {
    let v = parse(r#"[{"sid":"3"},{"x":3},{"sid":3.5},{"sid":3},7]"#);
    assert_eq!(filter_history(v, Some(3)), parse(r#"[{"sid":3}]"#));
}

#[test]
fn chat_history_non_array_is_unchanged() {
    let v = parse(r#"{"sid":3}"#);
    assert_eq!(filter_history(v.clone(), Some(3)), v);
}

#[test]
fn chat_history_no_match_gives_empty_array() {
    let v = parse(r#"[{"sid":1},{"sid":2}]"#);
    assert_eq!(filter_history(v, Some(9)), parse("[]"));
}

#[test]
fn chat_history_invalid_payload_is_internal_error() {
    let reply = history_reply(Ok("not json".to_string()), Some(3));
    assert_eq!(reply.status(), 500);
    match reply {
        ListenerReply::InvalidJson(m) => {
            assert!(m.starts_with("invalid json: "));
            assert!(m.len() > "invalid json: ".len());
        }
        _ => panic!("expected an invalid-json reply"),
    }
}

#[test]
fn chat_history_remote_failure_is_bad_gateway() {
    let reply = history_reply(Err("status: Unavailable".to_string()), None);
    assert_eq!(reply.status(), 502);
    match reply {
        ListenerReply::RemoteFailed(m) => assert_eq!(m, "grpc error: status: Unavailable"),
        _ => panic!("expected a bad-gateway reply"),
    }
}

#[test]
fn chat_history_without_connection_is_unavailable() {
    let state: ConnectionState<u32> = ConnectionState::new();
    match history_handle(&state) {
        Err(reply) => {
            assert!(matches!(reply, ListenerReply::NoClient));
            assert_eq!(reply.status(), 503);
        }
        Ok(_) => panic!("no handle was installed"),
    }
}

#[test]
fn chat_history_with_connection_gets_handle() {
    let mut state: ConnectionState<u32> = ConnectionState::new();
    state.install(Ok(11)).unwrap();
    assert_eq!(history_handle(&state).ok(), Some(11));
}

#[test]
fn health_reply_is_ok() {
    assert_eq!(ListenerReply::Healthy.status(), 200);
}
