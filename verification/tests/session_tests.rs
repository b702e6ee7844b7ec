use signaling::messages::{AuthenticatedUser, ClientMessage, ServerMessage};
use signaling::sfu::RheomeshSfu;
use signaling::session::{
    authenticate_connection, publisher_departure, authenticate_with_token_field, authentication_reply,
    handling_failure_reply, listen_address, next_frame_step, AuthStep, FrameStep, InboundFrame,
};

fn reject(reason: &str) -> AuthStep {
    AuthStep::Reject { reason: reason.to_string() }
}

fn text_frame(text: &str, message: Result<ClientMessage, String>) -> InboundFrame {
    InboundFrame::Text { text: text.to_string(), message }
}

#[test]
fn auth_without_frame_is_rejected() {
    assert_eq!(authenticate_connection(None), reject("No authentication message received"));
}

#[test]
fn auth_on_close_is_rejected() {
    assert_eq!(
        authenticate_connection(Some(InboundFrame::Close)),
        reject("Connection closed during authentication")
    );
}

#[test]
fn auth_on_binary_frame_is_rejected() {
    assert_eq!(
        authenticate_connection(Some(InboundFrame::Other)),
        reject("Invalid authentication message format")
    );
}

#[test]
fn auth_on_socket_error_is_rejected() {
    assert_eq!(
        authenticate_connection(Some(InboundFrame::Failed { error: "reset".to_string() })),
        reject("WebSocket error during authentication: reset")
    );
}

#[test]
fn auth_message_token_is_validated() {
    let frame = text_frame(
        r#"{"type":"auth","token":"jwt-1"}"#,
        Ok(ClientMessage::Auth { token: "jwt-1".to_string() }),
    );
    assert_eq!(
        authenticate_connection(Some(frame)),
        AuthStep::Validate { token: "jwt-1".to_string() }
    );
}

#[test]
fn auth_other_message_is_rejected() {
    let frame = text_frame(
        r#"{"type":"leave-room","roomName":"r"}"#,
        Ok(ClientMessage::LeaveRoom { room_name: "r".to_string() }),
    );
    assert_eq!(
        authenticate_connection(Some(frame)),
        reject("Expected Auth message, got other message type")
    );
}

#[test]
fn auth_falls_back_to_token_field() {
    let frame = text_frame(r#"{"token":"abc","extra":1}"#, Err("unknown variant".to_string()));
    assert_eq!(
        authenticate_connection(Some(frame)),
        AuthStep::Validate { token: "abc".to_string() }
    );
}

#[test]
fn auth_fallback_without_token_field() {
    let frame = text_frame(r#"{"user":"abc"}"#, Err("missing field".to_string()));
    assert_eq!(
        authenticate_connection(Some(frame)),
        reject("No 'token' field found in authentication message")
    );
}

#[test]
fn auth_fallback_with_non_string_token() {
    let frame = text_frame(r#"{"token":42}"#, Err("invalid type".to_string()));
    assert_eq!(
        authenticate_connection(Some(frame)),
        reject("No 'token' field found in authentication message")
    );
}

#[test]
fn auth_fallback_on_non_json() {
    let frame = text_frame("hello there", Err("expected value".to_string()));
    assert_eq!(
        authenticate_connection(Some(frame)),
        reject("Invalid JSON format in authentication message")
    );
}

#[test]
fn token_field_outcomes() {
    assert_eq!(
        authenticate_with_token_field(None),
        reject("Invalid JSON format in authentication message")
    );
    assert_eq!(
        authenticate_with_token_field(Some(None)),
        reject("No 'token' field found in authentication message")
    );
    assert_eq!(
        authenticate_with_token_field(Some(Some("t".to_string()))),
        AuthStep::Validate { token: "t".to_string() }
    );
}

#[test]
fn authentication_reply_confirms_user() {
    let user = AuthenticatedUser { user_id: 4, username: "dana".to_string() };
    assert_eq!(
        authentication_reply(Ok(user)),
        ServerMessage::Authenticated { user_id: 4, username: "dana".to_string() }
    );
}

#[test]
fn authentication_reply_reports_failure() {
    assert_eq!(
        authentication_reply(Err("Invalid token".to_string())),
        ServerMessage::Error { message: "Authentication failed: Invalid token".to_string() }
    );
}

#[test]
fn frames_after_authentication() {
    let frame = text_frame("{}", Err("bad".to_string()));
    assert_eq!(next_frame_step(Some(frame)), FrameStep::Dispatch { message: Err("bad".to_string()) });
    assert_eq!(next_frame_step(Some(InboundFrame::Other)), FrameStep::Ignore);
    assert_eq!(next_frame_step(Some(InboundFrame::Close)), FrameStep::Stop);
    assert_eq!(
        next_frame_step(Some(InboundFrame::Failed { error: "x".to_string() })),
        FrameStep::Stop
    );
    assert_eq!(next_frame_step(None), FrameStep::Stop);
}

#[test]
fn handling_failure_is_reported() {
    assert_eq!(
        handling_failure_reply("Invalid JSON: oops".to_string()),
        ServerMessage::Error { message: "Message handling error: Invalid JSON: oops".to_string() }
    );
}

#[test]
fn listen_address_formats_host_and_port() {
    assert_eq!(listen_address("0.0.0.0", 9000), "0.0.0.0:9000");
    assert_eq!(listen_address("localhost", 0), "localhost:0");
    assert_eq!(listen_address("::1", 65535), "::1:65535");
    assert_eq!(listen_address("h", 7), "h:7");
    assert_eq!(listen_address("h", 10), "h:10");
}

#[test]
fn departing_publisher_is_announced_to_the_rest() {
    let mut sfu = RheomeshSfu::new();
    sfu.add_participant("r", 1, "a".to_string());
    sfu.add_participant("r", 2, "b".to_string());
    sfu.add_participant("r", 3, "c".to_string());
    let (mut recipients, message) = publisher_departure(&mut sfu, "r", 2).expect("notice");
    recipients.sort();
    assert_eq!(recipients, vec![1, 3]);
    assert_eq!(message, ServerMessage::PublisherLeft { room_name: "r".to_string(), publisher_id: 2 });
    assert!(sfu.room("r").unwrap().participants.get(&2).is_none());
}

#[test]
fn departure_without_others_or_membership_is_silent() {
    let mut sfu = RheomeshSfu::new();
    sfu.add_participant("r", 1, "a".to_string());
    assert_eq!(publisher_departure(&mut sfu, "r", 5), None);
    assert_eq!(sfu.room("r").unwrap().participants.len(), 1);
    assert_eq!(publisher_departure(&mut sfu, "r", 1), None);
    assert!(sfu.room("r").is_none());
    assert_eq!(publisher_departure(&mut sfu, "nowhere", 1), None);
}
