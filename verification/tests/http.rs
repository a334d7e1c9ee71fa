//! Reading HTTP responses.

use mcp_proxy::http_client::{
    accept_header, delete_session, describe_refusal, get_stream, is_blank, post_message_body,
    post_message_head, settle_response, starts_with, HeadVerdict, PostVerdict, ResponseHead,
};
use mcp_proxy::transport::{
    describe_transport_error, is_session_fatal, TransportError, TransportErrorKind,
};

fn head(status: u16, content_type: Option<&[u8]>) -> ResponseHead {
    ResponseHead {
        status,
        www_authenticate: None,
        content_type: content_type.map(|bytes| bytes.to_vec()),
        session_id: Some(b"s-1".to_vec()),
    }
}

fn error(kind: TransportErrorKind) -> TransportError {
    TransportError { kind, message: "outermost".to_string(), sources: vec!["named".to_string()] }
}

const MESSAGE: &str = "{\"jsonrpc\":\"2.0\",\"id\":5,\"result\":{}}";

#[test]
fn a_post_accepts_events_and_json() {
    assert_eq!(accept_header(), "text/event-stream, application/json");
}

#[test]
fn a_mime_type_is_a_prefix() {
    assert!(starts_with(Some("application/json"), "application/json"));
    assert!(starts_with(Some("application/json; charset=utf-8"), "application/json"));
    assert!(starts_with(Some("x"), ""));
    assert!(!starts_with(Some("application/jso"), "application/json"));
    assert!(!starts_with(Some("Application/json"), "application/json"));
    assert!(!starts_with(Some(" application/json"), "application/json"));
    assert!(!starts_with(Some(""), "application/json"));
    assert!(!starts_with(None, "application/json"));
    assert!(!starts_with(None, ""));
}

#[test]
fn blank_is_what_trimming_leaves_nothing_of() {
    for text in ["", " ", "\r\n\t", "\u{a0}\u{3000}", "\u{2028}\u{85}", "\u{200b}", "x", " {} "] {
        assert_eq!(is_blank(text), text.trim().is_empty(), "{text:?}");
    }
    for code in 0..0x11_0000u32 {
        if let Some(c) = char::from_u32(code) {
            assert_eq!(is_blank(&c.to_string()), c.is_whitespace(), "{code:x}");
        }
    }
}

#[test]
fn credentials_are_wanted_only_where_they_are_named() {
    let mut wanted = head(401, None);
    wanted.www_authenticate = Some(b"Bearer realm=\"x\"\tz".to_vec());
    match post_message_head(&wanted, true) {
        HeadVerdict::AuthRequired { www_authenticate } => {
            assert_eq!(www_authenticate, "Bearer realm=\"x\"\tz")
        }
        other => panic!("{other:?}"),
    }
    // A header that is no text names nothing.
    wanted.www_authenticate = Some(vec![b'B', 0xe4]);
    assert!(matches!(post_message_head(&wanted, true), HeadVerdict::ReadBody { .. }));
    wanted.www_authenticate = Some(vec![b'B', 127]);
    assert!(matches!(post_message_head(&wanted, true), HeadVerdict::ReadBody { .. }));
    wanted.www_authenticate = Some(vec![b'B', b'\n']);
    assert!(matches!(post_message_head(&wanted, true), HeadVerdict::ReadBody { .. }));
    assert!(matches!(post_message_head(&head(401, None), true), HeadVerdict::ReadBody { .. }));
    let mut forbidden = head(403, None);
    forbidden.www_authenticate = Some(b"Bearer".to_vec());
    assert!(matches!(post_message_head(&forbidden, true), HeadVerdict::ReadBody { .. }));
}

#[test]
fn a_session_expires_only_if_there_was_one() {
    assert!(matches!(post_message_head(&head(404, None), true), HeadVerdict::SessionExpired));
    assert!(matches!(post_message_head(&head(404, None), false), HeadVerdict::ReadBody { .. }));
    assert!(matches!(post_message_head(&head(410, None), true), HeadVerdict::ReadBody { .. }));
}

#[test]
fn events_are_announced_by_the_content_type() {
    let events = head(200, Some(b"text/event-stream; charset=utf-8"));
    match post_message_head(&events, true) {
        HeadVerdict::EventStream { session_id } => assert_eq!(session_id.as_deref(), Some("s-1")),
        other => panic!("{other:?}"),
    }
    // What follows the type need not be text.
    let events = head(500, Some(b"text/event-stream\xff"));
    assert!(matches!(post_message_head(&events, true), HeadVerdict::EventStream { .. }));
    let broken = head(200, Some(b"\xfftext/event-stream"));
    assert!(matches!(post_message_head(&broken, true), HeadVerdict::ReadBody { .. }));
}

#[test]
fn any_other_label_is_only_a_hint() {
    for label in [None, Some(&b"application/json"[..]), Some(b"text/plain"), Some(b"")] {
        match post_message_head(&head(200, label), false) {
            HeadVerdict::ReadBody { session_id } => assert_eq!(session_id.as_deref(), Some("s-1")),
            other => panic!("{other:?}"),
        }
    }
}

#[test]
fn the_body_decides_whatever_the_status() {
    for status in [100, 200, 202, 400, 404, 500, 999] {
        match post_message_body(status, Some("s".to_string()), Some(MESSAGE.to_string())) {
            PostVerdict::Json { message, session_id } => {
                assert_eq!(session_id.as_deref(), Some("s"));
                let text = serde_json::to_string(&message).unwrap();
                assert_eq!(text, MESSAGE);
            }
            other => panic!("{other:?}"),
        }
    }
}

#[test]
fn a_happy_server_has_nothing_to_say() {
    for body in ["", "  \n", "{\"status\":\"ok\"}", "{}", "thanks"] {
        for status in [200, 202, 204, 299] {
            let verdict = post_message_body(status, None, Some(body.to_string()));
            assert!(matches!(verdict, PostVerdict::Accepted), "{status} {body:?}");
        }
    }
}

#[test]
fn an_unhappy_server_is_quoted() {
    for (status, line) in [
        (199, "199 <unknown status code>"),
        (300, "300 Multiple Choices"),
        (404, "404 Not Found"),
        (503, "503 Service Unavailable"),
        (599, "599 <unknown status code>"),
    ] {
        match post_message_body(status, None, Some("go away".to_string())) {
            PostVerdict::Unexpected { description } => {
                assert_eq!(description, format!("HTTP {line}: go away"))
            }
            other => panic!("{other:?}"),
        }
    }
    match settle_response(500, None, " ", None) {
        PostVerdict::Unexpected { description } => {
            assert_eq!(description, "HTTP 500 Internal Server Error:  ")
        }
        other => panic!("{other:?}"),
    }
    assert_eq!(describe_refusal("418 I'm a teapot", ""), "HTTP 418 I'm a teapot: ");
}

#[test]
fn a_body_that_breaks_off_is_no_empty_body() {
    assert!(matches!(post_message_body(200, None, None), PostVerdict::Unreadable));
    assert!(matches!(post_message_body(500, None, None), PostVerdict::Unreadable));
}

#[test]
fn a_server_without_a_stream_is_no_failure() {
    assert!(matches!(get_stream::<u8>(Ok(7)), Ok(7)));
    for kind in [
        TransportErrorKind::ServerDoesNotSupportSse,
        TransportErrorKind::TransportChannelClosed,
        TransportErrorKind::AuthRequired,
    ] {
        match get_stream::<u8>(Err(error(kind))) {
            Err(kind) => {
                assert!(matches!(kind, TransportErrorKind::ServerDoesNotSupportSse));
                assert!(!is_session_fatal(&error(kind)));
            }
            Ok(_) => panic!("a stream out of nowhere"),
        }
    }
}

#[test]
fn a_session_is_over_either_way() {
    assert!(delete_session(Ok(())).is_ok());
    assert!(delete_session(Err(error(TransportErrorKind::Other))).is_ok());
}

#[test]
fn what_ends_a_session() {
    for kind in [
        TransportErrorKind::TransportChannelClosed,
        TransportErrorKind::SessionExpired,
        TransportErrorKind::MissingSessionIdInResponse,
        TransportErrorKind::AuthRequired,
        TransportErrorKind::InsufficientScope,
        TransportErrorKind::Client { connect: true, sources: Vec::new() },
    ] {
        assert!(is_session_fatal(&error(kind)));
    }
    for kind in [
        TransportErrorKind::Client { connect: false, sources: Vec::new() },
        TransportErrorKind::UnexpectedServerResponse,
        TransportErrorKind::ServerDoesNotSupportSse,
        TransportErrorKind::Other,
    ] {
        assert!(!is_session_fatal(&error(kind)));
    }
}

#[test]
fn a_failure_is_described_down_to_its_last_cause() {
    assert_eq!(describe_transport_error(&error(TransportErrorKind::Other)), "outermost: named");
    let client = TransportErrorKind::Client {
        connect: false,
        sources: vec!["one".to_string(), "two".to_string()],
    };
    assert_eq!(describe_transport_error(&error(client)), "outermost: one: two");
    let client = TransportErrorKind::Client { connect: true, sources: Vec::new() };
    assert_eq!(describe_transport_error(&error(client)), "outermost");
}
