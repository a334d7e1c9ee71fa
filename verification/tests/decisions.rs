//! Single decisions of the proxy, one at a time.

use mcp_proxy::clock::Clock;
use mcp_proxy::message::{
    error_reply, initialized_notification, ClientCall, ClientMessage, ClientNotice, RequestId,
    RequestKind, ServerAnswer, ServerMessage,
};
use mcp_proxy::startup::{
    after_initial_attempt, override_version, server_url, InitialStep, StartupError,
};
use mcp_proxy::state::{AppState, BufferMode, ProxyState};
use mcp_proxy::step::{
    Action, AfterSend, AfterWrite, Event, Handshake, Outgoing, Polled, ProxyError, Step,
};
use mcp_proxy::transport::{TransportError, TransportErrorKind};
use mcp_proxy::{DISCONNECTED_ERROR_CODE, TRANSPORT_SEND_ERROR_CODE};

const SECOND: u128 = 1_000_000_000;

fn call(method: &str) -> ClientCall {
    let params = match method {
        "initialize" => {
            ",\"params\":{\"protocolVersion\":\"2025-03-26\",\"capabilities\":{},\
             \"clientInfo\":{\"name\":\"test\",\"version\":\"0.1.0\"}}"
        }
        _ => "",
    };
    let text = format!("{{\"method\":\"{method}\"{params}}}");
    ClientCall::new(serde_json::from_str(&text).unwrap())
}

fn request(id: i64, method: &str) -> ClientMessage {
    ClientMessage::Request { id: RequestId::Number(id), request: call(method) }
}

fn notice() -> ClientMessage {
    let text = "{\"method\":\"notifications/roots/list_changed\"}";
    ClientMessage::Notification(ClientNotice::Other(serde_json::from_str(text).unwrap()))
}

fn failure(kind: TransportErrorKind) -> TransportError {
    TransportError { kind, message: "it failed".to_string(), sources: Vec::new() }
}

fn fresh(max_disconnected_time: Option<u64>) -> AppState {
    let mut state =
        AppState::new_at("u".to_string(), max_disconnected_time, None, Clock::start(), 0);
    state.has_reconnect_tx = true;
    state.has_timer_tx = true;
    state.started();
    state
}

fn away(max_disconnected_time: Option<u64>) -> AppState {
    let mut state = fresh(max_disconnected_time);
    state.step(Event::Stdin(Some(Ok(request(1, "initialize")))), 0);
    let timers = state.handle_fatal_transport_error_at(0);
    assert!(timers.flush);
    assert_eq!(timers.reconnect, Some(2));
    state
}

fn written(step: Step) -> (Vec<ServerMessage>, AfterWrite) {
    match step.action {
        Action::Write { messages, after } => (messages, after),
        other => panic!("{other:?}"),
    }
}

fn is_error(message: &ServerMessage, number: i64, code: i32) -> bool {
    match message {
        ServerMessage::Error { id, error } => {
            *id == RequestId::Number(number) && error.code == code && error.data.is_none()
        }
        _ => false,
    }
}

#[test]
fn requests_are_told_apart() {
    for (method, kind) in [
        ("initialize", RequestKind::Initialize),
        ("ping", RequestKind::Ping),
        ("tools/list", RequestKind::Other),
        ("no/such/method", RequestKind::Other),
    ] {
        let call = call(method);
        assert_eq!(call.kind, kind);
        assert_eq!(call.method, method);
        let copy = call.clone();
        assert_eq!(copy.method, call.method);
        assert_eq!(
            serde_json::to_string(&copy.params).unwrap(),
            serde_json::to_string(&call.params).unwrap()
        );
    }
}

#[test]
fn ids_are_compared_by_what_they_hold() {
    assert_eq!(RequestId::Number(7), RequestId::Number(7));
    assert_ne!(RequestId::Number(7), RequestId::Number(8));
    assert_eq!(RequestId::Text("7".to_string()), RequestId::Text("7".to_string()));
    assert_ne!(RequestId::Text("7".to_string()), RequestId::Number(7));
    assert_eq!(
        ProxyState::WaitingForServerInit(RequestId::Number(1)).clone(),
        ProxyState::WaitingForServerInit(RequestId::Number(1))
    );
    assert_ne!(
        ProxyState::WaitingForServerInit(RequestId::Number(1)),
        ProxyState::WaitingForServerInitHidden(RequestId::Number(1))
    );
    assert_ne!(ProxyState::Connected, ProxyState::Disconnected);
}

#[test]
fn messages_of_the_proxy() {
    let reply = error_reply(RequestId::Number(3), DISCONNECTED_ERROR_CODE, "x".to_string());
    assert!(is_error(&reply, 3, -32010));
    assert!(matches!(
        initialized_notification(),
        ClientMessage::Notification(ClientNotice::Initialized)
    ));
    assert_eq!(TRANSPORT_SEND_ERROR_CODE, -32011);
}

#[test]
fn a_new_proxy() {
    let state = AppState::new("u".to_string(), Some(3), None);
    assert_eq!(state.url, "u");
    assert_eq!(state.max_disconnected_time, Some(3));
    assert!(state.override_protocol_version.is_none());
    assert_eq!(state.disconnected_since, None);
    assert_eq!(state.state, ProxyState::Connecting);
    assert_eq!(state.connect_tries, 0);
    assert!(state.init_message.is_none());
    assert!(state.in_buf.is_empty());
    assert_eq!(state.buf_mode, BufferMode::Store);
    assert!(!state.flush_timer_active && !state.reconnect_scheduled);
    assert!(state.transport_valid);
    assert!(state.last_heartbeat <= state.now());
}

#[test]
fn the_clock_is_read() {
    let mut state = AppState::new("u".to_string(), Some(0), None);
    let before = state.now();
    state.update_heartbeat();
    assert!(before <= state.last_heartbeat && state.last_heartbeat <= state.now());
    state.disconnected();
    let since = state.disconnected_since.unwrap();
    assert!(before <= since && since <= state.now());
    // Not even a second has passed.
    assert!(!state.disconnected_too_long());
    state.connected();
    assert_eq!(state.disconnected_since, None);
    let timers = state.handle_fatal_transport_error();
    assert!(!timers.flush);
    assert_eq!(timers.reconnect, None);
    assert_eq!(state.state, ProxyState::Disconnected);
}

#[test]
fn the_clock_counts_nanoseconds() {
    let before = std::time::Instant::now();
    let clock = Clock::start();
    let after = std::time::Instant::now();
    while after.elapsed().as_millis() < 2 {}
    let reading = clock.now();
    assert!(2_000_000 <= reading);
    assert!(reading <= before.elapsed().as_nanos());
}

#[test]
fn a_loss_is_counted_and_dated_once() {
    let mut state = fresh(None);
    state.disconnected_at(5);
    assert_eq!(state.disconnected_since, Some(5));
    assert_eq!(state.connect_tries, 1);
    assert!(!state.transport_valid);
    state.disconnected_at(9);
    assert_eq!(state.disconnected_since, Some(5));
    assert_eq!(state.connect_tries, 2);
    state.connected_at(11);
    assert_eq!(state.state, ProxyState::Connected);
    assert_eq!(state.disconnected_since, None);
    assert_eq!(state.connect_tries, 0);
    assert_eq!(state.last_heartbeat, 11);
    assert!(state.transport_valid);
}

#[test]
fn the_backoff_doubles_up_to_eight_seconds() {
    let mut state = fresh(None);
    for (tries, seconds) in [(0, 1), (1, 2), (2, 4), (3, 8), (4, 8), (64, 8), (u32::MAX, 8)] {
        state.connect_tries = tries;
        assert_eq!(state.get_backoff_duration(), seconds);
    }
}

#[test]
fn one_timer_of_each_kind() {
    let mut state = fresh(None);
    assert!(state.schedule_flush_timer());
    assert!(!state.schedule_flush_timer());
    assert_eq!(state.schedule_reconnect(), Some(1));
    assert_eq!(state.schedule_reconnect(), None);
    state.flush_timer_active = false;
    state.reconnect_scheduled = false;
    state.has_timer_tx = false;
    state.has_reconnect_tx = false;
    assert!(!state.schedule_flush_timer() && !state.flush_timer_active);
    assert_eq!(state.schedule_reconnect(), None);
    assert!(!state.reconnect_scheduled);
}

#[test]
fn giving_up_twice_is_giving_up_once() {
    let mut state = away(None);
    let timers = state.handle_fatal_transport_error_at(99);
    assert!(!timers.flush && timers.reconnect.is_none());
    assert_eq!(state.connect_tries, 1);
    assert_eq!(state.disconnected_since, Some(0));
}

#[test]
fn too_long_is_counted_in_full_seconds() {
    let state = away(Some(2));
    assert!(!state.disconnected_too_long_at(0));
    assert!(!state.disconnected_too_long_at(3 * SECOND - 1));
    assert!(state.disconnected_too_long_at(3 * SECOND));
    assert!(!away(None).disconnected_too_long_at(u128::MAX));
    assert!(!fresh(Some(2)).disconnected_too_long_at(u128::MAX));
}

#[test]
fn the_client_is_gone() {
    let mut state = fresh(None);
    assert!(matches!(state.step(Event::Stdin(None), 0).action, Action::Stop));
    let unreadable = Event::Stdin(Some(Err("what?".to_string())));
    assert!(matches!(state.step(unreadable, 0).action, Action::Stop));
    for (after, written, ends) in [
        (AfterWrite::Forwarded, true, false),
        (AfterWrite::Forwarded, false, true),
        (AfterWrite::Wait, false, false),
        (AfterWrite::Stop, true, true),
        (AfterWrite::RefusedInitialize, false, true),
    ] {
        let step = state.step(Event::Written(after, written), 0);
        assert_eq!(matches!(step.action, Action::Stop), ends);
        assert_eq!(matches!(step.action, Action::Wait), !ends);
    }
    assert_eq!(state.state, ProxyState::WaitingForClientInit);
    let step = state.step(Event::Written(AfterWrite::RefusedInitialize, true), 0);
    assert!(matches!(step.action, Action::Wait));
    assert_eq!(state.state, ProxyState::Disconnected);
}

#[test]
fn only_the_first_initialize_is_remembered() {
    let mut state = fresh(None);
    state.step(Event::Stdin(Some(Ok(request(1, "initialize")))), 0);
    assert_eq!(state.state, ProxyState::WaitingForServerInit(RequestId::Number(1)));
    state.step(Event::Stdin(Some(Ok(request(2, "initialize")))), 0);
    assert_eq!(state.state, ProxyState::WaitingForServerInit(RequestId::Number(1)));
    match &state.init_message {
        Some(ClientMessage::Request { id, .. }) => assert_eq!(*id, RequestId::Number(1)),
        other => panic!("{other:?}"),
    }
}

#[test]
fn the_clients_own_initialized_goes_no_further() {
    for mut state in [fresh(None), away(None)] {
        let before = state.state.clone();
        let step = state.step(Event::Stdin(Some(Ok(initialized_notification()))), 0);
        assert!(matches!(step.action, Action::Wait));
        assert_eq!(state.state, before);
    }
}

#[test]
fn a_message_that_is_no_request_and_fails_ends_the_session() {
    let mut state = fresh(None);
    let outgoing = match state.step(Event::Stdin(Some(Ok(notice()))), 0).action {
        Action::Send(outgoing) => outgoing,
        other => panic!("{other:?}"),
    };
    assert!(matches!(outgoing.after, AfterSend::Message));
    let step = state.step(Event::Sent(outgoing, Err(failure(TransportErrorKind::Other))), 4);
    assert!(matches!(step.action, Action::Wait));
    assert!(step.timers.flush);
    assert_eq!(step.timers.reconnect, Some(2));
    assert_eq!(state.disconnected_since, Some(4));
    assert!(state.in_buf.is_empty());
}

#[test]
fn a_ping_that_finds_the_server_gone_is_answered() {
    let mut state = fresh(None);
    let outgoing = Outgoing { message: request(4, "ping"), after: AfterSend::Request };
    let result = Err(failure(TransportErrorKind::SessionExpired));
    let (messages, after) = written(state.step(Event::Sent(outgoing, result), 0));
    assert!(matches!(after, AfterWrite::Wait));
    match &messages[..] {
        [ServerMessage::Response { id, result: ServerAnswer::Empty }] => {
            assert_eq!(*id, RequestId::Number(4))
        }
        other => panic!("{other:?}"),
    }
    assert!(state.in_buf.is_empty());
}

#[test]
fn without_an_initialize_there_is_no_coming_back() {
    let mut state = fresh(None);
    state.handle_fatal_transport_error_at(0);
    assert!(matches!(state.step(Event::ReconnectSignal, 1).action, Action::Connect));
    match state.step(Event::Connected(Ok(())), 1).action {
        Action::Fail(error) => {
            assert_eq!(error, ProxyError::MissingInitMessage);
            assert_eq!(
                error.describe(),
                "Cannot perform reconnect handshake: init_message is missing"
            );
        }
        other => panic!("{other:?}"),
    }
}

#[test]
fn a_connection_that_cannot_be_made_is_tried_again() {
    let mut state = away(Some(100));
    assert!(matches!(state.step(Event::ReconnectSignal, SECOND).action, Action::Connect));
    assert!(!state.reconnect_scheduled);
    let step = state.step(Event::Connected(Err("refused".to_string())), SECOND);
    assert!(matches!(step.action, Action::Wait));
    assert_eq!(step.timers.reconnect, Some(4));
    assert!(!step.timers.flush);
    assert_eq!(state.connect_tries, 2);
    assert!(state.reconnect_scheduled);
    assert!(matches!(state.step(Event::ReconnectHandled, SECOND).action, Action::Wait));
}

#[test]
fn a_connection_that_cannot_be_made_in_time_is_given_up() {
    let mut state = away(Some(1));
    state.step(Event::Stdin(Some(Ok(request(2, "tools/list")))), 0);
    assert!(matches!(state.step(Event::ReconnectSignal, SECOND).action, Action::Connect));
    let step = state.step(Event::Connected(Err("refused".to_string())), 2 * SECOND);
    assert!(step.timers.reconnect.is_none());
    let (messages, after) = written(step);
    assert!(matches!(after, AfterWrite::Wait));
    assert_eq!(messages.len(), 1);
    assert!(is_error(&messages[0], 2, DISCONNECTED_ERROR_CODE));
    assert_eq!(state.buf_mode, BufferMode::Fail);
    assert!(matches!(state.step(Event::ReconnectHandled, 2 * SECOND).action, Action::Stop));
}

#[test]
fn a_reconnect_that_comes_too_late_is_not_tried() {
    let mut state = away(Some(1));
    state.step(Event::Stdin(Some(Ok(request(2, "tools/list")))), 0);
    let (messages, _) = written(state.step(Event::ReconnectSignal, 2 * SECOND));
    assert_eq!(messages.len(), 1);
    assert_eq!(state.connect_tries, 2);
    assert!(!state.reconnect_scheduled);
}

#[test]
fn a_failed_attempt_does_not_start_the_time_anew() {
    let mut state = away(Some(10));
    assert!(matches!(state.step(Event::ReconnectSignal, 6 * SECOND).action, Action::Connect));
    let outgoing = match state.step(Event::Connected(Ok(())), 6 * SECOND).action {
        Action::SendOnNew(outgoing) => outgoing,
        other => panic!("{other:?}"),
    };
    let refused = TransportErrorKind::Client { connect: true, sources: Vec::new() };
    let step = state.step(Event::Sent(outgoing, Err(failure(refused))), 6 * SECOND);
    assert!(matches!(step.action, Action::Wait));
    assert_eq!(step.timers.reconnect, Some(4));
    assert_eq!(state.state, ProxyState::Disconnected);
    assert_eq!(state.disconnected_since, Some(0));
    assert_eq!(state.connect_tries, 2);

    let step = state.step(Event::ReconnectSignal, 12 * SECOND);
    assert!(step.timers.reconnect.is_none());
    let (messages, after) = written(step);
    assert!(matches!(after, AfterWrite::Wait));
    assert_eq!(messages.len(), 1);
    assert!(is_error(&messages[0], 1, DISCONNECTED_ERROR_CODE));
    assert!(state.in_buf.is_empty());
    assert_eq!(state.buf_mode, BufferMode::Fail);
    assert!(!state.reconnect_scheduled);
    assert!(matches!(state.step(Event::ReconnectHandled, 12 * SECOND).action, Action::Stop));
}

#[test]
fn a_stream_that_ends_during_a_handshake_does_not_start_the_time_anew() {
    let mut state = away(Some(10));
    state.step(Event::ReconnectSignal, 6 * SECOND);
    state.step(Event::Connected(Ok(())), 6 * SECOND);
    state.step(Event::Server(None), 7 * SECOND);
    assert_eq!(state.disconnected_since, Some(0));
    // A loss after the server has been back is a new one.
    state.connected_at(8 * SECOND);
    state.step(Event::Server(None), 9 * SECOND);
    assert_eq!(state.disconnected_since, Some(9 * SECOND));
}

#[test]
fn the_end_leaves_nobody_waiting() {
    let mut state = away(Some(1));
    state.step(Event::Stdin(Some(Ok(request(2, "tools/list")))), 0);
    state.step(Event::Stdin(Some(Ok(request(3, "tools/list")))), 0);
    let (messages, after) = written(state.step(Event::ReconnectHandled, 2 * SECOND));
    assert!(matches!(after, AfterWrite::Stop));
    assert_eq!(messages.len(), 2);
    assert!(is_error(&messages[0], 2, DISCONNECTED_ERROR_CODE));
    assert!(is_error(&messages[1], 3, DISCONNECTED_ERROR_CODE));
    assert!(state.in_buf.is_empty());
}

#[test]
fn signals_that_come_when_the_server_is_there() {
    let mut state = fresh(None);
    state.reconnect_scheduled = true;
    state.flush_timer_active = true;
    assert!(matches!(state.step(Event::ReconnectSignal, 0).action, Action::Wait));
    assert!(!state.reconnect_scheduled);
    assert!(matches!(state.step(Event::TimerSignal, 0).action, Action::Wait));
    assert!(!state.flush_timer_active);
    assert_eq!(state.buf_mode, BufferMode::Store);
}

#[test]
fn what_was_held_back_goes_out_in_order_and_failures_are_answered() {
    let mut state = away(None);
    state.step(Event::Stdin(Some(Ok(request(2, "tools/list")))), 0);
    state.step(Event::Stdin(Some(Ok(request(3, "prompts/list")))), 0);
    state.step(Event::Stdin(Some(Ok(request(4, "resources/list")))), 0);
    let sent = Event::Sent(
        Outgoing {
            message: initialized_notification(),
            after: AfterSend::Initialized(Handshake::Hidden),
        },
        Ok(()),
    );
    let mut step = state.step(sent, 7);
    assert_eq!(state.state, ProxyState::Connected);
    assert!(state.in_buf.is_empty());
    let mut order: Vec<i64> = Vec::new();
    loop {
        step = match step.action {
            Action::Wait => break,
            Action::Send(outgoing) => {
                let number = match &outgoing.message {
                    ClientMessage::Request { id: RequestId::Number(n), .. } => *n,
                    other => panic!("{other:?}"),
                };
                order.push(number);
                let result = if number == 3 {
                    Err(failure(TransportErrorKind::SessionExpired))
                } else {
                    Ok(())
                };
                state.step(Event::Sent(outgoing, result), 7)
            }
            Action::Write { messages, after } => {
                assert_eq!(messages.len(), 1);
                assert!(is_error(&messages[0], 3, TRANSPORT_SEND_ERROR_CODE));
                match &messages[0] {
                    ServerMessage::Error { error, .. } => {
                        assert_eq!(error.message, "Transport error: it failed")
                    }
                    other => panic!("{other:?}"),
                }
                state.step(Event::Written(after, false), 7)
            }
            other => panic!("{other:?}"),
        };
    }
    assert_eq!(order, vec![2, 3, 4]);
    assert_eq!(state.state, ProxyState::Connected);
}

#[test]
fn what_is_remembered_and_held_back_is_what_was_said() {
    let mut state = away(None);
    state.step(Event::Stdin(Some(Ok(request(2, "tools/list")))), 0);
    state.step(Event::Stdin(Some(Ok(request(3, "no/such/method")))), 0);
    let remembered = state.init_message.iter().chain(state.in_buf.iter());
    let mut methods: Vec<String> = Vec::new();
    for message in remembered {
        match message {
            ClientMessage::Request { request, .. } => {
                let again = ClientCall::new(request.params.clone());
                assert_eq!(again.kind, request.kind);
                assert_eq!(again.method, request.method);
                methods.push(again.method);
            }
            other => panic!("{other:?}"),
        }
    }
    assert_eq!(methods, vec!["initialize", "tools/list", "no/such/method"]);
}

#[test]
fn a_hidden_handshake_that_fails_is_a_loss() {
    let mut state = away(None);
    state.step(Event::Stdin(Some(Ok(request(2, "tools/list")))), 0);
    state.step(Event::ReconnectSignal, 1);
    let outgoing = match state.step(Event::Connected(Ok(())), 1).action {
        Action::SendOnNew(outgoing) => outgoing,
        other => panic!("{other:?}"),
    };
    assert!(state.transport_valid);
    assert_eq!(state.state, ProxyState::WaitingForServerInitHidden(RequestId::Number(1)));
    assert!(matches!(state.step(Event::Sent(outgoing, Ok(())), 1).action, Action::Wait));
    let answer =
        ServerMessage::Response { id: RequestId::Number(1), result: ServerAnswer::Empty };
    let outgoing = match state.step(Event::Server(Some(answer)), 2).action {
        Action::Send(outgoing) => outgoing,
        other => panic!("{other:?}"),
    };
    assert_eq!(state.state, ProxyState::Connected);
    let result = Err(failure(TransportErrorKind::UnexpectedServerResponse));
    let step = state.step(Event::Sent(outgoing, result), 3);
    assert!(matches!(step.action, Action::Wait));
    assert_eq!(step.timers.reconnect, Some(2));
    assert_eq!(state.state, ProxyState::Disconnected);
    assert_eq!(state.disconnected_since, Some(3));
    assert_eq!(state.in_buf.len(), 1);
}

#[test]
fn an_answer_under_another_id_ends_no_handshake() {
    let mut state = fresh(None);
    state.step(Event::Stdin(Some(Ok(request(1, "initialize")))), 0);
    let other = ServerMessage::Response { id: RequestId::Number(2), result: ServerAnswer::Empty };
    let (messages, after) = written(state.step(Event::Server(Some(other)), 3));
    assert!(matches!(after, AfterWrite::Forwarded));
    assert_eq!(messages.len(), 1);
    assert_eq!(state.last_heartbeat, 3);
    // An error is forwarded too, and ends nothing.
    let refusal = error_reply(RequestId::Number(1), -32600, "no".to_string());
    let (messages, _) = written(state.step(Event::Server(Some(refusal)), 4));
    assert!(is_error(&messages[0], 1, -32600));
    assert_eq!(state.state, ProxyState::WaitingForServerInit(RequestId::Number(1)));
}

#[test]
fn a_silent_connection_is_looked_at() {
    let mut state = fresh(None);
    // Nobody looks before a session is open.
    assert!(matches!(state.step(Event::HeartbeatTick, 100 * SECOND).action, Action::Wait));
    state.connected_at(0);
    assert!(matches!(state.step(Event::HeartbeatTick, 5 * SECOND).action, Action::Wait));
    assert!(matches!(state.step(Event::HeartbeatTick, 5 * SECOND + 1).action, Action::Poll));
    state.step(Event::Polled(Polled::Nothing), 6 * SECOND);
    assert_eq!(state.last_heartbeat, 6 * SECOND);
    state.step(Event::Polled(Polled::Message), 7 * SECOND);
    assert_eq!(state.last_heartbeat, 7 * SECOND);
    assert!(matches!(state.step(Event::HeartbeatTick, 12 * SECOND).action, Action::Wait));
    let step = state.step(Event::Polled(Polled::Ended), 13 * SECOND);
    assert!(matches!(step.action, Action::Wait));
    assert_eq!(state.state, ProxyState::Disconnected);
}

#[test]
fn there_is_room_to_count() {
    let mut state = fresh(None);
    assert!(state.has_room_for(&Event::Server(None), 0));
    state.connect_tries = u32::MAX;
    assert!(!state.has_room_for(&Event::Server(None), 0));
    assert!(state.has_room_for(&Event::TimerSignal, 0));
    assert!(!state.has_room_for(&Event::Connected(Err("x".to_string())), 0));
    assert!(state.has_room_for(&Event::Connected(Ok(())), 0));
    assert!(state.has_room_for(&Event::ReconnectSignal, 0));
    state.state = ProxyState::Disconnected;
    assert!(state.has_room_for(&Event::Server(None), 0));
    let outgoing = Outgoing { message: request(2, "tools/list"), after: AfterSend::Request };
    state.state = ProxyState::Connected;
    let refused = Event::Sent(outgoing, Err(failure(TransportErrorKind::Other)));
    assert!(state.has_room_for(&refused, 0));
    let outgoing = Outgoing { message: request(2, "tools/list"), after: AfterSend::Request };
    let gone = Event::Sent(outgoing, Err(failure(TransportErrorKind::SessionExpired)));
    assert!(!state.has_room_for(&gone, 0));
}

#[test]
fn where_the_server_is() {
    let given = || Some("http://a".to_string());
    let found = || Some("http://b".to_string());
    assert_eq!(server_url(given(), found()).unwrap(), "http://a");
    assert_eq!(server_url(given(), None).unwrap(), "http://a");
    assert_eq!(server_url(None, found()).unwrap(), "http://b");
    match server_url(None, None) {
        Err(error) => assert_eq!(
            error.describe(),
            "Either the URL must be passed as the first argument or the SSE_URL environment \
             variable must be set"
        ),
        Ok(url) => panic!("{url}"),
    }
}

#[test]
fn versions_that_can_be_reported() {
    assert!(override_version(None).unwrap().is_none());
    for version in ["2024-11-05", "2025-03-26", "2025-06-18", "2025-11-25"] {
        let taken = override_version(Some(version.to_string())).unwrap().unwrap();
        assert_eq!(taken.text, version);
        assert_eq!(taken.clone().text, version);
    }
    match override_version(Some("2025-11-26".to_string())) {
        Err(StartupError::UnsupportedVersion(version)) => {
            assert_eq!(version, "2025-11-26");
            assert_eq!(
                StartupError::UnsupportedVersion(version).describe(),
                "Unsupported protocol version: 2025-11-26. Supported versions are: \
                 2024-11-05, 2025-03-26, 2025-06-18, 2025-11-25"
            );
        }
        other => panic!("{other:?}"),
    }
}

#[test]
fn the_first_connection_is_tried_for_five_minutes() {
    assert!(matches!(after_initial_attempt(true, 0, 900 * SECOND, 3), InitialStep::Start));
    assert!(matches!(after_initial_attempt(false, 0, 300 * SECOND - 1, 3), InitialStep::Retry(3)));
    assert!(matches!(after_initial_attempt(false, 9, 0, 3), InitialStep::Retry(3)));
    match after_initial_attempt(false, SECOND, 301 * SECOND, 3) {
        InitialStep::GiveUp(error) => {
            assert_eq!(error.describe(), "Initial connection timed out after 300s")
        }
        other => panic!("{other:?}"),
    }
}
