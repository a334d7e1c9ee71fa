//! Whole conversations: a client on one side, a server on the other, and the
//! proxy in between. The client's lines and the server's responses are the
//! texts that would go over the wire.

use mcp_proxy::clock::Clock;
use mcp_proxy::http_client::{
    post_message_body, post_message_head, HeadVerdict, PostVerdict, ResponseHead,
};
use mcp_proxy::message::{
    ClientCall, ClientMessage, ClientNotice, ErrorData, ProtocolVersion, RequestId, ServerAnswer,
    ServerMessage,
};
use mcp_proxy::state::{AppState, ProxyState};
use mcp_proxy::step::{Action, Event};
use mcp_proxy::transport::{TransportError, TransportErrorKind};
use rmcp::model::{
    ClientJsonRpcMessage, ClientNotification, ErrorCode, InitializedNotification, JsonRpcMessage,
    NumberOrString, ServerJsonRpcMessage, ServerResult,
};
use serde_json::Value;
use std::collections::VecDeque;

fn id_in(id: NumberOrString) -> RequestId {
    match id {
        NumberOrString::Number(n) => RequestId::Number(n),
        NumberOrString::String(s) => RequestId::Text(s.to_string()),
    }
}

fn id_out(id: RequestId) -> NumberOrString {
    match id {
        RequestId::Number(n) => NumberOrString::Number(n),
        RequestId::Text(s) => NumberOrString::String(s.into()),
    }
}

fn error_in(error: rmcp::model::ErrorData) -> ErrorData {
    ErrorData { code: error.code.0, message: error.message.into_owned(), data: error.data }
}

fn error_out(error: ErrorData) -> rmcp::model::ErrorData {
    rmcp::model::ErrorData::new(ErrorCode(error.code), error.message, error.data)
}

fn client_in(message: ClientJsonRpcMessage) -> ClientMessage {
    match message {
        JsonRpcMessage::Request(r) => {
            ClientMessage::Request { id: id_in(r.id), request: ClientCall::new(r.request) }
        }
        JsonRpcMessage::Response(r) => {
            ClientMessage::Response { id: id_in(r.id), result: r.result }
        }
        JsonRpcMessage::Notification(n) => ClientMessage::Notification(match n.notification {
            ClientNotification::InitializedNotification(_) => ClientNotice::Initialized,
            other => ClientNotice::Other(other),
        }),
        JsonRpcMessage::Error(e) => {
            ClientMessage::Error { id: id_in(e.id), error: error_in(e.error) }
        }
    }
}

fn client_out(message: ClientMessage) -> ClientJsonRpcMessage {
    match message {
        ClientMessage::Request { id, request } => {
            ClientJsonRpcMessage::request(request.params, id_out(id))
        }
        ClientMessage::Response { id, result } => {
            ClientJsonRpcMessage::response(result, id_out(id))
        }
        ClientMessage::Notification(ClientNotice::Initialized) => {
            ClientJsonRpcMessage::notification(ClientNotification::InitializedNotification(
                InitializedNotification::default(),
            ))
        }
        ClientMessage::Notification(ClientNotice::Other(n)) => {
            ClientJsonRpcMessage::notification(n)
        }
        ClientMessage::Error { id, error } => {
            ClientJsonRpcMessage::error(error_out(error), id_out(id))
        }
    }
}

fn server_in(message: ServerJsonRpcMessage) -> ServerMessage {
    match message {
        JsonRpcMessage::Request(r) => {
            ServerMessage::Request { id: id_in(r.id), request: r.request }
        }
        JsonRpcMessage::Response(r) => ServerMessage::Response {
            id: id_in(r.id),
            result: match r.result {
                ServerResult::InitializeResult(result) => ServerAnswer::Initialize {
                    protocol_version: ProtocolVersion {
                        text: result.protocol_version.as_str().to_string(),
                    },
                    rest: result,
                },
                other => ServerAnswer::Other(other),
            },
        },
        JsonRpcMessage::Notification(n) => ServerMessage::Notification(n.notification),
        JsonRpcMessage::Error(e) => {
            ServerMessage::Error { id: id_in(e.id), error: error_in(e.error) }
        }
    }
}

fn server_out(message: ServerMessage) -> ServerJsonRpcMessage {
    match message {
        ServerMessage::Request { id, request } => {
            ServerJsonRpcMessage::request(request, id_out(id))
        }
        ServerMessage::Response { id, result } => ServerJsonRpcMessage::response(
            match result {
                ServerAnswer::Initialize { protocol_version, mut rest } => {
                    rest.protocol_version =
                        serde_json::from_value(Value::String(protocol_version.text)).unwrap();
                    ServerResult::InitializeResult(rest)
                }
                ServerAnswer::Empty => ServerResult::empty(()),
                ServerAnswer::Other(result) => result,
            },
            id_out(id),
        ),
        ServerMessage::Notification(n) => ServerJsonRpcMessage::notification(n),
        ServerMessage::Error { id, error } => {
            ServerJsonRpcMessage::error(error_out(error), id_out(id))
        }
    }
}

/// How the server answers a POST that carries a notification.
#[derive(Clone, Copy)]
enum NotificationReply {
    Accepted,
    AcceptedWithBody,
    EmptyJsonObject,
    TextPlain,
    NoContentType,
    ServerError,
}

/// What the server does with `tools/call`.
#[derive(Clone, Copy, PartialEq)]
enum ToolsCall {
    Echo,
    Abort,
    CollideIds,
    Elicit,
}

struct Server {
    reachable: bool,
    notification_reply: NotificationReply,
    tools_call: ToolsCall,
    posts: Vec<Value>,
}

/// A response: its head, and its body unless that breaks off.
struct Response {
    head: ResponseHead,
    body: Option<String>,
}

fn response(status: u16, content_type: Option<&str>, body: Option<&str>) -> Response {
    Response {
        head: ResponseHead {
            status,
            www_authenticate: None,
            content_type: content_type.map(|text| text.as_bytes().to_vec()),
            session_id: None,
        },
        body: body.map(String::from),
    }
}

fn result_for(id: &Value, result: &str) -> String {
    format!("{{\"jsonrpc\":\"2.0\",\"id\":{id},\"result\":{result}}}")
}

impl Server {
    fn answer(&mut self, message: &ClientJsonRpcMessage) -> Response {
        let json = serde_json::to_value(message).unwrap();
        self.posts.push(json.clone());
        let id = json.get("id").cloned();
        let method = json.get("method").and_then(Value::as_str).unwrap_or("").to_string();
        let id = match id {
            Some(id) if !method.is_empty() => id,
            Some(_) => return response(202, None, Some("")),
            None => {
                return match self.notification_reply {
                    NotificationReply::Accepted => response(202, None, Some("")),
                    NotificationReply::AcceptedWithBody => {
                        response(202, Some("application/json"), Some("{\"status\":\"ok\"}"))
                    }
                    NotificationReply::EmptyJsonObject => {
                        response(200, Some("application/json"), Some("{}"))
                    }
                    NotificationReply::TextPlain => {
                        response(200, Some("text/plain; charset=utf-8"), Some(""))
                    }
                    NotificationReply::NoContentType => response(200, None, Some("")),
                    NotificationReply::ServerError => response(
                        500,
                        Some("text/plain; charset=utf-8"),
                        Some("Internal Server Error"),
                    ),
                };
            }
        };
        let body = match method.as_str() {
            "initialize" => result_for(
                &id,
                "{\"protocolVersion\":\"2025-03-26\",\"capabilities\":{\"tools\":{}},\
                 \"serverInfo\":{\"name\":\"Stateless MCP Server\",\"version\":\"0.8.1\"}}",
            ),
            "tools/list" => result_for(
                &id,
                "{\"tools\":[{\"name\":\"echo\",\"description\":\"Echoes back the message\",\
                 \"inputSchema\":{\"type\":\"object\",\"properties\":{\"message\":\
                 {\"type\":\"string\"}},\"required\":[\"message\"]}}]}",
            ),
            "tools/call" => match self.tools_call {
                ToolsCall::Abort => return response(200, Some("application/json"), None),
                ToolsCall::CollideIds => {
                    let events = vec![
                        format!("{{\"jsonrpc\":\"2.0\",\"id\":{id},\"method\":\"ping\"}}"),
                        result_for(
                            &id,
                            "{\"content\":[{\"type\":\"text\",\"text\":\"done\"}],\"isError\":false}",
                        ),
                    ];
                    return response(200, Some("text/event-stream"), Some(&events.join("\n")));
                }
                ToolsCall::Elicit => {
                    return response(
                        200,
                        Some("text/event-stream"),
                        Some(
                            "{\"jsonrpc\":\"2.0\",\"id\":0,\"method\":\"elicitation/create\",\
                             \"params\":{\"message\":\"What is your name?\",\"requestedSchema\":\
                             {\"type\":\"object\",\"properties\":{\"answer\":{\"type\":\"string\"}},\
                             \"required\":[\"answer\"]}}}",
                        ),
                    );
                }
                ToolsCall::Echo => {
                    let text = json
                        .pointer("/params/arguments/message")
                        .and_then(Value::as_str)
                        .unwrap_or("");
                    result_for(
                        &id,
                        &format!(
                            "{{\"content\":[{{\"type\":\"text\",\"text\":\"{text}\"}}],\"isError\":false}}"
                        ),
                    )
                }
            },
            "ping" => result_for(&id, "{}"),
            _ => format!(
                "{{\"jsonrpc\":\"2.0\",\"id\":{id},\"error\":{{\"code\":-32601,\"message\":\"unknown method\"}}}}"
            ),
        };
        response(200, Some("application/json"), Some(&body))
    }
}

/// The proxy, with what stands on both sides of it.
struct Harness {
    state: AppState,
    now: u128,
    server: Server,
    /// What the server has said and the proxy has not heard yet.
    inbox: VecDeque<ServerMessage>,
    /// What the client was told, a line per message.
    told: VecDeque<Value>,
    reconnect_timers: Vec<u64>,
    flush_timers: usize,
    connections: usize,
    ended: bool,
}

const SECOND: u128 = 1_000_000_000;

impl Harness {
    fn new(notification_reply: NotificationReply, tools_call: ToolsCall) -> Harness {
        Harness::with(notification_reply, tools_call, None, None)
    }

    fn with(
        notification_reply: NotificationReply,
        tools_call: ToolsCall,
        max_disconnected_time: Option<u64>,
        version: Option<&str>,
    ) -> Harness {
        let version = version.map(|text| ProtocolVersion { text: text.to_string() });
        let mut state = AppState::new_at(
            "http://localhost/mcp".to_string(),
            max_disconnected_time,
            version,
            Clock::start(),
            0,
        );
        state.has_reconnect_tx = true;
        state.has_timer_tx = true;
        state.started();
        Harness {
            state,
            now: 0,
            server: Server { reachable: true, notification_reply, tools_call, posts: Vec::new() },
            inbox: VecDeque::new(),
            told: VecDeque::new(),
            reconnect_timers: Vec::new(),
            flush_timers: 0,
            connections: 1,
            ended: false,
        }
    }

    fn post(&mut self, message: ClientMessage) -> Result<(), TransportError> {
        if !self.server.reachable {
            return Err(TransportError {
                kind: TransportErrorKind::Client {
                    connect: true,
                    sources: vec!["connection refused".to_string()],
                },
                message: "error sending request for url (http://localhost/mcp)".to_string(),
                sources: Vec::new(),
            });
        }
        let response = self.server.answer(&client_out(message));
        let status = response.head.status;
        let session_id = match post_message_head(&response.head, false) {
            HeadVerdict::ReadBody { session_id } => session_id,
            HeadVerdict::EventStream { .. } => {
                for line in response.body.unwrap().lines() {
                    self.inbox.push_back(server_in(serde_json::from_str(line).unwrap()));
                }
                return Ok(());
            }
            other => panic!("{other:?}"),
        };
        match post_message_body(status, session_id, response.body) {
            PostVerdict::Json { message, session_id } => {
                assert!(session_id.is_none());
                self.inbox.push_back(server_in(message));
                Ok(())
            }
            PostVerdict::Accepted => Ok(()),
            PostVerdict::Unreadable => Err(TransportError {
                kind: TransportErrorKind::Client {
                    connect: false,
                    sources: vec![
                        "request or response body error".to_string(),
                        "connection closed before message completed".to_string(),
                    ],
                },
                message: "Client error: error decoding response body".to_string(),
                sources: Vec::new(),
            }),
            PostVerdict::Unexpected { description } => Err(TransportError {
                kind: TransportErrorKind::UnexpectedServerResponse,
                message: format!("unexpected server response: {description}"),
                sources: Vec::new(),
            }),
        }
    }

    /// Hands in an event, and does what is to be done about it.
    fn happens(&mut self, event: Event) {
        let mut event = event;
        loop {
            assert!(self.state.has_room_for(&event, self.now));
            let step = self.state.step(event, self.now);
            if step.timers.flush {
                self.flush_timers += 1;
            }
            if let Some(seconds) = step.timers.reconnect {
                self.reconnect_timers.push(seconds);
            }
            event = match step.action {
                Action::Wait => return,
                Action::Stop => {
                    self.ended = true;
                    return;
                }
                Action::Fail(error) => panic!("{}", error.describe()),
                Action::Send(outgoing) | Action::SendOnNew(outgoing) => {
                    let copy = client_in(client_out(copy_of(&outgoing.message)));
                    let result = self.post(copy);
                    Event::Sent(outgoing, result)
                }
                Action::Write { messages, after } => {
                    for message in messages {
                        self.told.push_back(serde_json::to_value(server_out(message)).unwrap());
                    }
                    Event::Written(after, true)
                }
                Action::Connect => {
                    self.connections += 1;
                    Event::Connected(Ok(()))
                }
                Action::Poll => Event::Polled(mcp_proxy::step::Polled::Nothing),
            };
        }
    }

    /// The client writes a line.
    fn send(&mut self, line: &str) {
        let message = client_in(serde_json::from_str(line).unwrap());
        self.happens(Event::Stdin(Some(Ok(message))));
        self.listen();
    }

    /// The proxy hears what the server has said.
    fn listen(&mut self) {
        while self.state.transport_valid {
            match self.inbox.pop_front() {
                Some(message) => self.happens(Event::Server(Some(message))),
                None => return,
            }
        }
    }

    /// The client reads a line.
    fn recv(&mut self) -> Value {
        self.told.pop_front().expect("the client was told nothing")
    }

    fn handshake(&mut self) -> Value {
        self.send(INITIALIZE);
        let response = self.recv();
        self.send("{\"jsonrpc\":\"2.0\",\"method\":\"notifications/initialized\"}");
        response
    }

    fn reconnect(&mut self) {
        self.happens(Event::ReconnectSignal);
        self.happens(Event::ReconnectHandled);
        self.listen();
    }
}

fn copy_of(message: &ClientMessage) -> ClientMessage {
    match message {
        ClientMessage::Request { id, request } => {
            ClientMessage::Request { id: id.clone(), request: request.clone() }
        }
        ClientMessage::Response { id, result } => {
            ClientMessage::Response { id: id.clone(), result: result.clone() }
        }
        ClientMessage::Notification(ClientNotice::Initialized) => {
            ClientMessage::Notification(ClientNotice::Initialized)
        }
        ClientMessage::Notification(ClientNotice::Other(n)) => {
            ClientMessage::Notification(ClientNotice::Other(n.clone()))
        }
        ClientMessage::Error { id, error } => ClientMessage::Error {
            id: id.clone(),
            error: ErrorData {
                code: error.code,
                message: error.message.clone(),
                data: error.data.clone(),
            },
        },
    }
}

const INITIALIZE: &str = "{\"jsonrpc\":\"2.0\",\"id\":1,\"method\":\"initialize\",\"params\":{\
    \"protocolVersion\":\"2025-03-26\",\"capabilities\":{},\
    \"clientInfo\":{\"name\":\"test\",\"version\":\"0.1.0\"}}}";

fn tools_list(id: i64) -> String {
    format!("{{\"jsonrpc\":\"2.0\",\"id\":{id},\"method\":\"tools/list\"}}")
}

fn tools_call(id: i64, message: &str) -> String {
    format!(
        "{{\"jsonrpc\":\"2.0\",\"id\":{id},\"method\":\"tools/call\",\"params\":\
         {{\"name\":\"echo\",\"arguments\":{{\"message\":\"{message}\"}}}}}}"
    )
}

fn text_at<'a>(message: &'a Value, pointer: &str) -> Option<&'a str> {
    message.pointer(pointer).and_then(Value::as_str)
}

fn number_at(message: &Value, pointer: &str) -> Option<i64> {
    message.pointer(pointer).and_then(Value::as_i64)
}

fn assert_usable_against(reply: NotificationReply) {
    let mut proxy = Harness::new(reply, ToolsCall::Echo);
    let init = proxy.handshake();
    assert_eq!(text_at(&init, "/result/serverInfo/name"), Some("Stateless MCP Server"));

    proxy.send(&tools_list(2));
    assert_eq!(text_at(&proxy.recv(), "/result/tools/0/name"), Some("echo"));

    proxy.send(&tools_call(3, "Hello, world!"));
    assert_eq!(text_at(&proxy.recv(), "/result/content/0/text"), Some("Hello, world!"));

    // initialize, notifications/initialized, tools/list, tools/call, and no more.
    assert_eq!(proxy.server.posts.len(), 4);
    assert!(proxy.told.is_empty());
}

#[test]
fn stateless_server_replying_accepted_to_notifications() {
    assert_usable_against(NotificationReply::Accepted);
}

#[test]
fn stateless_server_replying_accepted_with_body_to_notifications() {
    assert_usable_against(NotificationReply::AcceptedWithBody);
}

#[test]
fn stateless_server_replying_json_to_notifications() {
    assert_usable_against(NotificationReply::EmptyJsonObject);
}

#[test]
fn stateless_server_replying_text_plain_to_notifications() {
    assert_usable_against(NotificationReply::TextPlain);
}

#[test]
fn stateless_server_replying_without_content_type() {
    assert_usable_against(NotificationReply::NoContentType);
}

#[test]
fn unusable_transport_fails_at_initialize_rather_than_later() {
    let mut proxy = Harness::new(NotificationReply::ServerError, ToolsCall::Echo);
    proxy.send(INITIALIZE);
    let response = proxy.recv();
    assert_eq!(number_at(&response, "/id"), Some(1));
    assert!(response.get("error").is_some());
    assert!(response.get("result").is_none());
    assert_eq!(number_at(&response, "/error/code"), Some(-32011));
    assert_eq!(
        text_at(&response, "/error/message"),
        Some(
            "Server accepted initialize but the connection cannot carry an MCP session: \
             unexpected server response: HTTP 500 Internal Server Error: Internal Server Error"
        )
    );
    assert_eq!(proxy.state.state, ProxyState::Disconnected);
}

#[test]
fn client_that_skips_the_initialized_notification() {
    let mut proxy = Harness::new(NotificationReply::AcceptedWithBody, ToolsCall::Echo);
    proxy.send(INITIALIZE);
    proxy.recv();
    proxy.send(&tools_list(2));
    assert_eq!(text_at(&proxy.recv(), "/result/tools/0/name"), Some("echo"));
}

#[test]
fn refused_call_is_answered_and_the_session_survives() {
    let mut proxy = Harness::new(NotificationReply::AcceptedWithBody, ToolsCall::Abort);
    proxy.handshake();
    proxy.send(&tools_call(2, "hi"));
    let response = proxy.recv();
    assert_eq!(number_at(&response, "/id"), Some(2));
    assert_eq!(number_at(&response, "/error/code"), Some(-32011));
    let message = text_at(&response, "/error/message").unwrap_or_default();
    assert!(message.contains("tools/call"));
    assert!(message.len() > "The server did not accept this tools/call request: ".len() + 40);
    assert_eq!(
        message,
        "The server did not accept this tools/call request: \
         Client error: error decoding response body: request or response body error: \
         connection closed before message completed"
    );
    proxy.send(&tools_list(3));
    assert_eq!(text_at(&proxy.recv(), "/result/tools/0/name"), Some("echo"));
}

#[test]
fn an_unrelated_call_in_flight_is_not_dragged_down() {
    let mut proxy = Harness::new(NotificationReply::AcceptedWithBody, ToolsCall::Abort);
    proxy.handshake();
    proxy.send(&tools_call(2, "hi"));
    proxy.send(&tools_list(3));
    let first = proxy.recv();
    let second = proxy.recv();
    let (two, three) =
        if number_at(&first, "/id") == Some(2) { (first, second) } else { (second, first) };
    assert!(two.get("error").is_some());
    assert_eq!(text_at(&three, "/result/tools/0/name"), Some("echo"));
    // initialize, notifications/initialized, tools/call, tools/list.
    assert_eq!(proxy.server.posts.len(), 4);
}

#[test]
fn colliding_ids_in_opposite_directions_are_unambiguous() {
    let mut proxy = Harness::new(NotificationReply::AcceptedWithBody, ToolsCall::CollideIds);
    proxy.handshake();
    proxy.send(&tools_call(7, "hi"));
    let first = proxy.recv();
    let second = proxy.recv();
    assert_eq!(text_at(&first, "/method"), Some("ping"));
    assert_eq!(number_at(&first, "/id"), Some(7));
    assert!(second.get("result").is_some());
    assert_eq!(number_at(&second, "/id"), Some(7));

    proxy.send("{\"jsonrpc\":\"2.0\",\"id\":7,\"result\":{}}");
    let responses: Vec<&Value> =
        proxy.server.posts.iter().filter(|post| post.get("method").is_none()).collect();
    assert_eq!(responses.len(), 1);
    assert_eq!(number_at(responses[0], "/id"), Some(7));
}

#[test]
fn colliding_id_while_initialize_is_waited_for() {
    let mut proxy = Harness::new(NotificationReply::Accepted, ToolsCall::Echo);
    let message = client_in(serde_json::from_str(INITIALIZE).unwrap());
    proxy.happens(Event::Stdin(Some(Ok(message))));
    let answer = proxy.inbox.pop_front();
    let ping = "{\"jsonrpc\":\"2.0\",\"id\":1,\"method\":\"ping\"}";
    proxy.happens(Event::Server(Some(server_in(serde_json::from_str(ping).unwrap()))));
    assert_eq!(text_at(&proxy.recv(), "/method"), Some("ping"));
    assert_eq!(proxy.state.state, ProxyState::WaitingForServerInit(RequestId::Number(1)));
    proxy.happens(Event::Server(answer));
    assert_eq!(number_at(&proxy.recv(), "/id"), Some(1));
    assert_eq!(proxy.state.state, ProxyState::Connected);
}

#[test]
fn test_proxy_connects_to_real_server() {
    let mut proxy = Harness::new(NotificationReply::Accepted, ToolsCall::Echo);
    proxy.handshake();
    proxy.send(&tools_list(2));
    let tools = proxy.recv();
    let names: Vec<&str> = tools
        .pointer("/result/tools")
        .and_then(Value::as_array)
        .unwrap()
        .iter()
        .filter_map(|tool| text_at(tool, "/name"))
        .collect();
    assert!(names.contains(&"echo"));
    proxy.send(&tools_call(3, "Hello, world!"));
    assert!(proxy.recv().to_string().contains("Hello, world!"));
}

#[test]
fn test_elicitation_roundtrip() {
    let mut proxy = Harness::new(NotificationReply::Accepted, ToolsCall::Elicit);
    proxy.send(
        "{\"jsonrpc\":\"2.0\",\"id\":\"init-1\",\"method\":\"initialize\",\"params\":{\
         \"protocolVersion\":\"2025-06-18\",\"capabilities\":{\"elicitation\":{}},\
         \"clientInfo\":{\"name\":\"elicit-test\",\"version\":\"0.1.0\"}}}",
    );
    let init = proxy.recv().to_string();
    assert!(init.contains("\"id\":\"init-1\""));
    assert!(init.contains("\"result\""));
    proxy.send("{\"jsonrpc\":\"2.0\",\"method\":\"notifications/initialized\"}");

    proxy.send(
        "{\"jsonrpc\":\"2.0\",\"id\":\"call-1\",\"method\":\"tools/call\",\"params\":{\
         \"name\":\"ask_user\",\"arguments\":{\"question\":\"What is your name?\"}}}",
    );
    let question = proxy.recv();
    assert!(question.to_string().contains("\"method\":\"elicitation/create\""));
    assert!(question.to_string().contains("What is your name?"));
    let id = question.get("id").cloned().unwrap();

    proxy.send(&format!(
        "{{\"jsonrpc\":\"2.0\",\"id\":{id},\"result\":{{\"action\":\"accept\",\
         \"content\":{{\"answer\":\"Alice\"}}}}}}"
    ));
    let reply = proxy.server.posts.last().cloned().unwrap();
    assert_eq!(reply.get("id"), Some(&id));
    let answer = text_at(&reply, "/result/content/answer").unwrap();

    let result = format!(
        "{{\"jsonrpc\":\"2.0\",\"id\":\"call-1\",\"result\":{{\"content\":[{{\"type\":\"text\",\
         \"text\":\"User answered: {answer}\"}}],\"isError\":false}}}}"
    );
    proxy.happens(Event::Server(Some(server_in(serde_json::from_str(&result).unwrap()))));
    let told = proxy.recv().to_string();
    assert!(told.contains("\"id\":\"call-1\""));
    assert!(told.contains("User answered: Alice"));
}

#[test]
fn the_reported_version_is_overwritten_and_nothing_else() {
    let mut plain = Harness::new(NotificationReply::Accepted, ToolsCall::Echo);
    let server_says = plain.handshake();
    let mut proxy =
        Harness::with(NotificationReply::Accepted, ToolsCall::Echo, None, Some("2024-11-05"));
    let init = proxy.handshake();
    assert_eq!(text_at(&init, "/result/protocolVersion"), Some("2024-11-05"));
    assert_eq!(text_at(&server_says, "/result/protocolVersion"), Some("2025-03-26"));
    assert_eq!(init.pointer("/result/serverInfo"), server_says.pointer("/result/serverInfo"));
    assert_eq!(init.get("id"), server_says.get("id"));
}

#[test]
fn a_restart_of_the_server_is_ridden_out() {
    let mut proxy = Harness::new(NotificationReply::Accepted, ToolsCall::Echo);
    proxy.handshake();
    proxy.server.reachable = false;
    proxy.now = 10 * SECOND;
    proxy.send(&tools_list(2));
    assert_eq!(proxy.state.state, ProxyState::Disconnected);
    assert_eq!(proxy.reconnect_timers, vec![2]);
    assert_eq!(proxy.flush_timers, 1);
    proxy.send(&tools_call(3, "later"));
    proxy.send("{\"jsonrpc\":\"2.0\",\"method\":\"notifications/roots/list_changed\"}");
    proxy.send("{\"jsonrpc\":\"2.0\",\"id\":4,\"method\":\"ping\"}");
    let ping = proxy.recv();
    assert_eq!(number_at(&ping, "/id"), Some(4));
    assert!(ping.get("result").is_some());
    assert!(proxy.told.is_empty());
    assert_eq!(proxy.state.in_buf.len(), 2);

    proxy.server.reachable = true;
    proxy.server.posts.clear();
    proxy.reconnect();
    assert_eq!(proxy.connections, 2);
    assert_eq!(proxy.state.state, ProxyState::Connected);
    assert_eq!(proxy.state.connect_tries, 0);
    assert!(proxy.state.in_buf.is_empty());
    let methods: Vec<&str> =
        proxy.server.posts.iter().filter_map(|post| text_at(post, "/method")).collect();
    assert_eq!(methods, vec!["initialize", "notifications/initialized", "tools/list", "tools/call"]);
    // The client hears of its two requests, in their order, and of nothing else.
    assert_eq!(number_at(&proxy.recv(), "/id"), Some(2));
    assert_eq!(number_at(&proxy.recv(), "/id"), Some(3));
    assert!(proxy.told.is_empty());
}

#[test]
fn requests_are_answered_when_the_server_stays_away() {
    let mut proxy = Harness::new(NotificationReply::Accepted, ToolsCall::Echo);
    proxy.handshake();
    proxy.server.reachable = false;
    proxy.send(&tools_list(2));
    proxy.send(&tools_list(3));
    assert!(proxy.told.is_empty());
    proxy.happens(Event::TimerSignal);
    for id in [2, 3] {
        let reply = proxy.recv();
        assert_eq!(number_at(&reply, "/id"), Some(id));
        assert_eq!(number_at(&reply, "/error/code"), Some(-32010));
        assert_eq!(
            text_at(&reply, "/error/message"),
            Some(
                "Server not connected. The SSE endpoint is currently not available. \
                 Please ensure it is running and retry."
            )
        );
    }
    // From now on nobody waits.
    proxy.send(&tools_list(4));
    let reply = proxy.recv();
    assert_eq!(number_at(&reply, "/id"), Some(4));
    assert_eq!(number_at(&reply, "/error/code"), Some(-32010));
    assert!(proxy.state.in_buf.is_empty());
}

#[test]
fn the_proxy_ends_when_the_server_is_away_for_too_long() {
    let mut proxy =
        Harness::with(NotificationReply::Accepted, ToolsCall::Echo, Some(30), None);
    proxy.handshake();
    proxy.server.reachable = false;
    proxy.now = 5 * SECOND;
    proxy.send(&tools_list(2));
    // Thirty seconds are allowed, and a fraction of the next one.
    proxy.now = 36 * SECOND - 1;
    assert!(!proxy.state.disconnected_too_long_at(proxy.now));
    proxy.now = 36 * SECOND;
    assert!(proxy.state.disconnected_too_long_at(proxy.now));
    proxy.reconnect();
    assert_eq!(number_at(&proxy.recv(), "/id"), Some(2));
    assert!(proxy.ended);
    assert_eq!(proxy.connections, 1);
}

#[test]
fn the_proxy_ends_in_time_however_often_it_tries() {
    let mut proxy = Harness::with(NotificationReply::Accepted, ToolsCall::Echo, Some(30), None);
    proxy.handshake();
    proxy.server.reachable = false;
    proxy.now = 5 * SECOND;
    proxy.send(&tools_list(2));
    // Each timer is fired when it is due.
    let mut attempts: Vec<u128> = Vec::new();
    let mut flush_due = Some(25 * SECOND);
    while !proxy.ended {
        assert_eq!(proxy.reconnect_timers.len(), 1);
        let due = proxy.now + u128::from(proxy.reconnect_timers.remove(0)) * SECOND;
        if flush_due.is_some_and(|flush_due| flush_due <= due) {
            let now = proxy.now;
            proxy.now = flush_due.take().unwrap();
            proxy.happens(Event::TimerSignal);
            assert!(now <= proxy.now);
        }
        proxy.now = due;
        attempts.push(due / SECOND);
        proxy.reconnect();
    }
    // The limit is not exceeded before the thirty-first second is over.
    assert_eq!(attempts, vec![7, 11, 19, 27, 35, 43]);
    // The last signal led to no attempt.
    assert_eq!(proxy.connections, 1 + 5);
    assert_eq!(proxy.flush_timers, 2);
    assert!(proxy.state.in_buf.is_empty());
    let answers: Vec<Value> = proxy.told.drain(..).collect();
    let of_the_client: Vec<&Value> =
        answers.iter().filter(|answer| number_at(answer, "/id") == Some(2)).collect();
    assert_eq!(of_the_client.len(), 1);
    assert_eq!(number_at(of_the_client[0], "/error/code"), Some(-32010));
}

#[test]
fn a_reconnect_that_fails_again_keeps_the_requests() {
    let mut proxy = Harness::new(NotificationReply::Accepted, ToolsCall::Echo);
    proxy.handshake();
    proxy.server.reachable = false;
    proxy.send(&tools_list(2));
    proxy.happens(Event::ReconnectSignal);
    proxy.happens(Event::ReconnectHandled);
    // The repeated `initialize` is held back like any request of the client.
    assert_eq!(proxy.state.state, ProxyState::Disconnected);
    assert_eq!(proxy.state.in_buf.len(), 2);
    assert_eq!(proxy.reconnect_timers, vec![2, 4]);
    assert!(proxy.told.is_empty());
    assert!(!proxy.ended);
}

#[test]
fn a_stream_that_ends_leads_to_a_reconnect() {
    let mut proxy = Harness::new(NotificationReply::Accepted, ToolsCall::Echo);
    proxy.handshake();
    proxy.happens(Event::Server(None));
    assert_eq!(proxy.state.state, ProxyState::Disconnected);
    assert!(!proxy.state.transport_valid);
    assert_eq!(proxy.reconnect_timers, vec![2]);
    proxy.reconnect();
    assert_eq!(proxy.state.state, ProxyState::Connected);
    assert!(proxy.told.is_empty());
}

#[test]
fn every_request_is_accounted_for() {
    let mut proxy = Harness::new(NotificationReply::Accepted, ToolsCall::Echo);
    proxy.handshake();
    let mut answered: Vec<i64> = Vec::new();
    for id in 2..40 {
        proxy.server.reachable = id % 7 < 4;
        proxy.now += SECOND;
        proxy.send(&tools_list(id));
        if id % 11 == 0 {
            proxy.happens(Event::TimerSignal);
        }
        if id % 5 == 0 {
            proxy.reconnect();
        }
        while let Some(message) = proxy.told.pop_front() {
            answered.push(number_at(&message, "/id").unwrap());
        }
    }
    let waiting: Vec<i64> = proxy
        .state
        .in_buf
        .iter()
        .map(|message| match message {
            ClientMessage::Request { id: RequestId::Number(n), .. } => *n,
            other => panic!("{other:?}"),
        })
        .collect();
    answered.extend(waiting);
    // The repeated `initialize` may be among them; each of the others is there once.
    answered.retain(|id| *id != 1);
    answered.sort();
    assert_eq!(answered, (2..40).collect::<Vec<i64>>());
}
