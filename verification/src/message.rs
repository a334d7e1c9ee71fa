//! JSON-RPC messages, as far as the proxy reads them.
//!
//! What decides where a message goes is held here as plain values. The rest of
//! a message is carried along unread, as the value that `rmcp` made of it.

use vstd::prelude::*;

verus! {

/// The parameters of a client's request, as `rmcp` holds them. Opaque here.
#[verifier::external_type_specification]
#[verifier::external_body]
pub struct ExClientRequest(rmcp::model::ClientRequest);

/// The result in a client's response, as `rmcp` holds it. Opaque here.
#[verifier::external_type_specification]
#[verifier::external_body]
pub struct ExClientResult(rmcp::model::ClientResult);

/// A client's notification, as `rmcp` holds it. Opaque here.
#[verifier::external_type_specification]
#[verifier::external_body]
pub struct ExClientNotification(rmcp::model::ClientNotification);

/// The parameters of a server's request, as `rmcp` holds them. Opaque here.
#[verifier::external_type_specification]
#[verifier::external_body]
pub struct ExServerRequest(rmcp::model::ServerRequest);

/// The result in a server's response, as `rmcp` holds it. Opaque here.
#[verifier::external_type_specification]
#[verifier::external_body]
pub struct ExServerResult(rmcp::model::ServerResult);

/// The result of `initialize`, as `rmcp` holds it. Opaque here.
#[verifier::external_type_specification]
#[verifier::external_body]
pub struct ExInitializeResult(rmcp::model::InitializeResult);

/// A server's notification, as `rmcp` holds it. Opaque here.
#[verifier::external_type_specification]
#[verifier::external_body]
pub struct ExServerNotification(rmcp::model::ServerNotification);

/// Arbitrary JSON, as `serde_json` holds it. Opaque here.
#[verifier::external_type_specification]
#[verifier::external_body]
pub struct ExJsonValue(serde_json::Value);

/// `rmcp::model::ClientRequest::clone`: the copy is the value that was copied.
/// (The impl is derived, field by field.)
pub assume_specification[ <rmcp::model::ClientRequest as Clone>::clone ](
    request: &rmcp::model::ClientRequest,
) -> (r: rmcp::model::ClientRequest)
    ensures
        r == *request,
;

/// Identifies a request among those travelling in the same direction.
#[derive(Debug)]
pub enum RequestId {
    Number(i64),
    Text(String),
}

impl RequestId {
    /// Both are the same number, or both are the same text.
    pub open spec fn same(self, other: RequestId) -> bool {
        match (self, other) {
            (RequestId::Number(a), RequestId::Number(b)) => a == b,
            (RequestId::Text(a), RequestId::Text(b)) => a@ == b@,
            _ => false,
        }
    }
}

impl Clone for RequestId {
    fn clone(&self) -> (r: Self)
        ensures
            r == *self,
    {
        match self {
            RequestId::Number(n) => RequestId::Number(*n),
            RequestId::Text(s) => RequestId::Text(s.clone()),
        }
    }
}

impl PartialEq for RequestId {
    fn eq(&self, other: &Self) -> (r: bool) {
        match (self, other) {
            (RequestId::Number(a), RequestId::Number(b)) => *a == *b,
            (RequestId::Text(a), RequestId::Text(b)) => *a == *b,
            _ => false,
        }
    }
}

impl vstd::std_specs::cmp::PartialEqSpecImpl for RequestId {
    open spec fn obeys_eq_spec() -> bool {
        true
    }

    open spec fn eq_spec(&self, other: &Self) -> bool {
        self.same(*other)
    }
}

impl Eq for RequestId {

}

/// The requests that the proxy tells apart.
#[derive(Debug, Clone, Copy, PartialEq, Eq, Structural)]
pub enum RequestKind {
    /// `initialize`, which opens a session.
    Initialize,
    /// `ping`, which the proxy can answer itself.
    Ping,
    Other,
}

/// The name of a request's method, as `rmcp` gives it.
pub uninterp spec fn request_method(request: rmcp::model::ClientRequest) -> Seq<char>;

/// `rmcp::model::ClientRequest::method`: the name of the request's method. It is
/// given a name here and nothing more is said of it.
#[verifier::external_body]
fn method_of_request(request: &rmcp::model::ClientRequest) -> (r: String)
    ensures
        r@ == request_method(*request),
{
    request.method().to_string()
}

/// Which of the requests that the proxy tells apart a request is.
pub uninterp spec fn request_kind(request: rmcp::model::ClientRequest) -> RequestKind;

/// Tells the variants of `rmcp::model::ClientRequest` apart. Which variant a
/// value is of depends on nothing but the value.
#[verifier::external_body]
fn kind_of_request(request: &rmcp::model::ClientRequest) -> (r: RequestKind)
    ensures
        r == request_kind(*request),
{
    match request {
        rmcp::model::ClientRequest::InitializeRequest(_) => RequestKind::Initialize,
        rmcp::model::ClientRequest::PingRequest(_) => RequestKind::Ping,
        _ => RequestKind::Other,
    }
}

/// A request of the client, without its id.
#[derive(Debug)]
pub struct ClientCall {
    pub kind: RequestKind,
    /// The method's name, as it stands on the wire.
    pub method: String,
    pub params: rmcp::model::ClientRequest,
}

impl ClientCall {
    /// What is held apart is what the request itself says.
    pub open spec fn wf(self) -> bool {
        &&& self.kind == request_kind(self.params)
        &&& self.method@ == request_method(self.params)
    }

    /// Reads what decides about a request out of it.
    pub fn new(params: rmcp::model::ClientRequest) -> (r: ClientCall)
        ensures
            r.wf(),
            r.params == params,
    {
        ClientCall {
            kind: kind_of_request(&params),
            method: method_of_request(&params),
            params,
        }
    }
}

impl Clone for ClientCall {
    fn clone(&self) -> (r: Self)
        ensures
            r == *self,
            r.wf() == self.wf(),
    {
        ClientCall {
            kind: self.kind,
            method: self.method.clone(),
            params: self.params.clone(),
        }
    }
}

/// A notification of the client.
#[derive(Debug)]
pub enum ClientNotice {
    /// `notifications/initialized`, which ends a handshake. It carries nothing.
    Initialized,
    Other(rmcp::model::ClientNotification),
}

/// The error in a JSON-RPC error response.
#[derive(Debug)]
pub struct ErrorData {
    pub code: i32,
    pub message: String,
    pub data: Option<serde_json::Value>,
}

/// A message from the client to the server.
#[derive(Debug)]
pub enum ClientMessage {
    Request { id: RequestId, request: ClientCall },
    Response { id: RequestId, result: rmcp::model::ClientResult },
    Notification(ClientNotice),
    Error { id: RequestId, error: ErrorData },
}

impl ClientMessage {
    /// If it is a request, what is held apart of it is what it says itself.
    pub open spec fn wf(self) -> bool {
        self matches ClientMessage::Request { request, .. } ==> request.wf()
    }

    /// A request that opens a session.
    pub open spec fn is_initialize(self) -> bool {
        self is Request && self->request.kind is Initialize
    }

    /// A request that the proxy answers itself while the server is away.
    pub open spec fn is_ping(self) -> bool {
        self is Request && self->request.kind is Ping
    }
}

/// A version of the protocol, as it is written in `initialize`.
#[derive(Debug)]
pub struct ProtocolVersion {
    pub text: String,
}

impl Clone for ProtocolVersion {
    fn clone(&self) -> (r: Self)
        ensures
            r == *self,
    {
        ProtocolVersion { text: self.text.clone() }
    }
}

/// What a server answers to a request.
#[derive(Debug)]
pub enum ServerAnswer {
    /// The answer to `initialize`. The version here stands for the one in `rest`.
    Initialize { protocol_version: ProtocolVersion, rest: rmcp::model::InitializeResult },
    /// An answer that says nothing but that the request succeeded.
    Empty,
    Other(rmcp::model::ServerResult),
}

/// A message from the server to the client.
#[derive(Debug)]
pub enum ServerMessage {
    Request { id: RequestId, request: rmcp::model::ServerRequest },
    Response { id: RequestId, result: ServerAnswer },
    Notification(rmcp::model::ServerNotification),
    Error { id: RequestId, error: ErrorData },
}

impl ServerMessage {
    /// An error response to the request `id`, with this code and text and
    /// without further data.
    pub open spec fn is_error_reply(self, id: RequestId, code: i32, text: Seq<char>) -> bool {
        self matches ServerMessage::Error { id: i, error } && {
            &&& i == id
            &&& error.code == code
            &&& error.message@ == text
            &&& error.data is None
        }
    }
}

/// An error response to the request `id`.
pub fn error_reply(id: RequestId, code: i32, message: String) -> (r: ServerMessage)
    ensures
        r.is_error_reply(id, code, message@),
{
    ServerMessage::Error { id, error: ErrorData { code, message, data: None } }
}

/// The `notifications/initialized` message that completes a handshake.
pub fn initialized_notification() -> (r: ClientMessage)
    ensures
        r == ClientMessage::Notification(ClientNotice::Initialized),
{
    ClientMessage::Notification(ClientNotice::Initialized)
}

} // verus!
