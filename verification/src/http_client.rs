//! Reading HTTP responses with tolerance.
//!
//! What a response to a POST *is* gets decided by its **body**; `content-type`
//! is only a hint. Anything that can still be understood is understood, and a
//! well-formed HTTP exchange never ends a session unless the server says that
//! the session itself is the problem.

use crate::transport::{TransportError, TransportErrorKind};
use vstd::prelude::*;
use vstd::string::*;
use vstd::utf8::*;

verus! {

/// A JSON-RPC message, as `rmcp` holds it. Opaque here.
#[verifier::external_type_specification]
#[verifier::external_body]
#[verifier::reject_recursive_types(Req)]
#[verifier::reject_recursive_types(Resp)]
#[verifier::reject_recursive_types(Noti)]
pub struct ExJsonRpcMessage<Req, Resp, Noti>(rmcp::model::JsonRpcMessage<Req, Resp, Noti>);

/// Why `serde_json` could not read a text. Opaque here.
#[verifier::external_type_specification]
#[verifier::external_body]
pub struct ExJsonError(serde_json::Error);

/// The JSON-RPC message of a server that `serde_json` reads in a text, if it
/// reads one.
pub uninterp spec fn parsed_server_message(text: Seq<char>) -> Option<
    rmcp::model::ServerJsonRpcMessage,
>;

/// `serde_json::from_str` for `rmcp::model::ServerJsonRpcMessage`: what it
/// returns depends on the text alone. Which texts it accepts is left unsaid.
#[verifier::external_body]
fn parse_server_message(text: &str) -> (r: Result<
    rmcp::model::ServerJsonRpcMessage,
    serde_json::Error,
>)
    ensures
        r matches Ok(message) ==> parsed_server_message(text@) == Some(message),
        r is Err ==> parsed_server_message(text@) is None,
{
    serde_json::from_str::<rmcp::model::ServerJsonRpcMessage>(text)
}

/// How `http::StatusCode` writes a status: its number and its reason.
pub uninterp spec fn status_line(status: u16) -> Seq<char>;

/// `http::StatusCode::from_u16` and the code's `to_string`: the text depends on
/// the number alone. The reasons themselves are left unsaid. The range is that
/// of the numbers that a `StatusCode` can hold.
#[verifier::external_body]
fn status_text(status: u16) -> (r: String)
    requires
        100 <= status <= 999,
    ensures
        r@ == status_line(status),
{
    http::StatusCode::from_u16(status).unwrap().to_string()
}

/// A byte that a header may hold if it is to be read as text.
pub open spec fn is_visible_ascii(b: u8) -> bool {
    32 <= b < 127 || b == 9
}

/// The text of a header, if every byte of it is visible ASCII.
pub open spec fn visible_text(value: Seq<u8>) -> Option<Seq<char>> {
    if forall|i: int| 0 <= i < value.len() ==> is_visible_ascii(#[trigger] value[i]) {
        Some(value.map_values(|b: u8| b as char))
    } else {
        None
    }
}

/// `http::HeaderValue::from_bytes` and `to_str`: the bytes as text, where all of
/// them are visible ASCII (tab counted in), and nothing otherwise.
#[verifier::external_body]
fn header_text(value: &[u8]) -> (r: Option<String>)
    ensures
        match r {
            Some(text) => visible_text(value@) == Some(text@),
            None => visible_text(value@) is None,
        },
{
    match http::HeaderValue::from_bytes(value) {
        Ok(header) => header.to_str().ok().map(String::from),
        Err(_) => None,
    }
}

/// The text that std makes of bytes which need not be UTF-8.
pub uninterp spec fn lossy_text(bytes: Seq<u8>) -> Seq<char>;

/// `String::from_utf8_lossy`: the text depends on the bytes alone, and is what
/// they encode where they are UTF-8. What becomes of other bytes is left unsaid.
#[verifier::external_body]
fn text_of_bytes(bytes: &[u8]) -> (r: String)
    ensures
        r@ == lossy_text(bytes@),
        valid_utf8(bytes@) ==> r@ == decode_utf8(bytes@),
{
    String::from_utf8_lossy(bytes).into_owned()
}

/// The MIME type of a stream of events.
pub open spec fn event_stream_mime_type() -> Seq<char> {
    "text/event-stream"@
}

/// What a POST offers to take as an answer.
pub fn accept_header() -> (r: String)
    ensures
        r@ == "text/event-stream"@ + ", "@ + "application/json"@,
{
    String::from_str("text/event-stream").concat(", ").concat("application/json")
}

/// Whether a `content-type` was given and begins with a MIME type.
pub fn starts_with(content_type: Option<&str>, mime: &str) -> (r: bool)
    ensures
        r == (content_type is Some && mime.spec_bytes().is_prefix_of(
            content_type->0.spec_bytes(),
        )),
{
    match content_type {
        None => false,
        Some(given) => {
            let text = given.as_bytes();
            let prefix = mime.as_bytes();
            if prefix.len() > text.len() {
                return false;
            }
            let mut i: usize = 0;
            while i < prefix.len()
                invariant
                    content_type == Some(given),
                    text@ == given.spec_bytes(),
                    prefix@ == mime.spec_bytes(),
                    i <= prefix@.len() <= text@.len(),
                    forall|j: int| 0 <= j < i ==> prefix@[j] == text@[j],
                decreases prefix@.len() - i,
            {
                if prefix[i] != text[i] {
                    proof {
                        assert(text@.subrange(0, prefix@.len() as int)[i as int] == text@[i as int]);
                    }
                    return false;
                }
                i += 1;
            }
            proof {
                assert(prefix@ == text@.subrange(0, prefix@.len() as int));
            }
            true
        },
    }
}

/// The Unicode property `White_Space`.
pub open spec fn is_whitespace(c: char) -> bool {
    ||| '\u{9}' <= c <= '\u{d}'
    ||| c == '\u{20}'
    ||| c == '\u{85}'
    ||| c == '\u{a0}'
    ||| c == '\u{1680}'
    ||| '\u{2000}' <= c <= '\u{200a}'
    ||| c == '\u{2028}'
    ||| c == '\u{2029}'
    ||| c == '\u{202f}'
    ||| c == '\u{205f}'
    ||| c == '\u{3000}'
}

/// Nothing is left of the text when the whitespace around it is taken away.
pub open spec fn is_blank_text(text: Seq<char>) -> bool {
    forall|i: int| 0 <= i < text.len() ==> is_whitespace(#[trigger] text[i])
}

fn is_whitespace_char(c: char) -> (r: bool)
    ensures
        r == is_whitespace(c),
{
    ('\u{9}' <= c && c <= '\u{d}') || c == '\u{20}' || c == '\u{85}' || c == '\u{a0}' || c
        == '\u{1680}' || ('\u{2000}' <= c && c <= '\u{200a}') || c == '\u{2028}' || c
        == '\u{2029}' || c == '\u{202f}' || c == '\u{205f}' || c == '\u{3000}'
}

/// Whether a text holds nothing but whitespace.
pub fn is_blank(text: &str) -> (r: bool)
    ensures
        r == is_blank_text(text@),
{
    for c in chars: text.chars()
        invariant
            chars.seq() == text@,
            forall|i: int| 0 <= i < chars.index() ==> is_whitespace(#[trigger] text@[i]),
    {
        if !is_whitespace_char(c) {
            proof {
                assert(text@[chars.index()] == c);
            }
            return false;
        }
    }
    true
}

/// The parts of a response that arrive ahead of its body. A header is held as
/// the bytes of its value.
#[derive(Debug)]
pub struct ResponseHead {
    pub status: u16,
    pub www_authenticate: Option<Vec<u8>>,
    pub content_type: Option<Vec<u8>>,
    pub session_id: Option<Vec<u8>>,
}

/// What the head of a response settles.
#[derive(Debug)]
pub enum HeadVerdict {
    /// The server wants credentials, and says which.
    AuthRequired { www_authenticate: String },
    /// The server has forgotten the session.
    SessionExpired,
    /// The answer is a stream of events, which must not be buffered.
    EventStream { session_id: Option<String> },
    /// The body has to be read to the end.
    ReadBody { session_id: Option<String> },
}

/// What a response is.
#[derive(Debug)]
pub enum PostVerdict {
    /// A message, and the session that it came with.
    Json { message: rmcp::model::ServerJsonRpcMessage, session_id: Option<String> },
    /// The server took the message and has nothing to say.
    Accepted,
    /// The body could not be read, so nothing is known of what it said.
    Unreadable,
    /// The server refused, in words that are no message.
    Unexpected { description: String },
}

/// The text of a header, if there is one and all of it is visible ASCII.
pub open spec fn header_str(header: Option<Vec<u8>>) -> Option<Seq<char>> {
    match header {
        Some(value) => visible_text(value@),
        None => None,
    }
}

/// A text that may be missing.
pub open spec fn text_view(text: Option<String>) -> Option<Seq<char>> {
    match text {
        Some(text) => Some(text@),
        None => None,
    }
}

impl ResponseHead {
    /// The server refuses for want of credentials and names the ones it takes.
    pub open spec fn wants_auth(self) -> bool {
        self.status == 401 && header_str(self.www_authenticate) is Some
    }

    /// The session that was named in the request is not there. Without one
    /// there is nothing to expire.
    pub open spec fn session_expired(self, session_was_attached: bool) -> bool {
        self.status == 404 && session_was_attached
    }

    /// The `content-type` announces a stream of events.
    pub open spec fn announces_events(self) -> bool {
        self.content_type matches Some(value) && encode_utf8(
            event_stream_mime_type(),
        ).is_prefix_of(encode_utf8(lossy_text(value@)))
    }
}

fn optional_header_text(header: &Option<Vec<u8>>) -> (r: Option<String>)
    ensures
        text_view(r) == header_str(*header),
{
    match header {
        Some(value) => header_text(value.as_slice()),
        None => None,
    }
}

/// What the head of a response settles: first whether credentials are wanted,
/// second whether the session is gone, and last whether events are to come.
pub open spec fn head_read(
    head: ResponseHead,
    session_was_attached: bool,
    verdict: HeadVerdict,
) -> bool {
    if head.wants_auth() {
        &&& verdict matches HeadVerdict::AuthRequired { www_authenticate }
        &&& header_str(head.www_authenticate) == Some(www_authenticate@)
    } else if head.session_expired(session_was_attached) {
        verdict is SessionExpired
    } else if head.announces_events() {
        &&& verdict matches HeadVerdict::EventStream { session_id }
        &&& text_view(session_id) == header_str(head.session_id)
    } else {
        &&& verdict matches HeadVerdict::ReadBody { session_id }
        &&& text_view(session_id) == header_str(head.session_id)
    }
}

/// Reads the head of the response to a POST.
pub fn post_message_head(head: &ResponseHead, session_was_attached: bool) -> (r: HeadVerdict)
    ensures
        head_read(*head, session_was_attached, r),
        // Where the `content-type` is UTF-8, its own bytes tell.
        head.content_type matches Some(value) ==> valid_utf8(value@) ==> head.announces_events()
            == encode_utf8(event_stream_mime_type()).is_prefix_of(value@),
{
    let content_type = match &head.content_type {
        Some(value) => {
            proof {
                if valid_utf8(value@) {
                    decode_utf8_encode_utf8(value@);
                }
            }
            Some(text_of_bytes(value.as_slice()))
        },
        None => None,
    };
    if head.status == 401 {
        if let Some(www_authenticate) = optional_header_text(&head.www_authenticate) {
            return HeadVerdict::AuthRequired { www_authenticate };
        }
    }
    if head.status == 404 && session_was_attached {
        return HeadVerdict::SessionExpired;
    }
    let session_id = optional_header_text(&head.session_id);
    let hint = match &content_type {
        Some(text) => Some(text.as_str()),
        None => None,
    };
    if starts_with(hint, "text/event-stream") {
        HeadVerdict::EventStream { session_id }
    } else {
        HeadVerdict::ReadBody { session_id }
    }
}

/// The server accepted what it was sent.
pub open spec fn is_success(status: u16) -> bool {
    200 <= status <= 299
}

/// A refusal in the server's own words.
pub open spec fn refusal(status: Seq<char>, body: Seq<char>) -> Seq<char> {
    "HTTP "@ + status + ": "@ + body
}

/// Writes down a refusal, with the status as HTTP writes it.
pub fn describe_refusal(status: &str, body: &str) -> (r: String)
    ensures
        r@ == refusal(status@, body@),
{
    String::from_str("HTTP ").concat(status).concat(": ").concat(body)
}

/// What a response is, given its status, its session and the message that was
/// found in its body.
pub open spec fn settled(
    status: u16,
    session_id: Option<String>,
    body: Seq<char>,
    message: Option<rmcp::model::ServerJsonRpcMessage>,
    verdict: PostVerdict,
) -> bool {
    match message {
        Some(message) => verdict == (PostVerdict::Json { message, session_id }),
        None => if is_success(status) {
            verdict is Accepted
        } else {
            verdict matches PostVerdict::Unexpected { description } && description@ == refusal(
                status_line(status),
                body,
            )
        },
    }
}

/// Decides what a response is, once its body is known and has been searched for
/// a message.
///
/// A server that answers inline has answered, whatever its status. Without a
/// message, a server that was happy is taken to have nothing to say.
pub fn settle_response(
    status: u16,
    session_id: Option<String>,
    body: &str,
    message: Option<rmcp::model::ServerJsonRpcMessage>,
) -> (r: PostVerdict)
    requires
        100 <= status <= 999,
    ensures
        settled(status, session_id, body@, message, r),
{
    match message {
        Some(message) => PostVerdict::Json { message, session_id },
        None => {
            if 200 <= status && status <= 299 {
                PostVerdict::Accepted
            } else {
                let status = status_text(status);
                PostVerdict::Unexpected { description: describe_refusal(status.as_str(), body) }
            }
        },
    }
}

/// The message that a body holds. A blank one holds none.
pub open spec fn message_in(body: Seq<char>) -> Option<rmcp::model::ServerJsonRpcMessage> {
    if is_blank_text(body) {
        None
    } else {
        parsed_server_message(body)
    }
}

/// Reads the body of the response to a POST, or that it could not be read.
///
/// A body that cannot be read is a failure, not an empty body: taking a
/// truncated response for "nothing to say" would strand the request that waits
/// for it.
pub fn post_message_body(
    status: u16,
    session_id: Option<String>,
    body: Option<String>,
) -> (r: PostVerdict)
    requires
        100 <= status <= 999,
    ensures
        match body {
            Some(body) => settled(status, session_id, body@, message_in(body@), r),
            None => r is Unreadable,
        },
{
    match body {
        None => PostVerdict::Unreadable,
        Some(body) => {
            let message = if is_blank(body.as_str()) {
                None
            } else {
                match parse_server_message(body.as_str()) {
                    Ok(message) => Some(message),
                    Err(_) => None,
                }
            };
            settle_response(status, session_id, body.as_str(), message)
        },
    }
}

/// Reads the answer to the request for a stream from server to client.
///
/// A server that will not give one is a server without one. That is a limit of
/// the server, not a failure of the connection.
pub fn get_stream<S>(answer: Result<S, TransportError>) -> (r: Result<S, TransportErrorKind>)
    ensures
        answer matches Ok(stream) ==> r == Ok::<S, TransportErrorKind>(stream),
        answer is Err ==> r == Err::<S, TransportErrorKind>(
            TransportErrorKind::ServerDoesNotSupportSse,
        ),
        r matches Err(kind) ==> !kind.fatal(),
{
    match answer {
        Ok(stream) => Ok(stream),
        Err(_) => Err(TransportErrorKind::ServerDoesNotSupportSse),
    }
}

/// Reads the answer to the request to end a session: it is over either way.
pub fn delete_session(answer: Result<(), TransportError>) -> (r: Result<(), TransportError>)
    ensures
        r is Ok,
{
    match answer {
        Ok(()) => Ok(()),
        Err(_) => Ok(()),
    }
}

} // verus!
