//! How messages are routed, held back, repeated and answered.

use crate::clock::{nanos_between, NANOS_PER_SEC};
use crate::message::{
    error_reply, ClientMessage, ClientNotice, RequestId, RequestKind, ServerAnswer, ServerMessage,
};
use crate::state::{AppState, BufferMode, ProxyState, ReconnectFailureReason};
use crate::step::{Action, AfterSend, AfterWrite, Outgoing, ProxyError, Step, Timers};
use crate::transport::{describe_transport_error, is_session_fatal, TransportError};
use crate::{DISCONNECTED_ERROR_CODE, TRANSPORT_SEND_ERROR_CODE};
use vstd::prelude::*;

verus! {

/// What a request is told when the server is away.
pub open spec fn disconnected_text() -> Seq<char> {
    "Server not connected. The SSE endpoint is currently not available. Please ensure it is running and retry."@
}

/// What a request is told that the server did not accept.
pub open spec fn request_failed_text(method: Seq<char>, detail: Seq<char>) -> Seq<char> {
    "The server did not accept this "@ + method + " request: "@ + detail
}

/// What a request is told that was held back and could then not be sent.
pub open spec fn transport_error_text(detail: Seq<char>) -> Seq<char> {
    "Transport error: "@ + detail
}

/// The answer to a request that arrived while the server was away.
pub fn reply_disconnected(id: RequestId) -> (r: ServerMessage)
    ensures
        r.is_error_reply(id, DISCONNECTED_ERROR_CODE, disconnected_text()),
{
    error_reply(
        id,
        DISCONNECTED_ERROR_CODE,
        String::from_str(
            "Server not connected. The SSE endpoint is currently not available. Please ensure it is running and retry.",
        ),
    )
}

/// The answer to a single request that the server would not accept.
pub fn reply_request_failed(id: RequestId, method: &str, detail: &str) -> (r: ServerMessage)
    ensures
        r.is_error_reply(
            id,
            TRANSPORT_SEND_ERROR_CODE,
            request_failed_text(method@, detail@),
        ),
{
    let text = String::from_str("The server did not accept this ").concat(method).concat(
        " request: ",
    ).concat(detail);
    error_reply(id, TRANSPORT_SEND_ERROR_CODE, text)
}

/// What becomes of a message that arrives while the server is away: a ping is
/// answered, another request is held back or refused, and anything else is
/// dropped.
pub open spec fn handled_while_disconnected(
    pre: AppState,
    message: ClientMessage,
    post: AppState,
    reply: Option<ServerMessage>,
) -> bool {
    match message {
        ClientMessage::Request { id, request } => if request.kind is Ping {
            &&& post == pre
            &&& reply == Some(ServerMessage::Response { id, result: ServerAnswer::Empty })
        } else if pre.buf_mode is Store {
            &&& post == (AppState { in_buf: post.in_buf, ..pre })
            &&& post.in_buf@ == pre.in_buf@.push(message)
            &&& reply is None
        } else {
            &&& post == pre
            &&& reply matches Some(m) && m.is_error_reply(
                id,
                DISCONNECTED_ERROR_CODE,
                disconnected_text(),
            )
        },
        _ => post == pre && reply is None,
    }
}

impl AppState {
    /// Takes care of a message if the server is away, and gives it back
    /// otherwise. If there is an answer to the message, says which.
    pub fn maybe_handle_message_while_disconnected(&mut self, message: ClientMessage) -> (r: Result<
        Option<ServerMessage>,
        ClientMessage,
    >)
        ensures
            match r {
                Ok(reply) => old(self).state is Disconnected && handled_while_disconnected(
                    *old(self),
                    message,
                    *final(self),
                    reply,
                ),
                Err(back) => !(old(self).state is Disconnected) && back == message && *final(self)
                    == *old(self),
            },
    {
        if !matches!(self.state, ProxyState::Disconnected) {
            return Err(message);
        }
        match message {
            ClientMessage::Request { id, request } => {
                if matches!(request.kind, RequestKind::Ping) {
                    return Ok(
                        Some(ServerMessage::Response { id, result: ServerAnswer::Empty }),
                    );
                }
                if self.buf_mode == BufferMode::Store {
                    self.in_buf.push(ClientMessage::Request { id, request });
                    Ok(None)
                } else {
                    Ok(Some(reply_disconnected(id)))
                }
            },
            _ => Ok(None),
        }
    }
}

/// Starts to send a request to the server.
pub fn send_request_to_server(request: ClientMessage) -> (r: Step)
    ensures
        r == (Step {
            timers: Timers::idle(),
            action: Action::Send(Outgoing { message: request, after: AfterSend::Request }),
        }),
{
    Step::only(Action::Send(Outgoing { message: request, after: AfterSend::Request }))
}

/// What follows when a request was sent, or was not.
///
/// If the session is gone, the request is treated like one that arrives while
/// the server is away. If only this call was refused, it is told so, and the
/// session is left alone.
pub open spec fn request_was_sent(
    pre: AppState,
    request: ClientMessage,
    result: Result<(), TransportError>,
    now: u128,
    post: AppState,
    step: Step,
) -> bool {
    match result {
        Ok(()) => post == pre && step == (Step { timers: Timers::idle(), action: Action::Wait }),
        Err(e) => if e.kind.fatal() {
            &&& step.timers == pre.fatal_timers(now)
            &&& step.action.is_answer()
            &&& handled_while_disconnected(
                pre.after_fatal(now),
                request,
                post,
                step.action.answer(),
            )
        } else {
            &&& post == pre
            &&& step.timers == Timers::idle()
            &&& step.action.is_answer()
            &&& match request {
                ClientMessage::Request { id, request } => step.action.answer() matches Some(reply)
                    && reply.is_error_reply(
                    id,
                    TRANSPORT_SEND_ERROR_CODE,
                    request_failed_text(request.method@, e.described()),
                ),
                _ => step.action.answer() is None,
            }
        },
    }
}

/// Takes in how the sending of a request ended.
pub fn request_sent(
    app_state: &mut AppState,
    request: ClientMessage,
    result: Result<(), TransportError>,
    now: u128,
) -> (r: Step)
    requires
        result matches Err(e) ==> e.kind.fatal() ==> old(app_state).can_disconnect(),
    ensures
        request_was_sent(*old(app_state), request, result, now, *final(app_state), r),
{
    match result {
        Ok(()) => Step::only(Action::Wait),
        Err(e) => {
            if is_session_fatal(&e) {
                let timers = app_state.handle_fatal_transport_error_at(now);
                match app_state.maybe_handle_message_while_disconnected(request) {
                    Ok(reply) => Step::answer(timers, reply),
                    Err(_) => Step::answer(timers, None),
                }
            } else {
                let detail = describe_transport_error(&e);
                let reply = match request {
                    ClientMessage::Request { id, request } => Some(
                        reply_request_failed(id, request.method.as_str(), detail.as_str()),
                    ),
                    _ => None,
                };
                Step::answer(Timers { flush: false, reconnect: None }, reply)
            }
        },
    }
}

/// The state once a message of the client is on its way to the server: the first
/// `initialize` is remembered, and its answer waited for.
pub open spec fn after_forwarding(pre: AppState, message: ClientMessage) -> AppState {
    if message.is_initialize() && pre.init_message is None {
        AppState {
            init_message: Some(message),
            state: ProxyState::WaitingForServerInit(message->Request_id),
            ..pre
        }
    } else {
        pre
    }
}

/// What becomes of a message of the client.
///
/// While the server is away, see [`handled_while_disconnected`]. Otherwise it is
/// sent to the server as it is, but for `notifications/initialized`: that one
/// the proxy sends itself, as soon as the server has answered `initialize`.
pub open spec fn client_request_processed(
    pre: AppState,
    message: ClientMessage,
    post: AppState,
    step: Step,
) -> bool {
    &&& step.timers == Timers::idle()
    &&& if pre.state is Disconnected {
        &&& step.action.is_answer()
        &&& handled_while_disconnected(pre, message, post, step.action.answer())
    } else {
        match message {
            ClientMessage::Notification(ClientNotice::Initialized) => post == pre && step.action
                is Wait,
            ClientMessage::Request { .. } => {
                &&& post == after_forwarding(pre, message)
                &&& step.action == Action::Send(Outgoing { message, after: AfterSend::Request })
            },
            _ => {
                &&& post == pre
                &&& step.action == Action::Send(Outgoing { message, after: AfterSend::Message })
            },
        }
    }
}

/// Decides what becomes of a message of the client.
pub fn process_client_request(message: ClientMessage, app_state: &mut AppState) -> (r: Step)
    ensures
        client_request_processed(*old(app_state), message, *final(app_state), r),
{
    match app_state.maybe_handle_message_while_disconnected(message) {
        Ok(reply) => Step::answer(Timers { flush: false, reconnect: None }, reply),
        Err(message) => match message {
            ClientMessage::Request { id, request } => {
                if app_state.init_message.is_none() && matches!(
                    request.kind,
                    RequestKind::Initialize
                ) {
                    app_state.init_message =
                    Some(ClientMessage::Request { id: id.clone(), request: request.clone() });
                    app_state.state = ProxyState::WaitingForServerInit(id.clone());
                }
                send_request_to_server(ClientMessage::Request { id, request })
            },
            ClientMessage::Notification(ClientNotice::Initialized) => Step::only(Action::Wait),
            other => Step::only(
                Action::Send(Outgoing { message: other, after: AfterSend::Message }),
            ),
        },
    }
}

/// Starts to send the messages of a queue to the server, the first one first.
pub fn replay(queue: Vec<ClientMessage>) -> (r: Step)
    ensures
        r.timers == Timers::idle(),
        r.action.replays(queue@),
{
    if queue.len() == 0 {
        Step::only(Action::Wait)
    } else {
        let mut rest = queue;
        let message = rest.remove(0);
        proof {
            assert(rest@ == queue@.drop_first());
        }
        Step::only(Action::Send(Outgoing { message, after: AfterSend::Replay(rest) }))
    }
}

/// The buffer was emptied, and nothing else was touched.
pub open spec fn buffer_taken(pre: AppState, post: AppState) -> bool {
    &&& post == (AppState { in_buf: post.in_buf, ..pre })
    &&& post.in_buf@.len() == 0
}

/// Takes the messages out of the buffer.
fn take_buffer(app_state: &mut AppState) -> (r: Vec<ClientMessage>)
    ensures
        buffer_taken(*old(app_state), *final(app_state)),
        r@ == old(app_state).in_buf@,
{
    let mut messages: Vec<ClientMessage> = Vec::new();
    core::mem::swap(&mut messages, &mut app_state.in_buf);
    messages
}

/// Starts to send everything that was held back to the server.
pub fn process_buffered_messages(app_state: &mut AppState) -> (r: Step)
    ensures
        buffer_taken(*old(app_state), *final(app_state)),
        r.timers == Timers::idle(),
        r.action.replays(old(app_state).in_buf@),
{
    replay(take_buffer(app_state))
}

/// What follows when a message that was held back was sent, or was not: a
/// request that could not be sent is told so, and the rest of the queue follows.
pub open spec fn buffered_was_sent(
    message: ClientMessage,
    result: Result<(), TransportError>,
    rest: Seq<ClientMessage>,
    step: Step,
) -> bool {
    &&& step.timers == Timers::idle()
    &&& match (message, result) {
        (ClientMessage::Request { id, .. }, Err(e)) => {
            &&& step.action matches Action::Write { messages, after }
            &&& messages@.len() == 1
            &&& messages@[0].is_error_reply(
                id,
                TRANSPORT_SEND_ERROR_CODE,
                transport_error_text(e.described()),
            )
            &&& after matches AfterWrite::Replay(queue)
            &&& queue@ == rest
        },
        _ => step.action.replays(rest),
    }
}

/// Takes in how the sending of a message that was held back ended.
pub fn buffered_sent(
    message: ClientMessage,
    result: Result<(), TransportError>,
    rest: Vec<ClientMessage>,
) -> (r: Step)
    ensures
        buffered_was_sent(message, result, rest@, r),
{
    match (message, result) {
        (ClientMessage::Request { id, .. }, Err(e)) => {
            let detail = describe_transport_error(&e);
            let text = String::from_str("Transport error: ").concat(detail.as_str());
            Step::write(
                error_reply(id, TRANSPORT_SEND_ERROR_CODE, text),
                AfterWrite::Replay(rest),
            )
        },
        _ => replay(rest),
    }
}

/// The ids of the requests among the messages, in their order.
pub open spec fn request_ids(messages: Seq<ClientMessage>) -> Seq<RequestId>
    decreases messages.len(),
{
    if messages.len() == 0 {
        Seq::empty()
    } else {
        let ids = request_ids(messages.drop_last());
        match messages.last() {
            ClientMessage::Request { id, .. } => ids.push(id),
            _ => ids,
        }
    }
}

/// Each id is told that the server is away, in this order, and nobody else is.
pub open spec fn tells_disconnected(replies: Seq<ServerMessage>, ids: Seq<RequestId>) -> bool {
    &&& replies.len() == ids.len()
    &&& forall|i: int|
        0 <= i < ids.len() ==> (#[trigger] replies[i]).is_error_reply(
            ids[i],
            DISCONNECTED_ERROR_CODE,
            disconnected_text(),
        )
}

/// The buffer was emptied, and later requests will not be held back.
pub open spec fn buffer_flushed(pre: AppState, post: AppState) -> bool {
    &&& post == (AppState { in_buf: post.in_buf, buf_mode: BufferMode::Fail, ..pre })
    &&& post.in_buf@.len() == 0
}

/// Gives up on everything that was held back: says what to answer to it.
pub fn flush_buffer_with_errors(app_state: &mut AppState) -> (r: Vec<ServerMessage>)
    ensures
        buffer_flushed(*old(app_state), *final(app_state)),
        tells_disconnected(r@, request_ids(old(app_state).in_buf@)),
{
    let messages = take_buffer(app_state);
    app_state.buf_mode = BufferMode::Fail;
    let mut replies: Vec<ServerMessage> = Vec::new();
    let mut i: usize = 0;
    while i < messages.len()
        invariant
            i <= messages@.len(),
            tells_disconnected(replies@, request_ids(messages@.take(i as int))),
        decreases messages@.len() - i,
    {
        proof {
            let longer = messages@.take(i + 1);
            assert(longer.drop_last() == messages@.take(i as int));
            assert(longer.last() == messages@[i as int]);
        }
        if let ClientMessage::Request { id, .. } = &messages[i] {
            replies.push(reply_disconnected(id.clone()));
        }
        i += 1;
    }
    proof {
        assert(messages@.take(i as int) == messages@);
    }
    replies
}

/// Answers everything that was held back with an error.
pub open spec fn flushed(pre: AppState, post: AppState, step: Step, after: AfterWrite) -> bool {
    &&& buffer_flushed(pre, post)
    &&& step.timers == Timers::idle()
    &&& step.action matches Action::Write { messages, after: a }
    &&& tells_disconnected(messages@, request_ids(pre.in_buf@))
    &&& a == after
}

/// Whether the time allows an attempt to reconnect.
pub fn try_reconnect(app_state: &AppState, now: u128) -> (r: Result<(), ReconnectFailureReason>)
    ensures
        app_state.too_long(now) ==> r == Err::<(), ReconnectFailureReason>(
            ReconnectFailureReason::TimeoutExceeded,
        ),
        !app_state.too_long(now) ==> r is Ok,
{
    if app_state.disconnected_too_long_at(now) {
        Err(ReconnectFailureReason::TimeoutExceeded)
    } else {
        Ok(())
    }
}

/// What follows when a new connection is there: the client's `initialize` is
/// repeated on it behind the client's back. Where there is nothing to repeat,
/// there is no going on.
pub open spec fn handshake_initiated(pre: AppState, post: AppState, step: Step) -> bool {
    &&& step.timers == Timers::idle()
    &&& match pre.init_message {
        Some(ClientMessage::Request { id, request }) => {
            &&& post == (AppState {
                state: ProxyState::WaitingForServerInitHidden(id),
                ..pre
            })
            &&& step.action == Action::SendOnNew(
                Outgoing {
                    message: ClientMessage::Request { id, request },
                    after: AfterSend::Request,
                },
            )
        },
        Some(_) => post == pre && step.action is Wait,
        None => post == pre && step.action == Action::Fail(ProxyError::MissingInitMessage),
    }
}

/// Repeats the client's `initialize` on a new connection.
pub fn initiate_post_reconnect_handshake(app_state: &mut AppState) -> (r: Step)
    ensures
        handshake_initiated(*old(app_state), *final(app_state), r),
{
    match &app_state.init_message {
        None => Step::only(Action::Fail(ProxyError::MissingInitMessage)),
        Some(ClientMessage::Request { id, request }) => {
            let id = id.clone();
            let message = ClientMessage::Request { id: id.clone(), request: request.clone() };
            app_state.state = ProxyState::WaitingForServerInitHidden(id);
            let step = process_client_request(message, app_state);
            match step.action {
                Action::Send(outgoing) => Step {
                    timers: step.timers,
                    action: Action::SendOnNew(outgoing),
                },
                action => Step { timers: step.timers, action },
            }
        },
        Some(_) => Step::only(Action::Wait),
    }
}

/// Whether the connection has been silent for so long that it is to be looked
/// at.
pub fn send_heartbeat_if_needed(app_state: &AppState, now: u128) -> (r: bool)
    ensures
        r == app_state.is_idle(now),
{
    nanos_between(app_state.last_heartbeat, now) > 5 * NANOS_PER_SEC
}

} // verus!
