//! What the proxy does about each thing that can happen, for every input: the
//! state that it leads to and what is written, sent or started.

use crate::message::{ClientMessage, ClientNotice, RequestId, ServerAnswer, ServerMessage};
use crate::proxy::transition;
use crate::run::{all_can_be_held, can_be_held};
use crate::session::request_ids;
use crate::state::{AppState, BufferMode, ProxyState};
use crate::step::{Action, AfterSend, AfterWrite, Event, Handshake, Outgoing, Polled, Step};
use crate::transport::{joined, TransportError, TransportErrorKind};
use vstd::arithmetic::power2::lemma2_to64;
use vstd::prelude::*;

verus! {

/// Both are the same number, or both are the same text.
pub open spec fn equal_ids(a: RequestId, b: RequestId) -> bool {
    match (a, b) {
        (RequestId::Number(m), RequestId::Number(n)) => m == n,
        (RequestId::Text(s), RequestId::Text(t)) => s@ == t@,
        _ => false,
    }
}

/// No timer is started.
pub open spec fn starts_nothing(step: Step) -> bool {
    !step.timers.flush && step.timers.reconnect is None
}

/// Exactly one message is written to the client, and this is what it is for.
pub open spec fn writes_one(action: Action, message: ServerMessage, purpose: AfterWrite) -> bool {
    &&& action matches Action::Write { messages, after }
    &&& messages@.len() == 1
    &&& messages@[0] == message
    &&& after == purpose
}

/// An error response with this code and text, and nothing else in it.
pub open spec fn says_error(
    message: ServerMessage,
    id: RequestId,
    code: int,
    text: Seq<char>,
) -> bool {
    match message {
        ServerMessage::Error { id: i, error } => {
            &&& i == id
            &&& error.code == code
            &&& error.message@ == text
            &&& error.data is None
        },
        _ => false,
    }
}

/// Exactly one message is written to the client: an error response.
pub open spec fn writes_error(
    action: Action,
    id: RequestId,
    code: int,
    text: Seq<char>,
    purpose: AfterWrite,
) -> bool {
    &&& action matches Action::Write { messages, after }
    &&& messages@.len() == 1
    &&& says_error(messages@[0], id, code, text)
    &&& after == purpose
}

/// What a request is told while the server is away.
pub open spec fn away_text() -> Seq<char> {
    "Server not connected. The SSE endpoint is currently not available. Please ensure it is running and retry."@
}

/// A failure after which nothing can be sent on the connection any more.
pub open spec fn ends_the_session(kind: TransportErrorKind) -> bool {
    match kind {
        TransportErrorKind::TransportChannelClosed => true,
        TransportErrorKind::SessionExpired => true,
        TransportErrorKind::MissingSessionIdInResponse => true,
        TransportErrorKind::AuthRequired => true,
        TransportErrorKind::InsufficientScope => true,
        TransportErrorKind::Client { connect, .. } => connect,
        TransportErrorKind::UnexpectedServerResponse => false,
        TransportErrorKind::ServerDoesNotSupportSse => false,
        TransportErrorKind::Other => false,
    }
}

/// The message, and behind it each cause after a colon and a space.
pub open spec fn chained(message: Seq<char>, causes: Seq<String>) -> Seq<char>
    decreases causes.len(),
{
    if causes.len() == 0 {
        message
    } else {
        chained(message + ": "@ + causes[0]@, causes.subrange(1, causes.len() as int))
    }
}

/// The failure in words, down to its last cause. A failure of the HTTP client is
/// described by the causes of the client's own error.
pub open spec fn in_words(e: TransportError) -> Seq<char> {
    match e.kind {
        TransportErrorKind::Client { sources, .. } => chained(e.message@, sources@),
        _ => chained(e.message@, e.sources@),
    }
}

/// More than `max` full seconds have passed.
pub open spec fn overdue(max: Option<u64>, since: Option<u128>, now: u128) -> bool {
    match (max, since) {
        (Some(max), Some(since)) => now - since >= (max + 1) * 1_000_000_000,
        _ => false,
    }
}

/// The ids of the requests among the messages, the first one first.
pub open spec fn who_waits(messages: Seq<ClientMessage>) -> Seq<RequestId>
    decreases messages.len(),
{
    if messages.len() == 0 {
        Seq::empty()
    } else {
        let others = who_waits(messages.subrange(1, messages.len() as int));
        match messages[0] {
            ClientMessage::Request { id, .. } => seq![id] + others,
            _ => others,
        }
    }
}

/// Everyone who waits in `pre` is told that the server is away, once and in order;
/// nobody is left waiting and nobody will be made to wait; nothing else changes.
pub open spec fn answers_who_waits(
    pre: AppState,
    post: AppState,
    step: Step,
    purpose: AfterWrite,
) -> bool {
    let ids = who_waits(pre.in_buf@);
    &&& starts_nothing(step)
    &&& step.action matches Action::Write { messages, after }
    &&& after == purpose
    &&& messages@.len() == ids.len()
    &&& forall|i: int|
        0 <= i < ids.len() ==> says_error(#[trigger] messages@[i], ids[i], -32010, away_text())
    &&& post.in_buf@.len() == 0
    &&& post == (AppState { in_buf: post.in_buf, buf_mode: BufferMode::Fail, ..pre })
}

/// The messages go to the server, the first one now and the others after it.
pub open spec fn sends_all(action: Action, queue: Seq<ClientMessage>) -> bool {
    if queue.len() == 0 {
        action is Wait
    } else {
        &&& action matches Action::Send(Outgoing { message, after: AfterSend::Replay(rest) })
        &&& message == queue[0]
        &&& rest@ == queue.subrange(1, queue.len() as int)
    }
}

/// The state in which a session has just been opened.
pub open spec fn opened(pre: AppState, now: u128) -> AppState {
    AppState {
        state: ProxyState::Connected,
        connect_tries: 0,
        disconnected_since: None,
        buf_mode: BufferMode::Store,
        reconnect_scheduled: false,
        transport_valid: true,
        last_heartbeat: now,
        ..pre
    }
}

/// The state in which the connection has just been lost. The time of the loss is
/// now, unless the session was only being reopened after an earlier loss.
pub open spec fn lost(pre: AppState, now: u128) -> AppState {
    let since = if pre.state is WaitingForServerInitHidden && pre.disconnected_since is Some {
        pre.disconnected_since
    } else {
        Some(now)
    };
    AppState {
        state: ProxyState::Disconnected,
        disconnected_since: since,
        buf_mode: BufferMode::Store,
        transport_valid: false,
        connect_tries: (pre.connect_tries + 1) as u32,
        flush_timer_active: pre.flush_timer_active || pre.has_timer_tx,
        reconnect_scheduled: pre.reconnect_scheduled || pre.has_reconnect_tx,
        ..pre
    }
}

/// The seconds until the next attempt to connect, after so many failed ones.
pub open spec fn pause(tries: int) -> int {
    if tries <= 0 {
        1
    } else if tries == 1 {
        2
    } else if tries == 2 {
        4
    } else {
        8
    }
}

/// The timers that a loss starts: those that are not running and have somewhere to
/// report to.
pub open spec fn starts_timers_for_loss(pre: AppState, step: Step) -> bool {
    &&& step.timers.flush == (!pre.flush_timer_active && pre.has_timer_tx)
    &&& (step.timers.reconnect is Some) == (!pre.reconnect_scheduled && pre.has_reconnect_tx)
    &&& step.timers.reconnect matches Some(seconds) ==> seconds == pause(pre.connect_tries + 1)
}

proof fn lemma_joined_from_the_front(first: Seq<char>, rest: Seq<String>)
    requires
        rest.len() > 0,
    ensures
        joined(first, rest) == joined(
            first + ": "@ + rest[0]@,
            rest.subrange(1, rest.len() as int),
        ),
    decreases rest.len(),
{
    let tail = rest.subrange(1, rest.len() as int);
    let next = first + ": "@ + rest[0]@;
    if rest.len() == 1 {
        assert(joined(first, rest.drop_last()) == first);
        assert(tail.len() == 0);
    } else {
        let shorter = rest.drop_last();
        lemma_joined_from_the_front(first, shorter);
        assert(tail.drop_last() == shorter.subrange(1, shorter.len() as int));
        assert(tail.last() == rest.last());
    }
}

proof fn lemma_chained_is_joined(message: Seq<char>, causes: Seq<String>)
    ensures
        chained(message, causes) == joined(message, causes),
    decreases causes.len(),
{
    if causes.len() > 0 {
        lemma_joined_from_the_front(message, causes);
        lemma_chained_is_joined(
            message + ": "@ + causes[0]@,
            causes.subrange(1, causes.len() as int),
        );
    }
}

/// A failure is described by its message and, one behind the other, all the causes
/// underneath it.
pub proof fn law_a_failure_is_described_down_to_its_last_cause(e: TransportError)
    ensures
        e.described() == in_words(e),
{
    lemma_chained_is_joined(e.message@, e.causes());
}

/// What ends a session and what does not.
pub proof fn law_what_ends_a_session(kind: TransportErrorKind)
    ensures
        kind.fatal() == ends_the_session(kind),
{
}

/// The server has been away for too long once the allowed seconds and one more
/// have passed.
pub proof fn law_too_long_is_one_second_more_than_allowed(state: AppState, now: u128)
    ensures
        state.too_long(now) == overdue(state.max_disconnected_time, state.disconnected_since, now),
{
}

proof fn lemma_request_ids_from_the_front(messages: Seq<ClientMessage>)
    requires
        messages.len() > 0,
    ensures
        request_ids(messages) == (match messages[0] {
            ClientMessage::Request { id, .. } => seq![id],
            _ => Seq::empty(),
        }) + request_ids(messages.subrange(1, messages.len() as int)),
    decreases messages.len(),
{
    let tail = messages.subrange(1, messages.len() as int);
    if messages.len() == 1 {
        assert(messages.drop_last().len() == 0);
        assert(request_ids(messages.drop_last()) == Seq::<RequestId>::empty());
        assert(request_ids(tail) == Seq::<RequestId>::empty());
        assert(messages.last() == messages[0]);
    } else {
        let shorter = messages.drop_last();
        lemma_request_ids_from_the_front(shorter);
        assert(tail.drop_last() == shorter.subrange(1, shorter.len() as int));
        assert(tail.last() == messages.last());
    }
}

/// Those who wait are those who asked, in the order in which they came.
pub proof fn law_who_waits_is_who_asked(messages: Seq<ClientMessage>)
    ensures
        who_waits(messages) == request_ids(messages),
    decreases messages.len(),
{
    if messages.len() > 0 {
        lemma_request_ids_from_the_front(messages);
        law_who_waits_is_who_asked(messages.subrange(1, messages.len() as int));
    }
}

/// If all who are held back are requests, every one of them waits.
pub proof fn law_everyone_held_back_waits(messages: Seq<ClientMessage>)
    requires
        all_can_be_held(messages),
    ensures
        who_waits(messages).len() == messages.len(),
        forall|i: int|
            0 <= i < messages.len() ==> match #[trigger] messages[i] {
                ClientMessage::Request { id, .. } => who_waits(messages)[i] == id,
                _ => false,
            },
    decreases messages.len(),
{
    if messages.len() > 0 {
        let tail = messages.subrange(1, messages.len() as int);
        assert forall|i: int| 0 <= i < tail.len() implies can_be_held(
            #[trigger] tail[i],
        ) by {
            assert(tail[i] == messages[i + 1]);
        }
        law_everyone_held_back_waits(tail);
        assert(can_be_held(messages[0]));
        assert forall|i: int| 0 <= i < messages.len() implies match #[trigger] messages[i] {
            ClientMessage::Request { id, .. } => who_waits(messages)[i] == id,
            _ => false,
        } by {
            if i > 0 {
                assert(tail[i - 1] == messages[i]);
                assert(who_waits(messages)[i] == who_waits(tail)[i - 1]);
            }
        }
    }
}

/// The client is gone, or cannot be understood: the proxy ends and changes
/// nothing.
pub proof fn law_without_a_client_the_proxy_ends(
    pre: AppState,
    said: Option<Result<ClientMessage, String>>,
    now: u128,
    post: AppState,
    step: Step,
)
    requires
        !(said matches Some(Ok(_))),
        transition(pre, Event::Stdin(said), now, post, step),
    ensures
        post == pre,
        step.action is Stop,
        starts_nothing(step),
{
}

/// A request that comes while the server is away is held back behind the others,
/// and the client hears nothing yet, as long as requests are held back at all;
/// whatever else the state holds.
pub proof fn law_requests_are_held_back(
    pre: AppState,
    message: ClientMessage,
    now: u128,
    post: AppState,
    step: Step,
)
    requires
        pre.state is Disconnected,
        pre.buf_mode is Store,
        message matches ClientMessage::Request { request, .. } && !(request.kind is Ping),
        transition(pre, Event::Stdin(Some(Ok(message))), now, post, step),
    ensures
        post.in_buf@ == pre.in_buf@.push(message),
        post == (AppState { in_buf: post.in_buf, ..pre }),
        step.action is Wait,
        starts_nothing(step),
{
}

/// A request that comes while the server is away and nobody is made to wait is
/// answered at once.
pub proof fn law_requests_are_refused_when_none_is_held_back(
    pre: AppState,
    message: ClientMessage,
    id: RequestId,
    now: u128,
    post: AppState,
    step: Step,
)
    requires
        pre.state is Disconnected,
        pre.buf_mode is Fail,
        message matches ClientMessage::Request { id: i, request } && i == id && !(request.kind
            is Ping),
        transition(pre, Event::Stdin(Some(Ok(message))), now, post, step),
    ensures
        post == pre,
        writes_error(step.action, id, -32010, away_text(), AfterWrite::Wait),
        starts_nothing(step),
{
}

/// A ping that comes while the server is away is answered at once.
pub proof fn law_pings_are_answered_for_the_server(
    pre: AppState,
    message: ClientMessage,
    id: RequestId,
    now: u128,
    post: AppState,
    step: Step,
)
    requires
        pre.state is Disconnected,
        message matches ClientMessage::Request { id: i, request } && i == id && request.kind
            is Ping,
        transition(pre, Event::Stdin(Some(Ok(message))), now, post, step),
    ensures
        post == pre,
        writes_one(
            step.action,
            ServerMessage::Response { id, result: ServerAnswer::Empty },
            AfterWrite::Wait,
        ),
        starts_nothing(step),
{
}

/// What is no request is dropped while the server is away.
pub proof fn law_other_messages_are_dropped_while_the_server_is_away(
    pre: AppState,
    message: ClientMessage,
    now: u128,
    post: AppState,
    step: Step,
)
    requires
        pre.state is Disconnected,
        !(message is Request),
        transition(pre, Event::Stdin(Some(Ok(message))), now, post, step),
    ensures
        post == pre,
        step.action is Wait,
        starts_nothing(step),
{
}

/// The first `initialize` is remembered, its answer is waited for under its own
/// id, and it is sent as it is.
pub proof fn law_the_first_initialize_opens_a_session(
    pre: AppState,
    message: ClientMessage,
    id: RequestId,
    now: u128,
    post: AppState,
    step: Step,
)
    requires
        !(pre.state is Disconnected),
        pre.init_message is None,
        message matches ClientMessage::Request { id: i, request } && i == id && request.kind
            is Initialize,
        transition(pre, Event::Stdin(Some(Ok(message))), now, post, step),
    ensures
        post == (AppState {
            init_message: Some(message),
            state: ProxyState::WaitingForServerInit(id),
            ..pre
        }),
        step.action == Action::Send(Outgoing { message, after: AfterSend::Request }),
        starts_nothing(step),
{
}

/// Every other request is sent as it is, and nothing is remembered of it.
pub proof fn law_requests_are_passed_on(
    pre: AppState,
    message: ClientMessage,
    now: u128,
    post: AppState,
    step: Step,
)
    requires
        !(pre.state is Disconnected),
        message matches ClientMessage::Request { request, .. } && (pre.init_message is Some
            || !(request.kind is Initialize)),
        transition(pre, Event::Stdin(Some(Ok(message))), now, post, step),
    ensures
        post == pre,
        step.action == Action::Send(Outgoing { message, after: AfterSend::Request }),
        starts_nothing(step),
{
}

/// What is no request is sent as it is, but for the client's own
/// `notifications/initialized`, which goes no further.
pub proof fn law_other_messages_are_passed_on(
    pre: AppState,
    message: ClientMessage,
    now: u128,
    post: AppState,
    step: Step,
)
    requires
        !(pre.state is Disconnected),
        !(message is Request),
        transition(pre, Event::Stdin(Some(Ok(message))), now, post, step),
    ensures
        post == pre,
        starts_nothing(step),
        message == ClientMessage::Notification(ClientNotice::Initialized) ==> step.action is Wait,
        message != ClientMessage::Notification(ClientNotice::Initialized) ==> step.action
            == Action::Send(Outgoing { message, after: AfterSend::Message }),
{
}

/// The answer to the client's `initialize`, under whatever kind of id, is held
/// until `notifications/initialized` has gone out: that is sent, nothing is
/// written, and nothing changes but that the server is known to be alive.
pub proof fn law_the_answer_to_initialize_waits_for_the_handshake(
    pre: AppState,
    waiting: RequestId,
    id: RequestId,
    result: ServerAnswer,
    now: u128,
    post: AppState,
    step: Step,
)
    requires
        pre.state == ProxyState::WaitingForServerInit(waiting),
        equal_ids(waiting, id),
        transition(
            pre,
            Event::Server(Some(ServerMessage::Response { id, result })),
            now,
            post,
            step,
        ),
    ensures
        step.action == Action::Send(
            Outgoing {
                message: ClientMessage::Notification(ClientNotice::Initialized),
                after: AfterSend::Initialized(Handshake::Visible { id, result }),
            },
        ),
        post == (AppState { last_heartbeat: now, ..pre }),
        starts_nothing(step),
{
}

/// The answer to a repeated `initialize` is not written to the client: the session
/// is open, and `notifications/initialized` is sent; whatever else the state
/// holds.
pub proof fn law_the_answer_to_a_repeated_initialize_is_swallowed(
    pre: AppState,
    waiting: RequestId,
    id: RequestId,
    result: ServerAnswer,
    now: u128,
    post: AppState,
    step: Step,
)
    requires
        pre.state == ProxyState::WaitingForServerInitHidden(waiting),
        equal_ids(waiting, id),
        transition(
            pre,
            Event::Server(Some(ServerMessage::Response { id, result })),
            now,
            post,
            step,
        ),
    ensures
        step.action == Action::Send(
            Outgoing {
                message: ClientMessage::Notification(ClientNotice::Initialized),
                after: AfterSend::Initialized(Handshake::Hidden),
            },
        ),
        post == opened(pre, now),
        post.in_buf == pre.in_buf,
        starts_nothing(step),
{
}

/// Anything else that the server says is written to the client as it is, at once.
pub proof fn law_whatever_else_the_server_says_is_passed_on(
    pre: AppState,
    message: ServerMessage,
    now: u128,
    post: AppState,
    step: Step,
)
    requires
        match (pre.state, message) {
            (
                ProxyState::WaitingForServerInit(waiting),
                ServerMessage::Response { id, .. },
            ) => !equal_ids(waiting, id),
            (
                ProxyState::WaitingForServerInitHidden(waiting),
                ServerMessage::Response { id, .. },
            ) => !equal_ids(waiting, id),
            _ => true,
        },
        transition(pre, Event::Server(Some(message)), now, post, step),
    ensures
        writes_one(step.action, message, AfterWrite::Forwarded),
        post == (AppState { last_heartbeat: now, ..pre }),
        starts_nothing(step),
{
}

/// The events that show that the connection is gone.
pub open spec fn shows_a_loss(event: Event) -> bool {
    match event {
        Event::Server(None) => true,
        Event::Polled(Polled::Ended) => true,
        Event::Written(AfterWrite::RefusedInitialize, true) => true,
        Event::Sent(Outgoing { after: AfterSend::Message, .. }, Err(_)) => true,
        Event::Sent(
            Outgoing { after: AfterSend::Initialized(Handshake::Hidden), .. },
            Err(_),
        ) => true,
        _ => false,
    }
}

/// However a connection is lost, the same follows: the state says so, the timers
/// run that end the wait, and nothing is written or sent.
pub proof fn law_every_loss_is_the_same(
    pre: AppState,
    event: Event,
    now: u128,
    post: AppState,
    step: Step,
)
    requires
        shows_a_loss(event),
        !(pre.state is Disconnected),
        pre.connect_tries < u32::MAX,
        transition(pre, event, now, post, step),
    ensures
        post == lost(pre, now),
        starts_timers_for_loss(pre, step),
        step.action is Wait,
{
    lemma2_to64();
}

/// A connection that is gone already cannot be lost again.
pub proof fn law_what_is_lost_stays_lost(
    pre: AppState,
    event: Event,
    now: u128,
    post: AppState,
    step: Step,
)
    requires
        shows_a_loss(event),
        pre.state is Disconnected,
        transition(pre, event, now, post, step),
    ensures
        post == pre,
        starts_nothing(step),
        step.action is Wait,
{
}

/// What was sent is done with.
pub proof fn law_what_was_sent_is_done_with(
    pre: AppState,
    outgoing: Outgoing,
    now: u128,
    post: AppState,
    step: Step,
)
    requires
        outgoing.after is Request || outgoing.after is Message,
        transition(pre, Event::Sent(outgoing, Ok(())), now, post, step),
    ensures
        post == pre,
        step.action is Wait,
        starts_nothing(step),
{
}

/// A request that the server refuses is told so, with the name of its method and
/// the failure down to its last cause, and nothing changes.
pub proof fn law_a_refused_request_is_told_why(
    pre: AppState,
    outgoing: Outgoing,
    id: RequestId,
    method: String,
    e: TransportError,
    now: u128,
    post: AppState,
    step: Step,
)
    requires
        outgoing.after is Request,
        outgoing.message matches ClientMessage::Request { id: i, request } && i == id
            && request.method == method,
        !ends_the_session(e.kind),
        transition(pre, Event::Sent(outgoing, Err(e)), now, post, step),
    ensures
        post == pre,
        writes_error(
            step.action,
            id,
            -32011,
            "The server did not accept this "@ + method@ + " request: "@ + in_words(e),
            AfterWrite::Wait,
        ),
        starts_nothing(step),
{
    law_a_failure_is_described_down_to_its_last_cause(e);
}

/// A request that finds the session gone is held back behind the others, and the
/// connection is lost.
pub proof fn law_a_request_that_finds_the_session_gone_waits(
    pre: AppState,
    outgoing: Outgoing,
    e: TransportError,
    now: u128,
    post: AppState,
    step: Step,
)
    requires
        !(pre.state is Disconnected),
        pre.connect_tries < u32::MAX,
        outgoing.after is Request,
        outgoing.message matches ClientMessage::Request { request, .. } && !(request.kind is Ping),
        ends_the_session(e.kind),
        transition(pre, Event::Sent(outgoing, Err(e)), now, post, step),
    ensures
        post.in_buf@ == pre.in_buf@.push(outgoing.message),
        post == (AppState { in_buf: post.in_buf, ..lost(pre, now) }),
        starts_timers_for_loss(pre, step),
        step.action is Wait,
{
    lemma2_to64();
}

/// A ping that finds the session gone is answered, and the connection is lost.
pub proof fn law_a_ping_that_finds_the_session_gone_is_answered(
    pre: AppState,
    outgoing: Outgoing,
    id: RequestId,
    e: TransportError,
    now: u128,
    post: AppState,
    step: Step,
)
    requires
        !(pre.state is Disconnected),
        pre.connect_tries < u32::MAX,
        outgoing.after is Request,
        outgoing.message matches ClientMessage::Request { id: i, request } && i == id
            && request.kind is Ping,
        ends_the_session(e.kind),
        transition(pre, Event::Sent(outgoing, Err(e)), now, post, step),
    ensures
        post == lost(pre, now),
        starts_timers_for_loss(pre, step),
        writes_one(
            step.action,
            ServerMessage::Response { id, result: ServerAnswer::Empty },
            AfterWrite::Wait,
        ),
{
    lemma2_to64();
}

/// A request that finds a session gone which was lost before is treated like one
/// that comes in while the server is away.
pub proof fn law_a_request_that_finds_the_session_lost_before(
    pre: AppState,
    outgoing: Outgoing,
    e: TransportError,
    now: u128,
    post: AppState,
    step: Step,
)
    requires
        pre.state is Disconnected,
        outgoing.after is Request,
        ends_the_session(e.kind),
        transition(pre, Event::Sent(outgoing, Err(e)), now, post, step),
    ensures
        transition(pre, Event::Stdin(Some(Ok(outgoing.message))), now, post, step),
{
}

/// Where there is no request to answer, nobody is answered: a failure that ends the
/// session is a loss like any other, and another one changes nothing.
pub proof fn law_without_a_request_nobody_is_answered(
    pre: AppState,
    outgoing: Outgoing,
    e: TransportError,
    now: u128,
    post: AppState,
    step: Step,
)
    requires
        pre.connect_tries < u32::MAX,
        outgoing.after is Request,
        !(outgoing.message is Request),
        transition(pre, Event::Sent(outgoing, Err(e)), now, post, step),
    ensures
        step.action is Wait,
        if ends_the_session(e.kind) && !(pre.state is Disconnected) {
            post == lost(pre, now) && starts_timers_for_loss(pre, step)
        } else {
            post == pre && starts_nothing(step)
        },
{
    lemma2_to64();
}

/// When the handshake behind the client's back is complete, the session is open
/// and everything that was held back is on its way, in order.
pub proof fn law_a_completed_reconnect_releases_everything(
    pre: AppState,
    outgoing: Outgoing,
    now: u128,
    post: AppState,
    step: Step,
)
    requires
        outgoing.after == AfterSend::Initialized(Handshake::Hidden),
        transition(pre, Event::Sent(outgoing, Ok(())), now, post, step),
    ensures
        sends_all(step.action, pre.in_buf@),
        post.in_buf@.len() == 0,
        post == (AppState { in_buf: post.in_buf, ..opened(pre, now) }),
        starts_nothing(step),
{
}

/// When the client's own handshake is complete, the session is open and the client
/// gets the answer that was held: the server's, with the version that the proxy
/// was told to report, if it was told to report one.
pub proof fn law_a_completed_handshake_releases_the_answer(
    pre: AppState,
    outgoing: Outgoing,
    id: RequestId,
    result: ServerAnswer,
    now: u128,
    post: AppState,
    step: Step,
)
    requires
        outgoing.after == AfterSend::Initialized(Handshake::Visible { id, result }),
        transition(pre, Event::Sent(outgoing, Ok(())), now, post, step),
    ensures
        post == opened(pre, now),
        writes_one(
            step.action,
            ServerMessage::Response {
                id,
                result: match (pre.override_protocol_version, result) {
                    (
                        Some(version),
                        ServerAnswer::Initialize { rest, .. },
                    ) => ServerAnswer::Initialize { protocol_version: version, rest },
                    _ => result,
                },
            },
            AfterWrite::Forwarded,
        ),
        starts_nothing(step),
{
}

/// If the client's own handshake fails, `initialize` has failed: the client is told
/// so under its id, and the server's answer is never passed on.
pub proof fn law_a_failed_handshake_is_a_failed_initialize(
    pre: AppState,
    outgoing: Outgoing,
    id: RequestId,
    result: ServerAnswer,
    e: TransportError,
    now: u128,
    post: AppState,
    step: Step,
)
    requires
        outgoing.after == AfterSend::Initialized(Handshake::Visible { id, result }),
        transition(pre, Event::Sent(outgoing, Err(e)), now, post, step),
    ensures
        post == pre,
        writes_error(
            step.action,
            id,
            -32011,
            "Server accepted initialize but the connection cannot carry an MCP session: "@
                + e.message@,
            AfterWrite::RefusedInitialize,
        ),
        starts_nothing(step),
{
}

/// After a message that was held back come those behind it, whether it is no
/// request or was taken by the server.
pub proof fn law_the_others_follow(
    pre: AppState,
    outgoing: Outgoing,
    rest: Vec<ClientMessage>,
    result: Result<(), TransportError>,
    now: u128,
    post: AppState,
    step: Step,
)
    requires
        outgoing.after == AfterSend::Replay(rest),
        result is Ok || !(outgoing.message is Request),
        transition(pre, Event::Sent(outgoing, result), now, post, step),
    ensures
        post == pre,
        sends_all(step.action, rest@),
        starts_nothing(step),
{
    assert(rest@.len() > 0 ==> rest@.drop_first() == rest@.subrange(1, rest@.len() as int));
}

/// A request that was held back and could not be sent is told why, and those behind
/// it are not forgotten.
pub proof fn law_a_request_that_waited_in_vain_is_told_why(
    pre: AppState,
    outgoing: Outgoing,
    id: RequestId,
    rest: Vec<ClientMessage>,
    e: TransportError,
    now: u128,
    post: AppState,
    step: Step,
)
    requires
        outgoing.after == AfterSend::Replay(rest),
        outgoing.message matches ClientMessage::Request { id: i, .. } && i == id,
        transition(pre, Event::Sent(outgoing, Err(e)), now, post, step),
    ensures
        post == pre,
        step.action matches Action::Write { messages, after } && {
            &&& messages@.len() == 1
            &&& says_error(messages@[0], id, -32011, "Transport error: "@ + in_words(e))
            &&& after matches AfterWrite::Replay(queue) && queue@ == rest@
        },
        starts_nothing(step),
{
    law_a_failure_is_described_down_to_its_last_cause(e);
}

/// What follows when something was written to the client, or could not be: only a
/// client that does not get what the server said is taken to be gone.
pub proof fn law_what_follows_a_write(
    pre: AppState,
    after: AfterWrite,
    written: bool,
    now: u128,
    post: AppState,
    step: Step,
)
    requires
        !(after is RefusedInitialize && written),
        transition(pre, Event::Written(after, written), now, post, step),
    ensures
        post == pre,
        starts_nothing(step),
        after is Wait ==> step.action is Wait,
        after is Stop ==> step.action is Stop,
        after is Forwarded && written ==> step.action is Wait,
        after is Forwarded && !written ==> step.action is Stop,
        after is RefusedInitialize ==> step.action is Stop,
        after matches AfterWrite::Replay(queue) ==> sends_all(step.action, queue@),
{
    if let AfterWrite::Replay(queue) = after {
        assert(queue@.len() > 0 ==> queue@.drop_first() == queue@.subrange(
            1,
            queue@.len() as int,
        ));
    }
}

/// When it is time to reconnect and the server is not away, nothing is done.
pub proof fn law_a_server_that_is_there_is_not_reconnected(
    pre: AppState,
    now: u128,
    post: AppState,
    step: Step,
)
    requires
        !(pre.state is Disconnected),
        transition(pre, Event::ReconnectSignal, now, post, step),
    ensures
        post == (AppState { reconnect_scheduled: false, ..pre }),
        step.action is Wait,
        starts_nothing(step),
{
}

/// When it is time to reconnect and the server has not been away for too long, a
/// connection is made.
pub proof fn law_a_server_that_is_away_is_reconnected(
    pre: AppState,
    now: u128,
    post: AppState,
    step: Step,
)
    requires
        pre.state is Disconnected,
        !overdue(pre.max_disconnected_time, pre.disconnected_since, now),
        transition(pre, Event::ReconnectSignal, now, post, step),
    ensures
        post == (AppState { reconnect_scheduled: false, ..pre }),
        step.action is Connect,
        starts_nothing(step),
{
    law_too_long_is_one_second_more_than_allowed(pre, now);
}

/// When it is time to reconnect and the server has been away for too long, no
/// connection is made and everyone who waits is answered.
pub proof fn law_a_server_that_is_away_for_too_long_is_not_reconnected(
    pre: AppState,
    now: u128,
    post: AppState,
    step: Step,
)
    requires
        pre.state is Disconnected,
        overdue(pre.max_disconnected_time, pre.disconnected_since, now),
        transition(pre, Event::ReconnectSignal, now, post, step),
    ensures
        answers_who_waits(
            AppState {
                reconnect_scheduled: false,
                connect_tries: (pre.connect_tries + 1) as u32,
                ..pre
            },
            post,
            step,
            AfterWrite::Wait,
        ),
{
    law_too_long_is_one_second_more_than_allowed(pre, now);
    law_who_waits_is_who_asked(pre.in_buf@);
}

/// A connection that could not be made is tried again after a pause, unless the
/// server has been away for too long: then everyone who waits is answered.
pub proof fn law_a_connection_that_could_not_be_made(
    pre: AppState,
    why: String,
    now: u128,
    post: AppState,
    step: Step,
)
    requires
        pre.connect_tries < u32::MAX,
        transition(pre, Event::Connected(Err(why)), now, post, step),
    ensures
        ({
            let counted = AppState { connect_tries: (pre.connect_tries + 1) as u32, ..pre };
            if overdue(pre.max_disconnected_time, pre.disconnected_since, now) {
                answers_who_waits(counted, post, step, AfterWrite::Wait)
            } else {
                let starts = !pre.reconnect_scheduled && pre.has_reconnect_tx;
                &&& post == (AppState {
                    reconnect_scheduled: pre.reconnect_scheduled || pre.has_reconnect_tx,
                    ..counted
                })
                &&& step.action is Wait
                &&& !step.timers.flush
                &&& (step.timers.reconnect is Some) == starts
                &&& step.timers.reconnect matches Some(seconds) ==> seconds == pause(
                    pre.connect_tries + 1,
                )
            }
        }),
{
    law_too_long_is_one_second_more_than_allowed(pre, now);
    law_who_waits_is_who_asked(pre.in_buf@);
    lemma2_to64();
}

/// On a new connection the `initialize` that the client once sent goes out again,
/// as it was, and its answer is waited for under its own id.
pub proof fn law_a_new_connection_repeats_the_initialize(
    pre: AppState,
    init: ClientMessage,
    id: RequestId,
    now: u128,
    post: AppState,
    step: Step,
)
    requires
        pre.init_message == Some(init),
        init matches ClientMessage::Request { id: i, .. } && i == id,
        transition(pre, Event::Connected(Ok(())), now, post, step),
    ensures
        post == (AppState {
            transport_valid: true,
            state: ProxyState::WaitingForServerInitHidden(id),
            ..pre
        }),
        step.action == Action::SendOnNew(Outgoing { message: init, after: AfterSend::Request }),
        starts_nothing(step),
{
}

/// A new connection is of no use without an `initialize` to repeat.
pub proof fn law_a_new_connection_needs_an_initialize(
    pre: AppState,
    now: u128,
    post: AppState,
    step: Step,
)
    requires
        !(pre.init_message matches Some(ClientMessage::Request { .. })),
        transition(pre, Event::Connected(Ok(())), now, post, step),
    ensures
        post == (AppState { transport_valid: true, ..pre }),
        pre.init_message is None ==> step.action is Fail,
        pre.init_message is Some ==> step.action is Wait,
        starts_nothing(step),
{
}

/// When an attempt to reconnect is over, the proxy goes on if the server has not
/// been away for too long, and ends otherwise, once everyone who waits is answered.
pub proof fn law_when_an_attempt_is_over(pre: AppState, now: u128, post: AppState, step: Step)
    requires
        transition(pre, Event::ReconnectHandled, now, post, step),
    ensures
        if !overdue(pre.max_disconnected_time, pre.disconnected_since, now) {
            post == pre && step.action is Wait && starts_nothing(step)
        } else if pre.in_buf@.len() > 0 && pre.buf_mode is Store {
            answers_who_waits(pre, post, step, AfterWrite::Stop)
        } else {
            post == pre && step.action is Stop && starts_nothing(step)
        },
{
    law_too_long_is_one_second_more_than_allowed(pre, now);
    law_who_waits_is_who_asked(pre.in_buf@);
}

/// When the flush timer reports, everyone who waits for a server that is away is
/// answered; if the server is there, nothing is done.
pub proof fn law_when_the_flush_timer_reports(pre: AppState, now: u128, post: AppState, step: Step)
    requires
        transition(pre, Event::TimerSignal, now, post, step),
    ensures
        ({
            let quiet = AppState { flush_timer_active: false, ..pre };
            if pre.state is Disconnected {
                answers_who_waits(quiet, post, step, AfterWrite::Wait)
            } else {
                post == quiet && step.action is Wait && starts_nothing(step)
            }
        }),
{
    law_who_waits_is_who_asked(pre.in_buf@);
}

/// A connection is looked at exactly when a session is open and nothing was heard
/// for more than five seconds.
pub proof fn law_when_a_connection_is_looked_at(
    pre: AppState,
    now: u128,
    post: AppState,
    step: Step,
)
    requires
        transition(pre, Event::HeartbeatTick, now, post, step),
    ensures
        post == pre,
        starts_nothing(step),
        step.action is Poll || step.action is Wait,
        step.action is Poll <==> pre.state is Connected && now - pre.last_heartbeat
            > 5_000_000_000,
{
}

/// A connection that has not ended is known to be alive.
pub proof fn law_a_connection_that_has_not_ended_is_alive(
    pre: AppState,
    found: Polled,
    now: u128,
    post: AppState,
    step: Step,
)
    requires
        !(found is Ended),
        transition(pre, Event::Polled(found), now, post, step),
    ensures
        post == (AppState { last_heartbeat: now, ..pre }),
        step.action is Wait,
        starts_nothing(step),
{
}

/// Nothing that happens is too much for the proxy unless its counter is full; and
/// if it is, only what would be counted is.
pub proof fn law_there_is_room_for_every_event(state: AppState, event: Event, now: u128)
    ensures
        state.connect_tries < u32::MAX ==> state.can_take(event, now),
        !state.can_take(event, now) ==> {
            ||| shows_a_loss(event) && !(state.state is Disconnected)
            ||| event is ReconnectSignal && state.state is Disconnected && overdue(
                state.max_disconnected_time,
                state.disconnected_since,
                now,
            )
            ||| event matches Event::Connected(Err(_))
            ||| event matches Event::Sent(outgoing, Err(e)) && outgoing.after is Request
                && ends_the_session(e.kind) && !(state.state is Disconnected)
        },
{
    law_too_long_is_one_second_more_than_allowed(state, now);
}

} // verus!
