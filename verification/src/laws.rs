//! What the proxy promises to the client and to the server.

use crate::clock::{elapsed_nanos, NANOS_PER_SEC};
use crate::http_client::{
    head_read, is_success, settled, text_view, HeadVerdict, PostVerdict, ResponseHead,
};
use crate::message::{ClientMessage, ClientNotice, RequestId, ServerAnswer, ServerMessage};
use crate::outcomes::{equal_ids, sends_all};
use crate::proxy::{handshake_failed_text, transition};
use crate::run::{
    all_can_be_held, can_be_held, end_of, is_run, law_every_run_keeps_the_invariant, Moment, Point,
};
use crate::session::{
    disconnected_text, request_failed_text, request_ids, tells_disconnected, transport_error_text,
};
use crate::state::{backoff_secs, AppState, ProxyState};
use crate::step::{Action, AfterSend, AfterWrite, Event, Handshake, Outgoing, Step, Timers};
use crate::transport::{joined, TransportError, TransportErrorKind};
use crate::{DISCONNECTED_ERROR_CODE, TRANSPORT_SEND_ERROR_CODE};
use vstd::arithmetic::div_mod::lemma_div_is_ordered;
use vstd::arithmetic::power2::lemma2_to64;
use vstd::prelude::*;

verus! {

/// While the server is there, what the client says goes out as it is, id and
/// all. The one exception is `notifications/initialized`.
pub proof fn law_client_messages_go_out_untouched(
    pre: AppState,
    message: ClientMessage,
    now: u128,
    post: AppState,
    step: Step,
)
    requires
        !(pre.state is Disconnected),
        message != ClientMessage::Notification(ClientNotice::Initialized),
        transition(pre, Event::Stdin(Some(Ok(message))), now, post, step),
    ensures
        step.action matches Action::Send(outgoing) && outgoing.message == message,
        post.in_buf@ == pre.in_buf@,
{
}

/// The client's `notifications/initialized` goes no further, wherever the proxy
/// stands: the proxy sends its own.
pub proof fn law_the_clients_initialized_is_absorbed(
    pre: AppState,
    now: u128,
    post: AppState,
    step: Step,
)
    requires
        transition(
            pre,
            Event::Stdin(Some(Ok(ClientMessage::Notification(ClientNotice::Initialized)))),
            now,
            post,
            step,
        ),
    ensures
        post == pre,
        step == (Step { timers: Timers::idle(), action: Action::Wait }),
{
}

/// What the server says reaches the client as it is, id and all, unless it is
/// the answer to the `initialize` that is waited for. Nothing else changes but
/// that the connection is known to be alive.
pub proof fn law_server_messages_come_back_untouched(
    pre: AppState,
    message: ServerMessage,
    now: u128,
    post: AppState,
    step: Step,
)
    requires
        !pre.awaits(message),
        transition(pre, Event::Server(Some(message)), now, post, step),
    ensures
        step.action.forwards(message),
        step.timers == Timers::idle(),
        post == (AppState { last_heartbeat: now, ..pre }),
{
}

/// A request of the server is never taken for an answer, whatever its id: ids
/// live in the direction in which the request travels.
pub proof fn law_server_requests_are_never_taken_for_answers(
    pre: AppState,
    message: ServerMessage,
    now: u128,
    post: AppState,
    step: Step,
)
    requires
        message is Request,
        transition(pre, Event::Server(Some(message)), now, post, step),
    ensures
        step.action.forwards(message),
        post.state == pre.state,
{
}

/// The client may answer a request of the server under any id, also one that it
/// uses itself: its answer goes out as it is, and nothing is remembered of it.
pub proof fn law_client_answers_go_out_untouched(
    pre: AppState,
    message: ClientMessage,
    now: u128,
    post: AppState,
    step: Step,
)
    requires
        !(pre.state is Disconnected),
        message is Response || message is Error,
        transition(pre, Event::Stdin(Some(Ok(message))), now, post, step),
    ensures
        step.action == Action::Send(Outgoing { message, after: AfterSend::Message }),
        post == pre,
{
}

/// Of the server's answer to `initialize` nothing is changed but the version,
/// and that only where the proxy was told to.
pub proof fn law_only_the_version_is_overwritten(state: AppState, message: ServerMessage)
    ensures
        state.override_protocol_version is None ==> state.overwritten(message) == message,
        message matches ServerMessage::Response { id, result } ==> {
            &&& state.overwritten(message) matches ServerMessage::Response { id: i, result: r }
            &&& i == id
            &&& match (state.override_protocol_version, result) {
                (Some(version), ServerAnswer::Initialize { rest, .. }) => r
                    == (ServerAnswer::Initialize { protocol_version: version, rest }),
                _ => r == result,
            }
        },
        !(message is Response) ==> state.overwritten(message) == message,
{
}

/// The part occurs somewhere in the text.
pub open spec fn mentions(text: Seq<char>, part: Seq<char>) -> bool {
    exists|i: int, j: int| 0 <= i <= j <= text.len() && #[trigger] text.subrange(i, j) == part
}

proof fn lemma_mentions_middle(before: Seq<char>, part: Seq<char>, after: Seq<char>)
    ensures
        mentions(before + part + after, part),
{
    let text = before + part + after;
    assert(text.subrange(before.len() as int, (before.len() + part.len()) as int) == part);
}

proof fn lemma_still_mentions(before: Seq<char>, text: Seq<char>, after: Seq<char>, part: Seq<char>)
    requires
        mentions(text, part),
    ensures
        mentions(before + text + after, part),
{
    let (i, j) = choose|i: int, j: int|
        0 <= i <= j <= text.len() && #[trigger] text.subrange(i, j) == part;
    let longer = before + text + after;
    let n = before.len() as int;
    assert(longer.subrange(n + i, n + j) == text.subrange(i, j));
}

proof fn lemma_joined_mentions(first: Seq<char>, rest: Seq<String>)
    ensures
        mentions(joined(first, rest), first),
        forall|k: int|
            0 <= k < rest.len() ==> mentions(joined(first, rest), #[trigger] rest[k]@),
    decreases rest.len(),
{
    let text = joined(first, rest);
    if rest.len() == 0 {
        lemma_mentions_middle(seq![], first, seq![]);
        assert(seq![] + first + seq![] == first);
    } else {
        let shorter = joined(first, rest.drop_last());
        let tail = ": "@ + rest.last()@;
        lemma_joined_mentions(first, rest.drop_last());
        assert(text == seq![] + shorter + tail);
        lemma_still_mentions(seq![], shorter, tail, first);
        assert forall|k: int| 0 <= k < rest.len() implies mentions(text, #[trigger] rest[k]@) by {
            if k < rest.len() - 1 {
                assert(rest[k] == rest.drop_last()[k]);
                lemma_still_mentions(seq![], shorter, tail, rest[k]@);
            } else {
                lemma_mentions_middle(shorter + ": "@, rest.last()@, seq![]);
                assert(text == shorter + ": "@ + rest.last()@ + seq![]);
            }
        }
    }
}

/// The description of a failure holds its outermost message and every cause
/// underneath it.
pub proof fn law_a_description_holds_every_cause(e: TransportError)
    ensures
        mentions(e.described(), e.message@),
        forall|k: int|
            0 <= k < e.causes().len() ==> mentions(e.described(), #[trigger] e.causes()[k]@),
{
    lemma_joined_mentions(e.message@, e.causes());
}

/// A request that the server refuses is answered under its id, in words that
/// name its method and hold every cause of the failure; and the session is left
/// as it was.
pub proof fn law_a_refused_request_is_answered_and_the_session_left_alone(
    pre: AppState,
    id: RequestId,
    outgoing: Outgoing,
    e: TransportError,
    now: u128,
    post: AppState,
    step: Step,
)
    requires
        outgoing.after is Request,
        outgoing.message matches ClientMessage::Request { id: i, .. } && i == id,
        !e.kind.fatal(),
        transition(pre, Event::Sent(outgoing, Err(e)), now, post, step),
    ensures
        post == pre,
        step.timers == Timers::idle(),
        step.action.is_answer(),
        ({
            let method = outgoing.message->Request_request.method@;
            let text = request_failed_text(method, e.described());
            &&& step.action.answer() matches Some(reply)
            &&& reply.is_error_reply(id, TRANSPORT_SEND_ERROR_CODE, text)
            &&& mentions(text, method)
            &&& mentions(text, e.message@)
            &&& forall|k: int|
                0 <= k < e.causes().len() ==> mentions(text, #[trigger] e.causes()[k]@)
        }),
{
    let method = outgoing.message->Request_request.method@;
    let detail = e.described();
    let text = request_failed_text(method, detail);
    let opening = "The server did not accept this "@;
    let between = " request: "@;
    lemma_mentions_middle(opening, method, between + detail);
    assert(text == opening + method + (between + detail));
    law_a_description_holds_every_cause(e);
    assert(text == (opening + method + between) + detail + seq![]);
    lemma_still_mentions(opening + method + between, detail, seq![], e.message@);
    assert forall|k: int| 0 <= k < e.causes().len() implies mentions(
        text,
        #[trigger] e.causes()[k]@,
    ) by {
        lemma_still_mentions(opening + method + between, detail, seq![], e.causes()[k]@);
    }
}

/// A request that finds the session gone is not refused but held back, behind
/// what is held back already, and the timers run that end the wait. (A ping is
/// answered instead.)
pub proof fn law_a_request_that_finds_the_server_gone_is_held_back(
    pre: AppState,
    outgoing: Outgoing,
    e: TransportError,
    now: u128,
    post: AppState,
    step: Step,
)
    requires
        !(pre.state is Disconnected),
        outgoing.after is Request,
        outgoing.message is Request,
        e.kind.fatal(),
        transition(pre, Event::Sent(outgoing, Err(e)), now, post, step),
    ensures
        post.state is Disconnected,
        !post.transport_valid,
        pre.has_timer_tx ==> post.flush_timer_active,
        pre.has_reconnect_tx ==> post.reconnect_scheduled,
        outgoing.message.is_ping() ==> post.in_buf@ == pre.in_buf@ && step.action.answer() is Some,
        !outgoing.message.is_ping() ==> post.in_buf@ == pre.in_buf@.push(outgoing.message)
            && step.action is Wait,
{
}

/// The client is told that `initialize` succeeded only once the session is known
/// to work: the server's answer, under whatever kind of id, first leads to
/// `notifications/initialized`. If that cannot be sent, the client is told so under
/// the id that it asked with, and the connection is given up.
pub proof fn law_initialize_succeeds_only_with_a_working_session(
    pre: AppState,
    waiting: RequestId,
    id: RequestId,
    answer: ServerAnswer,
    times: (u128, u128, u128),
    mid: AppState,
    first: Step,
    outgoing: Outgoing,
    result: Result<(), TransportError>,
    post: AppState,
    second: Step,
    last: AppState,
    third: Step,
)
    requires
        pre.state == ProxyState::WaitingForServerInit(waiting),
        equal_ids(waiting, id),
        transition(
            pre,
            Event::Server(Some(ServerMessage::Response { id, result: answer })),
            times.0,
            mid,
            first,
        ),
        outgoing == (Outgoing {
            message: ClientMessage::Notification(ClientNotice::Initialized),
            after: AfterSend::Initialized(Handshake::Visible { id, result: answer }),
        }),
        transition(mid, Event::Sent(outgoing, result), times.1, post, second),
        second.action matches Action::Write { after, .. } ==> transition(
            post,
            Event::Written(after, true),
            times.2,
            last,
            third,
        ),
    ensures
        first.action == Action::Send(outgoing),
        !(mid.state is Connected),
        match result {
            Ok(()) => {
                &&& second.action matches Action::Write { messages, after }
                &&& messages@.len() == 1
                &&& messages@[0] == (ServerMessage::Response {
                    id,
                    result: match (pre.override_protocol_version, answer) {
                        (
                            Some(version),
                            ServerAnswer::Initialize { rest, .. },
                        ) => ServerAnswer::Initialize { protocol_version: version, rest },
                        _ => answer,
                    },
                })
                &&& after is Forwarded
                &&& last.state is Connected
            },
            Err(e) => {
                &&& second.action matches Action::Write { messages, .. }
                &&& messages@.len() == 1
                &&& messages@[0].is_error_reply(
                    id,
                    TRANSPORT_SEND_ERROR_CODE,
                    handshake_failed_text(e.message@),
                )
                &&& last.state is Disconnected
            },
        },
{
}

/// When the server is back, the client notices nothing of the handshake that the
/// proxy repeats for it: the `initialize` it once sent goes out again, the
/// server's answer to it is not forwarded but followed by
/// `notifications/initialized`, and then everything that was held back is on its
/// way, in the order in which it came; however many attempts failed before.
pub proof fn law_a_reconnect_is_hidden_and_releases_what_was_held_back(
    states: (AppState, AppState, AppState, AppState, AppState),
    times: (u128, u128, u128, u128),
    steps: (Step, Step, Step, Step),
    init: ClientMessage,
    repeated: Outgoing,
    id: RequestId,
    answer: ServerAnswer,
    confirmed: Outgoing,
)
    requires
        states.0.state is Disconnected,
        states.0.init_message == Some(init),
        init matches ClientMessage::Request { id: i, .. } && equal_ids(i, id),
        transition(states.0, Event::Connected(Ok(())), times.0, states.1, steps.0),
        repeated == (Outgoing { message: init, after: AfterSend::Request }),
        transition(states.1, Event::Sent(repeated, Ok(())), times.1, states.2, steps.1),
        transition(
            states.2,
            Event::Server(Some(ServerMessage::Response { id, result: answer })),
            times.2,
            states.3,
            steps.2,
        ),
        confirmed == (Outgoing {
            message: ClientMessage::Notification(ClientNotice::Initialized),
            after: AfterSend::Initialized(Handshake::Hidden),
        }),
        transition(states.3, Event::Sent(confirmed, Ok(())), times.3, states.4, steps.3),
    ensures
        steps.0.action == Action::SendOnNew(repeated),
        steps.1.action is Wait,
        steps.2.action == Action::Send(confirmed),
        states.4.state is Connected,
        states.4.connect_tries == 0,
        states.4.disconnected_since is None,
        states.4.buf_mode is Store,
        states.4.in_buf@.len() == 0,
        sends_all(steps.3.action, states.0.in_buf@),
{
    assert(states.1.state == ProxyState::WaitingForServerInitHidden(init->Request_id));
    let queue = states.0.in_buf@;
    assert(queue.len() > 0 ==> queue.drop_first() == queue.subrange(1, queue.len() as int));
}

/// The messages that were held back and are still to be sent, the one that is
/// being sent included.
pub open spec fn left_to_send(action: Action) -> Seq<ClientMessage> {
    match action {
        Action::Send(
            Outgoing { message, after: AfterSend::Replay(rest) },
        ) => seq![message] + rest@,
        Action::Write { after: AfterWrite::Replay(queue), .. } => queue@,
        _ => Seq::empty(),
    }
}

/// The message that was held back and of which the event says how its sending
/// ended.
pub open spec fn tried(event: Event) -> Seq<ClientMessage> {
    match event {
        Event::Sent(
            Outgoing { message, after: AfterSend::Replay(_) },
            _,
        ) => seq![message],
        _ => Seq::empty(),
    }
}

/// All that happens belongs to the sending of what was held back.
pub open spec fn is_replay(run: Seq<Moment>) -> bool {
    forall|i: int|
        0 <= i < run.len() ==> match (#[trigger] run[i]).event {
            Event::Sent(Outgoing { after: AfterSend::Replay(_), .. }, _) => true,
            Event::Written(AfterWrite::Replay(_), _) => true,
            _ => false,
        }
}

/// The messages that were held back and have been tried, in the order of the
/// attempts.
pub open spec fn tried_during(run: Seq<Moment>) -> Seq<ClientMessage>
    decreases run.len(),
{
    if run.len() == 0 {
        Seq::empty()
    } else {
        tried_during(run.drop_last()) + tried(run.last().event)
    }
}

proof fn lemma_replays_what_is_left(action: Action, queue: Seq<ClientMessage>)
    requires
        action.replays(queue),
    ensures
        left_to_send(action) == queue,
{
    if queue.len() > 0 {
        assert(seq![queue[0]] + queue.drop_first() == queue);
    }
}

/// What was held back is sent in the order in which it came, each message once.
/// One that fails does not keep the others from being sent.
pub proof fn law_what_was_held_back_is_sent_in_order(start: Point, run: Seq<Moment>)
    requires
        start.wf(),
        is_run(start, run),
        is_replay(run),
    ensures
        left_to_send(start.action) == tried_during(run) + left_to_send(end_of(start, run).action),
    decreases run.len(),
{
    if run.len() == 0 {
        assert(left_to_send(start.action) == tried_during(run) + left_to_send(
            end_of(start, run).action,
        ));
    } else {
        let before = run.drop_last();
        let last = run.last();
        let point = end_of(start, before);
        assert(is_replay(before)) by {
            assert forall|i: int| 0 <= i < before.len() implies match (
            #[trigger] before[i]).event {
                Event::Sent(Outgoing { after: AfterSend::Replay(_), .. }, _) => true,
                Event::Written(AfterWrite::Replay(_), _) => true,
                _ => false,
            } by {
                assert(before[i] == run[i]);
            }
        }
        law_what_was_held_back_is_sent_in_order(start, before);
        law_every_run_keeps_the_invariant(start, before);
        assert(run[run.len() - 1] == last);
        match last.event {
            Event::Sent(Outgoing { after: AfterSend::Replay(rest), .. }, _) => {
                if last.step.action.replays(rest@) {
                    lemma_replays_what_is_left(last.step.action, rest@);
                }
            },
            Event::Written(AfterWrite::Replay(queue), _) => {
                lemma_replays_what_is_left(last.step.action, queue@);
            },
            _ => {},
        }
        assert(left_to_send(point.action) == tried(last.event) + left_to_send(last.step.action));
    }
}

/// A message that was held back and could then not be sent is answered under its
/// id.
pub proof fn law_what_was_held_back_and_fails_is_answered(
    pre: AppState,
    outgoing: Outgoing,
    e: TransportError,
    now: u128,
    post: AppState,
    step: Step,
)
    requires
        outgoing.after is Replay,
        outgoing.message is Request,
        transition(pre, Event::Sent(outgoing, Err(e)), now, post, step),
    ensures
        post == pre,
        step.action matches Action::Write { messages, .. } && messages@.len() == 1
            && messages@[0].is_error_reply(
            outgoing.message->Request_id,
            TRANSPORT_SEND_ERROR_CODE,
            transport_error_text(e.described()),
        ),
{
}

proof fn lemma_every_held_message_has_an_id(messages: Seq<ClientMessage>)
    requires
        all_can_be_held(messages),
    ensures
        request_ids(messages).len() == messages.len(),
        forall|i: int|
            0 <= i < messages.len() ==> request_ids(messages)[i] == (
            #[trigger] messages[i])->Request_id,
    decreases messages.len(),
{
    if messages.len() > 0 {
        let before = messages.drop_last();
        assert forall|i: int| 0 <= i < before.len() implies can_be_held(
            #[trigger] before[i],
        ) by {
            assert(before[i] == messages[i]);
        }
        lemma_every_held_message_has_an_id(before);
        assert(can_be_held(messages[messages.len() - 1]));
        assert forall|i: int| 0 <= i < messages.len() implies request_ids(messages)[i] == (
        #[trigger] messages[i])->Request_id by {
            if i < before.len() {
                assert(before[i] == messages[i]);
            }
        }
    }
}

/// When the flush timer reports and the server is still away, everyone who waits
/// is answered, once each and in the order in which they came.
pub proof fn law_the_flush_timer_answers_everyone_who_waits(
    pre: AppState,
    now: u128,
    post: AppState,
    step: Step,
)
    requires
        pre.wf(),
        pre.state is Disconnected,
        transition(pre, Event::TimerSignal, now, post, step),
    ensures
        post.in_buf@.len() == 0,
        step.action matches Action::Write { messages, .. } && {
            &&& messages@.len() == pre.in_buf@.len()
            &&& forall|i: int|
                0 <= i < messages@.len() ==> (#[trigger] messages@[i]).is_error_reply(
                    pre.in_buf@[i]->Request_id,
                    DISCONNECTED_ERROR_CODE,
                    disconnected_text(),
                )
        },
{
    lemma_every_held_message_has_an_id(pre.in_buf@);
    let ids = request_ids(pre.in_buf@);
    if let Action::Write { messages, .. } = step.action {
        assert(tells_disconnected(messages@, ids));
        assert forall|i: int| 0 <= i < messages@.len() implies (
        #[trigger] messages@[i]).is_error_reply(
            pre.in_buf@[i]->Request_id,
            DISCONNECTED_ERROR_CODE,
            disconnected_text(),
        ) by {
            assert(ids[i] == pre.in_buf@[i]->Request_id);
        }
    }
}

/// While the server is away and those who waited have been answered, nobody else
/// is made to wait: a request is answered at once. (That ends with the next
/// attempt to reopen the session, whether it succeeds or not.)
pub proof fn law_after_a_flush_requests_are_answered_at_once(
    pre: AppState,
    message: ClientMessage,
    now: u128,
    post: AppState,
    step: Step,
)
    requires
        pre.state is Disconnected,
        pre.buf_mode is Fail,
        message is Request,
        !message.is_ping(),
        transition(pre, Event::Stdin(Some(Ok(message))), now, post, step),
    ensures
        post == pre,
        step.action.is_answer(),
        step.action.answer() matches Some(reply) && reply.is_error_reply(
            message->Request_id,
            DISCONNECTED_ERROR_CODE,
            disconnected_text(),
        ),
{
}

/// A ping is answered while the server is away, and changes nothing.
pub proof fn law_pings_are_answered_while_the_server_is_away(
    pre: AppState,
    message: ClientMessage,
    now: u128,
    post: AppState,
    step: Step,
)
    requires
        pre.state is Disconnected,
        message.is_ping(),
        transition(pre, Event::Stdin(Some(Ok(message))), now, post, step),
    ensures
        post == pre,
        step.action.is_answer(),
        step.action.answer() == Some(
            ServerMessage::Response { id: message->Request_id, result: ServerAnswer::Empty },
        ),
{
}

/// While the server is away, nothing is sent to it: what the client says is held
/// back, answered or dropped.
pub proof fn law_nothing_is_sent_while_the_server_is_away(
    pre: AppState,
    message: ClientMessage,
    now: u128,
    post: AppState,
    step: Step,
)
    requires
        pre.state is Disconnected,
        transition(pre, Event::Stdin(Some(Ok(message))), now, post, step),
    ensures
        step.action.is_answer(),
        post.state is Disconnected,
        !(message is Request) ==> post == pre && step.action is Wait,
        pre.in_buf@.is_prefix_of(post.in_buf@),
{
}

/// While a session is open and nothing is under way, nothing is held back.
pub proof fn law_nothing_is_held_back_while_a_session_is_open(point: Point)
    requires
        point.wf(),
        point.state.state is Connected,
        point.action is Wait,
    ensures
        point.state.in_buf@.len() == 0,
        point.state.init_message is Some,
{
}

/// Nobody waits without end: while requests are held back for a server that is
/// away, the flush timer is running.
pub proof fn law_who_waits_waits_for_a_timer(point: Point)
    requires
        point.wf(),
        point.state.state is Disconnected,
        point.state.in_buf@.len() > 0,
        point.state.has_timer_tx,
    ensures
        point.state.flush_timer_active,
{
}

/// What the proxy was told at its start stays as it is.
pub proof fn law_settings_never_change(
    pre: AppState,
    event: Event,
    now: u128,
    post: AppState,
    step: Step,
)
    requires
        transition(pre, event, now, post, step),
    ensures
        post.url == pre.url,
        post.max_disconnected_time == pre.max_disconnected_time,
        post.override_protocol_version == pre.override_protocol_version,
        post.has_reconnect_tx == pre.has_reconnect_tx,
        post.has_timer_tx == pre.has_timer_tx,
{
}

/// The first `initialize` is the one that is repeated: once there is one, no
/// other takes its place.
pub proof fn law_the_first_initialize_is_kept(
    pre: AppState,
    event: Event,
    now: u128,
    post: AppState,
    step: Step,
)
    requires
        pre.init_message is Some,
        transition(pre, event, now, post, step),
    ensures
        post.init_message == pre.init_message,
{
}

/// What is held back is never reordered: it grows by one at its end, or is taken
/// out as a whole, or stays as it is.
pub proof fn law_what_is_held_back_keeps_its_order(
    pre: AppState,
    event: Event,
    now: u128,
    post: AppState,
    step: Step,
)
    requires
        transition(pre, event, now, post, step),
    ensures
        post.in_buf@.len() == 0 || post.in_buf@ == pre.in_buf@ || post.in_buf@.drop_last()
            == pre.in_buf@,
{
    if post.in_buf@.len() > pre.in_buf@.len() {
        assert(post.in_buf@.drop_last() == pre.in_buf@);
    }
}

/// To give up a connection that was given up already changes nothing and starts
/// no timer.
pub proof fn law_giving_up_twice_is_giving_up_once(state: AppState, first: u128, second: u128)
    ensures
        state.after_fatal(first).after_fatal(second) == state.after_fatal(first),
        state.after_fatal(first).fatal_timers(second) == Timers::idle(),
{
}

/// A timer is started only if none of its kind is known to be running, and from
/// that point on one is known to be.
pub proof fn law_one_timer_of_each_kind(
    pre: AppState,
    event: Event,
    now: u128,
    post: AppState,
    step: Step,
)
    requires
        transition(pre, event, now, post, step),
    ensures
        step.timers.flush ==> !pre.flush_timer_active && post.flush_timer_active,
        step.timers.reconnect is Some ==> !pre.reconnect_scheduled && post.reconnect_scheduled,
{
}

/// The wait before an attempt to connect is one second, then doubles with each
/// failure, and never exceeds eight, however many attempts fail.
pub proof fn law_the_backoff_doubles_up_to_eight_seconds(tries: nat)
    ensures
        backoff_secs(0) == 1,
        tries < 3 ==> backoff_secs(tries + 1) == 2 * backoff_secs(tries),
        tries >= 3 ==> backoff_secs(tries) == 8,
        1 <= backoff_secs(tries) <= 8,
{
    lemma2_to64();
}

/// Every reconnect timer waits for one to eight seconds.
pub proof fn law_reconnect_timers_are_short(
    pre: AppState,
    event: Event,
    now: u128,
    post: AppState,
    step: Step,
)
    requires
        transition(pre, event, now, post, step),
    ensures
        step.timers.reconnect matches Some(secs) ==> 1 <= secs <= 8,
{
    lemma2_to64();
}

impl Point {
    /// If the server is away, an attempt to reach it is being made or arranged,
    /// or the proxy is at its end.
    pub open spec fn is_coming_back(self) -> bool {
        self.state.state is Disconnected && self.state.has_reconnect_tx ==> {
            ||| self.state.reconnect_scheduled
            ||| self.action is Connect
            ||| self.action is Fail
        }
    }
}

/// The proxy never stops trying to reach the server, unless the server has been
/// away for longer than is allowed.
pub proof fn law_reconnecting_goes_on(
    point: Point,
    event: Event,
    now: u128,
    step: Step,
    next: Point,
)
    requires
        point.wf(),
        point.is_coming_back(),
        point.moves(event, now, step, next),
        !point.state.too_long(now),
    ensures
        next.is_coming_back(),
{
}

/// Whenever something happens during the run, the server has not been away for
/// longer than is allowed.
pub open spec fn is_in_time(start: Point, run: Seq<Moment>) -> bool
    decreases run.len(),
{
    run.len() > 0 ==> {
        &&& is_in_time(start, run.drop_last())
        &&& !end_of(start, run.drop_last()).state.too_long(run.last().now)
    }
}

/// However long a run is, the proxy has not stopped trying to reach the server,
/// unless the server was away for longer than is allowed.
pub proof fn law_reconnecting_goes_on_for_ever(start: Point, run: Seq<Moment>)
    requires
        start.wf(),
        start.is_coming_back(),
        is_run(start, run),
        is_in_time(start, run),
    ensures
        end_of(start, run).is_coming_back(),
    decreases run.len(),
{
    if run.len() > 0 {
        let before = run.drop_last();
        let last = run.last();
        law_every_run_keeps_the_invariant(start, before);
        law_reconnecting_goes_on_for_ever(start, before);
        law_reconnecting_goes_on(
            end_of(start, before),
            last.event,
            last.now,
            last.step,
            last.point(),
        );
    }
}

/// A server that has been away for too long has been away for too long at every
/// later time.
pub proof fn law_too_long_stays_too_long(state: AppState, now: u128, later: u128)
    requires
        state.too_long(now),
        now <= later,
    ensures
        state.too_long(later),
{
    let since = state.disconnected_since->0;
    lemma_div_is_ordered(
        elapsed_nanos(since, now) as int,
        elapsed_nanos(since, later) as int,
        NANOS_PER_SEC as int,
    );
}

/// An attempt to reopen the session that finds the server gone does not start the
/// time anew that the server may be away.
pub proof fn law_a_failed_reconnect_keeps_the_limit(
    pre: AppState,
    outgoing: Outgoing,
    e: TransportError,
    now: u128,
    post: AppState,
    step: Step,
)
    requires
        pre.wf(),
        pre.state is WaitingForServerInitHidden,
        outgoing.after is Request,
        e.kind.fatal(),
        transition(pre, Event::Sent(outgoing, Err(e)), now, post, step),
    ensures
        post.state is Disconnected,
        post.disconnected_since == pre.disconnected_since,
        forall|later: u128| post.too_long(later) == pre.too_long(later),
{
}

/// The server went away and has not answered since: it is given up, or its answer
/// to a repeated `initialize` is waited for.
pub open spec fn is_away(state: AppState) -> bool {
    state.state is Disconnected || state.state is WaitingForServerInitHidden
}

/// The server is away from the start of the run to its end.
pub open spec fn stays_away(start: Point, run: Seq<Moment>) -> bool {
    &&& is_away(start.state)
    &&& forall|i: int| 0 <= i < run.len() ==> is_away((#[trigger] run[i]).state)
}

/// As long as the server is away, the time of its loss stands, however many
/// attempts to reach it fail and whatever else happens.
pub proof fn law_the_time_of_the_loss_stands(start: Point, run: Seq<Moment>)
    requires
        start.wf(),
        is_run(start, run),
        stays_away(start, run),
    ensures
        end_of(start, run).state.disconnected_since == start.state.disconnected_since,
        end_of(start, run).state.max_disconnected_time == start.state.max_disconnected_time,
        is_away(end_of(start, run).state),
    decreases run.len(),
{
    if run.len() > 0 {
        let before = run.drop_last();
        let last = run.last();
        assert(stays_away(start, before)) by {
            assert forall|i: int| 0 <= i < before.len() implies is_away(
                (#[trigger] before[i]).state,
            ) by {
                assert(before[i] == run[i]);
            }
        }
        assert(is_away(run[run.len() - 1].state));
        law_every_run_keeps_the_invariant(start, before);
        law_the_time_of_the_loss_stands(start, before);
        law_settings_never_change(
            end_of(start, before).state,
            last.event,
            last.now,
            last.state,
            last.step,
        );
    }
}

/// Reconnecting ends in time: when the server has been away for longer than is
/// allowed, counted from its loss, the next signal to reconnect leads to no
/// attempt, however many attempts failed in between. Those who wait are answered,
/// nobody is made to wait any more, and then the proxy ends.
pub proof fn law_reconnecting_ends_in_time(
    start: Point,
    run: Seq<Moment>,
    now: u128,
    step: Step,
    next: Point,
    later: u128,
    last: AppState,
    last_step: Step,
)
    requires
        start.wf(),
        is_run(start, run),
        stays_away(start, run),
        end_of(start, run).state.state is Disconnected,
        start.state.too_long(now),
        end_of(start, run).moves(Event::ReconnectSignal, now, step, next),
        now <= later,
        transition(next.state, Event::ReconnectHandled, later, last, last_step),
    ensures
        step.action matches Action::Write { messages, after } && after is Wait
            && tells_disconnected(messages@, request_ids(end_of(start, run).state.in_buf@)),
        step.timers == Timers::idle(),
        next.state.in_buf@.len() == 0,
        next.state.buf_mode is Fail,
        !next.state.reconnect_scheduled,
        last_step.action is Stop,
{
    law_the_time_of_the_loss_stands(start, run);
    law_too_long_stays_too_long(next.state, now, later);
}

/// Without a limit, the server has never been away for too long.
pub proof fn law_without_a_limit_it_is_never_too_long(state: AppState, now: u128)
    requires
        state.max_disconnected_time is None,
    ensures
        !state.too_long(now),
{
}

/// If the server has been away for too long when an attempt to reconnect is over,
/// the proxy ends, and leaves nobody waiting.
pub proof fn law_the_end_leaves_nobody_waiting(
    pre: AppState,
    now: u128,
    post: AppState,
    step: Step,
)
    requires
        pre.wf(),
        pre.too_long(now),
        transition(pre, Event::ReconnectHandled, now, post, step),
    ensures
        post.in_buf@.len() == 0,
        match step.action {
            Action::Stop => pre.in_buf@.len() == 0,
            Action::Write { messages, after } => after is Stop && messages@.len()
                == pre.in_buf@.len(),
            _ => false,
        },
{
    lemma_every_held_message_has_an_id(pre.in_buf@);
}

/// A server that speaks is not suspected of being gone for the next five seconds.
pub proof fn law_a_server_that_speaks_is_left_in_peace(
    pre: AppState,
    message: ServerMessage,
    now: u128,
    mid: AppState,
    first: Step,
    later: u128,
    post: AppState,
    second: Step,
)
    requires
        transition(pre, Event::Server(Some(message)), now, mid, first),
        later <= now + 5 * NANOS_PER_SEC,
        transition(mid, Event::HeartbeatTick, later, post, second),
    ensures
        second.action is Wait,
{
}

/// The two say the same.
pub open spec fn same_head(a: HeadVerdict, b: HeadVerdict) -> bool {
    match (a, b) {
        (
            HeadVerdict::AuthRequired { www_authenticate: x },
            HeadVerdict::AuthRequired { www_authenticate: y },
        ) => x@ == y@,
        (HeadVerdict::SessionExpired, HeadVerdict::SessionExpired) => true,
        (
            HeadVerdict::EventStream { session_id: x },
            HeadVerdict::EventStream { session_id: y },
        ) => text_view(x) == text_view(y),
        (
            HeadVerdict::ReadBody { session_id: x },
            HeadVerdict::ReadBody { session_id: y },
        ) => text_view(x) == text_view(y),
        _ => false,
    }
}

/// What a response is labelled as makes no difference, unless it is labelled as a
/// stream of events.
pub proof fn law_the_label_is_only_a_hint(
    a: ResponseHead,
    b: ResponseHead,
    session_was_attached: bool,
    x: HeadVerdict,
    y: HeadVerdict,
)
    requires
        a == (ResponseHead { content_type: a.content_type, ..b }),
        !a.announces_events(),
        !b.announces_events(),
        head_read(a, session_was_attached, x),
        head_read(b, session_was_attached, y),
    ensures
        same_head(x, y),
{
}

/// A server that answers inline has answered, whatever the status.
pub proof fn law_the_body_is_the_authority(
    status: u16,
    other: u16,
    session_id: Option<String>,
    body: Seq<char>,
    message: rmcp::model::ServerJsonRpcMessage,
    x: PostVerdict,
    y: PostVerdict,
)
    requires
        settled(status, session_id, body, Some(message), x),
        settled(other, session_id, body, Some(message), y),
    ensures
        x == y,
        x == (PostVerdict::Json { message, session_id }),
{
}

/// A server that was happy is never taken to have refused, and one that was not
/// is never taken to have accepted.
pub proof fn law_success_is_never_refusal(
    status: u16,
    session_id: Option<String>,
    body: Seq<char>,
    message: Option<rmcp::model::ServerJsonRpcMessage>,
    verdict: PostVerdict,
)
    requires
        settled(status, session_id, body, message, verdict),
    ensures
        is_success(status) ==> !(verdict is Unexpected),
        !is_success(status) ==> !(verdict is Accepted),
        verdict is Accepted || verdict is Unexpected ==> message is None,
        !(verdict is Unreadable),
{
}

/// A failure ends the session only if the session is gone or the server cannot be
/// reached. A server that answered, and were it with nonsense, is still there.
pub proof fn law_only_a_lost_session_is_fatal(kind: TransportErrorKind)
    ensures
        kind.fatal() <==> {
            ||| kind is TransportChannelClosed
            ||| kind is SessionExpired
            ||| kind is MissingSessionIdInResponse
            ||| kind is AuthRequired
            ||| kind is InsufficientScope
            ||| kind matches TransportErrorKind::Client { connect, .. } && connect
        },
{
}

/// A response ends the session only if it says that credentials are wanted, or
/// that a session which was named is gone.
pub proof fn law_only_the_server_ends_a_session(
    head: ResponseHead,
    session_was_attached: bool,
    verdict: HeadVerdict,
)
    requires
        head_read(head, session_was_attached, verdict),
    ensures
        verdict is AuthRequired ==> head.status == 401 && head.www_authenticate is Some,
        verdict is SessionExpired ==> head.status == 404 && session_was_attached,
        head.status != 401 && !session_was_attached ==> verdict is EventStream || verdict
            is ReadBody,
{
}

} // verus!
