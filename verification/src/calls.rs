//! What each function gives back, for every input.

use crate::clock::{nanos_between, Clock};
use crate::http_client::{
    accept_header, delete_session, describe_refusal, get_stream, header_str, is_blank,
    is_visible_ascii, is_whitespace, lossy_text, parsed_server_message, post_message_body,
    post_message_head, settle_response, starts_with, status_line, visible_text, HeadVerdict,
    PostVerdict, ResponseHead,
};
use crate::message::{
    error_reply, initialized_notification, request_kind, request_method, ClientCall, ClientMessage,
    ClientNotice, ProtocolVersion, RequestId, ServerAnswer, ServerMessage,
};
use crate::outcomes::{
    away_text, ends_the_session, equal_ids, in_words,
    law_a_failure_is_described_down_to_its_last_cause, law_there_is_room_for_every_event,
    law_too_long_is_one_second_more_than_allowed, law_who_waits_is_who_asked, lost, opened, overdue,
    pause, says_error, sends_all, starts_nothing, starts_timers_for_loss, who_waits,
};
use crate::proxy::transition;
use crate::session::{
    buffered_sent, flush_buffer_with_errors, initiate_post_reconnect_handshake,
    process_buffered_messages, process_client_request, replay, reply_disconnected,
    reply_request_failed, request_sent, send_heartbeat_if_needed, send_request_to_server,
    try_reconnect,
};
use crate::startup::{
    after_initial_attempt, override_version, server_url, InitialStep, StartupError,
};
use crate::state::{
    AppState, BufferMode, ProxyState, ReconnectFailureReason, FLUSH_DELAY_SECS,
};
use crate::step::{
    Action, AfterSend, AfterWrite, Event, Handshake, Outgoing, Polled, ProxyError, Step, Timers,
};
use crate::transport::{
    describe_transport_error, is_session_fatal, TransportError, TransportErrorKind,
};
use vstd::arithmetic::power2::lemma2_to64;
use vstd::prelude::*;
use vstd::utf8::{encode_utf8, valid_utf8};

verus! {

/// `step` makes of the state what the event makes of it.
pub proof fn law_a_step_is_a_transition(s: &mut AppState, event: Event, now: u128, r: Step)
    requires
        call_ensures(AppState::step, (s, event, now), r),
    ensures
        transition(*old(s), event, now, *final(s), r),
{
}

/// What handles something that the client said does what `step` does about it.
pub proof fn law_what_the_client_said_is_handled_as_by_step(
    s: &mut AppState,
    said: Option<Result<ClientMessage, String>>,
    now: u128,
    r: Step,
)
    requires
        call_ensures(AppState::handle_stdin_message, (s, said), r),
    ensures
        transition(*old(s), Event::Stdin(said), now, *final(s), r),
{
}

/// What handles a message of the client does what `step` does about it.
pub proof fn law_client_messages_are_processed_as_by_step(
    s: &mut AppState,
    message: ClientMessage,
    now: u128,
    r: Step,
)
    requires
        call_ensures(process_client_request, (message, s), r),
    ensures
        transition(*old(s), Event::Stdin(Some(Ok(message))), now, *final(s), r),
{
}

/// What handles something that the server said does what `step` does about it.
pub proof fn law_what_the_server_said_is_handled_as_by_step(
    s: &mut AppState,
    said: Option<ServerMessage>,
    now: u128,
    r: Step,
)
    requires
        call_ensures(AppState::handle_sse_message, (s, said, now), r),
    ensures
        transition(*old(s), Event::Server(said), now, *final(s), r),
{
}

/// What handles a reconnect signal does what `step` does about it.
pub proof fn law_reconnect_signals_are_handled_as_by_step(s: &mut AppState, now: u128, r: Step)
    requires
        call_ensures(AppState::handle_reconnect_signal, (s, now), r),
    ensures
        transition(*old(s), Event::ReconnectSignal, now, *final(s), r),
{
}

/// What handles the end of an attempt to reconnect does what `step` does about it.
pub proof fn law_the_end_of_an_attempt_is_handled_as_by_step(s: &mut AppState, now: u128, r: Step)
    requires
        call_ensures(AppState::reconnect_over, (s, now), r),
    ensures
        transition(*old(s), Event::ReconnectHandled, now, *final(s), r),
{
}

/// What handles a report of the flush timer does what `step` does about it.
pub proof fn law_timer_signals_are_handled_as_by_step(s: &mut AppState, now: u128, r: Step)
    requires
        call_ensures(AppState::handle_timer_signal, (s,), r),
    ensures
        transition(*old(s), Event::TimerSignal, now, *final(s), r),
{
}

/// What handles a heartbeat tick does what `step` does about it.
pub proof fn law_heartbeat_ticks_are_handled_as_by_step(s: &mut AppState, now: u128, r: Step)
    requires
        call_ensures(AppState::handle_heartbeat_tick, (s, now), r),
    ensures
        transition(*old(s), Event::HeartbeatTick, now, *final(s), r),
{
}

/// What takes in how a new connection came out does what `step` does about it.
pub proof fn law_new_connections_are_handled_as_by_step(
    s: &mut AppState,
    result: Result<(), String>,
    now: u128,
    r: Step,
)
    requires
        call_ensures(AppState::connection_made, (s, result, now), r),
    ensures
        transition(*old(s), Event::Connected(result), now, *final(s), r),
{
}

/// What takes in a look at the connection does what `step` does about it.
pub proof fn law_looks_are_handled_as_by_step(s: &mut AppState, found: Polled, now: u128, r: Step)
    requires
        call_ensures(AppState::connection_polled, (s, found, now), r),
    ensures
        transition(*old(s), Event::Polled(found), now, *final(s), r),
{
}

/// What takes in how a write came out does what `step` does about it.
pub proof fn law_writes_are_handled_as_by_step(
    s: &mut AppState,
    after: AfterWrite,
    written: bool,
    now: u128,
    r: Step,
)
    requires
        call_ensures(AppState::messages_written, (s, after, written, now), r),
    ensures
        transition(*old(s), Event::Written(after, written), now, *final(s), r),
{
}

/// What takes in how a sending came out does what `step` does about it.
pub proof fn law_sendings_are_handled_as_by_step(
    s: &mut AppState,
    outgoing: Outgoing,
    result: Result<(), TransportError>,
    now: u128,
    r: Step,
)
    requires
        call_ensures(AppState::message_out, (s, outgoing, result, now), r),
    ensures
        transition(*old(s), Event::Sent(outgoing, result), now, *final(s), r),
{
}

/// So does what takes in how the sending of a request came out.
pub proof fn law_sent_requests_are_handled_as_by_step(
    s: &mut AppState,
    message: ClientMessage,
    result: Result<(), TransportError>,
    now: u128,
    r: Step,
)
    requires
        call_ensures(request_sent, (s, message, result, now), r),
    ensures
        transition(
            *old(s),
            Event::Sent(Outgoing { message, after: AfterSend::Request }, result),
            now,
            *final(s),
            r,
        ),
{
}

/// So does what takes in how the sending of another message came out.
pub proof fn law_sent_messages_are_handled_as_by_step(
    s: &mut AppState,
    message: ClientMessage,
    result: Result<(), TransportError>,
    now: u128,
    r: Step,
)
    requires
        call_ensures(AppState::message_sent, (s, result, now), r),
    ensures
        transition(
            *old(s),
            Event::Sent(Outgoing { message, after: AfterSend::Message }, result),
            now,
            *final(s),
            r,
        ),
{
}

/// So does what takes in how the sending of `notifications/initialized` came out.
pub proof fn law_sent_handshakes_are_handled_as_by_step(
    s: &mut AppState,
    message: ClientMessage,
    handshake: Handshake,
    result: Result<(), TransportError>,
    now: u128,
    r: Step,
)
    requires
        call_ensures(AppState::handshake_sent, (s, handshake, result, now), r),
    ensures
        transition(
            *old(s),
            Event::Sent(Outgoing { message, after: AfterSend::Initialized(handshake) }, result),
            now,
            *final(s),
            r,
        ),
{
}

/// So does what takes in how the sending of a message came out that was held back.
pub proof fn law_released_messages_are_handled_as_by_step(
    s: AppState,
    message: ClientMessage,
    result: Result<(), TransportError>,
    rest: Vec<ClientMessage>,
    now: u128,
    r: Step,
)
    requires
        call_ensures(buffered_sent, (message, result, rest), r),
    ensures
        transition(
            s,
            Event::Sent(Outgoing { message, after: AfterSend::Replay(rest) }, result),
            now,
            s,
            r,
        ),
{
}

/// A message that comes while the server is away is taken care of, as `step` takes
/// care of it; one that comes while it is there is given back, and nothing changes.
pub proof fn law_messages_are_taken_care_of_only_while_the_server_is_away(
    s: &mut AppState,
    message: ClientMessage,
    now: u128,
    r: Result<Option<ServerMessage>, ClientMessage>,
    step: Step,
)
    requires
        call_ensures(AppState::maybe_handle_message_while_disconnected, (s, message), r),
    ensures
        r is Ok <==> old(s).state is Disconnected,
        r matches Err(back) ==> back == message && *final(s) == *old(s),
        r matches Ok(reply) ==> {
            &&& starts_nothing(step)
            &&& match reply {
                None => step.action is Wait,
                Some(m) => step.action matches Action::Write { messages, after } && messages@
                    == seq![m] && after is Wait,
            }
        } ==> transition(*old(s), Event::Stdin(Some(Ok(message))), now, *final(s), step),
{
}

/// To send a request is to send it as it is.
pub proof fn law_a_request_is_sent_as_it_is(request: ClientMessage, r: Step)
    requires
        call_ensures(send_request_to_server, (request,), r),
    ensures
        r.action == Action::Send(Outgoing { message: request, after: AfterSend::Request }),
        starts_nothing(r),
{
}

/// A queue is sent from its front to its end.
pub proof fn law_a_queue_is_sent_in_order(queue: Vec<ClientMessage>, r: Step)
    requires
        call_ensures(replay, (queue,), r),
    ensures
        sends_all(r.action, queue@),
        starts_nothing(r),
{
    assert(queue@.len() > 0 ==> queue@.drop_first() == queue@.subrange(1, queue@.len() as int));
}

/// To release what is held back is to take it out and send it in order.
pub proof fn law_what_is_held_back_is_released_in_order(s: &mut AppState, r: Step)
    requires
        call_ensures(process_buffered_messages, (s,), r),
    ensures
        sends_all(r.action, old(s).in_buf@),
        final(s).in_buf@.len() == 0,
        *final(s) == (AppState { in_buf: final(s).in_buf, ..*old(s) }),
        starts_nothing(r),
{
    let queue = old(s).in_buf@;
    assert(queue.len() > 0 ==> queue.drop_first() == queue.subrange(1, queue.len() as int));
}

/// A flush answers everyone who waits, once and in order, and makes nobody wait any
/// more.
pub proof fn law_a_flush_answers_everyone_who_waits(s: &mut AppState, r: Vec<ServerMessage>)
    requires
        call_ensures(flush_buffer_with_errors, (s,), r),
    ensures
        r@.len() == who_waits(old(s).in_buf@).len(),
        forall|i: int|
            0 <= i < r@.len() ==> says_error(
                #[trigger] r@[i],
                who_waits(old(s).in_buf@)[i],
                -32010,
                away_text(),
            ),
        final(s).in_buf@.len() == 0,
        *final(s) == (AppState {
            in_buf: final(s).in_buf,
            buf_mode: BufferMode::Fail,
            ..*old(s)
        }),
{
    law_who_waits_is_who_asked(old(s).in_buf@);
}

/// The handshake on a new connection is that of `step`, on a state whose connection
/// can be listened to.
pub proof fn law_the_handshake_on_a_new_connection(s: &mut AppState, now: u128, r: Step)
    requires
        call_ensures(initiate_post_reconnect_handshake, (s,), r),
        old(s).transport_valid,
    ensures
        transition(*old(s), Event::Connected(Ok(())), now, *final(s), r),
{
}

/// The time allows an attempt to reconnect until the server has been away for too
/// long.
pub proof fn law_when_an_attempt_is_allowed(
    s: &AppState,
    now: u128,
    r: Result<(), ReconnectFailureReason>,
)
    requires
        call_ensures(try_reconnect, (s, now), r),
    ensures
        r is Ok <==> !overdue(s.max_disconnected_time, s.disconnected_since, now),
        r matches Err(reason) ==> reason is TimeoutExceeded,
{
    law_too_long_is_one_second_more_than_allowed(*s, now);
}

/// A connection has been silent for long after more than five seconds.
pub proof fn law_when_a_connection_is_silent(s: &AppState, now: u128, r: bool)
    requires
        call_ensures(send_heartbeat_if_needed, (s, now), r),
    ensures
        r <==> now - s.last_heartbeat > 5_000_000_000,
{
}

/// The two errors that the proxy answers with, in full.
pub proof fn law_the_proxys_own_errors(
    id: RequestId,
    method: &str,
    detail: &str,
    away: ServerMessage,
    refused: ServerMessage,
)
    requires
        call_ensures(reply_disconnected, (id,), away),
        call_ensures(reply_request_failed, (id, method, detail), refused),
    ensures
        says_error(away, id, -32010, away_text()),
        says_error(
            refused,
            id,
            -32011,
            "The server did not accept this "@ + method@ + " request: "@ + detail@,
        ),
{
}

/// An error response says what it is made of.
pub proof fn law_an_error_reply(id: RequestId, code: i32, message: String, r: ServerMessage)
    requires
        call_ensures(error_reply, (id, code, message), r),
    ensures
        says_error(r, id, code as int, message@),
{
}

/// What completes a handshake is `notifications/initialized`, for the handshake that
/// is to be completed.
pub proof fn law_what_completes_a_handshake(
    s: &AppState,
    handshake: Handshake,
    notification: ClientMessage,
    r: Step,
)
    requires
        call_ensures(initialized_notification, (), notification),
        call_ensures(AppState::complete_handshake, (s, handshake), r),
    ensures
        notification == ClientMessage::Notification(ClientNotice::Initialized),
        r.action == Action::Send(
            Outgoing { message: notification, after: AfterSend::Initialized(handshake) },
        ),
        starts_nothing(r),
{
}

/// The version is overwritten in the answer to `initialize`, if the proxy was told
/// to, and nothing else is overwritten anywhere.
pub proof fn law_what_is_overwritten(s: &AppState, message: ServerMessage, r: ServerMessage)
    requires
        call_ensures(AppState::maybe_overwrite_protocol_version, (s, message), r),
    ensures
        match (s.override_protocol_version, message) {
            (
                Some(version),
                ServerMessage::Response { id, result: ServerAnswer::Initialize { rest, .. } },
            ) => r == (ServerMessage::Response {
                id,
                result: ServerAnswer::Initialize { protocol_version: version, rest },
            }),
            _ => r == message,
        },
{
}

/// Room for an event is found exactly where there is room.
pub proof fn law_room_is_found_where_it_is(s: &AppState, event: Event, now: u128, r: bool)
    requires
        call_ensures(AppState::has_room_for, (s, &event, now), r),
    ensures
        r == s.can_take(event, now),
        s.connect_tries < u32::MAX ==> r,
{
    law_there_is_room_for_every_event(*s, event, now);
}

/// A new state holds what it was made of, and nothing has happened to it.
pub proof fn law_a_new_state(
    url: String,
    max: Option<u64>,
    version: Option<ProtocolVersion>,
    clock: Clock,
    now: u128,
    r: AppState,
)
    requires
        call_ensures(AppState::new_at, (url, max, version, clock, now), r),
    ensures
        r.in_buf@.len() == 0,
        r == (AppState {
            url,
            max_disconnected_time: max,
            override_protocol_version: version,
            disconnected_since: None,
            state: ProxyState::Connecting,
            connect_tries: 0,
            init_message: None,
            in_buf: r.in_buf,
            buf_mode: BufferMode::Store,
            flush_timer_active: false,
            has_reconnect_tx: false,
            has_timer_tx: false,
            reconnect_scheduled: false,
            transport_valid: true,
            last_heartbeat: now,
            clock,
        }),
{
}

/// The state of a proxy that is made now is that of one made at the time that its
/// clock reads.
pub proof fn law_a_state_made_now(
    url: String,
    max: Option<u64>,
    version: Option<ProtocolVersion>,
    r: AppState,
)
    requires
        call_ensures(AppState::new, (url, max, version), r),
    ensures
        r.clock.reads(r.last_heartbeat),
        r.in_buf@.len() == 0,
        r == (AppState {
            url,
            max_disconnected_time: max,
            override_protocol_version: version,
            disconnected_since: None,
            state: ProxyState::Connecting,
            connect_tries: 0,
            init_message: None,
            in_buf: r.in_buf,
            buf_mode: BufferMode::Store,
            flush_timer_active: false,
            has_reconnect_tx: false,
            has_timer_tx: false,
            reconnect_scheduled: false,
            transport_valid: true,
            last_heartbeat: r.last_heartbeat,
            clock: r.clock,
        }),
{
}

/// Once the first connection is there, the client's `initialize` is waited for.
pub proof fn law_the_first_connection(s: &mut AppState, r: ())
    requires
        call_ensures(AppState::started, (s,), r),
    ensures
        *final(s) == (AppState { state: ProxyState::WaitingForClientInit, ..*old(s) }),
{
}

/// An opened session begins with everything reset, at the time that is given or that
/// the clock reads.
pub proof fn law_an_opened_session_begins_anew(s: &mut AppState, t: &mut AppState, now: u128)
    requires
        call_ensures(AppState::connected_at, (s, now), ()),
        call_ensures(AppState::connected, (t,), ()),
    ensures
        *final(s) == opened(*old(s), now),
        *final(t) == opened(*old(t), final(t).last_heartbeat),
        old(t).clock.reads(final(t).last_heartbeat),
{
}

/// That the server is away is counted every time, and dated the first time.
pub proof fn law_a_loss_is_dated_once_and_counted_every_time(s: &mut AppState, now: u128)
    requires
        call_ensures(AppState::disconnected_at, (s, now), ()),
    ensures
        old(s).state is Disconnected ==> *final(s) == (AppState {
            connect_tries: (old(s).connect_tries + 1) as u32,
            ..*old(s)
        }),
        !(old(s).state is Disconnected) ==> *final(s) == (AppState {
            state: ProxyState::Disconnected,
            disconnected_since: Some(now),
            buf_mode: BufferMode::Store,
            transport_valid: false,
            connect_tries: (old(s).connect_tries + 1) as u32,
            ..*old(s)
        }),
{
}

/// The same at the time that the clock reads.
pub proof fn law_a_loss_that_is_found_now(s: &mut AppState)
    requires
        call_ensures(AppState::disconnected, (s,), ()),
    ensures
        old(s).state is Disconnected ==> *final(s) == (AppState {
            connect_tries: (old(s).connect_tries + 1) as u32,
            ..*old(s)
        }),
        !(old(s).state is Disconnected) ==> {
            &&& final(s).disconnected_since matches Some(since)
            &&& old(s).clock.reads(since)
            &&& *final(s) == (AppState {
                state: ProxyState::Disconnected,
                disconnected_since: Some(since),
                buf_mode: BufferMode::Store,
                transport_valid: false,
                connect_tries: (old(s).connect_tries + 1) as u32,
                ..*old(s)
            })
        },
{
}

/// A connection that is given up is lost, at the time that is given, and the timers
/// run that end the wait; one that is lost already stays as it is.
pub proof fn law_a_connection_that_is_given_up_is_lost(s: &mut AppState, now: u128, r: Timers)
    requires
        call_ensures(AppState::handle_fatal_transport_error_at, (s, now), r),
        old(s).connect_tries < u32::MAX,
    ensures
        old(s).state is Disconnected ==> *final(s) == *old(s) && !r.flush && r.reconnect is None,
        !(old(s).state is Disconnected) ==> *final(s) == lost(*old(s), now)
            && starts_timers_for_loss(*old(s), (Step { timers: r, action: Action::Wait })),
{
    lemma2_to64();
}

/// The same at the time that the clock reads.
pub proof fn law_a_connection_that_is_given_up_now_is_lost(s: &mut AppState, r: Timers)
    requires
        call_ensures(AppState::handle_fatal_transport_error, (s,), r),
        old(s).connect_tries < u32::MAX,
    ensures
        old(s).state is Disconnected ==> *final(s) == *old(s) && !r.flush && r.reconnect is None,
        !(old(s).state is Disconnected) ==> {
            &&& exists|now: u128|
                old(s).clock.reads(now) && *final(s) == #[trigger] lost(*old(s), now)
            &&& starts_timers_for_loss(*old(s), (Step { timers: r, action: Action::Wait }))
        },
{
    lemma2_to64();
    let now = choose|now: u128|
        old(s).clock.reads(now) && #[trigger] old(s).after_fatal(now) == *final(s) && r == old(
            s,
        ).fatal_timers(now);
    assert(!(old(s).state is Disconnected) ==> *final(s) == lost(*old(s), now));
}

/// The time is what the state's own clock reads.
pub proof fn law_whose_clock_is_read(s: &AppState, now: u128, clock: &Clock, reading: u128)
    requires
        call_ensures(AppState::now, (s,), now),
        call_ensures(Clock::now, (clock,), reading),
    ensures
        s.clock.reads(now),
        clock.reads(reading),
{
}

/// A heartbeat changes nothing but the time of the last one.
pub proof fn law_a_heartbeat_is_noted(s: &mut AppState, t: &mut AppState, now: u128)
    requires
        call_ensures(AppState::update_heartbeat_at, (s, now), ()),
        call_ensures(AppState::update_heartbeat, (t,), ()),
    ensures
        *final(s) == (AppState { last_heartbeat: now, ..*old(s) }),
        *final(t) == (AppState { last_heartbeat: final(t).last_heartbeat, ..*old(t) }),
        old(t).clock.reads(final(t).last_heartbeat),
{
}

/// The server has been away for too long once the allowed seconds and one more have
/// passed, by the time that is given or that the clock reads.
pub proof fn law_when_the_server_is_away_for_too_long(s: &AppState, now: u128, r: bool, q: bool)
    requires
        call_ensures(AppState::disconnected_too_long_at, (s, now), r),
        call_ensures(AppState::disconnected_too_long, (s,), q),
    ensures
        r == overdue(s.max_disconnected_time, s.disconnected_since, now),
        exists|t: u128| #[trigger]
            s.clock.reads(t) && q == overdue(s.max_disconnected_time, s.disconnected_since, t),
{
    law_too_long_is_one_second_more_than_allowed(*s, now);
    let t = choose|t: u128| s.clock.reads(t) && q == #[trigger] s.too_long(t);
    law_too_long_is_one_second_more_than_allowed(*s, t);
    assert(s.clock.reads(t));
}

/// The pause before an attempt is one second, and two, four or eight after one, two,
/// or more failed ones.
pub proof fn law_the_pause_before_an_attempt(s: &AppState, r: u64)
    requires
        call_ensures(AppState::get_backoff_duration, (s,), r),
    ensures
        r == pause(s.connect_tries as int),
{
    lemma2_to64();
}

/// A timer is started if none of its kind is running and it has somewhere to report
/// to, and then one is known to be running. The flush timer takes twenty seconds.
pub proof fn law_when_a_timer_is_started(
    s: &mut AppState,
    reconnect: Option<u64>,
    t: &mut AppState,
    flush: bool,
)
    requires
        call_ensures(AppState::schedule_reconnect, (s,), reconnect),
        call_ensures(AppState::schedule_flush_timer, (t,), flush),
    ensures
        reconnect is Some <==> !old(s).reconnect_scheduled && old(s).has_reconnect_tx,
        reconnect matches Some(seconds) ==> seconds == pause(old(s).connect_tries as int),
        *final(s) == (AppState {
            reconnect_scheduled: old(s).reconnect_scheduled || old(s).has_reconnect_tx,
            ..*old(s)
        }),
        flush <==> !old(t).flush_timer_active && old(t).has_timer_tx,
        FLUSH_DELAY_SECS == 20,
        *final(t) == (AppState {
            flush_timer_active: old(t).flush_timer_active || old(t).has_timer_tx,
            ..*old(t)
        }),
{
    lemma2_to64();
}

/// The nanoseconds between two readings; none if the clock went back.
pub proof fn law_the_time_between_two_readings(since: u128, now: u128, r: u128)
    requires
        call_ensures(nanos_between, (since, now), r),
    ensures
        since <= now ==> since + r == now,
        now < since ==> r == 0,
{
}

/// A failure is described and judged by what it is.
pub proof fn law_a_failure_is_described_and_judged(e: &TransportError, text: String, fatal: bool)
    requires
        call_ensures(describe_transport_error, (e,), text),
        call_ensures(is_session_fatal, (e,), fatal),
    ensures
        text@ == in_words(*e),
        fatal == ends_the_session(e.kind),
{
    law_a_failure_is_described_down_to_its_last_cause(*e);
}

/// What decides about a request is read out of the request itself.
pub proof fn law_what_decides_is_read_out_of_the_request(
    params: rmcp::model::ClientRequest,
    r: ClientCall,
)
    requires
        call_ensures(ClientCall::new, (params,), r),
    ensures
        r.params == params,
        r.kind == request_kind(params),
        r.method@ == request_method(params),
{
}

/// Copies are what was copied.
pub proof fn law_copies_are_what_was_copied(
    id: &RequestId,
    id_copy: RequestId,
    call: &ClientCall,
    call_copy: ClientCall,
    version: &ProtocolVersion,
    version_copy: ProtocolVersion,
    state: &ProxyState,
    state_copy: ProxyState,
)
    requires
        call_ensures(RequestId::clone, (id,), id_copy),
        call_ensures(ClientCall::clone, (call,), call_copy),
        call_ensures(ProtocolVersion::clone, (version,), version_copy),
        call_ensures(ProxyState::clone, (state,), state_copy),
    ensures
        id_copy == *id,
        call_copy == *call,
        version_copy == *version,
        state_copy == *state,
{
}

/// Ids are the same if they are the same number or the same text, and so are states
/// that hold one.
pub proof fn law_when_ids_and_states_are_the_same(
    a: RequestId,
    b: RequestId,
    x: ProxyState,
    y: ProxyState,
)
    ensures
        a.same(b) == equal_ids(a, b),
        x.same(y) == match (x, y) {
            (ProxyState::WaitingForServerInit(i), ProxyState::WaitingForServerInit(j)) => equal_ids(
                i,
                j,
            ),
            (
                ProxyState::WaitingForServerInitHidden(i),
                ProxyState::WaitingForServerInitHidden(j),
            ) => equal_ids(i, j),
            _ => x == y && !(x is WaitingForServerInit) && !(x is WaitingForServerInitHidden),
        },
{
}

/// A POST offers to take events and JSON.
pub proof fn law_what_a_post_offers_to_take(r: String)
    requires
        call_ensures(accept_header, (), r),
    ensures
        r@ == "text/event-stream"@ + ", "@ + "application/json"@,
{
}

/// A `content-type` begins with a MIME type if it is given and its first bytes are
/// those of the type.
pub proof fn law_when_a_content_type_begins_with_a_mime_type(
    content_type: Option<&str>,
    mime: &str,
    r: bool,
)
    requires
        call_ensures(starts_with, (content_type, mime), r),
    ensures
        content_type is None ==> !r,
        content_type matches Some(given) ==> (r <==> {
            let text = encode_utf8(given@);
            let prefix = encode_utf8(mime@);
            &&& prefix.len() <= text.len()
            &&& forall|i: int| 0 <= i < prefix.len() ==> #[trigger] prefix[i] == text[i]
        }),
{
    if let Some(given) = content_type {
        let text = encode_utf8(given@);
        let prefix = encode_utf8(mime@);
        if prefix.len() <= text.len() && forall|i: int|
            0 <= i < prefix.len() ==> #[trigger] prefix[i] == text[i] {
            assert(prefix == text.subrange(0, prefix.len() as int));
        }
        if r {
            assert forall|i: int| 0 <= i < prefix.len() implies #[trigger] prefix[i] == text[i] by {
                assert(text.subrange(0, prefix.len() as int)[i] == text[i]);
            }
        }
    }
}

/// The code points that are white space.
pub open spec fn is_white(c: char) -> bool {
    let n = c as int;
    ||| 0x9 <= n <= 0xd
    ||| n == 0x20
    ||| n == 0x85
    ||| n == 0xa0
    ||| n == 0x1680
    ||| 0x2000 <= n <= 0x200a
    ||| 0x2028 <= n <= 0x2029
    ||| n == 0x202f
    ||| n == 0x205f
    ||| n == 0x3000
}

/// There is something in the text that is not white space.
pub open spec fn has_ink(text: Seq<char>) -> bool {
    exists|i: int| 0 <= i < text.len() && !is_white(#[trigger] text[i])
}

/// A text is blank if there is nothing in it but white space.
pub proof fn law_when_a_text_is_blank(text: &str, r: bool)
    requires
        call_ensures(is_blank, (text,), r),
    ensures
        r <==> !has_ink(text@),
{
    if r {
        assert forall|i: int| 0 <= i < text@.len() implies is_white(#[trigger] text@[i]) by {
            assert(is_whitespace(text@[i]));
        }
    } else {
        let i = choose|i: int|
            0 <= i < text@.len() && !is_whitespace(#[trigger] text@[i]);
        assert(!is_white(text@[i]));
    }
}

/// The header is there, and all of it is visible ASCII or tab.
pub open spec fn is_readable(header: Option<Vec<u8>>) -> bool {
    header matches Some(value) && forall|i: int|
        0 <= i < value@.len() ==> (32 <= #[trigger] value@[i] < 127 || value@[i] == 9)
}

/// The text is that of the header, byte for byte.
pub open spec fn is_text_of(text: Seq<char>, header: Option<Vec<u8>>) -> bool {
    &&& header matches Some(value)
    &&& text.len() == value@.len()
    &&& forall|i: int| 0 <= i < text.len() ==> #[trigger] text[i] as int == value@[i] as int
}

/// The session is the one that the response names, if it names one in readable text,
/// and none otherwise.
pub open spec fn is_session_of(session_id: Option<String>, head: ResponseHead) -> bool {
    match session_id {
        Some(text) => is_readable(head.session_id) && is_text_of(text@, head.session_id),
        None => !is_readable(head.session_id),
    }
}

proof fn lemma_header_str(header: Option<Vec<u8>>)
    ensures
        header_str(header) is Some <==> is_readable(header),
        header_str(header) matches Some(text) ==> is_text_of(text, header),
{
    if let Some(value) = header {
        if is_readable(header) {
            assert forall|i: int| 0 <= i < value@.len() implies is_visible_ascii(
                #[trigger] value@[i],
            ) by {}
        }
        if visible_text(value@) is Some {
            assert forall|i: int| 0 <= i < value@.len() implies (32 <= #[trigger] value@[i] < 127
                || value@[i] == 9) by {
                assert(is_visible_ascii(value@[i]));
            }
        }
    }
}

/// The head of a response is read in this order: wanted credentials, an expired
/// session, events to come. The session that the response names comes with the
/// verdict, whether or not one was named in the request.
pub proof fn law_how_a_head_is_read(head: &ResponseHead, attached: bool, r: HeadVerdict)
    requires
        call_ensures(post_message_head, (head, attached), r),
    ensures
        r is AuthRequired <==> head.status == 401 && is_readable(head.www_authenticate),
        r matches HeadVerdict::AuthRequired { www_authenticate } ==> is_text_of(
            www_authenticate@,
            head.www_authenticate,
        ),
        r is SessionExpired <==> head.status == 404 && attached,
        r is EventStream ==> head.content_type is Some,
        head.content_type matches Some(value) ==> !(r is AuthRequired) && !(r is SessionExpired)
            ==> (r is EventStream <==> encode_utf8("text/event-stream"@).is_prefix_of(
            encode_utf8(lossy_text(value@)),
        )),
        head.content_type matches Some(value) ==> valid_utf8(value@) ==> !(r is AuthRequired)
            && !(r is SessionExpired) ==> (r is EventStream <==> encode_utf8(
            "text/event-stream"@,
        ).is_prefix_of(value@)),
        r matches HeadVerdict::EventStream { session_id } ==> is_session_of(session_id, *head),
        r matches HeadVerdict::ReadBody { session_id } ==> is_session_of(session_id, *head),
{
    lemma_header_str(head.www_authenticate);
    lemma_header_str(head.session_id);
}

/// A message in the body is the answer, whatever the status and whatever else the
/// body holds.
pub proof fn law_a_message_in_the_body_is_the_answer(
    status: u16,
    session_id: Option<String>,
    body: String,
    r: PostVerdict,
)
    requires
        call_ensures(post_message_body, (status, session_id, Some(body)), r),
        has_ink(body@),
        parsed_server_message(body@) is Some,
    ensures
        r == (PostVerdict::Json { message: parsed_server_message(body@)->0, session_id }),
{
    let i = choose|i: int| 0 <= i < body@.len() && !is_white(#[trigger] body@[i]);
    assert(!is_whitespace(body@[i]));
}

/// Without a message in the body, the status decides: a server that was happy has
/// nothing to say, and another one is quoted.
pub proof fn law_without_a_message_the_status_decides(
    status: u16,
    session_id: Option<String>,
    body: String,
    r: PostVerdict,
)
    requires
        call_ensures(post_message_body, (status, session_id, Some(body)), r),
        !has_ink(body@) || parsed_server_message(body@) is None,
    ensures
        200 <= status < 300 ==> r is Accepted,
        !(200 <= status < 300) ==> {
            &&& r matches PostVerdict::Unexpected { description }
            &&& description@ == "HTTP "@ + status_line(status) + ": "@ + body@
        },
{
    if !has_ink(body@) {
        assert forall|i: int| 0 <= i < body@.len() implies is_whitespace(
            #[trigger] body@[i],
        ) by {
            assert(is_white(body@[i]));
        }
    }
}

/// A body that could not be read is neither an answer nor an empty body.
pub proof fn law_a_body_that_breaks_off(status: u16, session_id: Option<String>, r: PostVerdict)
    requires
        call_ensures(post_message_body, (status, session_id, None::<String>), r),
    ensures
        r is Unreadable,
{
}

/// A response is settled by the message that was found, and by its status where none
/// was.
pub proof fn law_how_a_response_is_settled(
    status: u16,
    session_id: Option<String>,
    body: &str,
    message: Option<rmcp::model::ServerJsonRpcMessage>,
    r: PostVerdict,
)
    requires
        call_ensures(settle_response, (status, session_id, body, message), r),
    ensures
        message matches Some(m) ==> r == (PostVerdict::Json { message: m, session_id }),
        message is None && 200 <= status < 300 ==> r is Accepted,
        message is None && !(200 <= status < 300) ==> {
            &&& r matches PostVerdict::Unexpected { description }
            &&& description@ == "HTTP "@ + status_line(status) + ": "@ + body@
        },
{
}

/// A refusal is quoted with its status and its body.
pub proof fn law_how_a_refusal_is_quoted(status: &str, body: &str, r: String)
    requires
        call_ensures(describe_refusal, (status, body), r),
    ensures
        r@ == "HTTP "@ + status@ + ": "@ + body@,
{
}

/// A stream that was given is passed on; one that was not is a capability that the
/// server lacks, whatever it said. A session is over either way.
pub proof fn law_streams_and_the_end_of_a_session<S>(
    answer: Result<S, TransportError>,
    stream: Result<S, TransportErrorKind>,
    end: Result<(), TransportError>,
    over: Result<(), TransportError>,
)
    requires
        call_ensures(get_stream::<S>, (answer,), stream),
        call_ensures(delete_session, (end,), over),
    ensures
        stream is Ok <==> answer is Ok,
        answer is Ok ==> stream->Ok_0 == answer->Ok_0,
        stream matches Err(kind) ==> kind is ServerDoesNotSupportSse && !ends_the_session(kind),
        over is Ok,
{
}

/// The URL is the argument, or else what the environment says, or else missing.
pub proof fn law_where_the_server_is(
    argument: Option<String>,
    environment: Option<String>,
    r: Result<String, StartupError>,
)
    requires
        call_ensures(server_url, (argument, environment), r),
    ensures
        argument is Some ==> r is Ok && r->Ok_0 == argument->0,
        argument is None && environment is Some ==> r is Ok && r->Ok_0 == environment->0,
        argument is None && environment is None ==> r is Err && r->Err_0 is MissingUrl,
{
}

/// A version to report is taken as it is written if it is one of four, and refused
/// otherwise.
pub proof fn law_which_versions_can_be_reported(
    version: Option<String>,
    r: Result<Option<ProtocolVersion>, StartupError>,
)
    requires
        call_ensures(override_version, (version,), r),
    ensures
        version is None ==> r is Ok && r->Ok_0 is None,
        version matches Some(text) ==> {
            let known = text@ == "2024-11-05"@ || text@ == "2025-03-26"@ || text@ == "2025-06-18"@
                || text@ == "2025-11-25"@;
            match r {
                Ok(Some(v)) => known && v.text@ == text@,
                Ok(None) => false,
                Err(StartupError::UnsupportedVersion(t)) => !known && t@ == text@,
                Err(_) => false,
            }
        },
{
}

/// The first connection is tried until it is there or five minutes have passed.
pub proof fn law_how_long_the_first_connection_is_tried(
    connected: bool,
    began: u128,
    now: u128,
    delay: u64,
    r: InitialStep,
)
    requires
        call_ensures(after_initial_attempt, (connected, began, now, delay), r),
    ensures
        r is Start <==> connected,
        r is GiveUp <==> !connected && now - began >= 300_000_000_000,
        r matches InitialStep::GiveUp(e) ==> e is InitialConnectTimeout,
        r matches InitialStep::Retry(seconds) ==> seconds == delay,
{
}

/// What the errors say.
pub proof fn law_what_the_errors_say(e: &StartupError, text: String, p: &ProxyError, fatal: String)
    requires
        call_ensures(StartupError::describe, (e,), text),
        call_ensures(ProxyError::describe, (p,), fatal),
    ensures
        e is MissingUrl ==> text@
            == "Either the URL must be passed as the first argument or the SSE_URL environment variable must be set"@,
        e matches StartupError::UnsupportedVersion(version) ==> text@
            == "Unsupported protocol version: "@ + version@
            + ". Supported versions are: 2024-11-05, 2025-03-26, 2025-06-18, 2025-11-25"@,
        e is InitialConnectTimeout ==> text@ == "Initial connection timed out after 300s"@,
        fatal@ == "Cannot perform reconnect handshake: init_message is missing"@,
{
}

/// Steps are made of what they are made of.
pub proof fn law_how_steps_are_made(
    action: Action,
    only: Step,
    timers: Timers,
    reply: Option<ServerMessage>,
    answer: Step,
    message: ServerMessage,
    after: AfterWrite,
    write: Step,
)
    requires
        call_ensures(Step::only, (action,), only),
        call_ensures(Step::answer, (timers, reply), answer),
        call_ensures(Step::write, (message, after), write),
    ensures
        only.action == action && starts_nothing(only),
        answer.timers == timers,
        reply is None ==> answer.action is Wait,
        reply matches Some(m) ==> answer.action matches Action::Write { messages, after: a }
            && messages@ == seq![m] && a is Wait,
        write.action matches Action::Write { messages, after: a } && messages@ == seq![message] && a
            == after,
        starts_nothing(write),
{
}

} // verus!
