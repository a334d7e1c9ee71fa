//! The proxy: what happens is handed in, and what is to be done comes out.

use crate::message::{
    error_reply, initialized_notification, ClientMessage, ClientNotice, ServerAnswer, ServerMessage,
};
use crate::session::{
    buffer_taken, buffered_sent, buffered_was_sent, client_request_processed,
    flush_buffer_with_errors, flushed, handshake_initiated, initiate_post_reconnect_handshake,
    process_buffered_messages, process_client_request, replay, request_sent, request_was_sent,
    send_heartbeat_if_needed, try_reconnect,
};
use crate::state::{AppState, BufferMode, ProxyState, ReconnectFailureReason};
use crate::step::{Action, AfterSend, AfterWrite, Event, Handshake, Outgoing, Polled, Step, Timers};
use crate::transport::{is_session_fatal, TransportError};
use crate::TRANSPORT_SEND_ERROR_CODE;
use vstd::prelude::*;

verus! {

/// What `initialize` is told when the server accepted it but would not go on
/// with the session.
pub open spec fn handshake_failed_text(detail: Seq<char>) -> Seq<char> {
    "Server accepted initialize but the connection cannot carry an MCP session: "@ + detail
}

/// What becomes of something that the client said. If it cannot be read, or if
/// the client is gone, the proxy ends.
pub open spec fn stdin_handled(
    pre: AppState,
    said: Option<Result<ClientMessage, String>>,
    post: AppState,
    step: Step,
) -> bool {
    match said {
        Some(Ok(message)) => client_request_processed(pre, message, post, step),
        _ => post == pre && step == (Step { timers: Timers::idle(), action: Action::Stop }),
    }
}

/// The connection is given up, and nothing else happens.
pub open spec fn given_up(pre: AppState, now: u128, post: AppState, step: Step) -> bool {
    &&& post == pre.after_fatal(now)
    &&& step == (Step { timers: pre.fatal_timers(now), action: Action::Wait })
}

impl AppState {
    /// The message is the answer to the `initialize` that is waited for.
    pub open spec fn awaits(self, message: ServerMessage) -> bool {
        match (self.state, message) {
            (
                ProxyState::WaitingForServerInit(waiting),
                ServerMessage::Response { id, .. },
            ) => waiting.same(id),
            (
                ProxyState::WaitingForServerInitHidden(waiting),
                ServerMessage::Response { id, .. },
            ) => waiting.same(id),
            _ => false,
        }
    }

    /// The message as the client gets to see it: the answer to `initialize`
    /// reports the version that the proxy was told to report.
    pub open spec fn overwritten(self, message: ServerMessage) -> ServerMessage {
        match (self.override_protocol_version, message) {
            (
                Some(version),
                ServerMessage::Response { id, result: ServerAnswer::Initialize { rest, .. } },
            ) => ServerMessage::Response {
                id,
                result: ServerAnswer::Initialize { protocol_version: version, rest },
            },
            _ => message,
        }
    }
}

/// What becomes of something that the server said.
///
/// The answer to `initialize` is held until the handshake is complete; anything
/// else goes to the client as it is. If the server is gone, the connection is
/// given up.
pub open spec fn server_message_handled(
    pre: AppState,
    said: Option<ServerMessage>,
    now: u128,
    post: AppState,
    step: Step,
) -> bool {
    match said {
        None => given_up(pre, now, post, step),
        Some(message) => {
            let alive = AppState { last_heartbeat: now, ..pre };
            &&& step.timers == Timers::idle()
            &&& if pre.awaits(message) {
                let handshake = if pre.state is WaitingForServerInitHidden {
                    Handshake::Hidden
                } else {
                    Handshake::Visible {
                        id: message->Response_id,
                        result: message->Response_result,
                    }
                };
                &&& post == if pre.state is WaitingForServerInitHidden {
                    alive.after_connected(now)
                } else {
                    alive
                }
                &&& step.action == Action::Send(
                    Outgoing {
                        message: ClientMessage::Notification(ClientNotice::Initialized),
                        after: AfterSend::Initialized(handshake),
                    },
                )
            } else {
                &&& post == alive
                &&& step.action.forwards(message)
            }
        },
    }
}

/// What follows when `notifications/initialized` was sent, or was not.
///
/// A handshake behind the client's back releases what was held back. The
/// client's own is answered only now: with the server's answer if the session
/// is open, and with an error if it is not.
pub open spec fn handshake_was_sent(
    pre: AppState,
    handshake: Handshake,
    result: Result<(), TransportError>,
    now: u128,
    post: AppState,
    step: Step,
) -> bool {
    match (handshake, result) {
        (Handshake::Hidden, Ok(())) => {
            &&& buffer_taken(pre.after_connected(now), post)
            &&& step.timers == Timers::idle()
            &&& step.action.replays(pre.in_buf@)
        },
        (Handshake::Hidden, Err(_)) => given_up(pre, now, post, step),
        (Handshake::Visible { id, result }, Ok(())) => {
            &&& post == pre.after_connected(now)
            &&& step.timers == Timers::idle()
            &&& step.action.forwards(pre.overwritten(ServerMessage::Response { id, result }))
        },
        (Handshake::Visible { id, .. }, Err(e)) => {
            &&& post == pre
            &&& step.timers == Timers::idle()
            &&& step.action matches Action::Write { messages, after }
            &&& messages@.len() == 1
            &&& messages@[0].is_error_reply(
                id,
                TRANSPORT_SEND_ERROR_CODE,
                handshake_failed_text(e.message@),
            )
            &&& after is RefusedInitialize
        },
    }
}

/// What follows when a message of the client that is no request was sent, or
/// was not.
pub open spec fn message_was_sent(
    pre: AppState,
    result: Result<(), TransportError>,
    now: u128,
    post: AppState,
    step: Step,
) -> bool {
    match result {
        Ok(()) => post == pre && step == (Step { timers: Timers::idle(), action: Action::Wait }),
        Err(_) => given_up(pre, now, post, step),
    }
}

/// What follows when a message was sent, or was not.
pub open spec fn was_sent(
    pre: AppState,
    outgoing: Outgoing,
    result: Result<(), TransportError>,
    now: u128,
    post: AppState,
    step: Step,
) -> bool {
    match outgoing.after {
        AfterSend::Request => request_was_sent(pre, outgoing.message, result, now, post, step),
        AfterSend::Message => message_was_sent(pre, result, now, post, step),
        AfterSend::Initialized(handshake) => handshake_was_sent(
            pre,
            handshake,
            result,
            now,
            post,
            step,
        ),
        AfterSend::Replay(rest) => post == pre && buffered_was_sent(
            outgoing.message,
            result,
            rest@,
            step,
        ),
    }
}

/// What follows when messages were written to the client, or were not.
pub open spec fn was_written(
    pre: AppState,
    after: AfterWrite,
    written: bool,
    now: u128,
    post: AppState,
    step: Step,
) -> bool {
    match after {
        AfterWrite::Wait => post == pre && step == (Step {
            timers: Timers::idle(),
            action: Action::Wait,
        }),
        AfterWrite::Stop => post == pre && step == (Step {
            timers: Timers::idle(),
            action: Action::Stop,
        }),
        AfterWrite::Forwarded => {
            &&& post == pre
            &&& step == (Step {
                timers: Timers::idle(),
                action: if written {
                    Action::Wait
                } else {
                    Action::Stop
                },
            })
        },
        AfterWrite::RefusedInitialize => if written {
            given_up(pre, now, post, step)
        } else {
            post == pre && step == (Step { timers: Timers::idle(), action: Action::Stop })
        },
        AfterWrite::Replay(queue) => {
            &&& post == pre
            &&& step.timers == Timers::idle()
            &&& step.action.replays(queue@)
        },
    }
}

/// What follows when an attempt to reconnect failed: the next one is arranged,
/// unless the server has been away for too long. In that case what was held back
/// is answered.
pub open spec fn reconnect_has_failed(
    pre: AppState,
    reason: ReconnectFailureReason,
    now: u128,
    post: AppState,
    step: Step,
) -> bool {
    let counted = AppState { connect_tries: (pre.connect_tries + 1) as u32, ..pre };
    if reason is TimeoutExceeded || pre.too_long(now) {
        flushed(counted, post, step, AfterWrite::Wait)
    } else {
        &&& post == counted.after_schedule_reconnect()
        &&& step == (Step {
            timers: Timers { flush: false, reconnect: counted.reconnect_timer() },
            action: Action::Wait,
        })
    }
}

/// What follows when it is time to reconnect: if the server is away, a new
/// connection is made, unless it has been away for too long.
pub open spec fn reconnect_signal_handled(
    pre: AppState,
    now: u128,
    post: AppState,
    step: Step,
) -> bool {
    let ready = AppState { reconnect_scheduled: false, ..pre };
    if !(pre.state is Disconnected) {
        post == ready && step == (Step { timers: Timers::idle(), action: Action::Wait })
    } else if pre.too_long(now) {
        reconnect_has_failed(ready, ReconnectFailureReason::TimeoutExceeded, now, post, step)
    } else {
        post == ready && step == (Step { timers: Timers::idle(), action: Action::Connect })
    }
}

/// What follows when a new connection was made, or was not.
pub open spec fn connection_was_made(
    pre: AppState,
    result: Result<(), String>,
    now: u128,
    post: AppState,
    step: Step,
) -> bool {
    match result {
        Ok(()) => handshake_initiated(AppState { transport_valid: true, ..pre }, post, step),
        Err(e) => reconnect_has_failed(
            pre,
            ReconnectFailureReason::ConnectionFailed(e),
            now,
            post,
            step,
        ),
    }
}

/// What follows when an attempt to reconnect is over: if the server has been
/// away for too long, the proxy ends, and nothing stays behind unanswered.
pub open spec fn reconnect_is_over(pre: AppState, now: u128, post: AppState, step: Step) -> bool {
    if !pre.too_long(now) {
        post == pre && step == (Step { timers: Timers::idle(), action: Action::Wait })
    } else if pre.in_buf@.len() > 0 && pre.buf_mode is Store {
        flushed(pre, post, step, AfterWrite::Stop)
    } else {
        post == pre && step == (Step { timers: Timers::idle(), action: Action::Stop })
    }
}

/// What follows when the flush timer reports: if the server is still away, what
/// was held back is answered.
pub open spec fn timer_signal_handled(pre: AppState, post: AppState, step: Step) -> bool {
    let quiet = AppState { flush_timer_active: false, ..pre };
    if pre.state is Disconnected {
        flushed(quiet, post, step, AfterWrite::Wait)
    } else {
        post == quiet && step == (Step { timers: Timers::idle(), action: Action::Wait })
    }
}

/// What follows when it is time to look after the connection: if it is there and
/// has been silent for long, it is looked at.
pub open spec fn heartbeat_tick_handled(
    pre: AppState,
    now: u128,
    post: AppState,
    step: Step,
) -> bool {
    &&& post == pre
    &&& step == (Step {
        timers: Timers::idle(),
        action: if pre.state is Connected && pre.is_idle(now) {
            Action::Poll
        } else {
            Action::Wait
        },
    })
}

/// What follows when the connection was looked at.
pub open spec fn was_polled(
    pre: AppState,
    found: Polled,
    now: u128,
    post: AppState,
    step: Step,
) -> bool {
    if found is Ended {
        given_up(pre, now, post, step)
    } else {
        &&& post == (AppState { last_heartbeat: now, ..pre })
        &&& step == (Step { timers: Timers::idle(), action: Action::Wait })
    }
}

impl AppState {
    /// There is room to count what this event at the time `now` makes the proxy
    /// count.
    pub open spec fn can_take(self, event: Event, now: u128) -> bool {
        match event {
            Event::Server(None) => self.can_disconnect(),
            Event::ReconnectSignal => self.state is Disconnected && self.too_long(now)
                ==> self.can_count(),
            Event::Connected(Err(_)) => self.can_count(),
            Event::Polled(Polled::Ended) => self.can_disconnect(),
            Event::Written(AfterWrite::RefusedInitialize, true) => self.can_disconnect(),
            Event::Sent(outgoing, Err(e)) => match outgoing.after {
                AfterSend::Request => e.kind.fatal() ==> self.can_disconnect(),
                AfterSend::Message => self.can_disconnect(),
                AfterSend::Initialized(Handshake::Hidden) => self.can_disconnect(),
                _ => true,
            },
            _ => true,
        }
    }
}

/// What an event at the time `now` makes of the proxy, and what it is answered
/// with.
pub open spec fn transition(
    pre: AppState,
    event: Event,
    now: u128,
    post: AppState,
    step: Step,
) -> bool {
    match event {
        Event::Stdin(said) => stdin_handled(pre, said, post, step),
        Event::Server(said) => server_message_handled(pre, said, now, post, step),
        Event::ReconnectSignal => reconnect_signal_handled(pre, now, post, step),
        Event::ReconnectHandled => reconnect_is_over(pre, now, post, step),
        Event::TimerSignal => timer_signal_handled(pre, post, step),
        Event::HeartbeatTick => heartbeat_tick_handled(pre, now, post, step),
        Event::Sent(outgoing, result) => was_sent(pre, outgoing, result, now, post, step),
        Event::Written(after, written) => was_written(pre, after, written, now, post, step),
        Event::Connected(result) => connection_was_made(pre, result, now, post, step),
        Event::Polled(found) => was_polled(pre, found, now, post, step),
    }
}

impl AppState {
    /// Takes in something that the client said.
    pub fn handle_stdin_message(&mut self, said: Option<Result<ClientMessage, String>>) -> (r: Step)
        ensures
            stdin_handled(*old(self), said, *final(self), r),
    {
        match said {
            Some(Ok(message)) => process_client_request(message, self),
            _ => Step::only(Action::Stop),
        }
    }

    /// Whether the message is the answer to the `initialize` that is waited for.
    fn is_awaited(&self, message: &ServerMessage) -> (r: bool)
        ensures
            r == self.awaits(*message),
    {
        match message {
            ServerMessage::Response { id, .. } => match &self.state {
                ProxyState::WaitingForServerInit(waiting) => *waiting == *id,
                ProxyState::WaitingForServerInitHidden(waiting) => *waiting == *id,
                _ => false,
            },
            _ => false,
        }
    }

    /// Takes in something that the server said.
    ///
    /// A request of the server is not compared with anything: its id lives in
    /// the other direction.
    pub fn handle_sse_message(&mut self, said: Option<ServerMessage>, now: u128) -> (r: Step)
        requires
            said is None ==> old(self).can_disconnect(),
        ensures
            server_message_handled(*old(self), said, now, *final(self), r),
    {
        match said {
            None => {
                let timers = self.handle_fatal_transport_error_at(now);
                Step { timers, action: Action::Wait }
            },
            Some(message) => {
                self.update_heartbeat_at(now);
                if !self.is_awaited(&message) {
                    return Step::write(message, AfterWrite::Forwarded);
                }
                if matches!(self.state, ProxyState::WaitingForServerInitHidden(_)) {
                    self.connected_at(now);
                    return self.complete_handshake(Handshake::Hidden);
                }
                match message {
                    ServerMessage::Response { id, result } => self.complete_handshake(
                        Handshake::Visible { id, result },
                    ),
                    other => Step::write(other, AfterWrite::Forwarded),
                }
            },
        }
    }

    /// Starts to send `notifications/initialized`, which completes a handshake.
    ///
    /// The proxy does not wait for the client's: the server may not answer
    /// anything else before it has come, and whether it can be sent shows
    /// whether the connection can carry a session.
    pub fn complete_handshake(&self, handshake: Handshake) -> (r: Step)
        ensures
            r == (Step {
                timers: Timers::idle(),
                action: Action::Send(
                    Outgoing {
                        message: ClientMessage::Notification(ClientNotice::Initialized),
                        after: AfterSend::Initialized(handshake),
                    },
                ),
            }),
    {
        Step::only(
            Action::Send(
                Outgoing {
                    message: initialized_notification(),
                    after: AfterSend::Initialized(handshake),
                },
            ),
        )
    }

    /// Takes in whether `notifications/initialized` could be sent.
    pub fn handshake_sent(
        &mut self,
        handshake: Handshake,
        result: Result<(), TransportError>,
        now: u128,
    ) -> (r: Step)
        requires
            handshake is Hidden && result is Err ==> old(self).can_disconnect(),
        ensures
            handshake_was_sent(*old(self), handshake, result, now, *final(self), r),
    {
        match (handshake, result) {
            (Handshake::Hidden, Ok(())) => {
                self.connected_at(now);
                process_buffered_messages(self)
            },
            (Handshake::Hidden, Err(_)) => {
                let timers = self.handle_fatal_transport_error_at(now);
                Step { timers, action: Action::Wait }
            },
            (Handshake::Visible { id, result }, Ok(())) => {
                self.connected_at(now);
                let message = self.maybe_overwrite_protocol_version(
                    ServerMessage::Response { id, result },
                );
                Step::write(message, AfterWrite::Forwarded)
            },
            (Handshake::Visible { id, .. }, Err(e)) => {
                let text = String::from_str(
                    "Server accepted initialize but the connection cannot carry an MCP session: ",
                ).concat(e.message.as_str());
                Step::write(
                    error_reply(id, TRANSPORT_SEND_ERROR_CODE, text),
                    AfterWrite::RefusedInitialize,
                )
            },
        }
    }

    /// Puts the version that the proxy was told to report into the answer to
    /// `initialize`.
    pub fn maybe_overwrite_protocol_version(&self, message: ServerMessage) -> (r: ServerMessage)
        ensures
            r == self.overwritten(message),
    {
        match &self.override_protocol_version {
            Some(version) => match message {
                ServerMessage::Response { id, result: ServerAnswer::Initialize { rest, .. } } => {
                    ServerMessage::Response {
                        id,
                        result: ServerAnswer::Initialize {
                            protocol_version: version.clone(),
                            rest,
                        },
                    }
                },
                other => other,
            },
            None => message,
        }
    }

    /// Takes in whether a message of the client that is no request could be sent.
    pub fn message_sent(&mut self, result: Result<(), TransportError>, now: u128) -> (r: Step)
        requires
            result is Err ==> old(self).can_disconnect(),
        ensures
            message_was_sent(*old(self), result, now, *final(self), r),
    {
        match result {
            Ok(()) => Step::only(Action::Wait),
            Err(_) => {
                let timers = self.handle_fatal_transport_error_at(now);
                Step { timers, action: Action::Wait }
            },
        }
    }

    /// Takes in whether messages could be written to the client.
    pub fn messages_written(&mut self, after: AfterWrite, written: bool, now: u128) -> (r: Step)
        requires
            after is RefusedInitialize && written ==> old(self).can_disconnect(),
        ensures
            was_written(*old(self), after, written, now, *final(self), r),
    {
        match after {
            AfterWrite::Wait => Step::only(Action::Wait),
            AfterWrite::Stop => Step::only(Action::Stop),
            AfterWrite::Forwarded => Step::only(
                if written {
                    Action::Wait
                } else {
                    Action::Stop
                },
            ),
            AfterWrite::RefusedInitialize => {
                if written {
                    let timers = self.handle_fatal_transport_error_at(now);
                    Step { timers, action: Action::Wait }
                } else {
                    Step::only(Action::Stop)
                }
            },
            AfterWrite::Replay(queue) => replay(queue),
        }
    }

    /// Takes in that an attempt to reconnect failed.
    fn reconnect_failed(&mut self, reason: ReconnectFailureReason, now: u128) -> (r: Step)
        requires
            old(self).can_count(),
        ensures
            reconnect_has_failed(*old(self), reason, now, *final(self), r),
    {
        self.connect_tries += 1;
        let give_up = match reason {
            ReconnectFailureReason::TimeoutExceeded => true,
            ReconnectFailureReason::ConnectionFailed(_) => self.disconnected_too_long_at(now),
        };
        if give_up {
            Step::only(
                Action::Write {
                    messages: flush_buffer_with_errors(self),
                    after: AfterWrite::Wait,
                },
            )
        } else {
            let reconnect = self.schedule_reconnect();
            Step { timers: Timers { flush: false, reconnect }, action: Action::Wait }
        }
    }

    /// Takes in that it is time to reconnect.
    pub fn handle_reconnect_signal(&mut self, now: u128) -> (r: Step)
        requires
            old(self).state is Disconnected && old(self).too_long(now) ==> old(self).can_count(),
        ensures
            reconnect_signal_handled(*old(self), now, *final(self), r),
    {
        self.reconnect_scheduled = false;
        if matches!(self.state, ProxyState::Disconnected) {
            match try_reconnect(self, now) {
                Ok(()) => Step::only(Action::Connect),
                Err(reason) => self.reconnect_failed(reason, now),
            }
        } else {
            Step::only(Action::Wait)
        }
    }

    /// Takes in whether a new connection could be made.
    pub fn connection_made(&mut self, result: Result<(), String>, now: u128) -> (r: Step)
        requires
            result is Err ==> old(self).can_count(),
        ensures
            connection_was_made(*old(self), result, now, *final(self), r),
    {
        match result {
            Ok(()) => {
                self.transport_valid = true;
                initiate_post_reconnect_handshake(self)
            },
            Err(e) => self.reconnect_failed(ReconnectFailureReason::ConnectionFailed(e), now),
        }
    }

    /// Takes in that an attempt to reconnect is over.
    pub fn reconnect_over(&mut self, now: u128) -> (r: Step)
        ensures
            reconnect_is_over(*old(self), now, *final(self), r),
    {
        if !self.disconnected_too_long_at(now) {
            Step::only(Action::Wait)
        } else if self.in_buf.len() > 0 && self.buf_mode == BufferMode::Store {
            Step::only(
                Action::Write {
                    messages: flush_buffer_with_errors(self),
                    after: AfterWrite::Stop,
                },
            )
        } else {
            Step::only(Action::Stop)
        }
    }

    /// Takes in that the flush timer has reported.
    pub fn handle_timer_signal(&mut self) -> (r: Step)
        ensures
            timer_signal_handled(*old(self), *final(self), r),
    {
        self.flush_timer_active = false;
        if matches!(self.state, ProxyState::Disconnected) {
            Step::only(
                Action::Write {
                    messages: flush_buffer_with_errors(self),
                    after: AfterWrite::Wait,
                },
            )
        } else {
            Step::only(Action::Wait)
        }
    }

    /// Takes in that it is time to look after the connection.
    pub fn handle_heartbeat_tick(&mut self, now: u128) -> (r: Step)
        ensures
            heartbeat_tick_handled(*old(self), now, *final(self), r),
    {
        if matches!(self.state, ProxyState::Connected) && send_heartbeat_if_needed(self, now) {
            Step::only(Action::Poll)
        } else {
            Step::only(Action::Wait)
        }
    }

    /// Takes in what a look at the connection found.
    pub fn connection_polled(&mut self, found: Polled, now: u128) -> (r: Step)
        requires
            found is Ended ==> old(self).can_disconnect(),
        ensures
            was_polled(*old(self), found, now, *final(self), r),
    {
        if matches!(found, Polled::Ended) {
            let timers = self.handle_fatal_transport_error_at(now);
            Step { timers, action: Action::Wait }
        } else {
            self.update_heartbeat_at(now);
            Step::only(Action::Wait)
        }
    }

    /// Takes in whether a message could be sent to the server.
    pub fn message_out(
        &mut self,
        outgoing: Outgoing,
        result: Result<(), TransportError>,
        now: u128,
    ) -> (r: Step)
        requires
            old(self).can_take(Event::Sent(outgoing, result), now),
        ensures
            was_sent(*old(self), outgoing, result, now, *final(self), r),
    {
        let Outgoing { message, after } = outgoing;
        match after {
            AfterSend::Request => request_sent(self, message, result, now),
            AfterSend::Message => self.message_sent(result, now),
            AfterSend::Initialized(handshake) => self.handshake_sent(handshake, result, now),
            AfterSend::Replay(rest) => buffered_sent(message, result, rest),
        }
    }

    /// Whether there is room to count what this event at the time `now` makes the
    /// proxy count.
    pub fn has_room_for(&self, event: &Event, now: u128) -> (r: bool)
        ensures
            r == self.can_take(*event, now),
    {
        let counts = self.connect_tries < u32::MAX;
        let disconnects = counts || matches!(self.state, ProxyState::Disconnected);
        match event {
            Event::Server(None) => disconnects,
            Event::ReconnectSignal => counts || !matches!(self.state, ProxyState::Disconnected)
                || !self.disconnected_too_long_at(now),
            Event::Connected(Err(_)) => counts,
            Event::Polled(Polled::Ended) => disconnects,
            Event::Written(AfterWrite::RefusedInitialize, true) => disconnects,
            Event::Sent(outgoing, Err(e)) => match &outgoing.after {
                AfterSend::Request => disconnects || !is_session_fatal(e),
                AfterSend::Message => disconnects,
                AfterSend::Initialized(Handshake::Hidden) => disconnects,
                _ => true,
            },
            _ => true,
        }
    }

    /// Takes in what happened at the time `now`, and says what is to be done.
    pub fn step(&mut self, event: Event, now: u128) -> (r: Step)
        requires
            old(self).can_take(event, now),
        ensures
            transition(*old(self), event, now, *final(self), r),
    {
        match event {
            Event::Stdin(said) => self.handle_stdin_message(said),
            Event::Server(said) => self.handle_sse_message(said, now),
            Event::ReconnectSignal => self.handle_reconnect_signal(now),
            Event::ReconnectHandled => self.reconnect_over(now),
            Event::TimerSignal => self.handle_timer_signal(),
            Event::HeartbeatTick => self.handle_heartbeat_tick(now),
            Event::Sent(outgoing, result) => self.message_out(outgoing, result, now),
            Event::Written(after, written) => self.messages_written(after, written, now),
            Event::Connected(result) => self.connection_made(result, now),
            Event::Polled(found) => self.connection_polled(found, now),
        }
    }
}

} // verus!
