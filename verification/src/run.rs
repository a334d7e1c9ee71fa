//! Runs of the proxy: what holds at every point of every run.

use crate::message::{
    request_kind, request_method, ClientMessage, ClientNotice, ProtocolVersion,
};
use crate::proxy::transition;
use crate::state::{AppState, ProxyState};
use crate::step::{Action, AfterSend, AfterWrite, Event, Handshake, Step};
use vstd::prelude::*;

verus! {

/// A point of a run: the state, and what is being done.
pub struct Point {
    pub state: AppState,
    pub action: Action,
}

/// A request that is held back while the server is away.
pub open spec fn can_be_held(message: ClientMessage) -> bool {
    message is Request && !message.is_ping()
}

/// All of them are requests that are held back while the server is away.
pub open spec fn all_can_be_held(messages: Seq<ClientMessage>) -> bool {
    forall|i: int| 0 <= i < messages.len() ==> can_be_held(#[trigger] messages[i])
}

impl AppState {
    /// The state as the program leaves it when the first connection is there.
    pub open spec fn is_started(self) -> bool {
        &&& self.state is WaitingForClientInit
        &&& self.disconnected_since is None
        &&& self.connect_tries == 0
        &&& self.init_message is None
        &&& self.in_buf@.len() == 0
        &&& self.buf_mode is Store
        &&& !self.flush_timer_active
        &&& !self.reconnect_scheduled
        &&& self.transport_valid
    }

    /// The `initialize` that is waited for is the one that was remembered.
    pub open spec fn waits_for_what_was_sent(self) -> bool {
        match self.state {
            ProxyState::WaitingForServerInit(id) => self.init_message matches Some(m)
                && m->Request_id == id,
            ProxyState::WaitingForServerInitHidden(id) => self.init_message matches Some(m)
                && m->Request_id == id,
            ProxyState::WaitingForClientInit => self.init_message is None,
            ProxyState::Connected => self.init_message is Some,
            _ => true,
        }
    }

    /// What is counted and measured is that of a time without the server, and
    /// only of such a time.
    pub open spec fn counts_from_the_last_loss(self) -> bool {
        match self.state {
            ProxyState::Disconnected => self.disconnected_since is Some,
            ProxyState::WaitingForServerInitHidden(_) => self.disconnected_since is Some
                && self.transport_valid,
            _ => {
                &&& self.disconnected_since is None
                &&& self.connect_tries == 0
                &&& self.buf_mode is Store
                &&& self.transport_valid
            },
        }
    }

    /// What holds of the state at every point of a run.
    pub open spec fn wf(self) -> bool {
        &&& all_can_be_held(self.in_buf@)
        &&& self.buf_mode is Fail ==> self.in_buf@.len() == 0
        &&& self.init_message matches Some(m) ==> m.is_initialize()
        &&& self.waits_for_what_was_sent()
        &&& self.counts_from_the_last_loss()
        &&& self.reconnect_scheduled ==> self.has_reconnect_tx
        &&& self.flush_timer_active ==> self.has_timer_tx
        &&& self.state is Disconnected && self.buf_mode is Store && self.has_timer_tx
            ==> self.flush_timer_active
        &&& !(self.state is Connecting)
    }
}

impl Point {
    /// What is being done fits the state.
    pub open spec fn action_fits(self) -> bool {
        let state = self.state.state;
        match self.action {
            Action::Send(outgoing) => match outgoing.after {
                AfterSend::Request => outgoing.message is Request && !(state is Disconnected),
                AfterSend::Message => {
                    &&& !(outgoing.message is Request)
                    &&& outgoing.message != ClientMessage::Notification(ClientNotice::Initialized)
                    &&& !(state is Disconnected)
                },
                AfterSend::Initialized(Handshake::Hidden) => {
                    &&& outgoing.message == ClientMessage::Notification(ClientNotice::Initialized)
                    &&& state is Connected
                },
                AfterSend::Initialized(Handshake::Visible { id, .. }) => {
                    &&& outgoing.message == ClientMessage::Notification(ClientNotice::Initialized)
                    &&& state matches ProxyState::WaitingForServerInit(waiting)
                    &&& waiting.same(id)
                },
                AfterSend::Replay(rest) => {
                    &&& can_be_held(outgoing.message)
                    &&& all_can_be_held(rest@)
                    &&& state is Connected
                },
            },
            Action::SendOnNew(outgoing) => {
                &&& outgoing.after is Request
                &&& self.state.init_message == Some(outgoing.message)
                &&& state is WaitingForServerInitHidden
            },
            Action::Write { after, .. } => match after {
                AfterWrite::RefusedInitialize => state is WaitingForServerInit,
                AfterWrite::Replay(queue) => all_can_be_held(queue@) && state is Connected,
                _ => true,
            },
            Action::Connect => state is Disconnected,
            Action::Poll => state is Connected,
            _ => true,
        }
    }

    /// Requests are held back only while the server is away, and until the
    /// handshake that ends its absence is complete.
    pub open spec fn holds_back_no_longer_than_needed(self) -> bool {
        self.state.in_buf@.len() > 0 ==> {
            ||| self.state.state is Disconnected
            ||| self.state.state is WaitingForServerInitHidden
            ||| self.action matches Action::Send(outgoing) && outgoing.after
                == AfterSend::Initialized(Handshake::Hidden)
        }
    }

    /// What holds at every point of a run.
    pub open spec fn wf(self) -> bool {
        &&& self.state.wf()
        &&& self.action_fits()
        &&& self.holds_back_no_longer_than_needed()
        &&& self.state.state is Disconnected ==> !self.state.transport_valid || self.action is Fail
    }

    /// What can happen next. While something is being done, that is its outcome;
    /// a connection that cannot be listened to says nothing; and after the end,
    /// nothing happens any more.
    pub open spec fn can_see(self, event: Event) -> bool {
        match self.action {
            Action::Wait => match event {
                Event::Server(_) => self.state.transport_valid,
                Event::Sent(..) => false,
                Event::Written(..) => false,
                Event::Connected(_) => false,
                Event::Polled(_) => false,
                _ => true,
            },
            Action::Send(outgoing) => event matches Event::Sent(o, _) && o == outgoing,
            Action::SendOnNew(outgoing) => event matches Event::Sent(o, _) && o == outgoing,
            Action::Write { after, .. } => event matches Event::Written(a, _) && a == after,
            Action::Connect => event is Connected,
            Action::Poll => event is Polled,
            Action::Stop => false,
            Action::Fail(_) => false,
        }
    }

    /// The event at the time `now` takes the run to the next point.
    pub open spec fn moves(self, event: Event, now: u128, step: Step, next: Point) -> bool {
        &&& self.can_see(event)
        &&& self.state.can_take(event, now)
        &&& transition(self.state, event, now, next.state, step)
        &&& next.action == step.action
    }
}

/// A new proxy whose first connection is there can start to run, whether its
/// timers have somewhere to report to or not.
pub proof fn law_a_new_proxy_can_start(
    new: AppState,
    url: String,
    max_disconnected_time: Option<u64>,
    override_protocol_version: Option<ProtocolVersion>,
    now: u128,
    has_reconnect_tx: bool,
    has_timer_tx: bool,
)
    requires
        new.is_new(url, max_disconnected_time, override_protocol_version, now),
    ensures
        (AppState {
            state: ProxyState::WaitingForClientInit,
            has_reconnect_tx,
            has_timer_tx,
            ..new
        }).is_started(),
{
}

/// Every run starts well: nothing is held back, and nothing is being done.
pub proof fn law_runs_start_well(start: Point)
    requires
        start.state.is_started(),
        start.action is Wait,
    ensures
        start.wf(),
{
}

/// Whatever happens, the invariant of the proxy is kept.
pub proof fn law_every_event_keeps_the_invariant(
    point: Point,
    event: Event,
    now: u128,
    step: Step,
    next: Point,
)
    requires
        point.wf(),
        point.moves(event, now, step, next),
    ensures
        next.wf(),
{
}

/// Something that happened during a run, and what came of it.
pub struct Moment {
    pub event: Event,
    /// When it happened.
    pub now: u128,
    /// The state that it led to.
    pub state: AppState,
    /// What was to be done about it.
    pub step: Step,
}

impl Moment {
    /// The point of the run that the moment led to.
    pub open spec fn point(self) -> Point {
        Point { state: self.state, action: self.step.action }
    }
}

/// Where a run ends.
pub open spec fn end_of(start: Point, run: Seq<Moment>) -> Point {
    if run.len() == 0 {
        start
    } else {
        run.last().point()
    }
}

/// Each moment follows from the one before it.
pub open spec fn is_run(start: Point, run: Seq<Moment>) -> bool
    decreases run.len(),
{
    run.len() > 0 ==> {
        let last = run.last();
        &&& is_run(start, run.drop_last())
        &&& end_of(start, run.drop_last()).moves(last.event, last.now, last.step, last.point())
    }
}

/// However long the proxy runs, its invariant holds.
pub proof fn law_every_run_keeps_the_invariant(start: Point, run: Seq<Moment>)
    requires
        start.wf(),
        is_run(start, run),
    ensures
        end_of(start, run).wf(),
    decreases run.len(),
{
    if run.len() > 0 {
        let last = run.last();
        law_every_run_keeps_the_invariant(start, run.drop_last());
        law_every_event_keeps_the_invariant(
            end_of(start, run.drop_last()),
            last.event,
            last.now,
            last.step,
            last.point(),
        );
    }
}

/// All of the messages are well-formed.
pub open spec fn all_wf(messages: Seq<ClientMessage>) -> bool {
    forall|i: int| 0 <= i < messages.len() ==> (#[trigger] messages[i]).wf()
}

impl AppState {
    /// What is remembered and what is held back is well-formed.
    pub open spec fn messages_wf(self) -> bool {
        &&& self.init_message matches Some(m) ==> m.wf()
        &&& all_wf(self.in_buf@)
    }
}

impl Point {
    /// What is remembered, held back, and on its way to the server is well-formed.
    pub open spec fn messages_wf(self) -> bool {
        &&& self.state.messages_wf()
        &&& match self.action {
            Action::Send(outgoing) => outgoing.message.wf() && match outgoing.after {
                AfterSend::Replay(rest) => all_wf(rest@),
                _ => true,
            },
            Action::SendOnNew(outgoing) => outgoing.message.wf() && match outgoing.after {
                AfterSend::Replay(rest) => all_wf(rest@),
                _ => true,
            },
            Action::Write { after: AfterWrite::Replay(queue), .. } => all_wf(queue@),
            _ => true,
        }
    }
}

/// If the event brings a message of the client, it is well-formed.
pub open spec fn brings_wf(event: Event) -> bool {
    event matches Event::Stdin(Some(Ok(message))) ==> message.wf()
}

/// As long as the client's messages are well-formed when they come in, so is
/// everything that the proxy remembers, holds back and sends.
pub proof fn law_every_event_keeps_messages_well_formed(
    point: Point,
    event: Event,
    now: u128,
    step: Step,
    next: Point,
)
    requires
        point.messages_wf(),
        brings_wf(event),
        point.moves(event, now, step, next),
    ensures
        next.messages_wf(),
{
}

/// The same over runs of any length.
pub proof fn law_every_run_keeps_messages_well_formed(start: Point, run: Seq<Moment>)
    requires
        start.messages_wf(),
        is_run(start, run),
        forall|i: int| 0 <= i < run.len() ==> brings_wf((#[trigger] run[i]).event),
    ensures
        end_of(start, run).messages_wf(),
    decreases run.len(),
{
    if run.len() > 0 {
        let before = run.drop_last();
        let last = run.last();
        assert forall|i: int| 0 <= i < before.len() implies brings_wf(
            (#[trigger] before[i]).event,
        ) by {
            assert(before[i] == run[i]);
        }
        law_every_run_keeps_messages_well_formed(start, before);
        assert(brings_wf(run[run.len() - 1].event));
        law_every_event_keeps_messages_well_formed(
            end_of(start, before),
            last.event,
            last.now,
            last.step,
            last.point(),
        );
    }
}

/// Nothing is remembered, held back or on its way when a run starts.
pub proof fn law_runs_start_with_messages_well_formed(start: Point)
    requires
        start.state.is_started(),
        start.action is Wait,
    ensures
        start.messages_wf(),
{
}

/// Whether a well-formed message is an `initialize` or a ping, and what its method
/// is called, is what its request itself says.
pub proof fn law_requests_are_told_apart_by_what_they_say(message: ClientMessage)
    requires
        message.wf(),
    ensures
        message.is_initialize() <==> message is Request && request_kind(
            message->Request_request.params,
        ) is Initialize,
        message.is_ping() <==> message is Request && request_kind(
            message->Request_request.params,
        ) is Ping,
        message is Request ==> message->Request_request.method@ == request_method(
            message->Request_request.params,
        ),
{
}

} // verus!
