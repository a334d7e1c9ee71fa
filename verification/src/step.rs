//! What can happen to the proxy, and what the proxy can ask to be done.
//!
//! The proxy alternates between deciding and waiting. Something happens (an
//! [`Event`]), a decision is taken (a [`Step`]), and what it asks for is carried
//! out; where the outcome matters, the outcome is the next event.

use crate::message::{ClientMessage, RequestId, ServerAnswer, ServerMessage};
use crate::transport::TransportError;
use vstd::prelude::*;

verus! {

/// Timers that are to be started. Each of them reports back once.
#[derive(Debug)]
pub struct Timers {
    /// Start the timer that ends the wait of buffered requests.
    pub flush: bool,
    /// Start a timer of so many seconds that ends in an attempt to reconnect.
    pub reconnect: Option<u64>,
}

impl Timers {
    /// No timer.
    pub open spec fn idle() -> Timers {
        Timers { flush: false, reconnect: None }
    }
}

/// A handshake that waits for the server to take `notifications/initialized`.
#[derive(Debug)]
pub enum Handshake {
    /// One that the proxy repeats behind the client's back.
    Hidden,
    /// The client's own, with the answer to `initialize` that it waits for.
    Visible { id: RequestId, result: ServerAnswer },
}

/// What a message was sent for.
#[derive(Debug)]
pub enum AfterSend {
    /// It is a request of the client.
    Request,
    /// It is another message of the client.
    Message,
    /// It completes a handshake.
    Initialized(Handshake),
    /// It was held back while the server was away, and so were these.
    Replay(Vec<ClientMessage>),
}

/// A message on its way to the server.
#[derive(Debug)]
pub struct Outgoing {
    pub message: ClientMessage,
    pub after: AfterSend,
}

/// What messages were written to the client for.
#[derive(Debug)]
pub enum AfterWrite {
    /// They are answers of the proxy itself; afterwards it waits.
    Wait,
    /// They are answers of the proxy itself; afterwards it ends.
    Stop,
    /// They come from the server. If they do not reach the client, it is gone.
    Forwarded,
    /// It is the news that `initialize` failed after all.
    RefusedInitialize,
    /// They answer for a message that was held back, and there are more.
    Replay(Vec<ClientMessage>),
}

/// An error that the proxy cannot go on after.
#[derive(Debug, Clone, Copy, PartialEq, Eq, Structural)]
pub enum ProxyError {
    /// There is no `initialize` to repeat, so no session can be opened.
    MissingInitMessage,
}

impl ProxyError {
    /// The error in words.
    pub fn describe(&self) -> (r: String)
        ensures
            r@ == "Cannot perform reconnect handshake: init_message is missing"@,
    {
        String::from_str("Cannot perform reconnect handshake: init_message is missing")
    }
}

/// What is to be done.
#[derive(Debug)]
pub enum Action {
    /// Wait for the next thing to happen.
    Wait,
    /// End.
    Stop,
    /// End with an error.
    Fail(ProxyError),
    /// Send a message to the server.
    Send(Outgoing),
    /// Put the connection that was just made in place of the old one, and send a
    /// message on it.
    SendOnNew(Outgoing),
    /// Write messages to the client, in this order. One that cannot be written
    /// does not keep the next from being tried.
    Write { messages: Vec<ServerMessage>, after: AfterWrite },
    /// Make a new connection to the server.
    Connect,
    /// Look whether the connection has something to say right now.
    Poll,
}

/// A decision.
#[derive(Debug)]
pub struct Step {
    pub timers: Timers,
    pub action: Action,
}

/// What a look at the connection found.
#[derive(Debug, Clone, Copy, PartialEq, Eq, Structural)]
pub enum Polled {
    /// A message was there.
    Message,
    /// The connection has ended.
    Ended,
    /// Nothing was there.
    Nothing,
}

/// What happened.
#[derive(Debug)]
pub enum Event {
    /// The client said something, or what it said could not be read, or it is
    /// gone.
    Stdin(Option<Result<ClientMessage, String>>),
    /// The server said something, or the connection to it is gone.
    Server(Option<ServerMessage>),
    /// It is time to try to reconnect.
    ReconnectSignal,
    /// All that [`Event::ReconnectSignal`] led to is done.
    ReconnectHandled,
    /// The buffered requests have waited long enough.
    TimerSignal,
    /// It is time to look after the connection.
    HeartbeatTick,
    /// A message was sent, or was not.
    Sent(Outgoing, Result<(), TransportError>),
    /// Messages were written; all of them, or not.
    Written(AfterWrite, bool),
    /// A new connection was made, or was not.
    Connected(Result<(), String>),
    /// The connection was looked at.
    Polled(Polled),
}

impl Action {
    /// At most one message is written, as an answer of the proxy itself, and
    /// then the proxy waits.
    pub open spec fn is_answer(self) -> bool {
        match self {
            Action::Wait => true,
            Action::Write { messages, after } => messages@.len() == 1 && after is Wait,
            _ => false,
        }
    }

    /// The answer that is written, if there is one.
    pub open spec fn answer(self) -> Option<ServerMessage> {
        match self {
            Action::Write { messages, .. } => Some(messages@[0]),
            _ => None,
        }
    }

    /// One message of the server is written to the client.
    pub open spec fn forwards(self, message: ServerMessage) -> bool {
        self matches Action::Write { messages, after } && messages@ == seq![message] && after
            is Forwarded
    }

    /// The messages are sent to the server, this one now and the others after
    /// it; when none is left, the proxy waits.
    pub open spec fn replays(self, queue: Seq<ClientMessage>) -> bool {
        if queue.len() == 0 {
            self is Wait
        } else {
            self matches Action::Send(outgoing) && {
                &&& outgoing.message == queue[0]
                &&& outgoing.after matches AfterSend::Replay(rest)
                &&& rest@ == queue.drop_first()
            }
        }
    }
}

impl Step {
    /// A step that starts no timer.
    pub fn only(action: Action) -> (r: Step)
        ensures
            r == (Step { timers: Timers::idle(), action }),
    {
        Step { timers: Timers { flush: false, reconnect: None }, action }
    }

    /// A step that writes an answer of the proxy itself, if there is one.
    pub fn answer(timers: Timers, reply: Option<ServerMessage>) -> (r: Step)
        ensures
            r.timers == timers,
            r.action.is_answer(),
            r.action.answer() == reply,
    {
        match reply {
            None => Step { timers, action: Action::Wait },
            Some(message) => {
                let mut messages: Vec<ServerMessage> = Vec::new();
                messages.push(message);
                Step { timers, action: Action::Write { messages, after: AfterWrite::Wait } }
            },
        }
    }

    /// A step that writes one message to the client.
    pub fn write(message: ServerMessage, after: AfterWrite) -> (r: Step)
        ensures
            r.timers == Timers::idle(),
            r.action matches Action::Write { messages, after: a } && messages@ == seq![message] && a
                == after,
    {
        let mut messages: Vec<ServerMessage> = Vec::new();
        messages.push(message);
        Step::only(Action::Write { messages, after })
    }
}

} // verus!
