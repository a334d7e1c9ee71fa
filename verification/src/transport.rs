//! Failures of the connection to the server, and what they mean for it.

use vstd::prelude::*;

verus! {

/// What went wrong when a message was handed to the server.
#[derive(Debug)]
pub enum TransportErrorKind {
    /// The worker behind the connection is gone.
    TransportChannelClosed,
    /// The server no longer knows the session.
    SessionExpired,
    /// The server opened no session where one is needed.
    MissingSessionIdInResponse,
    /// The server wants credentials.
    AuthRequired,
    /// The credentials do not allow what was asked.
    InsufficientScope,
    /// The HTTP client failed.
    Client {
        /// Whether it could not even connect.
        connect: bool,
        /// The causes of the client's failure, outermost first.
        sources: Vec<String>,
    },
    /// The server answered with something that is no answer.
    UnexpectedServerResponse,
    /// The server has no channel from server to client.
    ServerDoesNotSupportSse,
    /// Any other failure of this one exchange.
    Other,
}

/// A failure to send, with what it has to say for itself.
#[derive(Debug)]
pub struct TransportError {
    pub kind: TransportErrorKind,
    /// The outermost description.
    pub message: String,
    /// The causes that the failure itself names, outermost first.
    pub sources: Vec<String>,
}

impl TransportErrorKind {
    /// The session cannot go on after this failure.
    pub open spec fn fatal(self) -> bool {
        match self {
            TransportErrorKind::TransportChannelClosed => true,
            TransportErrorKind::SessionExpired => true,
            TransportErrorKind::MissingSessionIdInResponse => true,
            TransportErrorKind::AuthRequired => true,
            TransportErrorKind::InsufficientScope => true,
            TransportErrorKind::Client { connect, .. } => connect,
            _ => false,
        }
    }
}

/// The texts one after the other, each but the first behind a colon and a space.
pub open spec fn joined(first: Seq<char>, rest: Seq<String>) -> Seq<char>
    decreases rest.len(),
{
    if rest.len() == 0 {
        first
    } else {
        joined(first, rest.drop_last()) + ": "@ + rest.last()@
    }
}

impl TransportError {
    /// The causes under the outermost description. A failure of the HTTP client
    /// does not name its own, so they are the causes of the client's failure.
    pub open spec fn causes(self) -> Seq<String> {
        match self.kind {
            TransportErrorKind::Client { sources, .. } => sources@,
            _ => self.sources@,
        }
    }

    /// The failure together with everything underneath it.
    pub open spec fn described(self) -> Seq<char> {
        joined(self.message@, self.causes())
    }
}

/// Renders a transport error together with everything underneath it.
///
/// The outermost message is the same for every failure of an HTTP exchange; the
/// cause that tells them apart is found further down.
pub fn describe_transport_error(e: &TransportError) -> (r: String)
    ensures
        r@ == e.described(),
{
    let causes: &Vec<String> = match &e.kind {
        TransportErrorKind::Client { sources, .. } => sources,
        _ => &e.sources,
    };
    let mut text = e.message.clone();
    let mut i: usize = 0;
    while i < causes.len()
        invariant
            i <= causes@.len(),
            text@ == joined(e.message@, causes@.take(i as int)),
        decreases causes@.len() - i,
    {
        text.append(": ");
        text.append(causes[i].as_str());
        proof {
            let longer = causes@.take(i + 1);
            assert(longer.drop_last() == causes@.take(i as int));
        }
        i += 1;
    }
    proof {
        assert(causes@.take(i as int) == causes@);
    }
    text
}

/// Whether a failure to send means that the whole session is gone, or just that
/// one request was not accepted.
///
/// A working session is not torn down over a single refused call, and a server
/// that cannot be reached at all is not taken for one that refused a call.
pub fn is_session_fatal(e: &TransportError) -> (r: bool)
    ensures
        r == e.kind.fatal(),
{
    match &e.kind {
        TransportErrorKind::TransportChannelClosed => true,
        TransportErrorKind::SessionExpired => true,
        TransportErrorKind::MissingSessionIdInResponse => true,
        TransportErrorKind::AuthRequired => true,
        TransportErrorKind::InsufficientScope => true,
        TransportErrorKind::Client { connect, .. } => *connect,
        _ => false,
    }
}

} // verus!
