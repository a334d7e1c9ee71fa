//! The state of the proxy and what each event makes of it.

use crate::clock::{
    elapsed_nanos, elapsed_secs, is_reading, nanos_between, Clock, NANOS_PER_SEC,
};
use crate::message::{ClientMessage, ProtocolVersion, RequestId};
use crate::step::Timers;
use vstd::arithmetic::power2::{lemma2_to64, pow2};
use vstd::prelude::*;

verus! {

/// Why a reconnection attempt failed.
#[derive(Debug)]
pub enum ReconnectFailureReason {
    /// The server has been away for longer than is allowed.
    TimeoutExceeded,
    /// No connection could be made, for this reason.
    ConnectionFailed(String),
}

/// What becomes of requests that arrive while the server is away.
#[derive(Debug, Clone, Copy, PartialEq, Eq, Structural)]
pub enum BufferMode {
    /// They are held back until the server returns.
    Store,
    /// They are answered with an error at once.
    Fail,
}

/// Where the proxy stands between the client and the server.
#[derive(Debug)]
pub enum ProxyState {
    /// The first connection is being made.
    Connecting,
    /// A session is open.
    Connected,
    /// The server is away.
    Disconnected,
    /// Connected; the client has not opened a session yet.
    WaitingForClientInit,
    /// The client's `initialize` has been sent under this id.
    WaitingForServerInit(RequestId),
    /// The proxy has repeated the client's `initialize` under this id, and the
    /// client is not to hear of the answer.
    WaitingForServerInitHidden(RequestId),
}

impl ProxyState {
    /// The same standing, with the same id where there is one.
    pub open spec fn same(self, other: ProxyState) -> bool {
        match (self, other) {
            (ProxyState::Connecting, ProxyState::Connecting) => true,
            (ProxyState::Connected, ProxyState::Connected) => true,
            (ProxyState::Disconnected, ProxyState::Disconnected) => true,
            (ProxyState::WaitingForClientInit, ProxyState::WaitingForClientInit) => true,
            (ProxyState::WaitingForServerInit(a), ProxyState::WaitingForServerInit(b)) => a.same(b),
            (
                ProxyState::WaitingForServerInitHidden(a),
                ProxyState::WaitingForServerInitHidden(b),
            ) => a.same(b),
            _ => false,
        }
    }
}

impl Clone for ProxyState {
    fn clone(&self) -> (r: Self)
        ensures
            r == *self,
    {
        match self {
            ProxyState::Connecting => ProxyState::Connecting,
            ProxyState::Connected => ProxyState::Connected,
            ProxyState::Disconnected => ProxyState::Disconnected,
            ProxyState::WaitingForClientInit => ProxyState::WaitingForClientInit,
            ProxyState::WaitingForServerInit(id) => ProxyState::WaitingForServerInit(id.clone()),
            ProxyState::WaitingForServerInitHidden(id) => ProxyState::WaitingForServerInitHidden(
                id.clone(),
            ),
        }
    }
}

impl PartialEq for ProxyState {
    fn eq(&self, other: &Self) -> (r: bool) {
        match (self, other) {
            (ProxyState::Connecting, ProxyState::Connecting) => true,
            (ProxyState::Connected, ProxyState::Connected) => true,
            (ProxyState::Disconnected, ProxyState::Disconnected) => true,
            (ProxyState::WaitingForClientInit, ProxyState::WaitingForClientInit) => true,
            (ProxyState::WaitingForServerInit(a), ProxyState::WaitingForServerInit(b)) => *a == *b,
            (
                ProxyState::WaitingForServerInitHidden(a),
                ProxyState::WaitingForServerInitHidden(b),
            ) => *a == *b,
            _ => false,
        }
    }
}

impl vstd::std_specs::cmp::PartialEqSpecImpl for ProxyState {
    open spec fn obeys_eq_spec() -> bool {
        true
    }

    open spec fn eq_spec(&self, other: &Self) -> bool {
        self.same(*other)
    }
}

impl Eq for ProxyState {

}

/// The state of the proxy. Points in time are readings of `clock`.
#[derive(Debug)]
pub struct AppState {
    /// Where the server is.
    pub url: String,
    /// For how many seconds to try to reconnect; for ever if there is no limit.
    pub max_disconnected_time: Option<u64>,
    /// The protocol version to report to the client in place of the server's.
    pub override_protocol_version: Option<ProtocolVersion>,
    /// When the server went away.
    pub disconnected_since: Option<u128>,
    pub state: ProxyState,
    /// The attempts to connect that failed since the last one that did not.
    pub connect_tries: u32,
    /// The client's `initialize`, to be repeated on a new connection.
    pub init_message: Option<ClientMessage>,
    /// The requests that are held back until the server returns.
    pub in_buf: Vec<ClientMessage>,
    pub buf_mode: BufferMode,
    /// Whether the flush timer is running.
    pub flush_timer_active: bool,
    /// Whether a reconnect timer has somewhere to report to.
    pub has_reconnect_tx: bool,
    /// Whether a flush timer has somewhere to report to.
    pub has_timer_tx: bool,
    /// Whether a reconnect timer is running.
    pub reconnect_scheduled: bool,
    /// Whether the connection can be listened to.
    pub transport_valid: bool,
    /// When the connection was last known to be alive.
    pub last_heartbeat: u128,
    pub clock: Clock,
}

/// How long requests are held back before they are answered with an error.
pub const FLUSH_DELAY_SECS: u64 = 20;

/// The seconds to wait before the next attempt to connect: they double with
/// every failed one, up to the third.
pub open spec fn backoff_secs(tries: nat) -> nat {
    pow2(if tries <= 3 {
        tries
    } else {
        3
    })
}

impl AppState {
    /// What a new state is.
    pub open spec fn is_new(
        self,
        url: String,
        max_disconnected_time: Option<u64>,
        override_protocol_version: Option<ProtocolVersion>,
        now: u128,
    ) -> bool {
        &&& self.url == url
        &&& self.max_disconnected_time == max_disconnected_time
        &&& self.override_protocol_version == override_protocol_version
        &&& self.disconnected_since is None
        &&& self.state is Connecting
        &&& self.connect_tries == 0
        &&& self.init_message is None
        &&& self.in_buf@.len() == 0
        &&& self.buf_mode is Store
        &&& !self.flush_timer_active
        &&& !self.has_reconnect_tx
        &&& !self.has_timer_tx
        &&& !self.reconnect_scheduled
        &&& self.transport_valid
        &&& self.last_heartbeat == now
    }

    /// The state once a session is open.
    pub open spec fn after_connected(self, now: u128) -> AppState {
        AppState {
            state: ProxyState::Connected,
            connect_tries: 0,
            disconnected_since: None,
            buf_mode: BufferMode::Store,
            reconnect_scheduled: false,
            transport_valid: true,
            last_heartbeat: now,
            ..self
        }
    }

    /// The state once the server is away, or is known to be away still.
    pub open spec fn after_disconnected(self, now: u128) -> AppState {
        let tries = (self.connect_tries + 1) as u32;
        if self.state is Disconnected {
            AppState { connect_tries: tries, ..self }
        } else {
            AppState {
                state: ProxyState::Disconnected,
                disconnected_since: Some(now),
                buf_mode: BufferMode::Store,
                transport_valid: false,
                connect_tries: tries,
                ..self
            }
        }
    }

    /// There is room to count one more failed attempt.
    pub open spec fn can_count(self) -> bool {
        self.connect_tries < u32::MAX
    }

    /// The connection can be given up: it is gone already, or there is room to
    /// count that it went.
    pub open spec fn can_disconnect(self) -> bool {
        self.state is Disconnected || self.can_count()
    }

    /// The server has been away for longer than is allowed.
    pub open spec fn too_long(self, now: u128) -> bool {
        match (self.max_disconnected_time, self.disconnected_since) {
            (Some(max_time), Some(since)) => elapsed_secs(since, now) > max_time,
            _ => false,
        }
    }

    /// The connection was not known to be alive for more than five seconds.
    pub open spec fn is_idle(self, now: u128) -> bool {
        elapsed_nanos(self.last_heartbeat, now) > 5 * NANOS_PER_SEC
    }

    /// A reconnect timer would be started now.
    pub open spec fn starts_reconnect(self) -> bool {
        !self.reconnect_scheduled && self.has_reconnect_tx
    }

    /// A flush timer would be started now.
    pub open spec fn starts_flush(self) -> bool {
        !self.flush_timer_active && self.has_timer_tx
    }

    /// The reconnect timer that would be started now.
    pub open spec fn reconnect_timer(self) -> Option<u64> {
        if self.starts_reconnect() {
            Some(backoff_secs(self.connect_tries as nat) as u64)
        } else {
            None
        }
    }

    /// The state once a reconnect timer runs, if one can.
    pub open spec fn after_schedule_reconnect(self) -> AppState {
        AppState { reconnect_scheduled: self.reconnect_scheduled || self.has_reconnect_tx, ..self }
    }

    /// The state once a flush timer runs, if one can.
    pub open spec fn after_schedule_flush(self) -> AppState {
        AppState { flush_timer_active: self.flush_timer_active || self.has_timer_tx, ..self }
    }

    /// When the server went away, if the connection is given up at the time
    /// `now`. If that happens while a session is being reopened, the server has
    /// not been back since it went.
    pub open spec fn away_since(self, now: u128) -> u128 {
        match (self.state, self.disconnected_since) {
            (ProxyState::WaitingForServerInitHidden(_), Some(since)) => since,
            _ => now,
        }
    }

    /// The state once the connection is given up.
    pub open spec fn after_fatal(self, now: u128) -> AppState {
        if self.state is Disconnected {
            self
        } else {
            AppState {
                disconnected_since: Some(self.away_since(now)),
                ..self.after_disconnected(now).after_schedule_flush().after_schedule_reconnect()
            }
        }
    }

    /// The timers that are started when the connection is given up.
    pub open spec fn fatal_timers(self, now: u128) -> Timers {
        if self.state is Disconnected {
            Timers::idle()
        } else {
            Timers {
                flush: self.starts_flush(),
                reconnect: self.after_disconnected(now).reconnect_timer(),
            }
        }
    }

    /// A state at the time `now` of a clock.
    pub fn new_at(
        url: String,
        max_disconnected_time: Option<u64>,
        override_protocol_version: Option<ProtocolVersion>,
        clock: Clock,
        now: u128,
    ) -> (r: Self)
        ensures
            r.is_new(url, max_disconnected_time, override_protocol_version, now),
            r.clock == clock,
    {
        AppState {
            url,
            max_disconnected_time,
            override_protocol_version,
            disconnected_since: None,
            state: ProxyState::Connecting,
            connect_tries: 0,
            init_message: None,
            in_buf: Vec::new(),
            buf_mode: BufferMode::Store,
            flush_timer_active: false,
            has_reconnect_tx: false,
            has_timer_tx: false,
            reconnect_scheduled: false,
            transport_valid: true,
            last_heartbeat: now,
            clock,
        }
    }

    /// The state in which the proxy starts.
    pub fn new(
        url: String,
        max_disconnected_time: Option<u64>,
        override_protocol_version: Option<ProtocolVersion>,
    ) -> (r: Self)
        ensures
            exists|now: u128|
                r.clock.reads(now) && #[trigger] r.is_new(
                    url,
                    max_disconnected_time,
                    override_protocol_version,
                    now,
                ),
    {
        let clock = Clock::start();
        let now: u128 = clock.now();
        AppState::new_at(url, max_disconnected_time, override_protocol_version, clock, now)
    }

    /// Reads the clock, in nanoseconds.
    pub fn now(&self) -> (r: u128)
        ensures
            self.clock.reads(r),
            is_reading(r),
    {
        self.clock.now()
    }

    /// The first connection is there: the client may open a session.
    pub fn started(&mut self)
        ensures
            *final(self) == (AppState { state: ProxyState::WaitingForClientInit, ..*old(self) }),
    {
        self.state = ProxyState::WaitingForClientInit;
    }

    /// A session was opened at the time `now`.
    pub fn connected_at(&mut self, now: u128)
        ensures
            *final(self) == old(self).after_connected(now),
    {
        self.state = ProxyState::Connected;
        self.connect_tries = 0;
        self.disconnected_since = None;
        self.buf_mode = BufferMode::Store;
        self.reconnect_scheduled = false;
        self.transport_valid = true;
        self.last_heartbeat = now;
    }

    /// A session was opened just now.
    pub fn connected(&mut self)
        ensures
            exists|now: u128|
                old(self).clock.reads(now) && *final(self) == #[trigger] old(
                    self,
                ).after_connected(now),
    {
        let now: u128 = self.now();
        self.connected_at(now);
    }

    /// The server was found to be away at the time `now`.
    pub fn disconnected_at(&mut self, now: u128)
        requires
            old(self).can_count(),
        ensures
            *final(self) == old(self).after_disconnected(now),
    {
        if !matches!(self.state, ProxyState::Disconnected) {
            self.state = ProxyState::Disconnected;
            self.disconnected_since = Some(now);
            self.buf_mode = BufferMode::Store;
            self.transport_valid = false;
        }
        self.connect_tries += 1;
    }

    /// The server was found to be away just now.
    pub fn disconnected(&mut self)
        requires
            old(self).can_count(),
        ensures
            exists|now: u128|
                old(self).clock.reads(now) && *final(self) == #[trigger] old(
                    self,
                ).after_disconnected(now),
    {
        let now: u128 = self.now();
        self.disconnected_at(now);
    }

    /// Whether the server had been away for too long at the time `now`.
    pub fn disconnected_too_long_at(&self, now: u128) -> (r: bool)
        ensures
            r == self.too_long(now),
    {
        match (self.max_disconnected_time, self.disconnected_since) {
            (Some(max_time), Some(since)) => {
                let secs: u128 = nanos_between(since, now) / NANOS_PER_SEC;
                secs > max_time as u128
            },
            _ => false,
        }
    }

    /// Whether the server has been away for too long.
    pub fn disconnected_too_long(&self) -> (r: bool)
        ensures
            exists|now: u128| self.clock.reads(now) && r == #[trigger] self.too_long(now),
    {
        let now: u128 = self.now();
        self.disconnected_too_long_at(now)
    }

    /// The seconds to wait before the next attempt to connect.
    pub fn get_backoff_duration(&self) -> (r: u64)
        ensures
            r == backoff_secs(self.connect_tries as nat),
    {
        proof {
            lemma2_to64();
        }
        if self.connect_tries == 0 {
            1
        } else if self.connect_tries == 1 {
            2
        } else if self.connect_tries == 2 {
            4
        } else {
            8
        }
    }

    /// Arranges for an attempt to reconnect, unless one is arranged already.
    /// Says after how many seconds it is due.
    pub fn schedule_reconnect(&mut self) -> (r: Option<u64>)
        ensures
            *final(self) == old(self).after_schedule_reconnect(),
            r == old(self).reconnect_timer(),
    {
        if !self.reconnect_scheduled && self.has_reconnect_tx {
            let backoff: u64 = self.get_backoff_duration();
            self.reconnect_scheduled = true;
            Some(backoff)
        } else {
            None
        }
    }

    /// Arranges for buffered requests to be answered with an error later on,
    /// unless that is arranged already. Says whether a timer is to be started.
    pub fn schedule_flush_timer(&mut self) -> (r: bool)
        ensures
            *final(self) == old(self).after_schedule_flush(),
            r == old(self).starts_flush(),
    {
        if !self.flush_timer_active && self.has_timer_tx {
            self.flush_timer_active = true;
            true
        } else {
            false
        }
    }

    /// The connection was alive at the time `now`.
    pub fn update_heartbeat_at(&mut self, now: u128)
        ensures
            *final(self) == (AppState { last_heartbeat: now, ..*old(self) }),
    {
        self.last_heartbeat = now;
    }

    /// The connection is alive just now.
    pub fn update_heartbeat(&mut self)
        ensures
            old(self).clock.reads(final(self).last_heartbeat),
            *final(self) == (AppState {
                last_heartbeat: final(self).last_heartbeat,
                ..*old(self)
            }),
    {
        let now: u128 = self.now();
        self.update_heartbeat_at(now);
    }

    /// Gives the connection up at the time `now`, and says which timers are to
    /// be started for that. An attempt to reopen a session that fails is no new
    /// loss: the time that is allowed runs on.
    pub fn handle_fatal_transport_error_at(&mut self, now: u128) -> (r: Timers)
        requires
            old(self).can_disconnect(),
        ensures
            *final(self) == old(self).after_fatal(now),
            r == old(self).fatal_timers(now),
    {
        if matches!(self.state, ProxyState::Disconnected) {
            Timers { flush: false, reconnect: None }
        } else {
            let since: u128 = match (&self.state, self.disconnected_since) {
                (ProxyState::WaitingForServerInitHidden(_), Some(since)) => since,
                _ => now,
            };
            self.disconnected_at(now);
            self.disconnected_since = Some(since);
            let flush = self.schedule_flush_timer();
            let reconnect = self.schedule_reconnect();
            Timers { flush, reconnect }
        }
    }

    /// Gives the connection up.
    pub fn handle_fatal_transport_error(&mut self) -> (r: Timers)
        requires
            old(self).can_disconnect(),
        ensures
            exists|now: u128|
                old(self).clock.reads(now) && #[trigger] old(self).after_fatal(now)
                    == *final(self) && r == old(self).fatal_timers(now),
    {
        let now: u128 = self.now();
        self.handle_fatal_transport_error_at(now)
    }
}

} // verus!
