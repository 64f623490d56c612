//! The control channel's lifecycle: connection states, exponential backoff
//! with full jitter between attempts, the handshake and the heartbeat.
//! The caller performs each action and reports what happened as an event.

use vstd::arithmetic::power2::{lemma2_to64, lemma_pow2_unfold, pow2};
use vstd::prelude::*;

verus! {

/// First retry delay, in milliseconds.
pub const BACKOFF_BASE_MS: u64 = 1000;

/// Largest retry delay, in milliseconds.
pub const BACKOFF_CAP_MS: u64 = 60000;

/// Consecutive unanswered pings after which the connection is closed.
pub const HEARTBEAT_MISS_LIMIT: u32 = 3;

/// Heartbeat period, in milliseconds.
pub const HEARTBEAT_INTERVAL_MS: u64 = 20000;

/// Time allowed for the TCP/TLS connect and for the handshake, in milliseconds.
pub const CONNECT_TIMEOUT_MS: u64 = 10000;

#[derive(Clone, Copy, Debug, PartialEq, Eq, Structural)]
pub enum ChannelState {
    Disconnected,
    Connecting,
    Handshaking,
    Connected,
    Closing,
}

/// What the caller observed.
#[derive(Clone, Copy, Debug, PartialEq, Eq, Structural)]
pub enum ChannelEvent {
    /// The agent wants a connection (first start).
    Start,
    /// The retry delay has elapsed.
    RetryDue,
    /// The socket is open.
    ConnectOk,
    /// The socket could not be opened in time.
    ConnectFailed,
    /// `backend.ready` arrived in answer to the hello.
    BackendReady,
    /// No `backend.ready` within the handshake timeout.
    HandshakeTimeout,
    /// The heartbeat period elapsed.
    HeartbeatTick,
    /// The backend answered a ping.
    Pong,
    /// An inbound frame was malformed.
    ProtocolError,
    /// The socket was closed by the peer or failed.
    SocketClosed,
    /// Followers are torn down and the socket is closed.
    TeardownDone,
}

/// What the caller must do next.
#[derive(Clone, Copy, Debug, PartialEq, Eq, Structural)]
pub enum ChannelAction {
    Nothing,
    /// Open the socket.
    Connect,
    /// Send `agent.hello`.
    SendHello,
    /// Send a `ping`.
    SendPing,
    /// Close the socket if open, then wait a jittered delay under this
    /// ceiling (milliseconds) and report `RetryDue`.
    WaitRetry(u64),
    /// Stop every follower, close the socket, then report `TeardownDone`.
    TearDown,
}

/// The channel's state with its retry and heartbeat counters.
#[derive(Clone, Copy, Debug, PartialEq, Eq, Structural)]
pub struct Channel {
    pub state: ChannelState,
    /// Failed attempts in this reconnect epoch.
    pub attempt: u32,
    /// Consecutive pings without an answer.
    pub missed: u32,
}

/// The retry ceiling after `attempt` failures: the base doubled per attempt,
/// never above the cap.
pub open spec fn backoff_ceiling(attempt: nat) -> nat
    decreases attempt,
{
    if attempt == 0 {
        BACKOFF_BASE_MS as nat
    } else {
        let prev = backoff_ceiling((attempt - 1) as nat);
        if 2 * prev < BACKOFF_CAP_MS {
            2 * prev
        } else {
            BACKOFF_CAP_MS as nat
        }
    }
}

/// One more failed attempt, saturating.
pub open spec fn bump(a: u32) -> u32 {
    if a < u32::MAX {
        (a + 1) as u32
    } else {
        a
    }
}

/// Retry after a failure: wait under the current ceiling, count the attempt.
pub open spec fn retry(c: Channel) -> (Channel, ChannelAction) {
    (
        Channel { state: ChannelState::Disconnected, attempt: bump(c.attempt), missed: 0 },
        ChannelAction::WaitRetry(backoff_ceiling(c.attempt as nat) as u64),
    )
}

/// The transition function of the channel.
pub open spec fn next(c: Channel, e: ChannelEvent) -> (Channel, ChannelAction) {
    match (c.state, e) {
        (ChannelState::Disconnected, ChannelEvent::Start) | (
            ChannelState::Disconnected,
            ChannelEvent::RetryDue,
        ) => (Channel { state: ChannelState::Connecting, ..c }, ChannelAction::Connect),
        (ChannelState::Connecting, ChannelEvent::ConnectOk) => (
            Channel { state: ChannelState::Handshaking, ..c },
            ChannelAction::SendHello,
        ),
        (ChannelState::Connecting, ChannelEvent::ConnectFailed) => retry(c),
        (ChannelState::Handshaking, ChannelEvent::BackendReady) => (
            Channel { state: ChannelState::Connected, attempt: 0, missed: 0 },
            ChannelAction::Nothing,
        ),
        (ChannelState::Handshaking, ChannelEvent::HandshakeTimeout) | (
            ChannelState::Handshaking,
            ChannelEvent::SocketClosed,
        ) | (ChannelState::Handshaking, ChannelEvent::ProtocolError) => retry(c),
        (ChannelState::Connected, ChannelEvent::HeartbeatTick) => if c.missed
            >= HEARTBEAT_MISS_LIMIT {
            (Channel { state: ChannelState::Closing, ..c }, ChannelAction::TearDown)
        } else {
            (Channel { missed: (c.missed + 1) as u32, ..c }, ChannelAction::SendPing)
        },
        (ChannelState::Connected, ChannelEvent::Pong) => (
            Channel { missed: 0, ..c },
            ChannelAction::Nothing,
        ),
        (ChannelState::Connected, ChannelEvent::SocketClosed) | (
            ChannelState::Connected,
            ChannelEvent::ProtocolError,
        ) => (Channel { state: ChannelState::Closing, ..c }, ChannelAction::TearDown),
        (ChannelState::Closing, ChannelEvent::TeardownDone) => retry(
            Channel { state: ChannelState::Closing, attempt: 0, missed: 0 },
        ),
        _ => (c, ChannelAction::Nothing),
    }
}

proof fn lemma_ceiling_bounds(a: nat)
    ensures
        BACKOFF_BASE_MS <= backoff_ceiling(a) <= BACKOFF_CAP_MS,
    decreases a,
{
    if a > 0 {
        lemma_ceiling_bounds((a - 1) as nat);
    }
}

proof fn lemma_ceiling_stays_at_cap(i: nat, a: nat)
    requires
        i <= a,
        backoff_ceiling(i) == BACKOFF_CAP_MS,
    ensures
        backoff_ceiling(a) == BACKOFF_CAP_MS,
    decreases a - i,
{
    if i < a {
        lemma_ceiling_stays_at_cap(i, (a - 1) as nat);
    }
}

/// The retry ceiling after `attempt` failures, in milliseconds.
pub fn backoff_ceiling_ms(attempt: u32) -> (r: u64)
    ensures
        r == backoff_ceiling(attempt as nat),
        BACKOFF_BASE_MS <= r <= BACKOFF_CAP_MS,
{
    let mut c: u64 = BACKOFF_BASE_MS;
    let mut i: u32 = 0;
    while i < attempt && c < BACKOFF_CAP_MS
        invariant
            i <= attempt,
            c == backoff_ceiling(i as nat),
            BACKOFF_BASE_MS <= c <= BACKOFF_CAP_MS,
        decreases attempt - i,
    {
        if 2 * c < BACKOFF_CAP_MS {
            c = 2 * c;
        } else {
            c = BACKOFF_CAP_MS;
        }
        i = i + 1;
    }
    if i < attempt {
        proof {
            lemma_ceiling_stays_at_cap(i as nat, attempt as nat);
        }
    }
    c
}

/// Full jitter: a delay drawn uniformly from `0..=ceiling` given a uniformly
/// random `random`.
pub fn jittered_delay(ceiling: u64, random: u64) -> (r: u64)
    requires
        ceiling < u64::MAX,
    ensures
        r == random as int % (ceiling as int + 1),
        r <= ceiling,
{
    random % (ceiling + 1)
}

impl Channel {
    /// A channel that has not tried to connect yet.
    pub fn new() -> (r: Self)
        ensures
            r == (Channel { state: ChannelState::Disconnected, attempt: 0, missed: 0 }),
    {
        Channel { state: ChannelState::Disconnected, attempt: 0, missed: 0 }
    }

    fn retry_from(&mut self, attempt: u32) -> (r: ChannelAction)
        ensures
            (*final(self), r) == retry(Channel { attempt, ..*old(self) }),
    {
        let ceiling = backoff_ceiling_ms(attempt);
        self.state = ChannelState::Disconnected;
        self.attempt = if attempt < u32::MAX {
            attempt + 1
        } else {
            attempt
        };
        self.missed = 0;
        ChannelAction::WaitRetry(ceiling)
    }

    /// Applies one event and says what to do next.
    pub fn step(&mut self, e: ChannelEvent) -> (r: ChannelAction)
        ensures
            (*final(self), r) == next(*old(self), e),
    {
        match (self.state, e) {
            (ChannelState::Disconnected, ChannelEvent::Start) | (
                ChannelState::Disconnected,
                ChannelEvent::RetryDue,
            ) => {
                self.state = ChannelState::Connecting;
                ChannelAction::Connect
            },
            (ChannelState::Connecting, ChannelEvent::ConnectOk) => {
                self.state = ChannelState::Handshaking;
                ChannelAction::SendHello
            },
            (ChannelState::Connecting, ChannelEvent::ConnectFailed) => {
                let a = self.attempt;
                self.retry_from(a)
            },
            (ChannelState::Handshaking, ChannelEvent::BackendReady) => {
                self.state = ChannelState::Connected;
                self.attempt = 0;
                self.missed = 0;
                ChannelAction::Nothing
            },
            (ChannelState::Handshaking, ChannelEvent::HandshakeTimeout) | (
                ChannelState::Handshaking,
                ChannelEvent::SocketClosed,
            ) | (ChannelState::Handshaking, ChannelEvent::ProtocolError) => {
                let a = self.attempt;
                self.retry_from(a)
            },
            (ChannelState::Connected, ChannelEvent::HeartbeatTick) => {
                if self.missed >= HEARTBEAT_MISS_LIMIT {
                    self.state = ChannelState::Closing;
                    ChannelAction::TearDown
                } else {
                    self.missed = self.missed + 1;
                    ChannelAction::SendPing
                }
            },
            (ChannelState::Connected, ChannelEvent::Pong) => {
                self.missed = 0;
                ChannelAction::Nothing
            },
            (ChannelState::Connected, ChannelEvent::SocketClosed) | (
                ChannelState::Connected,
                ChannelEvent::ProtocolError,
            ) => {
                self.state = ChannelState::Closing;
                ChannelAction::TearDown
            },
            (ChannelState::Closing, ChannelEvent::TeardownDone) => {
                self.missed = 0;
                self.retry_from(0)
            },
            _ => ChannelAction::Nothing,
        }
    }
}

/// The retry ceiling never shrinks as failures accumulate, starts at the
/// base and stays under the cap.
pub proof fn lemma_backoff_monotone(a: nat, b: nat)
    requires
        a <= b,
    ensures
        backoff_ceiling(a) <= backoff_ceiling(b),
        backoff_ceiling(0) == BACKOFF_BASE_MS,
        backoff_ceiling(b) <= BACKOFF_CAP_MS,
    decreases b - a,
{
    lemma_ceiling_bounds(b);
    if a < b {
        lemma_backoff_monotone(a, (b - 1) as nat);
        lemma_ceiling_bounds((b - 1) as nat);
    }
}

/// Within a reconnect epoch (no successful handshake, no teardown) the
/// attempt count never decreases, so each retry waits under a ceiling at
/// least that of the one before; a successful handshake resets the count,
/// so the next retry starts again from the base.
pub proof fn lemma_backoff_epoch(c: Channel, e: ChannelEvent)
    ensures
        e != ChannelEvent::BackendReady && e != ChannelEvent::TeardownDone ==> next(c, e).0.attempt
            >= c.attempt,
        next(c, e).1 matches ChannelAction::WaitRetry(d) ==> (e != ChannelEvent::TeardownDone
            ==> d == backoff_ceiling(c.attempt as nat)),
        c.state == ChannelState::Handshaking && e == ChannelEvent::BackendReady ==> next(
            c,
            e,
        ).0.attempt == 0,
        c.state == ChannelState::Closing && e == ChannelEvent::TeardownDone ==> next(c, e).1
            == ChannelAction::WaitRetry(BACKOFF_BASE_MS),
        forall|a: nat, b: nat| a <= b ==> backoff_ceiling(a) <= backoff_ceiling(b),
{
    assert forall|a: nat, b: nat| a <= b implies backoff_ceiling(a) <= backoff_ceiling(b) by {
        lemma_backoff_monotone(a, b);
    }
    lemma_ceiling_bounds(c.attempt as nat);
}

/// One failed connection round from `Disconnected`: the retry delay elapses,
/// the connect is attempted and fails.
pub open spec fn failed_round(c: Channel) -> (Channel, ChannelAction) {
    next(next(c, ChannelEvent::RetryDue).0, ChannelEvent::ConnectFailed)
}

/// The channel after `n` failed rounds in a row.
pub open spec fn after_rounds(c: Channel, n: nat) -> Channel
    decreases n,
{
    if n == 0 {
        c
    } else {
        failed_round(after_rounds(c, (n - 1) as nat)).0
    }
}

/// The wait scheduled by the failed round that follows `k` earlier ones.
pub open spec fn round_wait(c: Channel, k: nat) -> ChannelAction {
    failed_round(after_rounds(c, k)).1
}

proof fn lemma_rounds_count(c: Channel, k: nat)
    requires
        c.state == ChannelState::Disconnected,
        c.attempt + k < u32::MAX,
    ensures
        after_rounds(c, k).state == ChannelState::Disconnected,
        after_rounds(c, k).attempt == c.attempt + k,
        round_wait(c, k) == ChannelAction::WaitRetry(backoff_ceiling((c.attempt + k) as nat) as u64),
    decreases k,
{
    if k > 0 {
        lemma_rounds_count(c, (k - 1) as nat);
    }
}

proof fn lemma_ceiling_closed_form(k: nat)
    ensures
        backoff_ceiling(k) == (if 1000 * pow2(k) < 60000 {
            1000 * pow2(k)
        } else {
            60000
        }),
    decreases k,
{
    if k == 0 {
        lemma2_to64();
    } else {
        lemma_ceiling_closed_form((k - 1) as nat);
        lemma_pow2_unfold(k);
    }
}

/// Within a reconnect epoch the schedule never shrinks: after a reset, the
/// round that follows `k` failed ones waits under `min(60 s, 1 s * 2^k)`,
/// so a later round never waits under a lower bound than an earlier one,
/// and none waits under more than the cap.
pub proof fn lemma_backoff_schedule(c: Channel, i: nat, j: nat)
    requires
        c.state == ChannelState::Disconnected,
        c.attempt == 0,
        i <= j,
        j < u32::MAX,
    ensures
        round_wait(c, i) == ChannelAction::WaitRetry(
            (if 1000 * pow2(i) < 60000 {
                1000 * pow2(i)
            } else {
                60000
            }) as u64,
        ),
        round_wait(c, i) matches ChannelAction::WaitRetry(a) && round_wait(c, j) matches ChannelAction::WaitRetry(b)
            && a <= b && b <= BACKOFF_CAP_MS,
{
    lemma_rounds_count(c, i);
    lemma_rounds_count(c, j);
    lemma_ceiling_closed_form(i);
    lemma_backoff_monotone(i, j);
}

/// When the socket of a connected channel is lost, the channel tears down
/// and waits under the base delay (well within a minute), then reconnects
/// and says hello again; it is connected again only once the backend
/// answers the hello.
pub proof fn lemma_reconnect_after_loss(c: Channel)
    requires
        c.state == ChannelState::Connected,
    ensures
        next(c, ChannelEvent::SocketClosed).1 == ChannelAction::TearDown,
        next(next(c, ChannelEvent::SocketClosed).0, ChannelEvent::TeardownDone).1
            == ChannelAction::WaitRetry(BACKOFF_BASE_MS),
        ({
            let waiting = next(next(c, ChannelEvent::SocketClosed).0, ChannelEvent::TeardownDone).0;
            let connecting = next(waiting, ChannelEvent::RetryDue);
            let opened = next(connecting.0, ChannelEvent::ConnectOk);
            &&& connecting.1 == ChannelAction::Connect
            &&& opened.1 == ChannelAction::SendHello
            &&& opened.0.state == ChannelState::Handshaking
            &&& forall|e: ChannelEvent|
                next(opened.0, e).0.state == ChannelState::Connected ==> e
                    == ChannelEvent::BackendReady
        }),
{
}

} // verus!
