use vstd::prelude::*;
use vstd::string::*;
use rand::Rng;

use crate::errors::{CurrentModeOfflineReason, LiveError, NetworkError};
use crate::client::RuntimeEventKind;
use crate::live::{classify_connectivity_error, recoverable_error, spec_recoverable, CurrentMode};
use crate::text::chars_of;
use crate::segment_evaluation::chars_equal;

verus! {

// ---------------------------------------------------------------------------
// Random numbers

/// A number drawn uniformly from `0..=max` by the thread-local generator of
/// `rand` (`Rng::random_range`); it is never above `max`.
#[verifier::external_body]
pub(crate) fn random_at_most(max: u64) -> (r: u64)
    ensures
        r <= max,
{
    rand::rng().random_range(0..=max)
}

// ---------------------------------------------------------------------------
// Delays

/// Two to the power `n`.
pub open spec fn pow2(n: nat) -> nat
    decreases n,
{
    if n == 0 { 1 } else { 2 * pow2((n - 1) as nat) }
}

/// The delay before reconnecting after `attempt` failed attempts, before
/// jitter: 15 s, doubled per attempt, at most one hour (in milliseconds).
pub open spec fn retry_base_ms(attempt: u32) -> nat {
    let d = 15000 * pow2(attempt as nat);
    if d < 3600000 { d } else { 3600000 }
}

/// The jitter around a reconnection delay: 30% of it, rounded down.
pub open spec fn jitter_range_ms(base: nat) -> nat {
    base * 3 / 10
}

proof fn lemma_pow2_monotone(a: nat, b: nat)
    requires
        a <= b,
    ensures
        pow2(a) <= pow2(b),
    decreases b,
{
    if a < b {
        lemma_pow2_monotone(a, (b - 1) as nat);
    }
}

proof fn lemma_pow2_positive(a: nat)
    ensures
        pow2(a) >= 1,
    decreases a,
{
    if a > 0 {
        lemma_pow2_positive((a - 1) as nat);
    }
}

/// The delay before reconnecting after `attempt` failed attempts, before
/// jitter.
pub fn retry_base_delay_ms(attempt: u32) -> (r: u64)
    ensures
        r == retry_base_ms(attempt),
{
    let mut d: u64 = 15000;
    let mut i: u32 = 0;
    while i < attempt && d < 3600000
        invariant
            i <= attempt,
            d == 15000 * pow2(i as nat),
            d < 3600000 * 2,
        decreases attempt - i,
    {
        d = d * 2;
        i = i + 1;
    }
    proof {
        if d >= 3600000 {
            lemma_pow2_monotone(i as nat, attempt as nat);
            assert(pow2(attempt as nat) >= pow2(i as nat));
            assert(15000 * pow2(attempt as nat) >= 15000 * pow2(i as nat)) by (nonlinear_arith)
                requires
                    pow2(attempt as nat) >= pow2(i as nat),
            ;
        }
    }
    if d < 3600000 {
        d
    } else {
        3600000
    }
}

/// The delay before reconnecting after `attempt` failed attempts, with the
/// given jitter offset (drawn from `0..=2 * range`): the base delay less the
/// jitter range, plus the offset.
pub fn jittered_retry_delay_ms(attempt: u32, offset: u64) -> (r: u64)
    ensures
        r == (if retry_base_ms(attempt) - jitter_range_ms(retry_base_ms(attempt)) + offset <= u64::MAX {
            retry_base_ms(attempt) - jitter_range_ms(retry_base_ms(attempt)) + offset
        } else {
            u64::MAX as int
        }),
{
    let base = retry_base_delay_ms(attempt);
    let range = base * 3 / 10;
    (base - range).saturating_add(offset)
}

/// The delay before reconnecting after `attempt` failed attempts: the base
/// delay, moved at random by up to 30% either way.
pub fn calculate_retry_delay_ms(attempt: u32) -> (r: u64)
    ensures
        retry_base_ms(attempt) - jitter_range_ms(retry_base_ms(attempt)) <= r,
        r <= retry_base_ms(attempt) + jitter_range_ms(retry_base_ms(attempt)),
{
    let base = retry_base_delay_ms(attempt);
    let range = base * 3 / 10;
    let offset = if range == 0 {
        0
    } else {
        random_at_most(range * 2)
    };
    jittered_retry_delay_ms(attempt, offset)
}

/// `2` to the power `attempt` as a `u32`, saturating at `u32::MAX`.
pub open spec fn pow2_saturating(attempt: u32) -> nat {
    if pow2(attempt as nat) <= u32::MAX { pow2(attempt as nat) } else { u32::MAX as nat }
}

/// The delay before fetching the configuration again after `attempt` failed
/// fetches: the base delay doubled per attempt, at most the cap.
pub open spec fn refresh_delay_ms(attempt: u32, base_ms: u64, cap_ms: u64) -> nat {
    let grown: nat = base_ms as nat * pow2_saturating(attempt);
    let grown: nat = if grown <= u64::MAX { grown } else { u64::MAX as nat };
    if grown < cap_ms { grown } else { cap_ms as nat }
}

/// The refresh delay with a base of two minutes plus `base_jitter`
/// milliseconds and a cap of one hour plus `cap_seconds` seconds.
pub open spec fn jittered_refresh_delay_ms(attempt: u32, base_jitter: u64, cap_seconds: u64) -> nat {
    refresh_delay_ms(attempt, (120000 + base_jitter) as u64, (3600000 + cap_seconds * 1000) as u64)
}

fn pow2_saturating_exec(attempt: u32) -> (r: u32)
    ensures
        r == pow2_saturating(attempt),
{
    let mut p: u32 = 1;
    let mut i: u32 = 0;
    while i < attempt
        invariant
            i <= attempt,
            p == pow2_saturating(i),
        decreases attempt - i,
    {
        proof {
            lemma_pow2_positive(i as nat);
        }
        p = match p.checked_mul(2) {
            Some(x) => x,
            None => u32::MAX,
        };
        i = i + 1;
        proof {
            assert(pow2(i as nat) == 2 * pow2((i - 1) as nat));
        }
    }
    p
}

/// The delay before fetching the configuration again after `attempt`
/// failed fetches, for the given base and cap.
pub fn next_config_refresh_delay_ms(attempt: u32, base_ms: u64, cap_ms: u64) -> (r: u64)
    ensures
        r == refresh_delay_ms(attempt, base_ms, cap_ms),
{
    let m = pow2_saturating_exec(attempt) as u64;
    let grown = match base_ms.checked_mul(m) {
        Some(x) => x,
        None => u64::MAX,
    };
    if grown < cap_ms {
        grown
    } else {
        cap_ms
    }
}

/// The delay before fetching the configuration again after `attempt`
/// failed fetches: the base is two minutes plus up to five seconds, the cap
/// one hour plus up to 59 whole seconds, both drawn at random.
pub fn calculate_config_refresh_delay_ms(attempt: u32) -> (r: u64)
    ensures
        exists|base_jitter: u64, cap_seconds: u64|
            base_jitter <= 5000 && cap_seconds <= 59 && r == #[trigger] jittered_refresh_delay_ms(attempt, base_jitter, cap_seconds),
{
    let base_jitter = random_at_most(5000);
    let cap_seconds = random_at_most(59);
    let r = next_config_refresh_delay_ms(attempt, 120000 + base_jitter, 3600000 + cap_seconds * 1000);
    assert(base_jitter <= 5000 && cap_seconds <= 59 && r == jittered_refresh_delay_ms(attempt, base_jitter, cap_seconds));
    r
}

/// What the worker leaves behind when it stops with `result`: the
/// synchronisation is over with that result, and listeners hear that the
/// connection is closed.
pub fn stopped_with(result: Result<(), LiveError>) -> (r: (CurrentMode, RuntimeEventKind))
    ensures
        r == (CurrentMode::Defunct(result), RuntimeEventKind::Closed),
{
    (CurrentMode::Defunct(result), RuntimeEventKind::Closed)
}

// ---------------------------------------------------------------------------
// Waiting before reconnecting

/// The longest pause between two looks at the wait before reconnecting, in
/// milliseconds.
pub const BACKOFF_POLL_MS: u64 = 500;

/// What happened during the wait before reconnecting.
#[derive(Debug, Clone, Copy, PartialEq, Eq, Structural)]
pub enum BackoffEvent {
    /// The wait begins.
    Started,
    /// A pause ended, early if termination was requested.
    Slept { terminated: bool },
    /// The internet was probed.
    Probed { answered: bool },
}

/// What the wait before reconnecting does next.
#[derive(Debug, Clone, Copy, PartialEq, Eq, Structural)]
pub enum BackoffAction {
    /// Pause for this many milliseconds, or until termination is requested.
    Sleep(u64),
    /// Probe whether the internet can be reached.
    ProbeInternet,
    /// Stop waiting.
    Finish { terminated: bool, internet_restored: bool },
}

/// The pause while `remaining_ms` of the wait are left, or the end of the
/// wait once nothing is left.
pub open spec fn spec_backoff_pause(remaining_ms: u64) -> BackoffAction {
    if remaining_ms == 0 {
        BackoffAction::Finish { terminated: false, internet_restored: false }
    } else {
        BackoffAction::Sleep(if remaining_ms < BACKOFF_POLL_MS { remaining_ms } else { BACKOFF_POLL_MS })
    }
}

/// The next step of the wait before reconnecting: pause in short steps until
/// the delay has passed; stop at once when termination is requested; after
/// each pause, while disconnected, probe the internet and stop as soon as it
/// answers.
pub open spec fn spec_backoff_step(remaining_ms: u64, connected: bool, event: BackoffEvent) -> BackoffAction {
    match event {
        BackoffEvent::Started => spec_backoff_pause(remaining_ms),
        BackoffEvent::Slept { terminated } => if terminated {
            BackoffAction::Finish { terminated: true, internet_restored: false }
        } else if !connected {
            BackoffAction::ProbeInternet
        } else {
            spec_backoff_pause(remaining_ms)
        },
        BackoffEvent::Probed { answered } => if answered {
            BackoffAction::Finish { terminated: false, internet_restored: true }
        } else {
            spec_backoff_pause(remaining_ms)
        },
    }
}

fn backoff_pause(remaining_ms: u64) -> (r: BackoffAction)
    ensures
        r == spec_backoff_pause(remaining_ms),
{
    if remaining_ms == 0 {
        BackoffAction::Finish { terminated: false, internet_restored: false }
    } else if remaining_ms < BACKOFF_POLL_MS {
        BackoffAction::Sleep(remaining_ms)
    } else {
        BackoffAction::Sleep(BACKOFF_POLL_MS)
    }
}

/// Decides the next step of the wait before reconnecting, given what is left
/// of it, whether the client is connected and what just happened.
pub fn backoff_step(remaining_ms: u64, connected: bool, event: BackoffEvent) -> (r: BackoffAction)
    ensures
        r == spec_backoff_step(remaining_ms, connected, event),
{
    match event {
        BackoffEvent::Started => backoff_pause(remaining_ms),
        BackoffEvent::Slept { terminated } => {
            if terminated {
                BackoffAction::Finish { terminated: true, internet_restored: false }
            } else if !connected {
                BackoffAction::ProbeInternet
            } else {
                backoff_pause(remaining_ms)
            }
        },
        BackoffEvent::Probed { answered } => {
            if answered {
                BackoffAction::Finish { terminated: false, internet_restored: true }
            } else {
                backoff_pause(remaining_ms)
            }
        },
    }
}

// ---------------------------------------------------------------------------
// Messages of the websocket

/// The text the server sends to show that the connection is alive.
pub open spec fn heartbeat_text() -> Seq<char> {
    "test message"@
}

/// What reading the websocket gave.
#[derive(Debug, Clone, PartialEq, Eq)]
pub enum WebsocketMessage {
    /// A text message.
    Text(String),
    /// The server closes the connection.
    Close,
    /// A ping of the server.
    Ping,
    /// Any other frame.
    Other,
    /// Nothing arrived within the read timeout: the heartbeat was missed.
    TimedOut,
    /// The connection failed.
    Failed,
}

/// The pause in milliseconds before fetching a changed configuration, drawn
/// from `0..5000` so that clients do not all ask at once.
pub fn refetch_jitter_ms() -> (r: u64)
    ensures
        r < 5000,
{
    random_at_most(4999)
}

/// What to do about a message of the websocket.
#[derive(Debug, Clone, Copy, PartialEq, Eq, Structural)]
pub enum WebsocketReaction {
    /// Keep reading.
    KeepListening,
    /// The configuration changed: fetch it again, then keep reading.
    RefetchConfiguration,
    /// Answer the ping by flushing the queued pong; the connection is dead if
    /// that fails.
    FlushPong,
    /// Go offline for the reason, after completing the close handshake when
    /// the server closed; the connection is dead.
    GoOffline(CurrentModeOfflineReason),
}

/// What to do about a message of the websocket.
pub open spec fn spec_websocket_reaction(m: WebsocketMessage) -> WebsocketReaction {
    match m {
        WebsocketMessage::Text(t) => if t@ == heartbeat_text() {
            WebsocketReaction::KeepListening
        } else {
            WebsocketReaction::RefetchConfiguration
        },
        WebsocketMessage::Close => WebsocketReaction::GoOffline(CurrentModeOfflineReason::WebsocketClosed),
        WebsocketMessage::Ping => WebsocketReaction::FlushPong,
        WebsocketMessage::Other => WebsocketReaction::KeepListening,
        WebsocketMessage::TimedOut => WebsocketReaction::GoOffline(CurrentModeOfflineReason::WebsocketHeartbeatTimeout),
        WebsocketMessage::Failed => WebsocketReaction::GoOffline(CurrentModeOfflineReason::WebsocketError),
    }
}

/// Decides what to do about a message of the websocket: a heartbeat or an
/// unknown frame changes nothing, any other text means the configuration
/// changed, a ping is answered, and a close, a missed heartbeat or a failure
/// end the connection.
pub fn websocket_reaction(m: &WebsocketMessage) -> (r: WebsocketReaction)
    ensures
        r == spec_websocket_reaction(*m),
{
    match m {
        WebsocketMessage::Text(t) => {
            if chars_equal(chars_of(t.as_str()).as_slice(), chars_of("test message").as_slice()) {
                WebsocketReaction::KeepListening
            } else {
                WebsocketReaction::RefetchConfiguration
            }
        },
        WebsocketMessage::Close => WebsocketReaction::GoOffline(CurrentModeOfflineReason::WebsocketClosed),
        WebsocketMessage::Ping => WebsocketReaction::FlushPong,
        WebsocketMessage::Other => WebsocketReaction::KeepListening,
        WebsocketMessage::TimedOut => WebsocketReaction::GoOffline(CurrentModeOfflineReason::WebsocketHeartbeatTimeout),
        WebsocketMessage::Failed => WebsocketReaction::GoOffline(CurrentModeOfflineReason::WebsocketError),
    }
}

// ---------------------------------------------------------------------------
// The synchronisation loop

/// The counters of the synchronisation loop.
#[derive(Debug, Clone, Copy, PartialEq, Eq, Structural)]
pub struct WorkerState {
    /// Failed attempts to keep a websocket, since the last success.
    pub websocket_retry_attempt: u32,
    /// Failed fetches of the configuration, since the last success.
    pub config_refresh_retry_attempt: u32,
}

/// What happened in the synchronisation loop.
#[derive(Debug, PartialEq, Eq)]
pub enum WorkerEvent {
    /// The loop starts.
    Started,
    /// The websocket was opened.
    WebsocketOpened,
    /// Opening the websocket failed.
    WebsocketFailed(NetworkError),
    /// The configuration was fetched (`true`), could not be fetched
    /// (`false`), or the fetch stopped the synchronisation (`Err`).
    ConfigurationFetched(Result<bool, LiveError>),
    /// A message was handled; whether the websocket is still alive, or the
    /// handling stopped the synchronisation (`Err`).
    MessageHandled(Result<bool, LiveError>),
    /// Termination was requested.
    TerminationRequested,
    /// The wait before reconnecting ended: by termination, or with the
    /// internet connection found restored or not.
    RetryWaitEnded { terminated: bool, internet_restored: bool },
    /// The wait before fetching again ended, by termination or not.
    RefreshWaitEnded { terminated: bool },
}

/// What the synchronisation loop does next.
#[derive(Debug, Clone, Copy, PartialEq, Eq, Structural)]
pub enum WorkerAction {
    /// Open the websocket.
    OpenWebsocket,
    /// Mark the connection as up, announce it, and fetch the configuration.
    AnnounceConnected,
    /// Mark the connection as down, go offline for the reason, and wait
    /// before reconnecting (after the given number of failed attempts).
    GoOfflineAndWait { reason: CurrentModeOfflineReason, attempt: u32 },
    /// Mark the connection as down and wait before fetching again (after the
    /// given number of failed fetches).
    WaitBeforeRefresh { attempt: u32 },
    /// Read the next message, unless termination was requested.
    ReadMessage,
    /// Mark the connection as down and wait before reconnecting (after the
    /// given number of failed attempts).
    WaitBeforeReconnect { attempt: u32 },
    /// End the loop successfully.
    Stop,
}

/// The next counters and action of the synchronisation loop after an event;
/// an error ends the loop with that error.
pub open spec fn spec_worker_step(s: WorkerState, e: WorkerEvent) -> Result<(WorkerState, WorkerAction), LiveError> {
    match e {
        WorkerEvent::Started => Ok((s, WorkerAction::OpenWebsocket)),
        WorkerEvent::WebsocketOpened => Ok(
            (WorkerState { websocket_retry_attempt: 0, config_refresh_retry_attempt: 0 }, WorkerAction::AnnounceConnected),
        ),
        WorkerEvent::WebsocketFailed(err) => match spec_recoverable(err) {
            Err(x) => Err(x),
            Ok(()) => Ok(
                (
                    s,
                    WorkerAction::GoOfflineAndWait {
                        reason: CurrentModeOfflineReason::WebsocketError,
                        attempt: s.websocket_retry_attempt,
                    },
                ),
            ),
        },
        WorkerEvent::ConfigurationFetched(Err(x)) => Err(x),
        WorkerEvent::ConfigurationFetched(Ok(true)) => Ok(
            (WorkerState { config_refresh_retry_attempt: 0, ..s }, WorkerAction::ReadMessage),
        ),
        WorkerEvent::ConfigurationFetched(Ok(false)) => Ok(
            (s, WorkerAction::WaitBeforeRefresh { attempt: s.config_refresh_retry_attempt }),
        ),
        WorkerEvent::MessageHandled(Err(x)) => Err(x),
        WorkerEvent::MessageHandled(Ok(true)) => Ok((s, WorkerAction::ReadMessage)),
        WorkerEvent::MessageHandled(Ok(false)) => Ok(
            (s, WorkerAction::WaitBeforeReconnect { attempt: s.websocket_retry_attempt }),
        ),
        WorkerEvent::TerminationRequested => Ok((s, WorkerAction::Stop)),
        WorkerEvent::RetryWaitEnded { terminated, internet_restored } => if terminated {
            Ok((s, WorkerAction::Stop))
        } else {
            Ok(
                (
                    WorkerState {
                        websocket_retry_attempt: if internet_restored {
                            0
                        } else if s.websocket_retry_attempt == u32::MAX {
                            u32::MAX
                        } else {
                            (s.websocket_retry_attempt + 1) as u32
                        },
                        ..s
                    },
                    WorkerAction::OpenWebsocket,
                ),
            )
        },
        WorkerEvent::RefreshWaitEnded { terminated } => if terminated {
            Ok((s, WorkerAction::Stop))
        } else {
            Ok(
                (
                    WorkerState {
                        config_refresh_retry_attempt: if s.config_refresh_retry_attempt == u32::MAX {
                            u32::MAX
                        } else {
                            (s.config_refresh_retry_attempt + 1) as u32
                        },
                        ..s
                    },
                    WorkerAction::OpenWebsocket,
                ),
            )
        },
    }
}

impl WorkerState {
    /// The counters when the loop starts.
    pub fn new() -> (r: Self)
        ensures
            r.websocket_retry_attempt == 0,
            r.config_refresh_retry_attempt == 0,
    {
        WorkerState { websocket_retry_attempt: 0, config_refresh_retry_attempt: 0 }
    }

    /// Decides the next step of the synchronisation loop: a success resets
    /// the counter of its kind, a failure waits longer with each attempt, a
    /// restored internet connection reconnects at once, an unrecoverable
    /// error or a requested termination ends the loop.
    pub fn step(&self, e: WorkerEvent) -> (r: Result<(WorkerState, WorkerAction), LiveError>)
        ensures
            r == spec_worker_step(*self, e),
    {
        let s = *self;
        match e {
            WorkerEvent::Started => Ok((s, WorkerAction::OpenWebsocket)),
            WorkerEvent::WebsocketOpened => Ok(
                (WorkerState { websocket_retry_attempt: 0, config_refresh_retry_attempt: 0 }, WorkerAction::AnnounceConnected),
            ),
            WorkerEvent::WebsocketFailed(err) => {
                let reason = classify_connectivity_error(&err);
                recoverable_error(err)?;
                Ok((s, WorkerAction::GoOfflineAndWait { reason, attempt: s.websocket_retry_attempt }))
            },
            WorkerEvent::ConfigurationFetched(Err(x)) => Err(x),
            WorkerEvent::ConfigurationFetched(Ok(true)) => Ok(
                (
                    WorkerState { websocket_retry_attempt: s.websocket_retry_attempt, config_refresh_retry_attempt: 0 },
                    WorkerAction::ReadMessage,
                ),
            ),
            WorkerEvent::ConfigurationFetched(Ok(false)) => Ok(
                (s, WorkerAction::WaitBeforeRefresh { attempt: s.config_refresh_retry_attempt }),
            ),
            WorkerEvent::MessageHandled(Err(x)) => Err(x),
            WorkerEvent::MessageHandled(Ok(true)) => Ok((s, WorkerAction::ReadMessage)),
            WorkerEvent::MessageHandled(Ok(false)) => Ok(
                (s, WorkerAction::WaitBeforeReconnect { attempt: s.websocket_retry_attempt }),
            ),
            WorkerEvent::TerminationRequested => Ok((s, WorkerAction::Stop)),
            WorkerEvent::RetryWaitEnded { terminated, internet_restored } => {
                if terminated {
                    Ok((s, WorkerAction::Stop))
                } else {
                    let attempt = if internet_restored {
                        0
                    } else {
                        s.websocket_retry_attempt.saturating_add(1)
                    };
                    Ok(
                        (
                            WorkerState { websocket_retry_attempt: attempt, config_refresh_retry_attempt: s.config_refresh_retry_attempt },
                            WorkerAction::OpenWebsocket,
                        ),
                    )
                }
            },
            WorkerEvent::RefreshWaitEnded { terminated } => {
                if terminated {
                    Ok((s, WorkerAction::Stop))
                } else {
                    Ok(
                        (
                            WorkerState {
                                websocket_retry_attempt: s.websocket_retry_attempt,
                                config_refresh_retry_attempt: s.config_refresh_retry_attempt.saturating_add(1),
                            },
                            WorkerAction::OpenWebsocket,
                        ),
                    )
                }
            },
        }
    }
}

} // verus!
