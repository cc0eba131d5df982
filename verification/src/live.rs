use vstd::prelude::*;
use vstd::string::*;

use crate::client::{RuntimeEventKind, RuntimeMode, RuntimeStatus};
use crate::configuration::{configuration_of, Configuration};
use crate::errors::{error_message, offline_reason_name, ConfigurationDataError, CurrentModeOfflineReason, Error, LiveError, NetworkError};
use crate::models::ConfigurationJson;

verus! {

// ---------------------------------------------------------------------------
// Modes of a live configuration

/// The operating mode of a live configuration.
#[derive(Debug, PartialEq, Eq)]
pub enum CurrentMode {
    /// Synchronised with the server.
    Online,
    /// Not synchronised, for the given reason.
    Offline(CurrentModeOfflineReason),
    /// The synchronisation has stopped, with the given result.
    Defunct(Result<(), LiveError>),
}

/// The state of a background thread.
#[derive(Debug, PartialEq, Eq)]
pub enum ThreadStatus {
    Running,
    Finished(Result<(), LiveError>),
}

fn duplicate_live_error(e: &LiveError) -> (r: LiveError)
    ensures
        r == *e,
{
    match e {
        LiveError::CannotAcquireLock => LiveError::CannotAcquireLock,
        LiveError::Offline(reason) => LiveError::Offline(*reason),
        LiveError::ThreadInternalError(m) => LiveError::ThreadInternalError(m.clone()),
        LiveError::UnrecoverableError(m) => LiveError::UnrecoverableError(m.clone()),
        LiveError::ConfigurationNotYetAvailable => LiveError::ConfigurationNotYetAvailable,
    }
}

fn duplicate_result(r: &Result<(), LiveError>) -> (c: Result<(), LiveError>)
    ensures
        c == *r,
{
    match r {
        Ok(u) => Ok(*u),
        Err(e) => Err(duplicate_live_error(e)),
    }
}

impl CurrentMode {
    /// An exact copy.
    pub fn duplicate(&self) -> (r: CurrentMode)
        ensures
            r == *self,
    {
        match self {
            CurrentMode::Online => CurrentMode::Online,
            CurrentMode::Offline(reason) => CurrentMode::Offline(*reason),
            CurrentMode::Defunct(res) => CurrentMode::Defunct(duplicate_result(res)),
        }
    }
}

impl ThreadStatus {
    /// An exact copy.
    pub fn duplicate(&self) -> (r: ThreadStatus)
        ensures
            r == *self,
    {
        match self {
            ThreadStatus::Running => ThreadStatus::Running,
            ThreadStatus::Finished(res) => ThreadStatus::Finished(duplicate_result(res)),
        }
    }
}

/// How a live configuration behaves while it has no configuration from the
/// server (the kind of its offline mode).
#[derive(Debug, Clone, Copy, PartialEq, Eq, Structural)]
pub enum OfflineModeKind {
    /// Fail until the server is back.
    Fail,
    /// Serve the last configuration received, if any.
    Cache,
    /// Serve a configuration given up front.
    FallbackData,
    /// Read the configuration from a cache file the library keeps.
    PersistentCacheFile,
    /// Read the configuration from a file given up front.
    BootstrapFile,
}

/// Where a requested configuration comes from.
#[derive(Debug, Clone, Copy, PartialEq, Eq, Structural)]
pub enum ConfigurationSource {
    /// The configuration held in memory.
    InMemory,
    /// The configuration given up front.
    Fallback,
    /// The file of the offline mode.
    File,
}

/// The message of a panicked thread.
pub open spec fn panic_message(payload: Option<String>) -> Seq<char> {
    match payload {
        Some(m) => "Thread panicked: "@ + m@,
        None => "Thread panicked"@,
    }
}

/// The status of a thread that has finished: its result, or an internal
/// error that carries the message of its panic.
pub fn thread_finished_status(joined: Result<Result<(), LiveError>, Option<String>>) -> (r: ThreadStatus)
    ensures
        match joined {
            Ok(res) => r == ThreadStatus::Finished(res),
            Err(payload) => r matches ThreadStatus::Finished(Err(LiveError::ThreadInternalError(m)))
                && m@ == panic_message(payload),
        },
{
    match joined {
        Ok(res) => ThreadStatus::Finished(res),
        Err(Some(m)) => {
            let mut s = String::from_str("Thread panicked: ");
            s.append(m.as_str());
            ThreadStatus::Finished(Err(LiveError::ThreadInternalError(s)))
        },
        Err(None) => ThreadStatus::Finished(Err(LiveError::ThreadInternalError(String::from_str("Thread panicked")))),
    }
}

// ---------------------------------------------------------------------------
// Debug text of thread results

/// A string in debug notation, as `format!("{:?}", s)` writes it: quoted,
/// with quotes, backslashes and the characters that `char::escape_debug`
/// escapes (control and non-printable characters among them) written as
/// escapes.
pub uninterp spec fn debug_str(s: Seq<char>) -> Seq<char>;

/// Writes a string in debug notation with `format!("{:?}", s)`, that is with
/// `<str as Debug>::fmt`; the contract names the result.
#[verifier::external_body]
fn debug_str_text(s: &str) -> (r: String)
    ensures
        r@ == debug_str(s@),
{
    format!("{:?}", s)
}

/// An error of the live configuration in debug notation.
pub open spec fn debug_live_error(e: LiveError) -> Seq<char> {
    match e {
        LiveError::CannotAcquireLock => "CannotAcquireLock"@,
        LiveError::Offline(r) => "Offline("@ + offline_reason_name(r) + ")"@,
        LiveError::ThreadInternalError(m) => "ThreadInternalError("@ + debug_str(m@) + ")"@,
        LiveError::UnrecoverableError(m) => "UnrecoverableError("@ + debug_str(m@) + ")"@,
        LiveError::ConfigurationNotYetAvailable => "ConfigurationNotYetAvailable"@,
    }
}

/// The result of a thread in debug notation.
pub open spec fn debug_thread_result(r: Result<(), LiveError>) -> Seq<char> {
    match r {
        Ok(()) => "Ok(())"@,
        Err(e) => "Err("@ + debug_live_error(e) + ")"@,
    }
}

fn append_debug_string(out: &mut String, s: &String)
    ensures
        final(out)@ == old(out)@ + debug_str(s@),
{
    let d = debug_str_text(s.as_str());
    out.append(d.as_str());
}

/// The result of a thread in debug notation.
pub fn thread_result_text(r: &Result<(), LiveError>) -> (s: String)
    ensures
        s@ == debug_thread_result(*r),
{
    match r {
        Ok(()) => String::from_str("Ok(())"),
        Err(e) => {
            let mut s = String::from_str("Err(");
            match e {
                LiveError::CannotAcquireLock => s.append("CannotAcquireLock"),
                LiveError::Offline(reason) => {
                    s.append("Offline(");
                    let n = reason.name();
                    s.append(n.as_str());
                    s.append(")");
                },
                LiveError::ThreadInternalError(m) => {
                    s.append("ThreadInternalError(");
                    append_debug_string(&mut s, m);
                    s.append(")");
                },
                LiveError::UnrecoverableError(m) => {
                    s.append("UnrecoverableError(");
                    append_debug_string(&mut s, m);
                    s.append(")");
                },
                LiveError::ConfigurationNotYetAvailable => s.append("ConfigurationNotYetAvailable"),
            }
            s.append(")");
            s
        },
    }
}

// ---------------------------------------------------------------------------
// Serving the configuration

/// Where the configuration comes from, or why there is none, given the
/// mode, whether a configuration is held in memory and the offline mode;
/// `None` where the synchronisation has stopped and the error tells its
/// result.
pub open spec fn serve_plan(mode: CurrentMode, in_memory: bool, offline: OfflineModeKind) -> Option<Result<ConfigurationSource, LiveError>> {
    if in_memory {
        Some(Ok(ConfigurationSource::InMemory))
    } else {
        match offline {
            OfflineModeKind::FallbackData => Some(Ok(ConfigurationSource::Fallback)),
            OfflineModeKind::PersistentCacheFile | OfflineModeKind::BootstrapFile => Some(Ok(ConfigurationSource::File)),
            OfflineModeKind::Fail => match mode {
                CurrentMode::Offline(reason) => Some(Err(LiveError::Offline(reason))),
                CurrentMode::Defunct(_) => None,
                CurrentMode::Online => Some(Err(LiveError::ConfigurationNotYetAvailable)),
            },
            OfflineModeKind::Cache => match mode {
                CurrentMode::Defunct(_) => None,
                _ => Some(Err(LiveError::ConfigurationNotYetAvailable)),
            },
        }
    }
}

/// Whether `r` is the error of a stopped synchronisation without a
/// configuration, which tells the result of the thread.
pub open spec fn defunct_error(res: Result<(), LiveError>, offline: OfflineModeKind, r: Result<ConfigurationSource, LiveError>) -> bool {
    if offline == OfflineModeKind::Fail {
        r matches Err(LiveError::ThreadInternalError(m)) && m@ == "Thread finished with status: "@ + debug_thread_result(res)
    } else {
        r matches Err(LiveError::UnrecoverableError(m)) && m@ == "Initial configuration failed to retrieve: "@ + debug_thread_result(res)
    }
}

/// Decides where the configuration handed to users comes from: the one in
/// memory whenever there is one, otherwise what the offline mode provides.
/// Online, a configuration is always held in memory.
pub fn configuration_source(mode: &CurrentMode, in_memory: bool, offline: OfflineModeKind) -> (r: Result<ConfigurationSource, LiveError>)
    requires
        *mode == CurrentMode::Online ==> in_memory,
    ensures
        match serve_plan(*mode, in_memory, offline) {
            Some(x) => r == x,
            None => *mode matches CurrentMode::Defunct(res) && defunct_error(res, offline, r),
        },
{
    if in_memory {
        return Ok(ConfigurationSource::InMemory);
    }
    match offline {
        OfflineModeKind::FallbackData => Ok(ConfigurationSource::Fallback),
        OfflineModeKind::PersistentCacheFile => Ok(ConfigurationSource::File),
        OfflineModeKind::BootstrapFile => Ok(ConfigurationSource::File),
        OfflineModeKind::Fail => match mode {
            CurrentMode::Offline(reason) => Err(LiveError::Offline(*reason)),
            CurrentMode::Defunct(res) => {
                let mut m = String::from_str("Thread finished with status: ");
                let t = thread_result_text(res);
                m.append(t.as_str());
                Err(LiveError::ThreadInternalError(m))
            },
            CurrentMode::Online => Err(LiveError::ConfigurationNotYetAvailable),
        },
        OfflineModeKind::Cache => match mode {
            CurrentMode::Defunct(res) => {
                let mut m = String::from_str("Initial configuration failed to retrieve: ");
                let t = thread_result_text(res);
                m.append(t.as_str());
                Err(LiveError::UnrecoverableError(m))
            },
            _ => Err(LiveError::ConfigurationNotYetAvailable),
        },
    }
}

/// The error of a configuration that could not be read from the file of the
/// offline mode.
pub fn unreadable_configuration(e: &Error) -> (r: LiveError)
    ensures
        r matches LiveError::UnrecoverableError(m) && m@ == error_message(*e),
{
    LiveError::UnrecoverableError(e.message())
}

/// Whether a live configuration is online in the given mode.
pub fn is_online(mode: &CurrentMode) -> (r: bool)
    ensures
        r == (*mode == CurrentMode::Online),
{
    match mode {
        CurrentMode::Online => true,
        _ => false,
    }
}

/// Whether waiting for the server is pointless: the synchronisation stopped
/// cleanly and the configuration given up front is served.
pub fn online_without_waiting(mode: &CurrentMode, offline: OfflineModeKind) -> (r: bool)
    ensures
        r == (*mode matches CurrentMode::Defunct(Ok(_)) && offline == OfflineModeKind::FallbackData),
{
    match (mode, offline) {
        (CurrentMode::Defunct(Ok(())), OfflineModeKind::FallbackData) => true,
        _ => false,
    }
}

/// The runtime status in a mode.
pub open spec fn spec_runtime_status(mode: CurrentMode) -> RuntimeStatus {
    match mode {
        CurrentMode::Online => RuntimeStatus { is_connected: true, mode: Some(RuntimeMode::Online), offline_reason: None },
        CurrentMode::Offline(reason) => RuntimeStatus {
            is_connected: false,
            mode: Some(RuntimeMode::Offline),
            offline_reason: Some(reason),
        },
        CurrentMode::Defunct(_) => RuntimeStatus { is_connected: false, mode: Some(RuntimeMode::Defunct), offline_reason: None },
    }
}

/// The runtime status reported in a mode.
pub fn runtime_status(mode: &CurrentMode) -> (r: RuntimeStatus)
    ensures
        r == spec_runtime_status(*mode),
{
    match mode {
        CurrentMode::Online => RuntimeStatus { is_connected: true, mode: Some(RuntimeMode::Online), offline_reason: None },
        CurrentMode::Offline(reason) => RuntimeStatus {
            is_connected: false,
            mode: Some(RuntimeMode::Offline),
            offline_reason: Some(*reason),
        },
        CurrentMode::Defunct(_) => RuntimeStatus { is_connected: false, mode: Some(RuntimeMode::Defunct), offline_reason: None },
    }
}

/// The event announced when going offline for a reason.
pub open spec fn spec_offline_event_kind(reason: CurrentModeOfflineReason) -> RuntimeEventKind {
    match reason {
        CurrentModeOfflineReason::WebsocketClosed => RuntimeEventKind::Closed,
        CurrentModeOfflineReason::WebsocketHeartbeatTimeout => RuntimeEventKind::HeartbeatTimeout,
        _ => RuntimeEventKind::Disconnected,
    }
}

/// The event announced when going offline for a reason.
pub fn offline_event_kind(reason: CurrentModeOfflineReason) -> (r: RuntimeEventKind)
    ensures
        r == spec_offline_event_kind(reason),
{
    match reason {
        CurrentModeOfflineReason::WebsocketClosed => RuntimeEventKind::Closed,
        CurrentModeOfflineReason::WebsocketHeartbeatTimeout => RuntimeEventKind::HeartbeatTimeout,
        _ => RuntimeEventKind::Disconnected,
    }
}

// ---------------------------------------------------------------------------
// Errors of the synchronisation

/// Why the connection is considered lost after a network error. The error
/// alone does not tell a lost internet connection from a server problem, so
/// every error counts as a websocket error.
pub fn classify_connectivity_error(error: &NetworkError) -> (r: CurrentModeOfflineReason)
    ensures
        r == CurrentModeOfflineReason::WebsocketError,
{
    match error {
        NetworkError::TungsteniteError { .. } => CurrentModeOfflineReason::WebsocketError,
        NetworkError::ContactToServerLost => CurrentModeOfflineReason::WebsocketError,
        _ => CurrentModeOfflineReason::WebsocketError,
    }
}

/// Whether the synchronisation keeps running after a network error (`Ok`),
/// or stops because the error will not go away (`Err`).
pub open spec fn spec_recoverable(error: NetworkError) -> Result<(), LiveError> {
    match error {
        NetworkError::UrlParseError(e) => Err(LiveError::UnrecoverableError(e)),
        NetworkError::InvalidHeaderValue(e) => Err(LiveError::UnrecoverableError(e)),
        NetworkError::CannotAcquireLock => Err(LiveError::CannotAcquireLock),
        NetworkError::WebsocketHttpStatus { status_code, message } => if 400 <= status_code < 500 && status_code != 429 {
            Err(LiveError::UnrecoverableError(message))
        } else {
            Ok(())
        },
        _ => Ok(()),
    }
}

/// Whether the synchronisation keeps running after a network error: client
/// errors of the server (4xx but 429), bad URLs and header values and lock
/// failures stop it.
pub fn recoverable_error(error: NetworkError) -> (r: Result<(), LiveError>)
    ensures
        r == spec_recoverable(error),
{
    match error {
        NetworkError::UrlParseError(e) => Err(LiveError::UnrecoverableError(e)),
        NetworkError::InvalidHeaderValue(e) => Err(LiveError::UnrecoverableError(e)),
        NetworkError::CannotAcquireLock => Err(LiveError::CannotAcquireLock),
        NetworkError::WebsocketHttpStatus { status_code, message } => {
            if 400 <= status_code && status_code < 500 && status_code != 429 {
                Err(LiveError::UnrecoverableError(message))
            } else {
                Ok(())
            }
        },
        _ => Ok(()),
    }
}

/// The reason to go offline with after a failed fetch of the configuration.
pub open spec fn spec_fetch_failure_reason(default: CurrentModeOfflineReason, classified: CurrentModeOfflineReason) -> CurrentModeOfflineReason {
    if default == CurrentModeOfflineReason::FailedToGetNewConfiguration {
        CurrentModeOfflineReason::FailedToGetNewConfiguration
    } else if classified == CurrentModeOfflineReason::InternetConnectivityError {
        CurrentModeOfflineReason::InternetConnectivityError
    } else {
        default
    }
}

/// What follows a failed fetch of the configuration: the synchronisation
/// stops on an unrecoverable error; otherwise, when the runtime state is to
/// be updated, the reason to go offline with.
pub fn fetch_failure(
    default_reason: CurrentModeOfflineReason,
    update_runtime_state: bool,
    error: NetworkError,
) -> (r: Result<Option<CurrentModeOfflineReason>, LiveError>)
    ensures
        match spec_recoverable(error) {
            Err(e) => r == Err::<Option<CurrentModeOfflineReason>, LiveError>(e),
            Ok(()) => r == Ok::<Option<CurrentModeOfflineReason>, LiveError>(
                if update_runtime_state {
                    Some(spec_fetch_failure_reason(default_reason, CurrentModeOfflineReason::WebsocketError))
                } else {
                    None
                },
            ),
        },
{
    let classified = classify_connectivity_error(&error);
    let reason = match default_reason {
        CurrentModeOfflineReason::FailedToGetNewConfiguration => CurrentModeOfflineReason::FailedToGetNewConfiguration,
        _ => match classified {
            CurrentModeOfflineReason::InternetConnectivityError => CurrentModeOfflineReason::InternetConnectivityError,
            _ => default_reason,
        },
    };
    recoverable_error(error)?;
    if update_runtime_state {
        Ok(Some(reason))
    } else {
        Ok(None)
    }
}

/// Indexes a configuration received from the server; a configuration that
/// cannot be indexed stops the synchronisation.
pub fn configuration_from_server(environment_id: &str, json: ConfigurationJson) -> (r: Result<Configuration, LiveError>)
    ensures
        exists|c: Result<Configuration, Error>| #[trigger] configuration_of(environment_id@, json, c) && match c {
            Ok(conf) => r == Ok::<Configuration, LiveError>(conf),
            Err(e) => r matches Err(LiveError::ThreadInternalError(m)) && m@ == "Failed to parse configuration: "@
                + error_message(e),
        },
{
    let ghost j = json;
    let c = Configuration::new(environment_id, json);
    let ghost cg = c;
    let r = match c {
        Ok(conf) => Ok(conf),
        Err(e) => {
            let mut m = String::from_str("Failed to parse configuration: ");
            let t = e.message();
            m.append(t.as_str());
            Err(LiveError::ThreadInternalError(m))
        },
    };
    assert(configuration_of(environment_id@, j, cg));
    r
}

} // verus!
