use vstd::prelude::*;
use vstd::string::*;

verus! {

/// Errors of the evaluation of an entity against targeting rules.
#[derive(Debug, Clone, PartialEq, Eq)]
pub enum SegmentEvaluationError {
    /// A targeting rule names a segment that the configuration does not hold.
    SegmentIdNotFound(String),
    /// A segment rule uses an operator this library does not know.
    UnknownOperator(String),
}

/// Wraps a [`SegmentEvaluationError`].
#[derive(Debug, Clone, PartialEq, Eq)]
pub struct EntityEvaluationError(pub SegmentEvaluationError);

/// Inconsistent configuration data.
#[derive(Debug, Clone, PartialEq, Eq)]
pub enum ConfigurationDataError {
    EnvironmentNotFound(String),
    FeatureNotFound(String),
    PropertyNotFound(String),
    MissingSegments(String),
}

/// Failure to access the shared configuration.
#[derive(Debug, Clone, PartialEq, Eq)]
pub enum ConfigurationAccessError {
    LockAcquisitionError,
}

/// Why the background synchronisation is offline.
#[derive(Debug, Clone, Copy, PartialEq, Eq, Structural)]
pub enum CurrentModeOfflineReason {
    LockError,
    FailedToGetNewConfiguration,
    Initializing,
    WebsocketClosed,
    WebsocketError,
    WebsocketHeartbeatTimeout,
    InternetConnectivityError,
    ConfigurationDataInvalid,
}

/// Errors of the live (server-synchronised) configuration.
#[derive(Debug, Clone, PartialEq, Eq)]
pub enum LiveError {
    CannotAcquireLock,
    Offline(CurrentModeOfflineReason),
    ThreadInternalError(String),
    UnrecoverableError(String),
    ConfigurationNotYetAvailable,
}

/// Wraps a [`LiveError`].
#[derive(Debug, Clone, PartialEq, Eq)]
pub struct LiveConfigurationError(pub LiveError);

/// Errors of the communication with the server, as far as the library's
/// decisions depend on them.
#[derive(Debug, Clone, PartialEq, Eq)]
pub enum NetworkError {
    /// An HTTP client failure.
    ReqwestError(String),
    /// A websocket failure; `os_error` is the operating-system error code of
    /// an underlying I/O error, where there is one.
    TungsteniteError { os_error: Option<i32>, message: String },
    ProtocolError,
    UrlParseError(String),
    InvalidHeaderValue(String),
    CannotAcquireLock,
    ContactToServerLost,
    ConfigurationDataError(ConfigurationDataError),
    WebsocketTimeout,
    TokenProviderError(String),
    WebsocketHttpStatus { status_code: u16, message: String },
    DeserializationError(String),
}

/// The errors of the library.
#[derive(Debug, Clone, PartialEq, Eq)]
pub enum Error {
    CannotAcquireLock,
    FeatureDoesNotExist { collection_id: String, environment_id: String, feature_id: String },
    PropertyDoesNotExist { collection_id: String, environment_id: String, property_id: String },
    MismatchType,
    ProtocolError(String),
    DeserializationError { string: String, source: String },
    ClientNotConfigured,
    ConfigurationAccessError(ConfigurationAccessError),
    ConfigurationDataError(ConfigurationDataError),
    EntityEvaluationError(EntityEvaluationError),
    NetworkError(NetworkError),
    LiveConfigurationError(LiveConfigurationError),
    MeteringError,
    SecretReferenceIdMissing { property_id: String },
    SecretProviderError { property_id: String, message: String },
    Other(String),
}

pub type Result<T> = core::result::Result<T, Error>;

/// The name of an offline reason, as it is displayed.
pub open spec fn offline_reason_name(r: CurrentModeOfflineReason) -> Seq<char> {
    match r {
        CurrentModeOfflineReason::LockError => "LockError"@,
        CurrentModeOfflineReason::FailedToGetNewConfiguration => "FailedToGetNewConfiguration"@,
        CurrentModeOfflineReason::Initializing => "Initializing"@,
        CurrentModeOfflineReason::WebsocketClosed => "WebsocketClosed"@,
        CurrentModeOfflineReason::WebsocketError => "WebsocketError"@,
        CurrentModeOfflineReason::WebsocketHeartbeatTimeout => "WebsocketHeartbeatTimeout"@,
        CurrentModeOfflineReason::InternetConnectivityError => "InternetConnectivityError"@,
        CurrentModeOfflineReason::ConfigurationDataInvalid => "ConfigurationDataInvalid"@,
    }
}

/// The message of a segment evaluation error.
pub open spec fn segment_error_message(e: SegmentEvaluationError) -> Seq<char> {
    match e {
        SegmentEvaluationError::SegmentIdNotFound(id) => "Segment '"@ + id@ + "' not found"@,
        SegmentEvaluationError::UnknownOperator(op) => "Operator '"@ + op@ + "' not implemented"@,
    }
}

/// The message of a configuration data error.
pub open spec fn data_error_message(e: ConfigurationDataError) -> Seq<char> {
    match e {
        ConfigurationDataError::EnvironmentNotFound(s) => "Environment '"@ + s@ + "' not found"@,
        ConfigurationDataError::FeatureNotFound(s) => "Feature `"@ + s@ + "` not found."@,
        ConfigurationDataError::PropertyNotFound(s) => "Property `"@ + s@ + "` not found."@,
        ConfigurationDataError::MissingSegments(s) => "Missing segments for resource '"@ + s@ + "'"@,
    }
}

/// The message of a network error.
pub open spec fn network_error_message(e: NetworkError) -> Seq<char> {
    match e {
        NetworkError::ReqwestError(m) => m@,
        NetworkError::TungsteniteError { message, .. } => message@,
        NetworkError::ProtocolError => "Protocol error. Unexpected data received from server"@,
        NetworkError::UrlParseError(s) => "Cannot parse '"@ + s@ + "' as URL"@,
        NetworkError::InvalidHeaderValue(s) => "Invalid header value for '"@ + s@ + "'"@,
        NetworkError::CannotAcquireLock => "Cannot acquire lock"@,
        NetworkError::ContactToServerLost => "Contact to server lost"@,
        NetworkError::ConfigurationDataError(d) => data_error_message(d),
        NetworkError::WebsocketTimeout => "Websocket timeout"@,
        NetworkError::TokenProviderError(m) => m@,
        NetworkError::WebsocketHttpStatus { message, .. } => message@,
        NetworkError::DeserializationError(m) => m@,
    }
}

/// The message of an error of the live configuration.
pub open spec fn live_error_message(e: LiveError) -> Seq<char> {
    match e {
        LiveError::CannotAcquireLock => "Cannot acquire lock"@,
        LiveError::Offline(r) => "Connection to server lost: "@ + offline_reason_name(r),
        LiveError::ThreadInternalError(m) => "Thread failed with internal error: "@ + m@,
        LiveError::UnrecoverableError(m) => m@,
        LiveError::ConfigurationNotYetAvailable => "Configuration is not yet available (try again later)"@,
    }
}

/// The message of an error, as it is displayed.
pub open spec fn error_message(e: Error) -> Seq<char> {
    match e {
        Error::CannotAcquireLock => "Cannot acquire snapshot lock"@,
        Error::FeatureDoesNotExist { collection_id, environment_id, feature_id } => "Feature '"@ + feature_id@
            + "' does not exist in environment '"@ + environment_id@ + "' and collection '"@ + collection_id@ + "'"@,
        Error::PropertyDoesNotExist { collection_id, environment_id, property_id } => "Property '"@
            + property_id@ + "' does not exist in environment '"@ + environment_id@ + "' and collection '"@
            + collection_id@ + "'"@,
        Error::MismatchType => "Inner type cannot be converted to requested type"@,
        Error::ProtocolError(_) => "Protocol error. Unexpected data received from server"@,
        Error::DeserializationError { string, source } => "Cannot deserialize string '"@ + string@ + "': "@ + source@,
        Error::ClientNotConfigured => "Client is not configured"@,
        Error::ConfigurationAccessError(_) => "Error acquiring index cache lock"@,
        Error::ConfigurationDataError(d) => data_error_message(d),
        Error::EntityEvaluationError(EntityEvaluationError(s)) => "Failed to evaluate entity: "@ + segment_error_message(s),
        Error::NetworkError(n) => network_error_message(n),
        Error::LiveConfigurationError(LiveConfigurationError(l)) => live_error_message(l),
        Error::MeteringError => "Failed to record evaluation event for metering"@,
        Error::SecretReferenceIdMissing { property_id } => "Secret reference id missing for property '"@ + property_id@
            + "'"@,
        Error::SecretProviderError { property_id, message } => "Secret provider failed for property '"@ + property_id@
            + "': "@ + message@,
        Error::Other(m) => m@,
    }
}

fn prefixed(before: &str, s: &String) -> (r: String)
    ensures
        r@ == before@ + s@,
{
    let mut r = String::from_str(before);
    r.append(s.as_str());
    r
}

fn quoted(before: &str, s: &String, after: &str) -> (r: String)
    ensures
        r@ == before@ + s@ + after@,
{
    let mut r = String::from_str(before);
    r.append(s.as_str());
    r.append(after);
    r
}

impl CurrentModeOfflineReason {
    /// The name of the reason, as it is displayed.
    pub fn name(&self) -> (r: String)
        ensures
            r@ == offline_reason_name(*self),
    {
        match self {
            CurrentModeOfflineReason::LockError => String::from_str("LockError"),
            CurrentModeOfflineReason::FailedToGetNewConfiguration => String::from_str("FailedToGetNewConfiguration"),
            CurrentModeOfflineReason::Initializing => String::from_str("Initializing"),
            CurrentModeOfflineReason::WebsocketClosed => String::from_str("WebsocketClosed"),
            CurrentModeOfflineReason::WebsocketError => String::from_str("WebsocketError"),
            CurrentModeOfflineReason::WebsocketHeartbeatTimeout => String::from_str("WebsocketHeartbeatTimeout"),
            CurrentModeOfflineReason::InternetConnectivityError => String::from_str("InternetConnectivityError"),
            CurrentModeOfflineReason::ConfigurationDataInvalid => String::from_str("ConfigurationDataInvalid"),
        }
    }
}

impl SegmentEvaluationError {
    /// The message of the error.
    pub fn message(&self) -> (r: String)
        ensures
            r@ == segment_error_message(*self),
    {
        match self {
            SegmentEvaluationError::SegmentIdNotFound(id) => quoted("Segment '", id, "' not found"),
            SegmentEvaluationError::UnknownOperator(op) => quoted("Operator '", op, "' not implemented"),
        }
    }
}

impl ConfigurationDataError {
    /// The message of the error.
    pub fn message(&self) -> (r: String)
        ensures
            r@ == data_error_message(*self),
    {
        match self {
            ConfigurationDataError::EnvironmentNotFound(s) => quoted("Environment '", s, "' not found"),
            ConfigurationDataError::FeatureNotFound(s) => quoted("Feature `", s, "` not found."),
            ConfigurationDataError::PropertyNotFound(s) => quoted("Property `", s, "` not found."),
            ConfigurationDataError::MissingSegments(s) => quoted("Missing segments for resource '", s, "'"),
        }
    }
}

impl NetworkError {
    /// The message of the error.
    pub fn message(&self) -> (r: String)
        ensures
            r@ == network_error_message(*self),
    {
        match self {
            NetworkError::ReqwestError(m) => m.clone(),
            NetworkError::TungsteniteError { message, .. } => message.clone(),
            NetworkError::ProtocolError => String::from_str("Protocol error. Unexpected data received from server"),
            NetworkError::UrlParseError(s) => quoted("Cannot parse '", s, "' as URL"),
            NetworkError::InvalidHeaderValue(s) => quoted("Invalid header value for '", s, "'"),
            NetworkError::CannotAcquireLock => String::from_str("Cannot acquire lock"),
            NetworkError::ContactToServerLost => String::from_str("Contact to server lost"),
            NetworkError::ConfigurationDataError(d) => d.message(),
            NetworkError::WebsocketTimeout => String::from_str("Websocket timeout"),
            NetworkError::TokenProviderError(m) => m.clone(),
            NetworkError::WebsocketHttpStatus { message, .. } => message.clone(),
            NetworkError::DeserializationError(m) => m.clone(),
        }
    }
}

impl LiveError {
    /// The message of the error.
    pub fn message(&self) -> (r: String)
        ensures
            r@ == live_error_message(*self),
    {
        match self {
            LiveError::CannotAcquireLock => String::from_str("Cannot acquire lock"),
            LiveError::Offline(reason) => {
                let mut r = String::from_str("Connection to server lost: ");
                let n = reason.name();
                r.append(n.as_str());
                r
            },
            LiveError::ThreadInternalError(m) => prefixed("Thread failed with internal error: ", m),
            LiveError::UnrecoverableError(m) => m.clone(),
            LiveError::ConfigurationNotYetAvailable => String::from_str(
                "Configuration is not yet available (try again later)",
            ),
        }
    }
}

impl Error {
    /// The message of the error, as it is displayed.
    pub fn message(&self) -> (r: String)
        ensures
            r@ == error_message(*self),
    {
        match self {
            Error::CannotAcquireLock => String::from_str("Cannot acquire snapshot lock"),
            Error::FeatureDoesNotExist { collection_id, environment_id, feature_id } => {
                let mut r = quoted("Feature '", feature_id, "' does not exist in environment '");
                r.append(environment_id.as_str());
                r.append("' and collection '");
                r.append(collection_id.as_str());
                r.append("'");
                r
            },
            Error::PropertyDoesNotExist { collection_id, environment_id, property_id } => {
                let mut r = quoted("Property '", property_id, "' does not exist in environment '");
                r.append(environment_id.as_str());
                r.append("' and collection '");
                r.append(collection_id.as_str());
                r.append("'");
                r
            },
            Error::MismatchType => String::from_str("Inner type cannot be converted to requested type"),
            Error::ProtocolError(_) => String::from_str("Protocol error. Unexpected data received from server"),
            Error::DeserializationError { string, source } => {
                let mut r = quoted("Cannot deserialize string '", string, "': ");
                r.append(source.as_str());
                r
            },
            Error::ClientNotConfigured => String::from_str("Client is not configured"),
            Error::ConfigurationAccessError(_) => String::from_str("Error acquiring index cache lock"),
            Error::ConfigurationDataError(d) => d.message(),
            Error::EntityEvaluationError(EntityEvaluationError(s)) => {
                let m = s.message();
                prefixed("Failed to evaluate entity: ", &m)
            },
            Error::NetworkError(n) => n.message(),
            Error::LiveConfigurationError(LiveConfigurationError(l)) => l.message(),
            Error::MeteringError => String::from_str("Failed to record evaluation event for metering"),
            Error::SecretReferenceIdMissing { property_id } => quoted(
                "Secret reference id missing for property '",
                property_id,
                "'",
            ),
            Error::SecretProviderError { property_id, message } => {
                let mut r = quoted("Secret provider failed for property '", property_id, "': ");
                r.append(message.as_str());
                r
            },
            Error::Other(m) => m.clone(),
        }
    }
}

} // verus!
