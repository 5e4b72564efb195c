//! Errors of the Pusher client.
use vstd::prelude::*;

use crate::text::IntoText;

verus! {

/// Specific errors that can occur when interacting with the Pusher API.
///
/// Every variant carries the text that describes the failure; errors that
/// come from a transport or a parser carry that component's own description.
#[derive(Debug, Clone)]
pub enum PusherError {
    /// An HTTP request failed; holds the transport's description.
    HttpError(String),
    /// The websocket transport failed.
    WebSocketError(String),
    /// Text that should be JSON was not; holds the parser's description.
    JsonError(String),
    /// An I/O operation failed.
    IoError(String),
    /// A URL could not be parsed; holds the parser's description.
    UrlParseError(String),
    /// Signing or authenticating failed.
    AuthError(String),
    /// A channel operation was refused.
    ChannelError(String),
    /// An event was refused.
    EventError(String),
    /// The client is not connected, or the connection failed.
    ConnectionError(String),
    /// The configuration is unusable.
    ConfigError(String),
    /// The service refused the request for its rate.
    RateLimitError(String),
    /// Encrypting a payload failed.
    EncryptionError(String),
    /// Decrypting a payload failed.
    DecryptionError(String),
    /// Presence data was malformed.
    PresenceDataError(String),
    /// The REST API answered with a failure status.
    ApiError(String),
    /// An operation timed out.
    TimeoutError(String),
    /// Any other failure.
    UnknownError(String),
}

/// A specialized Result type for Pusher operations.
pub type PusherResult<T> = Result<T, PusherError>;

impl PusherError {
    /// The text carried by the error.
    pub open spec fn detail(&self) -> Seq<char> {
        match self {
            PusherError::HttpError(m) => m@,
            PusherError::WebSocketError(m) => m@,
            PusherError::JsonError(m) => m@,
            PusherError::IoError(m) => m@,
            PusherError::UrlParseError(m) => m@,
            PusherError::AuthError(m) => m@,
            PusherError::ChannelError(m) => m@,
            PusherError::EventError(m) => m@,
            PusherError::ConnectionError(m) => m@,
            PusherError::ConfigError(m) => m@,
            PusherError::RateLimitError(m) => m@,
            PusherError::EncryptionError(m) => m@,
            PusherError::DecryptionError(m) => m@,
            PusherError::PresenceDataError(m) => m@,
            PusherError::ApiError(m) => m@,
            PusherError::TimeoutError(m) => m@,
            PusherError::UnknownError(m) => m@,
        }
    }

    /// The text that names the kind of the error in its display form.
    pub open spec fn label(&self) -> Seq<char> {
        match self {
            PusherError::HttpError(_) => "HTTP error: "@,
            PusherError::WebSocketError(_) => "WebSocket error: "@,
            PusherError::JsonError(_) => "JSON error: "@,
            PusherError::IoError(_) => "I/O error: "@,
            PusherError::UrlParseError(_) => "URL parse error: "@,
            PusherError::AuthError(_) => "Authentication error: "@,
            PusherError::ChannelError(_) => "Channel error: "@,
            PusherError::EventError(_) => "Event error: "@,
            PusherError::ConnectionError(_) => "Connection error: "@,
            PusherError::ConfigError(_) => "Configuration error: "@,
            PusherError::RateLimitError(_) => "Rate limit error: "@,
            PusherError::EncryptionError(_) => "Encryption error: "@,
            PusherError::DecryptionError(_) => "Decryption error: "@,
            PusherError::PresenceDataError(_) => "Presence data error: "@,
            PusherError::ApiError(_) => "API error: "@,
            PusherError::TimeoutError(_) => "Timeout error: "@,
            PusherError::UnknownError(_) => "Unknown error: "@,
        }
    }

    /// The error's display form: its label, then its text.
    pub open spec fn display(&self) -> Seq<char> {
        self.label() + self.detail()
    }

    /// The error's display form, such as `Authentication error: Invalid credentials`.
    pub fn to_string(&self) -> (s: String)
        ensures
            s@ == self.display(),
    {
        proof {
            reveal_strlit("HTTP error: ");
            reveal_strlit("WebSocket error: ");
            reveal_strlit("JSON error: ");
            reveal_strlit("I/O error: ");
            reveal_strlit("URL parse error: ");
            reveal_strlit("Authentication error: ");
            reveal_strlit("Channel error: ");
            reveal_strlit("Event error: ");
            reveal_strlit("Connection error: ");
            reveal_strlit("Configuration error: ");
            reveal_strlit("Rate limit error: ");
            reveal_strlit("Encryption error: ");
            reveal_strlit("Decryption error: ");
            reveal_strlit("Presence data error: ");
            reveal_strlit("API error: ");
            reveal_strlit("Timeout error: ");
            reveal_strlit("Unknown error: ");
        }
        match self {
            PusherError::HttpError(m) => String::from_str("HTTP error: ").concat(m.as_str()),
            PusherError::WebSocketError(m) => String::from_str("WebSocket error: ").concat(m.as_str()),
            PusherError::JsonError(m) => String::from_str("JSON error: ").concat(m.as_str()),
            PusherError::IoError(m) => String::from_str("I/O error: ").concat(m.as_str()),
            PusherError::UrlParseError(m) => String::from_str("URL parse error: ").concat(m.as_str()),
            PusherError::AuthError(m) => String::from_str("Authentication error: ").concat(m.as_str()),
            PusherError::ChannelError(m) => String::from_str("Channel error: ").concat(m.as_str()),
            PusherError::EventError(m) => String::from_str("Event error: ").concat(m.as_str()),
            PusherError::ConnectionError(m) => String::from_str("Connection error: ").concat(m.as_str()),
            PusherError::ConfigError(m) => String::from_str("Configuration error: ").concat(m.as_str()),
            PusherError::RateLimitError(m) => String::from_str("Rate limit error: ").concat(m.as_str()),
            PusherError::EncryptionError(m) => String::from_str("Encryption error: ").concat(m.as_str()),
            PusherError::DecryptionError(m) => String::from_str("Decryption error: ").concat(m.as_str()),
            PusherError::PresenceDataError(m) => String::from_str("Presence data error: ").concat(m.as_str()),
            PusherError::ApiError(m) => String::from_str("API error: ").concat(m.as_str()),
            PusherError::TimeoutError(m) => String::from_str("Timeout error: ").concat(m.as_str()),
            PusherError::UnknownError(m) => String::from_str("Unknown error: ").concat(m.as_str()),
        }
    }
}

impl From<String> for PusherError {
    fn from(error: String) -> (e: Self) {
        PusherError::UnknownError(error)
    }
}

impl vstd::std_specs::convert::FromSpecImpl<String> for PusherError {
    open spec fn obeys_from_spec() -> bool {
        true
    }

    open spec fn from_spec(v: String) -> Self {
        PusherError::UnknownError(v)
    }
}

/// Builds an `UnknownError` from any text; `PusherError::from` on a string
/// slice gives the same error.
pub fn unknown_error(message: impl IntoText) -> (e: PusherError)
    ensures
        e is UnknownError && e.detail() == message.text_view(),
{
    PusherError::UnknownError(message.into_text())
}

impl<'a> From<&'a str> for PusherError {
    fn from(error: &'a str) -> (e: Self) {
        unknown_error(error)
    }
}

/// A `String` is known here only through its characters, so the error that
/// `from` builds out of a string slice cannot be written as a spec value;
/// `unknown_error` states what that conversion produces.
impl<'a> vstd::std_specs::convert::FromSpecImpl<&'a str> for PusherError {
    open spec fn obeys_from_spec() -> bool {
        false
    }

    open spec fn from_spec(v: &'a str) -> Self {
        choose|e: PusherError| e is UnknownError && e.detail() == v@
    }
}

/// Builds a `AuthError` carrying `message`.
pub fn auth_error(message: impl IntoText) -> (e: PusherError)
    ensures
        e is AuthError && e.detail() == message.text_view(),
{
    PusherError::AuthError(message.into_text())
}

/// Builds a `ChannelError` carrying `message`.
pub fn channel_error(message: impl IntoText) -> (e: PusherError)
    ensures
        e is ChannelError && e.detail() == message.text_view(),
{
    PusherError::ChannelError(message.into_text())
}

/// Builds a `EventError` carrying `message`.
pub fn event_error(message: impl IntoText) -> (e: PusherError)
    ensures
        e is EventError && e.detail() == message.text_view(),
{
    PusherError::EventError(message.into_text())
}

/// Builds a `ConnectionError` carrying `message`.
pub fn connection_error(message: impl IntoText) -> (e: PusherError)
    ensures
        e is ConnectionError && e.detail() == message.text_view(),
{
    PusherError::ConnectionError(message.into_text())
}

/// Builds a `ConfigError` carrying `message`.
pub fn config_error(message: impl IntoText) -> (e: PusherError)
    ensures
        e is ConfigError && e.detail() == message.text_view(),
{
    PusherError::ConfigError(message.into_text())
}

/// Builds a `RateLimitError` carrying `message`.
pub fn rate_limit_error(message: impl IntoText) -> (e: PusherError)
    ensures
        e is RateLimitError && e.detail() == message.text_view(),
{
    PusherError::RateLimitError(message.into_text())
}

/// Builds a `EncryptionError` carrying `message`.
pub fn encryption_error(message: impl IntoText) -> (e: PusherError)
    ensures
        e is EncryptionError && e.detail() == message.text_view(),
{
    PusherError::EncryptionError(message.into_text())
}

/// Builds a `DecryptionError` carrying `message`.
pub fn decryption_error(message: impl IntoText) -> (e: PusherError)
    ensures
        e is DecryptionError && e.detail() == message.text_view(),
{
    PusherError::DecryptionError(message.into_text())
}

/// Builds a `PresenceDataError` carrying `message`.
pub fn presence_data_error(message: impl IntoText) -> (e: PusherError)
    ensures
        e is PresenceDataError && e.detail() == message.text_view(),
{
    PusherError::PresenceDataError(message.into_text())
}

/// Builds a `ApiError` carrying `message`.
pub fn api_error(message: impl IntoText) -> (e: PusherError)
    ensures
        e is ApiError && e.detail() == message.text_view(),
{
    PusherError::ApiError(message.into_text())
}

/// Builds a `TimeoutError` carrying `message`.
pub fn timeout_error(message: impl IntoText) -> (e: PusherError)
    ensures
        e is TimeoutError && e.detail() == message.text_view(),
{
    PusherError::TimeoutError(message.into_text())
}

} // verus!
