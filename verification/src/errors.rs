//! Classification of transport-level failures along two axes: the domain an
//! error originated in, and how a caller should retry.  The classification
//! itself is ordinary logic over the variant of the failure; reading the
//! variant out of the transport library's error values is the only part taken
//! on trust.

use vstd::prelude::*;

use steam_vent::ConnectionError;
use steam_vent::LoginError;
use steam_vent::NetworkError;

verus! {

/// How callers should react to a failure when retrying an operation.
#[derive(Debug, Clone, Copy, PartialEq, Eq, Structural)]
pub enum RetryDisposition {
    /// Safe to retry immediately without backoff.
    ImmediateRetry,
    /// Retry is possible but should be delayed or backed off.
    BackoffRetry,
    /// The caller should prompt the user to re-authenticate.
    Reauthenticate,
    /// Retrying would not help; escalate to the caller.
    Fatal,
}

/// The high-level component an error originated in.
#[derive(Debug, Clone, Copy, PartialEq, Eq, Structural)]
pub enum ErrorDomain {
    /// Authentication or authorization.
    Authentication,
    /// The network transport layer.
    Transport,
    /// Application-level logic.
    Application,
    /// Could not be determined.
    Unknown,
}

/// How an upstream error should be treated.
#[derive(Debug, Clone, Copy, PartialEq, Eq)]
pub struct ErrorInventoryEntry {
    /// The domain the error originated in.
    pub domain: ErrorDomain,
    /// How the caller should handle retrying.
    pub disposition: RetryDisposition,
    /// A short human-readable description.
    pub description: &'static str,
}

/// Mathematical model of an inventory entry.
#[verifier::ext_equal]
pub struct ErrorInventoryModel {
    pub domain: ErrorDomain,
    pub disposition: RetryDisposition,
    pub description: Seq<char>,
}

impl View for ErrorInventoryEntry {
    type V = ErrorInventoryModel;

    open spec fn view(&self) -> ErrorInventoryModel {
        ErrorInventoryModel {
            domain: self.domain,
            disposition: self.disposition,
            description: self.description@,
        }
    }
}

impl ErrorInventoryEntry {
    /// Create an inventory entry.
    pub fn new(
        domain: ErrorDomain,
        disposition: RetryDisposition,
        description: &'static str,
    ) -> (r: ErrorInventoryEntry)
        ensures
            r.domain == domain,
            r.disposition == disposition,
            r.description@ == description@,
    {
        Self { domain, disposition, description }
    }
}

/// The variant of a transport-level network failure, as plain data.
#[derive(Debug, Clone, Copy, PartialEq, Eq, Structural)]
pub enum NetworkErrorKind {
    Io,
    Ws,
    InvalidHeader,
    InvalidMessageKind,
    CryptoHandshakeFailed,
    DifferentMessage,
    DifferentServiceMethod,
    MalformedBody,
    CryptoError,
    Eof,
    Timeout,
    /// A backend error code, carried as its numeric value.
    ApiError(i32),
    Other,
}

/// The variant of a login failure, as plain data.
#[derive(Debug, Clone, Copy, PartialEq, Eq, Structural)]
pub enum LoginErrorKind {
    InvalidCredentials,
    Unknown,
    SteamGuardRequired,
    InvalidPubKey,
    UnavailableAccount,
    RateLimited,
    InvalidSteamId,
    Other,
}

/// The variant of a top-level connection failure, as plain data.
#[derive(Debug, Clone, Copy, PartialEq, Eq, Structural)]
pub enum ConnectionErrorKind {
    AccessToken,
    Network(NetworkErrorKind),
    Login(LoginErrorKind),
    Aborted,
    UnsupportedConfirmationAction,
    Other,
}

/// The classification of a backend error code.
pub open spec fn spec_classify_api_code(code: i32) -> ErrorInventoryModel {
    if code == 16 {
        ErrorInventoryModel {
            domain: ErrorDomain::Transport,
            disposition: RetryDisposition::ImmediateRetry,
            description: "steam backend timeout"@,
        }
    } else if code == 1 {
        ErrorInventoryModel {
            domain: ErrorDomain::Unknown,
            disposition: RetryDisposition::Fatal,
            description: "unexpected OK error code"@,
        }
    } else if code == 84 || code == 96 || code == 25 || code == 95 {
        ErrorInventoryModel {
            domain: ErrorDomain::Transport,
            disposition: RetryDisposition::BackoffRetry,
            description: "rate limited by Steam"@,
        }
    } else if code == 5 || code == 43 || code == 73 || code == 114 || code == 18 {
        ErrorInventoryModel {
            domain: ErrorDomain::Authentication,
            disposition: RetryDisposition::Fatal,
            description: "invalid credentials"@,
        }
    } else if code == 85 {
        ErrorInventoryModel {
            domain: ErrorDomain::Authentication,
            disposition: RetryDisposition::Reauthenticate,
            description: "two-factor authentication required"@,
        }
    } else {
        ErrorInventoryModel {
            domain: ErrorDomain::Unknown,
            disposition: RetryDisposition::BackoffRetry,
            description: "unmapped Steam error code"@,
        }
    }
}

/// The classification of a network failure.
pub open spec fn spec_classify_network_kind(kind: NetworkErrorKind) -> ErrorInventoryModel {
    match kind {
        NetworkErrorKind::Timeout => ErrorInventoryModel {
            domain: ErrorDomain::Transport,
            disposition: RetryDisposition::ImmediateRetry,
            description: "request timed out"@,
        },
        NetworkErrorKind::Eof | NetworkErrorKind::Io | NetworkErrorKind::Ws
            => ErrorInventoryModel {
            domain: ErrorDomain::Transport,
            disposition: RetryDisposition::BackoffRetry,
            description: "transport dropped connection"@,
        },
        NetworkErrorKind::DifferentMessage | NetworkErrorKind::DifferentServiceMethod
            | NetworkErrorKind::InvalidHeader | NetworkErrorKind::InvalidMessageKind
            => ErrorInventoryModel {
            domain: ErrorDomain::Transport,
            disposition: RetryDisposition::Fatal,
            description: "protocol mismatch"@,
        },
        NetworkErrorKind::ApiError(code) => spec_classify_api_code(code),
        NetworkErrorKind::CryptoHandshakeFailed | NetworkErrorKind::CryptoError
            => ErrorInventoryModel {
            domain: ErrorDomain::Transport,
            disposition: RetryDisposition::BackoffRetry,
            description: "crypto handshake failure"@,
        },
        NetworkErrorKind::MalformedBody => ErrorInventoryModel {
            domain: ErrorDomain::Application,
            disposition: RetryDisposition::Fatal,
            description: "malformed response payload"@,
        },
        NetworkErrorKind::Other => ErrorInventoryModel {
            domain: ErrorDomain::Unknown,
            disposition: RetryDisposition::BackoffRetry,
            description: "unclassified network error"@,
        },
    }
}

/// The classification of a login failure.
pub open spec fn spec_classify_login_kind(kind: LoginErrorKind) -> ErrorInventoryModel {
    match kind {
        LoginErrorKind::InvalidCredentials | LoginErrorKind::InvalidSteamId
            => ErrorInventoryModel {
            domain: ErrorDomain::Authentication,
            disposition: RetryDisposition::Fatal,
            description: "invalid credentials"@,
        },
        LoginErrorKind::SteamGuardRequired => ErrorInventoryModel {
            domain: ErrorDomain::Authentication,
            disposition: RetryDisposition::Reauthenticate,
            description: "additional confirmation required"@,
        },
        LoginErrorKind::RateLimited => ErrorInventoryModel {
            domain: ErrorDomain::Transport,
            disposition: RetryDisposition::BackoffRetry,
            description: "rate limited by Steam"@,
        },
        LoginErrorKind::UnavailableAccount => ErrorInventoryModel {
            domain: ErrorDomain::Authentication,
            disposition: RetryDisposition::Fatal,
            description: "account unavailable"@,
        },
        LoginErrorKind::InvalidPubKey => ErrorInventoryModel {
            domain: ErrorDomain::Transport,
            disposition: RetryDisposition::BackoffRetry,
            description: "invalid public key during login"@,
        },
        LoginErrorKind::Unknown => ErrorInventoryModel {
            domain: ErrorDomain::Unknown,
            disposition: RetryDisposition::BackoffRetry,
            description: "unknown login failure"@,
        },
        LoginErrorKind::Other => ErrorInventoryModel {
            domain: ErrorDomain::Unknown,
            disposition: RetryDisposition::BackoffRetry,
            description: "unclassified login error"@,
        },
    }
}

/// The classification of a connection failure.
pub open spec fn spec_classify_connection_kind(kind: ConnectionErrorKind) -> ErrorInventoryModel {
    match kind {
        ConnectionErrorKind::AccessToken => ErrorInventoryModel {
            domain: ErrorDomain::Authentication,
            disposition: RetryDisposition::Reauthenticate,
            description: "stale or invalid access token"@,
        },
        ConnectionErrorKind::Network(net) => spec_classify_network_kind(net),
        ConnectionErrorKind::Login(login) => spec_classify_login_kind(login),
        ConnectionErrorKind::Aborted => ErrorInventoryModel {
            domain: ErrorDomain::Transport,
            disposition: RetryDisposition::Fatal,
            description: "operation aborted by client"@,
        },
        ConnectionErrorKind::UnsupportedConfirmationAction => ErrorInventoryModel {
            domain: ErrorDomain::Authentication,
            disposition: RetryDisposition::Reauthenticate,
            description: "two-factor confirmation required"@,
        },
        ConnectionErrorKind::Other => ErrorInventoryModel {
            domain: ErrorDomain::Unknown,
            disposition: RetryDisposition::BackoffRetry,
            description: "unclassified connection error"@,
        },
    }
}

/// Classify a backend error code into a retry strategy.
pub fn classify_api_error(code: i32) -> (r: ErrorInventoryEntry)
    ensures
        r@ == spec_classify_api_code(code),
{
    if code == 16 {
        ErrorInventoryEntry::new(
            ErrorDomain::Transport,
            RetryDisposition::ImmediateRetry,
            "steam backend timeout",
        )
    } else if code == 1 {
        ErrorInventoryEntry::new(
            ErrorDomain::Unknown,
            RetryDisposition::Fatal,
            "unexpected OK error code",
        )
    } else if code == 84 || code == 96 || code == 25 || code == 95 {
        ErrorInventoryEntry::new(
            ErrorDomain::Transport,
            RetryDisposition::BackoffRetry,
            "rate limited by Steam",
        )
    } else if code == 5 || code == 43 || code == 73 || code == 114 || code == 18 {
        ErrorInventoryEntry::new(
            ErrorDomain::Authentication,
            RetryDisposition::Fatal,
            "invalid credentials",
        )
    } else if code == 85 {
        ErrorInventoryEntry::new(
            ErrorDomain::Authentication,
            RetryDisposition::Reauthenticate,
            "two-factor authentication required",
        )
    } else {
        ErrorInventoryEntry::new(
            ErrorDomain::Unknown,
            RetryDisposition::BackoffRetry,
            "unmapped Steam error code",
        )
    }
}

/// Classify a network failure by its variant.
pub fn classify_network_kind(kind: &NetworkErrorKind) -> (r: ErrorInventoryEntry)
    ensures
        r@ == spec_classify_network_kind(*kind),
{
    match kind {
        NetworkErrorKind::Timeout => ErrorInventoryEntry::new(
            ErrorDomain::Transport,
            RetryDisposition::ImmediateRetry,
            "request timed out",
        ),
        NetworkErrorKind::Eof | NetworkErrorKind::Io | NetworkErrorKind::Ws
            => ErrorInventoryEntry::new(
            ErrorDomain::Transport,
            RetryDisposition::BackoffRetry,
            "transport dropped connection",
        ),
        NetworkErrorKind::DifferentMessage | NetworkErrorKind::DifferentServiceMethod
            | NetworkErrorKind::InvalidHeader | NetworkErrorKind::InvalidMessageKind
            => ErrorInventoryEntry::new(
            ErrorDomain::Transport,
            RetryDisposition::Fatal,
            "protocol mismatch",
        ),
        NetworkErrorKind::ApiError(code) => classify_api_error(*code),
        NetworkErrorKind::CryptoHandshakeFailed | NetworkErrorKind::CryptoError
            => ErrorInventoryEntry::new(
            ErrorDomain::Transport,
            RetryDisposition::BackoffRetry,
            "crypto handshake failure",
        ),
        NetworkErrorKind::MalformedBody => ErrorInventoryEntry::new(
            ErrorDomain::Application,
            RetryDisposition::Fatal,
            "malformed response payload",
        ),
        NetworkErrorKind::Other => ErrorInventoryEntry::new(
            ErrorDomain::Unknown,
            RetryDisposition::BackoffRetry,
            "unclassified network error",
        ),
    }
}

/// Classify a login failure by its variant.
pub fn classify_login_kind(kind: &LoginErrorKind) -> (r: ErrorInventoryEntry)
    ensures
        r@ == spec_classify_login_kind(*kind),
{
    match kind {
        LoginErrorKind::InvalidCredentials | LoginErrorKind::InvalidSteamId
            => ErrorInventoryEntry::new(
            ErrorDomain::Authentication,
            RetryDisposition::Fatal,
            "invalid credentials",
        ),
        LoginErrorKind::SteamGuardRequired => ErrorInventoryEntry::new(
            ErrorDomain::Authentication,
            RetryDisposition::Reauthenticate,
            "additional confirmation required",
        ),
        LoginErrorKind::RateLimited => ErrorInventoryEntry::new(
            ErrorDomain::Transport,
            RetryDisposition::BackoffRetry,
            "rate limited by Steam",
        ),
        LoginErrorKind::UnavailableAccount => ErrorInventoryEntry::new(
            ErrorDomain::Authentication,
            RetryDisposition::Fatal,
            "account unavailable",
        ),
        LoginErrorKind::InvalidPubKey => ErrorInventoryEntry::new(
            ErrorDomain::Transport,
            RetryDisposition::BackoffRetry,
            "invalid public key during login",
        ),
        LoginErrorKind::Unknown => ErrorInventoryEntry::new(
            ErrorDomain::Unknown,
            RetryDisposition::BackoffRetry,
            "unknown login failure",
        ),
        LoginErrorKind::Other => ErrorInventoryEntry::new(
            ErrorDomain::Unknown,
            RetryDisposition::BackoffRetry,
            "unclassified login error",
        ),
    }
}

/// Classify a connection failure by its variant.
pub fn classify_connection_kind(kind: &ConnectionErrorKind) -> (r: ErrorInventoryEntry)
    ensures
        r@ == spec_classify_connection_kind(*kind),
{
    match kind {
        ConnectionErrorKind::AccessToken => ErrorInventoryEntry::new(
            ErrorDomain::Authentication,
            RetryDisposition::Reauthenticate,
            "stale or invalid access token",
        ),
        ConnectionErrorKind::Network(net) => classify_network_kind(net),
        ConnectionErrorKind::Login(login) => classify_login_kind(login),
        ConnectionErrorKind::Aborted => ErrorInventoryEntry::new(
            ErrorDomain::Transport,
            RetryDisposition::Fatal,
            "operation aborted by client",
        ),
        ConnectionErrorKind::UnsupportedConfirmationAction => ErrorInventoryEntry::new(
            ErrorDomain::Authentication,
            RetryDisposition::Reauthenticate,
            "two-factor confirmation required",
        ),
        ConnectionErrorKind::Other => ErrorInventoryEntry::new(
            ErrorDomain::Unknown,
            RetryDisposition::BackoffRetry,
            "unclassified connection error",
        ),
    }
}

#[verifier::external_type_specification]
#[verifier::external_body]
pub struct ExNetworkError(NetworkError);

#[verifier::external_type_specification]
#[verifier::external_body]
pub struct ExLoginError(LoginError);

#[verifier::external_type_specification]
#[verifier::external_body]
pub struct ExConnectionError(ConnectionError);

/// Relies on the variant structure of `steam_vent::NetworkError`: each arm
/// carries one variant over to its kind, with a backend error's code kept as
/// its numeric value.
#[verifier::external_body]
fn network_error_kind(err: &NetworkError) -> (k: NetworkErrorKind) {
    match err {
        NetworkError::IO(_) => NetworkErrorKind::Io,
        NetworkError::Ws(_) => NetworkErrorKind::Ws,
        NetworkError::InvalidHeader => NetworkErrorKind::InvalidHeader,
        NetworkError::InvalidMessageKind(_) => NetworkErrorKind::InvalidMessageKind,
        NetworkError::CryptoHandshakeFailed => NetworkErrorKind::CryptoHandshakeFailed,
        NetworkError::DifferentMessage(_, _) => NetworkErrorKind::DifferentMessage,
        NetworkError::DifferentServiceMethod(_, _) => NetworkErrorKind::DifferentServiceMethod,
        NetworkError::MalformedBody(_) => NetworkErrorKind::MalformedBody,
        NetworkError::CryptoError(_) => NetworkErrorKind::CryptoError,
        NetworkError::EOF => NetworkErrorKind::Eof,
        NetworkError::Timeout => NetworkErrorKind::Timeout,
        NetworkError::ApiError(code) => NetworkErrorKind::ApiError(*code as i32),
        _ => NetworkErrorKind::Other,
    }
}

/// Relies on the variant structure of `steam_vent::LoginError`: each arm
/// carries one variant over to its kind.
#[verifier::external_body]
fn login_error_kind(err: &LoginError) -> (k: LoginErrorKind) {
    match err {
        LoginError::InvalidCredentials => LoginErrorKind::InvalidCredentials,
        LoginError::Unknown(_) => LoginErrorKind::Unknown,
        LoginError::SteamGuardRequired => LoginErrorKind::SteamGuardRequired,
        LoginError::InvalidPubKey(_) => LoginErrorKind::InvalidPubKey,
        LoginError::UnavailableAccount => LoginErrorKind::UnavailableAccount,
        LoginError::RateLimited => LoginErrorKind::RateLimited,
        LoginError::InvalidSteamId => LoginErrorKind::InvalidSteamId,
        _ => LoginErrorKind::Other,
    }
}

/// Relies on the variant structure of `steam_vent::ConnectionError`: each arm
/// carries one variant over to its kind, nested failures through their own
/// kind conversions.
#[verifier::external_body]
fn connection_error_kind(err: &ConnectionError) -> (k: ConnectionErrorKind) {
    match err {
        ConnectionError::AccessToken(_) => ConnectionErrorKind::AccessToken,
        ConnectionError::Network(net) => ConnectionErrorKind::Network(network_error_kind(net)),
        ConnectionError::LoginError(login) => ConnectionErrorKind::Login(login_error_kind(login)),
        ConnectionError::Aborted => ConnectionErrorKind::Aborted,
        ConnectionError::UnsupportedConfirmationAction(_)
            => ConnectionErrorKind::UnsupportedConfirmationAction,
        _ => ConnectionErrorKind::Other,
    }
}

/// Classify a top-level connection error.  Which variant the error holds is
/// read on trust; the classification of that variant is exact.
pub fn classify_connection_error(err: &ConnectionError) -> (r: ErrorInventoryEntry)
    ensures
        exists|k: ConnectionErrorKind| r@ == spec_classify_connection_kind(k),
{
    let kind = connection_error_kind(err);
    let r = classify_connection_kind(&kind);
    proof {
        assert(r@ == spec_classify_connection_kind(kind));
    }
    r
}

/// Classify a lower-level network failure.  Which variant the error holds is
/// read on trust; the classification of that variant is exact.
pub fn classify_network_error(err: &NetworkError) -> (r: ErrorInventoryEntry)
    ensures
        exists|k: NetworkErrorKind| r@ == spec_classify_network_kind(k),
{
    let kind = network_error_kind(err);
    let r = classify_network_kind(&kind);
    proof {
        assert(r@ == spec_classify_network_kind(kind));
    }
    r
}

/// Classify a login error.  Which variant the error holds is read on trust;
/// the classification of that variant is exact.
pub fn classify_login_error(err: &LoginError) -> (r: ErrorInventoryEntry)
    ensures
        exists|k: LoginErrorKind| r@ == spec_classify_login_kind(k),
{
    let kind = login_error_kind(err);
    let r = classify_login_kind(&kind);
    proof {
        assert(r@ == spec_classify_login_kind(kind));
    }
    r
}

} // verus!
