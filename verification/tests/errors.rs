//! Tests for the error classification and the session rules.

use kether::errors::classify_api_error;
use kether::errors::classify_connection_kind;
use kether::errors::classify_login_kind;
use kether::errors::classify_network_kind;
use kether::errors::ConnectionErrorKind;
use kether::errors::LoginErrorKind;
use kether::errors::NetworkErrorKind;
use kether::classify_login_error;
use kether::classify_network_error;
use kether::classify_connection_error;
use kether::logon::ensure_valid_connection;
use kether::logon::LogonError;
use kether::ErrorDomain;
use kether::ErrorInventoryEntry;
use kether::RetryDisposition;

use steam_vent::ConnectionError;
use steam_vent::LoginError;
use steam_vent::NetworkError;

#[test]
fn timeout_is_retryable() {
    let entry = classify_network_error(&NetworkError::Timeout);
    assert_eq!(entry.disposition, RetryDisposition::ImmediateRetry);
}

#[test]
fn invalid_credentials_are_fatal() {
    let entry = classify_login_error(&LoginError::InvalidCredentials);
    assert_eq!(entry.disposition, RetryDisposition::Fatal);
}

#[test]
fn connection_errors_classify_through_their_nested_failure() {
    let entry = classify_connection_error(&ConnectionError::Network(NetworkError::EOF));
    assert_eq!(entry.domain, ErrorDomain::Transport);
    assert_eq!(entry.disposition, RetryDisposition::BackoffRetry);
    assert_eq!(entry.description, "transport dropped connection");

    let entry = classify_connection_error(&ConnectionError::Aborted);
    assert_eq!(entry.domain, ErrorDomain::Transport);
    assert_eq!(entry.disposition, RetryDisposition::Fatal);
}

#[test]
fn network_kinds_cover_every_disposition_row() {
    let timeout = classify_network_kind(&NetworkErrorKind::Timeout);
    assert_eq!(timeout.disposition, RetryDisposition::ImmediateRetry);
    assert_eq!(timeout.description, "request timed out");

    let dropped = classify_network_kind(&NetworkErrorKind::Io);
    assert_eq!(dropped.disposition, RetryDisposition::BackoffRetry);

    let mismatch = classify_network_kind(&NetworkErrorKind::InvalidHeader);
    assert_eq!(mismatch.disposition, RetryDisposition::Fatal);
    assert_eq!(mismatch.description, "protocol mismatch");

    let malformed = classify_network_kind(&NetworkErrorKind::MalformedBody);
    assert_eq!(malformed.domain, ErrorDomain::Application);
    assert_eq!(malformed.disposition, RetryDisposition::Fatal);

    let unknown = classify_network_kind(&NetworkErrorKind::Other);
    assert_eq!(unknown.domain, ErrorDomain::Unknown);
}

#[test]
fn api_codes_map_to_the_documented_rows() {
    assert_eq!(classify_api_error(16).disposition, RetryDisposition::ImmediateRetry);
    assert_eq!(classify_api_error(1).disposition, RetryDisposition::Fatal);
    assert_eq!(classify_api_error(84).disposition, RetryDisposition::BackoffRetry);
    assert_eq!(classify_api_error(5).domain, ErrorDomain::Authentication);
    assert_eq!(classify_api_error(85).disposition, RetryDisposition::Reauthenticate);
    assert_eq!(classify_api_error(2).description, "unmapped Steam error code");
}

#[test]
fn api_error_inside_a_network_error_uses_its_code() {
    let entry = classify_network_kind(&NetworkErrorKind::ApiError(16));
    assert_eq!(entry.disposition, RetryDisposition::ImmediateRetry);
    assert_eq!(entry.description, "steam backend timeout");
}

#[test]
fn login_kinds_classify_as_the_original_table() {
    assert_eq!(
        classify_login_kind(&LoginErrorKind::SteamGuardRequired).disposition,
        RetryDisposition::Reauthenticate,
    );
    assert_eq!(
        classify_login_kind(&LoginErrorKind::RateLimited).disposition,
        RetryDisposition::BackoffRetry,
    );
    assert_eq!(
        classify_login_kind(&LoginErrorKind::UnavailableAccount).disposition,
        RetryDisposition::Fatal,
    );
}

#[test]
fn access_token_errors_ask_for_reauthentication() {
    let entry = classify_connection_kind(&ConnectionErrorKind::AccessToken);
    assert_eq!(entry.domain, ErrorDomain::Authentication);
    assert_eq!(entry.disposition, RetryDisposition::Reauthenticate);
}

#[test]
fn inventory_entry_new_copies_its_fields() {
    let entry = ErrorInventoryEntry::new(
        ErrorDomain::Application,
        RetryDisposition::Fatal,
        "broken",
    );
    assert_eq!(entry.domain, ErrorDomain::Application);
    assert_eq!(entry.disposition, RetryDisposition::Fatal);
    assert_eq!(entry.description, "broken");
}

#[test]
fn session_invariants_demand_nonzero_ids() {
    assert!(ensure_valid_connection(42, 7).is_ok());

    let missing_id = ensure_valid_connection(0, 7).unwrap_err();
    match missing_id {
        LogonError::InvariantViolation { message, inventory } => {
            assert_eq!(message, "steam ID missing after login");
            assert_eq!(inventory.domain, ErrorDomain::Application);
            assert_eq!(inventory.disposition, RetryDisposition::Fatal);
        },
        _ => panic!("expected an invariant violation"),
    }

    let missing_session = ensure_valid_connection(42, 0).unwrap_err();
    match missing_session {
        LogonError::InvariantViolation { message, .. } => {
            assert_eq!(message, "session ID not assigned");
        },
        _ => panic!("expected an invariant violation"),
    }
}

#[test]
fn logon_error_inventory_reports_the_carried_entry() {
    let discovery = LogonError::discovery_err();
    let entry = discovery.inventory();
    assert_eq!(entry.domain, ErrorDomain::Transport);
    assert_eq!(entry.disposition, RetryDisposition::BackoffRetry);
    assert_eq!(entry.description, "server discovery failed");

    let connection = LogonError::from_connection_error(&ConnectionError::Aborted);
    assert_eq!(connection.inventory().disposition, RetryDisposition::Fatal);
}
