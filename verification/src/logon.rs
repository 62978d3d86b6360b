//! Session-level rules: what a freshly established session must satisfy, and
//! the classified error a failed logon reports.

use vstd::prelude::*;

use steam_vent::ConnectionError;

use crate::errors::classify_connection_error;
use crate::errors::spec_classify_connection_kind;
use crate::errors::ConnectionErrorKind;
use crate::errors::ErrorDomain;
use crate::errors::ErrorInventoryEntry;
use crate::errors::ErrorInventoryModel;
use crate::errors::RetryDisposition;

verus! {

/// Information about one owned game.
#[derive(Debug, Clone)]
pub struct GameInfo {
    /// The application id.
    pub app_id: u32,
    /// The display name.
    pub name: String,
    /// Total playtime, in minutes.
    pub playtime_forever: u32,
}

/// Why establishing a session failed, each case with its classification.
#[derive(Debug, Clone, Copy, PartialEq, Eq)]
pub enum LogonError {
    /// Server discovery failed.
    Discovery { inventory: ErrorInventoryEntry },
    /// Establishing the connection failed.
    Connection { inventory: ErrorInventoryEntry },
    /// The connection came up but reports an invalid session state.
    InvariantViolation { message: &'static str, inventory: ErrorInventoryEntry },
}

/// The classification of a session-state violation.
pub open spec fn spec_invariant_inventory(message: Seq<char>) -> ErrorInventoryModel {
    ErrorInventoryModel {
        domain: ErrorDomain::Application,
        disposition: RetryDisposition::Fatal,
        description: message,
    }
}

/// The classification of a discovery failure.
pub open spec fn spec_discovery_inventory() -> ErrorInventoryModel {
    ErrorInventoryModel {
        domain: ErrorDomain::Transport,
        disposition: RetryDisposition::BackoffRetry,
        description: "server discovery failed"@,
    }
}

impl LogonError {
    /// The classification carried by this error.
    pub fn inventory(&self) -> (r: ErrorInventoryEntry)
        ensures
            r == match *self {
                LogonError::Discovery { inventory } => inventory,
                LogonError::Connection { inventory } => inventory,
                LogonError::InvariantViolation { inventory, .. } => inventory,
            },
    {
        match self {
            LogonError::Discovery { inventory } => *inventory,
            LogonError::Connection { inventory } => *inventory,
            LogonError::InvariantViolation { inventory, .. } => *inventory,
        }
    }

    /// The error reported when server discovery fails.
    pub fn discovery_err() -> (r: LogonError)
        ensures
            r matches LogonError::Discovery { inventory } && inventory@
                == spec_discovery_inventory(),
    {
        LogonError::Discovery {
            inventory: ErrorInventoryEntry::new(
                ErrorDomain::Transport,
                RetryDisposition::BackoffRetry,
                "server discovery failed",
            ),
        }
    }

    /// The error reported when a session invariant does not hold.
    pub fn invariant_violation(message: &'static str) -> (r: LogonError)
        ensures
            r matches LogonError::InvariantViolation { message: m, inventory } && m@ == message@
                && inventory@ == spec_invariant_inventory(message@),
    {
        LogonError::InvariantViolation {
            message,
            inventory: ErrorInventoryEntry::new(
                ErrorDomain::Application,
                RetryDisposition::Fatal,
                message,
            ),
        }
    }

    /// The error reported when establishing the connection fails, classified
    /// from the underlying failure.
    pub fn from_connection_error(err: &ConnectionError) -> (r: LogonError)
        ensures
            r matches LogonError::Connection { inventory } && exists|k: ConnectionErrorKind|
                inventory@ == spec_classify_connection_kind(k),
    {
        let inventory = classify_connection_error(err);
        LogonError::Connection { inventory }
    }
}

/// Check the invariants a freshly established session owes its caller: a
/// non-zero account id and a non-zero session id, checked in that order.
pub fn ensure_valid_connection(account_id: u32, session_id: i32) -> (r: Result<(), LogonError>)
    ensures
        r is Ok <==> (account_id != 0 && session_id != 0),
        match r {
            Ok(_) => true,
            Err(e) => e matches LogonError::InvariantViolation { message, inventory } && inventory@
                == spec_invariant_inventory(message@) && message@ == if account_id == 0 {
                "steam ID missing after login"@
            } else {
                "session ID not assigned"@
            },
        },
{
    if account_id == 0 {
        return Err(LogonError::invariant_violation("steam ID missing after login"));
    }
    if session_id == 0 {
        return Err(LogonError::invariant_violation("session ID not assigned"));
    }
    Ok(())
}

} // verus!
