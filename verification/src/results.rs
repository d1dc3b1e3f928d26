//! Result and error shapes shared by every check and fix operation.
//!
//! A check produces a [`PermissionCheckResult`], a repair a
//! [`PermissionFixResult`]; both are built fresh on every call and carry a
//! human-readable message.  Hard preconditions (a required path that is
//! absent, an unresolvable home directory, an OS failure) are raised as
//! [`SshBuddyError`] values instead.

use vstd::prelude::*;
use vstd::string::*;

verus! {

/// Outcome of a permission check.
#[derive(Clone, Debug)]
pub struct PermissionCheckResult {
    pub is_valid: bool,
    pub current_mode: Option<String>,
    pub expected_mode: String,
    pub message: String,
}

/// Outcome of a permission repair.
#[derive(Clone, Debug)]
pub struct PermissionFixResult {
    pub success: bool,
    pub message: String,
    pub new_mode: Option<String>,
}

/// The error taxonomy raised by the permission operations.
#[derive(Clone, Debug)]
pub enum SshBuddyError {
    /// A key file that had to exist was not found.
    KeyNotFound { path: String },
    /// The user's home directory could not be resolved.
    HomeDirNotFound,
    /// An OS-level failure while reading or writing metadata.
    IoError { message: String },
}

pub type SshResult<T> = Result<T, SshBuddyError>;

/// The error owed when a required key path is absent.
pub fn key_not_found(key_path: &str) -> (e: SshBuddyError)
    ensures
        e matches SshBuddyError::KeyNotFound { path } && path@ == key_path@,
{
    SshBuddyError::KeyNotFound { path: String::from_str(key_path) }
}

/// An I/O error whose message is a fixed context followed by the OS detail.
pub fn io_error_with_context(context: &str, detail: &str) -> (e: SshBuddyError)
    ensures
        e matches SshBuddyError::IoError { message } && message@ == context@ + detail@,
{
    let mut message = String::from_str(context);
    message.append(detail);
    SshBuddyError::IoError { message }
}

} // verus!
