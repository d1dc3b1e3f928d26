//! Validation and repair of filesystem access restrictions on SSH private
//! key files and the SSH configuration directory.
//!
//! The library models the cross-platform permission policy: a private key
//! file must be readable and writable by its owner alone, and the SSH
//! directory must be accessible by its owner alone.  The POSIX backend
//! works on mode bits; the Windows backend works on the text listing of an
//! ACL inspection tool.  All decision logic is verified; the operating
//! system calls themselves are performed by the caller, which hands their
//! outcomes to the functions here as plain values.

pub mod acl;
pub mod laws;
pub mod paths;
pub mod policy;
pub mod posix;
pub mod results;
pub mod service;
pub mod text;

pub use results::PermissionCheckResult;
pub use results::PermissionFixResult;
pub use results::SshBuddyError;
pub use results::SshResult;
pub use service::PermissionService;
