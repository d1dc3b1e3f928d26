//! The permission policy: what access level each resource kind is owed.
//!
//! A private key file must be owner read/write only (octal 600 on POSIX);
//! the SSH directory must be owner read/write/execute only (octal 700).
//! On Windows both are rendered as an owner-exclusive ACL, described to
//! users as "User only".  The policy also decides creation behaviour on
//! repair: the SSH directory may be created when absent, a key file must
//! already exist.

use vstd::prelude::*;
use vstd::string::*;

verus! {

/// The kinds of resource this library guards.
#[derive(Clone, Copy, Debug, PartialEq, Eq, Structural)]
pub enum ResourceKind {
    KeyFile,
    SshDirectory,
}

/// Target POSIX mode bits for a resource kind.
pub open spec fn spec_expected_octal(kind: ResourceKind) -> u32 {
    match kind {
        ResourceKind::KeyFile => 0o600,
        ResourceKind::SshDirectory => 0o700,
    }
}

/// Whether `fix` may create the resource when it is absent.
pub open spec fn spec_create_if_missing(kind: ResourceKind) -> bool {
    kind is SshDirectory
}

/// Human-readable expected descriptor on POSIX hosts.
pub open spec fn spec_expected_mode_posix(kind: ResourceKind) -> Seq<char> {
    match kind {
        ResourceKind::KeyFile => "600"@,
        ResourceKind::SshDirectory => "700"@,
    }
}

/// Human-readable expected descriptor on Windows hosts.
pub open spec fn spec_expected_mode_windows() -> Seq<char> {
    "User only"@
}

/// Target POSIX mode bits for a resource kind.
pub fn expected_octal(kind: ResourceKind) -> (m: u32)
    ensures
        m == spec_expected_octal(kind),
{
    match kind {
        ResourceKind::KeyFile => 0o600,
        ResourceKind::SshDirectory => 0o700,
    }
}

/// Whether `fix` may create the resource when it is absent.
pub fn create_if_missing(kind: ResourceKind) -> (b: bool)
    ensures
        b == spec_create_if_missing(kind),
{
    match kind {
        ResourceKind::KeyFile => false,
        ResourceKind::SshDirectory => true,
    }
}

/// Human-readable expected descriptor on POSIX hosts.
pub fn expected_mode_posix(kind: ResourceKind) -> (s: String)
    ensures
        s@ == spec_expected_mode_posix(kind),
{
    match kind {
        ResourceKind::KeyFile => String::from_str("600"),
        ResourceKind::SshDirectory => String::from_str("700"),
    }
}

/// Human-readable expected descriptor on Windows hosts.
pub fn expected_mode_windows() -> (s: String)
    ensures
        s@ == spec_expected_mode_windows(),
{
    String::from_str("User only")
}

} // verus!
