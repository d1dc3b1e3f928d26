//! The POSIX backend: mode bits checked and repaired against the policy.
//!
//! The caller reads the filesystem and reports what it saw as an
//! [`FsProbe`]; the verdicts here are pure functions of that report.  A
//! check compares the low nine permission bits numerically against the
//! expected octal value — an exact match is required, more restrictive
//! modes get no partial credit.  A repair is planned first (may the
//! resource be created?), then judged by the mode bits re-read after the
//! set call, so that umask interaction cannot go unnoticed.

use vstd::prelude::*;
use vstd::string::*;

use crate::policy::{
    create_if_missing, expected_mode_posix, expected_octal, spec_create_if_missing,
    spec_expected_mode_posix, spec_expected_octal, ResourceKind,
};
use crate::results::{
    io_error_with_context, key_not_found, PermissionCheckResult, PermissionFixResult,
    SshBuddyError, SshResult,
};

verus! {

/// What the caller found when it read the resource's metadata.
#[derive(Clone, Debug)]
pub enum FsProbe {
    /// The path does not exist.
    Missing,
    /// The path exists and carries these mode bits.
    Mode(u32),
    /// The path exists but reading its metadata failed with this message.
    ReadError(String),
}

/// The repair actions owed before mode bits can be set.
#[derive(Clone, Copy, Debug, PartialEq, Eq, Structural)]
pub struct FixPlan {
    /// Create the directory (with missing ancestors) before setting bits.
    pub create_dir: bool,
    /// The octal mode to set.
    pub mode: u32,
}

/// The low nine permission bits of a raw mode word.
pub open spec fn spec_masked(m: u32) -> u32 {
    m & 0o777
}

/// An octal digit as a character.
pub open spec fn spec_digit(d: u32) -> char {
    if d == 0 {
        '0'
    } else if d == 1 {
        '1'
    } else if d == 2 {
        '2'
    } else if d == 3 {
        '3'
    } else if d == 4 {
        '4'
    } else if d == 5 {
        '5'
    } else if d == 6 {
        '6'
    } else {
        '7'
    }
}

/// A mode rendered as a three-digit octal string.
pub open spec fn spec_octal3(m: u32) -> Seq<char> {
    seq![spec_digit((m / 64) % 8), spec_digit((m / 8) % 8), spec_digit(m % 8)]
}

/// The low nine permission bits of a raw mode word.
pub fn masked(m: u32) -> (r: u32)
    ensures
        r == spec_masked(m),
{
    m & 0o777
}

/// Append one octal digit to a string under construction.
fn push_digit(s: &mut String, d: u32)
    requires
        d < 8,
    ensures
        final(s)@ == old(s)@ + seq![spec_digit(d)],
{
    if d == 0 {
        proof {
            reveal_strlit("0");
        }
        s.append("0");
    } else if d == 1 {
        proof {
            reveal_strlit("1");
        }
        s.append("1");
    } else if d == 2 {
        proof {
            reveal_strlit("2");
        }
        s.append("2");
    } else if d == 3 {
        proof {
            reveal_strlit("3");
        }
        s.append("3");
    } else if d == 4 {
        proof {
            reveal_strlit("4");
        }
        s.append("4");
    } else if d == 5 {
        proof {
            reveal_strlit("5");
        }
        s.append("5");
    } else if d == 6 {
        proof {
            reveal_strlit("6");
        }
        s.append("6");
    } else {
        proof {
            reveal_strlit("7");
        }
        s.append("7");
    }
    proof {
        assert(final(s)@ =~= old(s)@ + seq![spec_digit(d)]);
    }
}

/// A mode rendered as a three-digit octal string.
pub fn octal3_string(m: u32) -> (r: String)
    ensures
        r@ == spec_octal3(m),
{
    let mut s = String::new();
    push_digit(&mut s, (m / 64) % 8);
    push_digit(&mut s, (m / 8) % 8);
    push_digit(&mut s, m % 8);
    proof {
        assert(s@ =~= spec_octal3(m));
    }
    s
}

/// What a POSIX check owes for each possible probe.
pub open spec fn check_posix_post(
    kind: ResourceKind,
    res_path: Seq<char>,
    probe: FsProbe,
    r: SshResult<PermissionCheckResult>,
) -> bool {
    match probe {
        FsProbe::Missing => match kind {
            ResourceKind::KeyFile => match r {
                Err(SshBuddyError::KeyNotFound { path }) => path@ == res_path,
                _ => false,
            },
            ResourceKind::SshDirectory => match r {
                Ok(c) => !c.is_valid && c.current_mode is None && c.expected_mode@ == "700"@
                    && c.message@ == "SSH directory does not exist"@,
                _ => false,
            },
        },
        FsProbe::ReadError(detail) => match r {
            Err(SshBuddyError::IoError { message }) => match kind {
                ResourceKind::KeyFile => message@ == "Failed to read file metadata: "@
                    + detail@,
                ResourceKind::SshDirectory => message@
                    == "Failed to read directory metadata: "@ + detail@,
            },
            _ => false,
        },
        FsProbe::Mode(m) => match r {
            Ok(c) => {
                let bits = spec_masked(m);
                let valid = bits == spec_expected_octal(kind);
                &&& c.is_valid == valid
                &&& match c.current_mode {
                    Some(cm) => cm@ == spec_octal3(bits),
                    None => false,
                }
                &&& c.expected_mode@ == spec_expected_mode_posix(kind)
                &&& c.message@ == spec_check_msg_posix(kind, bits)
            },
            _ => false,
        },
    }
}

/// The message a POSIX check reports for the given masked bits.
pub open spec fn spec_check_msg_posix(kind: ResourceKind, bits: u32) -> Seq<char> {
    if bits == spec_expected_octal(kind) {
        match kind {
            ResourceKind::KeyFile => "Key permissions are correct"@,
            ResourceKind::SshDirectory => "SSH directory permissions are correct"@,
        }
    } else {
        match kind {
            ResourceKind::KeyFile => "Key permissions are "@ + spec_octal3(bits)
                + " but should be 600. File is too accessible."@,
            ResourceKind::SshDirectory => "SSH directory permissions are "@ + spec_octal3(bits)
                + " but should be 700"@,
        }
    }
}

/// Judge the probe of a resource against the policy's expected mode.
pub fn posix_check(kind: ResourceKind, res_path: &str, probe: &FsProbe) -> (r: SshResult<
    PermissionCheckResult,
>)
    ensures
        check_posix_post(kind, res_path@, *probe, r),
{
    match probe {
        FsProbe::Missing => match kind {
            ResourceKind::KeyFile => Err(key_not_found(res_path)),
            ResourceKind::SshDirectory => Ok(
                PermissionCheckResult {
                    is_valid: false,
                    current_mode: None,
                    expected_mode: String::from_str("700"),
                    message: String::from_str("SSH directory does not exist"),
                },
            ),
        },
        FsProbe::ReadError(detail) => match kind {
            ResourceKind::KeyFile => Err(
                io_error_with_context("Failed to read file metadata: ", detail.as_str()),
            ),
            ResourceKind::SshDirectory => Err(
                io_error_with_context("Failed to read directory metadata: ", detail.as_str()),
            ),
        },
        FsProbe::Mode(m) => {
            let bits = masked(*m);
            let valid = bits == expected_octal(kind);
            let mode_str = octal3_string(bits);
            let message: String = if valid {
                match kind {
                    ResourceKind::KeyFile => String::from_str("Key permissions are correct"),
                    ResourceKind::SshDirectory => String::from_str(
                        "SSH directory permissions are correct",
                    ),
                }
            } else {
                match kind {
                    ResourceKind::KeyFile => {
                        let mut msg = String::from_str("Key permissions are ");
                        msg.append(mode_str.as_str());
                        msg.append(" but should be 600. File is too accessible.");
                        msg
                    },
                    ResourceKind::SshDirectory => {
                        let mut msg = String::from_str("SSH directory permissions are ");
                        msg.append(mode_str.as_str());
                        msg.append(" but should be 700");
                        msg
                    },
                }
            };
            Ok(
                PermissionCheckResult {
                    is_valid: valid,
                    current_mode: Some(mode_str),
                    expected_mode: expected_mode_posix(kind),
                    message,
                },
            )
        },
    }
}

/// What planning a POSIX repair owes: the error when a required resource
/// is absent, otherwise the creation flag and target mode.
pub open spec fn fix_plan_post(
    kind: ResourceKind,
    res_path: Seq<char>,
    exists: bool,
    r: SshResult<FixPlan>,
) -> bool {
    if !exists && !spec_create_if_missing(kind) {
        match r {
            Err(SshBuddyError::KeyNotFound { path }) => path@ == res_path,
            _ => false,
        }
    } else {
        match r {
            Ok(plan) => plan.create_dir == (!exists && spec_create_if_missing(kind))
                && plan.mode == spec_expected_octal(kind),
            _ => false,
        }
    }
}

/// Plan a POSIX repair: refuse a missing key file, create a missing SSH
/// directory, and name the octal mode to set.
pub fn posix_fix_plan(kind: ResourceKind, res_path: &str, exists: bool) -> (r: SshResult<FixPlan>)
    ensures
        fix_plan_post(kind, res_path@, exists, r),
{
    if !exists && !create_if_missing(kind) {
        Err(key_not_found(res_path))
    } else {
        Ok(FixPlan { create_dir: !exists && create_if_missing(kind), mode: expected_octal(kind) })
    }
}

/// What the repair verdict owes once the mode bits were re-read: success
/// exactly when the verified bits equal the target.
pub open spec fn fix_verdict_post(kind: ResourceKind, new_mode: u32, r: PermissionFixResult) -> bool {
    let bits = spec_masked(new_mode);
    &&& r.success == (bits == spec_expected_octal(kind))
    &&& match r.new_mode {
        Some(nm) => nm@ == spec_octal3(bits),
        None => false,
    }
    &&& r.message@ == spec_fix_msg_posix(kind, bits)
}

/// The message a POSIX repair reports for the verified bits.
pub open spec fn spec_fix_msg_posix(kind: ResourceKind, bits: u32) -> Seq<char> {
    match kind {
        ResourceKind::KeyFile => "Permissions set to "@ + spec_octal3(bits),
        ResourceKind::SshDirectory => "SSH directory permissions set to "@ + spec_octal3(bits),
    }
}

/// Judge a POSIX repair by the mode bits re-read after the set call.
pub fn posix_fix_verdict(kind: ResourceKind, new_mode: u32) -> (r: PermissionFixResult)
    ensures
        fix_verdict_post(kind, new_mode, r),
{
    let bits = masked(new_mode);
    let mode_str = octal3_string(bits);
    let message: String = match kind {
        ResourceKind::KeyFile => {
            let mut msg = String::from_str("Permissions set to ");
            msg.append(mode_str.as_str());
            msg
        },
        ResourceKind::SshDirectory => {
            let mut msg = String::from_str("SSH directory permissions set to ");
            msg.append(mode_str.as_str());
            msg
        },
    };
    PermissionFixResult {
        success: bits == expected_octal(kind),
        message,
        new_mode: Some(mode_str),
    }
}

/// The error owed when creating the SSH directory failed.
pub fn create_dir_error(detail: &str) -> (e: SshBuddyError)
    ensures
        e matches SshBuddyError::IoError { message } && message@
            == "Failed to create SSH directory: "@ + detail@,
{
    io_error_with_context("Failed to create SSH directory: ", detail)
}

/// The error owed when the set call itself failed.
pub fn set_mode_error(kind: ResourceKind, detail: &str) -> (e: SshBuddyError)
    ensures
        e matches SshBuddyError::IoError { message } && message@ == match kind {
            ResourceKind::KeyFile => "Failed to set permissions: "@ + detail@,
            ResourceKind::SshDirectory => "Failed to set directory permissions: "@ + detail@,
        },
{
    match kind {
        ResourceKind::KeyFile => io_error_with_context("Failed to set permissions: ", detail),
        ResourceKind::SshDirectory => io_error_with_context(
            "Failed to set directory permissions: ",
            detail,
        ),
    }
}

/// The error owed when re-reading the mode after a set call failed.
pub fn verify_mode_error(detail: &str) -> (e: SshBuddyError)
    ensures
        e matches SshBuddyError::IoError { message } && message@
            == "Failed to verify permissions: "@ + detail@,
{
    io_error_with_context("Failed to verify permissions: ", detail)
}

} // verus!
