//! The Windows backend: an ACL listing judged against owner-exclusive
//! access.
//!
//! The caller runs the ACL inspection tool and hands over its outcome as
//! an [`AclToolOutput`].  The heuristic here reads the captured text one
//! line at a time: lines echoing the queried path and blank lines are
//! skipped, a line naming the current account (compared case-folded)
//! proves the owner's access, the administrators group and the system
//! account are trusted, and any further principal entry — a line with the
//! `:` delimiter that is not a trailing tool-status line — counts as
//! another accessor.  Access is valid exactly when the owner appears and
//! nobody else does.

use vstd::prelude::*;
use vstd::string::*;

use crate::policy::{expected_mode_windows, spec_expected_mode_windows, ResourceKind};
use crate::results::{
    io_error_with_context, PermissionCheckResult, PermissionFixResult, SshBuddyError, SshResult,
};
use crate::text::{
    spec_contains, spec_is_blank, spec_lines, spec_starts_with, spec_trim_start, split_lines,
    str_contains, str_is_blank, trimmed_starts_with,
};

verus! {

/// What case-folding a piece of text yields; the result depends on the
/// characters alone.
pub uninterp spec fn lower_of(s: Seq<char>) -> Seq<char>;

/// Relies on str::to_lowercase: the lowercase equivalent of the string,
/// a function of its characters alone.
#[verifier::external_body]
fn lowercase(s: &str) -> (r: String)
    ensures
        r@ == lower_of(s@),
{
    s.to_lowercase()
}

/// Relies on whoami::username: the current account's name as the OS
/// reports it.  Nothing is assumed of the value.
#[verifier::external_body]
pub(crate) fn os_username() -> (r: String) {
    whoami::username()
}

/// What the caller saw when it ran the ACL tool.
#[derive(Clone, Debug)]
pub enum AclToolOutput {
    /// The tool could not be spawned at all; the OS error text.
    SpawnFailed(String),
    /// The tool ran to completion with this exit verdict and captures.
    Ran { success: bool, stdout: String, stderr: String },
}

/// A line the parser passes over: it echoes the queried path, or it is
/// blank.
pub open spec fn line_skipped(l: Seq<char>, queried_path: Seq<char>) -> bool {
    spec_contains(l, queried_path) || spec_is_blank(l)
}

/// A line proving the current account's access: case-folded, it names
/// the case-folded account.
pub open spec fn line_marks_user(l: Seq<char>, user: Seq<char>) -> bool {
    spec_contains(lower_of(l), lower_of(user))
}

/// A line naming a trusted principal, whose access is no weakening.
pub open spec fn line_is_trusted(l: Seq<char>) -> bool {
    spec_contains(l, "BUILTIN\\Administrators"@) || spec_contains(l, "NT AUTHORITY\\SYSTEM"@)
}

/// A line that reads as a further access-control entry: it carries the
/// principal/permission delimiter and is not a trailing status line.
pub open spec fn line_marks_other(l: Seq<char>) -> bool {
    spec_contains(l, ":"@) && !spec_starts_with(spec_trim_start(l), "Successfully"@)
}

/// Some line of the listing proves the current account's access.
pub open spec fn spec_user_has_access(
    lines: Seq<Seq<char>>,
    queried_path: Seq<char>,
    user: Seq<char>,
) -> bool {
    exists|i: int|
        0 <= i < lines.len() && !line_skipped(#[trigger] lines[i], queried_path)
            && line_marks_user(lines[i], user)
}

/// Some line of the listing counts as another accessing principal: not
/// skipped, not the current account, not trusted, yet an entry.
pub open spec fn spec_has_other_users(
    lines: Seq<Seq<char>>,
    queried_path: Seq<char>,
    user: Seq<char>,
) -> bool {
    exists|i: int|
        0 <= i < lines.len() && !line_skipped(#[trigger] lines[i], queried_path)
            && !line_marks_user(lines[i], user) && !line_is_trusted(lines[i]) && line_marks_other(
            lines[i],
        )
}

/// The accessibility verdict over a whole captured listing.
pub open spec fn spec_acl_valid(out: Seq<char>, queried_path: Seq<char>, user: Seq<char>) -> bool {
    spec_user_has_access(spec_lines(out), queried_path, user) && !spec_has_other_users(
        spec_lines(out),
        queried_path,
        user,
    )
}

/// Read a captured ACL listing: does the current account appear, and
/// does anyone else?
pub fn parse_acl_listing(output: &str, queried_path: &str, user: &str) -> (r: (bool, bool))
    ensures
        r.0 == spec_user_has_access(spec_lines(output@), queried_path@, user@),
        r.1 == spec_has_other_users(spec_lines(output@), queried_path@, user@),
{
    let lines = split_lines(output);
    let user_lower = lowercase(user);
    let mut has_user = false;
    let mut has_other = false;
    let mut k: usize = 0;
    while k < lines.len()
        invariant
            0 <= k <= lines@.len(),
            lines.deep_view() == spec_lines(output@),
            user_lower@ == lower_of(user@),
            has_user == exists|i: int|
                0 <= i < k && !line_skipped(#[trigger] lines.deep_view()[i], queried_path@)
                    && line_marks_user(lines.deep_view()[i], user@),
            has_other == exists|i: int|
                0 <= i < k && !line_skipped(#[trigger] lines.deep_view()[i], queried_path@)
                    && !line_marks_user(lines.deep_view()[i], user@) && !line_is_trusted(
                    lines.deep_view()[i],
                ) && line_marks_other(lines.deep_view()[i]),
        decreases lines@.len() - k,
    {
        let ghost lv = lines.deep_view();
        let ghost prior_user = has_user;
        let ghost prior_other = has_other;
        let line = &lines[k];
        proof {
            assert(lv[k as int] == lines@[k as int]@);
        }
        let skipped = str_contains(line.as_str(), queried_path) || str_is_blank(line.as_str());
        if !skipped {
            let line_lower = lowercase(line.as_str());
            if str_contains(line_lower.as_str(), user_lower.as_str()) {
                has_user = true;
            } else if str_contains(line.as_str(), "BUILTIN\\Administrators") || str_contains(
                line.as_str(),
                "NT AUTHORITY\\SYSTEM",
            ) {
            } else if str_contains(line.as_str(), ":") && !trimmed_starts_with(
                line.as_str(),
                "Successfully",
            ) {
                has_other = true;
            }
        }
        proof {
            assert(has_user == (prior_user || (!line_skipped(lv[k as int], queried_path@)
                && line_marks_user(lv[k as int], user@))));
            assert(has_other == (prior_other || (!line_skipped(lv[k as int], queried_path@)
                && !line_marks_user(lv[k as int], user@) && !line_is_trusted(lv[k as int])
                && line_marks_other(lv[k as int]))));
        }
        k += 1;
    }
    (has_user, has_other)
}

/// What a Windows check owes, given the tool outcome and account name.
pub open spec fn check_acl_post(
    kind: ResourceKind,
    res_path: Seq<char>,
    tool: AclToolOutput,
    user: Seq<char>,
    r: SshResult<PermissionCheckResult>,
) -> bool {
    match tool {
        AclToolOutput::SpawnFailed(detail) => match r {
            Err(SshBuddyError::IoError { message }) => message@ == "Failed to run icacls: "@
                + detail@,
            _ => false,
        },
        AclToolOutput::Ran { success, stdout, stderr: _ } => match r {
            Ok(c) => if !success {
                &&& !c.is_valid
                &&& c.current_mode is None
                &&& c.expected_mode@ == spec_expected_mode_windows()
                &&& c.message@ == match kind {
                    ResourceKind::KeyFile => "Failed to check file permissions"@,
                    ResourceKind::SshDirectory => "Failed to check directory permissions"@,
                }
            } else {
                let lines = spec_lines(stdout@);
                let has_user = spec_user_has_access(lines, res_path, user);
                let has_other = spec_has_other_users(lines, res_path, user);
                &&& c.is_valid == (has_user && !has_other)
                &&& match c.current_mode {
                    Some(cm) => cm@ == "ACL"@,
                    None => false,
                }
                &&& c.expected_mode@ == spec_expected_mode_windows()
                &&& c.message@ == spec_check_msg_acl(kind, has_user, has_other)
            },
            _ => false,
        },
    }
}

/// The message a Windows check reports for a parsed listing.
pub open spec fn spec_check_msg_acl(kind: ResourceKind, has_user: bool, has_other: bool) -> Seq<
    char,
> {
    if has_user && !has_other {
        match kind {
            ResourceKind::KeyFile => "Key permissions are correct (restricted to current user)"@,
            ResourceKind::SshDirectory => "SSH directory permissions are correct (restricted to current user)"@,
        }
    } else if has_other {
        match kind {
            ResourceKind::KeyFile => "Key file is accessible by other users. Consider restricting permissions."@,
            ResourceKind::SshDirectory => "SSH directory is accessible by other users. Consider restricting permissions."@,
        }
    } else {
        match kind {
            ResourceKind::KeyFile => "Unable to verify key permissions"@,
            ResourceKind::SshDirectory => "Unable to verify SSH directory permissions"@,
        }
    }
}

/// Judge a Windows check from the tool outcome, for a given account
/// name.  A tool that ran and failed yields a soft negative result, not
/// an error: the path itself is known to exist.
pub fn check_acl_with_user(
    kind: ResourceKind,
    res_path: &str,
    tool: &AclToolOutput,
    user: &str,
) -> (r: SshResult<PermissionCheckResult>)
    ensures
        check_acl_post(kind, res_path@, *tool, user@, r),
{
    match tool {
        AclToolOutput::SpawnFailed(detail) => Err(
            io_error_with_context("Failed to run icacls: ", detail.as_str()),
        ),
        AclToolOutput::Ran { success, stdout, stderr: _ } => {
            if !*success {
                let message: String = match kind {
                    ResourceKind::KeyFile => String::from_str("Failed to check file permissions"),
                    ResourceKind::SshDirectory => String::from_str(
                        "Failed to check directory permissions",
                    ),
                };
                Ok(
                    PermissionCheckResult {
                        is_valid: false,
                        current_mode: None,
                        expected_mode: expected_mode_windows(),
                        message,
                    },
                )
            } else {
                let verdict = parse_acl_listing(stdout.as_str(), res_path, user);
                let has_user = verdict.0;
                let has_other = verdict.1;
                let is_valid = has_user && !has_other;
                let message: String = if is_valid {
                    match kind {
                        ResourceKind::KeyFile => String::from_str(
                            "Key permissions are correct (restricted to current user)",
                        ),
                        ResourceKind::SshDirectory => String::from_str(
                            "SSH directory permissions are correct (restricted to current user)",
                        ),
                    }
                } else if has_other {
                    match kind {
                        ResourceKind::KeyFile => String::from_str(
                            "Key file is accessible by other users. Consider restricting permissions.",
                        ),
                        ResourceKind::SshDirectory => String::from_str(
                            "SSH directory is accessible by other users. Consider restricting permissions.",
                        ),
                    }
                } else {
                    match kind {
                        ResourceKind::KeyFile => String::from_str("Unable to verify key permissions"),
                        ResourceKind::SshDirectory => String::from_str(
                            "Unable to verify SSH directory permissions",
                        ),
                    }
                };
                Ok(
                    PermissionCheckResult {
                        is_valid,
                        current_mode: Some(String::from_str("ACL")),
                        expected_mode: expected_mode_windows(),
                        message,
                    },
                )
            }
        },
    }
}

/// What a Windows repair owes: the tool's exit verdict decides success,
/// its diagnostic text is embedded on failure.
pub open spec fn fix_acl_post(
    kind: ResourceKind,
    tool: AclToolOutput,
    user: Seq<char>,
    r: SshResult<PermissionFixResult>,
) -> bool {
    match tool {
        AclToolOutput::SpawnFailed(detail) => match r {
            Err(SshBuddyError::IoError { message }) => message@ == "Failed to run icacls: "@
                + detail@,
            _ => false,
        },
        AclToolOutput::Ran { success, stdout: _, stderr } => match r {
            Ok(f) => if success {
                &&& f.success
                &&& match f.new_mode {
                    Some(nm) => nm@ == spec_expected_mode_windows(),
                    None => false,
                }
                &&& f.message@ == spec_fix_msg_acl(kind, user)
            } else {
                &&& !f.success
                &&& f.new_mode is None
                &&& f.message@ == match kind {
                    ResourceKind::KeyFile => "Failed to set permissions: "@ + stderr@,
                    ResourceKind::SshDirectory => "Failed to set directory permissions: "@
                        + stderr@,
                }
            },
            _ => false,
        },
    }
}

/// The message a successful Windows repair reports.
pub open spec fn spec_fix_msg_acl(kind: ResourceKind, user: Seq<char>) -> Seq<char> {
    match kind {
        ResourceKind::KeyFile => "Permissions restricted to current user ("@ + user + ") only"@,
        ResourceKind::SshDirectory => "SSH directory permissions restricted to current user ("@
            + user + ") only"@,
    }
}

/// Judge a Windows repair from the tool outcome, for a given account
/// name.
pub fn fix_acl_with_user(kind: ResourceKind, tool: &AclToolOutput, user: &str) -> (r: SshResult<
    PermissionFixResult,
>)
    ensures
        fix_acl_post(kind, *tool, user@, r),
{
    match tool {
        AclToolOutput::SpawnFailed(detail) => Err(
            io_error_with_context("Failed to run icacls: ", detail.as_str()),
        ),
        AclToolOutput::Ran { success, stdout: _, stderr } => {
            if *success {
                let mut message: String = match kind {
                    ResourceKind::KeyFile => String::from_str(
                        "Permissions restricted to current user (",
                    ),
                    ResourceKind::SshDirectory => String::from_str(
                        "SSH directory permissions restricted to current user (",
                    ),
                };
                message.append(user);
                message.append(") only");
                Ok(
                    PermissionFixResult {
                        success: true,
                        message,
                        new_mode: Some(expected_mode_windows()),
                    },
                )
            } else {
                let mut message: String = match kind {
                    ResourceKind::KeyFile => String::from_str("Failed to set permissions: "),
                    ResourceKind::SshDirectory => String::from_str(
                        "Failed to set directory permissions: ",
                    ),
                };
                message.append(stderr.as_str());
                Ok(PermissionFixResult { success: false, message, new_mode: None })
            }
        },
    }
}

/// The arguments handed to the ACL tool to repair a path: strip
/// inherited entries, then grant the account full control exclusively.
pub open spec fn spec_acl_fix_args(res_path: Seq<char>, user: Seq<char>) -> Seq<Seq<char>> {
    seq![res_path, "/inheritance:r"@, "/grant:r"@, user + ":F"@]
}

/// Build the ACL tool's repair arguments for a given account name.
pub fn acl_fix_args_for(res_path: &str, user: &str) -> (args: Vec<String>)
    ensures
        args.deep_view() == spec_acl_fix_args(res_path@, user@),
{
    let mut args: Vec<String> = Vec::new();
    args.push(String::from_str(res_path));
    args.push(String::from_str("/inheritance:r"));
    args.push(String::from_str("/grant:r"));
    let mut grant = String::from_str(user);
    grant.append(":F");
    args.push(grant);
    proof {
        assert(args.deep_view() =~= spec_acl_fix_args(res_path@, user@));
    }
    args
}

/// Build the ACL tool's repair arguments for the current account.
pub fn acl_fix_args(res_path: &str) -> (args: Vec<String>)
    ensures
        exists|u: Seq<char>| args.deep_view() == spec_acl_fix_args(res_path@, u),
{
    let user = os_username();
    let args = acl_fix_args_for(res_path, user.as_str());
    proof {
        assert(args.deep_view() == spec_acl_fix_args(res_path@, user@));
    }
    args
}

} // verus!
