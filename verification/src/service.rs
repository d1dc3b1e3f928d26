//! The permission service: one check and one fix entry point per
//! resource kind and platform backend.
//!
//! Each operation is stateless and independent.  The caller performs the
//! operating-system reads and writes and reports them as plain values
//! ([`FsProbe`], [`AclToolOutput`], an existence flag); every verdict
//! here is then a verified function of that report.  The Windows entry
//! points resolve the current account name themselves, so their
//! contracts hold for some account name; the `*_with_user` functions in
//! [`crate::acl`] carry the exact contract for every name.

use vstd::prelude::*;
use vstd::string::*;

use crate::acl::{check_acl_post, check_acl_with_user, fix_acl_post, fix_acl_with_user,
    os_username, AclToolOutput};
use crate::policy::ResourceKind;
use crate::posix::{check_posix_post, fix_plan_post, posix_check, posix_fix_plan, FixPlan, FsProbe};
use crate::results::{key_not_found, PermissionCheckResult, PermissionFixResult, SshResult};

verus! {

/// The stateless permission service.
pub struct PermissionService;

impl PermissionService {
    /// Check a private key file's POSIX permissions against the policy,
    /// given what the caller's metadata read saw.
    pub fn check_key_permissions(key_path: &str, probe: &FsProbe) -> (r: SshResult<
        PermissionCheckResult,
    >)
        ensures
            check_posix_post(ResourceKind::KeyFile, key_path@, *probe, r),
    {
        posix_check(ResourceKind::KeyFile, key_path, probe)
    }

    /// Plan the repair of a private key file's POSIX permissions: the
    /// file must already exist, and its mode is to become 600.
    pub fn fix_key_permissions(key_path: &str, exists: bool) -> (r: SshResult<FixPlan>)
        ensures
            fix_plan_post(ResourceKind::KeyFile, key_path@, exists, r),
    {
        posix_fix_plan(ResourceKind::KeyFile, key_path, exists)
    }

    /// Check the SSH directory's POSIX permissions against the policy,
    /// given what the caller's metadata read saw.
    pub fn check_ssh_dir_permissions(ssh_dir: &str, probe: &FsProbe) -> (r: SshResult<
        PermissionCheckResult,
    >)
        ensures
            check_posix_post(ResourceKind::SshDirectory, ssh_dir@, *probe, r),
    {
        posix_check(ResourceKind::SshDirectory, ssh_dir, probe)
    }

    /// Plan the repair of the SSH directory's POSIX permissions: the
    /// directory may be created when absent, and its mode is to become
    /// 700.
    pub fn fix_ssh_dir_permissions(ssh_dir: &str, exists: bool) -> (r: SshResult<FixPlan>)
        ensures
            fix_plan_post(ResourceKind::SshDirectory, ssh_dir@, exists, r),
    {
        posix_fix_plan(ResourceKind::SshDirectory, ssh_dir, exists)
    }

    /// Check a private key file's Windows ACL, given whether the path
    /// exists and what running the ACL tool yielded.
    pub fn check_key_permissions_acl(key_path: &str, exists: bool, tool: &AclToolOutput) -> (r:
        SshResult<PermissionCheckResult>)
        ensures
            !exists ==> (r matches Err(e) && e matches
                crate::results::SshBuddyError::KeyNotFound { path } && path@ == key_path@),
            exists ==> exists|u: Seq<char>|
                check_acl_post(ResourceKind::KeyFile, key_path@, *tool, u, r),
    {
        if !exists {
            Err(key_not_found(key_path))
        } else {
            let user = os_username();
            let r = check_acl_with_user(ResourceKind::KeyFile, key_path, tool, user.as_str());
            proof {
                assert(check_acl_post(ResourceKind::KeyFile, key_path@, *tool, user@, r));
            }
            r
        }
    }

    /// Repair a private key file's Windows ACL, given whether the path
    /// exists and what running the ACL tool yielded.
    pub fn fix_key_permissions_acl(key_path: &str, exists: bool, tool: &AclToolOutput) -> (r:
        SshResult<PermissionFixResult>)
        ensures
            !exists ==> (r matches Err(e) && e matches
                crate::results::SshBuddyError::KeyNotFound { path } && path@ == key_path@),
            exists ==> exists|u: Seq<char>| fix_acl_post(ResourceKind::KeyFile, *tool, u, r),
    {
        if !exists {
            Err(key_not_found(key_path))
        } else {
            let user = os_username();
            let r = fix_acl_with_user(ResourceKind::KeyFile, tool, user.as_str());
            proof {
                assert(fix_acl_post(ResourceKind::KeyFile, *tool, user@, r));
            }
            r
        }
    }

    /// Check the SSH directory's Windows ACL, given whether it exists
    /// and what running the ACL tool yielded.  An absent directory is a
    /// negative result, not an error.
    pub fn check_ssh_dir_permissions_acl(ssh_dir: &str, exists: bool, tool: &AclToolOutput) -> (r:
        SshResult<PermissionCheckResult>)
        ensures
            !exists ==> (r matches Ok(c) && !c.is_valid && c.current_mode is None
                && c.expected_mode@ == "User only"@ && c.message@
                == "SSH directory does not exist"@),
            exists ==> exists|u: Seq<char>|
                check_acl_post(ResourceKind::SshDirectory, ssh_dir@, *tool, u, r),
    {
        if !exists {
            Ok(
                PermissionCheckResult {
                    is_valid: false,
                    current_mode: None,
                    expected_mode: crate::policy::expected_mode_windows(),
                    message: String::from_str("SSH directory does not exist"),
                },
            )
        } else {
            let user = os_username();
            let r = check_acl_with_user(ResourceKind::SshDirectory, ssh_dir, tool, user.as_str());
            proof {
                assert(check_acl_post(ResourceKind::SshDirectory, ssh_dir@, *tool, user@, r));
            }
            r
        }
    }

    /// Repair the SSH directory's Windows ACL (the caller has created
    /// the directory first if it was absent), given what running the
    /// ACL tool yielded.
    pub fn fix_ssh_dir_permissions_acl(tool: &AclToolOutput) -> (r: SshResult<PermissionFixResult>)
        ensures
            exists|u: Seq<char>| fix_acl_post(ResourceKind::SshDirectory, *tool, u, r),
    {
        let user = os_username();
        let r = fix_acl_with_user(ResourceKind::SshDirectory, tool, user.as_str());
        proof {
            assert(fix_acl_post(ResourceKind::SshDirectory, *tool, user@, r));
        }
        r
    }
}

} // verus!
