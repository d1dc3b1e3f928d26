//! Laws relating the check and fix operations.
//!
//! Each proof function here states a property of the contracts in
//! [`crate::posix`], quantified over every input those contracts allow,
//! and Verus proves it from the contracts alone.

use vstd::prelude::*;

use crate::acl::{check_acl_post, fix_acl_post, AclToolOutput};
use crate::policy::{spec_expected_mode_posix, spec_expected_octal, ResourceKind};
use crate::posix::{
    check_posix_post, fix_plan_post, fix_verdict_post, spec_masked, spec_octal3, FixPlan, FsProbe,
};
use crate::results::{PermissionCheckResult, PermissionFixResult, SshBuddyError, SshResult};

verus! {

/// The three octal digits of a kind's expected mode spell its expected
/// descriptor string.
pub proof fn lemma_octal_of_expected(kind: ResourceKind)
    ensures
        spec_octal3(spec_expected_octal(kind)) == spec_expected_mode_posix(kind),
{
    reveal_strlit("600");
    reveal_strlit("700");
    match kind {
        ResourceKind::KeyFile => {
            assert(spec_octal3(0o600) =~= "600"@);
        },
        ResourceKind::SshDirectory => {
            assert(spec_octal3(0o700) =~= "700"@);
        },
    }
}

/// A POSIX check after a successful POSIX fix reports a valid state,
/// and the mode it reports equals the expected descriptor: a fix that
/// verified mode bits `m` succeeded only if `m` masks to the expected
/// octal value, and a later check that reads those same bits must then
/// find them valid.
pub proof fn lemma_check_after_fix_posix(
    kind: ResourceKind,
    res_path: Seq<char>,
    m: u32,
    fr: PermissionFixResult,
    cr: SshResult<PermissionCheckResult>,
)
    requires
        fix_verdict_post(kind, m, fr),
        fr.success,
        check_posix_post(kind, res_path, FsProbe::Mode(m), cr),
    ensures
        cr matches Ok(c) && c.is_valid,
        cr matches Ok(c) && (c.current_mode matches Some(cm) && cm@ == c.expected_mode@),
{
    lemma_octal_of_expected(kind);
}

/// Fixing a key file that already carries the expected mode is
/// idempotent: the verdict is a success that reports the mode
/// unchanged, and a second verdict over the same bits reads the same.
pub proof fn lemma_fix_key_at_target_idempotent(
    m: u32,
    fr1: PermissionFixResult,
    fr2: PermissionFixResult,
)
    requires
        spec_masked(m) == spec_expected_octal(ResourceKind::KeyFile),
        fix_verdict_post(ResourceKind::KeyFile, m, fr1),
        fix_verdict_post(ResourceKind::KeyFile, m, fr2),
    ensures
        fr1.success,
        fr1.new_mode matches Some(nm) && nm@ == "600"@,
        fr1.success == fr2.success,
        fr1.message@ == fr2.message@,
        match (fr1.new_mode, fr2.new_mode) {
            (Some(n1), Some(n2)) => n1@ == n2@,
            _ => false,
        },
{
    lemma_octal_of_expected(ResourceKind::KeyFile);
}

/// A check of a missing key path fails with the not-found error naming
/// that path — never with an I/O error.
pub proof fn lemma_check_missing_key_not_found(
    res_path: Seq<char>,
    cr: SshResult<PermissionCheckResult>,
)
    requires
        check_posix_post(ResourceKind::KeyFile, res_path, FsProbe::Missing, cr),
    ensures
        cr matches Err(e) && e matches SshBuddyError::KeyNotFound { path } && path@ == res_path,
        !(cr matches Err(e) && e is IoError),
{
}

/// Fixing an absent SSH directory plans its creation with mode 700, and
/// when the re-read bits equal 700 the repair is judged a success that
/// reports "700".
pub proof fn lemma_fix_dir_creates_and_secures(
    res_path: Seq<char>,
    rp: SshResult<FixPlan>,
    fr: PermissionFixResult,
)
    requires
        fix_plan_post(ResourceKind::SshDirectory, res_path, false, rp),
        fix_verdict_post(ResourceKind::SshDirectory, 0o700, fr),
    ensures
        rp matches Ok(plan) && plan.create_dir && plan.mode == 0o700,
        fr.success,
        fr.new_mode matches Some(nm) && nm@ == "700"@,
{
    assert(spec_masked(0o700) == 0o700) by (bit_vector);
    lemma_octal_of_expected(ResourceKind::SshDirectory);
}

/// Two results of the same check are the same result: a check is a pure
/// read of its probe, so what it reports is what an immediate second
/// check would report.
pub open spec fn same_check_result(
    r1: SshResult<PermissionCheckResult>,
    r2: SshResult<PermissionCheckResult>,
) -> bool {
    match (r1, r2) {
        (Ok(a), Ok(b)) => {
            &&& a.is_valid == b.is_valid
            &&& match (a.current_mode, b.current_mode) {
                (Some(x), Some(y)) => x@ == y@,
                (None, None) => true,
                _ => false,
            }
            &&& a.expected_mode@ == b.expected_mode@
            &&& a.message@ == b.message@
        },
        (
            Err(SshBuddyError::KeyNotFound { path: p1 }),
            Err(SshBuddyError::KeyNotFound { path: p2 }),
        ) => p1@ == p2@,
        (Err(SshBuddyError::HomeDirNotFound), Err(SshBuddyError::HomeDirNotFound)) => true,
        (Err(SshBuddyError::IoError { message: m1 }), Err(SshBuddyError::IoError { message: m2 }))
            => m1@ == m2@,
        _ => false,
    }
}

/// A POSIX check is deterministic in its probe: any two results that
/// meet the check's contract for the same path and probe agree on every
/// observable field.
pub proof fn lemma_check_posix_deterministic(
    kind: ResourceKind,
    res_path: Seq<char>,
    probe: FsProbe,
    r1: SshResult<PermissionCheckResult>,
    r2: SshResult<PermissionCheckResult>,
)
    requires
        check_posix_post(kind, res_path, probe, r1),
        check_posix_post(kind, res_path, probe, r2),
    ensures
        same_check_result(r1, r2),
{
}

/// A Windows check is deterministic in the tool's outcome and the
/// account name: any two results that meet the check's contract for the
/// same path, capture and account agree on every observable field.
pub proof fn lemma_check_acl_deterministic(
    kind: ResourceKind,
    res_path: Seq<char>,
    tool: AclToolOutput,
    user: Seq<char>,
    r1: SshResult<PermissionCheckResult>,
    r2: SshResult<PermissionCheckResult>,
)
    requires
        check_acl_post(kind, res_path, tool, user, r1),
        check_acl_post(kind, res_path, tool, user, r2),
    ensures
        same_check_result(r1, r2),
{
}

/// Two results of the same repair are the same result, field for field.
pub open spec fn same_fix_result(
    r1: SshResult<PermissionFixResult>,
    r2: SshResult<PermissionFixResult>,
) -> bool {
    match (r1, r2) {
        (Ok(a), Ok(b)) => {
            &&& a.success == b.success
            &&& a.message@ == b.message@
            &&& match (a.new_mode, b.new_mode) {
                (Some(x), Some(y)) => x@ == y@,
                (None, None) => true,
                _ => false,
            }
        },
        (
            Err(SshBuddyError::KeyNotFound { path: p1 }),
            Err(SshBuddyError::KeyNotFound { path: p2 }),
        ) => p1@ == p2@,
        (Err(SshBuddyError::HomeDirNotFound), Err(SshBuddyError::HomeDirNotFound)) => true,
        (Err(SshBuddyError::IoError { message: m1 }), Err(SshBuddyError::IoError { message: m2 }))
            => m1@ == m2@,
        _ => false,
    }
}

/// A POSIX repair verdict depends on the re-read bits alone: judging the
/// same bits twice reads the same.
pub proof fn lemma_fix_posix_deterministic(
    kind: ResourceKind,
    new_mode: u32,
    fr1: PermissionFixResult,
    fr2: PermissionFixResult,
)
    requires
        fix_verdict_post(kind, new_mode, fr1),
        fix_verdict_post(kind, new_mode, fr2),
    ensures
        same_fix_result(Ok(fr1), Ok(fr2)),
{
}

/// A Windows repair verdict depends on the tool's outcome and the
/// account name alone: judged over the same outcome it reads the same,
/// so a re-run whose tool outcome is again a success still reports
/// success with the same owner-exclusive descriptor.
pub proof fn lemma_fix_acl_deterministic(
    kind: ResourceKind,
    tool: AclToolOutput,
    user: Seq<char>,
    r1: SshResult<PermissionFixResult>,
    r2: SshResult<PermissionFixResult>,
)
    requires
        fix_acl_post(kind, tool, user, r1),
        fix_acl_post(kind, tool, user, r2),
    ensures
        same_fix_result(r1, r2),
{
}

} // verus!
