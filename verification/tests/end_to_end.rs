use ssh_permissions::policy::ResourceKind;
use ssh_permissions::posix::{posix_fix_verdict, FsProbe};
use ssh_permissions::{PermissionService, SshBuddyError};

#[test]
fn key_lifecycle_missing_then_lax_then_fixed() {
    let key_path = "/home/u/.ssh/id_ed25519";

    // The key does not exist yet: checking it is a hard error.
    let r = PermissionService::check_key_permissions(key_path, &FsProbe::Missing);
    assert!(matches!(r, Err(SshBuddyError::KeyNotFound { .. })));

    // The key appears with mode 644: the check names both modes.
    let c = PermissionService::check_key_permissions(key_path, &FsProbe::Mode(0o644)).unwrap();
    assert!(!c.is_valid);
    assert_eq!(c.current_mode, Some("644".to_string()));
    assert_eq!(c.expected_mode, "600");

    // Repair: the plan demands mode 600, and the verdict over the
    // re-read bits confirms it took hold.
    let plan = PermissionService::fix_key_permissions(key_path, true).unwrap();
    assert_eq!(plan.mode, 0o600);
    let f = posix_fix_verdict(ResourceKind::KeyFile, plan.mode);
    assert!(f.success);
    assert_eq!(f.new_mode, Some("600".to_string()));

    // A fresh check over the repaired bits is valid.
    let c2 = PermissionService::check_key_permissions(key_path, &FsProbe::Mode(0o600)).unwrap();
    assert!(c2.is_valid);
}
