use ssh_permissions::policy::ResourceKind;
use ssh_permissions::posix::{
    create_dir_error, posix_fix_verdict, set_mode_error, verify_mode_error, FsProbe,
};
use ssh_permissions::{PermissionService, SshBuddyError};

#[test]
fn fix_missing_key_is_resource_not_found() {
    let r = PermissionService::fix_key_permissions("/k", false);
    match r {
        Err(SshBuddyError::KeyNotFound { path }) => assert_eq!(path, "/k"),
        _ => panic!("fixing a missing key must be a not-found error"),
    }
}

#[test]
fn fix_key_plan_sets_600_without_creation() {
    let plan = PermissionService::fix_key_permissions("/k", true).unwrap();
    assert!(!plan.create_dir);
    assert_eq!(plan.mode, 0o600);
}

#[test]
fn fix_verdict_600_succeeds() {
    let f = posix_fix_verdict(ResourceKind::KeyFile, 0o600);
    assert!(f.success);
    assert_eq!(f.new_mode, Some("600".to_string()));
    assert_eq!(f.message, "Permissions set to 600");
}

#[test]
fn fix_verdict_644_fails_and_reports_what_stuck() {
    let f = posix_fix_verdict(ResourceKind::KeyFile, 0o644);
    assert!(!f.success);
    assert_eq!(f.new_mode, Some("644".to_string()));
    assert_eq!(f.message, "Permissions set to 644");
}

#[test]
fn fix_key_at_600_is_idempotent() {
    let first = posix_fix_verdict(ResourceKind::KeyFile, 0o600);
    let again = posix_fix_verdict(ResourceKind::KeyFile, 0o600);
    assert_eq!(first.success, again.success);
    assert_eq!(first.message, again.message);
    assert_eq!(first.new_mode, again.new_mode);
    assert_eq!(again.new_mode, Some("600".to_string()));
}

#[test]
fn fix_absent_ssh_dir_plans_creation_at_700() {
    let plan = PermissionService::fix_ssh_dir_permissions("/home/u/.ssh", false).unwrap();
    assert!(plan.create_dir);
    assert_eq!(plan.mode, 0o700);
    let f = posix_fix_verdict(ResourceKind::SshDirectory, 0o700);
    assert!(f.success);
    assert_eq!(f.new_mode, Some("700".to_string()));
    assert_eq!(f.message, "SSH directory permissions set to 700");
}

#[test]
fn fix_existing_ssh_dir_plans_no_creation() {
    let plan = PermissionService::fix_ssh_dir_permissions("/home/u/.ssh", true).unwrap();
    assert!(!plan.create_dir);
    assert_eq!(plan.mode, 0o700);
}

#[test]
fn fix_dir_verdict_catches_umask_leftovers() {
    // Directory creation under a permissive umask can leave wider bits;
    // the verdict judges the bits actually re-read.
    let f = posix_fix_verdict(ResourceKind::SshDirectory, 0o775);
    assert!(!f.success);
    assert_eq!(f.new_mode, Some("775".to_string()));
}

#[test]
fn check_after_successful_fix_is_valid() {
    let f = posix_fix_verdict(ResourceKind::KeyFile, 0o600);
    assert!(f.success);
    let probe = FsProbe::Mode(0o600);
    let c = PermissionService::check_key_permissions("/k", &probe).unwrap();
    assert!(c.is_valid);
    assert_eq!(c.current_mode, Some(c.expected_mode.clone()));
}

#[test]
fn fix_error_messages_carry_context() {
    match set_mode_error(ResourceKind::KeyFile, "denied") {
        SshBuddyError::IoError { message } => {
            assert_eq!(message, "Failed to set permissions: denied")
        }
        _ => panic!("set failure must be an I/O error"),
    }
    match set_mode_error(ResourceKind::SshDirectory, "denied") {
        SshBuddyError::IoError { message } => {
            assert_eq!(message, "Failed to set directory permissions: denied")
        }
        _ => panic!("set failure must be an I/O error"),
    }
    match verify_mode_error("gone") {
        SshBuddyError::IoError { message } => {
            assert_eq!(message, "Failed to verify permissions: gone")
        }
        _ => panic!("verify failure must be an I/O error"),
    }
    match create_dir_error("read-only fs") {
        SshBuddyError::IoError { message } => {
            assert_eq!(message, "Failed to create SSH directory: read-only fs")
        }
        _ => panic!("creation failure must be an I/O error"),
    }
}
