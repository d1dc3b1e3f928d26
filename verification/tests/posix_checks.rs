use ssh_permissions::posix::FsProbe;
use ssh_permissions::{PermissionService, SshBuddyError};

#[test]
fn check_missing_key_is_resource_not_found() {
    let probe = FsProbe::Missing;
    let r = PermissionService::check_key_permissions("/home/u/.ssh/id_rsa", &probe);
    match r {
        Err(SshBuddyError::KeyNotFound { path }) => {
            assert_eq!(path, "/home/u/.ssh/id_rsa");
        }
        Err(SshBuddyError::IoError { .. }) => panic!("missing key must not be an I/O error"),
        _ => panic!("missing key must be a not-found error"),
    }
}

#[test]
fn check_key_640_reports_invalid_with_modes() {
    let probe = FsProbe::Mode(0o640);
    let c = PermissionService::check_key_permissions("/k", &probe).unwrap();
    assert!(!c.is_valid);
    assert_eq!(c.current_mode, Some("640".to_string()));
    assert_eq!(c.expected_mode, "600");
    assert_eq!(
        c.message,
        "Key permissions are 640 but should be 600. File is too accessible."
    );
}

#[test]
fn check_key_600_reports_valid() {
    let probe = FsProbe::Mode(0o600);
    let c = PermissionService::check_key_permissions("/k", &probe).unwrap();
    assert!(c.is_valid);
    assert_eq!(c.current_mode, Some("600".to_string()));
    assert_eq!(c.expected_mode, "600");
    assert_eq!(c.message, "Key permissions are correct");
}

#[test]
fn check_key_masks_file_type_bits() {
    // A regular file's raw mode carries type bits above the nine
    // permission bits; only the low nine count.
    let probe = FsProbe::Mode(0o100600);
    let c = PermissionService::check_key_permissions("/k", &probe).unwrap();
    assert!(c.is_valid);
    assert_eq!(c.current_mode, Some("600".to_string()));
}

#[test]
fn check_key_more_restrictive_gets_no_credit() {
    let probe = FsProbe::Mode(0o400);
    let c = PermissionService::check_key_permissions("/k", &probe).unwrap();
    assert!(!c.is_valid);
    assert_eq!(c.current_mode, Some("400".to_string()));
}

#[test]
fn check_key_read_error_is_io_error() {
    let probe = FsProbe::ReadError("permission denied".to_string());
    let r = PermissionService::check_key_permissions("/k", &probe);
    match r {
        Err(SshBuddyError::IoError { message }) => {
            assert_eq!(message, "Failed to read file metadata: permission denied");
        }
        _ => panic!("a metadata read failure must surface as an I/O error"),
    }
}

#[test]
fn check_missing_ssh_dir_is_soft_negative() {
    let probe = FsProbe::Missing;
    let c = PermissionService::check_ssh_dir_permissions("/home/u/.ssh", &probe).unwrap();
    assert!(!c.is_valid);
    assert_eq!(c.current_mode, None);
    assert_eq!(c.expected_mode, "700");
    assert_eq!(c.message, "SSH directory does not exist");
}

#[test]
fn check_ssh_dir_750_reports_invalid() {
    let probe = FsProbe::Mode(0o750);
    let c = PermissionService::check_ssh_dir_permissions("/home/u/.ssh", &probe).unwrap();
    assert!(!c.is_valid);
    assert_eq!(c.current_mode, Some("750".to_string()));
    assert_eq!(c.expected_mode, "700");
    assert_eq!(c.message, "SSH directory permissions are 750 but should be 700");
}

#[test]
fn check_ssh_dir_700_reports_valid() {
    let probe = FsProbe::Mode(0o700);
    let c = PermissionService::check_ssh_dir_permissions("/home/u/.ssh", &probe).unwrap();
    assert!(c.is_valid);
    assert_eq!(c.message, "SSH directory permissions are correct");
}

#[test]
fn check_ssh_dir_read_error_is_io_error() {
    let probe = FsProbe::ReadError("boom".to_string());
    let r = PermissionService::check_ssh_dir_permissions("/home/u/.ssh", &probe);
    match r {
        Err(SshBuddyError::IoError { message }) => {
            assert_eq!(message, "Failed to read directory metadata: boom");
        }
        _ => panic!("a metadata read failure must surface as an I/O error"),
    }
}
