use ssh_permissions::paths::ssh_dir_path_from_home;
use ssh_permissions::policy::{
    create_if_missing, expected_mode_posix, expected_mode_windows, expected_octal, ResourceKind,
};
use ssh_permissions::posix::{masked, octal3_string, FsProbe};
use ssh_permissions::results::{io_error_with_context, key_not_found};
use ssh_permissions::text::{split_lines, str_contains, str_is_blank, trimmed_starts_with};
use ssh_permissions::{PermissionService, SshBuddyError};

#[test]
fn split_lines_handles_both_line_endings() {
    assert_eq!(split_lines("a\nb\r\nc"), vec!["a", "b", "c"]);
}

#[test]
fn split_lines_final_line_ending_is_optional() {
    assert_eq!(split_lines("a\nb\n"), vec!["a", "b"]);
    assert_eq!(split_lines("a\nb"), vec!["a", "b"]);
}

#[test]
fn split_lines_of_empty_text_is_empty() {
    assert_eq!(split_lines(""), Vec::<String>::new());
}

#[test]
fn split_lines_keeps_empty_segments() {
    assert_eq!(split_lines("\n\n"), vec!["", ""]);
}

#[test]
fn split_lines_keeps_bare_trailing_carriage_return() {
    assert_eq!(split_lines("a\r"), vec!["a\r"]);
}

#[test]
fn str_contains_finds_substrings() {
    assert!(str_contains("NT AUTHORITY\\SYSTEM:(F)", "NT AUTHORITY\\SYSTEM"));
    assert!(str_contains("abc", ""));
    assert!(!str_contains("abc", "abcd"));
    assert!(!str_contains("user:(F)", "admin"));
}

#[test]
fn str_is_blank_sees_whitespace_only() {
    assert!(str_is_blank(""));
    assert!(str_is_blank(" \t "));
    assert!(!str_is_blank(" x "));
}

#[test]
fn trimmed_starts_with_ignores_leading_whitespace() {
    assert!(trimmed_starts_with("   Successfully processed", "Successfully"));
    assert!(trimmed_starts_with("Successfully", "Successfully"));
    assert!(!trimmed_starts_with("processed Successfully", "Successfully"));
    assert!(!trimmed_starts_with("   ", "Successfully"));
}

#[test]
fn octal_rendering_is_three_digits() {
    assert_eq!(octal3_string(0o755), "755");
    assert_eq!(octal3_string(0), "000");
    assert_eq!(octal3_string(0o7), "007");
}

#[test]
fn masking_keeps_the_low_nine_bits() {
    assert_eq!(masked(0o100644), 0o644);
    assert_eq!(masked(0o600), 0o600);
}

#[test]
fn policy_maps_kinds_to_targets() {
    assert_eq!(expected_octal(ResourceKind::KeyFile), 0o600);
    assert_eq!(expected_octal(ResourceKind::SshDirectory), 0o700);
    assert!(!create_if_missing(ResourceKind::KeyFile));
    assert!(create_if_missing(ResourceKind::SshDirectory));
    assert_eq!(expected_mode_posix(ResourceKind::KeyFile), "600");
    assert_eq!(expected_mode_posix(ResourceKind::SshDirectory), "700");
    assert_eq!(expected_mode_windows(), "User only");
}

#[test]
fn ssh_dir_path_is_under_home() {
    assert_eq!(ssh_dir_path_from_home("/home/u"), "/home/u/.ssh");
}

#[test]
fn ssh_dir_path_ends_with_ssh_segment() {
    match ssh_permissions::paths::ssh_dir_path() {
        Ok(p) => assert!(p.ends_with("/.ssh")),
        Err(SshBuddyError::HomeDirNotFound) => {}
        Err(_) => panic!("only an unresolvable home may fail here"),
    }
}

#[test]
fn posix_check_is_deterministic() {
    let probe = FsProbe::Mode(0o640);
    let a = PermissionService::check_key_permissions("/k", &probe).unwrap();
    let b = PermissionService::check_key_permissions("/k", &probe).unwrap();
    assert_eq!(a.is_valid, b.is_valid);
    assert_eq!(a.current_mode, b.current_mode);
    assert_eq!(a.expected_mode, b.expected_mode);
    assert_eq!(a.message, b.message);
}

#[test]
fn error_constructors_pin_their_messages() {
    match key_not_found("/k") {
        SshBuddyError::KeyNotFound { path } => assert_eq!(path, "/k"),
        _ => panic!("wrong error variant"),
    }
    match io_error_with_context("Failed to read file metadata: ", "oops") {
        SshBuddyError::IoError { message } => {
            assert_eq!(message, "Failed to read file metadata: oops")
        }
        _ => panic!("wrong error variant"),
    }
}
