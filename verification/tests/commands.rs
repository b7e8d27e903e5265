use backups::errors::{classify_local_exit, classify_ssh_exit, probe_classification, BackupError};
use backups::target::{notify_arguments, SshRsyncTarget};
use backups::text::{dec_string, dec_string_signed, pad2_string, pad4_string};
use backups::timestamp::Timestamp;

fn example_target() -> SshRsyncTarget {
    SshRsyncTarget::new(
        String::from("bart"),
        String::from("example.com"),
        22,
        String::from("/var/backups/bart"),
    )
}

#[test]
fn decimal_rendering_is_exact() {
    assert_eq!(dec_string(0), "0");
    assert_eq!(dec_string(7), "7");
    assert_eq!(dec_string(22), "22");
    assert_eq!(dec_string(65535), "65535");
    assert_eq!(dec_string_signed(-5), "-5");
    assert_eq!(dec_string_signed(255), "255");
    assert_eq!(pad2_string(7), "07");
    assert_eq!(pad2_string(59), "59");
    assert_eq!(pad4_string(2026), "2026");
    assert_eq!(pad4_string(9), "0009");
}

#[test]
fn to_ssh_renders_user_host_and_path() {
    assert_eq!(example_target().to_ssh(), "bart@example.com:/var/backups/bart");
}

#[test]
fn display_string_names_the_target_without_credentials() {
    assert_eq!(
        example_target().display_string(),
        "bart@example.com:/var/backups/bart, port 22"
    );
}

#[test]
fn ssh_destination_is_user_at_host() {
    assert_eq!(example_target().ssh_destination(), "bart@example.com");
}

#[test]
fn ssh_arguments_carry_the_connection_timeout() {
    let arguments = example_target().ssh_arguments(&String::from("exit"));
    assert_eq!(
        arguments,
        vec![
            "-i",
            "~/.ssh/id_rsa",
            "-o",
            "ConnectTimeout=3",
            "-p",
            "22",
            "bart@example.com",
            "exit",
        ]
    );
}

#[test]
fn probe_command_is_a_no_op() {
    assert_eq!(SshRsyncTarget::probe_command(), "exit");
}

#[test]
fn timestamp_token_is_sortable_and_padded() {
    let timestamp = Timestamp { year: 2024, month: 1, day: 31, hour: 23, minute: 5, second: 9 };
    assert_eq!(timestamp.token(), "2024-01-31_23-05-09_UTC");
}

#[test]
fn timestamp_from_parts_accepts_only_calendar_values() {
    let timestamp = Timestamp::from_parts(2026, 10, 11, 0, 0, 0).unwrap();
    assert_eq!(timestamp.year, 2026);
    assert_eq!(timestamp.month, 10);
    assert_eq!(timestamp.day, 11);
    assert!(Timestamp::from_parts(10000, 1, 1, 0, 0, 0).is_none());
    assert!(Timestamp::from_parts(-1, 1, 1, 0, 0, 0).is_none());
    assert!(Timestamp::from_parts(2026, 0, 1, 0, 0, 0).is_none());
    assert!(Timestamp::from_parts(2026, 13, 1, 0, 0, 0).is_none());
    assert!(Timestamp::from_parts(2026, 1, 32, 0, 0, 0).is_none());
    assert!(Timestamp::from_parts(2026, 1, 1, 24, 0, 0).is_none());
    assert!(Timestamp::from_parts(2026, 1, 1, 0, 60, 0).is_none());
    assert!(Timestamp::from_parts(2026, 1, 1, 0, 0, 60).is_none());
}

#[test]
fn tokens_sort_in_capture_order() {
    let new_year = Timestamp { year: 2024, month: 12, day: 31, hour: 23, minute: 59, second: 59 };
    let after_midnight = Timestamp { year: 2025, month: 1, day: 1, hour: 0, minute: 0, second: 0 };
    assert!(new_year.token() < after_midnight.token());
    let nine = Timestamp { year: 2025, month: 9, day: 30, hour: 0, minute: 0, second: 0 };
    let ten = Timestamp { year: 2025, month: 10, day: 1, hour: 0, minute: 0, second: 0 };
    assert!(nine.token() < ten.token());
    let second_earlier = Timestamp { year: 2025, month: 10, day: 1, hour: 12, minute: 0, second: 8 };
    let second_later = Timestamp { year: 2025, month: 10, day: 1, hour: 12, minute: 0, second: 9 };
    assert!(second_earlier.token() < second_later.token());
}

#[test]
fn the_clock_yields_a_well_formed_timestamp() {
    let timestamp = backups::timestamp::now_utc().expect("the clock's year fits the token");
    let token = timestamp.token();
    assert_eq!(token.chars().count(), 23);
    assert!(token.ends_with("_UTC"));
    assert!((1..=12).contains(&timestamp.month));
    assert!((1..=31).contains(&timestamp.day));
    assert!(timestamp.hour <= 23);
    assert!(timestamp.minute <= 59);
    assert!(timestamp.second <= 59);
}

#[test]
fn rotation_command_substitutes_the_token_everywhere() {
    let timestamp = Timestamp { year: 2024, month: 1, day: 31, hour: 23, minute: 5, second: 9 };
    let command = example_target().rotation_command(&timestamp);
    // Creation runs only where no directory of the token's name exists yet,
    // so a second run in the same clock second (alias and directory both
    // present) skips the copy and only relinks the alias, without error.
    assert_eq!(
        command,
        "cd '/var/backups/bart' && if [ ! -d backup-2024-01-31_23-05-09_UTC ]; then \
         if [ -d backup-latest ]; then \
         cp -al $(readlink backup-latest) backup-2024-01-31_23-05-09_UTC; \
         else mkdir backup-2024-01-31_23-05-09_UTC; fi; fi \
         && rm -f backup-latest && ln -s backup-2024-01-31_23-05-09_UTC backup-latest"
    );
}

#[test]
fn rotation_command_quotes_a_path_with_spaces() {
    let target = SshRsyncTarget::new(
        String::from("bart"),
        String::from("example.com"),
        22,
        String::from("/var/backups/my data"),
    );
    let timestamp = Timestamp { year: 2024, month: 1, day: 31, hour: 23, minute: 5, second: 9 };
    assert!(target.path_is_shell_safe());
    let command = target.rotation_command(&timestamp);
    assert!(command.starts_with("cd '/var/backups/my data' && "));
}

#[test]
fn a_path_with_a_single_quote_is_not_shell_safe() {
    let quoted = SshRsyncTarget::new(
        String::from("bart"),
        String::from("example.com"),
        22,
        String::from("/var/backups/bart's files"),
    );
    assert!(!quoted.path_is_shell_safe());
    assert!(example_target().path_is_shell_safe());
}

#[test]
fn classify_treats_zero_as_success() {
    assert!(classify_ssh_exit(Some(0), String::new()).is_ok());
}

#[test]
fn classify_treats_the_shells_own_status_as_connection_failure() {
    assert!(matches!(
        classify_ssh_exit(Some(255), String::new()),
        Err(BackupError::ConnectionFailed)
    ));
    assert!(matches!(
        classify_ssh_exit(None, String::new()),
        Err(BackupError::ConnectionFailed)
    ));
}

#[test]
fn classify_keeps_the_commands_exit_status_and_stderr() {
    match classify_ssh_exit(Some(12), String::from("mkdir: permission denied")) {
        Err(BackupError::CommandFailed { exit_status, stderr }) => {
            assert_eq!(exit_status, 12);
            assert_eq!(stderr, "mkdir: permission denied");
        }
        other => panic!("expected CommandFailed, got {:?}", other),
    }
}

#[test]
fn a_local_helper_exit_is_never_a_connection_failure() {
    assert!(classify_local_exit(Some(0), String::new()).is_ok());
    match classify_local_exit(Some(255), String::from("sudo: a password is required")) {
        Err(BackupError::CommandFailed { exit_status, stderr }) => {
            assert_eq!(exit_status, 255);
            assert_eq!(stderr, "sudo: a password is required");
        }
        other => panic!("expected CommandFailed, got {:?}", other),
    }
    match classify_local_exit(None, String::new()) {
        Err(BackupError::CommandFailed { exit_status, .. }) => assert_eq!(exit_status, -1),
        other => panic!("expected CommandFailed, got {:?}", other),
    }
}

#[test]
fn probe_failures_all_become_connection_failed() {
    let command_failure = Err(BackupError::CommandFailed {
        exit_status: 12,
        stderr: String::from("boom"),
    });
    assert!(matches!(
        probe_classification(command_failure),
        Err(BackupError::ConnectionFailed)
    ));
    assert!(matches!(
        probe_classification(Err(BackupError::ConnectionFailed)),
        Err(BackupError::ConnectionFailed)
    ));
    assert!(probe_classification(Ok(())).is_ok());
}

#[test]
fn describe_renders_each_error() {
    assert_eq!(
        BackupError::ConnectionFailed.describe(),
        "could not connect to the target"
    );
    assert_eq!(
        BackupError::NoReachableTarget.describe(),
        "could not connect to any of the targets"
    );
    let failed = BackupError::CommandFailed { exit_status: 3, stderr: String::from("boom") };
    assert_eq!(
        failed.describe(),
        "the remote command failed with exit status 3: boom"
    );
}

#[test]
fn notify_arguments_address_the_configured_user() {
    let arguments = notify_arguments(&String::from("bart"), &String::from("Back-up complete."));
    assert_eq!(
        arguments,
        vec!["-i", "-u", "bart", "notify-send", "Back-up complete."]
    );
}
