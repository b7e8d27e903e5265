use backups::config::Configuration;
use backups::errors::{classify_ssh_exit, probe_classification, BackupError};
use backups::runner::{Runner, RunnerAction};
use backups::target::SshRsyncTarget;
use backups::timestamp::Timestamp;

fn two_target_configuration() -> Configuration {
    Configuration::new(
        false,
        None,
        String::from("/home/bart"),
        vec![
            SshRsyncTarget::new(
                String::from("bart"),
                String::from("unreachable.example.com"),
                22,
                String::from("/var/backups/bart"),
            ),
            SshRsyncTarget::new(
                String::from("bart"),
                String::from("reachable.example.com"),
                2222,
                String::from("/var/backups/bart"),
            ),
        ],
    )
}

#[test]
fn run_probes_each_target_once_and_rotates_only_the_ready_one() {
    let configuration = two_target_configuration();
    let mut runner = Runner::new(configuration);
    let mut probes: Vec<usize> = Vec::new();
    let mut rotations: Vec<usize> = Vec::new();
    loop {
        match runner.next_action() {
            RunnerAction::ProbeTarget(i) => {
                probes.push(i);
                // Target 0 refuses the connection; target 1 is reachable.
                let probe_result = if i == 0 {
                    probe_classification(classify_ssh_exit(Some(255), String::new()))
                } else {
                    probe_classification(classify_ssh_exit(Some(0), String::new()))
                };
                runner.note_probe(probe_result.is_ok());
            }
            RunnerAction::RunSnapshot(i) => {
                rotations.push(i);
                let timestamp =
                    Timestamp { year: 2026, month: 10, day: 11, hour: 8, minute: 0, second: 0 };
                let command = runner.configuration.targets[i].rotation_command(&timestamp);
                assert!(command.contains("backup-2026-10-11_08-00-00_UTC"));
                runner.note_snapshot(Ok(()));
            }
            RunnerAction::Finished => break,
        }
    }
    // Exactly one probe against the unreachable target, one against the
    // reachable one, and one rotation, against the reachable one only.
    assert_eq!(probes, vec![0, 1]);
    assert_eq!(rotations, vec![1]);
    assert_eq!(runner.selector.probe_count, 2);
    assert!(matches!(runner.outcome(), Some(Ok(()))));
}

#[test]
fn run_with_no_targets_fails_without_probing() {
    let configuration = Configuration::new(false, None, String::from("/home/bart"), Vec::new());
    let runner = Runner::new(configuration);
    assert!(matches!(runner.next_action(), RunnerAction::Finished));
    assert!(matches!(
        runner.outcome(),
        Some(Err(BackupError::NoReachableTarget))
    ));
    assert_eq!(runner.selector.probe_count, 0);
}

#[test]
fn run_with_no_reachable_target_reports_it() {
    let configuration = two_target_configuration();
    let mut runner = Runner::new(configuration);
    loop {
        match runner.next_action() {
            RunnerAction::ProbeTarget(_) => runner.note_probe(false),
            RunnerAction::RunSnapshot(_) => panic!("no target was ready"),
            RunnerAction::Finished => break,
        }
    }
    assert!(matches!(
        runner.outcome(),
        Some(Err(BackupError::NoReachableTarget))
    ));
    assert_eq!(runner.selector.probe_count, 2);
}

#[test]
fn a_failed_rotation_is_propagated_unchanged() {
    let configuration = two_target_configuration();
    let mut runner = Runner::new(configuration);
    runner.note_probe(true);
    assert!(matches!(runner.next_action(), RunnerAction::RunSnapshot(0)));
    runner.note_snapshot(Err(BackupError::CommandFailed {
        exit_status: 12,
        stderr: String::from("mkdir: permission denied"),
    }));
    match runner.outcome() {
        Some(Err(BackupError::CommandFailed { exit_status, stderr })) => {
            assert_eq!(exit_status, 12);
            assert_eq!(stderr, "mkdir: permission denied");
        }
        other => panic!("expected the rotation's own error, got {:?}", other),
    }
}

#[test]
fn a_committed_target_is_not_given_up_mid_run() {
    // Once a target is committed, a failed rotation ends the run: the next
    // action is Finished, never another probe.
    let configuration = two_target_configuration();
    let mut runner = Runner::new(configuration);
    runner.note_probe(true);
    runner.note_snapshot(Err(BackupError::ConnectionFailed));
    assert!(matches!(runner.next_action(), RunnerAction::Finished));
    assert!(matches!(
        runner.outcome(),
        Some(Err(BackupError::ConnectionFailed))
    ));
}
