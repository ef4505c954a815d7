use matrix_cli::dispatch::Report;
use matrix_cli::errors::{CliError, ErrorClass};
use matrix_cli::run::{process_exit, TaskOutcome};

#[test]
fn a_completed_command_exits_zero() {
    let outcome = TaskOutcome::CommandEnded { result: Ok(Report::Nothing) };
    assert_eq!(process_exit(&outcome), 0);
}

#[test]
fn usage_errors_exit_two() {
    for e in [
        CliError::MissingCredentials,
        CliError::BadHomeserverUrl { url: String::from("x") },
        CliError::BadRoomName { name: String::new() },
        CliError::BadRoomVersion { version: String::new() },
        CliError::UnknownMediaType { path: String::from("f") },
        CliError::MalformedReference { token: String::from("t") },
    ] {
        let outcome = TaskOutcome::CommandEnded { result: Err(e) };
        assert_eq!(process_exit(&outcome), 2);
    }
}

#[test]
fn remote_and_session_failures_exit_one() {
    for e in [
        CliError::Remote { detail: String::from("500") },
        CliError::InvalidSession,
        CliError::CorruptSession { path: String::from("p") },
        CliError::AliasNotFound { alias: String::from("#a:b") },
        CliError::NotMember { room_id: String::from("!r:b") },
        CliError::Io { path: String::from("p") },
    ] {
        let outcome = TaskOutcome::CommandEnded { result: Err(e) };
        assert_eq!(process_exit(&outcome), 1);
    }
}

#[test]
fn a_fatal_sync_failure_decides_the_process() {
    let outcome = TaskOutcome::SyncEnded { error: CliError::InvalidSession };
    assert_eq!(process_exit(&outcome), 1);
}

#[test]
fn every_error_names_its_class() {
    assert!(matches!(CliError::MissingCredentials.class(), ErrorClass::Configuration));
    assert!(matches!(
        CliError::CorruptSession { path: String::new() }.class(),
        ErrorClass::Session
    ));
    assert!(matches!(CliError::InvalidSession.class(), ErrorClass::Session));
    assert!(matches!(
        CliError::MalformedReference { token: String::new() }.class(),
        ErrorClass::Resolution
    ));
    assert!(matches!(
        CliError::AliasNotFound { alias: String::new() }.class(),
        ErrorClass::Resolution
    ));
    assert!(matches!(
        CliError::NotMember { room_id: String::new() }.class(),
        ErrorClass::Membership
    ));
    assert!(matches!(CliError::Io { path: String::new() }.class(), ErrorClass::Io));
    assert!(matches!(
        CliError::Remote { detail: String::new() }.class(),
        ErrorClass::Remote
    ));
}

#[test]
fn reports_name_the_offending_input() {
    let e = CliError::AliasNotFound { alias: String::from("#general:example.org") };
    assert_eq!(e.report(), "no room found for alias: #general:example.org");
    let e = CliError::NotMember { room_id: String::from("!r:example.org") };
    assert_eq!(e.report(), "you have not joined this room: !r:example.org");
    let e = CliError::Io { path: String::from("/tmp/session") };
    assert_eq!(e.report(), "cannot read or write: /tmp/session");
}
