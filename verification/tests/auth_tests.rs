use matrix_cli::auth::{
    homeserver_host, AuthConfig, AuthEvent, AuthOp, AuthStep, Authenticator, LoginGrant,
};
use matrix_cli::errors::CliError;
use matrix_cli::session::encode_session;

fn base_config() -> AuthConfig {
    AuthConfig {
        homeserver_url: String::from("https://example.org"),
        username: None,
        password: None,
        session_file: None,
    }
}

#[test]
fn host_is_taken_from_the_homeserver_url() {
    let cfg = AuthConfig { homeserver_url: String::from("https://matrix.org"), ..base_config() };
    assert_eq!(homeserver_host(&cfg).unwrap(), "matrix.org");
}

#[test]
fn unparsable_homeserver_url_is_a_configuration_error() {
    let cfg = AuthConfig { homeserver_url: String::from("not a url"), ..base_config() };
    match homeserver_host(&cfg) {
        Err(CliError::BadHomeserverUrl { url }) => assert_eq!(url, "not a url"),
        _ => panic!("an unparsable url must be BadHomeserverUrl"),
    }
}

#[test]
fn missing_password_fails_before_any_operation() {
    let cfg = AuthConfig { username: Some(String::from("alice")), ..base_config() };
    let (_, step) = Authenticator::start(cfg, false);
    assert!(matches!(step, AuthStep::Fail { error: CliError::MissingCredentials }));
}

#[test]
fn missing_username_fails_before_any_operation() {
    let cfg = AuthConfig { password: Some(String::from("pw")), ..base_config() };
    let (_, step) = Authenticator::start(cfg, false);
    assert!(matches!(step, AuthStep::Fail { error: CliError::MissingCredentials }));
}

#[test]
fn existing_session_file_never_needs_credentials() {
    let with_creds = AuthConfig {
        username: Some(String::from("alice")),
        password: Some(String::from("pw")),
        session_file: Some(String::from("/tmp/session")),
        ..base_config()
    };
    let without_creds = AuthConfig {
        session_file: Some(String::from("/tmp/session")),
        ..base_config()
    };
    for cfg in [with_creds, without_creds] {
        let (_, step) = Authenticator::start(cfg, true);
        match step {
            AuthStep::Do { op: AuthOp::ReadSessionFile { path } } => {
                assert_eq!(path, "/tmp/session");
            },
            _ => panic!("an existing session file must be restored, never logged in afresh"),
        }
    }
}

#[test]
fn restore_path_runs_to_ready_after_the_snapshot() {
    let cfg = AuthConfig {
        session_file: Some(String::from("/tmp/session")),
        ..base_config()
    };
    let (mut auth, _) = Authenticator::start(cfg, true);
    let session = matrix_cli::session::Session {
        user_id: String::from("@alice:example.org"),
        device_id: String::from("DEV"),
        access_token: String::from("SECRET-REDACTED"),
        homeserver: String::from("https://example.org"),
    };
    let text = encode_session(&session);
    let step = auth.on_event(AuthEvent::FileRead { text: Some(text) });
    match step {
        AuthStep::Do { op: AuthOp::RestoreSession { session: s } } => assert_eq!(s, session),
        _ => panic!("a parsable session file must be restored"),
    }
    let step = auth.on_event(AuthEvent::RestoreResult { accepted: true });
    assert!(matches!(step, AuthStep::Do { op: AuthOp::InitialSnapshot }));
    let step = auth.on_event(AuthEvent::SnapshotResult { result: Ok(()) });
    assert!(matches!(step, AuthStep::Ready));
}

#[test]
fn corrupt_session_file_is_reported_not_masked() {
    let cfg = AuthConfig {
        username: Some(String::from("alice")),
        password: Some(String::from("pw")),
        session_file: Some(String::from("/tmp/session")),
        ..base_config()
    };
    let (mut auth, _) = Authenticator::start(cfg, true);
    let step = auth.on_event(AuthEvent::FileRead { text: Some(String::from("garbage")) });
    match step {
        AuthStep::Fail { error: CliError::CorruptSession { path } } => {
            assert_eq!(path, "/tmp/session");
        },
        _ => panic!("a corrupt session file must not fall back to a fresh login"),
    }
}

#[test]
fn rejected_restored_credential_is_invalid_session() {
    let cfg = AuthConfig {
        session_file: Some(String::from("/tmp/session")),
        ..base_config()
    };
    let (mut auth, _) = Authenticator::start(cfg, true);
    let session = matrix_cli::session::Session {
        user_id: String::from("@alice:example.org"),
        device_id: String::from("DEV"),
        access_token: String::from("SECRET-REDACTED"),
        homeserver: String::from("https://example.org"),
    };
    auth.on_event(AuthEvent::FileRead { text: Some(encode_session(&session)) });
    let step = auth.on_event(AuthEvent::RestoreResult { accepted: false });
    assert!(matches!(step, AuthStep::Fail { error: CliError::InvalidSession }));
}

#[test]
fn fresh_login_persists_once_right_after_success() {
    let cfg = AuthConfig {
        username: Some(String::from("alice")),
        password: Some(String::from("pw")),
        session_file: Some(String::from("/tmp/session")),
        ..base_config()
    };
    let (mut auth, step) = Authenticator::start(cfg, false);
    match step {
        AuthStep::Do { op: AuthOp::PasswordLogin { username, password } } => {
            assert_eq!(username, "alice");
            assert_eq!(password, "pw");
        },
        _ => panic!("without a session file the machine must log in"),
    }
    let grant = LoginGrant {
        user_id: String::from("@alice:example.org"),
        device_id: String::from("DEV"),
        access_token: String::from("SECRET-REDACTED"),
    };
    let step = auth.on_event(AuthEvent::LoginResult { result: Ok(grant) });
    match step {
        AuthStep::Do { op: AuthOp::WriteSessionFile { path, contents } } => {
            assert_eq!(path, "/tmp/session");
            let expected = matrix_cli::session::Session {
                user_id: String::from("@alice:example.org"),
                device_id: String::from("DEV"),
                access_token: String::from("SECRET-REDACTED"),
                homeserver: String::from("https://example.org"),
            };
            assert_eq!(contents, encode_session(&expected));
        },
        _ => panic!("a fresh session must be persisted when a path is configured"),
    }
    let step = auth.on_event(AuthEvent::SaveResult { ok: true });
    assert!(matches!(step, AuthStep::Do { op: AuthOp::InitialSnapshot }));
    let step = auth.on_event(AuthEvent::SnapshotResult { result: Ok(()) });
    assert!(matches!(step, AuthStep::Ready));
}

#[test]
fn fresh_login_without_configured_path_skips_the_save() {
    let cfg = AuthConfig {
        username: Some(String::from("alice")),
        password: Some(String::from("pw")),
        ..base_config()
    };
    let (mut auth, _) = Authenticator::start(cfg, false);
    let grant = LoginGrant {
        user_id: String::from("@a:b"),
        device_id: String::from("D"),
        access_token: String::from("SECRET-REDACTED"),
    };
    let step = auth.on_event(AuthEvent::LoginResult { result: Ok(grant) });
    assert!(matches!(step, AuthStep::Do { op: AuthOp::InitialSnapshot }));
}

#[test]
fn failed_login_is_a_remote_error() {
    let cfg = AuthConfig {
        username: Some(String::from("alice")),
        password: Some(String::from("wrong")),
        ..base_config()
    };
    let (mut auth, _) = Authenticator::start(cfg, false);
    let step = auth.on_event(
        AuthEvent::LoginResult { result: Err(String::from("forbidden")) },
    );
    match step {
        AuthStep::Fail { error: CliError::Remote { detail } } => assert_eq!(detail, "forbidden"),
        _ => panic!("a failed login must be a remote error"),
    }
}
