//! The authenticator: the login-vs-restore decision and the steps that take
//! an unauthenticated client to a ready one. When a session file is
//! configured and present, the stored session is restored and credentials
//! are never consulted; otherwise username and password must both be
//! present, and the fresh session is persisted — once, right after the
//! login succeeds, and only when a session file path was configured. Either
//! path ends with one blocking initial snapshot fetch; the machine reports
//! `Ready` only after that snapshot has completed, so everything that runs
//! afterwards observes at least the state as of login time.

use vstd::prelude::*;

use crate::errors::CliError;
use crate::foreign::{host_of_url, url_host_of};
use crate::session::{spec_encode, spec_parse, Session, SessionModel};
use crate::session::{encode_session, parse_session};

verus! {

/// What the user supplied: the homeserver, optional credentials, and the
/// optional session-file path.
pub struct AuthConfig {
    pub homeserver_url: String,
    pub username: Option<String>,
    pub password: Option<String>,
    pub session_file: Option<String>,
}

/// Mathematical image of an `AuthConfig`.
pub struct AuthConfigModel {
    pub homeserver_url: Seq<char>,
    pub username: Option<Seq<char>>,
    pub password: Option<Seq<char>>,
    pub session_file: Option<Seq<char>>,
}

impl View for AuthConfig {
    type V = AuthConfigModel;

    open spec fn view(&self) -> AuthConfigModel {
        AuthConfigModel {
            homeserver_url: self.homeserver_url@,
            username: match self.username {
                Some(u) => Some(u@),
                None => None,
            },
            password: match self.password {
                Some(p) => Some(p@),
                None => None,
            },
            session_file: match self.session_file {
                Some(f) => Some(f@),
                None => None,
            },
        }
    }
}

/// The host of the configured homeserver URL, for later use as the server
/// name of join calls. An unparsable URL is a configuration error, reported
/// before any network call.
pub fn homeserver_host(cfg: &AuthConfig) -> (r: Result<String, CliError>)
    ensures
        url_host_of(cfg.homeserver_url@) matches Some(h) ==> (r matches Ok(s) && s@ == h),
        url_host_of(cfg.homeserver_url@) is None ==> (r matches Err(e) && e
            matches CliError::BadHomeserverUrl { url } && url@ == cfg.homeserver_url@),
{
    match host_of_url(self_url(cfg)) {
        Some(h) => Ok(h),
        None => Err(CliError::BadHomeserverUrl { url: cfg.homeserver_url.clone() }),
    }
}

fn self_url(cfg: &AuthConfig) -> (r: &str)
    ensures
        r@ == cfg.homeserver_url@,
{
    cfg.homeserver_url.as_str()
}

/// The entry decision: restore when a session file is configured and
/// present; otherwise a fresh login, owed only when both credentials are
/// there, persisting to the configured path if any.
pub enum AuthDecision {
    Restore { path: Seq<char> },
    Fresh { username: Seq<char>, password: Seq<char>, persist_to: Option<Seq<char>> },
    Reject,
}

pub open spec fn start_model(cfg: AuthConfigModel, session_file_exists: bool) -> AuthDecision {
    match cfg.session_file {
        Some(path) if session_file_exists => AuthDecision::Restore { path },
        _ => match (cfg.username, cfg.password) {
            (Some(username), Some(password)) => AuthDecision::Fresh {
                username,
                password,
                persist_to: cfg.session_file,
            },
            _ => AuthDecision::Reject,
        },
    }
}

/// With a session file configured and present, the decision is the same
/// whatever credentials were or were not supplied: the restore path never
/// consults them.
pub proof fn lemma_restore_ignores_credentials(
    a: AuthConfigModel,
    b: AuthConfigModel,
    session_file_exists: bool,
)
    requires
        a.session_file == b.session_file,
        a.session_file is Some,
        session_file_exists,
    ensures
        start_model(a, session_file_exists) == start_model(b, session_file_exists),
        start_model(a, session_file_exists) matches AuthDecision::Restore { path } && Some(path)
            == a.session_file,
{
}

/// With no session file to restore and a credential missing, the
/// authenticator rejects at once: the decision carries no operation, so no
/// network call precedes the failure.
pub proof fn lemma_missing_credentials_reject(cfg: AuthConfigModel, session_file_exists: bool)
    requires
        cfg.session_file is None || !session_file_exists,
        cfg.username is None || cfg.password is None,
    ensures
        start_model(cfg, session_file_exists) is Reject,
{
}

/// What the authenticator asks the shell to perform next.
pub enum AuthOp {
    ReadSessionFile { path: String },
    RestoreSession { session: Session },
    PasswordLogin { username: String, password: String },
    WriteSessionFile { path: String, contents: String },
    InitialSnapshot,
}

/// What the shell reports back.
pub enum AuthEvent {
    /// The session file's text, or nothing when reading it failed.
    FileRead { text: Option<String> },
    /// Whether the backend accepted the restored credential.
    RestoreResult { accepted: bool },
    /// What a password login earned, or the remote failure's detail.
    LoginResult { result: Result<LoginGrant, String> },
    /// Whether writing the session file succeeded.
    SaveResult { ok: bool },
    /// How the initial snapshot fetch ended.
    SnapshotResult { result: Result<(), String> },
}

/// What a successful password login returns from the server.
pub struct LoginGrant {
    pub user_id: String,
    pub device_id: String,
    pub access_token: String,
}

/// Where the machine stands.
pub enum AuthPhase {
    AwaitFileRead { path: String },
    AwaitRestore,
    AwaitLogin,
    AwaitSave { path: String },
    AwaitSnapshot,
    Ready,
    Failed,
}

/// The machine's answer to one event.
pub enum AuthStep {
    Do { op: AuthOp },
    Fail { error: CliError },
    Ready,
}

pub struct Authenticator {
    pub cfg: AuthConfig,
    pub phase: AuthPhase,
}

/// Which events can answer which phase: exactly the result of the operation
/// the machine asked for last.
pub open spec fn accepts(phase: AuthPhase, ev: AuthEvent) -> bool {
    match (phase, ev) {
        (AuthPhase::AwaitFileRead { .. }, AuthEvent::FileRead { .. }) => true,
        (AuthPhase::AwaitRestore, AuthEvent::RestoreResult { .. }) => true,
        (AuthPhase::AwaitLogin, AuthEvent::LoginResult { .. }) => true,
        (AuthPhase::AwaitSave { .. }, AuthEvent::SaveResult { .. }) => true,
        (AuthPhase::AwaitSnapshot, AuthEvent::SnapshotResult { .. }) => true,
        _ => false,
    }
}

impl Authenticator {
    /// Takes the entry decision. A restore asks for the file and needs no
    /// credential; a fresh login asks the server with both credentials;
    /// with a credential missing the machine fails at once, before any
    /// operation.
    pub fn start(cfg: AuthConfig, session_file_exists: bool) -> (r: (Authenticator, AuthStep))
        ensures
            r.0.cfg == cfg,
            match start_model(cfg@, session_file_exists) {
                AuthDecision::Restore { path } => {
                    &&& r.1 matches AuthStep::Do { op: AuthOp::ReadSessionFile { path: p } } && p@
                        == path
                    &&& r.0.phase matches AuthPhase::AwaitFileRead { path: p2 } && p2@ == path
                },
                AuthDecision::Fresh { username, password, .. } => {
                    &&& r.1 matches AuthStep::Do { op: AuthOp::PasswordLogin { username: u, password: p } }
                        && u@ == username && p@ == password
                    &&& r.0.phase is AwaitLogin
                },
                AuthDecision::Reject => {
                    &&& r.1 matches AuthStep::Fail { error } && error
                        is MissingCredentials
                    &&& r.0.phase is Failed
                },
            },
    {
        let has_file = cfg.session_file.is_some() && session_file_exists;
        if has_file {
            let path = match &cfg.session_file {
                Some(p) => p.clone(),
                None => unreached(),
            };
            let op = AuthOp::ReadSessionFile { path: path.clone() };
            let auth = Authenticator { cfg, phase: AuthPhase::AwaitFileRead { path } };
            (auth, AuthStep::Do { op })
        } else if cfg.username.is_some() && cfg.password.is_some() {
            let username = match &cfg.username {
                Some(u) => u.clone(),
                None => unreached(),
            };
            let password = match &cfg.password {
                Some(p) => p.clone(),
                None => unreached(),
            };
            let auth = Authenticator { cfg, phase: AuthPhase::AwaitLogin };
            (auth, AuthStep::Do { op: AuthOp::PasswordLogin { username, password } })
        } else {
            let auth = Authenticator { cfg, phase: AuthPhase::Failed };
            (auth, AuthStep::Fail { error: CliError::MissingCredentials })
        }
    }

    /// Advances the machine on the result of the last operation. The
    /// restore path reports a file that does not parse as `CorruptSession`
    /// — never falling back to a fresh login — and a rejected credential as
    /// `InvalidSession`. The fresh path persists the session right after
    /// the login succeeds, and only when a path was configured. Both paths
    /// end by asking for the initial snapshot; `Ready` comes only once that
    /// snapshot succeeded.
    pub fn on_event(&mut self, ev: AuthEvent) -> (step: AuthStep)
        requires
            accepts(old(self).phase, ev),
        ensures
            final(self).cfg == old(self).cfg,
            match (old(self).phase, ev) {
                (AuthPhase::AwaitFileRead { path }, AuthEvent::FileRead { text }) => match text {
                    Some(t) => match spec_parse(t@) {
                        Some(sv) => {
                            &&& step matches AuthStep::Do { op: AuthOp::RestoreSession { session } }
                                && session@ == sv
                            &&& final(self).phase is AwaitRestore
                        },
                        None => {
                            &&& step matches AuthStep::Fail { error } && error
                                matches CliError::CorruptSession { path: p } && p@ == path@
                            &&& final(self).phase is Failed
                        },
                    },
                    None => {
                        &&& step matches AuthStep::Fail { error } && error
                            matches CliError::Io { path: p } && p@ == path@
                        &&& final(self).phase is Failed
                    },
                },
                (AuthPhase::AwaitRestore, AuthEvent::RestoreResult { accepted }) => if accepted {
                    &&& step matches AuthStep::Do { op } && op is InitialSnapshot
                    &&& final(self).phase is AwaitSnapshot
                } else {
                    &&& step matches AuthStep::Fail { error } && error is InvalidSession
                    &&& final(self).phase is Failed
                },
                (AuthPhase::AwaitLogin, AuthEvent::LoginResult { result }) => match result {
                    Ok(grant) => {
                        let sv = SessionModel {
                            user_id: grant.user_id@,
                            device_id: grant.device_id@,
                            access_token: grant.access_token@,
                            homeserver: old(self).cfg.homeserver_url@,
                        };
                        match old(self).cfg@.session_file {
                            Some(path) => {
                                &&& step matches AuthStep::Do {
                                    op: AuthOp::WriteSessionFile { path: p, contents },
                                } && p@ == path && contents@ == spec_encode(sv)
                                &&& final(self).phase matches AuthPhase::AwaitSave { path: p2 } && p2@
                                    == path
                            },
                            None => {
                                &&& step matches AuthStep::Do { op } && op is InitialSnapshot
                                &&& final(self).phase is AwaitSnapshot
                            },
                        }
                    },
                    Err(detail) => {
                        &&& step matches AuthStep::Fail { error } && error
                            matches CliError::Remote { detail: d } && d@ == detail@
                        &&& final(self).phase is Failed
                    },
                },
                (AuthPhase::AwaitSave { path }, AuthEvent::SaveResult { ok }) => if ok {
                    &&& step matches AuthStep::Do { op } && op is InitialSnapshot
                    &&& final(self).phase is AwaitSnapshot
                } else {
                    &&& step matches AuthStep::Fail { error } && error
                        matches CliError::Io { path: p } && p@ == path@
                    &&& final(self).phase is Failed
                },
                (AuthPhase::AwaitSnapshot, AuthEvent::SnapshotResult { result }) => match result {
                    Ok(_) => step is Ready && final(self).phase is Ready,
                    Err(detail) => {
                        &&& step matches AuthStep::Fail { error } && error
                            matches CliError::Remote { detail: d } && d@ == detail@
                        &&& final(self).phase is Failed
                    },
                },
                _ => false,
            },
    {
        match ev {
            AuthEvent::FileRead { text } => {
                let path = match &self.phase {
                    AuthPhase::AwaitFileRead { path } => path.clone(),
                    _ => unreached(),
                };
                match text {
                    Some(t) => match parse_session(t.as_str()) {
                        Some(session) => {
                            self.phase = AuthPhase::AwaitRestore;
                            AuthStep::Do { op: AuthOp::RestoreSession { session } }
                        },
                        None => {
                            self.phase = AuthPhase::Failed;
                            AuthStep::Fail { error: CliError::CorruptSession { path } }
                        },
                    },
                    None => {
                        self.phase = AuthPhase::Failed;
                        AuthStep::Fail { error: CliError::Io { path } }
                    },
                }
            },
            AuthEvent::RestoreResult { accepted } => {
                if accepted {
                    self.phase = AuthPhase::AwaitSnapshot;
                    AuthStep::Do { op: AuthOp::InitialSnapshot }
                } else {
                    self.phase = AuthPhase::Failed;
                    AuthStep::Fail { error: CliError::InvalidSession }
                }
            },
            AuthEvent::LoginResult { result } => {
                match result {
                    Ok(grant) => {
                        let session = Session {
                            user_id: grant.user_id,
                            device_id: grant.device_id,
                            access_token: grant.access_token,
                            homeserver: self.cfg.homeserver_url.clone(),
                        };
                        match &self.cfg.session_file {
                            Some(path) => {
                                let contents = encode_session(&session);
                                let p = path.clone();
                                self.phase = AuthPhase::AwaitSave { path: p.clone() };
                                AuthStep::Do {
                                    op: AuthOp::WriteSessionFile { path: p, contents },
                                }
                            },
                            None => {
                                self.phase = AuthPhase::AwaitSnapshot;
                                AuthStep::Do { op: AuthOp::InitialSnapshot }
                            },
                        }
                    },
                    Err(detail) => {
                        self.phase = AuthPhase::Failed;
                        AuthStep::Fail { error: CliError::Remote { detail } }
                    },
                }
            },
            AuthEvent::SaveResult { ok } => {
                let path = match &self.phase {
                    AuthPhase::AwaitSave { path } => path.clone(),
                    _ => unreached(),
                };
                if ok {
                    self.phase = AuthPhase::AwaitSnapshot;
                    AuthStep::Do { op: AuthOp::InitialSnapshot }
                } else {
                    self.phase = AuthPhase::Failed;
                    AuthStep::Fail { error: CliError::Io { path } }
                }
            },
            AuthEvent::SnapshotResult { result } => {
                match result {
                    Ok(_) => {
                        self.phase = AuthPhase::Ready;
                        AuthStep::Ready
                    },
                    Err(detail) => {
                        self.phase = AuthPhase::Failed;
                        AuthStep::Fail { error: CliError::Remote { detail } }
                    },
                }
            },
        }
    }
}

} // verus!
