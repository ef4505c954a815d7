//! The error taxonomy of the client. Every failure a command, the
//! authenticator or the synchronization loop can report is one of these
//! variants; each belongs to exactly one class, and the class decides the
//! process exit code (usage errors are told apart from remote failures).

use vstd::prelude::*;

verus! {

/// A typed failure. Variants that concern a particular token, path or room
/// carry it, so the report can name the offending input.
#[derive(Debug)]
pub enum CliError {
    /// Fresh login was required but username or password is missing.
    MissingCredentials,
    /// The homeserver URL could not be parsed or has no host.
    BadHomeserverUrl { url: String },
    /// A room name was supplied that the protocol does not accept.
    BadRoomName { name: String },
    /// A room version was supplied that the protocol does not accept.
    BadRoomVersion { version: String },
    /// No media type is known for the file at this path.
    UnknownMediaType { path: String },
    /// The session file exists but does not hold a session record.
    CorruptSession { path: String },
    /// The backend rejected the restored credential.
    InvalidSession,
    /// A room reference carries neither the room-id nor the alias sigil,
    /// or lacks its server-name suffix.
    MalformedReference { token: String },
    /// The server reports no room for this alias.
    AliasNotFound { alias: String },
    /// The acting user has not joined the room the command needs.
    NotMember { room_id: String },
    /// Reading or writing a file failed.
    Io { path: String },
    /// A protocol call failed for any other reason.
    Remote { detail: String },
}

/// The classes of the taxonomy.
pub enum ErrorClass {
    Configuration,
    Session,
    Resolution,
    Membership,
    Io,
    Remote,
}

/// The class a given error belongs to.
pub open spec fn class_of(e: CliError) -> ErrorClass {
    match e {
        CliError::MissingCredentials => ErrorClass::Configuration,
        CliError::BadHomeserverUrl { .. } => ErrorClass::Configuration,
        CliError::BadRoomName { .. } => ErrorClass::Configuration,
        CliError::BadRoomVersion { .. } => ErrorClass::Configuration,
        CliError::UnknownMediaType { .. } => ErrorClass::Configuration,
        CliError::CorruptSession { .. } => ErrorClass::Session,
        CliError::InvalidSession => ErrorClass::Session,
        CliError::MalformedReference { .. } => ErrorClass::Resolution,
        CliError::AliasNotFound { .. } => ErrorClass::Resolution,
        CliError::NotMember { .. } => ErrorClass::Membership,
        CliError::Io { .. } => ErrorClass::Io,
        CliError::Remote { .. } => ErrorClass::Remote,
    }
}

/// A usage mistake: wrong configuration, or a reference the user wrote
/// wrongly. Distinguished from remote failures in the exit code.
pub open spec fn is_usage_error(e: CliError) -> bool {
    class_of(e) is Configuration || e matches CliError::MalformedReference { .. }
}

impl CliError {
    /// The class of this error.
    pub fn class(&self) -> (c: ErrorClass)
        ensures
            c == class_of(*self),
    {
        match self {
            CliError::MissingCredentials => ErrorClass::Configuration,
            CliError::BadHomeserverUrl { .. } => ErrorClass::Configuration,
            CliError::BadRoomName { .. } => ErrorClass::Configuration,
            CliError::BadRoomVersion { .. } => ErrorClass::Configuration,
            CliError::UnknownMediaType { .. } => ErrorClass::Configuration,
            CliError::CorruptSession { .. } => ErrorClass::Session,
            CliError::InvalidSession => ErrorClass::Session,
            CliError::MalformedReference { .. } => ErrorClass::Resolution,
            CliError::AliasNotFound { .. } => ErrorClass::Resolution,
            CliError::NotMember { .. } => ErrorClass::Membership,
            CliError::Io { .. } => ErrorClass::Io,
            CliError::Remote { .. } => ErrorClass::Remote,
        }
    }
}

/// The text of an error report: a fixed phrase, followed by the offending
/// input where the variant carries one.
pub open spec fn report_of(e: CliError) -> Seq<char> {
    match e {
        CliError::MissingCredentials => "missing username or password"@,
        CliError::BadHomeserverUrl { url } => "cannot parse homeserver url: "@ + url@,
        CliError::BadRoomName { name } => "invalid room name: "@ + name@,
        CliError::BadRoomVersion { version } => "invalid room version: "@ + version@,
        CliError::UnknownMediaType { path } => "unknown media type: "@ + path@,
        CliError::CorruptSession { path } => "corrupt session file: "@ + path@,
        CliError::InvalidSession => "the server rejected the stored session"@,
        CliError::MalformedReference { token } => "malformed room reference: "@ + token@,
        CliError::AliasNotFound { alias } => "no room found for alias: "@ + alias@,
        CliError::NotMember { room_id } => "you have not joined this room: "@ + room_id@,
        CliError::Io { path } => "cannot read or write: "@ + path@,
        CliError::Remote { detail } => "remote operation failed: "@ + detail@,
    }
}

impl CliError {
    /// Renders the error for the console.
    pub fn report(&self) -> (r: String)
        ensures
            r@ == report_of(*self),
    {
        match self {
            CliError::MissingCredentials => String::from_str("missing username or password"),
            CliError::BadHomeserverUrl { url } => String::from_str("cannot parse homeserver url: ").concat(url.as_str()),
            CliError::BadRoomName { name } => String::from_str("invalid room name: ").concat(name.as_str()),
            CliError::BadRoomVersion { version } => String::from_str("invalid room version: ").concat(version.as_str()),
            CliError::UnknownMediaType { path } => String::from_str("unknown media type: ").concat(path.as_str()),
            CliError::CorruptSession { path } => String::from_str("corrupt session file: ").concat(path.as_str()),
            CliError::InvalidSession => String::from_str("the server rejected the stored session"),
            CliError::MalformedReference { token } => String::from_str("malformed room reference: ").concat(token.as_str()),
            CliError::AliasNotFound { alias } => String::from_str("no room found for alias: ").concat(alias.as_str()),
            CliError::NotMember { room_id } => String::from_str("you have not joined this room: ").concat(room_id.as_str()),
            CliError::Io { path } => String::from_str("cannot read or write: ").concat(path.as_str()),
            CliError::Remote { detail } => String::from_str("remote operation failed: ").concat(detail.as_str()),
        }
    }
}

} // verus!
