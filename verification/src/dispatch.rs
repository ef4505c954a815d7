//! The command dispatcher: a state machine from the parsed command tree to
//! protocol operations. Every room-targeted command resolves its room token
//! first — a raw token is never passed on. Membership-scoped operations
//! (ban, kick, invite, send, leave) check membership after resolving and
//! report `NotMember`, distinct from a failed resolution. Room creation in
//! dry-run mode reports the would-be request and issues no operation at
//! all. No handler swallows a failure: every path ends in `Finish` with a
//! report or a typed error.

use vstd::prelude::*;

use crate::errors::CliError;
use crate::foreign::{guess_media_type, mime_guess_of};
use crate::ident::{
    is_valid_room_name, is_valid_room_version, is_well_formed_ref, server_part, server_suffix,
    valid_alias, valid_room_id, valid_room_name, valid_room_version, valid_user_id,
};
use crate::resolve::{resolve_finish, resolve_start, ResolveStep};

verus! {

/// Which of the user's room lists a command asks for.
#[derive(Clone, Copy, PartialEq, Eq, Structural)]
pub enum RoomListKind {
    Invited,
    Joined,
    Left,
}

/// The parsed command tree: one leaf action with its typed parameters.
pub enum Command {
    MessageSend { room: String, msg: String },
    MessageListen { room: String },
    UserGetDisplayName,
    UserSetDisplayName { name: String },
    UserGetAvatarUrl,
    UserSetAvatar { file: String },
    UserSetAvatarUrl { url: String },
    UserRooms { kind: RoomListKind },
    RoomBan { room: String, user: String, reason: Option<String> },
    RoomCreateAlias { room: String, alias: String },
    RoomCreate {
        name: Option<String>,
        is_public: bool,
        alias: Option<String>,
        version: Option<String>,
    },
    RoomInvite { room: String, user: String },
    RoomJoin { room: String },
    RoomKick { room: String, user: String, reason: Option<String> },
    RoomLeave { room: String },
}

/// The would-be room-creation request: what dry-run mode reports and what
/// is sent otherwise. The requested version is carried, not discarded.
pub struct CreateRoomPlan {
    pub name: Option<String>,
    pub is_public: bool,
    pub alias_localpart: Option<String>,
    pub version: Option<String>,
}

/// A protocol operation the dispatcher asks the shell to perform.
pub enum Op {
    LookupAlias { alias: String },
    CheckJoined { room_id: String },
    SendText { room_id: String, body: String },
    RegisterListener { room_id: String },
    AwaitCancellation,
    UnregisterListener { handle: u64 },
    GetDisplayName,
    SetDisplayName { name: String },
    GetAvatarUrl,
    ReadFile { path: String },
    Upload { media_type: String, data: Vec<u8> },
    SetAvatarUrl { url: String },
    ListRooms { kind: RoomListKind },
    BanUser { room_id: String, user: String, reason: Option<String> },
    KickUser { room_id: String, user: String, reason: Option<String> },
    InviteUser { room_id: String, user: String },
    JoinRoom { room_id: String, server_name: String },
    LeaveRoom { room_id: String },
    CreateAlias { room_id: String, alias: String },
    CreateRoom { plan: CreateRoomPlan },
}

/// One room as the shell reports it for the room lists.
pub struct RoomInfo {
    pub room_id: String,
    pub alias_localpart: Option<String>,
    pub name: Option<String>,
}

/// The result of one performed operation.
pub enum OpResult {
    AliasFound { room_id: String },
    AliasMissing,
    JoinedIs { joined: bool },
    Acked,
    DisplayName { name: Option<String> },
    AvatarUrl { url: Option<String> },
    FileData { data: Vec<u8> },
    ReadFailed,
    Uploaded { content_uri: String },
    RoomsListed { rooms: Vec<RoomInfo> },
    RoomCreated { room_id: String },
    ListenerReady { handle: u64 },
    Cancelled,
    Failed { detail: String },
}

/// One row of a room table: identifier, alias, display name.
pub struct RoomRow {
    pub id: String,
    pub alias: String,
    pub name: String,
}

/// What a finished command reports.
pub enum Report {
    Nothing,
    Line { text: String },
    RoomTable { kind: RoomListKind, rows: Vec<RoomRow> },
    DryRunCreate { plan: CreateRoomPlan },
    Created { room_id: String },
}

/// The dispatcher's answer to one event: perform an operation, or finish.
pub enum Step {
    Perform { op: Op },
    Finish { result: Result<Report, CliError> },
}

/// Where the machine stands: what operation it awaits the result of.
pub enum Phase {
    AwaitResolve { cmd: Command },
    AwaitJoined { cmd: Command, room_id: String },
    AwaitUnit,
    AwaitDisplayName,
    AwaitAvatarUrl,
    AwaitFile { media_type: String, path: String },
    AwaitUpload,
    AwaitRooms { kind: RoomListKind },
    AwaitCreate,
    AwaitListenerReady,
    Listening { handle: u64 },
    AwaitUnregister,
    Complete,
}

pub struct Dispatcher {
    pub dry_run: bool,
    pub server_name: String,
    pub phase: Phase,
}

/// The commands that target a room and therefore resolve their token first.
pub open spec fn is_room_targeted(cmd: Command) -> bool {
    ||| cmd is MessageSend
    ||| cmd is MessageListen
    ||| cmd is RoomBan
    ||| cmd is RoomCreateAlias
    ||| cmd is RoomInvite
    ||| cmd is RoomJoin
    ||| cmd is RoomKick
    ||| cmd is RoomLeave
}

/// The membership-scoped operations: they require the acting user to have
/// joined the room, and report `NotMember` otherwise.
pub open spec fn needs_membership(cmd: Command) -> bool {
    ||| cmd is MessageSend
    ||| cmd is RoomBan
    ||| cmd is RoomInvite
    ||| cmd is RoomKick
    ||| cmd is RoomLeave
}

/// The room token of a room-targeted command.
pub open spec fn room_of(cmd: Command) -> Seq<char> {
    match cmd {
        Command::MessageSend { room, .. } => room@,
        Command::MessageListen { room } => room@,
        Command::RoomBan { room, .. } => room@,
        Command::RoomCreateAlias { room, .. } => room@,
        Command::RoomInvite { room, .. } => room@,
        Command::RoomJoin { room } => room@,
        Command::RoomKick { room, .. } => room@,
        Command::RoomLeave { room } => room@,
        _ => Seq::<char>::empty(),
    }
}

/// The new alias a `RoomCreateAlias` command would create.
pub open spec fn create_alias_of(cmd: Command) -> Seq<char> {
    match cmd {
        Command::RoomCreateAlias { alias, .. } => alias@,
        _ => Seq::<char>::empty(),
    }
}

/// A `RoomCreateAlias` command whose new alias is not well formed.
pub open spec fn bad_create_alias(cmd: Command) -> bool {
    cmd is RoomCreateAlias && !valid_alias(create_alias_of(cmd))
}

/// The user a ban, kick or invite acts on.
pub open spec fn user_of(cmd: Command) -> Seq<char> {
    match cmd {
        Command::RoomBan { user, .. } => user@,
        Command::RoomInvite { user, .. } => user@,
        Command::RoomKick { user, .. } => user@,
        _ => Seq::<char>::empty(),
    }
}

/// A ban, kick or invite whose user identifier is not well formed.
pub open spec fn bad_user_ref(cmd: Command) -> bool {
    &&& cmd is RoomBan || cmd is RoomInvite || cmd is RoomKick
    &&& !valid_user_id(user_of(cmd))
}

pub open spec fn opt_str(o: Option<String>) -> Option<Seq<char>> {
    match o {
        Some(s) => Some(s@),
        None => None,
    }
}

/// The step that follows once a room-targeted command holds a canonical
/// room identifier: membership-scoped commands check membership; the rest
/// go straight to their operation, always targeting the resolved
/// identifier, never the original token.
pub open spec fn resolved_step(
    server_name: Seq<char>,
    cmd: Command,
    room_id: Seq<char>,
    phase: Phase,
    step: Step,
) -> bool {
    if needs_membership(cmd) {
        &&& phase matches Phase::AwaitJoined { cmd: c2, room_id: r2 } && c2 == cmd && r2@
            == room_id
        &&& step matches Step::Perform { op: Op::CheckJoined { room_id: r } } && r@ == room_id
    } else {
        match cmd {
            Command::MessageListen { .. } => {
                &&& phase is AwaitListenerReady
                &&& step matches Step::Perform { op: Op::RegisterListener { room_id: r } } && r@
                    == room_id
            },
            Command::RoomJoin { .. } => {
                &&& phase is AwaitUnit
                &&& step matches Step::Perform {
                    op: Op::JoinRoom { room_id: r, server_name: sn },
                } && r@ == room_id && sn@ == server_name
            },
            Command::RoomCreateAlias { alias, .. } => {
                &&& phase is AwaitUnit
                &&& step matches Step::Perform { op: Op::CreateAlias { room_id: r, alias: a } }
                    && r@ == room_id && a@ == alias@
            },
            _ => false,
        }
    }
}

/// Once the one lookup has answered, the dispatcher never asks for
/// another: every operation that follows a resolution targets the
/// canonical identifier.
pub proof fn lemma_single_lookup(
    server_name: Seq<char>,
    cmd: Command,
    room_id: Seq<char>,
    phase: Phase,
    step: Step,
)
    requires
        resolved_step(server_name, cmd, room_id, phase, step),
    ensures
        step matches Step::Perform { op } ==> !(op is LookupAlias),
{
}

/// The membership-scoped operation a command performs once membership is
/// confirmed.
pub open spec fn member_op(cmd: Command, room_id: Seq<char>, op: Op) -> bool {
    match cmd {
        Command::MessageSend { msg, .. } => op matches Op::SendText { room_id: r, body } && r@
            == room_id && body@ == msg@,
        Command::RoomBan { user, reason, .. } => op matches Op::BanUser {
            room_id: r,
            user: u,
            reason: rs,
        } && r@ == room_id && u@ == user@ && opt_str(rs) == opt_str(reason),
        Command::RoomInvite { user, .. } => op matches Op::InviteUser { room_id: r, user: u }
            && r@ == room_id && u@ == user@,
        Command::RoomKick { user, reason, .. } => op matches Op::KickUser {
            room_id: r,
            user: u,
            reason: rs,
        } && r@ == room_id && u@ == user@ && opt_str(rs) == opt_str(reason),
        Command::RoomLeave { .. } => op matches Op::LeaveRoom { room_id: r } && r@ == room_id,
        _ => false,
    }
}

/// A finished step carrying the given malformed-reference token.
pub open spec fn malformed_fail(step: Step, token: Seq<char>, phase: Phase) -> bool {
    &&& step matches Step::Finish { result } && result matches Err(e) && e
        matches CliError::MalformedReference { token: t } && t@ == token
    &&& phase is Complete
}

/// A finished step carrying a remote failure with the given detail.
pub open spec fn remote_fail(step: Step, detail: Seq<char>, phase: Phase) -> bool {
    &&& step matches Step::Finish { result } && result matches Err(e) && e
        matches CliError::Remote { detail: d } && d@ == detail
    &&& phase is Complete
}

/// The would-be plan carries exactly the command's parameters.
pub open spec fn plan_matches(
    plan: CreateRoomPlan,
    name: Option<String>,
    is_public: bool,
    alias: Option<String>,
    version: Option<String>,
) -> bool {
    &&& opt_str(plan.name) == opt_str(name)
    &&& plan.is_public == is_public
    &&& opt_str(plan.alias_localpart) == opt_str(alias)
    &&& opt_str(plan.version) == opt_str(version)
}

/// The alias column of a room row: the canonical alias rebuilt against the
/// room's own server name, or empty when the room has no alias (or an
/// identifier the server part cannot be read from).
pub open spec fn spec_row_alias(info: RoomInfo) -> Seq<char> {
    match info.alias_localpart {
        Some(l) => if valid_room_id(info.room_id@) {
            "#"@ + l@ + ":"@ + server_part(info.room_id@)
        } else {
            Seq::<char>::empty()
        },
        None => Seq::<char>::empty(),
    }
}

pub open spec fn spec_row_name(info: RoomInfo) -> Seq<char> {
    match info.name {
        Some(n) => n@,
        None => Seq::<char>::empty(),
    }
}

pub open spec fn row_matches(row: RoomRow, info: RoomInfo) -> bool {
    &&& row.id@ == info.room_id@
    &&& row.alias@ == spec_row_alias(info)
    &&& row.name@ == spec_row_name(info)
}

pub open spec fn rows_match(rows: Seq<RoomRow>, rooms: Seq<RoomInfo>) -> bool {
    &&& rows.len() == rooms.len()
    &&& forall|i: int| 0 <= i < rooms.len() ==> row_matches(#[trigger] rows[i], rooms[i])
}

/// The machine's internal consistency: a pending resolution belongs to a
/// room-targeted command, a pending membership check to a
/// membership-scoped one.
pub open spec fn wf(d: Dispatcher) -> bool {
    match d.phase {
        Phase::AwaitResolve { cmd } => is_room_targeted(cmd),
        Phase::AwaitJoined { cmd, .. } => needs_membership(cmd),
        _ => true,
    }
}

/// Which results can answer which phase: exactly the outcomes of the
/// operation the machine asked for last.
pub open spec fn accepts_result(phase: Phase, r: OpResult) -> bool {
    match (phase, r) {
        (Phase::AwaitResolve { .. }, OpResult::AliasFound { .. }) => true,
        (Phase::AwaitResolve { .. }, OpResult::AliasMissing) => true,
        (Phase::AwaitResolve { .. }, OpResult::Failed { .. }) => true,
        (Phase::AwaitJoined { .. }, OpResult::JoinedIs { .. }) => true,
        (Phase::AwaitJoined { .. }, OpResult::Failed { .. }) => true,
        (Phase::AwaitUnit, OpResult::Acked) => true,
        (Phase::AwaitUnit, OpResult::Failed { .. }) => true,
        (Phase::AwaitDisplayName, OpResult::DisplayName { .. }) => true,
        (Phase::AwaitDisplayName, OpResult::Failed { .. }) => true,
        (Phase::AwaitAvatarUrl, OpResult::AvatarUrl { .. }) => true,
        (Phase::AwaitAvatarUrl, OpResult::Failed { .. }) => true,
        (Phase::AwaitFile { .. }, OpResult::FileData { .. }) => true,
        (Phase::AwaitFile { .. }, OpResult::ReadFailed) => true,
        (Phase::AwaitUpload, OpResult::Uploaded { .. }) => true,
        (Phase::AwaitUpload, OpResult::Failed { .. }) => true,
        (Phase::AwaitRooms { .. }, OpResult::RoomsListed { .. }) => true,
        (Phase::AwaitRooms { .. }, OpResult::Failed { .. }) => true,
        (Phase::AwaitCreate, OpResult::RoomCreated { .. }) => true,
        (Phase::AwaitCreate, OpResult::Failed { .. }) => true,
        (Phase::AwaitListenerReady, OpResult::ListenerReady { .. }) => true,
        (Phase::AwaitListenerReady, OpResult::Failed { .. }) => true,
        (Phase::Listening { .. }, OpResult::Cancelled) => true,
        (Phase::AwaitUnregister, OpResult::Acked) => true,
        _ => false,
    }
}

/// The room token of a room-targeted command.
fn room_token(cmd: &Command) -> (r: &String)
    requires
        is_room_targeted(*cmd),
    ensures
        r@ == room_of(*cmd),
{
    match cmd {
        Command::MessageSend { room, .. } => room,
        Command::MessageListen { room } => room,
        Command::RoomBan { room, .. } => room,
        Command::RoomCreateAlias { room, .. } => room,
        Command::RoomInvite { room, .. } => room,
        Command::RoomJoin { room } => room,
        Command::RoomKick { room, .. } => room,
        Command::RoomLeave { room } => room,
        _ => unreached(),
    }
}

/// One row of the table for one reported room.
fn build_row(info: RoomInfo) -> (r: RoomRow)
    ensures
        row_matches(r, info),
{
    let RoomInfo { room_id, alias_localpart, name } = info;
    let alias = match &alias_localpart {
        Some(l) => {
            if is_well_formed_ref(room_id.as_str(), '!') {
                let mut a = String::from_str("#");
                a.append(l.as_str());
                a.append(":");
                let server = server_suffix(room_id.as_str());
                a.append(server.as_str());
                proof {
                    assert(a@ =~= "#"@ + l@ + ":"@ + server_part(room_id@));
                }
                a
            } else {
                String::new()
            }
        },
        None => String::new(),
    };
    let display = match name {
        Some(n) => n,
        None => String::new(),
    };
    RoomRow { id: room_id, alias, name: display }
}

/// The rows for the reported rooms, one each, in the reported order.
fn build_rows(rooms: Vec<RoomInfo>) -> (r: Vec<RoomRow>)
    ensures
        rows_match(r@, rooms@),
{
    let ghost all = rooms@;
    let total = rooms.len();
    let mut rows: Vec<RoomRow> = Vec::new();
    let mut rest = rooms;
    let mut taken: usize = 0;
    proof {
        assert(all.skip(0) =~= rest@);
    }
    while rest.len() > 0
        invariant
            taken <= total,
            all.len() == total,
            taken + rest@.len() == all.len(),
            rest@ =~= all.skip(taken as int),
            rows@.len() == taken,
            forall|i: int| 0 <= i < taken ==> row_matches(#[trigger] rows@[i], all[i]),
        decreases rest@.len(),
    {
        let info = rest.remove(0);
        proof {
            assert(info == all[taken as int]);
        }
        let row = build_row(info);
        rows.push(row);
        taken = taken + 1;
        proof {
            assert(rest@ =~= all.skip(taken as int));
        }
    }
    rows
}

impl Dispatcher {
    /// Starts one command. With no command at all the dispatcher finishes
    /// at once, successfully. A room-targeted command is classified: a raw
    /// identifier proceeds without any lookup, an alias asks for exactly
    /// one lookup, anything else is rejected as malformed with no
    /// operation issued. Room creation validates its parameters, then — in
    /// dry-run mode — reports the would-be request instead of performing
    /// anything.
    pub fn start(cmd: Option<Command>, dry_run: bool, server_name: String) -> (r: (
        Dispatcher,
        Step,
    ))
        ensures
            wf(r.0),
            r.0.dry_run == dry_run,
            r.0.server_name == server_name,
            match cmd {
                None => r.1 matches Step::Finish { result } && result matches Ok(rep) && rep
                    is Nothing && r.0.phase is Complete,
                Some(c) => if is_room_targeted(c) {
                    if bad_create_alias(c) {
                        malformed_fail(r.1, create_alias_of(c), r.0.phase)
                    } else if bad_user_ref(c) {
                        malformed_fail(r.1, user_of(c), r.0.phase)
                    } else if valid_room_id(room_of(c)) {
                        resolved_step(server_name@, c, room_of(c), r.0.phase, r.1)
                    } else if valid_alias(room_of(c)) {
                        &&& r.0.phase matches Phase::AwaitResolve { cmd: c2 } && c2 == c
                        &&& r.1 matches Step::Perform { op: Op::LookupAlias { alias } } && alias@
                            == room_of(c)
                    } else {
                        malformed_fail(r.1, room_of(c), r.0.phase)
                    }
                } else {
                    match c {
                        Command::UserGetDisplayName => r.0.phase is AwaitDisplayName && (r.1
                            matches Step::Perform { op } && op is GetDisplayName),
                        Command::UserSetDisplayName { name } => r.0.phase is AwaitUnit && (r.1
                            matches Step::Perform { op: Op::SetDisplayName { name: n } } && n@
                            == name@),
                        Command::UserGetAvatarUrl => r.0.phase is AwaitAvatarUrl && (r.1
                            matches Step::Perform { op } && op is GetAvatarUrl),
                        Command::UserSetAvatarUrl { url } => r.0.phase is AwaitUnit && (r.1
                            matches Step::Perform { op: Op::SetAvatarUrl { url: u } } && u@
                            == url@),
                        Command::UserSetAvatar { file } => match mime_guess_of(file@) {
                            Some(m) => {
                                &&& r.0.phase matches Phase::AwaitFile { media_type, path }
                                    && media_type@ == m && path@ == file@
                                &&& r.1 matches Step::Perform { op: Op::ReadFile { path: p } }
                                    && p@ == file@
                            },
                            None => {
                                &&& r.1 matches Step::Finish { result } && result matches Err(e)
                                    && e matches CliError::UnknownMediaType { path: p } && p@
                                    == file@
                                &&& r.0.phase is Complete
                            },
                        },
                        Command::UserRooms { kind } => {
                            &&& r.0.phase matches Phase::AwaitRooms { kind: k } && k == kind
                            &&& r.1 matches Step::Perform { op: Op::ListRooms { kind: k2 } } && k2
                                == kind
                        },
                        Command::RoomCreate { name, is_public, alias, version } => match name {
                            Some(n) if !valid_room_name(n@) => {
                                &&& r.1 matches Step::Finish { result } && result matches Err(e)
                                    && e matches CliError::BadRoomName { name: m } && m@ == n@
                                &&& r.0.phase is Complete
                            },
                            _ => match version {
                                Some(v) if !valid_room_version(v@) => {
                                    &&& r.1 matches Step::Finish { result } && result
                                        matches Err(e) && e matches CliError::BadRoomVersion {
                                        version: w,
                                    } && w@ == v@
                                    &&& r.0.phase is Complete
                                },
                                _ => if dry_run {
                                    &&& r.1 matches Step::Finish { result } && result
                                        matches Ok(rep) && rep matches Report::DryRunCreate { plan }
                                        && plan_matches(plan, name, is_public, alias, version)
                                    &&& r.0.phase is Complete
                                } else {
                                    &&& r.1 matches Step::Perform { op: Op::CreateRoom { plan } }
                                        && plan_matches(plan, name, is_public, alias, version)
                                    &&& r.0.phase is AwaitCreate
                                },
                            },
                        },
                        _ => false,
                    }
                },
            },
    {
        let mut d = Dispatcher { dry_run, server_name, phase: Phase::Complete };
        let step = match cmd {
            None => Step::Finish { result: Ok(Report::Nothing) },
            Some(c) => match c {
                Command::UserGetDisplayName => {
                    d.phase = Phase::AwaitDisplayName;
                    Step::Perform { op: Op::GetDisplayName }
                },
                Command::UserSetDisplayName { name } => {
                    d.phase = Phase::AwaitUnit;
                    Step::Perform { op: Op::SetDisplayName { name } }
                },
                Command::UserGetAvatarUrl => {
                    d.phase = Phase::AwaitAvatarUrl;
                    Step::Perform { op: Op::GetAvatarUrl }
                },
                Command::UserSetAvatarUrl { url } => {
                    d.phase = Phase::AwaitUnit;
                    Step::Perform { op: Op::SetAvatarUrl { url } }
                },
                Command::UserSetAvatar { file } => {
                    match guess_media_type(file.as_str()) {
                        Some(media_type) => {
                            d.phase = Phase::AwaitFile { media_type, path: file.clone() };
                            Step::Perform { op: Op::ReadFile { path: file } }
                        },
                        None => Step::Finish {
                            result: Err(CliError::UnknownMediaType { path: file }),
                        },
                    }
                },
                Command::UserRooms { kind } => {
                    d.phase = Phase::AwaitRooms { kind };
                    Step::Perform { op: Op::ListRooms { kind } }
                },
                Command::RoomCreate { name, is_public, alias, version } => {
                    let name_bad = match &name {
                        Some(n) => !is_valid_room_name(n.as_str()),
                        None => false,
                    };
                    let version_bad = match &version {
                        Some(v) => !is_valid_room_version(v.as_str()),
                        None => false,
                    };
                    if name_bad {
                        let n = match name {
                            Some(n) => n,
                            None => unreached(),
                        };
                        Step::Finish { result: Err(CliError::BadRoomName { name: n }) }
                    } else if version_bad {
                        let v = match version {
                            Some(v) => v,
                            None => unreached(),
                        };
                        Step::Finish { result: Err(CliError::BadRoomVersion { version: v }) }
                    } else {
                        let plan = CreateRoomPlan {
                            name,
                            is_public,
                            alias_localpart: alias,
                            version,
                        };
                        if dry_run {
                            Step::Finish { result: Ok(Report::DryRunCreate { plan }) }
                        } else {
                            d.phase = Phase::AwaitCreate;
                            Step::Perform { op: Op::CreateRoom { plan } }
                        }
                    }
                },
                other => {
                    let bad_alias = match &other {
                        Command::RoomCreateAlias { alias, .. } => !is_well_formed_ref(
                            alias.as_str(),
                            '#',
                        ),
                        _ => false,
                    };
                    let bad_user = match &other {
                        Command::RoomBan { user, .. } => !is_well_formed_ref(user.as_str(), '@'),
                        Command::RoomInvite { user, .. } => !is_well_formed_ref(
                            user.as_str(),
                            '@',
                        ),
                        Command::RoomKick { user, .. } => !is_well_formed_ref(user.as_str(), '@'),
                        _ => false,
                    };
                    if bad_alias {
                        let alias = match other {
                            Command::RoomCreateAlias { alias, .. } => alias,
                            _ => unreached(),
                        };
                        Step::Finish {
                            result: Err(CliError::MalformedReference { token: alias }),
                        }
                    } else if bad_user {
                        let user = match other {
                            Command::RoomBan { user, .. } => user,
                            Command::RoomInvite { user, .. } => user,
                            Command::RoomKick { user, .. } => user,
                            _ => unreached(),
                        };
                        Step::Finish {
                            result: Err(CliError::MalformedReference { token: user }),
                        }
                    } else {
                        match resolve_start(room_token(&other).as_str()) {
                            ResolveStep::Resolved { room_id } => d.after_resolve(other, room_id),
                            ResolveStep::Lookup { alias } => {
                                d.phase = Phase::AwaitResolve { cmd: other };
                                Step::Perform { op: Op::LookupAlias { alias } }
                            },
                            ResolveStep::Rejected => {
                                let token = room_token(&other).clone();
                                Step::Finish {
                                    result: Err(CliError::MalformedReference { token }),
                                }
                            },
                        }
                    }
                },
            },
        };
        (d, step)
    }

    /// Moves a room-targeted command on once its canonical room identifier
    /// is known.
    fn after_resolve(&mut self, cmd: Command, room_id: String) -> (step: Step)
        requires
            is_room_targeted(cmd),
        ensures
            final(self).dry_run == old(self).dry_run,
            final(self).server_name == old(self).server_name,
            wf(*final(self)),
            resolved_step(
                old(self).server_name@,
                cmd,
                room_id@,
                final(self).phase,
                step,
            ),
    {
        match cmd {
            Command::MessageListen { .. } => {
                let op = Op::RegisterListener { room_id };
                self.phase = Phase::AwaitListenerReady;
                Step::Perform { op }
            },
            Command::RoomJoin { .. } => {
                let op = Op::JoinRoom { room_id, server_name: self.server_name.clone() };
                self.phase = Phase::AwaitUnit;
                Step::Perform { op }
            },
            Command::RoomCreateAlias { alias, .. } => {
                let op = Op::CreateAlias { room_id, alias };
                self.phase = Phase::AwaitUnit;
                Step::Perform { op }
            },
            other => {
                let op = Op::CheckJoined { room_id: room_id.clone() };
                self.phase = Phase::AwaitJoined { cmd: other, room_id };
                Step::Perform { op }
            },
        }
    }

    /// Finishes with a remote failure.
    fn fail_remote(&mut self, detail: String) -> (step: Step)
        ensures
            final(self).dry_run == old(self).dry_run,
            final(self).server_name == old(self).server_name,
            final(self).phase is Complete,
            remote_fail(step, detail@, final(self).phase),
    {
        self.phase = Phase::Complete;
        Step::Finish { result: Err(CliError::Remote { detail }) }
    }

    /// Advances the machine on the result of the last operation.
    pub fn on_result(&mut self, r: OpResult) -> (step: Step)
        requires
            wf(*old(self)),
            accepts_result(old(self).phase, r),
        ensures
            final(self).dry_run == old(self).dry_run,
            final(self).server_name == old(self).server_name,
            wf(*final(self)),
            match (old(self).phase, r) {
                (Phase::AwaitResolve { cmd }, OpResult::AliasFound { room_id }) => resolved_step(
                    old(self).server_name@,
                    cmd,
                    room_id@,
                    final(self).phase,
                    step,
                ),
                (Phase::AwaitResolve { cmd }, OpResult::AliasMissing) => {
                    &&& step matches Step::Finish { result } && result matches Err(e) && e
                        matches CliError::AliasNotFound { alias } && alias@ == room_of(cmd)
                    &&& final(self).phase is Complete
                },
                (Phase::AwaitResolve { .. }, OpResult::Failed { detail }) => remote_fail(
                    step,
                    detail@,
                    final(self).phase,
                ),
                (Phase::AwaitJoined { cmd, room_id }, OpResult::JoinedIs { joined }) => if joined {
                    &&& step matches Step::Perform { op } && member_op(cmd, room_id@, op)
                    &&& final(self).phase is AwaitUnit
                } else {
                    &&& step matches Step::Finish { result } && result matches Err(e) && e
                        matches CliError::NotMember { room_id: rid } && rid@ == room_id@
                    &&& final(self).phase is Complete
                },
                (Phase::AwaitJoined { .. }, OpResult::Failed { detail }) => remote_fail(
                    step,
                    detail@,
                    final(self).phase,
                ),
                (Phase::AwaitUnit, OpResult::Acked) => {
                    &&& step matches Step::Finish { result } && result matches Ok(rep) && rep
                        is Nothing
                    &&& final(self).phase is Complete
                },
                (Phase::AwaitUnit, OpResult::Failed { detail }) => remote_fail(
                    step,
                    detail@,
                    final(self).phase,
                ),
                (Phase::AwaitDisplayName, OpResult::DisplayName { name }) => {
                    &&& step matches Step::Finish { result } && result matches Ok(rep) && rep
                        matches Report::Line { text } && text@ == match name {
                        Some(n) => n@,
                        None => "Display Name Not Set"@,
                    }
                    &&& final(self).phase is Complete
                },
                (Phase::AwaitDisplayName, OpResult::Failed { detail }) => remote_fail(
                    step,
                    detail@,
                    final(self).phase,
                ),
                (Phase::AwaitAvatarUrl, OpResult::AvatarUrl { url }) => {
                    &&& step matches Step::Finish { result } && result matches Ok(rep) && rep
                        matches Report::Line { text } && text@ == match url {
                        Some(u) => u@,
                        None => "Avatar URL Not Set"@,
                    }
                    &&& final(self).phase is Complete
                },
                (Phase::AwaitAvatarUrl, OpResult::Failed { detail }) => remote_fail(
                    step,
                    detail@,
                    final(self).phase,
                ),
                (Phase::AwaitFile { media_type, .. }, OpResult::FileData { data }) => {
                    &&& step matches Step::Perform { op: Op::Upload { media_type: m, data: d } }
                        && m@ == media_type@ && d@ == data@
                    &&& final(self).phase is AwaitUpload
                },
                (Phase::AwaitFile { path, .. }, OpResult::ReadFailed) => {
                    &&& step matches Step::Finish { result } && result matches Err(e) && e
                        matches CliError::Io { path: p } && p@ == path@
                    &&& final(self).phase is Complete
                },
                (Phase::AwaitUpload, OpResult::Uploaded { content_uri }) => {
                    &&& step matches Step::Perform { op: Op::SetAvatarUrl { url } } && url@
                        == content_uri@
                    &&& final(self).phase is AwaitUnit
                },
                (Phase::AwaitUpload, OpResult::Failed { detail }) => remote_fail(
                    step,
                    detail@,
                    final(self).phase,
                ),
                (Phase::AwaitRooms { kind }, OpResult::RoomsListed { rooms }) => {
                    &&& step matches Step::Finish { result } && result matches Ok(rep) && rep
                        matches Report::RoomTable { kind: k, rows } && k == kind && rows_match(
                        rows@,
                        rooms@,
                    )
                    &&& final(self).phase is Complete
                },
                (Phase::AwaitRooms { .. }, OpResult::Failed { detail }) => remote_fail(
                    step,
                    detail@,
                    final(self).phase,
                ),
                (Phase::AwaitCreate, OpResult::RoomCreated { room_id }) => {
                    &&& step matches Step::Finish { result } && result matches Ok(rep) && rep
                        matches Report::Created { room_id: rid } && rid@ == room_id@
                    &&& final(self).phase is Complete
                },
                (Phase::AwaitCreate, OpResult::Failed { detail }) => remote_fail(
                    step,
                    detail@,
                    final(self).phase,
                ),
                (Phase::AwaitListenerReady, OpResult::ListenerReady { handle }) => {
                    &&& step matches Step::Perform { op } && op is AwaitCancellation
                    &&& final(self).phase matches Phase::Listening { handle: h } && h == handle
                },
                (Phase::AwaitListenerReady, OpResult::Failed { detail }) => remote_fail(
                    step,
                    detail@,
                    final(self).phase,
                ),
                (Phase::Listening { handle }, OpResult::Cancelled) => {
                    &&& step matches Step::Perform { op } && op matches Op::UnregisterListener {
                        handle: h,
                    } && h == handle
                    &&& final(self).phase is AwaitUnregister
                },
                (Phase::AwaitUnregister, OpResult::Acked) => {
                    &&& step matches Step::Finish { result } && result matches Ok(rep) && rep
                        is Nothing
                    &&& final(self).phase is Complete
                },
                _ => false,
            },
    {
        let mut ph = Phase::Complete;
        core::mem::swap(&mut ph, &mut self.phase);
        match ph {
            Phase::AwaitResolve { cmd } => match r {
                OpResult::AliasFound { room_id } => match resolve_finish(
                    room_token(&cmd).as_str(),
                    Some(room_id),
                ) {
                    Ok(resolved) => self.after_resolve(cmd, resolved),
                    Err(_) => unreached(),
                },
                OpResult::AliasMissing => match resolve_finish(room_token(&cmd).as_str(), None) {
                    Err(error) => Step::Finish { result: Err(error) },
                    Ok(_) => unreached(),
                },
                OpResult::Failed { detail } => self.fail_remote(detail),
                _ => unreached(),
            },
            Phase::AwaitJoined { cmd, room_id } => match r {
                OpResult::JoinedIs { joined } => {
                    if joined {
                        self.phase = Phase::AwaitUnit;
                        let op = match cmd {
                            Command::MessageSend { msg, .. } => Op::SendText {
                                room_id,
                                body: msg,
                            },
                            Command::RoomBan { user, reason, .. } => Op::BanUser {
                                room_id,
                                user,
                                reason,
                            },
                            Command::RoomInvite { user, .. } => Op::InviteUser { room_id, user },
                            Command::RoomKick { user, reason, .. } => Op::KickUser {
                                room_id,
                                user,
                                reason,
                            },
                            Command::RoomLeave { .. } => Op::LeaveRoom { room_id },
                            _ => unreached(),
                        };
                        Step::Perform { op }
                    } else {
                        Step::Finish { result: Err(CliError::NotMember { room_id }) }
                    }
                },
                OpResult::Failed { detail } => self.fail_remote(detail),
                _ => unreached(),
            },
            Phase::AwaitUnit => match r {
                OpResult::Acked => Step::Finish { result: Ok(Report::Nothing) },
                OpResult::Failed { detail } => self.fail_remote(detail),
                _ => unreached(),
            },
            Phase::AwaitDisplayName => match r {
                OpResult::DisplayName { name } => {
                    let text = match name {
                        Some(n) => n,
                        None => String::from_str("Display Name Not Set"),
                    };
                    Step::Finish { result: Ok(Report::Line { text }) }
                },
                OpResult::Failed { detail } => self.fail_remote(detail),
                _ => unreached(),
            },
            Phase::AwaitAvatarUrl => match r {
                OpResult::AvatarUrl { url } => {
                    let text = match url {
                        Some(u) => u,
                        None => String::from_str("Avatar URL Not Set"),
                    };
                    Step::Finish { result: Ok(Report::Line { text }) }
                },
                OpResult::Failed { detail } => self.fail_remote(detail),
                _ => unreached(),
            },
            Phase::AwaitFile { media_type, path } => match r {
                OpResult::FileData { data } => {
                    self.phase = Phase::AwaitUpload;
                    Step::Perform { op: Op::Upload { media_type, data } }
                },
                OpResult::ReadFailed => Step::Finish { result: Err(CliError::Io { path }) },
                _ => unreached(),
            },
            Phase::AwaitUpload => match r {
                OpResult::Uploaded { content_uri } => {
                    self.phase = Phase::AwaitUnit;
                    Step::Perform { op: Op::SetAvatarUrl { url: content_uri } }
                },
                OpResult::Failed { detail } => self.fail_remote(detail),
                _ => unreached(),
            },
            Phase::AwaitRooms { kind } => match r {
                OpResult::RoomsListed { rooms } => {
                    let rows = build_rows(rooms);
                    Step::Finish { result: Ok(Report::RoomTable { kind, rows }) }
                },
                OpResult::Failed { detail } => self.fail_remote(detail),
                _ => unreached(),
            },
            Phase::AwaitCreate => match r {
                OpResult::RoomCreated { room_id } => Step::Finish {
                    result: Ok(Report::Created { room_id }),
                },
                OpResult::Failed { detail } => self.fail_remote(detail),
                _ => unreached(),
            },
            Phase::AwaitListenerReady => match r {
                OpResult::ListenerReady { handle } => {
                    self.phase = Phase::Listening { handle };
                    Step::Perform { op: Op::AwaitCancellation }
                },
                OpResult::Failed { detail } => self.fail_remote(detail),
                _ => unreached(),
            },
            Phase::Listening { handle } => match r {
                OpResult::Cancelled => {
                    self.phase = Phase::AwaitUnregister;
                    Step::Perform { op: Op::UnregisterListener { handle } }
                },
                _ => unreached(),
            },
            Phase::AwaitUnregister => match r {
                OpResult::Acked => Step::Finish { result: Ok(Report::Nothing) },
                _ => unreached(),
            },
            Phase::Complete => unreached(),
        }
    }
}

} // verus!
