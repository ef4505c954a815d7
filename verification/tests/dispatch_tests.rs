use matrix_cli::dispatch::{
    Command, Dispatcher, Op, OpResult, Report, RoomInfo, RoomListKind, Step,
};
use matrix_cli::errors::CliError;

fn server() -> String {
    String::from("example.org")
}

#[test]
fn no_command_finishes_at_once() {
    let (_, step) = Dispatcher::start(None, false, server());
    assert!(matches!(step, Step::Finish { result: Ok(Report::Nothing) }));
}

#[test]
fn join_via_alias_targets_the_resolved_id() {
    let cmd = Command::RoomJoin { room: String::from("#general:example.org") };
    let (mut d, step) = Dispatcher::start(Some(cmd), false, server());
    match step {
        Step::Perform { op: Op::LookupAlias { alias } } => {
            assert_eq!(alias, "#general:example.org");
        },
        _ => panic!("an alias must be looked up first"),
    }
    let step = d.on_result(OpResult::AliasFound {
        room_id: String::from("!abc123:example.org"),
    });
    match step {
        Step::Perform { op: Op::JoinRoom { room_id, server_name } } => {
            assert_eq!(room_id, "!abc123:example.org");
            assert_eq!(server_name, "example.org");
        },
        _ => panic!("the join must target the canonical identifier, not the alias"),
    }
    let step = d.on_result(OpResult::Acked);
    assert!(matches!(step, Step::Finish { result: Ok(Report::Nothing) }));
}

#[test]
fn send_without_membership_issues_no_send() {
    let cmd = Command::MessageSend {
        room: String::from("!abc123:example.org"),
        msg: String::from("hello"),
    };
    let (mut d, step) = Dispatcher::start(Some(cmd), false, server());
    match step {
        Step::Perform { op: Op::CheckJoined { room_id } } => {
            assert_eq!(room_id, "!abc123:example.org");
        },
        _ => panic!("sending must check membership first"),
    }
    let step = d.on_result(OpResult::JoinedIs { joined: false });
    match step {
        Step::Finish { result: Err(CliError::NotMember { room_id }) } => {
            assert_eq!(room_id, "!abc123:example.org");
        },
        _ => panic!("without membership the dispatcher must report NotMember"),
    }
}

#[test]
fn send_with_membership_sends_the_text() {
    let cmd = Command::MessageSend {
        room: String::from("!abc123:example.org"),
        msg: String::from("hello"),
    };
    let (mut d, _) = Dispatcher::start(Some(cmd), false, server());
    let step = d.on_result(OpResult::JoinedIs { joined: true });
    match step {
        Step::Perform { op: Op::SendText { room_id, body } } => {
            assert_eq!(room_id, "!abc123:example.org");
            assert_eq!(body, "hello");
        },
        _ => panic!("with membership the text must be sent"),
    }
}

#[test]
fn dry_run_create_reports_the_plan_and_calls_nothing() {
    let cmd = Command::RoomCreate {
        name: Some(String::from("Test")),
        is_public: false,
        alias: Some(String::from("test")),
        version: None,
    };
    let (_, step) = Dispatcher::start(Some(cmd), true, server());
    match step {
        Step::Finish { result: Ok(Report::DryRunCreate { plan }) } => {
            assert_eq!(plan.name, Some(String::from("Test")));
            assert!(!plan.is_public);
            assert_eq!(plan.alias_localpart, Some(String::from("test")));
            assert_eq!(plan.version, None);
        },
        _ => panic!("dry-run must report the would-be request and perform nothing"),
    }
}

#[test]
fn create_carries_the_requested_version() {
    let cmd = Command::RoomCreate {
        name: None,
        is_public: true,
        alias: None,
        version: Some(String::from("9")),
    };
    let (mut d, step) = Dispatcher::start(Some(cmd), false, server());
    match step {
        Step::Perform { op: Op::CreateRoom { plan } } => {
            assert_eq!(plan.version, Some(String::from("9")));
            assert!(plan.is_public);
        },
        _ => panic!("without dry-run the room must be created"),
    }
    let step = d.on_result(OpResult::RoomCreated {
        room_id: String::from("!new:example.org"),
    });
    match step {
        Step::Finish { result: Ok(Report::Created { room_id }) } => {
            assert_eq!(room_id, "!new:example.org");
        },
        _ => panic!("creation must report the new room"),
    }
}

#[test]
fn overlong_room_version_is_rejected() {
    let cmd = Command::RoomCreate {
        name: None,
        is_public: false,
        alias: None,
        version: Some(String::from("123456789012345678901234567890123")),
    };
    let (_, step) = Dispatcher::start(Some(cmd), false, server());
    assert!(matches!(
        step,
        Step::Finish { result: Err(CliError::BadRoomVersion { .. }) }
    ));
}

#[test]
fn empty_room_name_is_rejected() {
    let cmd = Command::RoomCreate {
        name: Some(String::new()),
        is_public: false,
        alias: None,
        version: None,
    };
    let (_, step) = Dispatcher::start(Some(cmd), false, server());
    assert!(matches!(step, Step::Finish { result: Err(CliError::BadRoomName { .. }) }));
}

#[test]
fn malformed_room_token_is_rejected_with_no_operation() {
    let cmd = Command::RoomJoin { room: String::from("general") };
    let (_, step) = Dispatcher::start(Some(cmd), false, server());
    match step {
        Step::Finish { result: Err(CliError::MalformedReference { token }) } => {
            assert_eq!(token, "general");
        },
        _ => panic!("a token without a sigil must be rejected"),
    }
}

#[test]
fn unknown_alias_is_alias_not_found() {
    let cmd = Command::RoomLeave { room: String::from("#nowhere:example.org") };
    let (mut d, _) = Dispatcher::start(Some(cmd), false, server());
    let step = d.on_result(OpResult::AliasMissing);
    match step {
        Step::Finish { result: Err(CliError::AliasNotFound { alias }) } => {
            assert_eq!(alias, "#nowhere:example.org");
        },
        _ => panic!("a missing mapping must be AliasNotFound"),
    }
}

#[test]
fn ban_passes_user_and_reason_to_the_resolved_room() {
    let cmd = Command::RoomBan {
        room: String::from("!r:example.org"),
        user: String::from("@bad:example.org"),
        reason: Some(String::from("spam")),
    };
    let (mut d, _) = Dispatcher::start(Some(cmd), false, server());
    let step = d.on_result(OpResult::JoinedIs { joined: true });
    match step {
        Step::Perform { op: Op::BanUser { room_id, user, reason } } => {
            assert_eq!(room_id, "!r:example.org");
            assert_eq!(user, "@bad:example.org");
            assert_eq!(reason, Some(String::from("spam")));
        },
        _ => panic!("the ban must carry user and reason"),
    }
}

#[test]
fn set_avatar_guesses_the_media_type_from_the_path() {
    let cmd = Command::UserSetAvatar { file: String::from("portrait.png") };
    let (mut d, step) = Dispatcher::start(Some(cmd), false, server());
    match step {
        Step::Perform { op: Op::ReadFile { path } } => assert_eq!(path, "portrait.png"),
        _ => panic!("the avatar file must be read"),
    }
    let step = d.on_result(OpResult::FileData { data: vec![1, 2, 3] });
    match step {
        Step::Perform { op: Op::Upload { media_type, data } } => {
            assert_eq!(media_type, "image/png");
            assert_eq!(data, vec![1, 2, 3]);
        },
        _ => panic!("the file must be uploaded under its guessed media type"),
    }
    let step = d.on_result(OpResult::Uploaded {
        content_uri: String::from("mxc://example.org/xyz"),
    });
    match step {
        Step::Perform { op: Op::SetAvatarUrl { url } } => {
            assert_eq!(url, "mxc://example.org/xyz");
        },
        _ => panic!("the uploaded content must become the avatar"),
    }
    let step = d.on_result(OpResult::Acked);
    assert!(matches!(step, Step::Finish { result: Ok(Report::Nothing) }));
}

#[test]
fn unreadable_avatar_file_is_an_io_error_with_the_path() {
    let cmd = Command::UserSetAvatar { file: String::from("missing.png") };
    let (mut d, _) = Dispatcher::start(Some(cmd), false, server());
    let step = d.on_result(OpResult::ReadFailed);
    match step {
        Step::Finish { result: Err(CliError::Io { path }) } => assert_eq!(path, "missing.png"),
        _ => panic!("a failed file read must be an io error naming the path"),
    }
}

#[test]
fn avatar_file_without_known_type_is_rejected() {
    let cmd = Command::UserSetAvatar { file: String::from("notes.unknownext") };
    let (_, step) = Dispatcher::start(Some(cmd), false, server());
    assert!(matches!(
        step,
        Step::Finish { result: Err(CliError::UnknownMediaType { .. }) }
    ));
}

#[test]
fn unset_display_name_reports_a_fixed_line() {
    let cmd = Command::UserGetDisplayName;
    let (mut d, step) = Dispatcher::start(Some(cmd), false, server());
    assert!(matches!(step, Step::Perform { op: Op::GetDisplayName }));
    let step = d.on_result(OpResult::DisplayName { name: None });
    match step {
        Step::Finish { result: Ok(Report::Line { text }) } => {
            assert_eq!(text, "Display Name Not Set");
        },
        _ => panic!("an unset display name must still be reported"),
    }
}

#[test]
fn room_table_rebuilds_the_alias_against_the_room_server() {
    let cmd = Command::UserRooms { kind: RoomListKind::Joined };
    let (mut d, step) = Dispatcher::start(Some(cmd), false, server());
    assert!(matches!(step, Step::Perform { op: Op::ListRooms { kind: RoomListKind::Joined } }));
    let rooms = vec![
        RoomInfo {
            room_id: String::from("!abc:example.org"),
            alias_localpart: Some(String::from("general")),
            name: Some(String::from("General")),
        },
        RoomInfo {
            room_id: String::from("!xyz:example.org"),
            alias_localpart: None,
            name: None,
        },
    ];
    let step = d.on_result(OpResult::RoomsListed { rooms });
    match step {
        Step::Finish { result: Ok(Report::RoomTable { kind, rows }) } => {
            assert!(matches!(kind, RoomListKind::Joined));
            assert_eq!(rows.len(), 2);
            assert_eq!(rows[0].id, "!abc:example.org");
            assert_eq!(rows[0].alias, "#general:example.org");
            assert_eq!(rows[0].name, "General");
            assert_eq!(rows[1].id, "!xyz:example.org");
            assert_eq!(rows[1].alias, "");
            assert_eq!(rows[1].name, "");
        },
        _ => panic!("the room list must become a table"),
    }
}

#[test]
fn listen_registers_waits_and_cleans_up() {
    let cmd = Command::MessageListen { room: String::from("!abc:example.org") };
    let (mut d, step) = Dispatcher::start(Some(cmd), false, server());
    match step {
        Step::Perform { op: Op::RegisterListener { room_id } } => {
            assert_eq!(room_id, "!abc:example.org");
        },
        _ => panic!("listen must register a listener for the resolved room"),
    }
    let step = d.on_result(OpResult::ListenerReady { handle: 7 });
    assert!(matches!(step, Step::Perform { op: Op::AwaitCancellation }));
    let step = d.on_result(OpResult::Cancelled);
    match step {
        Step::Perform { op: Op::UnregisterListener { handle } } => assert_eq!(handle, 7),
        _ => panic!("cancellation must withdraw the subscription"),
    }
    let step = d.on_result(OpResult::Acked);
    assert!(matches!(step, Step::Finish { result: Ok(Report::Nothing) }));
}

#[test]
fn remote_failure_is_propagated_not_swallowed() {
    let cmd = Command::UserSetDisplayName { name: String::from("Alice") };
    let (mut d, step) = Dispatcher::start(Some(cmd), false, server());
    match step {
        Step::Perform { op: Op::SetDisplayName { name } } => assert_eq!(name, "Alice"),
        _ => panic!("the display name must be set"),
    }
    let step = d.on_result(OpResult::Failed { detail: String::from("500") });
    match step {
        Step::Finish { result: Err(CliError::Remote { detail }) } => assert_eq!(detail, "500"),
        _ => panic!("a remote failure must propagate"),
    }
}

#[test]
fn malformed_user_id_is_rejected_before_any_call() {
    let cmd = Command::RoomBan {
        room: String::from("!r:example.org"),
        user: String::from("bad-user"),
        reason: None,
    };
    let (_, step) = Dispatcher::start(Some(cmd), false, server());
    match step {
        Step::Finish { result: Err(CliError::MalformedReference { token }) } => {
            assert_eq!(token, "bad-user");
        },
        _ => panic!("a malformed user identifier must be rejected up front"),
    }
}

#[test]
fn create_alias_validates_the_new_alias_first() {
    let cmd = Command::RoomCreateAlias {
        room: String::from("!abc:example.org"),
        alias: String::from("nosigil"),
    };
    let (_, step) = Dispatcher::start(Some(cmd), false, server());
    match step {
        Step::Finish { result: Err(CliError::MalformedReference { token }) } => {
            assert_eq!(token, "nosigil");
        },
        _ => panic!("a malformed new alias must be rejected before any call"),
    }
}

#[test]
fn create_alias_targets_the_resolved_room() {
    let cmd = Command::RoomCreateAlias {
        room: String::from("#general:example.org"),
        alias: String::from("#second:example.org"),
    };
    let (mut d, _) = Dispatcher::start(Some(cmd), false, server());
    let step = d.on_result(OpResult::AliasFound {
        room_id: String::from("!abc:example.org"),
    });
    match step {
        Step::Perform { op: Op::CreateAlias { room_id, alias } } => {
            assert_eq!(room_id, "!abc:example.org");
            assert_eq!(alias, "#second:example.org");
        },
        _ => panic!("the new alias must point at the canonical identifier"),
    }
}
