use matrix_cli::errors::CliError;
use matrix_cli::resolve::{resolve_finish, resolve_start, ResolveStep};

#[test]
fn raw_room_id_passes_through_unchanged() {
    match resolve_start("!abc123:example.org") {
        ResolveStep::Resolved { room_id } => assert_eq!(room_id, "!abc123:example.org"),
        _ => panic!("a raw room identifier must resolve to itself"),
    }
}

#[test]
fn raw_room_id_with_port_passes_through() {
    match resolve_start("!abc:server.example:8448") {
        ResolveStep::Resolved { room_id } => assert_eq!(room_id, "!abc:server.example:8448"),
        _ => panic!("a room identifier with a port must resolve to itself"),
    }
}

#[test]
fn alias_asks_for_one_lookup_with_exact_string() {
    match resolve_start("#general:example.org") {
        ResolveStep::Lookup { alias } => assert_eq!(alias, "#general:example.org"),
        _ => panic!("an alias must ask for a lookup"),
    }
}

#[test]
fn lookup_answer_becomes_the_canonical_id() {
    let r = resolve_finish("#general:example.org", Some(String::from("!abc123:example.org")));
    assert_eq!(r.unwrap(), "!abc123:example.org");
}

#[test]
fn missing_mapping_is_alias_not_found() {
    let r = resolve_finish("#general:example.org", None);
    match r {
        Err(CliError::AliasNotFound { alias }) => assert_eq!(alias, "#general:example.org"),
        _ => panic!("a missing mapping must be AliasNotFound"),
    }
}

#[test]
fn token_without_sigil_is_rejected() {
    assert!(matches!(resolve_start("general"), ResolveStep::Rejected));
}

#[test]
fn bare_local_part_is_rejected() {
    assert!(matches!(resolve_start("#general"), ResolveStep::Rejected));
}

#[test]
fn alias_without_server_name_is_rejected() {
    assert!(matches!(resolve_start("#general:"), ResolveStep::Rejected));
}

#[test]
fn alias_with_empty_local_part_is_rejected() {
    assert!(matches!(resolve_start("#:example.org"), ResolveStep::Rejected));
}

#[test]
fn empty_token_is_rejected() {
    assert!(matches!(resolve_start(""), ResolveStep::Rejected));
}
