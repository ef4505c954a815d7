use matrix_cli::ident::{
    is_valid_room_name, is_valid_room_version, is_well_formed_ref, server_suffix,
};

#[test]
fn references_need_sigil_local_part_and_server() {
    assert!(is_well_formed_ref("!abc:example.org", '!'));
    assert!(is_well_formed_ref("#general:example.org", '#'));
    assert!(is_well_formed_ref("@alice:example.org", '@'));
    assert!(!is_well_formed_ref("#general:example.org", '!'));
    assert!(!is_well_formed_ref("abc:example.org", '!'));
    assert!(!is_well_formed_ref("!:example.org", '!'));
    assert!(!is_well_formed_ref("!abc:", '!'));
    assert!(!is_well_formed_ref("!abc", '!'));
    assert!(!is_well_formed_ref("", '!'));
    assert!(!is_well_formed_ref("!", '!'));
}

#[test]
fn the_server_part_follows_the_first_colon() {
    assert_eq!(server_suffix("!abc:example.org"), "example.org");
    assert_eq!(server_suffix("#general:server.example:8448"), "server.example:8448");
    assert_eq!(server_suffix("!abc"), "");
}

#[test]
fn room_names_are_bounded() {
    assert!(is_valid_room_name("Test"));
    assert!(!is_valid_room_name(""));
    let longest: String = "x".repeat(255);
    assert!(is_valid_room_name(longest.as_str()));
    let too_long: String = "x".repeat(256);
    assert!(!is_valid_room_name(too_long.as_str()));
}

#[test]
fn room_versions_are_bounded() {
    assert!(is_valid_room_version("9"));
    assert!(!is_valid_room_version(""));
    let longest: String = "7".repeat(32);
    assert!(is_valid_room_version(longest.as_str()));
    let too_long: String = "7".repeat(33);
    assert!(!is_valid_room_version(too_long.as_str()));
}
