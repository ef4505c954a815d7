use matrix_cli::session::{encode_session, parse_session, Session};

fn sample() -> Session {
    Session {
        user_id: String::from("@alice:example.org"),
        device_id: String::from("DEVICEABC"),
        access_token: String::from("SECRET-REDACTED"),
        homeserver: String::from("https://example.org"),
    }
}

#[test]
fn round_trip_preserves_every_field() {
    let s = sample();
    let text = encode_session(&s);
    let back = parse_session(text.as_str()).expect("a written record must read back");
    assert_eq!(back, s);
}

#[test]
fn round_trip_with_empty_fields() {
    let s = Session {
        user_id: String::new(),
        device_id: String::new(),
        access_token: String::new(),
        homeserver: String::new(),
    };
    let text = encode_session(&s);
    let back = parse_session(text.as_str()).expect("empty fields must read back");
    assert_eq!(back, s);
}

#[test]
fn round_trip_with_newlines_and_colons_inside_fields() {
    let s = Session {
        user_id: String::from("@who:ex.org"),
        device_id: String::from("line one\nline two"),
        access_token: String::from("a:b:c\n\n"),
        homeserver: String::from("https://ex.org:8448"),
    };
    let text = encode_session(&s);
    let back = parse_session(text.as_str()).expect("framed fields may hold any text");
    assert_eq!(back, s);
}

#[test]
fn empty_text_is_not_a_record() {
    assert!(parse_session("").is_none());
}

#[test]
fn foreign_text_is_not_a_record() {
    assert!(parse_session("{\"user_id\":\"@a:b\"}").is_none());
}

#[test]
fn truncated_record_is_not_a_record() {
    let s = sample();
    let text = encode_session(&s);
    let cut = &text[..text.len() - 3];
    assert!(parse_session(cut).is_none());
}

#[test]
fn record_with_trailing_garbage_is_not_a_record() {
    let s = sample();
    let mut text = encode_session(&s);
    text.push_str("x");
    assert!(parse_session(text.as_str()).is_none());
}

#[test]
fn corrupted_length_digit_is_not_a_record() {
    let s = sample();
    let text = encode_session(&s);
    let tampered = text.replacen("00000000000000000018", "0000000000000000001x", 1);
    assert!(parse_session(tampered.as_str()).is_none());
}

#[test]
fn encoding_starts_with_the_header_line() {
    let text = encode_session(&sample());
    assert!(text.starts_with("matrix-cli session v1\n"));
}
