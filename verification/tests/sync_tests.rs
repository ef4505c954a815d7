use matrix_cli::errors::CliError;
use matrix_cli::sync::{FetchOutcome, MsgEvent, SyncDecision, SyncState};

fn text_event(room: &str, sender: &str, ts: u64, body: &str) -> MsgEvent {
    MsgEvent {
        room_id: String::from(room),
        sender: String::from(sender),
        ts_ms: ts,
        body: Some(String::from(body)),
        joined: true,
    }
}

#[test]
fn transient_failure_keeps_the_loop_and_the_token() {
    let mut s = SyncState::new();
    let h = s.register(String::from("!r:example.org"));
    let (decision, deliveries) = s.on_fetch(FetchOutcome::Transient {
        detail: String::from("connection reset"),
    });
    assert!(matches!(decision, SyncDecision::Continue));
    assert!(deliveries.is_empty());
    assert_eq!(s.token, None);

    let (decision, deliveries) = s.on_fetch(FetchOutcome::Batch {
        events: vec![text_event("!r:example.org", "@a:example.org", 1000, "hi")],
        next_token: String::from("t2"),
    });
    assert!(matches!(decision, SyncDecision::Continue));
    assert_eq!(s.token, Some(String::from("t2")));
    assert_eq!(deliveries.len(), 1);
    assert_eq!(deliveries[0].handle, h);
    assert_eq!(deliveries[0].sender, "@a:example.org");
    assert_eq!(deliveries[0].ts_ms, 1000);
    assert_eq!(deliveries[0].body, "hi");
}

#[test]
fn rejected_credential_ends_the_loop_fatally() {
    let mut s = SyncState::new();
    let (decision, _) = s.on_fetch(FetchOutcome::AuthInvalid {
        detail: String::from("token revoked"),
    });
    assert!(matches!(decision, SyncDecision::Fatal { error: CliError::InvalidSession }));
}

#[test]
fn deliveries_come_in_receipt_order() {
    let mut s = SyncState::new();
    let h1 = s.register(String::from("!r:example.org"));
    let h2 = s.register(String::from("!r:example.org"));
    let (_, ds) = s.on_fetch(FetchOutcome::Batch {
        events: vec![
            text_event("!r:example.org", "@a:example.org", 1, "first"),
            text_event("!r:example.org", "@b:example.org", 2, "second"),
        ],
        next_token: String::from("t"),
    });
    assert_eq!(ds.len(), 4);
    assert_eq!((ds[0].handle, ds[0].body.as_str()), (h1, "first"));
    assert_eq!((ds[1].handle, ds[1].body.as_str()), (h2, "first"));
    assert_eq!((ds[2].handle, ds[2].body.as_str()), (h1, "second"));
    assert_eq!((ds[3].handle, ds[3].body.as_str()), (h2, "second"));
}

#[test]
fn only_matching_events_are_delivered() {
    let mut s = SyncState::new();
    s.register(String::from("!r:example.org"));
    let other_room = text_event("!other:example.org", "@a:b", 1, "elsewhere");
    let no_body = MsgEvent {
        room_id: String::from("!r:example.org"),
        sender: String::from("@a:b"),
        ts_ms: 2,
        body: None,
        joined: true,
    };
    let not_joined = MsgEvent {
        room_id: String::from("!r:example.org"),
        sender: String::from("@a:b"),
        ts_ms: 3,
        body: Some(String::from("hidden")),
        joined: false,
    };
    let good = text_event("!r:example.org", "@a:b", 4, "visible");
    let (_, ds) = s.on_fetch(FetchOutcome::Batch {
        events: vec![other_room, no_body, not_joined, good],
        next_token: String::from("t"),
    });
    assert_eq!(ds.len(), 1);
    assert_eq!(ds[0].body, "visible");
}

#[test]
fn unregister_withdraws_exactly_one_subscription() {
    let mut s = SyncState::new();
    let h1 = s.register(String::from("!r:example.org"));
    let h2 = s.register(String::from("!r:example.org"));
    s.unregister(h1);
    let (_, ds) = s.on_fetch(FetchOutcome::Batch {
        events: vec![text_event("!r:example.org", "@a:b", 1, "hi")],
        next_token: String::from("t"),
    });
    assert_eq!(ds.len(), 1);
    assert_eq!(ds[0].handle, h2);
}

#[test]
fn handles_are_never_reused() {
    let mut s = SyncState::new();
    let h1 = s.register(String::from("!r:example.org"));
    s.unregister(h1);
    let h2 = s.register(String::from("!r:example.org"));
    assert_ne!(h1, h2);
}
