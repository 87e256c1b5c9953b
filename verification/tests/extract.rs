use chat_archive::process::{
    extract, handle_clearmsg, handle_notice, handle_privmsg, read_number, read_time, strip_hash,
    Action, Command, Dropped, Event, Field, NoticeKind,
};
use chat_archive::tags::{contains_key, find, value, Tag};

const ID: &str = "550e8400-e29b-41d4-a716-446655440000";
const PARENT: &str = "67e55044-10b1-426f-9247-bb680e5fe0c8";

fn tag(key: &str, value: Option<&str>) -> Tag {
    Tag { key: key.to_string(), value: value.map(|v| v.to_string()) }
}

fn complete() -> Vec<Tag> {
    vec![
        tag("id", Some(ID)),
        tag("room-id", Some("12345")),
        tag("user-id", Some("67890")),
        tag("tmi-sent-ts", Some("1672567200123")),
    ]
}

fn without(key: &str) -> Vec<Tag> {
    complete().into_iter().filter(|t| t.key != key).collect()
}

fn with(key: &str, value: Option<&str>) -> Vec<Tag> {
    let mut tags = complete();
    tags.push(tag(key, value));
    tags
}

fn dropped(action: Action) -> Dropped {
    match action {
        Action::Ignore(why) => why,
        other => panic!("expected the event to be ignored, got {:?}", other),
    }
}

#[test]
fn complete_post_is_stored_with_the_values_of_its_tags() {
    let mut tags = complete();
    tags.push(tag("reply-parent-msg-id", Some(PARENT)));
    tags.push(tag("emotes", Some("25:0-4")));
    tags.push(tag("badges", Some("subscriber/12")));
    tags.push(tag("user-type", Some("mod")));
    match handle_privmsg("foo", "alice", "Kappa hello", &tags) {
        Action::StoreMessage(m) => {
            assert_eq!(m.id, uuid::Uuid::parse_str(ID).unwrap().as_u128());
            assert_eq!(m.id, 0x550e8400_e29b_41d4_a716_446655440000u128);
            assert_eq!(m.channel, "foo");
            assert_eq!(m.room_id, 12345);
            assert_eq!(m.user_id, 67890);
            assert_eq!(m.username, "alice");
            assert_eq!(m.message, "Kappa hello");
            assert_eq!(m.timestamp.unix_millis(), 1672567200123);
            assert!(!m.deleted);
            assert!(m.deleted_at.is_none());
            assert_eq!(m.replying_to, Some(uuid::Uuid::parse_str(PARENT).unwrap().as_u128()));
            assert!(!m.subscriber);
            assert!(!m.moderator);
            assert!(!m.vip);
            assert_eq!(m.emotes.as_deref(), Some("25:0-4"));
            assert_eq!(m.badges.as_deref(), Some("subscriber/12"));
            assert_eq!(m.user_type.as_deref(), Some("mod"));
        }
        other => panic!("expected a record, got {:?}", other),
    }
}

#[test]
fn optional_tags_default_to_absent() {
    match handle_privmsg("foo", "alice", "hi", &complete()) {
        Action::StoreMessage(m) => {
            assert_eq!(m.replying_to, None);
            assert_eq!(m.emotes, None);
            assert_eq!(m.badges, None);
            assert_eq!(m.user_type, None);
        }
        other => panic!("expected a record, got {:?}", other),
    }
}

#[test]
fn post_without_a_required_tag_is_ignored() {
    assert_eq!(dropped(handle_privmsg("foo", "alice", "hi", &without("id"))), Dropped::MissingId);
    assert_eq!(
        dropped(handle_privmsg("foo", "alice", "hi", &without("room-id"))),
        Dropped::MissingRoomId
    );
    assert_eq!(
        dropped(handle_privmsg("foo", "alice", "hi", &without("user-id"))),
        Dropped::MissingUserId
    );
    assert_eq!(
        dropped(handle_privmsg("foo", "alice", "hi", &without("tmi-sent-ts"))),
        Dropped::MissingTimestamp
    );
    assert_eq!(dropped(handle_privmsg("foo", "alice", "hi", &Vec::new())), Dropped::MissingId);
}

#[test]
fn required_tag_without_a_value_counts_as_missing() {
    let mut tags = without("room-id");
    tags.push(tag("room-id", None));
    assert_eq!(dropped(handle_privmsg("foo", "alice", "hi", &tags)), Dropped::MissingRoomId);
}

#[test]
fn post_with_an_unreadable_tag_is_ignored() {
    let mut tags = without("id");
    tags.push(tag("id", Some("not-an-id")));
    assert_eq!(dropped(handle_privmsg("foo", "alice", "hi", &tags)), Dropped::MalformedId);
    let mut tags = without("room-id");
    tags.push(tag("room-id", Some("12x")));
    assert_eq!(dropped(handle_privmsg("foo", "alice", "hi", &tags)), Dropped::MalformedRoomId);
    let mut tags = without("user-id");
    tags.push(tag("user-id", Some("")));
    assert_eq!(dropped(handle_privmsg("foo", "alice", "hi", &tags)), Dropped::MalformedUserId);
    let mut tags = without("tmi-sent-ts");
    tags.push(tag("tmi-sent-ts", Some("yesterday")));
    assert_eq!(dropped(handle_privmsg("foo", "alice", "hi", &tags)), Dropped::MalformedTimestamp);
    let tags = with("reply-parent-msg-id", Some("zzz"));
    assert_eq!(dropped(handle_privmsg("foo", "alice", "hi", &tags)), Dropped::MalformedReplyId);
}

#[test]
fn send_time_outside_the_representable_years_is_unreadable() {
    let mut tags = without("tmi-sent-ts");
    tags.push(tag("tmi-sent-ts", Some("253402300800000")));
    assert_eq!(dropped(handle_privmsg("foo", "alice", "hi", &tags)), Dropped::MalformedTimestamp);
    let mut tags = without("tmi-sent-ts");
    tags.push(tag("tmi-sent-ts", Some("253402300799999")));
    assert!(matches!(handle_privmsg("foo", "alice", "hi", &tags), Action::StoreMessage(_)));
}

#[test]
fn the_first_fault_is_reported() {
    let tags = vec![tag("room-id", Some("x")), tag("user-id", Some("1"))];
    assert_eq!(dropped(handle_privmsg("foo", "alice", "hi", &tags)), Dropped::MissingId);
    let tags = vec![tag("id", Some(ID)), tag("room-id", Some("x"))];
    assert_eq!(dropped(handle_privmsg("foo", "alice", "hi", &tags)), Dropped::MalformedRoomId);
}

#[test]
fn role_flags_go_by_presence_not_value() {
    let mut tags = complete();
    tags.push(tag("subscriber", Some("0")));
    tags.push(tag("mod", Some("")));
    tags.push(tag("vip", None));
    match handle_privmsg("foo", "alice", "hi", &tags) {
        Action::StoreMessage(m) => {
            assert!(m.subscriber);
            assert!(m.moderator);
            assert!(m.vip);
        }
        other => panic!("expected a record, got {:?}", other),
    }
}

#[test]
fn lookup_takes_the_later_of_two_entries() {
    let tags = vec![tag("k", Some("first")), tag("other", None), tag("k", Some("second"))];
    assert_eq!(find(&tags, "k"), Some(Some("second".to_string())));
    assert_eq!(find(&tags, "other"), Some(None));
    assert_eq!(find(&tags, "absent"), None);
    assert_eq!(value(&tags, "k"), Some("second".to_string()));
    assert_eq!(value(&tags, "other"), None);
    assert!(contains_key(&tags, "other"));
    assert!(!contains_key(&tags, "absent"));
    let tags = vec![tag("k", Some("first")), tag("k", None)];
    assert_eq!(find(&tags, "k"), Some(None));
}

#[test]
fn decimal_numbers_are_read_as_the_standard_library_reads_them() {
    let read = |text: &str| read_number(&vec![tag("n", Some(text))], "n");
    assert!(matches!(read("0"), Field::Present(0)));
    assert!(matches!(read("+5"), Field::Present(5)));
    assert!(matches!(read("-5"), Field::Present(-5)));
    assert!(matches!(read("007"), Field::Present(7)));
    assert!(matches!(read("0000000000000000000000000000042"), Field::Present(42)));
    assert!(matches!(read("-0000000000000000000009223372036854775808"), Field::Present(i64::MIN)));
    assert!(matches!(read("+9223372036854775807"), Field::Present(i64::MAX)));
    assert!(matches!(read("12345678901234567890123"), Field::Malformed));
    assert!(matches!(read("-0"), Field::Present(0)));
    assert!(matches!(read("9223372036854775807"), Field::Present(i64::MAX)));
    assert!(matches!(read("-9223372036854775808"), Field::Present(i64::MIN)));
    assert!(matches!(read("9223372036854775808"), Field::Malformed));
    assert!(matches!(read("-9223372036854775809"), Field::Malformed));
    assert!(matches!(read(""), Field::Malformed));
    assert!(matches!(read("+"), Field::Malformed));
    assert!(matches!(read("-"), Field::Malformed));
    assert!(matches!(read(" 5"), Field::Malformed));
    assert!(matches!(read("5 "), Field::Malformed));
    assert!(matches!(read("+-5"), Field::Malformed));
    assert!(matches!(read("1_000"), Field::Malformed));
    assert!(matches!(read("\u{0665}"), Field::Malformed));
    assert!(matches!(read_number(&Vec::new(), "n"), Field::Missing));
}

#[test]
fn send_time_is_read_in_milliseconds() {
    match read_time(&vec![tag("tmi-sent-ts", Some("-1"))], "tmi-sent-ts") {
        Field::Present(at) => assert_eq!(at.unix_millis(), -1),
        other => panic!("expected an instant, got {:?}", other),
    }
}

#[test]
fn removal_becomes_a_deletion() {
    let tags = vec![tag("target-msg-id", Some(ID)), tag("tmi-sent-ts", Some("1672567260000"))];
    match handle_clearmsg(&tags) {
        Action::DeleteMessage { id, deleted_at } => {
            assert_eq!(id, uuid::Uuid::parse_str(ID).unwrap().as_u128());
            assert_eq!(deleted_at.unix_millis(), 1672567260000);
        }
        other => panic!("expected a deletion, got {:?}", other),
    }
}

#[test]
fn removal_without_target_or_time_is_ignored() {
    let tags = vec![tag("target-msg-id", Some(ID))];
    assert_eq!(dropped(handle_clearmsg(&tags)), Dropped::MissingTimestamp);
    let tags = vec![tag("tmi-sent-ts", Some("1672567260000"))];
    assert_eq!(dropped(handle_clearmsg(&tags)), Dropped::MissingTargetId);
    let tags = vec![tag("target-msg-id", Some("?")), tag("tmi-sent-ts", Some("1672567260000"))];
    assert_eq!(dropped(handle_clearmsg(&tags)), Dropped::MalformedTargetId);
    let tags = vec![tag("target-msg-id", Some("?")), tag("tmi-sent-ts", Some("soon"))];
    assert_eq!(dropped(handle_clearmsg(&tags)), Dropped::MalformedTimestamp);
}

#[test]
fn identifiers_are_read_in_every_form_the_parser_accepts() {
    let hyphenated = vec![tag("target-msg-id", Some(ID)), tag("tmi-sent-ts", Some("0"))];
    let simple = vec![
        tag("target-msg-id", Some("550e8400e29b41d4a716446655440000")),
        tag("tmi-sent-ts", Some("0")),
    ];
    let a = match handle_clearmsg(&hyphenated) {
        Action::DeleteMessage { id, .. } => id,
        other => panic!("expected a deletion, got {:?}", other),
    };
    let b = match handle_clearmsg(&simple) {
        Action::DeleteMessage { id, .. } => id,
        other => panic!("expected a deletion, got {:?}", other),
    };
    assert_eq!(a, b);
    assert_eq!(a, 0x550e8400_e29b_41d4_a716_446655440000u128);
}

#[test]
fn notices_are_classified_by_their_body() {
    assert_eq!(handle_notice("Login authentication failed"), NoticeKind::AuthenticationFailed);
    assert_eq!(handle_notice("  LOGIN UNSUCCESSFUL FAILED \n"), NoticeKind::AuthenticationFailed);
    assert_eq!(handle_notice("Improperly formatted auth"), NoticeKind::ImproperlyFormattedAuth);
    assert_eq!(handle_notice("Login authentication failed!"), NoticeKind::Other);
    assert_eq!(handle_notice(""), NoticeKind::Other);
}

#[test]
fn channel_loses_its_leading_hash() {
    assert_eq!(strip_hash("#foo"), "foo");
    assert_eq!(strip_hash("foo"), "foo");
    assert_eq!(strip_hash("##foo"), "#foo");
    assert_eq!(strip_hash("#"), "");
    assert_eq!(strip_hash(""), "");
    assert_eq!(strip_hash("#\u{00e9}t\u{00e9}"), "\u{00e9}t\u{00e9}");
}

#[test]
fn chat_post_event_is_extracted_with_a_normalised_channel() {
    let event = Event {
        command: Command::Privmsg { channel: "#Foo".to_string(), body: "hi".to_string() },
        sender: Some("alice".to_string()),
        tags: complete(),
    };
    match extract(&event) {
        Action::StoreMessage(m) => {
            assert_eq!(m.channel, "foo");
            assert_eq!(m.username, "alice");
            assert_eq!(m.message, "hi");
        }
        other => panic!("expected a record, got {:?}", other),
    }
}

#[test]
fn chat_post_without_a_sender_is_ignored() {
    let event = Event {
        command: Command::Privmsg { channel: "#foo".to_string(), body: "hi".to_string() },
        sender: None,
        tags: complete(),
    };
    assert_eq!(dropped(extract(&event)), Dropped::MissingSender);
}

#[test]
fn notice_event_is_passed_on() {
    let event = Event {
        command: Command::Notice {
            target: "*".to_string(),
            body: "Login authentication failed".to_string(),
        },
        sender: None,
        tags: Vec::new(),
    };
    match extract(&event) {
        Action::Notice { body } => assert_eq!(body, "Login authentication failed"),
        other => panic!("expected a notice, got {:?}", other),
    }
}

#[test]
fn only_the_removal_command_is_handled_among_raw_commands() {
    let tags = vec![tag("target-msg-id", Some(ID)), tag("tmi-sent-ts", Some("1672567260000"))];
    let event = Event {
        command: Command::Raw { command: "CLEARMSG".to_string() },
        sender: None,
        tags,
    };
    assert!(matches!(extract(&event), Action::DeleteMessage { .. }));
    let event = Event {
        command: Command::Raw { command: "USERSTATE".to_string() },
        sender: None,
        tags: complete(),
    };
    assert_eq!(dropped(extract(&event)), Dropped::Unhandled);
    let event = Event { command: Command::Other, sender: None, tags: complete() };
    assert_eq!(dropped(extract(&event)), Dropped::Unhandled);
}
