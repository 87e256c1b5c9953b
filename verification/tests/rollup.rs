use chat_archive::archive::{Applied, Archive, StoreError};
use chat_archive::export::{raised, ExportRun};
use chat_archive::messages::Model;
use chat_archive::process::Action;
use chat_archive::rollup::{
    day_bounds, format_message, get_text_log_file_name, max_messages_per_page, name_log,
    plan_rollup,
    rollup_step, RollupCommand, RollupEvent, RollupState, PAGE_BYTES,
};
use chat_archive::transcript::parse_line;
use chat_archive::timestamp::{start_of_day, Timestamp, MAX_UNIX_MILLIS, MIN_UNIX_MILLIS};

const TEN: i64 = 1_672_567_200_000;

fn at(unix_millis: i64) -> Timestamp {
    Timestamp::from_unix_millis(unix_millis).unwrap()
}

fn message(id: u128, channel: &str, username: &str, text: &str, unix_millis: i64) -> Model {
    Model {
        id,
        channel: channel.to_string(),
        room_id: 1,
        user_id: 2,
        username: username.to_string(),
        message: text.to_string(),
        timestamp: at(unix_millis),
        deleted: false,
        deleted_at: None,
        replying_to: None,
        subscriber: false,
        moderator: false,
        vip: false,
        emotes: None,
        badges: None,
        user_type: None,
    }
}

#[test]
fn line_of_a_message() {
    let m = message(1, "foo", "alice", "hi", TEN);
    assert_eq!(format_message(&m), "[10:00:00] <alice> hi\n");
}

#[test]
fn line_of_a_deleted_message_is_annotated() {
    let mut m = message(1, "foo", "alice", "hi", TEN);
    m.deleted = true;
    m.deleted_at = Some(at(TEN + 60_000));
    assert_eq!(format_message(&m), "[10:00:00] <alice; deleted at 10:01:00> hi\n");
}

#[test]
fn clock_is_zero_padded_and_ignores_milliseconds() {
    assert_eq!(at(0).clock(), "00:00:00");
    assert_eq!(at(3_723_999).clock(), "01:02:03");
    assert_eq!(at(86_399_999).clock(), "23:59:59");
    assert_eq!(at(-1).clock(), "23:59:59");
    assert_eq!(at(-86_400_000).clock(), "00:00:00");
    assert_eq!(at(TEN + 5_000).clock(), "10:00:05");
}

#[test]
fn representable_instants_span_the_years_of_the_calendar() {
    assert!(Timestamp::from_unix_millis(MIN_UNIX_MILLIS - 1).is_none());
    assert!(Timestamp::from_unix_millis(MAX_UNIX_MILLIS + 1).is_none());
    let first = at(MIN_UNIX_MILLIS);
    let last = at(MAX_UNIX_MILLIS);
    assert_eq!(first.clock(), "00:00:00");
    assert_eq!(last.clock(), "23:59:59");
    assert_eq!(first.date(), "-9999-01-01");
    assert_eq!(last.date(), "9999-12-31");
    assert_eq!(first.unix_millis(), MIN_UNIX_MILLIS);
}

#[test]
fn log_is_named_after_channel_and_day() {
    assert_eq!(get_text_log_file_name("foo", at(TEN)), "foo_2023-01-01.txt");
    assert_eq!(get_text_log_file_name("bar", at(-1)), "bar_1969-12-31.txt");
}

#[test]
fn day_numbers_count_from_the_epoch() {
    assert_eq!(at(0).day(), 0);
    assert_eq!(at(-1).day(), -1);
    assert_eq!(at(86_399_999).day(), 0);
    assert_eq!(at(86_400_000).day(), 1);
    assert_eq!(at(TEN).day(), 19_358);
    assert_eq!(at(MIN_UNIX_MILLIS).day(), -4_371_587);
    assert_eq!(at(MAX_UNIX_MILLIS).day(), 2_932_896);
}

#[test]
fn day_covers_its_first_instant_and_ends_before_the_next() {
    let (first, last) = day_bounds(19_358).unwrap();
    assert_eq!(first.unix_millis(), 1_672_531_200_000);
    assert_eq!(last.unix_millis(), 1_672_617_599_999);
    assert_eq!(first.day(), 19_358);
    assert_eq!(last.day(), 19_358);
    assert_eq!(start_of_day(19_359).unwrap().unix_millis(), last.unix_millis() + 1);
    assert!(day_bounds(2_932_896).is_some());
    assert!(day_bounds(2_932_897).is_none());
    assert!(day_bounds(-4_371_587).is_some());
    assert!(day_bounds(-4_371_588).is_none());
    assert!(day_bounds(i64::MAX).is_none());
    assert!(day_bounds(i64::MIN).is_none());
}

#[test]
fn rollup_is_due_at_the_next_midnight() {
    let due = plan_rollup(at(TEN));
    assert_eq!(due.day, 19_358);
    assert_eq!(due.wait_millis, 14 * 3_600_000);
    let due = plan_rollup(at(1_672_531_200_000));
    assert_eq!(due.wait_millis, 86_400_000);
    let due = plan_rollup(at(1_672_617_599_999));
    assert_eq!(due.day, 19_358);
    assert_eq!(due.wait_millis, 1);
    let due = plan_rollup(at(-1));
    assert_eq!(due.day, -1);
    assert_eq!(due.wait_millis, 1);
}

#[test]
fn scheduler_waits_then_exports_then_rests() {
    let (state, command) = rollup_step(RollupState::Idle, RollupEvent::Plan { now: at(TEN) });
    assert_eq!(state, RollupState::Waiting { day: 19_358 });
    assert_eq!(command, RollupCommand::Wait { millis: 14 * 3_600_000 });
    let (state, command) = rollup_step(state, RollupEvent::Midnight);
    assert_eq!(state, RollupState::Exporting { day: 19_358 });
    assert_eq!(command, RollupCommand::Export { day: 19_358 });
    let (state, command) = rollup_step(state, RollupEvent::Finished { succeeded: true });
    assert_eq!(state, RollupState::Idle);
    assert_eq!(command, RollupCommand::Nothing);
}

#[test]
fn trigger_starts_the_run_early_and_is_ignored_during_it() {
    let waiting = RollupState::Waiting { day: 7 };
    let (state, command) = rollup_step(waiting, RollupEvent::Trigger);
    assert_eq!(state, RollupState::Exporting { day: 7 });
    assert_eq!(command, RollupCommand::Export { day: 7 });
    let (again, command) = rollup_step(state, RollupEvent::Trigger);
    assert_eq!(again, state);
    assert_eq!(command, RollupCommand::Nothing);
    let (again, command) = rollup_step(state, RollupEvent::Midnight);
    assert_eq!(again, state);
    assert_eq!(command, RollupCommand::Nothing);
    let (idle, command) = rollup_step(RollupState::Idle, RollupEvent::Trigger);
    assert_eq!(idle, RollupState::Idle);
    assert_eq!(command, RollupCommand::Nothing);
}

#[test]
fn failed_run_is_reported_and_left_to_the_next_occasion() {
    let (state, command) =
        rollup_step(RollupState::Exporting { day: 7 }, RollupEvent::Finished { succeeded: false });
    assert_eq!(state, RollupState::Idle);
    assert_eq!(command, RollupCommand::ReportFailure { day: 7 });
}

#[test]
fn run_opens_one_log_per_channel_and_day_and_counts_per_channel() {
    let mut run = ExportRun::new();
    let a = run.route(&message(1, "foo", "alice", "hi", TEN));
    assert!(a.opened);
    assert_eq!(a.file, 0);
    assert_eq!(a.line, "[10:00:00] <alice> hi\n");
    let b = run.route(&message(2, "bar", "bob", "yo", TEN + 1));
    assert!(b.opened);
    assert_eq!(b.file, 1);
    let c = run.route(&message(3, "foo", "carol", "hey", TEN + 2));
    assert!(!c.opened);
    assert_eq!(c.file, 0);
    let d = run.route(&message(4, "foo", "carol", "late", TEN + 86_400_000));
    assert!(d.opened);
    assert_eq!(d.file, 2);
    assert_eq!(run.file_count(), 3);
    assert_eq!(run.file_name(0), "foo_2023-01-01.txt");
    assert_eq!(run.file_name(1), "bar_2023-01-01.txt");
    assert_eq!(run.file_name(2), "foo_2023-01-02.txt");
    assert_eq!(run.count_for("foo"), 3);
    assert_eq!(run.count_for("bar"), 1);
    assert_eq!(run.count_for("baz"), 0);
    let mut channels = run.channels();
    channels.sort();
    assert_eq!(channels, vec!["bar".to_string(), "foo".to_string()]);
    assert!(ExportRun::new().channels().is_empty());
    assert_eq!(ExportRun::new().count_for("foo"), 0);
    assert_eq!(raised(0), 1);
    assert_eq!(raised(41), 42);
    assert_eq!(raised(usize::MAX), usize::MAX);
}

#[test]
fn export_of_a_day_lists_a_deleted_message_annotated_and_in_order() {
    let mut archive = Archive::new();
    assert_eq!(archive.insert(message(0xA, "foo", "alice", "hi", TEN)), Ok(()));
    assert_eq!(archive.insert(message(0xB, "foo", "bob", "yo", TEN + 5_000)), Ok(()));
    assert_eq!(archive.mark_deleted(0xA, at(TEN + 60_000)), Ok(()));
    let rows = archive.export_day(19_358);
    let mut run = ExportRun::new();
    let mut lines = Vec::new();
    for row in &rows {
        let routed = run.route(row);
        assert_eq!(routed.file, 0);
        lines.push(routed.line);
    }
    assert_eq!(run.file_count(), 1);
    assert_eq!(run.file_name(0), "foo_2023-01-01.txt");
    assert_eq!(
        lines,
        vec![
            "[10:00:00] <alice; deleted at 10:01:00> hi\n".to_string(),
            "[10:00:05] <bob> yo\n".to_string(),
        ]
    );
    assert_eq!(run.count_for("foo"), 2);
}

#[test]
fn export_is_in_timestamp_order_whatever_the_order_of_arrival() {
    let mut archive = Archive::new();
    let order = [5i64, 1, 4, 2, 3];
    for (n, offset) in order.iter().enumerate() {
        let m = message(n as u128, "foo", "alice", "x", TEN + offset * 1_000);
        assert_eq!(archive.insert(m), Ok(()));
    }
    assert_eq!(archive.insert(message(99, "foo", "alice", "x", TEN - 86_400_000)), Ok(()));
    assert_eq!(archive.insert(message(98, "foo", "alice", "x", TEN + 86_400_000)), Ok(()));
    let rows = archive.export_day(19_358);
    let sent: Vec<i64> = rows.iter().map(|m| m.timestamp.unix_millis() - TEN).collect();
    assert_eq!(sent, vec![1_000, 2_000, 3_000, 4_000, 5_000]);
    assert_eq!(archive.export_day(19_357).len(), 1);
    assert_eq!(archive.export_day(19_360).len(), 0);
}

#[test]
fn day_window_includes_its_start_and_excludes_the_next_midnight() {
    let mut archive = Archive::new();
    assert_eq!(archive.insert(message(1, "foo", "a", "x", 1_672_531_200_000)), Ok(()));
    assert_eq!(archive.insert(message(2, "foo", "a", "x", 1_672_617_599_999)), Ok(()));
    assert_eq!(archive.insert(message(3, "foo", "a", "x", 1_672_617_600_000)), Ok(()));
    let ids: Vec<u128> = archive.export_day(19_358).iter().map(|m| m.id).collect();
    assert_eq!(ids, vec![1, 2]);
}

#[test]
fn second_insert_under_one_id_is_a_conflict() {
    let mut archive = Archive::new();
    assert_eq!(archive.insert(message(1, "foo", "alice", "hi", TEN)), Ok(()));
    assert_eq!(archive.insert(message(1, "foo", "bob", "other", TEN + 1)), Err(StoreError::Conflict));
    assert_eq!(archive.len(), 1);
    assert_eq!(archive.get(0).username, "alice");
    assert!(archive.contains(1));
    assert!(!archive.contains(2));
}

#[test]
fn deleting_an_unknown_message_creates_nothing() {
    let mut archive = Archive::new();
    assert_eq!(archive.mark_deleted(7, at(TEN)), Err(StoreError::NotFound));
    assert_eq!(archive.len(), 0);
    let outcome = archive.apply(Action::DeleteMessage { id: 7, deleted_at: at(TEN) });
    assert_eq!(outcome, Applied::Refused(StoreError::NotFound));
    assert_eq!(archive.len(), 0);
}

#[test]
fn deleting_twice_changes_nothing_the_second_time() {
    let mut archive = Archive::new();
    assert_eq!(archive.apply(Action::StoreMessage(message(1, "foo", "a", "x", TEN))), Applied::Inserted);
    assert_eq!(archive.apply(Action::StoreMessage(message(2, "foo", "b", "y", TEN + 1))), Applied::Inserted);
    let outcome = archive.apply(Action::DeleteMessage { id: 1, deleted_at: at(TEN + 9) });
    assert_eq!(outcome, Applied::Deleted);
    let once = archive.get(0);
    assert!(once.deleted);
    assert_eq!(once.deleted_at.map(|t| t.unix_millis()), Some(TEN + 9));
    let outcome = archive.apply(Action::DeleteMessage { id: 1, deleted_at: at(TEN + 9) });
    assert_eq!(outcome, Applied::Deleted);
    let twice = archive.get(0);
    assert_eq!(twice.deleted, once.deleted);
    assert_eq!(
        twice.deleted_at.map(|t| t.unix_millis()),
        once.deleted_at.map(|t| t.unix_millis())
    );
    let other = archive.get(1);
    assert!(!other.deleted);
    assert!(other.deleted_at.is_none());
    assert_eq!(archive.len(), 2);
}

#[test]
fn actions_that_store_nothing_leave_the_archive_alone() {
    let mut archive = Archive::new();
    let outcome = archive.apply(Action::Notice { body: "hello".to_string() });
    assert_eq!(outcome, Applied::Unchanged);
    let outcome = archive.apply(Action::Ignore(chat_archive::process::Dropped::Unhandled));
    assert_eq!(outcome, Applied::Unchanged);
    assert_eq!(archive.len(), 0);
}

#[test]
fn copy_of_a_record_keeps_every_field() {
    let mut m = message(5, "foo", "alice", "hi", TEN);
    m.replying_to = Some(4);
    m.emotes = Some("e".to_string());
    m.vip = true;
    let c = m.duplicate();
    assert_eq!(c.id, 5);
    assert_eq!(c.channel, "foo");
    assert_eq!(c.username, "alice");
    assert_eq!(c.message, "hi");
    assert_eq!(c.timestamp.unix_millis(), TEN);
    assert_eq!(c.replying_to, Some(4));
    assert_eq!(c.emotes.as_deref(), Some("e"));
    assert!(c.vip);
    assert_eq!(c.badges, None);
}

#[test]
fn page_holds_what_fits_in_the_byte_budget() {
    assert_eq!(PAGE_BYTES, 128 * 1024 * 1024);
    assert_eq!(max_messages_per_page(256), 524_288);
    assert_eq!(max_messages_per_page(200), 671_088);
    assert_eq!(max_messages_per_page(1), PAGE_BYTES);
    assert_eq!(max_messages_per_page(0), PAGE_BYTES);
    assert_eq!(max_messages_per_page(PAGE_BYTES + 1), 0);
}

#[test]
fn line_read_back_gives_sender_and_text() {
    let m = message(1, "foo", "alice", "hi there > all; ok", TEN);
    let line = format_message(&m);
    assert_eq!(parse_line(&line), Some(("alice".to_string(), "hi there > all; ok".to_string())));
    let mut m = message(1, "foo", "b\u{00f6}b", "", TEN);
    m.deleted = true;
    m.deleted_at = Some(at(TEN + 1_000));
    let line = format_message(&m);
    assert_eq!(line, "[10:00:00] <b\u{00f6}b; deleted at 10:00:01> \n");
    assert_eq!(parse_line(&line), Some(("b\u{00f6}b".to_string(), String::new())));
    assert_eq!(
        parse_line("[10:00:00] <> \n"),
        Some((String::new(), String::new()))
    );
}

#[test]
fn text_that_is_no_log_line_is_not_read() {
    assert_eq!(parse_line(""), None);
    assert_eq!(parse_line("[10:00:00] <alice> hi"), None);
    assert_eq!(parse_line("[10:00:00] <alice hi\n"), None);
    assert_eq!(parse_line("[10:00:00] <alice>hi\n"), None);
    assert_eq!(parse_line("(10:00:00) <alice> hi\n"), None);
    assert_eq!(parse_line("[10:00:00]  alice> hi\n"), None);
    assert_eq!(parse_line("[10:00:00] <alice>\n"), None);
}

#[test]
fn log_name_joins_channel_and_date() {
    assert_eq!(name_log("foo", "2023-01-01"), "foo_2023-01-01.txt");
    assert_eq!(name_log("", ""), "_.txt");
}

#[test]
fn lines_are_assigned_to_logs_by_name() {
    let mut run = ExportRun::new();
    let foo = "foo".to_string();
    let a = run.assign("first".to_string(), &foo, "one\n".to_string());
    assert!(a.opened);
    assert_eq!(a.file, 0);
    assert_eq!(a.line, "one\n");
    let b = run.assign("second".to_string(), &foo, "two\n".to_string());
    assert!(b.opened);
    assert_eq!(b.file, 1);
    let c = run.assign("first".to_string(), &"bar".to_string(), "three\n".to_string());
    assert!(!c.opened);
    assert_eq!(c.file, 0);
    assert_eq!(run.file_count(), 2);
    assert_eq!(run.count_for("foo"), 2);
    assert_eq!(run.count_for("bar"), 1);
}

#[test]
fn message_is_stored_as_not_deleted() {
    let mut archive = Archive::new();
    let mut m = message(1, "foo", "alice", "hi", TEN);
    m.deleted = true;
    m.deleted_at = Some(at(TEN + 1));
    assert_eq!(archive.apply(Action::StoreMessage(m)), Applied::Inserted);
    let stored = archive.get(0);
    assert!(!stored.deleted);
    assert!(stored.deleted_at.is_none());
    assert_eq!(stored.username, "alice");
}
