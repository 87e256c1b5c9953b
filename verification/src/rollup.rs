//! The daily rollup: when it runs, which day it covers, the file each message
//! goes to and the line written for it.
use vstd::prelude::*;
use vstd::string::*;
use crate::messages::{Model, ModelView};
use crate::timestamp::{
    clock_text, date_text, day_of, day_start, representable, start_of_day, Timestamp,
    MILLIS_PER_DAY,
};

verus! {

/// The bytes of messages that the export reads from storage at one time.
pub const PAGE_BYTES: u64 = 134_217_728;

/// The most messages in one page read from storage, for records that take
/// `row_bytes` bytes each in memory: as many as fit in [`PAGE_BYTES`]. A
/// record of no size counts as one byte.
pub fn max_messages_per_page(row_bytes: u64) -> (r: u64)
    ensures
        r == PAGE_BYTES / (if row_bytes == 0 { 1 } else { row_bytes }),
        r * row_bytes <= PAGE_BYTES,
{
    let each: u64 = if row_bytes == 0 { 1 } else { row_bytes };
    let rows: u64 = PAGE_BYTES / each;
    assert(rows * row_bytes <= PAGE_BYTES) by (nonlinear_arith)
        requires
            rows == PAGE_BYTES / each,
            each > 0,
            row_bytes == 0 || row_bytes == each,
    ;
    rows
}

/// The line written for one message: the time it was sent, the sender, for a
/// deleted message the time it was removed, and the text.
pub open spec fn line_of(m: ModelView) -> Seq<char> {
    match m.deleted_at {
        Some(at) => seq!['['] + clock_text(m.timestamp) + seq![']', ' ', '<'] + m.username
            + seq![';', ' ', 'd', 'e', 'l', 'e', 't', 'e', 'd', ' ', 'a', 't', ' '] + clock_text(at)
            + seq!['>', ' '] + m.message + seq!['\n'],
        None => seq!['['] + clock_text(m.timestamp) + seq![']', ' ', '<'] + m.username + seq![
            '>',
            ' ',
        ] + m.message + seq!['\n'],
    }
}

/// Renders one message as a line of a text log. A deleted message is kept and
/// annotated with the time of its removal.
pub fn format_message(message: &Model) -> (r: String)
    ensures
        r@ == line_of(message@),
{
    proof {
        reveal_strlit("[");
        reveal_strlit("] <");
        reveal_strlit("; deleted at ");
        reveal_strlit("> ");
        reveal_strlit("\n");
    }
    let mut line = String::new();
    line.append("[");
    line.append(message.timestamp.clock().as_str());
    line.append("] <");
    line.append(message.username.as_str());
    match &message.deleted_at {
        Some(at) => {
            line.append("; deleted at ");
            line.append(at.clock().as_str());
        },
        None => {},
    }
    line.append("> ");
    line.append(message.message.as_str());
    line.append("\n");
    assert(line@ =~= line_of(message@));
    line
}

/// The name of the log of `channel` for the day written as `date`.
pub open spec fn dated_name(channel: Seq<char>, date: Seq<char>) -> Seq<char> {
    channel + seq!['_'] + date + seq!['.', 't', 'x', 't']
}

/// The name under which the log of `channel` for the day of `at` is kept.
pub open spec fn log_name(channel: Seq<char>, at: int) -> Seq<char> {
    dated_name(channel, date_text(at))
}

/// Names the log of `channel` for the day written as `date`.
pub fn name_log(channel: &str, date: &str) -> (r: String)
    ensures
        r@ == dated_name(channel@, date@),
{
    proof {
        reveal_strlit("_");
        reveal_strlit(".txt");
    }
    let mut name = channel.to_owned();
    name.append("_");
    name.append(date);
    name.append(".txt");
    assert(name@ =~= dated_name(channel@, date@));
    name
}

/// Names the text log that holds the messages of `channel` sent on the day of
/// `dt`.
pub fn get_text_log_file_name(channel: &str, dt: Timestamp) -> (r: String)
    ensures
        r@ == log_name(channel@, dt@),
{
    name_log(channel, dt.date().as_str())
}

/// Whether an instant falls on UTC day `day`: from its first instant on, and
/// before the first instant of the next day.
pub open spec fn on_day(at: int, day: int) -> bool {
    day_start(day) <= at < day_start(day + 1)
}

/// An instant falls on the day whose number `day_of` gives, and on no other.
pub proof fn lemma_on_day(at: int, day: int)
    ensures
        on_day(at, day) <==> day_of(at) == day,
{
    let d = MILLIS_PER_DAY as int;
    vstd::arithmetic::div_mod::lemma_fundamental_div_mod(at, d);
    vstd::arithmetic::div_mod::lemma_mod_bound(at, d);
    if on_day(at, day) {
        vstd::arithmetic::div_mod::lemma_fundamental_div_mod_converse(
            at,
            d,
            day,
            at - day_start(day),
        );
    }
    assert(day_of(at) == day ==> on_day(at, day)) by (nonlinear_arith)
        requires
            d == 86_400_000,
            at == d * (at / d) + at % d,
            0 <= at % d < d,
            day_of(at) == at / d,
            day_start(day) == day * d,
            day_start(day + 1) == (day + 1) * d,
    ;
}

/// The first and the last instant of UTC day `day`, for a day that is
/// representable.
pub fn day_bounds(day: i64) -> (r: Option<(Timestamp, Timestamp)>)
    ensures
        r.is_some() <==> representable(day_start(day as int)),
        r matches Some((first, last)) ==> first@ == day_start(day as int) && last@ == day_start(
            day + 1,
        ) - 1,
{
    match start_of_day(day) {
        Some(first) => {
            let last_ms: i64 = first.unix_millis() + (MILLIS_PER_DAY - 1);
            assert(representable(last_ms as int)) by {
                assert(first@ == day * 86_400_000);
            }
            match Timestamp::from_unix_millis(last_ms) {
                Some(last) => Some((first, last)),
                None => None,
            }
        },
        None => None,
    }
}

/// When the next rollup is due and which day it covers.
#[derive(Debug, Clone, Copy, PartialEq, Eq, Structural)]
pub struct Due {
    /// The day that the run exports: the day of the instant it was planned at.
    pub day: i64,
    /// Milliseconds from that instant to the next UTC midnight.
    pub wait_millis: i64,
}

/// Plans the next rollup from the current instant: it covers the current day
/// and is due at the next midnight.
pub fn plan_rollup(now: Timestamp) -> (r: Due)
    ensures
        r.day == day_of(now@),
        now@ + r.wait_millis == day_start(day_of(now@) + 1),
        0 < r.wait_millis <= MILLIS_PER_DAY,
{
    let day = now.day();
    proof {
        lemma_on_day(now@, day as int);
    }
    let next_midnight: i64 = (day + 1) * MILLIS_PER_DAY;
    Due { day, wait_millis: next_midnight - now.unix_millis() }
}

/// Where the scheduler stands.
#[derive(Debug, Clone, Copy, PartialEq, Eq, Structural)]
pub enum RollupState {
    /// No run is planned.
    Idle,
    /// A run for `day` starts at midnight, or earlier on request.
    Waiting { day: i64 },
    /// The run for `day` is under way.
    Exporting { day: i64 },
}

/// What happened around the scheduler.
#[derive(Debug, Clone, Copy)]
pub enum RollupEvent {
    /// The scheduler was asked to plan the next run; `now` is the current instant.
    Plan { now: Timestamp },
    /// The planned midnight was reached.
    Midnight,
    /// An operator asked for a run right away.
    Trigger,
    /// The run ended, well or not.
    Finished { succeeded: bool },
}

/// What the host is to do next.
#[derive(Debug, Clone, Copy, PartialEq, Eq, Structural)]
pub enum RollupCommand {
    /// Wait for midnight or for a trigger, whichever comes first.
    Wait { millis: i64 },
    /// Export the messages of `day`.
    Export { day: i64 },
    /// Report that the run for `day` failed; the next midnight or trigger retries.
    ReportFailure { day: i64 },
    /// Nothing.
    Nothing,
}

/// The state after an event. A run is started by whichever of midnight and
/// trigger comes first while the scheduler waits, and by nothing else; once
/// started it is left alone until it ends.
pub open spec fn next_state(state: RollupState, event: RollupEvent) -> RollupState {
    match (state, event) {
        (RollupState::Idle, RollupEvent::Plan { now }) => RollupState::Waiting {
            day: day_of(now@) as i64,
        },
        (RollupState::Waiting { day }, RollupEvent::Midnight) => RollupState::Exporting { day },
        (RollupState::Waiting { day }, RollupEvent::Trigger) => RollupState::Exporting { day },
        (RollupState::Exporting { day }, RollupEvent::Finished { succeeded }) => RollupState::Idle,
        _ => state,
    }
}

/// What the host is told to do after an event.
pub open spec fn next_command(state: RollupState, event: RollupEvent) -> RollupCommand {
    match (state, event) {
        (RollupState::Idle, RollupEvent::Plan { now }) => RollupCommand::Wait {
            millis: (day_start(day_of(now@) + 1) - now@) as i64,
        },
        (RollupState::Waiting { day }, RollupEvent::Midnight) => RollupCommand::Export { day },
        (RollupState::Waiting { day }, RollupEvent::Trigger) => RollupCommand::Export { day },
        (RollupState::Exporting { day }, RollupEvent::Finished { succeeded }) => if succeeded {
            RollupCommand::Nothing
        } else {
            RollupCommand::ReportFailure { day }
        },
        _ => RollupCommand::Nothing,
    }
}

/// Advances the scheduler by one event.
pub fn rollup_step(state: RollupState, event: RollupEvent) -> (r: (RollupState, RollupCommand))
    ensures
        r.0 == next_state(state, event),
        r.1 == next_command(state, event),
{
    match state {
        RollupState::Idle => match event {
            RollupEvent::Plan { now } => {
                let due = plan_rollup(now);
                (RollupState::Waiting { day: due.day }, RollupCommand::Wait { millis: due.wait_millis })
            },
            _ => (state, RollupCommand::Nothing),
        },
        RollupState::Waiting { day } => match event {
            RollupEvent::Midnight => (RollupState::Exporting { day }, RollupCommand::Export { day }),
            RollupEvent::Trigger => (RollupState::Exporting { day }, RollupCommand::Export { day }),
            _ => (state, RollupCommand::Nothing),
        },
        RollupState::Exporting { day } => match event {
            RollupEvent::Finished { succeeded } => {
                if succeeded {
                    (RollupState::Idle, RollupCommand::Nothing)
                } else {
                    (RollupState::Idle, RollupCommand::ReportFailure { day })
                }
            },
            _ => (state, RollupCommand::Nothing),
        },
    }
}

} // verus!
