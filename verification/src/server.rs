//! The search service: what a request asks for and which messages answer it.
use vstd::prelude::*;
use crate::error::Error;
use crate::messages::{Model, ModelView};
use crate::text::{decimal_i64, lowercase, parse_i64, position, texts, to_lowercase};
use crate::timestamp::Timestamp;

verus! {

/// The most messages that one search returns.
pub const MAX_MESSAGES_TO_READ: u64 = 1_000_000;

/// The earliest instant a search can be bounded by, in nanoseconds since the
/// Unix epoch.
pub const MIN_UNIX_NANOS: i128 = -377_705_116_800_000_000_000;

/// The latest instant a search can be bounded by, in nanoseconds since the
/// Unix epoch.
pub const MAX_UNIX_NANOS: i128 = 253_402_300_799_999_999_999;

/// The parameters of a search request, as the client gave them.
#[derive(Debug)]
pub struct QueryParams {
    /// The senders to look for; none means any sender.
    pub users: Vec<String>,
    pub start_time: Option<String>,
    pub end_time: Option<String>,
}

/// The instant, in nanoseconds since the Unix epoch, that
/// `time::OffsetDateTime::parse` reads from `s` as an RFC 3339 date-time.
pub uninterp spec fn rfc3339_nanos(s: Seq<char>) -> Option<i128>;

/// The instant, in nanoseconds since the Unix epoch, that
/// `time::OffsetDateTime::parse` reads from `s` as an RFC 2822 date-time.
pub uninterp spec fn rfc2822_nanos(s: Seq<char>) -> Option<i128>;

/// `time::OffsetDateTime::parse` with the `Rfc3339` format, then
/// `unix_timestamp_nanos`: the result depends on the text alone.
#[verifier::external_body]
fn parse_rfc3339(s: &str) -> (r: Option<i128>)
    ensures
        r == rfc3339_nanos(s@),
{
    match time::OffsetDateTime::parse(s, &time::format_description::well_known::Rfc3339) {
        Ok(at) => Some(at.unix_timestamp_nanos()),
        Err(_) => None,
    }
}

/// `time::OffsetDateTime::parse` with the `Rfc2822` format, then
/// `unix_timestamp_nanos`: the result depends on the text alone.
#[verifier::external_body]
fn parse_rfc2822(s: &str) -> (r: Option<i128>)
    ensures
        r == rfc2822_nanos(s@),
{
    match time::OffsetDateTime::parse(s, &time::format_description::well_known::Rfc2822) {
        Ok(at) => Some(at.unix_timestamp_nanos()),
        Err(_) => None,
    }
}

/// Whether an instant in nanoseconds lies within the representable years.
pub open spec fn bound_representable(nanos: int) -> bool {
    MIN_UNIX_NANOS <= nanos <= MAX_UNIX_NANOS
}

/// A parsed instant, kept if it is representable.
pub open spec fn within_range(nanos: Option<i128>) -> Option<i128> {
    match nanos {
        Some(n) if bound_representable(n as int) => Some(n),
        _ => None,
    }
}

/// The instant of a time bound, given what each of the three readings of its
/// text made of it. A number counts as seconds since the Unix epoch; text that
/// is no number is read as RFC 3339, and failing that as RFC 2822. An instant
/// outside the representable years is no bound.
pub open spec fn chosen_instant(
    seconds: Option<i64>,
    rfc3339: Option<i128>,
    rfc2822: Option<i128>,
) -> Option<i128> {
    match seconds {
        Some(s) => if bound_representable(s * 1_000_000_000) {
            Some((s * 1_000_000_000) as i128)
        } else {
            None
        },
        None => match rfc3339 {
            Some(n) => within_range(Some(n)),
            None => within_range(rfc2822),
        },
    }
}

/// The instant that the text of a time bound denotes.
pub open spec fn query_instant(s: Seq<char>) -> Option<i128> {
    chosen_instant(decimal_i64(s), rfc3339_nanos(s), rfc2822_nanos(s))
}

/// Seconds since the Unix epoch as a bound in nanoseconds.
pub fn instant_of_seconds(seconds: i64) -> (r: Option<i128>)
    ensures
        r == chosen_instant(Some(seconds), None, None),
{
    if -377_705_116_800 <= seconds && seconds <= 253_402_300_799 {
        let wide: i128 = seconds as i128;
        Some(wide * 1_000_000_000)
    } else {
        None
    }
}

/// A parsed instant as a bound, if it is representable.
pub fn instant_in_range(nanos: Option<i128>) -> (r: Option<i128>)
    ensures
        r == within_range(nanos),
{
    match nanos {
        Some(n) => if MIN_UNIX_NANOS <= n && n <= MAX_UNIX_NANOS {
            Some(n)
        } else {
            None
        },
        None => None,
    }
}

/// Chooses the instant of a time bound among the three readings of its text.
pub fn choose_instant(seconds: Option<i64>, rfc3339: Option<i128>, rfc2822: Option<i128>) -> (r:
    Option<i128>)
    ensures
        r == chosen_instant(seconds, rfc3339, rfc2822),
        r matches Some(n) ==> bound_representable(n as int),
{
    match seconds {
        Some(s) => instant_of_seconds(s),
        None => match rfc3339 {
            Some(n) => instant_in_range(Some(n)),
            None => instant_in_range(rfc2822),
        },
    }
}

/// Reads an optional time bound of a request: epoch seconds, an RFC 3339
/// date-time or an RFC 2822 date-time. Text that is none of these is no bound.
pub fn convert_query_to_datetime(timestamp: Option<&str>) -> (r: Option<i128>)
    ensures
        r == match timestamp {
            Some(s) => query_instant(s@),
            None => None,
        },
        r matches Some(n) ==> bound_representable(n as int),
{
    match timestamp {
        None => None,
        Some(s) => match parse_i64(s) {
            Some(seconds) => choose_instant(Some(seconds), None, None),
            None => match parse_rfc3339(s) {
                Some(n) => choose_instant(None, Some(n), None),
                None => choose_instant(None, None, parse_rfc2822(s)),
            },
        },
    }
}

/// What a search looks for.
#[derive(Debug)]
pub struct SearchQuery {
    /// The channel, in lower case.
    pub channel: String,
    /// The senders, in lower case; none means any sender.
    pub users: Vec<String>,
    /// The earliest instant that counts, in nanoseconds since the Unix epoch.
    pub start: Option<i128>,
    /// The latest instant that counts, in nanoseconds since the Unix epoch.
    pub end: Option<i128>,
    /// The most messages to return.
    pub limit: u64,
}

/// How many of the oldest matching messages a search passes over, so that
/// what remains is within the limit.
pub open spec fn passed_over(matching: int, limit: int) -> int {
    if matching > limit {
        matching - limit
    } else {
        0
    }
}

/// How many of the oldest matching messages a search passes over.
pub fn rows_to_skip(matching: u64, limit: u64) -> (r: u64)
    ensures
        r == passed_over(matching as int, limit as int),
        matching - r <= limit,
{
    if matching > limit {
        matching - limit
    } else {
        0
    }
}

/// The lower-case form of each text of a list.
pub open spec fn lowered(names: Seq<String>) -> Seq<Seq<char>> {
    Seq::new(names.len(), |i: int| lowercase(names[i]@))
}

impl SearchQuery {
    /// Whether the query admits a message in `channel` sent at `sent`
    /// milliseconds after the Unix epoch by `sender`, whose name is given in
    /// lower case: the channel is the one asked for, the sender is one of
    /// those asked for, if any were, and the time is within the bounds, both
    /// of which count as within.
    pub open spec fn admits(&self, channel: Seq<char>, sender: Seq<char>, sent: int) -> bool {
        &&& channel == self.channel@
        &&& (self.users.len() == 0 || texts(self.users@).contains(sender))
        &&& (self.start matches Some(s) ==> sent * 1_000_000 >= s)
        &&& (self.end matches Some(e) ==> sent * 1_000_000 <= e)
    }

    /// Whether a message answers the query, whatever the case of its sender's
    /// name.
    pub open spec fn matches(&self, m: ModelView) -> bool {
        self.admits(m.channel, lowercase(m.username), m.timestamp)
    }

    /// Decides whether the query admits a message, given its channel, the
    /// lower-case name of its sender and the time it was sent.
    pub fn decides(&self, channel: &String, sender: &String, sent: Timestamp) -> (r: bool)
        ensures
            r == self.admits(channel@, sender@, sent@),
    {
        if *channel != self.channel {
            return false;
        }
        if self.users.len() > 0 {
            match position(&self.users, sender) {
                None => {
                    return false;
                },
                Some(i) => {
                    assert(texts(self.users@)[i as int] == sender@);
                },
            }
        }
        let wide: i128 = sent.unix_millis() as i128;
        let nanos: i128 = wide * 1_000_000;
        let after = match self.start {
            Some(s) => nanos >= s,
            None => true,
        };
        let before = match self.end {
            Some(e) => nanos <= e,
            None => true,
        };
        after && before
    }

    /// This query with another limit. A limit above the cap is refused, and
    /// no query is made.
    pub fn with_limit(self, limit: u64) -> (r: Result<SearchQuery, Error>)
        ensures
            match r {
                Ok(q) => limit <= MAX_MESSAGES_TO_READ && q == (SearchQuery { limit, ..self }),
                Err(e) => limit > MAX_MESSAGES_TO_READ && e == Error::TooManyMessages,
            },
    {
        if limit > MAX_MESSAGES_TO_READ {
            Err(Error::TooManyMessages)
        } else {
            Ok(SearchQuery { limit, ..self })
        }
    }

    /// Decides whether a message answers the query.
    pub fn accepts(&self, message: &Model) -> (r: bool)
        ensures
            r == self.matches(message@),
    {
        let sender = to_lowercase(message.username.as_str());
        self.decides(&message.channel, &sender, message.timestamp)
    }
}

/// Builds the query of a search request: channel and senders are folded to
/// lower case, each time bound is read if it can be, and the row cap is set.
pub fn search(channel: &str, params: &QueryParams) -> (q: SearchQuery)
    ensures
        q.channel@ == lowercase(channel@),
        texts(q.users@) == lowered(params.users@),
        q.start == match params.start_time {
            Some(s) => query_instant(s@),
            None => None,
        },
        q.end == match params.end_time {
            Some(s) => query_instant(s@),
            None => None,
        },
        q.limit == MAX_MESSAGES_TO_READ,
{
    let mut users: Vec<String> = Vec::new();
    let mut i: usize = 0;
    while i < params.users.len()
        invariant
            i <= params.users.len(),
            users.len() == i,
            forall|k: int| 0 <= k < i ==> users[k]@ == lowercase(params.users[k]@),
        decreases params.users.len() - i,
    {
        users.push(to_lowercase(params.users[i].as_str()));
        i = i + 1;
    }
    assert(texts(users@) =~= lowered(params.users@));
    let start = match &params.start_time {
        Some(s) => convert_query_to_datetime(Some(s.as_str())),
        None => None,
    };
    let end = match &params.end_time {
        Some(s) => convert_query_to_datetime(Some(s.as_str())),
        None => None,
    };
    SearchQuery { channel: to_lowercase(channel), users, start, end, limit: MAX_MESSAGES_TO_READ }
}

} // verus!
