//! Instants of the archive: UTC time at millisecond precision, limited to the
//! years that the `time` crate can represent.
use vstd::prelude::*;

verus! {

/// Midnight at the start of the year -9999, in milliseconds since the Unix epoch.
pub const MIN_UNIX_MILLIS: i64 = -377_705_116_800_000;

/// The last millisecond of the year 9999, in milliseconds since the Unix epoch.
pub const MAX_UNIX_MILLIS: i64 = 253_402_300_799_999;

/// Milliseconds in one calendar day.
pub const MILLIS_PER_DAY: i64 = 86_400_000;

/// Days between the earliest representable midnight and the Unix epoch.
pub const EPOCH_DAY_OFFSET: i64 = 4_371_587;

/// Whether a count of milliseconds since the Unix epoch falls within the
/// representable years.
pub open spec fn representable(unix_millis: int) -> bool {
    MIN_UNIX_MILLIS <= unix_millis <= MAX_UNIX_MILLIS
}

/// The decimal digit `d` as a character.
pub open spec fn digit_char(d: int) -> char {
    if d == 0 {
        '0'
    } else if d == 1 {
        '1'
    } else if d == 2 {
        '2'
    } else if d == 3 {
        '3'
    } else if d == 4 {
        '4'
    } else if d == 5 {
        '5'
    } else if d == 6 {
        '6'
    } else if d == 7 {
        '7'
    } else if d == 8 {
        '8'
    } else {
        '9'
    }
}

/// A number below one hundred written with exactly two digits.
pub open spec fn two_digits(n: int) -> Seq<char> {
    seq![digit_char(n / 10), digit_char(n % 10)]
}

/// Seconds elapsed since the preceding UTC midnight.
pub open spec fn second_of_day(unix_millis: int) -> int {
    (unix_millis / 1000) % 86_400
}

/// The wall-clock time of an instant in UTC, written `HH:MM:SS`.
pub open spec fn clock_text(unix_millis: int) -> Seq<char> {
    let s = second_of_day(unix_millis);
    two_digits(s / 3600) + seq![':'] + two_digits((s / 60) % 60) + seq![':'] + two_digits(s % 60)
}

/// The text that the `time` crate writes for an instant in UTC under a format
/// description, or `None` where it has no text for that description.
pub uninterp spec fn formatted(description: Seq<char>, unix_millis: int) -> Option<Seq<char>>;

/// The calendar date of an instant in UTC, written with the description
/// `[year]-[month]-[day]`.
pub open spec fn date_text(unix_millis: int) -> Seq<char> {
    formatted("[year]-[month]-[day]"@, unix_millis)->Some_0
}

/// The number of the UTC day that holds an instant; day 0 starts at the Unix epoch.
pub open spec fn day_of(unix_millis: int) -> int {
    unix_millis / (MILLIS_PER_DAY as int)
}

/// The first instant of a UTC day.
pub open spec fn day_start(day: int) -> int {
    day * (MILLIS_PER_DAY as int)
}

/// An instant in UTC with millisecond precision.
#[derive(Clone, Copy, Debug)]
pub struct Timestamp {
    millis: i64,
}

impl View for Timestamp {
    type V = int;

    closed spec fn view(&self) -> int {
        self.millis as int
    }
}

/// Formats an instant with `time::OffsetDateTime::format`, under a
/// description read by `time::format_description::parse_borrowed`. The instant
/// is `OffsetDateTime::UNIX_EPOCH` plus `Duration::milliseconds`, which stays
/// in range under the precondition. The text depends on the description and
/// the instant alone. Under `[hour]:[minute]:[second]` it is the time of day
/// with each part zero-padded to two digits; a calendar date can be written
/// under `[year]-[month]-[day]`.
#[verifier::external_body]
fn format_instant(unix_millis: i64, description: &str) -> (r: Option<String>)
    requires
        representable(unix_millis as int),
    ensures
        crate::text::text_view(r) == formatted(description@, unix_millis as int),
        description@ == "[hour]:[minute]:[second]"@ ==> crate::text::text_view(r) == Some(
            clock_text(unix_millis as int),
        ),
        description@ == "[year]-[month]-[day]"@ ==> r.is_some(),
{
    let at = time::OffsetDateTime::UNIX_EPOCH + time::Duration::milliseconds(unix_millis);
    match time::format_description::parse_borrowed::<2>(description) {
        Ok(items) => match at.format(&items) {
            Ok(text) => Some(text),
            Err(_) => None,
        },
        Err(_) => None,
    }
}

impl Timestamp {
    #[verifier::type_invariant]
    spec fn in_range(self) -> bool {
        representable(self.millis as int)
    }

    /// The instant `unix_millis` milliseconds after the Unix epoch, if it is
    /// representable.
    pub fn from_unix_millis(unix_millis: i64) -> (r: Option<Timestamp>)
        ensures
            r.is_some() <==> representable(unix_millis as int),
            r matches Some(t) ==> t@ == unix_millis,
    {
        if MIN_UNIX_MILLIS <= unix_millis && unix_millis <= MAX_UNIX_MILLIS {
            Some(Timestamp { millis: unix_millis })
        } else {
            None
        }
    }

    /// Milliseconds since the Unix epoch.
    pub fn unix_millis(&self) -> (r: i64)
        ensures
            r == self@,
            representable(r as int),
    {
        proof {
            use_type_invariant(self);
        }
        self.millis
    }

    /// The time of day in UTC, written `HH:MM:SS`.
    pub fn clock(&self) -> (r: String)
        ensures
            r@ == clock_text(self@),
    {
        proof {
            use_type_invariant(self);
        }
        match format_instant(self.millis, "[hour]:[minute]:[second]") {
            Some(text) => text,
            None => String::new(),
        }
    }

    /// The calendar date in UTC, written `YYYY-MM-DD`.
    pub fn date(&self) -> (r: String)
        ensures
            r@ == date_text(self@),
    {
        proof {
            use_type_invariant(self);
        }
        match format_instant(self.millis, "[year]-[month]-[day]") {
            Some(text) => text,
            None => String::new(),
        }
    }

    /// The number of the UTC day that holds this instant.
    pub fn day(&self) -> (r: i64)
        ensures
            r == day_of(self@),
            -EPOCH_DAY_OFFSET <= r < 2_932_897,
    {
        proof {
            use_type_invariant(self);
        }
        let shifted: u64 = (self.millis - MIN_UNIX_MILLIS) as u64;
        let days: u64 = shifted / 86_400_000;
        assert(self.millis as int == (days as int - 4_371_587) * 86_400_000 + (shifted % 86_400_000) as int);
        assert(day_of(self@) == days as int - 4_371_587) by {
            vstd::arithmetic::div_mod::lemma_fundamental_div_mod_converse(
                self.millis as int,
                86_400_000,
                days as int - 4_371_587,
                (shifted % 86_400_000) as int,
            );
        }
        (days as i64) - EPOCH_DAY_OFFSET
    }
}

/// The first instant of UTC day `day`, if that day is representable.
pub fn start_of_day(day: i64) -> (r: Option<Timestamp>)
    ensures
        r.is_some() <==> representable(day_start(day as int)),
        r matches Some(t) ==> t@ == day_start(day as int),
{
    if -EPOCH_DAY_OFFSET <= day && day < 2_932_897 {
        let ms: i64 = day * MILLIS_PER_DAY;
        Timestamp::from_unix_millis(ms)
    } else {
        None
    }
}

} // verus!
