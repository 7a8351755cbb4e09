//! Instants in UTC.
use vstd::prelude::*;

verus! {

/// First second that has a calendar date in the range of the calendar library.
pub const FIRST_SECOND: i64 = -8_334_601_228_800;

/// Last second that has a calendar date in the range of the calendar library.
pub const LAST_SECOND: i64 = 8_210_266_876_799;

/// Nanoseconds in one second.
pub const NANOS_PER_SECOND: i128 = 1_000_000_000;

/// An instant: whole seconds since the Unix epoch, and nanoseconds after that second. Every instant
/// has a date in the calendar. Leap seconds are not counted, so that the nanoseconds never make up a
/// second of their own.
#[derive(Clone, Copy, Debug, PartialEq, Eq, Structural)]
pub struct UtcTime {
    seconds: i64,
    nanos: u32,
}

/// Whether some seconds since the Unix epoch, and nanoseconds after them, make up an instant.
pub open spec fn is_instant(seconds: int, nanos: int) -> bool {
    FIRST_SECOND <= seconds <= LAST_SECOND && 0 <= nanos < NANOS_PER_SECOND
}

impl UtcTime {
    /// Whole seconds since the Unix epoch.
    pub closed spec fn spec_seconds(self) -> i64 {
        self.seconds
    }

    /// Nanoseconds after the whole second.
    pub closed spec fn spec_nanos(self) -> u32 {
        self.nanos
    }

    /// The instant of some seconds and nanoseconds.
    pub closed spec fn of(seconds: i64, nanos: u32) -> UtcTime {
        UtcTime { seconds, nanos }
    }

    #[verifier::type_invariant]
    spec fn has_date(self) -> bool {
        is_instant(self.seconds as int, self.nanos as int)
    }

    /// Nanoseconds since the Unix epoch.
    pub open spec fn value(self) -> int {
        self.spec_seconds() * NANOS_PER_SECOND + self.spec_nanos()
    }

    /// The instant `seconds` after `self`, or the last representable one where that comes first.
    pub open spec fn spec_plus(self, seconds: u64) -> UtcTime {
        if self.spec_seconds() + seconds <= LAST_SECOND {
            UtcTime::of((self.spec_seconds() + seconds) as i64, self.spec_nanos())
        } else {
            UtcTime::of(LAST_SECOND, 999_999_999)
        }
    }

    /// The instant at a whole number of seconds since the Unix epoch, where the calendar covers it.
    pub open spec fn spec_from_timestamp(seconds: i64) -> Option<UtcTime> {
        if FIRST_SECOND <= seconds <= LAST_SECOND {
            Some(UtcTime::of(seconds, 0))
        } else {
            None
        }
    }

    /// The parts of an instant are those that it was made of, and make it up again.
    pub proof fn lemma_parts(self, seconds: i64, nanos: u32)
        ensures
            UtcTime::of(seconds, nanos).spec_seconds() == seconds,
            UtcTime::of(seconds, nanos).spec_nanos() == nanos,
            UtcTime::of(self.spec_seconds(), self.spec_nanos()) == self,
    {
    }

    /// The instant of some seconds and nanoseconds, where they make one up.
    pub fn new(seconds: i64, nanos: u32) -> (time: Option<UtcTime>)
        ensures
            time == (if is_instant(seconds as int, nanos as int) {
                Some(UtcTime::of(seconds, nanos))
            } else {
                None
            }),
    {
        if FIRST_SECOND <= seconds && seconds <= LAST_SECOND && nanos < 1_000_000_000 {
            Some(UtcTime { seconds, nanos })
        } else {
            None
        }
    }

    /// Whole seconds since the Unix epoch.
    pub fn timestamp(self) -> (seconds: i64)
        ensures
            seconds == self.spec_seconds(),
            FIRST_SECOND <= seconds <= LAST_SECOND,
    {
        proof {
            use_type_invariant(self);
        }
        self.seconds
    }

    /// Nanoseconds after the whole second.
    pub fn subsec_nanos(self) -> (nanos: u32)
        ensures
            nanos == self.spec_nanos(),
            nanos < NANOS_PER_SECOND,
    {
        proof {
            use_type_invariant(self);
        }
        self.nanos
    }

    fn total_nanos(self) -> (nanos: i128)
        ensures
            nanos == self.value(),
    {
        self.seconds as i128 * NANOS_PER_SECOND + self.nanos as i128
    }

    pub fn is_before(self, other: UtcTime) -> (before: bool)
        ensures
            before == (self.value() < other.value()),
    {
        self.total_nanos() < other.total_nanos()
    }

    /// Whether less than `seconds` lie between `earlier` and `self`.
    pub fn is_within(self, earlier: UtcTime, seconds: u64) -> (within: bool)
        ensures
            within == (self.value() - earlier.value() < seconds * NANOS_PER_SECOND),
    {
        self.total_nanos() - earlier.total_nanos() < seconds as i128 * NANOS_PER_SECOND
    }

    /// Whether more than `minutes` lie between `earlier` and `self`.
    pub fn is_later_by_more_than_minutes(self, earlier: UtcTime, minutes: i64) -> (later: bool)
        ensures
            later == (self.value() - earlier.value() > minutes * 60 * NANOS_PER_SECOND),
    {
        self.total_nanos() - earlier.total_nanos() > minutes as i128 * 60 * NANOS_PER_SECOND
    }

    /// The instant `seconds` later; additions stop at the last representable instant.
    pub fn plus(self, seconds: u64) -> (later: UtcTime)
        ensures
            later == self.spec_plus(seconds),
    {
        proof {
            use_type_invariant(self);
        }
        if self.seconds as i128 + seconds as i128 <= LAST_SECOND as i128 {
            UtcTime { seconds: (self.seconds as i128 + seconds as i128) as i64, nanos: self.nanos }
        } else {
            UtcTime { seconds: LAST_SECOND, nanos: 999_999_999 }
        }
    }

    /// The instant at a whole number of seconds since the Unix epoch.
    pub fn from_timestamp(seconds: i64) -> (time: Option<UtcTime>)
        ensures
            time == UtcTime::spec_from_timestamp(seconds),
    {
        match calendar_second(seconds) {
            Some(seconds) => Some(UtcTime { seconds, nanos: 0 }),
            None => None,
        }
    }
}

/// `chrono::DateTime::from_timestamp`, with no nanoseconds, read back by
/// `chrono::DateTime::timestamp`: the calendar has a date for every second from the start of the
/// year -262143 to the end of the year 262142 and for no other, and the date stands for the second
/// that it was made from.
#[verifier::external_body]
fn calendar_second(seconds: i64) -> (found: Option<i64>)
    ensures
        found == (if FIRST_SECOND <= seconds <= LAST_SECOND {
            Some(seconds)
        } else {
            None
        }),
{
    chrono::DateTime::<chrono::Utc>::from_timestamp(seconds, 0).map(|time| time.timestamp())
}

/// Month, day, hour and minute.
pub const MONTH_DAY_MINUTE: &'static str = "%m-%d %H:%M UTC";

/// Year, month, day, hour and minute.
pub const DATE_MINUTE: &'static str = "%Y-%m-%d %H:%M UTC";

/// What `chrono::DateTime::format` writes of a second under a pattern.
pub uninterp spec fn calendar_text(seconds: i64, pattern: Seq<char>) -> Seq<char>;

/// What the `Display` of a `chrono::DateTime` in UTC writes of an instant.
pub uninterp spec fn instant_text(seconds: i64, nanos: u32) -> Seq<char>;

/// `chrono::DateTime::format` of a second that `chrono::DateTime::from_timestamp` has a date for;
/// every second from the start of the year -262143 to the end of the year 262142 has one. The
/// patterns that are admitted are valid, so that writing them cannot fail.
#[verifier::external_body]
fn format_second(seconds: i64, pattern: &str) -> (text: Option<String>)
    requires
        pattern@ == MONTH_DAY_MINUTE@ || pattern@ == DATE_MINUTE@,
    ensures
        text is Some <==> FIRST_SECOND <= seconds <= LAST_SECOND,
        text is Some ==> text->0@ == calendar_text(seconds, pattern@),
{
    chrono::DateTime::<chrono::Utc>::from_timestamp(seconds, 0)
        .map(|time| time.format(pattern).to_string())
}

/// The `Display` of the `chrono::DateTime` that `chrono::DateTime::from_timestamp` makes of a second
/// and its nanoseconds; one exists for every second from the start of the year -262143 to the end
/// of the year 262142.
#[verifier::external_body]
fn display_instant(seconds: i64, nanos: u32) -> (text: Option<String>)
    requires
        nanos < 1_000_000_000,
    ensures
        text is Some <==> FIRST_SECOND <= seconds <= LAST_SECOND,
        text is Some ==> text->0@ == instant_text(seconds, nanos),
{
    chrono::DateTime::<chrono::Utc>::from_timestamp(seconds, nanos).map(|time| time.to_string())
}

impl UtcTime {
    /// Date and time to the minute.
    pub fn date_minute(self) -> (text: String)
        ensures
            text@ == calendar_text(self.spec_seconds(), DATE_MINUTE@),
    {
        proof {
            use_type_invariant(self);
        }
        match format_second(self.seconds, DATE_MINUTE) {
            Some(text) => text,
            None => {
                // Every instant has a date.
                assert(false);
                String::new()
            },
        }
    }

    /// The instant in full.
    pub fn full_text(self) -> (text: String)
        ensures
            text@ == instant_text(self.spec_seconds(), self.spec_nanos()),
    {
        proof {
            use_type_invariant(self);
        }
        match display_instant(self.seconds, self.nanos) {
            Some(text) => text,
            None => {
                // Every instant has a date.
                assert(false);
                String::new()
            },
        }
    }
}

/// Day and time to the minute of a whole second; `None` outside the calendar.
pub fn month_day_minute(seconds: i64) -> (text: Option<String>)
    ensures
        text is Some <==> FIRST_SECOND <= seconds <= LAST_SECOND,
        text is Some ==> text->0@ == calendar_text(seconds, MONTH_DAY_MINUTE@),
{
    format_second(seconds, MONTH_DAY_MINUTE)
}

/// Instants stand in the order of their seconds and, within one second, of their nanoseconds; a
/// whole second is read back as it was given; and waiting moves an instant by exactly the seconds
/// waited, or to an instant that no other one follows.
pub proof fn law_clock_moves_by_what_is_added(a: UtcTime, b: UtcTime, seconds: u64, timestamp: i64)
    requires
        is_instant(a.spec_seconds() as int, a.spec_nanos() as int),
        is_instant(b.spec_seconds() as int, b.spec_nanos() as int),
    ensures
        a.value() < b.value() <==> a.spec_seconds() < b.spec_seconds() || (a.spec_seconds()
            == b.spec_seconds() && a.spec_nanos() < b.spec_nanos()),
        a.spec_plus(seconds).value() == a.value() + seconds * 1_000_000_000 || (b.value()
            <= a.spec_plus(seconds).value() < a.value() + seconds * 1_000_000_000),
        UtcTime::spec_from_timestamp(timestamp) matches Some(at) ==> at.value() == timestamp
            * 1_000_000_000,
        UtcTime::spec_from_timestamp(b.spec_seconds()) is Some,
        -8_334_601_228_800 <= b.spec_seconds() <= 8_210_266_876_799,
{
}

} // verus!
