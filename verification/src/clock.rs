//! Moments of time as plain numbers, and the calendar arithmetic that the usage windows need.

use time::format_description::well_known::Rfc3339;
use time::{Date, Duration, OffsetDateTime, UtcOffset};
use vstd::prelude::*;

verus! {

/// The Julian day of the first date that a timestamp can have, the first of January of the
/// year -9999.
pub const FIRST_DAY: i32 = -1_930_999;

/// The Julian day of the last date that a timestamp can have, the last of December of the
/// year 9999.
pub const LAST_DAY: i32 = 5_373_484;

/// The largest distance from UTC, in seconds.
pub const OFFSET_LIMIT: i32 = 93_599;

/// A local date and time together with its distance from UTC.
#[derive(Debug, Clone, Copy, PartialEq, Eq, Structural)]
pub struct Timestamp {
    /// Julian day number of the local date.
    pub day: i32,
    /// Local hour.
    pub hour: u8,
    /// Local minute.
    pub minute: u8,
    /// Local second.
    pub second: u8,
    /// Nanosecond within the second.
    pub nanosecond: u32,
    /// Seconds by which local time is ahead of UTC.
    pub offset: i32,
}

impl Timestamp {
    /// Whether every component is in its range.
    pub open spec fn valid(self) -> bool {
        &&& FIRST_DAY <= self.day <= LAST_DAY
        &&& self.hour < 24
        &&& self.minute < 60
        &&& self.second < 60
        &&& self.nanosecond < 1_000_000_000
        &&& -OFFSET_LIMIT <= self.offset <= OFFSET_LIMIT
    }

    /// Seconds between the start of the Julian day count and this moment, both in UTC.
    pub open spec fn seconds(self) -> int {
        self.day * 86_400 + self.hour * 3_600 + self.minute * 60 + self.second - self.offset
    }

    /// Nanoseconds between the start of the Julian day count and this moment, both in UTC.
    pub open spec fn instant(self) -> int {
        self.seconds() * 1_000_000_000 + self.nanosecond
    }

    /// The start of the local hour that holds this moment.
    pub open spec fn hour_start(self) -> Timestamp {
        Timestamp { minute: 0, second: 0, nanosecond: 0, ..self }
    }

    /// The moment one hour later on the same local calendar, if the calendar reaches that far.
    pub open spec fn hour_later(self) -> Option<Timestamp> {
        if self.hour < 23 {
            Some(Timestamp { hour: (self.hour + 1) as u8, ..self })
        } else if self.day < LAST_DAY {
            Some(Timestamp { day: (self.day + 1) as i32, hour: 0, ..self })
        } else {
            None
        }
    }

    /// Whether every component is in its range.
    pub fn is_valid(&self) -> (yes: bool)
        ensures
            yes == self.valid(),
    {
        FIRST_DAY <= self.day && self.day <= LAST_DAY && self.hour < 24 && self.minute < 60
            && self.second < 60 && self.nanosecond < 1_000_000_000 && -OFFSET_LIMIT <= self.offset
            && self.offset <= OFFSET_LIMIT
    }

    /// Whether two timestamps denote the same moment, whatever their distances from UTC.
    pub fn same_instant(&self, other: &Timestamp) -> (yes: bool)
        requires
            self.valid(),
            other.valid(),
        ensures
            yes == (self.instant() == other.instant()),
    {
        let mine: i64 = self.day as i64 * 86_400 + self.hour as i64 * 3_600 + self.minute as i64
            * 60 + self.second as i64 - self.offset as i64;
        let theirs: i64 = other.day as i64 * 86_400 + other.hour as i64 * 3_600
            + other.minute as i64 * 60 + other.second as i64 - other.offset as i64;
        mine == theirs && self.nanosecond == other.nanosecond
    }
}

/// The start of the local hour that holds a moment.
pub fn hour_bucket(now: Timestamp) -> (start: Timestamp)
    ensures
        start == now.hour_start(),
{
    Timestamp { minute: 0, second: 0, nanosecond: 0, ..now }
}

/// Whether a moment is later than another by a number of milliseconds, at the same distance from
/// UTC. There is none past the last date of the local calendar.
pub open spec fn delayed(t: Timestamp, millis: int, later: Option<Timestamp>) -> bool {
    let local = t.instant() + t.offset * 1_000_000_000 + millis * 1_000_000;
    match later {
        Some(u) => {
            &&& u.valid()
            &&& u.offset == t.offset
            &&& u.instant() == t.instant() + millis * 1_000_000
        },
        None => local >= (LAST_DAY + 1) * 86_400_000_000_000,
    }
}

/// Calls `OffsetDateTime::checked_add` with a number of milliseconds: the moment moves on by them,
/// and the distance from UTC stays. There is no result past the last date of the local calendar,
/// and only there.
#[verifier::external_body]
pub(crate) fn add_millis(t: Timestamp, millis: i64) -> (later: Option<Timestamp>)
    requires
        t.valid(),
        millis >= 0,
    ensures
        delayed(t, millis as int, later),
{
    let offset = UtcOffset::from_whole_seconds(t.offset).unwrap();
    let date = Date::from_julian_day(t.day).unwrap();
    let local = date.with_hms_nano(t.hour, t.minute, t.second, t.nanosecond).unwrap();
    let later = local.assume_offset(offset).checked_add(Duration::milliseconds(millis))?;
    Some(Timestamp {
        day: later.to_julian_day(),
        hour: later.hour(),
        minute: later.minute(),
        second: later.second(),
        nanosecond: later.nanosecond(),
        offset: later.offset().whole_seconds(),
    })
}

/// At one distance from UTC, a moment has one date and time.
proof fn lemma_one_notation(t: Timestamp, u: Timestamp)
    requires
        t.valid(),
        u.valid(),
        t.offset == u.offset,
        t.instant() == u.instant(),
    ensures
        t == u,
{
    assert(t.seconds() == u.seconds());
    assert(t.nanosecond == u.nanosecond);
    assert(t.day == u.day);
    assert(t.hour == u.hour);
    assert(t.minute == u.minute);
}

/// The moment one hour later on the same local calendar, if the calendar reaches that far.
pub(crate) fn add_hour(t: Timestamp) -> (later: Option<Timestamp>)
    requires
        t.valid(),
    ensures
        later == t.hour_later(),
{
    let later = add_millis(t, 3_600_000);
    proof {
        match (later, t.hour_later()) {
            (Some(u), Some(v)) => {
                lemma_one_notation(u, v);
            },
            _ => {},
        }
    }
    later
}

/// Calls `Date::next_day`: the day after a date, if the calendar reaches that far.
#[verifier::external_body]
pub(crate) fn next_day(day: i32) -> (next: Option<i32>)
    requires
        FIRST_DAY <= day <= LAST_DAY,
    ensures
        next == (if day < LAST_DAY { Some((day + 1) as i32) } else { None::<i32> }),
{
    let next = Date::from_julian_day(day).unwrap().next_day()?;
    Some(next.to_julian_day())
}

/// The RFC 3339 notation that `OffsetDateTime::format` gives of a moment, or nothing where the
/// notation cannot express it.
pub uninterp spec fn rfc3339(t: Timestamp) -> Option<Seq<char>>;

/// Calls `OffsetDateTime::format` with the well-known description `Rfc3339`. What it writes is
/// named, not described.
#[verifier::external_body]
fn rfc3339_text(t: Timestamp) -> (text: Option<String>)
    requires
        t.valid(),
    ensures
        text.deep_view() == rfc3339(t),
{
    let offset = UtcOffset::from_whole_seconds(t.offset).unwrap();
    let date = Date::from_julian_day(t.day).unwrap();
    let local = date.with_hms_nano(t.hour, t.minute, t.second, t.nanosecond).unwrap();
    local.assume_offset(offset).format(&Rfc3339).ok()
}

/// The notation that `OffsetDateTime` displays of a moment.
pub uninterp spec fn displayed(t: Timestamp) -> Seq<char>;

/// Calls `OffsetDateTime::to_string`. What it writes is named, not described.
#[verifier::external_body]
pub(crate) fn display_text(t: Timestamp) -> (text: String)
    requires
        t.valid(),
    ensures
        text@ == displayed(t),
{
    let offset = UtcOffset::from_whole_seconds(t.offset).unwrap();
    let date = Date::from_julian_day(t.day).unwrap();
    let local = date.with_hms_nano(t.hour, t.minute, t.second, t.nanosecond).unwrap();
    local.assume_offset(offset).to_string()
}

/// How a moment is shown: in RFC 3339 notation, or as `time` displays it where that notation
/// cannot express it.
pub open spec fn shown(t: Timestamp) -> Seq<char> {
    match rfc3339(t) {
        Some(text) => text,
        None => displayed(t),
    }
}

/// Renders a moment in RFC 3339 notation, or as `time` displays it where that notation cannot
/// express it.
pub fn format_timestamp(timestamp: &Timestamp) -> (text: String)
    requires
        timestamp.valid(),
    ensures
        text@ == shown(*timestamp),
{
    match rfc3339_text(*timestamp) {
        Some(text) => text,
        None => display_text(*timestamp),
    }
}

/// The start of the local hour of a moment is a full hour, is not after the moment and less than an
/// hour before it, and is the same for all moments of that hour. One hour later is one hour later.
pub proof fn law_hours_hold_their_moments(t: Timestamp, u: Timestamp)
    requires
        t.valid(),
        u.valid(),
        t.offset == u.offset,
    ensures
        t.hour_start().valid(),
        t.hour_start().minute == 0 && t.hour_start().second == 0 && t.hour_start().nanosecond == 0,
        t.hour_start().offset == t.offset,
        t.hour_start().instant() <= t.instant() < t.hour_start().instant() + 3_600_000_000_000,
        t.day == u.day && t.hour == u.hour <==> t.hour_start().instant()
            == u.hour_start().instant(),
        t.hour_later() matches Some(later) ==> later.valid() && later.offset == t.offset
            && later.instant() == t.instant() + 3_600_000_000_000,
        t.hour_later() is None ==> t.day == LAST_DAY && t.hour == 23,
{
}

/// Of two valid moments at one distance from UTC, a later date or time is a later moment: a second is
/// a thousand million nanoseconds, and a zone that is ahead of UTC has its moments earlier.
pub proof fn law_instants_follow_the_clock(t: Timestamp, u: Timestamp)
    ensures
        t.day == u.day && t.hour == u.hour && t.minute == u.minute && t.second == u.second
            && t.offset == u.offset ==> u.instant() - t.instant() == u.nanosecond - t.nanosecond,
        t.day == u.day && t.hour == u.hour && t.minute == u.minute && t.nanosecond == u.nanosecond
            && t.offset == u.offset ==> u.instant() - t.instant() == (u.second - t.second)
            * 1_000_000_000,
        t.day == u.day && t.hour == u.hour && t.second == u.second && t.nanosecond == u.nanosecond
            && t.offset == u.offset ==> u.instant() - t.instant() == (u.minute - t.minute)
            * 60_000_000_000,
        t.day == u.day && t.minute == u.minute && t.second == u.second && t.nanosecond
            == u.nanosecond && t.offset == u.offset ==> u.instant() - t.instant() == (u.hour
            - t.hour) * 3_600_000_000_000,
        t.hour == u.hour && t.minute == u.minute && t.second == u.second && t.nanosecond
            == u.nanosecond && t.offset == u.offset ==> u.instant() - t.instant() == (u.day - t.day)
            * 86_400_000_000_000,
        t.day == u.day && t.hour == u.hour && t.minute == u.minute && t.second == u.second
            && t.nanosecond == u.nanosecond ==> u.instant() - t.instant() == (t.offset - u.offset)
            * 1_000_000_000,
{
}

/// A moment is shown in RFC 3339 notation wherever there is one.
pub proof fn law_moments_are_shown_in_rfc_3339(t: Timestamp)
    ensures
        rfc3339(t) matches Some(notation) ==> shown(t) == notation,
        rfc3339(t) is None ==> shown(t) == displayed(t),
{
}

} // verus!
