//! Points on the UTC time line, and the calendar operations on them.
//!
//! A [`UtcInstant`] holds a point in time as plain numbers: whole seconds
//! since 1970-01-01 00:00:00 UTC, leap seconds not counted, and the
//! nanoseconds past that second. A leap second is written as chrono writes
//! it: as the last second of its minute with a full second or more of
//! nanoseconds.
//!
//! The calendar itself is chrono's. The three functions at the end of this
//! file hand the numbers to chrono and take numbers or text back; their
//! contracts are taken on trust, everything else here is proved from them.

use vstd::prelude::*;
use chrono::{DateTime, Days};

verus! {

/// Nanoseconds in a second.
pub const NANOS_PER_SEC: u32 = 1_000_000_000;

/// Seconds in a minute.
pub const SECS_PER_MINUTE: i64 = 60;

/// Seconds in a day.
pub const SECS_PER_DAY: i64 = 86_400;

/// First second of chrono's calendar: 00:00:00 on 1 January of the year
/// -262143, counted from 1970-01-01 00:00:00 UTC.
pub const MIN_SECS: i64 = -8_334_601_228_800;

/// Last second of chrono's calendar: 23:59:59 on 31 December of the year
/// 262142, counted from 1970-01-01 00:00:00 UTC.
pub const MAX_SECS: i64 = 8_210_266_876_799;

/// Whether `nanos` nanoseconds past a second write a leap second.
pub open spec fn is_leap_second(nanos: u32) -> bool {
    nanos >= NANOS_PER_SEC
}

/// Whether `secs` and `nanos` name a point of the calendar: the second lies
/// on it, and the nanoseconds stay below one second, or below two in the
/// last second of a minute, where they write a leap second.
pub open spec fn on_calendar(secs: i64, nanos: u32) -> bool {
    &&& MIN_SECS <= secs <= MAX_SECS
    &&& nanos < 2 * NANOS_PER_SEC
    &&& is_leap_second(nanos) ==> secs % SECS_PER_MINUTE == SECS_PER_MINUTE - 1
}

/// The second of its day that the second `secs` is, from 0 to 86399.
pub open spec fn second_of_day(secs: i64) -> int {
    (secs % SECS_PER_DAY) as int
}

/// Nanoseconds from 1970-01-01 00:00:00 UTC to the point that `secs` and
/// `nanos` name.
pub open spec fn epoch_nanos(secs: i64, nanos: u32) -> int {
    secs * (NANOS_PER_SEC as int) + nanos
}

/// The leap seconds that chrono counts between two points, the later one
/// first. It knows of none but those that the two points write themselves,
/// and it goes by the time of day alone: the leap second of the earlier point
/// counts where the later point stands later in its day, and the leap second
/// of the later point is taken off where that point stands earlier in its day.
pub open spec fn leap_seconds_between(
    later_secs: i64,
    later_nanos: u32,
    earlier_secs: i64,
    earlier_nanos: u32,
) -> int {
    if second_of_day(later_secs) > second_of_day(earlier_secs) && is_leap_second(earlier_nanos) {
        1
    } else if second_of_day(later_secs) < second_of_day(earlier_secs) && is_leap_second(
        later_nanos,
    ) {
        -1
    } else {
        0
    }
}

/// Nanoseconds from one point to another, the later one first, as chrono
/// measures them: the difference of the two counts, and a second for each leap
/// second between them.
pub open spec fn nanos_between(
    later_secs: i64,
    later_nanos: u32,
    earlier_secs: i64,
    earlier_nanos: u32,
) -> int {
    epoch_nanos(later_secs, later_nanos) - epoch_nanos(earlier_secs, earlier_nanos)
        + leap_seconds_between(later_secs, later_nanos, earlier_secs, earlier_nanos)
        * NANOS_PER_SEC
}

/// `nanos` nanoseconds in whole minutes, rounded towards zero.
pub open spec fn whole_minutes(nanos: int) -> int {
    let per_minute = SECS_PER_MINUTE * NANOS_PER_SEC;
    if nanos >= 0 {
        nanos / per_minute
    } else {
        -((-nanos) / per_minute)
    }
}

/// A point on the UTC time line, to the nanosecond.
#[derive(Clone, Copy, Debug, PartialEq, Eq)]
pub struct UtcInstant {
    secs: i64,
    nanos: u32,
}

impl View for UtcInstant {
    type V = int;

    /// Nanoseconds since 1970-01-01 00:00:00 UTC.
    open spec fn view(&self) -> int {
        epoch_nanos(self.spec_secs(), self.spec_subsec_nanos())
    }
}

impl UtcInstant {
    /// Whole seconds since 1970-01-01 00:00:00 UTC, rounded down.
    pub closed spec fn spec_secs(self) -> i64 {
        self.secs
    }

    /// Nanoseconds past the whole second; a full second or more in a leap
    /// second.
    pub closed spec fn spec_subsec_nanos(self) -> u32 {
        self.nanos
    }

    /// Every instant lies on the calendar.
    #[verifier::type_invariant]
    pub open spec fn wf(self) -> bool {
        on_calendar(self.spec_secs(), self.spec_subsec_nanos())
    }

    /// Nanoseconds from `earlier` to this instant, as chrono measures them.
    pub open spec fn nanos_since(self, earlier: UtcInstant) -> int {
        nanos_between(
            self.spec_secs(),
            self.spec_subsec_nanos(),
            earlier.spec_secs(),
            earlier.spec_subsec_nanos(),
        )
    }

    /// The instant `nanos` nanoseconds past the second `secs`, where that is a
    /// point of the calendar.
    pub fn new(secs: i64, nanos: u32) -> (r: Option<UtcInstant>)
        ensures
            r is Some <==> on_calendar(secs, nanos),
            r matches Some(at) ==> at.wf() && at.spec_secs() == secs && at.spec_subsec_nanos()
                == nanos,
    {
        if secs < MIN_SECS || secs > MAX_SECS {
            None
        } else if nanos < NANOS_PER_SEC {
            Some(UtcInstant { secs, nanos })
        } else if nanos < 2 * NANOS_PER_SEC && secs.checked_rem_euclid(SECS_PER_MINUTE) == Some(
            SECS_PER_MINUTE - 1,
        ) {
            Some(UtcInstant { secs, nanos })
        } else {
            None
        }
    }

    /// Whole seconds since 1970-01-01 00:00:00 UTC, rounded down.
    #[verifier::when_used_as_spec(spec_secs)]
    pub fn secs(self) -> (r: i64)
        ensures
            r == self.spec_secs(),
            MIN_SECS <= r <= MAX_SECS,
    {
        proof {
            use_type_invariant(&self);
        }
        self.secs
    }

    /// Nanoseconds past the whole second; a full second or more in a leap
    /// second.
    #[verifier::when_used_as_spec(spec_subsec_nanos)]
    pub fn subsec_nanos(self) -> (r: u32)
        ensures
            r == self.spec_subsec_nanos(),
            r < 2 * NANOS_PER_SEC,
    {
        proof {
            use_type_invariant(&self);
        }
        self.nanos
    }

    /// The instant one day earlier, where the calendar reaches that far back.
    pub fn day_before(self) -> (r: Option<UtcInstant>)
        ensures
            r is Some <==> self.spec_secs() - SECS_PER_DAY >= MIN_SECS,
            r matches Some(before) ==> {
                &&& before.wf()
                &&& before.spec_secs() == self.spec_secs() - SECS_PER_DAY
                &&& before.spec_subsec_nanos() == self.spec_subsec_nanos()
                &&& before@ == self@ - SECS_PER_DAY * NANOS_PER_SEC
            },
    {
        proof {
            use_type_invariant(&self);
        }
        match utc_day_before(self.secs, self.nanos) {
            Some((secs, nanos)) => Some(UtcInstant { secs, nanos }),
            None => None,
        }
    }

    /// Whole minutes from `earlier` to this instant, rounded towards zero;
    /// negative where `earlier` is a minute or more after this instant.
    pub fn minutes_since(self, earlier: UtcInstant) -> (r: i64)
        ensures
            r == whole_minutes(self.nanos_since(earlier)),
    {
        proof {
            use_type_invariant(&self);
            use_type_invariant(&earlier);
        }
        utc_minutes_between(self.secs, self.nanos, earlier.secs, earlier.nanos).unwrap()
    }

    /// The date and the time of day of this instant in UTC, written as
    /// `date_time_pattern` says.
    pub fn date_time_text(self) -> (r: String)
        ensures
            r@ == utc_text(self.spec_secs(), self.spec_subsec_nanos(), date_time_pattern()),
    {
        proof {
            use_type_invariant(&self);
        }
        utc_format(self.secs, self.nanos, "%Y-%m-%dT%H:%M:%S").unwrap()
    }
}

/// Between two instants that write no leap second, chrono measures the
/// plain difference of their counts.
pub proof fn lemma_nanos_since_without_leap_second(later: UtcInstant, earlier: UtcInstant)
    requires
        !is_leap_second(later.spec_subsec_nanos()),
        !is_leap_second(earlier.spec_subsec_nanos()),
    ensures
        later.nanos_since(earlier) == later@ - earlier@,
{
}

/// The pattern, in chrono's strftime syntax, of a date and a time of day to
/// the second: year, month and day with hyphens, the letter `T`, then hour,
/// minute and second with colons.
pub open spec fn date_time_pattern() -> Seq<char> {
    "%Y-%m-%dT%H:%M:%S"@
}

/// The text that chrono writes for the UTC date and time of day of the point
/// that `secs` and `nanos` name, under the strftime pattern `pattern`.
pub uninterp spec fn utc_text(secs: i64, nanos: u32, pattern: Seq<char>) -> Seq<char>;

/// Trusted: chrono's `DateTime::<Utc>::checked_sub_days`, called with one
/// day on the date-time that `DateTime::from_timestamp` makes of `secs` and
/// `nanos`, and read back with `timestamp` and `timestamp_subsec_nanos`.
///
/// The contract claims that chrono moves the date back by one day and keeps
/// the time of day, so that the second count drops by 86400 and the
/// nanoseconds stay; and that it gives nothing exactly when the earlier date
/// would lie before the first day of its calendar.
#[verifier::external_body]
fn utc_day_before(secs: i64, nanos: u32) -> (r: Option<(i64, u32)>)
    requires
        on_calendar(secs, nanos),
    ensures
        r is Some <==> secs - SECS_PER_DAY >= MIN_SECS,
        r matches Some((before_secs, before_nanos)) ==> before_secs == secs - SECS_PER_DAY
            && before_nanos == nanos,
{
    let at = DateTime::from_timestamp(secs, nanos)?;
    let before = at.checked_sub_days(Days::new(1))?;
    Some((before.timestamp(), before.timestamp_subsec_nanos()))
}

/// Trusted: chrono's `DateTime::signed_duration_since`, read in minutes with
/// `TimeDelta::num_minutes`, on the date-times that
/// `DateTime::from_timestamp` makes of the two points.
///
/// The contract claims that chrono's duration is the difference of the two
/// counts of seconds and nanoseconds, the later one first, with one second
/// more or less where `leap_seconds_between` says so; and that `num_minutes`
/// drops the part of it that is less than a minute, towards zero.
#[verifier::external_body]
fn utc_minutes_between(
    later_secs: i64,
    later_nanos: u32,
    earlier_secs: i64,
    earlier_nanos: u32,
) -> (r: Option<i64>)
    requires
        on_calendar(later_secs, later_nanos),
        on_calendar(earlier_secs, earlier_nanos),
    ensures
        r is Some,
        r matches Some(minutes) ==> minutes == whole_minutes(
            nanos_between(later_secs, later_nanos, earlier_secs, earlier_nanos),
        ),
{
    let later = DateTime::from_timestamp(later_secs, later_nanos)?;
    let earlier = DateTime::from_timestamp(earlier_secs, earlier_nanos)?;
    Some(later.signed_duration_since(earlier).num_minutes())
}

/// Trusted: chrono's `DateTime::format`, written out with `to_string`, on the
/// date-time that `DateTime::from_timestamp` makes of `secs` and `nanos`.
///
/// The contract claims that chrono accepts `date_time_pattern`, and that the
/// text depends on nothing but the point in time and the pattern. What the
/// text is, it leaves to chrono: `utc_text` is only a name for it.
#[verifier::external_body]
fn utc_format(secs: i64, nanos: u32, pattern: &str) -> (r: Option<String>)
    requires
        on_calendar(secs, nanos),
        pattern@ == date_time_pattern(),
    ensures
        r is Some,
        r matches Some(text) ==> text@ == utc_text(secs, nanos, pattern@),
{
    let at = DateTime::from_timestamp(secs, nanos)?;
    Some(at.format(pattern).to_string())
}

} // verus!
