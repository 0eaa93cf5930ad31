//! Due dates: calendar date and wall-clock time read from user text and
//! pinned to a fixed UTC+5:30 offset.
use chrono::{Datelike, Timelike};
use vstd::prelude::*;

use crate::text::{push_zero_padded, zero_padded};

verus! {

/// Seconds east of UTC of the zone that due dates are read in (UTC+5:30).
pub const IST_OFFSET_SECONDS: i32 = 19800;

/// Whether `year` is a leap year of the proleptic Gregorian calendar.
pub open spec fn is_leap_year(year: int) -> bool {
    (year % 4 == 0 && year % 100 != 0) || year % 400 == 0
}

/// The number of days of `month` (1 to 12) in `year`.
pub open spec fn days_in_month(year: int, month: int) -> int {
    if month == 2 {
        if is_leap_year(year) {
            29
        } else {
            28
        }
    } else if month == 4 || month == 6 || month == 9 || month == 11 {
        30
    } else {
        31
    }
}

/// Whether the fields name an existing calendar day.
pub open spec fn is_valid_date(year: int, month: int, day: int) -> bool {
    1 <= month <= 12 && 1 <= day <= days_in_month(year, month)
}

/// A calendar date and a time of day, without any zone.
#[derive(Clone, Copy, Debug, PartialEq, Eq, Structural)]
pub struct WallClock {
    pub year: i32,
    pub month: u32,
    pub day: u32,
    pub hour: u32,
    pub minute: u32,
    pub second: u32,
    /// Above 999_999_999 only while a leap second is shown.
    pub nanosecond: u32,
}

impl WallClock {
    /// An existing day and a time of day.
    pub open spec fn wf(self) -> bool {
        &&& is_valid_date(self.year as int, self.month as int, self.day as int)
        &&& self.hour < 24
        &&& self.minute < 60
        &&& self.second < 60
        &&& self.nanosecond < 2_000_000_000
    }

    /// Midnight at the start of the given day.
    pub open spec fn midnight(year: i32, month: u32, day: u32) -> WallClock {
        WallClock { year, month, day, hour: 0, minute: 0, second: 0, nanosecond: 0 }
    }
}

/// A due date: a wall-clock reading together with the offset from UTC that
/// it is read in, so that it names one instant.
#[derive(Clone, Copy, Debug, PartialEq, Eq, Structural)]
pub struct DueDate {
    pub local: WallClock,
    /// Seconds east of UTC.
    pub offset_seconds: i32,
}

impl DueDate {
    /// A valid wall-clock reading and an offset of less than a day.
    pub open spec fn wf(self) -> bool {
        self.local.wf() && -86_400 < self.offset_seconds < 86_400
    }
}

/// Why a due date could not be read.
#[derive(Clone, Debug)]
pub enum DueDateError {
    /// The text matches neither `YYYY-MM-DD HH:MM` nor `YYYY-MM-DD`.
    InvalidFormat { input: String },
    /// The fixed offset could not be built.
    TimeZone,
}

/// What chrono reads from `s` with the format `%Y-%m-%d %H:%M`.
pub uninterp spec fn date_time_parse(s: Seq<char>) -> Option<WallClock>;

/// What chrono reads from `s` with the format `%Y-%m-%d`: year, month, day.
pub uninterp spec fn date_parse(s: Seq<char>) -> Option<(i32, u32, u32)>;

/// Relies on chrono's `NaiveDateTime::parse_from_str` with the format
/// `%Y-%m-%d %H:%M`; a `NaiveDateTime` always holds an existing day and a
/// time of day.
#[verifier::external_body]
fn parse_date_time(s: &str) -> (r: Option<WallClock>)
    ensures
        r == date_time_parse(s@),
        r is Some ==> r->0.wf(),
{
    match chrono::NaiveDateTime::parse_from_str(s, "%Y-%m-%d %H:%M") {
        Ok(t) => Some(WallClock {
            year: t.year(),
            month: t.month(),
            day: t.day(),
            hour: t.hour(),
            minute: t.minute(),
            second: t.second(),
            nanosecond: t.nanosecond(),
        }),
        Err(_) => None,
    }
}

/// Relies on chrono's `NaiveDate::parse_from_str` with the format
/// `%Y-%m-%d`; a `NaiveDate` always holds an existing day.
#[verifier::external_body]
fn parse_date(s: &str) -> (r: Option<(i32, u32, u32)>)
    ensures
        r == date_parse(s@),
        r matches Some((y, m, d)) ==> is_valid_date(y as int, m as int, d as int),
{
    match chrono::NaiveDate::parse_from_str(s, "%Y-%m-%d") {
        Ok(d) => Some((d.year(), d.month(), d.day())),
        Err(_) => None,
    }
}

/// Relies on chrono's `FixedOffset::east_opt`: an offset exists exactly
/// when it is less than one day either way, and keeps the seconds given.
#[verifier::external_body]
fn fixed_offset_east(secs: i32) -> (r: Option<i32>)
    ensures
        r == (if -86_400 < secs < 86_400 {
            Some(secs)
        } else {
            None::<i32>
        }),
{
    chrono::FixedOffset::east_opt(secs).map(|o| o.local_minus_utc())
}

/// The wall-clock reading that the two accepted formats give, the full one
/// first, the date alone (at midnight) second.
pub open spec fn reading_of(full: Option<WallClock>, date_only: Option<(i32, u32, u32)>) -> Option<WallClock> {
    match full {
        Some(w) => Some(w),
        None => match date_only {
            Some((y, m, d)) => Some(WallClock::midnight(y, m, d)),
            None => None,
        },
    }
}

/// Whether `r` is what `input` stands for, given what each of the two
/// accepted formats read from it and the offset that was built.
pub open spec fn resolves_to(
    r: Result<DueDate, DueDateError>,
    input: Seq<char>,
    full: Option<WallClock>,
    date_only: Option<(i32, u32, u32)>,
    offset: Option<i32>,
) -> bool {
    match reading_of(full, date_only) {
        None => match r {
            Err(DueDateError::InvalidFormat { input: i }) => i@ == input,
            _ => false,
        },
        Some(local) => match offset {
            None => r matches Err(DueDateError::TimeZone),
            Some(o) => r == Ok::<DueDate, DueDateError>(DueDate { local, offset_seconds: o }),
        },
    }
}

/// Builds the due date from what each accepted format read from `input`
/// (the full format first) and from the offset that was built.
pub fn resolve_due_date(
    input: &str,
    full: Option<WallClock>,
    date_only: Option<(i32, u32, u32)>,
    offset: Option<i32>,
) -> (r: Result<DueDate, DueDateError>)
    ensures
        resolves_to(r, input@, full, date_only, offset),
{
    let local = match full {
        Some(w) => w,
        None => match date_only {
            Some((y, m, d)) => WallClock {
                year: y,
                month: m,
                day: d,
                hour: 0,
                minute: 0,
                second: 0,
                nanosecond: 0,
            },
            None => {
                return Err(DueDateError::InvalidFormat { input: String::from_str(input) });
            },
        },
    };
    match offset {
        Some(o) => Ok(DueDate { local, offset_seconds: o }),
        None => Err(DueDateError::TimeZone),
    }
}

/// Reads a due date from `YYYY-MM-DD HH:MM`, or else from `YYYY-MM-DD` at
/// midnight, as wall-clock time at UTC+5:30.
pub fn parse_due_date(s: &str) -> (r: Result<DueDate, DueDateError>)
    ensures
        resolves_to(r, s@, date_time_parse(s@), date_parse(s@), Some(IST_OFFSET_SECONDS)),
        r is Ok ==> r->Ok_0.wf() && r->Ok_0.offset_seconds == IST_OFFSET_SECONDS,
{
    let full = parse_date_time(s);
    let date_only = if full.is_some() {
        None
    } else {
        parse_date(s)
    };
    let offset = fixed_offset_east(IST_OFFSET_SECONDS);
    let r = resolve_due_date(s, full, date_only, offset);
    proof {
        if full is None {
            assert(date_only == date_parse(s@));
        }
    }
    r
}

impl DueDateError {
    /// The text shown to a user for this error.
    pub fn message(&self) -> (r: String)
        ensures
            r@ == match self {
                DueDateError::InvalidFormat { input } => "Invalid date format '"@ + input@
                    + "'. Expected 'YYYY-MM-DD HH:MM' or 'YYYY-MM-DD'."@,
                DueDateError::TimeZone => "Failed to create IST offset."@,
            },
    {
        match self {
            DueDateError::InvalidFormat { input } => {
                let mut m = String::from_str("Invalid date format '");
                m.append(input.as_str());
                m.append("'. Expected 'YYYY-MM-DD HH:MM' or 'YYYY-MM-DD'.");
                m
            },
            DueDateError::TimeZone => String::from_str("Failed to create IST offset."),
        }
    }
}

/// How a year is shown: four digits at least, with a sign outside 0 to 9999.
pub open spec fn year_text(year: int) -> Seq<char> {
    if 0 <= year <= 9999 {
        zero_padded(year as nat, 4)
    } else if year < 0 {
        "-"@ + zero_padded((-year) as nat, 4)
    } else {
        "+"@ + zero_padded(year as nat, 4)
    }
}

/// How a due date is shown: `YYYY-MM-DD HH:MM IST`, in its own wall-clock time.
pub open spec fn due_text(d: DueDate) -> Seq<char> {
    year_text(d.local.year as int) + "-"@ + zero_padded(d.local.month as nat, 2) + "-"@
        + zero_padded(d.local.day as nat, 2) + " "@ + zero_padded(d.local.hour as nat, 2) + ":"@
        + zero_padded(d.local.minute as nat, 2) + " IST"@
}

/// Appends the year as `year_text` shows it.
fn push_year(s: &mut String, year: i32)
    ensures
        final(s)@ == old(s)@ + year_text(year as int),
{
    if 0 <= year && year <= 9999 {
        push_zero_padded(s, year as u64, 4);
    } else if year < 0 {
        s.append("-");
        push_zero_padded(s, (-(year as i64)) as u64, 4);
        assert(s@ =~= old(s)@ + year_text(year as int));
    } else {
        s.append("+");
        push_zero_padded(s, year as u64, 4);
        assert(s@ =~= old(s)@ + year_text(year as int));
    }
}

impl DueDate {
    /// Appends the due date as `due_text` shows it.
    pub fn push_text(&self, s: &mut String)
        ensures
            final(s)@ == old(s)@ + due_text(*self),
    {
        push_year(s, self.local.year);
        s.append("-");
        push_zero_padded(s, self.local.month as u64, 2);
        s.append("-");
        push_zero_padded(s, self.local.day as u64, 2);
        s.append(" ");
        push_zero_padded(s, self.local.hour as u64, 2);
        s.append(":");
        push_zero_padded(s, self.local.minute as u64, 2);
        s.append(" IST");
        assert(s@ =~= old(s)@ + due_text(*self));
    }

    /// The due date as `due_text` shows it.
    pub fn to_text(&self) -> (r: String)
        ensures
            r@ == due_text(*self),
    {
        let mut s = String::new();
        self.push_text(&mut s);
        assert(s@ =~= due_text(*self));
        s
    }
}

} // verus!
