//! The reporting time window: calendar-date arithmetic, resolution of local
//! wall-clock instants to UTC through the IANA timezone table, and the
//! human-readable date label of a report.

use vstd::prelude::*;
use vstd::string::StringExecFns;

use chrono::Datelike;
use chrono::TimeZone;

use crate::error::AppError;
use crate::text::dec_digits;
use crate::text::u64_to_string;

verus! {

/// How often a report is generated; decides the window's length.
#[derive(Clone, Copy, PartialEq, Eq, Structural, Debug)]
pub enum ReportType {
    Daily,
    Weekly,
}

impl ReportType {
    /// The cadence's display name.
    pub open spec fn spec_label(&self) -> Seq<char> {
        match self {
            ReportType::Daily => "Daily"@,
            ReportType::Weekly => "Weekly"@,
        }
    }

    pub fn label(&self) -> (r: &'static str)
        ensures
            r@ == self.spec_label(),
    {
        match self {
            ReportType::Daily => "Daily",
            ReportType::Weekly => "Weekly",
        }
    }
}

/// Whether the IANA timezone table built into chrono_tz has a zone of this
/// name; names the success of `chrono_tz::Tz::from_str`, a pure table lookup.
pub uninterp spec fn tz_known(name: Seq<char>) -> bool;

/// The UTC timestamp, in milliseconds since the epoch, of the local wall-clock
/// instant `year-month-day hour:minute:second` in the named zone; names the
/// result of resolving that instant through chrono_tz's zone rules. `None`
/// when the local instant does not exist in that zone or the components do not
/// form a valid date and time.
pub uninterp spec fn local_utc_millis(
    tz: Seq<char>,
    year: int,
    month: int,
    day: int,
    hour: int,
    minute: int,
    second: int,
) -> Option<int>;

/// Relies on chrono_tz's `Tz::from_str`: a pure lookup of the name in the
/// timezone table compiled into the crate.
#[verifier::external_body]
pub fn tz_name_known(name: &str) -> (r: bool)
    ensures
        r == tz_known(name@),
{
    name.parse::<chrono_tz::Tz>().is_ok()
}

/// Relies on chrono_tz and chrono to resolve a local wall-clock instant in the
/// named zone to a UTC timestamp: for a known zone the outcome depends on the
/// arguments alone (the zone's rules are compiled into chrono_tz); an
/// ambiguous local time resolves to the earlier instant, a nonexistent one to
/// `None`. chrono bounds its dates to years within about ±262143, so the
/// millisecond value stays far inside `i64`.
#[verifier::external_body]
pub fn local_to_utc_millis(
    tz_name: &str,
    year: i32,
    month: u8,
    day: u8,
    hour: u8,
    minute: u8,
    second: u8,
) -> (r: Option<i64>)
    ensures
        !tz_known(tz_name@) ==> r is None,
        tz_known(tz_name@) ==> (r is Some <==> local_utc_millis(
            tz_name@,
            year as int,
            month as int,
            day as int,
            hour as int,
            minute as int,
            second as int,
        ) is Some),
        tz_known(tz_name@) && r is Some ==> r->0 == local_utc_millis(
            tz_name@,
            year as int,
            month as int,
            day as int,
            hour as int,
            minute as int,
            second as int,
        )->0,
        r is Some ==> -9000000000000000 < r->0 < 9000000000000000,
{
    let tz: chrono_tz::Tz = match tz_name.parse() {
        Ok(t) => t,
        Err(_) => return None,
    };
    let local = tz.with_ymd_and_hms(year, month as u32, day as u32, hour as u32, minute as u32, second as u32);
    match local.earliest() {
        Some(dt) => Some(dt.with_timezone(&chrono::Utc).timestamp_millis()),
        None => None,
    }
}

/// Whether `year` is a leap year in the proleptic Gregorian calendar.
pub open spec fn is_leap_year(year: int) -> bool {
    (year % 4 == 0 && year % 100 != 0) || year % 400 == 0
}

/// The number of days in the given month of the given year.
pub open spec fn days_in_month(year: int, month: int) -> int {
    if month == 2 {
        if is_leap_year(year) {
            29
        } else {
            28
        }
    } else if month == 4 || month == 6 || month == 9 || month == 11 {
        30
    } else {
        31
    }
}

/// Whether the components form a real calendar date.
pub open spec fn valid_date(year: int, month: int, day: int) -> bool {
    1 <= month <= 12 && 1 <= day <= days_in_month(year, month)
}

/// A calendar date on some site's local clock.
#[derive(Clone, Copy, PartialEq, Eq, Structural, Debug)]
pub struct LocalDate {
    pub year: i32,
    pub month: u8,
    pub day: u8,
}

impl LocalDate {
    /// A real calendar date within chrono's representable years.
    pub open spec fn wf(&self) -> bool {
        valid_date(self.year as int, self.month as int, self.day as int) && 0 <= self.year
            < 262144
    }
}

/// Relies on chrono's `Utc::now` and chrono_tz: the current calendar date in
/// the named zone. The value comes from the clock, so only its validity as a
/// date and chrono's documented year range are stated.
#[verifier::external_body]
pub fn local_today(tz_name: &str) -> (r: Option<(i32, u8, u8)>)
    ensures
        r is Some <==> tz_known(tz_name@),
        r is Some ==> valid_date((r->0).0 as int, (r->0).1 as int, (r->0).2 as int),
        r is Some ==> -262144 < (r->0).0 < 262144,
{
    let tz: chrono_tz::Tz = match tz_name.parse() {
        Ok(t) => t,
        Err(_) => return None,
    };
    let now = chrono::Utc::now().with_timezone(&tz);
    Some((now.year(), now.month() as u8, now.day() as u8))
}

fn is_leap(year: i32) -> (r: bool)
    requires
        year >= 0,
    ensures
        r == is_leap_year(year as int),
{
    (year % 4 == 0 && year % 100 != 0) || year % 400 == 0
}

fn days_in_month_exec(year: i32, month: u8) -> (r: u8)
    requires
        year >= 0,
        1 <= month <= 12,
    ensures
        r == days_in_month(year as int, month as int),
{
    if month == 2 {
        if is_leap(year) {
            29
        } else {
            28
        }
    } else if month == 4 || month == 6 || month == 9 || month == 11 {
        30
    } else {
        31
    }
}

/// The calendar day before `d`.
pub open spec fn spec_prev_day(d: LocalDate) -> LocalDate {
    if d.day > 1 {
        LocalDate { year: d.year, month: d.month, day: (d.day - 1) as u8 }
    } else if d.month > 1 {
        LocalDate {
            year: d.year,
            month: (d.month - 1) as u8,
            day: days_in_month(d.year as int, d.month - 1) as u8,
        }
    } else {
        LocalDate { year: (d.year - 1) as i32, month: 12, day: 31 }
    }
}

/// Steps one calendar day back, across month and year boundaries.
pub fn prev_day(d: LocalDate) -> (r: LocalDate)
    requires
        d.wf(),
        d.year >= 1,
    ensures
        r == spec_prev_day(d),
        valid_date(r.year as int, r.month as int, r.day as int),
        0 <= r.year < 262144,
{
    if d.day > 1 {
        LocalDate { year: d.year, month: d.month, day: d.day - 1 }
    } else if d.month > 1 {
        LocalDate {
            year: d.year,
            month: d.month - 1,
            day: days_in_month_exec(d.year, d.month - 1),
        }
    } else {
        LocalDate { year: d.year - 1, month: 12, day: 31 }
    }
}

/// A report's UTC time window.
#[derive(Clone, Copy, PartialEq, Eq, Structural, Debug)]
pub struct ReportWindow {
    pub start_millis: i64,
    pub end_millis: i64,
    pub cadence: ReportType,
}

impl ReportWindow {
    /// The window is a non-empty interval.
    pub open spec fn wf(&self) -> bool {
        self.start_millis < self.end_millis
    }
}

/// Whether the window instants needed for a report ending on local date `y`
/// resolve in the named zone.
pub open spec fn window_resolves(tz: Seq<char>, y: LocalDate, rt: ReportType) -> bool {
    match rt {
        ReportType::Daily => local_utc_millis(
            tz,
            y.year as int,
            y.month as int,
            y.day as int,
            0,
            0,
            0,
        ) is Some,
        ReportType::Weekly => local_utc_millis(
            tz,
            y.year as int,
            y.month as int,
            y.day as int,
            23,
            59,
            59,
        ) is Some,
    }
}

/// The window's defining relation: for a daily report the window starts at
/// local midnight of the end date and spans one day less a second; for a
/// weekly report it ends at local 23:59:59 of the end date and starts seven
/// days less a second earlier.
pub open spec fn window_matches(tz: Seq<char>, y: LocalDate, rt: ReportType, w: ReportWindow) -> bool {
    &&& w.cadence == rt
    &&& (rt is Daily ==> {
        let s = local_utc_millis(tz, y.year as int, y.month as int, y.day as int, 0, 0, 0);
        &&& s is Some
        &&& w.start_millis == s->0
        &&& w.end_millis == w.start_millis + 86399000
    })
    &&& (rt is Weekly ==> {
        let e = local_utc_millis(tz, y.year as int, y.month as int, y.day as int, 23, 59, 59);
        &&& e is Some
        &&& w.end_millis == e->0
        &&& w.start_millis == w.end_millis - 604799000
    })
}

/// Computes the report window whose local end date is the day before `today`
/// in the named zone.
pub fn compute_report_window(timezone: &str, report_type: &ReportType, today: LocalDate) -> (r:
    Result<ReportWindow, AppError>)
    requires
        today.wf(),
        today.year >= 1,
    ensures
        !tz_known(timezone@) ==> r is Err,
        tz_known(timezone@) ==> (r is Ok <==> window_resolves(
            timezone@,
            spec_prev_day(today),
            *report_type,
        )),
        r matches Ok(w) ==> window_matches(timezone@, spec_prev_day(today), *report_type, w)
            && w.wf(),
        r matches Err(e) ==> e is Config,
{
    if !tz_name_known(timezone) {
        return Err(AppError::config("Invalid timezone"));
    }
    let y = prev_day(today);
    match report_type {
        ReportType::Daily => {
            match local_to_utc_millis(timezone, y.year, y.month, y.day, 0, 0, 0) {
                Some(start) => Ok(
                    ReportWindow {
                        start_millis: start,
                        end_millis: start + 86399000,
                        cadence: ReportType::Daily,
                    },
                ),
                None => Err(AppError::config("Local midnight does not exist in this timezone")),
            }
        },
        ReportType::Weekly => {
            match local_to_utc_millis(timezone, y.year, y.month, y.day, 23, 59, 59) {
                Some(end) => Ok(
                    ReportWindow {
                        start_millis: end - 604799000,
                        end_millis: end,
                        cadence: ReportType::Weekly,
                    },
                ),
                None => Err(AppError::config("Local end of day does not exist in this timezone")),
            }
        },
    }
}

/// Computes the report window ending yesterday on the named zone's clock,
/// reading the current date from that clock.
pub fn calculate_time_range(timezone: &str, report_type: &ReportType) -> (r: Result<
    (ReportWindow, LocalDate),
    AppError,
>)
    ensures
        !tz_known(timezone@) ==> r is Err,
        r matches Ok(p) ==> {
            &&& p.0.wf()
            &&& p.1.wf()
            &&& window_matches(timezone@, p.1, *report_type, p.0)
        },
        r matches Err(e) ==> e is Config,
{
    match local_today(timezone) {
        None => Err(AppError::config("Invalid timezone")),
        Some((year, month, day)) => {
            if year < 1 {
                return Err(AppError::config("Date out of range"));
            }
            let today = LocalDate { year, month, day };
            match compute_report_window(timezone, report_type, today) {
                Ok(w) => Ok((w, prev_day(today))),
                Err(e) => Err(e),
            }
        },
    }
}

/// The English name of month `m`.
pub open spec fn spec_month_name(m: int) -> Seq<char> {
    if m == 1 {
        "January"@
    } else if m == 2 {
        "February"@
    } else if m == 3 {
        "March"@
    } else if m == 4 {
        "April"@
    } else if m == 5 {
        "May"@
    } else if m == 6 {
        "June"@
    } else if m == 7 {
        "July"@
    } else if m == 8 {
        "August"@
    } else if m == 9 {
        "September"@
    } else if m == 10 {
        "October"@
    } else if m == 11 {
        "November"@
    } else {
        "December"@
    }
}

pub fn month_name(m: u8) -> (r: &'static str)
    requires
        1 <= m <= 12,
    ensures
        r@ == spec_month_name(m as int),
{
    if m == 1 {
        "January"
    } else if m == 2 {
        "February"
    } else if m == 3 {
        "March"
    } else if m == 4 {
        "April"
    } else if m == 5 {
        "May"
    } else if m == 6 {
        "June"
    } else if m == 7 {
        "July"
    } else if m == 8 {
        "August"
    } else if m == 9 {
        "September"
    } else if m == 10 {
        "October"
    } else if m == 11 {
        "November"
    } else {
        "December"
    }
}

/// `n` in decimal, left-padded with zeros to two digits.
pub open spec fn pad2(n: nat) -> Seq<char> {
    if n < 10 {
        "0"@ + dec_digits(n)
    } else {
        dec_digits(n)
    }
}

/// `n` in decimal, left-padded with zeros to four digits.
pub open spec fn pad4(n: nat) -> Seq<char> {
    if n < 10 {
        "000"@ + dec_digits(n)
    } else if n < 100 {
        "00"@ + dec_digits(n)
    } else if n < 1000 {
        "0"@ + dec_digits(n)
    } else {
        dec_digits(n)
    }
}

/// The long month-day-year label of a date, as in `March 14, 2024`.
pub open spec fn spec_date_label(d: LocalDate) -> Seq<char> {
    spec_month_name(d.month as int) + " "@ + pad2(d.day as nat) + ", "@ + pad4(d.year as nat)
}

/// Formats a date as its long month-day-year label.
pub fn format_date_label(d: LocalDate) -> (r: String)
    requires
        d.wf(),
    ensures
        r@ == spec_date_label(d),
{
    let mut s = month_name(d.month).to_owned();
    s.append(" ");
    if d.day < 10 {
        s.append("0");
    }
    let day_digits = u64_to_string(d.day as u64);
    s.append(day_digits.as_str());
    s.append(", ");
    if d.year < 10 {
        s.append("000");
    } else if d.year < 100 {
        s.append("00");
    } else if d.year < 1000 {
        s.append("0");
    }
    let year_digits = u64_to_string(d.year as u64);
    s.append(year_digits.as_str());
    proof {
        assert(s@ =~= spec_date_label(d));
    }
    s
}

} // verus!
