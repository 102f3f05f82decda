//! The date of a run, and the name of the output file that is derived from
//! it.

use vstd::prelude::*;

use crate::decimal::{zero_padded_string, zero_padded_text};

verus! {

/// A calendar date in UTC.
#[derive(Clone, Copy, Debug, PartialEq, Eq)]
pub struct RunDate {
    pub year: i32,
    /// Month of the year, counted from 1.
    pub month: u32,
    /// Day of the month, counted from 1.
    pub day: u32,
}

/// The calendar date in UTC, as year, month and day, of the moment that
/// lies `secs` seconds after the beginning of 1970, as
/// `chrono::DateTime::from_timestamp_secs` and `chrono::DateTime::date_naive`
/// compute it; `None` where chrono cannot represent the moment.
pub uninterp spec fn utc_date(secs: i64) -> Option<(i32, u32, u32)>;

/// Converts a count of seconds since the beginning of 1970 into a calendar
/// date with `chrono::DateTime::from_timestamp_secs`, and reads its date
/// with `date_naive` and the accessors of `chrono::Datelike`.
///
/// Trusted: the result is a function of `secs` alone, named [`utc_date`].
/// Nothing else is claimed about it.
#[verifier::external_body]
fn utc_date_of(secs: i64) -> (date: Option<(i32, u32, u32)>)
    ensures
        date == utc_date(secs),
{
    match chrono::DateTime::from_timestamp_secs(secs) {
        Some(moment) => {
            let date = moment.date_naive();
            Some(
                (
                    chrono::Datelike::year(&date),
                    chrono::Datelike::month(&date),
                    chrono::Datelike::day(&date),
                ),
            )
        },
        None => None,
    }
}

/// Reads the system clock with `std::time::SystemTime::now` and hands out
/// the whole seconds that have passed since the beginning of 1970, or
/// `None` where the clock stands before that.
///
/// Trusted: nothing is claimed about the result.
#[verifier::external_body]
fn unix_seconds_now() -> (secs: Option<u64>) {
    match std::time::SystemTime::now().duration_since(std::time::UNIX_EPOCH) {
        Ok(elapsed) => Some(elapsed.as_secs()),
        Err(_) => None,
    }
}

/// The year as it is written in a date: four digits for the years 0 to
/// 9999, and a sign in front of at least four digits for all others.
pub open spec fn year_text(year: int) -> Seq<char> {
    if 0 <= year <= 9999 {
        zero_padded_text(year as nat, 4)
    } else if year < 0 {
        seq!['-'] + zero_padded_text((-year) as nat, 4)
    } else {
        seq!['+'] + zero_padded_text(year as nat, 4)
    }
}

/// The date as it is written: year, month and day, the latter two with two
/// digits each, with hyphens in between.
pub open spec fn date_text(date: RunDate) -> Seq<char> {
    year_text(date.year as int) + seq!['-'] + zero_padded_text(date.month as nat, 2) + seq!['-']
        + zero_padded_text(date.day as nat, 2)
}

/// The name of the output file of a run that started on `date`.
pub open spec fn file_name_text(date: RunDate) -> Seq<char> {
    "products_"@ + date_text(date) + ".csv"@
}

/// The date that a count of seconds stands for, if it stands for one.
pub open spec fn run_date_at(secs: i64) -> Option<RunDate> {
    match utc_date(secs) {
        Some((year, month, day)) => Some(RunDate { year, month, day }),
        None => None,
    }
}

/// The date that a reading of the clock stands for: none where the clock
/// gave no reading or one beyond the range of signed seconds, else the date
/// of that many seconds.
pub open spec fn run_date_of_clock(reading: Option<u64>) -> Option<RunDate> {
    match reading {
        Some(secs) => if secs <= i64::MAX {
            run_date_at(secs as i64)
        } else {
            None
        },
        None => None,
    }
}

impl RunDate {
    /// The date in UTC of the moment `secs` seconds after the beginning of
    /// 1970; `None` for a moment beyond the calendar.
    pub fn from_unix_seconds(secs: i64) -> (date: Option<RunDate>)
        ensures
            date == run_date_at(secs),
    {
        match utc_date_of(secs) {
            Some((year, month, day)) => Some(RunDate { year, month, day }),
            None => None,
        }
    }

    /// The date in UTC that a reading of the clock stands for, the reading
    /// being the whole seconds since the beginning of 1970, if the clock
    /// gave any.
    pub fn from_clock_seconds(reading: Option<u64>) -> (date: Option<RunDate>)
        ensures
            date == run_date_of_clock(reading),
    {
        match reading {
            Some(secs) => {
                if secs <= 0x7fff_ffff_ffff_ffff {
                    RunDate::from_unix_seconds(secs as i64)
                } else {
                    None
                }
            },
            None => None,
        }
    }

    /// Today's date in UTC by the system clock; `None` where the clock
    /// stands outside the calendar.
    pub fn today() -> (date: Option<RunDate>)
        ensures
            date matches Some(d) ==> exists|secs: i64| 0 <= secs && run_date_at(secs) == Some(d),
    {
        RunDate::from_clock_seconds(unix_seconds_now())
    }

    /// Writes the year.
    fn year_string(&self) -> (text: String)
        ensures
            text@ == year_text(self.year as int),
    {
        let year = self.year;
        if 0 <= year && year <= 9999 {
            zero_padded_string(year as u64, 4)
        } else if year < 0 {
            proof {
                reveal_strlit("-");
            }
            let magnitude: u64 = (-(year as i64)) as u64;
            let mut text = String::from_str("-");
            let digits = zero_padded_string(magnitude, 4);
            text.append(digits.as_str());
            text
        } else {
            proof {
                reveal_strlit("+");
            }
            let mut text = String::from_str("+");
            let digits = zero_padded_string(year as u64, 4);
            text.append(digits.as_str());
            text
        }
    }

    /// Writes the date.
    pub fn text(&self) -> (text: String)
        ensures
            text@ == date_text(*self),
    {
        proof {
            reveal_strlit("-");
        }
        let mut text = self.year_string();
        text.append("-");
        let month = zero_padded_string(self.month as u64, 2);
        text.append(month.as_str());
        text.append("-");
        let day = zero_padded_string(self.day as u64, 2);
        text.append(day.as_str());
        text
    }

    /// The name of the output file of a run that started on this date.
    pub fn file_name(&self) -> (name: String)
        ensures
            name@ == file_name_text(*self),
    {
        let mut name = String::from_str("products_");
        let date = self.text();
        name.append(date.as_str());
        name.append(".csv");
        name
    }
}

} // verus!
