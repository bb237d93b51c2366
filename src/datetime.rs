//! HL7 timestamps as FHIR `date` and `dateTime` values.
//!
//! A timestamp `YYYYMMDDHHmm` is local time in Europe/Berlin. Calendar
//! parsing is done by `chrono`, the offset of the Berlin time zone by
//! `chrono-tz`; writing the FHIR text is done here.
use vstd::prelude::*;
use chrono::{Datelike, Offset, TimeZone, Timelike};
use crate::text::{four_digits, two_digits, digit_char};

verus! {

#[verifier::external_type_specification]
#[verifier::external_body]
pub struct ExChronoParseError(chrono::ParseError);

/// The calendar fields `(year, month, day, hour, minute)` that
/// `NaiveDateTime::parse_from_str` reads from `s` under the format `fmt`;
/// `None` where it rejects `s`.
pub uninterp spec fn naive_datetime_of(s: Seq<char>, fmt: Seq<char>) -> Option<(int, int, int, int, int)>;

/// The calendar fields `(year, month, day)` that
/// `NaiveDate::parse_and_remainder` reads from the start of `s` under the
/// format `fmt`; `None` where it rejects `s`.
pub uninterp spec fn naive_date_prefix_of(s: Seq<char>, fmt: Seq<char>) -> Option<(int, int, int)>;

/// The earliest instant at which the wall clock in Europe/Berlin shows the
/// given local time, as `(seconds since the Unix epoch, offset from UTC in
/// seconds)`; `None` where that local time does not exist.
pub uninterp spec fn berlin_instant_of(year: int, month: int, day: int, hour: int, minute: int) -> Option<(int, int)>;

/// Relies on `chrono::NaiveDateTime::parse_from_str` and the accessors of
/// the result: a valid date, with month, day, hour and minute in range.
#[verifier::external_body]
fn parse_naive_datetime(s: &str, fmt: &str) -> (r: Result<(i32, u32, u32, u32, u32), chrono::ParseError>)
    ensures
        match r {
            Ok((y, mo, d, h, mi)) => naive_datetime_of(s@, fmt@) == Some((y as int, mo as int, d as int, h as int, mi as int))
                && 1 <= mo <= 12 && 1 <= d <= 31 && h <= 23 && mi <= 59,
            Err(_) => naive_datetime_of(s@, fmt@) is None,
        },
{
    chrono::NaiveDateTime::parse_from_str(s, fmt).map(|t| (t.year(), t.month(), t.day(), t.hour(), t.minute()))
}

/// Relies on `chrono::NaiveDate::parse_and_remainder` and the accessors of
/// the date: month and day in range; what follows the date is ignored.
#[verifier::external_body]
fn parse_naive_date_prefix(s: &str, fmt: &str) -> (r: Result<(i32, u32, u32), chrono::ParseError>)
    ensures
        match r {
            Ok((y, mo, d)) => naive_date_prefix_of(s@, fmt@) == Some((y as int, mo as int, d as int))
                && 1 <= mo <= 12 && 1 <= d <= 31,
            Err(_) => naive_date_prefix_of(s@, fmt@) is None,
        },
{
    chrono::NaiveDate::parse_and_remainder(s, fmt).map(|(d, _)| (d.year(), d.month(), d.day()))
}

/// Relies on `chrono_tz::Europe::Berlin.from_local_datetime(..).earliest()`
/// (the local time built with `NaiveDate::from_ymd_opt` and `and_hms_opt`):
/// the earliest instant for the local time, its Unix timestamp and its UTC
/// offset, which a `FixedOffset` keeps strictly within one day.
#[verifier::external_body]
fn berlin_instant(year: i32, month: u32, day: u32, hour: u32, minute: u32) -> (r: Option<(i64, i32)>)
    ensures
        match r {
            Some((ts, off)) => berlin_instant_of(year as int, month as int, day as int, hour as int, minute as int)
                == Some((ts as int, off as int)) && -86400 < off < 86400,
            None => berlin_instant_of(year as int, month as int, day as int, hour as int, minute as int) is None,
        },
{
    chrono::NaiveDate::from_ymd_opt(year, month, day)
        .and_then(|date| date.and_hms_opt(hour, minute, 0))
        .and_then(|t| chrono_tz::Europe::Berlin.from_local_datetime(&t).earliest())
        .map(|t| (t.timestamp(), t.offset().fix().local_minus_utc()))
}

/// A value that has the right shape but cannot be read as a date or a
/// number.
pub enum FormattingError {
    /// The text is not a timestamp of the expected form.
    ParseError(chrono::ParseError),
    /// The local time does not exist in Europe/Berlin.
    InvalidDate(String),
    /// The year cannot be written with four digits.
    YearOutOfRange(String),
    /// The text is not a number.
    InvalidNumber(String),
}

pub enum FormattingErrorView {
    ParseError,
    InvalidDate(Seq<char>),
    YearOutOfRange(Seq<char>),
    InvalidNumber(Seq<char>),
}

impl View for FormattingError {
    type V = FormattingErrorView;

    open spec fn view(&self) -> FormattingErrorView {
        match self {
            FormattingError::ParseError(_) => FormattingErrorView::ParseError,
            FormattingError::InvalidDate(s) => FormattingErrorView::InvalidDate(s@),
            FormattingError::YearOutOfRange(s) => FormattingErrorView::YearOutOfRange(s@),
            FormattingError::InvalidNumber(s) => FormattingErrorView::InvalidNumber(s@),
        }
    }
}

/// A FHIR `dateTime` with its UTC offset, and the instant it stands for.
#[derive(Clone)]
pub struct FhirDateTime {
    /// The text, such as `2009-03-30T10:36:00+02:00`.
    pub text: String,
    /// Seconds since the Unix epoch.
    pub timestamp: i64,
}

impl View for FhirDateTime {
    type V = (Seq<char>, int);

    open spec fn view(&self) -> (Seq<char>, int) {
        (self.text@, self.timestamp as int)
    }
}

/// `YYYY-MM-DD`.
pub open spec fn date_text(y: int, m: int, d: int) -> Seq<char> {
    four_digits(y) + seq!['-'] + two_digits(m) + seq!['-'] + two_digits(d)
}

/// `+hh:mm` or `-hh:mm` for an offset in seconds.
pub open spec fn offset_text(off: int) -> Seq<char> {
    let minutes = if off < 0 { -off / 60 } else { off / 60 };
    seq![if off < 0 { '-' } else { '+' }] + two_digits(minutes / 60) + seq![':'] + two_digits(minutes % 60)
}

/// `YYYY-MM-DDThh:mm:00` followed by the offset.
pub open spec fn datetime_text(y: int, mo: int, d: int, h: int, mi: int, off: int) -> Seq<char> {
    date_text(y, mo, d) + seq!['T'] + two_digits(h) + seq![':'] + two_digits(mi) + seq![':', '0', '0'] + offset_text(off)
}

/// What `parse_date` gives for `s`.
pub open spec fn date_of(s: Seq<char>) -> Result<Seq<char>, FormattingErrorView> {
    match naive_date_prefix_of(s, "%Y%m%d"@) {
        None => Err(FormattingErrorView::ParseError),
        Some((y, m, d)) => if 0 <= y <= 9999 {
            Ok(date_text(y, m, d))
        } else {
            Err(FormattingErrorView::YearOutOfRange(s))
        },
    }
}

/// The instant that a Berlin wall time stands for, as `(hour shown on the
/// wall at that instant, Unix timestamp, UTC offset in seconds)`. A time that
/// occurs twice is taken at its earliest instant. A time that the clock
/// skips when it is put forward one hour is taken one hour later on the
/// wall, which is the instant the skipped time names under the offset
/// before the change.
pub open spec fn local_instant_of(y: int, mo: int, d: int, h: int, mi: int) -> Option<(int, int, int)> {
    match berlin_instant_of(y, mo, d, h, mi) {
        Some((ts, off)) => Some((h, ts, off)),
        None => if h < 23 {
            match berlin_instant_of(y, mo, d, h + 1, mi) {
                Some((ts, off)) => Some((h + 1, ts, off)),
                None => None,
            }
        } else {
            None
        },
    }
}

/// What `parse_datetime` gives for `s`: the text and the instant. An offset
/// that is not a whole number of minutes cannot be written in FHIR and makes
/// the value invalid.
pub open spec fn datetime_of(s: Seq<char>) -> Result<(Seq<char>, int), FormattingErrorView> {
    match naive_datetime_of(s, "%Y%m%d%H%M"@) {
        None => Err(FormattingErrorView::ParseError),
        Some((y, mo, d, h, mi)) => if !(0 <= y <= 9999) {
            Err(FormattingErrorView::YearOutOfRange(s))
        } else {
            match local_instant_of(y, mo, d, h, mi) {
                None => Err(FormattingErrorView::InvalidDate(s)),
                Some((shown, ts, off)) => if off % 60 != 0 {
                    Err(FormattingErrorView::InvalidDate(s))
                } else {
                    Ok((datetime_text(y, mo, d, shown, mi, off), ts))
                },
            }
        },
    }
}

fn digit_str(d: u32) -> (r: &'static str)
    requires
        d <= 9,
    ensures
        r@ == seq![digit_char(d as int)],
{
    proof {
        reveal_strlit("0");
        reveal_strlit("1");
        reveal_strlit("2");
        reveal_strlit("3");
        reveal_strlit("4");
        reveal_strlit("5");
        reveal_strlit("6");
        reveal_strlit("7");
        reveal_strlit("8");
        reveal_strlit("9");
    }
    if d == 0 {
        "0"
    } else if d == 1 {
        "1"
    } else if d == 2 {
        "2"
    } else if d == 3 {
        "3"
    } else if d == 4 {
        "4"
    } else if d == 5 {
        "5"
    } else if d == 6 {
        "6"
    } else if d == 7 {
        "7"
    } else if d == 8 {
        "8"
    } else {
        "9"
    }
}

fn push_str(out: &mut String, s: &str)
    ensures
        final(out)@ == old(out)@ + s@,
{
    out.append(s);
}

fn push_two_digits(out: &mut String, n: u32)
    requires
        n < 100,
    ensures
        final(out)@ == old(out)@ + two_digits(n as int),
{
    push_str(out, digit_str(n / 10));
    push_str(out, digit_str(n % 10));
    assert(final(out)@ =~= old(out)@ + two_digits(n as int));
}

fn push_date(out: &mut String, y: u32, m: u32, d: u32)
    requires
        y <= 9999,
        m < 100,
        d < 100,
    ensures
        final(out)@ == old(out)@ + date_text(y as int, m as int, d as int),
{
    proof {
        reveal_strlit("-");
    }
    push_two_digits(out, y / 100);
    push_two_digits(out, y % 100);
    push_str(out, "-");
    push_two_digits(out, m);
    push_str(out, "-");
    push_two_digits(out, d);
    assert(final(out)@ =~= old(out)@ + date_text(y as int, m as int, d as int));
}

/// Reads an HL7 date (`YYYYMMDD`; a time after it is ignored) as a FHIR
/// `date`, such as `1948-02-03`.
pub fn parse_date(input: &str) -> (r: Result<String, FormattingError>)
    ensures
        match date_of(input@) {
            Ok(t) => r is Ok && r->Ok_0@ == t,
            Err(e) => r is Err && r->Err_0@ == e,
        },
{
    match parse_naive_date_prefix(input, "%Y%m%d") {
        Err(e) => Err(FormattingError::ParseError(e)),
        Ok((y, m, d)) => {
            if y < 0 || y > 9999 {
                return Err(FormattingError::YearOutOfRange(input.to_string()));
            }
            let mut out = String::new();
            push_date(&mut out, y as u32, m, d);
            assert(out@ =~= date_text(y as int, m as int, d as int));
            Ok(out)
        },
    }
}

/// Reads an HL7 timestamp `YYYYMMDDHHmm`, local time in Europe/Berlin, as a
/// FHIR `dateTime` with its offset, such as `2009-03-30T10:36:00+02:00`.
/// A local time that occurs twice is taken at its earliest instant; one that
/// the clock skips is taken one hour later on the wall, the instant it names
/// under the offset before the change.
pub fn parse_datetime(input: &str) -> (r: Result<FhirDateTime, FormattingError>)
    ensures
        match datetime_of(input@) {
            Ok(v) => r is Ok && r->Ok_0@ == v,
            Err(e) => r is Err && r->Err_0@ == e,
        },
{
    match parse_naive_datetime(input, "%Y%m%d%H%M") {
        Err(e) => Err(FormattingError::ParseError(e)),
        Ok((y, mo, d, h, mi)) => {
            if y < 0 || y > 9999 {
                return Err(FormattingError::YearOutOfRange(input.to_string()));
            }
            let (shown, ts, off) = match berlin_instant(y, mo, d, h, mi) {
                Some((ts, off)) => (h, ts, off),
                None => {
                    if h >= 23 {
                        return Err(FormattingError::InvalidDate(input.to_string()));
                    }
                    match berlin_instant(y, mo, d, h + 1, mi) {
                        Some((ts, off)) => (h + 1, ts, off),
                        None => {
                            return Err(FormattingError::InvalidDate(input.to_string()));
                        },
                    }
                },
            };
            if off % 60 != 0 {
                return Err(FormattingError::InvalidDate(input.to_string()));
            }
            Ok(FhirDateTime { text: datetime_string(y as u32, mo, d, shown, mi, off), timestamp: ts })
        },
    }
}

fn datetime_string(y: u32, mo: u32, d: u32, h: u32, mi: u32, off: i32) -> (r: String)
    requires
        y <= 9999,
        mo < 100,
        d < 100,
        h < 100,
        mi < 100,
        -86400 < off < 86400,
    ensures
        r@ == datetime_text(y as int, mo as int, d as int, h as int, mi as int, off as int),
{
    proof {
        reveal_strlit("T");
        reveal_strlit(":");
        reveal_strlit(":00");
        reveal_strlit("+");
        reveal_strlit("-");
    }
    let mut out = String::new();
    push_date(&mut out, y, mo, d);
    push_str(&mut out, "T");
    push_two_digits(&mut out, h);
    push_str(&mut out, ":");
    push_two_digits(&mut out, mi);
    push_str(&mut out, ":00");
    let minutes: u32 = if off < 0 {
        push_str(&mut out, "-");
        ((-off) / 60) as u32
    } else {
        push_str(&mut out, "+");
        (off / 60) as u32
    };
    push_two_digits(&mut out, minutes / 60);
    push_str(&mut out, ":");
    push_two_digits(&mut out, minutes % 60);
    assert(out@ =~= datetime_text(y as int, mo as int, d as int, h as int, mi as int, off as int));
    out
}

} // verus!
