//! Calendar dates as plain values.
//!
//! The wire format carries dates as `YYYY-MM-DD` strings; the store holds
//! them as year/month/day triples. Parsing and rendering are delegated to
//! `chrono`, behind the two trusted wrappers at the bottom of this file.

use chrono::Datelike;
use vstd::prelude::*;

verus! {

/// A calendar date, the library's plain-value form of `chrono::NaiveDate`.
/// Its view is the `(year, month, day)` triple.
#[derive(Clone, Copy, PartialEq, Eq, Structural, Debug)]
pub struct Date {
    pub year: i32,
    pub month: u8,
    pub day: u8,
}

impl View for Date {
    type V = (int, int, int);

    open spec fn view(&self) -> (int, int, int) {
        (self.year as int, self.month as int, self.day as int)
    }
}

impl DeepView for Date {
    type V = (int, int, int);

    open spec fn deep_view(&self) -> (int, int, int) {
        self.view()
    }
}

/// Smallest year a `chrono::NaiveDate` can hold.
pub const MIN_DATE_YEAR: i32 = -262143;

/// Largest year a `chrono::NaiveDate` can hold.
pub const MAX_DATE_YEAR: i32 = 262142;

pub open spec fn is_leap_year(y: int) -> bool {
    (y % 4 == 0 && y % 100 != 0) || y % 400 == 0
}

pub open spec fn days_in_month(y: int, m: int) -> int {
    if m == 1 || m == 3 || m == 5 || m == 7 || m == 8 || m == 10 || m == 12 {
        31
    } else if m == 4 || m == 6 || m == 9 || m == 11 {
        30
    } else if is_leap_year(y) {
        29
    } else {
        28
    }
}

/// A real proleptic-Gregorian date within `chrono::NaiveDate`'s range.
pub open spec fn valid_date(d: (int, int, int)) -> bool {
    &&& MIN_DATE_YEAR as int <= d.0 <= MAX_DATE_YEAR as int
    &&& 1 <= d.1 <= 12
    &&& 1 <= d.2 <= days_in_month(d.0, d.1)
}

/// The date that `str::parse::<chrono::NaiveDate>` reads from a string
/// (format `%Y-%m-%d`), if any. A function of the string alone.
pub uninterp spec fn date_of(s: Seq<char>) -> Option<(int, int, int)>;

/// The `%Y-%m-%d` rendering that `chrono::NaiveDate`'s `Display` gives a
/// date. A function of the date alone.
pub uninterp spec fn date_text(d: (int, int, int)) -> Seq<char>;

/// Relies on `str::parse::<chrono::NaiveDate>`: it parses the `%Y-%m-%d`
/// format, depends on the characters alone, and every date it returns is a
/// real calendar date within `NaiveDate`'s year range.
#[verifier::external_body]
pub fn parse_date(s: &String) -> (r: Option<Date>)
    ensures
        r.deep_view() == date_of(s@),
        r matches Some(d) ==> valid_date(d@),
{
    match s.parse::<chrono::NaiveDate>() {
        Ok(d) => Some(Date { year: d.year(), month: d.month() as u8, day: d.day() as u8 }),
        Err(_) => None,
    }
}

/// Relies on `chrono::NaiveDate::from_ymd_opt`, which returns `Some` for
/// every valid calendar date in range, and on `NaiveDate`'s `Display`
/// (`%Y-%m-%d`), whose output depends on the date alone.
#[verifier::external_body]
pub fn format_date(d: &Date) -> (r: String)
    requires
        valid_date(d@),
    ensures
        r@ == date_text(d@),
{
    let nd = chrono::NaiveDate::from_ymd_opt(d.year, d.month as u32, d.day as u32).unwrap();
    nd.to_string()
}

} // verus!
