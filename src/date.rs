//! Calendar dates as plain values, with the compact `YYYYMMDD` encoding.
use vstd::prelude::*;

verus! {

/// A calendar date (proleptic Gregorian), held as year, month and day.
#[derive(Clone, Copy, Debug, PartialEq, Eq, Structural)]
pub struct Date {
    pub year: i32,
    pub month: u32,
    pub day: u32,
}

pub open spec fn is_leap_year(y: int) -> bool {
    (y % 4 == 0 && y % 100 != 0) || y % 400 == 0
}

pub open spec fn days_in_month(y: int, m: int) -> int {
    if m == 2 {
        if is_leap_year(y) {
            29
        } else {
            28
        }
    } else if m == 4 || m == 6 || m == 9 || m == 11 {
        30
    } else {
        31
    }
}

/// Month and day name an existing day of that year.
pub open spec fn is_calendar_date(y: int, m: int, d: int) -> bool {
    1 <= m <= 12 && 1 <= d <= days_in_month(y, m)
}

/// The smallest and largest years a `chrono::NaiveDate` can hold.
pub const MIN_YEAR: i32 = -262143;

pub const MAX_YEAR: i32 = 262142;

impl Date {
    pub open spec fn valid(self) -> bool {
        is_calendar_date(self.year as int, self.month as int, self.day as int)
    }

    /// A valid date whose year the calendar library can represent.
    pub open spec fn representable(self) -> bool {
        self.valid() && MIN_YEAR <= self.year <= MAX_YEAR
    }

    pub open spec fn fields(self) -> (int, int, int) {
        (self.year as int, self.month as int, self.day as int)
    }

    /// Strict chronological order.
    pub open spec fn before(self, other: Date) -> bool {
        self.year < other.year || (self.year == other.year && (self.month < other.month || (
        self.month == other.month && self.day < other.day)))
    }

    /// Whether the date exists and the calendar library can hold it.
    pub fn is_representable(&self) -> (r: bool)
        ensures
            r == self.representable(),
    {
        if self.month < 1 || self.month > 12 || self.day < 1 || self.year < MIN_YEAR || self.year
            > MAX_YEAR {
            return false;
        }
        let leap = (self.year % 4 == 0 && self.year % 100 != 0) || self.year % 400 == 0;
        let days: u32 = if self.month == 2 {
            if leap {
                29
            } else {
                28
            }
        } else if self.month == 4 || self.month == 6 || self.month == 9 || self.month == 11 {
            30
        } else {
            31
        };
        self.day <= days
    }

    /// `self` is strictly later than `other`.
    pub fn is_after(&self, other: &Date) -> (r: bool)
        ensures
            r == other.before(*self),
    {
        self.year > other.year || (self.year == other.year && (self.month > other.month || (
        self.month == other.month && self.day > other.day)))
    }
}

/// 1970-01-01, the watermark of a channel with nothing stored.
pub open spec fn epoch_floor() -> Date {
    Date { year: 1970, month: 1, day: 1 }
}

pub fn epoch() -> (r: Date)
    ensures
        r == epoch_floor(),
        r.representable(),
{
    Date { year: 1970, month: 1, day: 1 }
}

pub open spec fn is_digit(c: char) -> bool {
    '0' <= c <= '9'
}

pub open spec fn digit_value(c: char) -> int {
    c as int - '0' as int
}

/// Exactly eight ASCII digits.
pub open spec fn is_compact(s: Seq<char>) -> bool {
    s.len() == 8 && forall|i: int| 0 <= i < 8 ==> is_digit(#[trigger] s[i])
}

/// Year, month and day read from the digit groups `YYYY`, `MM`, `DD`.
pub open spec fn compact_fields(s: Seq<char>) -> (int, int, int) {
    (
        digit_value(s[0]) * 1000 + digit_value(s[1]) * 100 + digit_value(s[2]) * 10 + digit_value(
            s[3],
        ),
        digit_value(s[4]) * 10 + digit_value(s[5]),
        digit_value(s[6]) * 10 + digit_value(s[7]),
    )
}

/// What a compact string denotes: the date, when the digit groups name one.
pub open spec fn compact_date(s: Seq<char>) -> Option<(int, int, int)> {
    let (y, m, d) = compact_fields(s);
    if is_calendar_date(y, m, d) {
        Some((y, m, d))
    } else {
        None
    }
}

/// What `NaiveDate::parse_from_str(s, "%Y%m%d")` yields, as year, month, day.
pub uninterp spec fn ymd_parsed(s: Seq<char>) -> Option<(int, int, int)>;

/// What `NaiveDate::format("%Y%m%d")` writes for a date.
pub uninterp spec fn ymd_formatted(y: int, m: int, d: int) -> Seq<char>;

/// Relies on chrono's `NaiveDate::parse_from_str` with the format `%Y%m%d`:
/// the numeric items take at most four, two and two digits, month and day
/// are range-checked, the whole input must be consumed, and the date is
/// built with `from_ymd_opt`, so only existing dates come back.
#[verifier::external_body]
fn chrono_parse_ymd(s: &str) -> (r: Option<Date>)
    ensures
        match r {
            Some(d) => ymd_parsed(s@) == Some(d.fields()) && d.representable(),
            None => ymd_parsed(s@) is None,
        },
        is_compact(s@) ==> (match r {
            Some(d) => compact_date(s@) == Some(d.fields()),
            None => compact_date(s@) is None,
        }),
{
    match chrono::NaiveDate::parse_from_str(s, "%Y%m%d") {
        Ok(d) => Some(
            Date {
                year: chrono::Datelike::year(&d),
                month: chrono::Datelike::month(&d),
                day: chrono::Datelike::day(&d),
            },
        ),
        Err(_) => None,
    }
}

/// Relies on chrono's `NaiveDate::from_ymd_opt` (which accepts every
/// representable date) and `format("%Y%m%d")`, which writes years 0 to 9999
/// as four zero-padded digits, then month and day as two each.
#[verifier::external_body]
fn chrono_format_ymd(d: &Date) -> (r: String)
    requires
        d.representable(),
    ensures
        r@ == ymd_formatted(d.year as int, d.month as int, d.day as int),
        0 <= d.year <= 9999 ==> is_compact(r@) && compact_fields(r@) == d.fields(),
{
    let nd = chrono::NaiveDate::from_ymd_opt(d.year, d.month, d.day).unwrap();
    nd.format("%Y%m%d").to_string()
}

/// Reads a publish date in the compact `YYYYMMDD` encoding. `None` marks a
/// string that does not denote an existing calendar date.
pub fn yt_date_to_date(s: &str) -> (r: Option<Date>)
    ensures
        match r {
            Some(d) => ymd_parsed(s@) == Some(d.fields()) && d.representable(),
            None => ymd_parsed(s@) is None,
        },
        is_compact(s@) ==> (match r {
            Some(d) => compact_date(s@) == Some(d.fields()),
            None => compact_date(s@) is None,
        }),
{
    chrono_parse_ymd(s)
}

/// Writes a date in the compact `YYYYMMDD` encoding.
pub fn date_to_yt_date(d: &Date) -> (r: String)
    requires
        d.representable(),
    ensures
        r@ == ymd_formatted(d.year as int, d.month as int, d.day as int),
        0 <= d.year <= 9999 ==> is_compact(r@) && compact_fields(r@) == d.fields(),
{
    chrono_format_ymd(d)
}

} // verus!
