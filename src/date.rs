use vstd::prelude::*;

use chrono::Datelike;

verus! {

pub open spec fn is_leap_year(y: int) -> bool {
    (y % 4 == 0 && y % 100 != 0) || y % 400 == 0
}

pub open spec fn days_in_month(y: int, m: int) -> int {
    if m == 2 {
        if is_leap_year(y) {
            29
        } else {
            28
        }
    } else if m == 4 || m == 6 || m == 9 || m == 11 {
        30
    } else {
        31
    }
}

/// `(y, m, d)` names a day of the proleptic Gregorian calendar.
pub open spec fn valid_date(y: int, m: int, d: int) -> bool {
    1 <= m <= 12 && 1 <= d <= days_in_month(y, m)
}

/// A calendar day that the `YYYY-MM-DD` text form can write: a year of four
/// digits at most.
pub open spec fn writable_date(y: int, m: int, d: int) -> bool {
    0 <= y <= 9999 && valid_date(y, m, d)
}

/// The decimal digit `n`, for `0 <= n <= 9`.
pub open spec fn digit(n: int) -> char {
    if n == 0 {
        '0'
    } else if n == 1 {
        '1'
    } else if n == 2 {
        '2'
    } else if n == 3 {
        '3'
    } else if n == 4 {
        '4'
    } else if n == 5 {
        '5'
    } else if n == 6 {
        '6'
    } else if n == 7 {
        '7'
    } else if n == 8 {
        '8'
    } else {
        '9'
    }
}

/// `YYYY-MM-DD`: year, month and day in decimal, zero-padded to 4, 2 and 2 digits.
pub open spec fn date_text(d: (int, int, int)) -> Seq<char> {
    let (y, m, dd) = d;
    seq![
        digit(y / 1000),
        digit((y / 100) % 10),
        digit((y / 10) % 10),
        digit(y % 10),
        '-',
        digit(m / 10),
        digit(m % 10),
        '-',
        digit(dd / 10),
        digit(dd % 10),
    ]
}

/// Relies on chrono's `NaiveDate::from_ymd_opt`, which accepts every valid
/// calendar day in this range, and on `format("%Y-%m-%d")`, which writes a
/// year of 0..=9999 as four digits and month and day as two, zero-padded.
#[verifier::external_body]
fn ymd_text(year: i32, month: u32, day: u32) -> (r: String)
    requires
        writable_date(year as int, month as int, day as int),
    ensures
        r@ == date_text((year as int, month as int, day as int)),
{
    match chrono::NaiveDate::from_ymd_opt(year, month, day) {
        Some(d) => d.format("%Y-%m-%d").to_string(),
        None => String::new(),
    }
}

/// What chrono's `NaiveDate::parse_from_str(s, "%Y-%m-%d")` gives for the text
/// `s`: year, month and day, or `None` where it refuses the text.
pub uninterp spec fn chrono_ymd(s: Seq<char>) -> Option<(i32, u32, u32)>;

/// Relies on chrono's `NaiveDate::parse_from_str` with `"%Y-%m-%d"`: its result
/// depends on the text alone; the `YYYY-MM-DD` text of a calendar day parses
/// to that day, and whatever parses is a valid calendar day.
#[verifier::external_body]
fn parse_ymd(s: &str) -> (r: Option<(i32, u32, u32)>)
    ensures
        r == chrono_ymd(s@),
        forall|y: i32, m: u32, d: u32|
            writable_date(y as int, m as int, d as int) && s@ == #[trigger] date_text(
                (y as int, m as int, d as int),
            ) ==> r == Some((y, m, d)),
        r matches Some(t) ==> valid_date(t.0 as int, t.1 as int, t.2 as int),
{
    match chrono::NaiveDate::parse_from_str(s, "%Y-%m-%d") {
        Ok(d) => Some((d.year(), d.month(), d.day())),
        Err(_) => None,
    }
}

/// A calendar day, year 0 to 9999.
#[derive(Debug, Clone, Copy, PartialEq, Eq, Structural)]
pub struct Date {
    year: i32,
    month: u32,
    day: u32,
}

impl View for Date {
    type V = (int, int, int);

    closed spec fn view(&self) -> (int, int, int) {
        (self.year as int, self.month as int, self.day as int)
    }
}

impl Date {
    #[verifier::type_invariant]
    spec fn inv(&self) -> bool {
        writable_date(self.year as int, self.month as int, self.day as int)
    }

    /// The date `year-month-day`, when that is a valid calendar day with a
    /// year of at most four digits.
    pub fn new(year: i32, month: u32, day: u32) -> (r: Option<Date>)
        ensures
            r is Some <==> writable_date(year as int, month as int, day as int),
            r is Some ==> r->0@ == (year as int, month as int, day as int),
    {
        if year < 0 || year > 9999 || month < 1 || month > 12 || day < 1 {
            return None;
        }
        let leap = (year % 4 == 0 && year % 100 != 0) || year % 400 == 0;
        let last: u32 = if month == 2 {
            if leap {
                29
            } else {
                28
            }
        } else if month == 4 || month == 6 || month == 9 || month == 11 {
            30
        } else {
            31
        };
        if day > last {
            None
        } else {
            Some(Date { year, month, day })
        }
    }

    pub fn year(&self) -> (r: i32)
        ensures
            r as int == self@.0,
    {
        self.year
    }

    pub fn month(&self) -> (r: u32)
        ensures
            r as int == self@.1,
    {
        self.month
    }

    pub fn day(&self) -> (r: u32)
        ensures
            r as int == self@.2,
    {
        self.day
    }

    /// The `YYYY-MM-DD` text of the date.
    pub fn to_text(&self) -> (r: String)
        ensures
            r@ == date_text(self@),
    {
        proof {
            use_type_invariant(self);
        }
        ymd_text(self.year, self.month, self.day)
    }

    /// The date that a parsed year, month and day name: `None` when nothing
    /// was parsed, or when the day is not a calendar day of year 0 to 9999.
    pub fn from_parsed(t: Option<(i32, u32, u32)>) -> (r: Option<Date>)
        ensures
            match t {
                Some((y, m, d)) => (r is Some <==> writable_date(y as int, m as int, d as int)) && (
                r is Some ==> r->0@ == (y as int, m as int, d as int)),
                None => r is None,
            },
    {
        match t {
            Some((y, m, d)) => Date::new(y, m, d),
            None => None,
        }
    }

    /// Reads a `YYYY-MM-DD` text through chrono: `None` exactly when chrono
    /// refuses the text or its year lies outside 0 to 9999. The text of every
    /// date reads back as that date.
    pub fn parse(s: &String) -> (r: Option<Date>)
        ensures
            match chrono_ymd(s@) {
                Some((y, m, d)) => (r is Some <==> writable_date(y as int, m as int, d as int)) && (
                r is Some ==> r->0@ == (y as int, m as int, d as int)),
                None => r is None,
            },
            forall|d: Date|
                writable_date(d@.0, d@.1, d@.2) && s@ == #[trigger] date_text(d@) ==> r == Some(d),
    {
        let t = parse_ymd(s.as_str());
        let r = Date::from_parsed(t);
        proof {
            assert forall|x: Date|
                writable_date(x@.0, x@.1, x@.2) && s@ == #[trigger] date_text(x@) implies r == Some(
                x,
            ) by {
                assert(date_text((x.year as int, x.month as int, x.day as int)) == s@);
            }
        }
        r
    }
}

} // verus!
