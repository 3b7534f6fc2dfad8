//! Calendar time for the names of saved states: seconds since the epoch are
//! taken apart into a Gregorian date and a time of day in UTC, and written
//! as `YYYY-MM-DD  HH:MM`.

use vstd::prelude::*;
use vstd::string::*;

verus! {

/// Seconds in a day.
pub const DAY_SECONDS: u64 = 86400;

/// The first year of the epoch.
pub const EPOCH_YEAR: u64 = 1970;

/// Gregorian leap years: every fourth year, but of the centuries only
/// every fourth.
pub open spec fn is_leap(year: int) -> bool {
    year % 4 == 0 && (year % 100 != 0 || year % 400 == 0)
}

/// The number of days of a year.
pub open spec fn year_days(year: int) -> int {
    if is_leap(year) {
        366
    } else {
        365
    }
}

/// The number of days of a month (1 to 12) in a year.
pub open spec fn month_days(year: int, month: int) -> int {
    if month == 2 {
        if is_leap(year) {
            29
        } else {
            28
        }
    } else if month == 4 || month == 6 || month == 9 || month == 11 {
        30
    } else {
        31
    }
}

/// The days from the epoch to the first day of `year`.
pub open spec fn days_before_year(year: int) -> int
    decreases year,
{
    if year <= 1970 {
        0
    } else {
        days_before_year(year - 1) + year_days(year - 1)
    }
}

/// The days from the first of January to the first day of `month`.
pub open spec fn days_before_month(year: int, month: int) -> int
    decreases month,
{
    if month <= 1 {
        0
    } else {
        days_before_month(year, month - 1) + month_days(year, month - 1)
    }
}

/// A date and a time of day, to the minute.
#[derive(Clone, Copy, Debug, PartialEq, Eq)]
pub struct CivilTime {
    pub year: u64,
    pub month: u64,
    pub day: u64,
    pub hour: u64,
    pub minute: u64,
}

impl CivilTime {
    /// The fields name a day of the calendar and a minute of the day.
    pub open spec fn valid(&self) -> bool {
        &&& self.year >= 1970
        &&& 1 <= self.month <= 12
        &&& 1 <= self.day <= month_days(self.year as int, self.month as int)
        &&& self.hour < 24
        &&& self.minute < 60
    }

    /// The whole days from the epoch to this date.
    pub open spec fn day_number(&self) -> int {
        days_before_year(self.year as int) + days_before_month(
            self.year as int,
            self.month as int,
        ) + (self.day - 1)
    }

    /// This is the date and time of day at `secs` seconds after the epoch.
    pub open spec fn is_time_of(&self, secs: int) -> bool {
        &&& self.valid()
        &&& self.day_number() == secs / 86400
        &&& self.hour == (secs / 3600) % 24
        &&& self.minute == (secs / 60) % 60
    }
}

/// The character of a decimal digit.
pub open spec fn digit_char(d: int) -> char {
    if d == 0 {
        '0'
    } else if d == 1 {
        '1'
    } else if d == 2 {
        '2'
    } else if d == 3 {
        '3'
    } else if d == 4 {
        '4'
    } else if d == 5 {
        '5'
    } else if d == 6 {
        '6'
    } else if d == 7 {
        '7'
    } else if d == 8 {
        '8'
    } else {
        '9'
    }
}

/// A number in decimal, without leading zeros.
pub open spec fn decimal(n: nat) -> Seq<char>
    decreases n,
{
    if n < 10 {
        seq![digit_char(n as int)]
    } else {
        decimal(n / 10).push(digit_char((n % 10) as int))
    }
}

/// A number in decimal, with a leading zero below ten.
pub open spec fn two_digits(n: nat) -> Seq<char> {
    if n < 10 {
        seq!['0'] + decimal(n)
    } else {
        decimal(n)
    }
}

/// The written form of a date and time: year, month and day with hyphens,
/// two spaces, hour and minute with a colon.
pub open spec fn civil_text(c: CivilTime) -> Seq<char> {
    decimal(c.year as nat) + seq!['-'] + two_digits(c.month as nat) + seq!['-'] + two_digits(
        c.day as nat,
    ) + seq![' ', ' '] + two_digits(c.hour as nat) + seq![':'] + two_digits(c.minute as nat)
}

/// What stands in place of a time when the clock reads before the epoch.
pub open spec fn no_time_text() -> Seq<char> {
    seq!['\u{2014}']
}

/// Is `year` a leap year?
pub fn leap_year(year: u64) -> (r: bool)
    ensures
        r == is_leap(year as int),
{
    year % 4 == 0 && (year % 100 != 0 || year % 400 == 0)
}

/// The number of days of `month` in `year`.
pub fn days_in_month(year: u64, month: u64) -> (r: u64)
    ensures
        r == month_days(year as int, month as int),
{
    if month == 2 {
        if leap_year(year) {
            29
        } else {
            28
        }
    } else if month == 4 || month == 6 || month == 9 || month == 11 {
        30
    } else {
        31
    }
}

/// A year's days from January to December add up to the year.
pub proof fn lemma_year_is_twelve_months(year: int)
    ensures
        days_before_month(year, 12) + 31 == year_days(year),
{
    reveal_with_fuel(days_before_month, 13);
}

/// The date and time of day at `secs` seconds after the epoch: years of 365
/// or 366 days are taken off one by one, then the months of the last year.
pub fn civil_from_seconds(secs: u64) -> (c: CivilTime)
    ensures
        c.is_time_of(secs as int),
{
    let minute: u64 = (secs / 60) % 60;
    let hour: u64 = (secs / 3600) % 24;
    let total: u64 = secs / DAY_SECONDS;
    let mut days: u64 = total;
    let mut year: u64 = EPOCH_YEAR;
    loop
        invariant
            year >= 1970,
            days <= total,
            days_before_year(year as int) + days == total,
            (year - 1970) * 365 <= total - days,
        ensures
            days < year_days(year as int),
        decreases days,
    {
        let len: u64 = if leap_year(year) {
            366
        } else {
            365
        };
        if days < len {
            break ;
        }
        days = days - len;
        year = year + 1;
    }
    let mut month: u64 = 1;
    let mut day: u64 = days + 1;
    proof {
        lemma_year_is_twelve_months(year as int);
    }
    while month < 12 && day > days_in_month(year, month)
        invariant
            1 <= month <= 12,
            day >= 1,
            days_before_month(year as int, month as int) + day - 1 == days,
            days < year_days(year as int),
            days_before_month(year as int, 12) + 31 == year_days(year as int),
        decreases 12 - month,
    {
        day = day - days_in_month(year, month);
        month = month + 1;
    }
    CivilTime { year, month, day, hour, minute }
}

/// The text of one decimal digit.
fn digit_text(d: u64) -> (s: &'static str)
    requires
        d < 10,
    ensures
        s@ == seq![digit_char(d as int)],
{
    proof {
        reveal_strlit("0");
        reveal_strlit("1");
        reveal_strlit("2");
        reveal_strlit("3");
        reveal_strlit("4");
        reveal_strlit("5");
        reveal_strlit("6");
        reveal_strlit("7");
        reveal_strlit("8");
        reveal_strlit("9");
    }
    let s = if d == 0 {
        "0"
    } else if d == 1 {
        "1"
    } else if d == 2 {
        "2"
    } else if d == 3 {
        "3"
    } else if d == 4 {
        "4"
    } else if d == 5 {
        "5"
    } else if d == 6 {
        "6"
    } else if d == 7 {
        "7"
    } else if d == 8 {
        "8"
    } else {
        "9"
    };
    assert(s@ =~= seq![digit_char(d as int)]);
    s
}

/// Writes `n` in decimal at the end of `out`.
pub fn push_decimal(out: &mut String, n: u64)
    ensures
        final(out)@ == old(out)@ + decimal(n as nat),
    decreases n,
{
    if n >= 10 {
        push_decimal(out, n / 10);
    }
    out.append(digit_text(n % 10));
    proof {
        if n >= 10 {
            assert(old(out)@ + decimal((n / 10) as nat) + seq![digit_char((n % 10) as int)]
                =~= old(out)@ + decimal(n as nat));
        }
    }
}

/// Writes `n` in decimal at the end of `out`, in at least two digits.
pub fn push_two_digits(out: &mut String, n: u64)
    ensures
        final(out)@ == old(out)@ + two_digits(n as nat),
{
    if n < 10 {
        proof {
            reveal_strlit("0");
        }
        out.append("0");
        assert("0"@ =~= seq!['0']);
    }
    push_decimal(out, n);
    proof {
        if n < 10 {
            assert(old(out)@ + seq!['0'] + decimal(n as nat) =~= old(out)@ + two_digits(n as nat));
        }
    }
}

/// The written form of a date and time.
pub fn format_civil(c: &CivilTime) -> (s: String)
    ensures
        s@ == civil_text(*c),
{
    proof {
        reveal_strlit("-");
        reveal_strlit("  ");
        reveal_strlit(":");
    }
    let mut out = String::new();
    push_decimal(&mut out, c.year);
    out.append("-");
    push_two_digits(&mut out, c.month);
    out.append("-");
    push_two_digits(&mut out, c.day);
    out.append("  ");
    push_two_digits(&mut out, c.hour);
    out.append(":");
    push_two_digits(&mut out, c.minute);
    assert("-"@ =~= seq!['-']);
    assert("  "@ =~= seq![' ', ' ']);
    assert(":"@ =~= seq![':']);
    assert(out@ =~= civil_text(*c));
    out
}

/// The written form of the moment `secs` seconds after the epoch.
pub fn format_timestamp(secs: u64) -> (s: String)
    ensures
        exists|c: CivilTime| c.is_time_of(secs as int) && s@ == civil_text(c),
{
    let c = civil_from_seconds(secs);
    format_civil(&c)
}

/// The system clock, in whole seconds since the epoch; nothing where it
/// reads before the epoch. Calls `std::time::SystemTime::now` and
/// `duration_since`. Nothing is claimed of the value.
#[verifier::external_body]
fn unix_seconds() -> (r: Option<u64>) {
    match std::time::SystemTime::now().duration_since(std::time::UNIX_EPOCH) {
        Ok(d) => Some(d.as_secs()),
        Err(_) => None,
    }
}

/// The written form of a clock reading: its date and time, or a dash where
/// there is no reading.
pub fn stamp_of(reading: Option<u64>) -> (s: String)
    ensures
        match reading {
            Some(secs) => exists|c: CivilTime| c.is_time_of(secs as int) && s@ == civil_text(c),
            None => s@ == no_time_text(),
        },
{
    match reading {
        Some(secs) => format_timestamp(secs),
        None => {
            proof {
                reveal_strlit("\u{2014}");
            }
            let s = "\u{2014}".to_owned();
            assert(s@ =~= no_time_text());
            s
        },
    }
}

/// The present moment in written form.
pub fn timestamp() -> (s: String)
    ensures
        s@ == no_time_text() || exists|secs: u64, c: CivilTime|
            c.is_time_of(secs as int) && s@ == civil_text(c),
{
    let reading = unix_seconds();
    let s = stamp_of(reading);
    proof {
        if let Some(secs) = reading {
            let c = choose|c: CivilTime| c.is_time_of(secs as int) && s@ == civil_text(c);
            assert(c.is_time_of(secs as int) && s@ == civil_text(c));
        }
    }
    s
}

} // verus!
