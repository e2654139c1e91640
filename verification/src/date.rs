//! Calendar dates and timestamps as plain values.
//!
//! A date is its year, month and day; the day-of-year and the patient age
//! are computed from those, and the text forms are zero-padded
//! `dd.mm.yyyy` (with `hh:mm` appended for a timestamp).

use vstd::prelude::*;
use vstd::string::StringExecFns;

use crate::num::{dec_digits_pad, dec_digits_pad_exec};

verus! {

/// A calendar date as plain values.
#[derive(Clone, Copy, Debug, PartialEq, Eq, Structural)]
pub struct PlainDate {
    pub year: i32,
    pub month: u8,
    pub day: u8,
}

/// A Gregorian leap year.
pub open spec fn is_leap_year(y: int) -> bool {
    (y % 4 == 0 && y % 100 != 0) || y % 400 == 0
}

/// The number of days of month `m` (1-based) of year `y`.
pub open spec fn days_in_month(y: int, m: int) -> int {
    if m == 2 {
        if is_leap_year(y) {
            29
        } else {
            28
        }
    } else if m == 4 || m == 6 || m == 9 || m == 11 {
        30
    } else {
        31
    }
}

/// The number of days of year `y` that lie before month `m`.
pub open spec fn month_days_before(y: int, m: int) -> int
    decreases m,
{
    if m <= 1 {
        0
    } else {
        month_days_before(y, m - 1) + days_in_month(y, m - 1)
    }
}

impl PlainDate {
    /// A real calendar date with a four-digit year.
    pub open spec fn wf(self) -> bool {
        0 <= self.year <= 9999 && 1 <= self.month <= 12 && 1 <= self.day
            <= days_in_month(self.year as int, self.month as int)
    }

    /// The 1-based day of the year.
    pub open spec fn spec_ordinal(self) -> int {
        month_days_before(self.year as int, self.month as int) + self.day
    }

    /// The zero-padded text `dd.mm.yyyy`.
    pub open spec fn spec_format(self) -> Seq<char> {
        dec_digits_pad(self.day as nat, 2) + "."@ + dec_digits_pad(self.month as nat, 2) + "."@
            + dec_digits_pad(self.year as nat, 4)
    }
}

fn is_leap_year_exec(y: i32) -> (b: bool)
    requires
        y >= 0,
    ensures
        b == is_leap_year(y as int),
{
    (y % 4 == 0 && y % 100 != 0) || y % 400 == 0
}

fn days_in_month_exec(y: i32, m: u8) -> (d: u8)
    requires
        y >= 0,
    ensures
        d == days_in_month(y as int, m as int),
{
    if m == 2 {
        if is_leap_year_exec(y) {
            29
        } else {
            28
        }
    } else if m == 4 || m == 6 || m == 9 || m == 11 {
        30
    } else {
        31
    }
}

fn month_days_before_exec(y: i32, m: u8) -> (r: u32)
    requires
        y >= 0,
        m <= 12,
    ensures
        r == month_days_before(y as int, m as int),
        r <= 31 * (if m >= 1 { m as int - 1 } else { 0int }),
    decreases m,
{
    if m <= 1 {
        0
    } else {
        let sub: u32 = month_days_before_exec(y, m - 1);
        let dim: u8 = days_in_month_exec(y, m - 1);
        sub + dim as u32
    }
}

/// Whether year, month and day form a real calendar date with a
/// four-digit year.
pub fn valid_date(year: i32, month: u8, day: u8) -> (b: bool)
    ensures
        b == (PlainDate { year, month, day }).wf(),
{
    if 0 <= year && year <= 9999 && 1 <= month && month <= 12 && 1 <= day {
        day <= days_in_month_exec(year, month)
    } else {
        false
    }
}

impl PlainDate {
    /// The 1-based day of the year.
    pub fn ordinal(&self) -> (r: u32)
        requires
            self.wf(),
        ensures
            r == self.spec_ordinal(),
    {
        let before: u32 = month_days_before_exec(self.year, self.month);
        before + self.day as u32
    }

    /// Renders the date as zero-padded `dd.mm.yyyy`.
    pub fn format(&self) -> (s: String)
        requires
            self.wf(),
        ensures
            s@ == self.spec_format(),
    {
        let mut s: String = dec_digits_pad_exec(self.day as u128, 2);
        s.append(".");
        let m: String = dec_digits_pad_exec(self.month as u128, 2);
        s.append(m.as_str());
        s.append(".");
        let y: String = dec_digits_pad_exec(self.year as u128, 4);
        s.append(y.as_str());
        proof {
            assert(s@ =~= self.spec_format());
        }
        s
    }
}

/// The number of whole years lived from `birthday` to `today`: the year
/// difference, less one when today's day-of-year is still before the
/// birthday's.
pub open spec fn spec_age(birthday: PlainDate, today: PlainDate) -> int {
    today.year - birthday.year - if today.spec_ordinal() < birthday.spec_ordinal() {
        1int
    } else {
        0int
    }
}

/// Computes the age in whole years by the year and day-of-year
/// comparison.
pub fn calc_age(birthday: &PlainDate, today: &PlainDate) -> (r: i32)
    requires
        birthday.wf(),
        today.wf(),
    ensures
        r == spec_age(*birthday, *today),
{
    let mut age: i32 = today.year - birthday.year;
    if today.ordinal() < birthday.ordinal() {
        age = age - 1;
    }
    age
}

/// A date with a time of day, as plain values.
#[derive(Clone, Copy, Debug, PartialEq, Eq, Structural)]
pub struct PlainDateTime {
    pub date: PlainDate,
    pub hour: u8,
    pub minute: u8,
}

impl PlainDateTime {
    pub open spec fn wf(self) -> bool {
        self.date.wf() && self.hour <= 23 && self.minute <= 59
    }

    /// The zero-padded text `dd.mm.yyyy hh:mm`.
    pub open spec fn spec_format(self) -> Seq<char> {
        self.date.spec_format() + " "@ + dec_digits_pad(self.hour as nat, 2) + ":"@
            + dec_digits_pad(self.minute as nat, 2)
    }

    /// Renders the timestamp as zero-padded `dd.mm.yyyy hh:mm`.
    pub fn format(&self) -> (s: String)
        requires
            self.wf(),
        ensures
            s@ == self.spec_format(),
    {
        let mut s: String = self.date.format();
        s.append(" ");
        let h: String = dec_digits_pad_exec(self.hour as u128, 2);
        s.append(h.as_str());
        s.append(":");
        let m: String = dec_digits_pad_exec(self.minute as u128, 2);
        s.append(m.as_str());
        proof {
            assert(s@ =~= self.spec_format());
        }
        s
    }
}

} // verus!
