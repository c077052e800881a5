use vstd::prelude::*;
use vstd::arithmetic::div_mod::{
    lemma_div_is_ordered,
    lemma_fundamental_div_mod,
    lemma_fundamental_div_mod_converse_mod,
};

verus! {

/// Division that rounds toward zero, for a positive divisor.
pub open spec fn trunc_div(a: int, b: int) -> int {
    if a >= 0 {
        a / b
    } else {
        -((-a) / b)
    }
}

/// Julian day number of a calendar date (proleptic Gregorian calendar).
pub open spec fn julian_day_number(year: int, month: int, day: int) -> int {
    let y = if month <= 2 { year - 1 } else { year };
    let m = if month <= 2 { month + 12 } else { month };
    day + trunc_div(153 * m - 457, 5) + 365 * y + trunc_div(y, 4) - trunc_div(y, 100) + trunc_div(
        y,
        400,
    ) + 1721118 + 1
}

/// Calendar fields of a julian day number, as `(year, month, day)`.
pub open spec fn calendar_fields(julian_days: int) -> (int, int, int) {
    let l0 = julian_days + 68569;
    let n = trunc_div(4 * l0, 146097);
    let l1 = l0 - trunc_div(146097 * n + 3, 4);
    let i = trunc_div(4000 * (l1 + 1), 1461001);
    let l2 = l1 - trunc_div(1461 * i, 4) + 31;
    let j = trunc_div(80 * l2, 2447);
    let day = l2 - trunc_div(2447 * j, 80);
    let l3 = trunc_div(j, 11);
    let month = j + 2 - 12 * l3;
    let year = 100 * (n - 49) + i + l3;
    (year, month, day)
}

/// A quotient rounded toward zero is no larger in magnitude than the bound
/// of the dividend divided by the divisor.
proof fn lemma_trunc_div_bound(a: int, b: int, k: int)
    requires
        b > 0,
        k >= 0,
        -k <= a <= k,
    ensures
        -(k / b) <= trunc_div(a, b) <= k / b,
{
    if a >= 0 {
        lemma_div_is_ordered(a, k, b);
        lemma_div_is_ordered(0, a, b);
    } else {
        lemma_div_is_ordered(-a, k, b);
        lemma_div_is_ordered(0, -a, b);
    }
}

/// Divisibility does not depend on the sign.
proof fn lemma_divisible_abs(y: int, d: int)
    requires
        d > 0,
    ensures
        (y % d == 0) <==> ((-y) % d == 0),
{
    lemma_fundamental_div_mod(y, d);
    lemma_fundamental_div_mod(-y, d);
    if y % d == 0 {
        let q = y / d;
        assert(-y == (-q) * d + 0) by (nonlinear_arith)
            requires
                y == d * q + 0,
        ;
        lemma_fundamental_div_mod_converse_mod(-y, d, -q, 0);
    }
    if (-y) % d == 0 {
        let q = (-y) / d;
        assert(y == (-q) * d + 0) by (nonlinear_arith)
            requires
                -y == d * q + 0,
        ;
        lemma_fundamental_div_mod_converse_mod(y, d, -q, 0);
    }
}

/// The date whose julian day number is `julian_days`.
pub open spec fn date_of_julian(julian_days: int) -> Date {
    let f = calendar_fields(julian_days);
    Date { year: f.0 as i32, month: f.1 as i32, day: f.2 as i32 }
}

/// Leap years of the Gregorian calendar.
pub open spec fn is_leap(year: int) -> bool {
    year % 4 == 0 && (year % 100 != 0 || year % 400 == 0)
}

/// Julian day number of 1998-01-01, the first day of the data set.
pub const JULIAN_DATA_START_DATE: i64 = 2450815;

/// Julian day number of 2003-12-31, the last day of the data set.
pub const JULIAN_DATA_END_DATE: i64 = 2453005;

/// Julian day number of 1998-01-01, the smallest generated date.
pub const JULIAN_DATE_MINIMUM: i32 = 2450815;

/// Julian day number of 2002-12-31, the largest generated date.
pub const JULIAN_DATE_MAXIMUM: i32 = 2452640;

/// Julian day number of 2003-01-08, the date the data set treats as today.
pub const JULIAN_TODAYS_DATE: i32 = 2452648;

/// The first step of reading a julian day number: the 400-year cycles, and
/// the day within the cycle.
proof fn lemma_cycle_step(l0: int)
    requires
        l0 >= 0,
    ensures
        ({
            let n = (4 * l0) / 146097;
            let l1 = l0 - (146097 * n + 3) / 4;
            &&& n >= 0
            &&& 0 <= l1 <= 36524
        }),
{
    let n = (4 * l0) / 146097;
    lemma_fundamental_div_mod(4 * l0, 146097);
    lemma_fundamental_div_mod(146097 * n + 3, 4);
}

/// The second step: the years within the cycle, and the day within the year
/// (counted from March).
proof fn lemma_year_step(l1: int)
    requires
        0 <= l1 <= 36524,
    ensures
        ({
            let i = (4000 * (l1 + 1)) / 1461001;
            &&& 0 <= i <= 99
            &&& 0 <= l1 - (1461 * i) / 4 <= 365
        }),
{
    let i = (4000 * (l1 + 1)) / 1461001;
    lemma_fundamental_div_mod(4000 * (l1 + 1), 1461001);
    lemma_fundamental_div_mod(1461 * i, 4);
}

/// The third step: the month (counted from March) and the day within it;
/// the days before a month agree between the two formulas.
proof fn lemma_month_step(l2: int)
    requires
        31 <= l2 <= 396,
    ensures
        ({
            let j = (80 * l2) / 2447;
            &&& 1 <= j <= 12
            &&& (2447 * j) / 80 - (153 * (j + 2) - 457) / 5 == 30
        }),
{
    let j = (80 * l2) / 2447;
    lemma_fundamental_div_mod(80 * l2, 2447);
    assert(1 <= j <= 12);
    assert((2447 * j) / 80 - (153 * (j + 2) - 457) / 5 == 30) by {
        if j == 1 {
        } else if j == 2 {
        } else if j == 3 {
        } else if j == 4 {
        } else if j == 5 {
        } else if j == 6 {
        } else if j == 7 {
        } else if j == 8 {
        } else if j == 9 {
        } else if j == 10 {
        } else if j == 11 {
        } else {
        }
    }
}

/// Every day from 0001-01-01 on converts to a date and back to itself.
pub proof fn lemma_julian_round_trip(julian_days: int)
    requires
        1721426 <= julian_days <= 100000000,
    ensures
        date_of_julian(julian_days).julian_spec() == julian_days,
{
    let l0 = julian_days + 68569;
    lemma_cycle_step(l0);
    let n = (4 * l0) / 146097;
    let l1 = l0 - (146097 * n + 3) / 4;
    lemma_year_step(l1);
    let i = (4000 * (l1 + 1)) / 1461001;
    let l2 = l1 - (1461 * i) / 4 + 31;
    lemma_month_step(l2);
    let j = (80 * l2) / 2447;
    let day = l2 - (2447 * j) / 80;
    let l3 = j / 11;
    let month = j + 2 - 12 * l3;
    let year = 100 * (n - 49) + i + l3;
    lemma_div_is_ordered(7159980int, 4 * l0, 146097);
    assert(n >= 49);
    assert(calendar_fields(julian_days) == (year, month, day));
    let y = 100 * (n - 49) + i;
    assert(y / 100 == n - 49);
    assert(y / 400 == (n - 49) / 4);
    assert(y / 4 == 25 * (n - 49) + i / 4);
    assert((1461 * i) / 4 == 365 * i + i / 4);
    assert((146097 * n + 3) / 4 == (146097 * (n - 49)) / 4 + 1789689);
    assert((146097 * (n - 49)) / 4 == 36524 * (n - 49) + (n - 49) / 4);
    assert(julian_day_number(year, month, day) == julian_days);
}

/// A calendar date.
#[derive(Debug, Clone, Copy, PartialEq, Eq, Structural)]
pub struct Date {
    pub year: i32,
    pub month: i32,
    pub day: i32,
}

impl Date {
    /// Creates a date from its fields.
    pub fn new(year: i32, month: i32, day: i32) -> (r: Date)
        ensures
            r == (Date { year, month, day }),
    {
        Date { year, month, day }
    }

    /// The smallest generated date, 1998-01-01.
    pub fn date_minimum() -> (r: Date)
        ensures
            r == (Date { year: 1998, month: 1, day: 1 }),
    {
        Date { year: 1998, month: 1, day: 1 }
    }

    /// The largest generated date, 2002-12-31.
    pub fn date_maximum() -> (r: Date)
        ensures
            r == (Date { year: 2002, month: 12, day: 31 }),
    {
        Date { year: 2002, month: 12, day: 31 }
    }

    /// The year of this date.
    pub fn get_year(&self) -> (r: i32)
        ensures
            r == self.year,
    {
        self.year
    }

    /// The month of this date.
    pub fn get_month(&self) -> (r: i32)
        ensures
            r == self.month,
    {
        self.month
    }

    /// The day of the month of this date.
    pub fn get_day(&self) -> (r: i32)
        ensures
            r == self.day,
    {
        self.day
    }

    /// The julian day number of this date as a specification value.
    pub open spec fn julian_spec(self) -> int {
        julian_day_number(self.year as int, self.month as int, self.day as int)
    }

    /// Whether the julian day number of this date fits in an `i32`.
    pub open spec fn julian_fits(self) -> bool {
        i32::MIN <= self.julian_spec() <= i32::MAX
    }

    /// The julian day number of this date.
    pub fn to_julian_days(&self) -> (r: i32)
        requires
            self.julian_fits(),
        ensures
            r == self.julian_spec(),
    {
        let year = self.year as i64;
        let month = self.month as i64;
        let y: i64 = if month <= 2 {
            year - 1
        } else {
            year
        };
        let m: i64 = if month <= 2 {
            month + 12
        } else {
            month
        };
        let result: i64 = (self.day as i64) + (153 * m - 457) / 5 + 365 * y + y / 4 - y / 100 + y
            / 400 + 1721118 + 1;
        result as i32
    }

    /// The date of a julian day number.
    #[verifier::rlimit(100)]
    pub fn from_julian_days(julian_days: i32) -> (r: Date)
        ensures
            r == date_of_julian(julian_days as int),
    {
        let l0: i64 = julian_days as i64 + 68569;
        let n: i64 = (4 * l0) / 146097;
        proof {
            lemma_trunc_div_bound(4 * l0, 146097, 0x4_0000_0000);
        }
        let l1: i64 = l0 - (146097 * n + 3) / 4;
        proof {
            lemma_trunc_div_bound(146097 * n + 3, 4, 0x10_0000_0000);
        }
        let i: i64 = (4000 * (l1 + 1)) / 1461001;
        proof {
            lemma_trunc_div_bound(4000 * (l1 + 1), 1461001, 0x1_0000_0000_0000);
        }
        let l2: i64 = l1 - (1461 * i) / 4 + 31;
        proof {
            lemma_trunc_div_bound(1461 * i, 4, 0x100_0000_0000);
        }
        let j: i64 = (80 * l2) / 2447;
        proof {
            lemma_trunc_div_bound(80 * l2, 2447, 0x1_0000_0000_0000);
        }
        let day: i64 = l2 - (2447 * j) / 80;
        proof {
            lemma_trunc_div_bound(2447 * j, 80, 0x10_0000_0000_0000);
        }
        let l3: i64 = j / 11;
        proof {
            lemma_trunc_div_bound(j as int, 11, 0x1_0000_0000_0000);
        }
        let month: i64 = j + 2 - 12 * l3;
        let year: i64 = 100 * (n - 49) + i + l3;
        Date {
            year: #[verifier::truncate]
            (year as i32),
            month: #[verifier::truncate]
            (month as i32),
            day: #[verifier::truncate]
            (day as i32),
        }
    }

    /// Whether `year` is a leap year.
    pub fn is_leap_year(year: i32) -> (r: bool)
        ensures
            r == is_leap(year as int),
    {
        let a: i64 = if year < 0 {
            -(year as i64)
        } else {
            year as i64
        };
        proof {
            lemma_divisible_abs(year as int, 4);
            lemma_divisible_abs(year as int, 100);
            lemma_divisible_abs(year as int, 400);
        }
        a % 4 == 0 && (a % 100 != 0 || a % 400 == 0)
    }
}

/// The number of days of a month.
pub open spec fn days_in_month(year: int, month: int) -> int {
    if month == 2 {
        if is_leap(year) {
            29
        } else {
            28
        }
    } else if month == 4 || month == 6 || month == 9 || month == 11 {
        30
    } else {
        31
    }
}

/// Reading back a month counted from March and a day within it.
proof fn lemma_month_day_back(mm: int, d: int)
    requires
        3 <= mm <= 14,
        1 <= d <= 31,
        mm == 4 || mm == 6 || mm == 9 || mm == 11 ==> d <= 30,
        mm == 14 ==> d <= 29,
    ensures
        ({
            let dd = (153 * mm - 457) / 5 + d - 1;
            &&& 0 <= dd <= 365
            &&& (dd == 365 ==> mm == 14 && d == 29)
            &&& (80 * (dd + 31)) / 2447 == mm - 2
            &&& dd + 31 - (2447 * (mm - 2)) / 80 == d
        }),
{
    let dd = (153 * mm - 457) / 5 + d - 1;
    if mm == 3 {
    } else if mm == 4 {
    } else if mm == 5 {
    } else if mm == 6 {
    } else if mm == 7 {
    } else if mm == 8 {
    } else if mm == 9 {
    } else if mm == 10 {
    } else if mm == 11 {
    } else if mm == 12 {
    } else if mm == 13 {
    } else {
    }
}

/// Reading back the year within a century and the day within that year.
proof fn lemma_year_back(i: int, dd: int)
    requires
        0 <= i <= 99,
        0 <= dd <= 365,
        dd == 365 ==> (i + 1) % 4 == 0,
    ensures
        (4000 * ((1461 * i) / 4 + dd + 1)) / 1461001 == i,
{
    lemma_fundamental_div_mod(1461 * i, 4);
    lemma_fundamental_div_mod(i, 4);
    let l1 = (1461 * i) / 4 + dd;
    lemma_fundamental_div_mod(4000 * (l1 + 1), 1461001);
}

/// Reading back the 400-year cycle and the day within it.
proof fn lemma_cycle_back(n: int, l1: int)
    requires
        n >= 0,
        0 <= l1 <= 36524,
        l1 == 36524 ==> n % 4 == 0,
    ensures
        (4 * ((146097 * n + 3) / 4 + l1)) / 146097 == n,
{
    lemma_fundamental_div_mod(146097 * n + 3, 4);
    lemma_fundamental_div_mod(n, 4);
    let l0 = (146097 * n + 3) / 4 + l1;
    lemma_fundamental_div_mod(4 * l0, 146097);
}

impl Date {
    /// A date of the calendar from year 1 on: a month from 1 to 12 and a
    /// day within that month.
    pub open spec fn is_valid(self) -> bool {
        &&& 1 <= self.year <= 100000
        &&& 1 <= self.month <= 12
        &&& 1 <= self.day <= days_in_month(self.year as int, self.month as int)
    }
}

/// Every date from year 1 on converts to a julian day number and back to
/// itself.
pub proof fn lemma_date_round_trip(date: Date)
    requires
        date.is_valid(),
    ensures
        date_of_julian(date.julian_spec()) == date,
{
    let y = date.year as int;
    let m = date.month as int;
    let d = date.day as int;
    let yy = if m <= 2 {
        y - 1
    } else {
        y
    };
    let mm = if m <= 2 {
        m + 12
    } else {
        m
    };
    let c = yy / 100;
    let i = yy % 100;
    lemma_fundamental_div_mod(yy, 100);
    lemma_month_day_back(mm, d);
    let dd = (153 * mm - 457) / 5 + d - 1;
    if dd == 365 {
        assert(is_leap(y));
        assert(y == 100 * c + i + 1);
        assert((i + 1) % 4 == 0);
        if i == 99 {
            assert(y == 100 * (c + 1));
            assert(y % 400 == 0);
            assert((c + 1) % 4 == 0);
        }
    }
    lemma_year_back(i, dd);
    let l1 = (1461 * i) / 4 + dd;
    lemma_fundamental_div_mod(1461 * i, 4);
    let n = c + 49;
    assert((146097 * n + 3) / 4 == (146097 * c) / 4 + 1789689);
    assert((146097 * c) / 4 == 36524 * c + c / 4) by {
        lemma_fundamental_div_mod(c, 4);
        lemma_fundamental_div_mod(146097 * c, 4);
    }
    assert(yy / 4 == 25 * c + i / 4);
    assert(yy / 400 == c / 4);
    assert((1461 * i) / 4 == 365 * i + i / 4) by {
        lemma_fundamental_div_mod(i, 4);
    }
    if l1 == 36524 {
        assert(i == 99 && dd == 365);
    }
    lemma_cycle_back(n, l1);
    let julian = date.julian_spec();
    assert(julian + 68569 == (146097 * n + 3) / 4 + l1);
    assert(calendar_fields(julian) == (y, m, d));
}

} // verus!
