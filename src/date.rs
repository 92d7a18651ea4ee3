//! Calendar dates as handed to plugins.

use vstd::prelude::*;

use crate::text::{push_repeat, repeat};

verus! {

/// The earliest year a date may have.
pub const MIN_YEAR: i32 = -100_000;

/// The latest year a date may have.
pub const MAX_YEAR: i32 = 100_000;

pub open spec fn is_leap_year(y: int) -> bool {
    (y % 4 == 0 && y % 100 != 0) || y % 400 == 0
}

pub open spec fn days_in_month(y: int, m: int) -> int {
    if m == 2 {
        if is_leap_year(y) { 29 } else { 28 }
    } else if m == 4 || m == 6 || m == 9 || m == 11 {
        30
    } else {
        31
    }
}

/// A day of the proleptic Gregorian calendar within the supported years.
pub open spec fn valid_date(y: int, m: int, d: int) -> bool {
    &&& MIN_YEAR <= y <= MAX_YEAR
    &&& 1 <= m <= 12
    &&& 1 <= d <= days_in_month(y, m)
}

/// The decimal digit `d` (`d < 10`).
pub open spec fn digit(d: nat) -> char {
    ((48 + d) as u8) as char
}

/// The decimal numeral of `n`, without leading zeros.
pub open spec fn decimal(n: nat) -> Seq<char>
    decreases n,
{
    if n < 10 {
        seq![digit(n)]
    } else {
        decimal(n / 10).push(digit(n % 10))
    }
}

/// `s` preceded by zeros up to width `w`.
pub open spec fn zero_pad(s: Seq<char>, w: nat) -> Seq<char> {
    if s.len() >= w {
        s
    } else {
        repeat('0', (w - s.len()) as nat) + s
    }
}

/// The year as `%Y` writes it: at least four digits with zeros in front, a
/// `-` before negative years and a `+` before years from 10000 on.
pub open spec fn year_text(y: int) -> Seq<char> {
    if y >= 10000 {
        seq!['+'] + decimal(y as nat)
    } else if y >= 0 {
        zero_pad(decimal(y as nat), 4)
    } else {
        seq!['-'] + zero_pad(decimal((-y) as nat), 3)
    }
}

/// The date as `YYYY-MM-DD`.
pub open spec fn date_text(y: int, m: int, d: int) -> Seq<char> {
    year_text(y) + seq!['-'] + zero_pad(decimal(m as nat), 2) + seq!['-'] + zero_pad(decimal(d as nat), 2)
}

fn push_decimal(out: &mut Vec<char>, n: u32)
    ensures
        final(out)@ == old(out)@ + decimal(n as nat),
    decreases n,
{
    if n >= 10 {
        push_decimal(out, n / 10);
    }
    let d = (n % 10) as u8;
    out.push((48u8 + d) as char);
    assert(final(out)@ =~= old(out)@ + decimal(n as nat));
}

proof fn decimal_len(n: nat)
    ensures
        decimal(n).len() >= 1,
        n < 10 ==> decimal(n).len() == 1,
        10 <= n < 100 ==> decimal(n).len() == 2,
        100 <= n < 1000 ==> decimal(n).len() == 3,
        1000 <= n < 10000 ==> decimal(n).len() == 4,
        n >= 10000 ==> decimal(n).len() >= 5,
    decreases n,
{
    if n >= 10 {
        decimal_len(n / 10);
    }
}

/// Appends `n` with zeros in front up to width `w`.
fn push_zero_padded(out: &mut Vec<char>, n: u32, w: usize)
    requires
        w <= 4,
    ensures
        final(out)@ == old(out)@ + zero_pad(decimal(n as nat), w as nat),
{
    proof {
        decimal_len(n as nat);
    }
    let len: usize = if n < 10 {
        1
    } else if n < 100 {
        2
    } else if n < 1000 {
        3
    } else if n < 10000 {
        4
    } else {
        5
    };
    if len < w {
        push_repeat(out, '0', w - len);
    }
    push_decimal(out, n);
    assert(final(out)@ =~= old(out)@ + zero_pad(decimal(n as nat), w as nat));
}

/// A calendar date: year, month and day of a real day.
#[derive(Clone, Copy, Debug, PartialEq, Eq, Structural)]
pub struct CalendarDate {
    year: i32,
    month: u8,
    day: u8,
}

impl CalendarDate {
    #[verifier::type_invariant]
    closed spec fn inv(&self) -> bool {
        valid_date(self.year as int, self.month as int, self.day as int)
    }

    pub closed spec fn spec_year(&self) -> i32 {
        self.year
    }

    pub closed spec fn spec_month(&self) -> u8 {
        self.month
    }

    pub closed spec fn spec_day(&self) -> u8 {
        self.day
    }

    /// The date of that year, month and day, if there is such a day.
    pub fn from_ymd(year: i32, month: u8, day: u8) -> (r: Option<CalendarDate>)
        ensures
            r is Some <==> valid_date(year as int, month as int, day as int),
            r matches Some(d) ==> d.spec_year() == year && d.spec_month() == month && d.spec_day() == day,
    {
        if year < MIN_YEAR || year > MAX_YEAR || month < 1 || month > 12 || day < 1 {
            return None;
        }
        let leap = (year % 4 == 0 && year % 100 != 0) || year % 400 == 0;
        let last: u8 = if month == 2 {
            if leap { 29 } else { 28 }
        } else if month == 4 || month == 6 || month == 9 || month == 11 {
            30
        } else {
            31
        };
        if day > last {
            None
        } else {
            Some(CalendarDate { year, month, day })
        }
    }

    pub fn year(&self) -> (r: i32)
        ensures
            r == self.spec_year(),
    {
        self.year
    }

    pub fn month(&self) -> (r: u8)
        ensures
            r == self.spec_month(),
    {
        self.month
    }

    pub fn day(&self) -> (r: u8)
        ensures
            r == self.spec_day(),
    {
        self.day
    }

    /// The date as `YYYY-MM-DD`.
    pub fn format(&self) -> (r: String)
        ensures
            r@ == date_text(self.spec_year() as int, self.spec_month() as int, self.spec_day() as int),
    {
        proof {
            use_type_invariant(self);
        }
        let mut out: Vec<char> = Vec::new();
        if self.year >= 10000 {
            out.push('+');
            push_decimal(&mut out, self.year as u32);
        } else if self.year >= 0 {
            push_zero_padded(&mut out, self.year as u32, 4);
        } else {
            out.push('-');
            push_zero_padded(&mut out, (-self.year) as u32, 3);
        }
        out.push('-');
        push_zero_padded(&mut out, self.month as u32, 2);
        out.push('-');
        push_zero_padded(&mut out, self.day as u32, 2);
        assert(out@ =~= date_text(self.year as int, self.month as int, self.day as int));
        crate::text::string_of_chars(&out)
    }
}

} // verus!
