//! Calendar dates in `YYYY-MM-DD` form: validation, parsing and formatting.

use vstd::prelude::*;
use vstd::string::StrSliceExecFns;
use vstd::string::StringExecFns;

verus! {

/// A calendar date, kept as plain year/month/day numbers.  Valid values
/// satisfy [`DateString::wf`]: a four-digit year and a real calendar day,
/// leap years included.
#[derive(Clone, Copy, PartialEq, Eq, Structural, Debug)]
pub struct DateString {
    pub year: u32,
    pub month: u32,
    pub day: u32,
}

/// True for years with a February 29th.
pub open spec fn spec_is_leap_year(y: int) -> bool {
    (y % 4 == 0 && y % 100 != 0) || y % 400 == 0
}

/// The number of days in the given month of the given year.
pub open spec fn spec_days_in_month(y: int, m: int) -> int {
    if m == 2 {
        if spec_is_leap_year(y) {
            29
        } else {
            28
        }
    } else if m == 4 || m == 6 || m == 9 || m == 11 {
        30
    } else {
        31
    }
}

impl DateString {
    /// A well-formed date: four-digit year, and a day that exists in the
    /// calendar for that year and month.
    pub open spec fn wf(self) -> bool {
        self.year <= 9999 && 1 <= self.month <= 12 && 1 <= self.day
            && self.day <= spec_days_in_month(self.year as int, self.month as int)
    }

    /// Builds a date after checking calendar validity.
    pub fn from_ymd(year: u32, month: u32, day: u32) -> (r: Option<DateString>)
        ensures
            match r {
                Some(d) => d.wf() && d.year == year && d.month == month && d.day == day,
                None => !(DateString { year, month, day }).wf(),
            },
    {
        let ok = year <= 9999 && 1 <= month && month <= 12 && 1 <= day && day <= days_in_month(
            year,
            month,
        );
        if ok {
            Some(DateString { year, month, day })
        } else {
            None
        }
    }
}

/// Executable twin of [`spec_days_in_month`].
pub fn days_in_month(y: u32, m: u32) -> (r: u32)
    ensures
        r == spec_days_in_month(y as int, m as int),
{
    if m == 2 {
        if (y % 4 == 0 && y % 100 != 0) || y % 400 == 0 {
            29
        } else {
            28
        }
    } else if m == 4 || m == 6 || m == 9 || m == 11 {
        30
    } else {
        31
    }
}

/// The decimal digit character for `d`; `'9'` for anything ten or larger.
pub open spec fn spec_digit(d: int) -> char {
    if d == 0 {
        '0'
    } else if d == 1 {
        '1'
    } else if d == 2 {
        '2'
    } else if d == 3 {
        '3'
    } else if d == 4 {
        '4'
    } else if d == 5 {
        '5'
    } else if d == 6 {
        '6'
    } else if d == 7 {
        '7'
    } else if d == 8 {
        '8'
    } else {
        '9'
    }
}

/// True when `c` is a decimal digit character.
pub open spec fn spec_is_digit(c: char) -> bool {
    48 <= c as u32 <= 57
}

/// The numeric value of a decimal digit character.
pub open spec fn spec_digit_val(c: char) -> int {
    c as u32 - 48
}

impl DateString {
    /// The ten characters of this date in `YYYY-MM-DD` form.
    pub open spec fn spec_chars(self) -> Seq<char> {
        seq![
            spec_digit(self.year as int / 1000),
            spec_digit((self.year as int / 100) % 10),
            spec_digit((self.year as int / 10) % 10),
            spec_digit(self.year as int % 10),
            '-',
            spec_digit(self.month as int / 10),
            spec_digit(self.month as int % 10),
            '-',
            spec_digit(self.day as int / 10),
            spec_digit(self.day as int % 10),
        ]
    }
}

/// The date named by the ten characters `YYYY-MM-DD`, when they spell a
/// well-formed calendar date; `None` otherwise.
pub open spec fn spec_parse_date(s: Seq<char>) -> Option<DateString> {
    if s.len() == 10 && spec_is_digit(s[0]) && spec_is_digit(s[1]) && spec_is_digit(s[2])
        && spec_is_digit(s[3]) && s[4] == '-' && spec_is_digit(s[5]) && spec_is_digit(s[6]) && s[7]
        == '-' && spec_is_digit(s[8]) && spec_is_digit(s[9]) {
        let d = DateString {
            year: (spec_digit_val(s[0]) * 1000 + spec_digit_val(s[1]) * 100 + spec_digit_val(s[2])
                * 10 + spec_digit_val(s[3])) as u32,
            month: (spec_digit_val(s[5]) * 10 + spec_digit_val(s[6])) as u32,
            day: (spec_digit_val(s[8]) * 10 + spec_digit_val(s[9])) as u32,
        };
        if d.wf() {
            Some(d)
        } else {
            None
        }
    } else {
        None
    }
}

/// A one-character string slice holding the decimal digit for `d`.
fn digit_str(d: u32) -> (r: &'static str)
    ensures
        r@ == seq![spec_digit(d as int)],
{
    proof {
        reveal_strlit("0");
        reveal_strlit("1");
        reveal_strlit("2");
        reveal_strlit("3");
        reveal_strlit("4");
        reveal_strlit("5");
        reveal_strlit("6");
        reveal_strlit("7");
        reveal_strlit("8");
        reveal_strlit("9");
    }
    let r = if d == 0 {
        "0"
    } else if d == 1 {
        "1"
    } else if d == 2 {
        "2"
    } else if d == 3 {
        "3"
    } else if d == 4 {
        "4"
    } else if d == 5 {
        "5"
    } else if d == 6 {
        "6"
    } else if d == 7 {
        "7"
    } else {
        "8"
    };
    let r = if d >= 9 {
        "9"
    } else {
        r
    };
    proof {
        assert(r@ =~= seq![spec_digit(d as int)]);
    }
    r
}

impl DateString {
    /// Formats this date as `YYYY-MM-DD`.
    pub fn format(&self) -> (r: String)
        ensures
            r@ == self.spec_chars(),
    {
        proof {
            reveal_strlit("-");
        }
        let mut s = String::new();
        s.append(digit_str(self.year / 1000));
        s.append(digit_str((self.year / 100) % 10));
        s.append(digit_str((self.year / 10) % 10));
        s.append(digit_str(self.year % 10));
        s.append("-");
        s.append(digit_str(self.month / 10));
        s.append(digit_str(self.month % 10));
        s.append("-");
        s.append(digit_str(self.day / 10));
        s.append(digit_str(self.day % 10));
        proof {
            assert(s@ =~= self.spec_chars());
        }
        s
    }

    /// Parses the `YYYY-MM-DD` form, checking calendar validity.
    pub fn parse(s: &str) -> (r: Option<DateString>)
        ensures
            r == spec_parse_date(s@),
    {
        proof {
            reveal_strlit("-");
        }
        if s.unicode_len() != 10 {
            return None;
        }
        let c0 = s.get_char(0);
        let c1 = s.get_char(1);
        let c2 = s.get_char(2);
        let c3 = s.get_char(3);
        let c4 = s.get_char(4);
        let c5 = s.get_char(5);
        let c6 = s.get_char(6);
        let c7 = s.get_char(7);
        let c8 = s.get_char(8);
        let c9 = s.get_char(9);
        if !(is_digit(c0) && is_digit(c1) && is_digit(c2) && is_digit(c3) && c4 == '-' && is_digit(
            c5,
        ) && is_digit(c6) && c7 == '-' && is_digit(c8) && is_digit(c9)) {
            return None;
        }
        let year = digit_val(c0) * 1000 + digit_val(c1) * 100 + digit_val(c2) * 10 + digit_val(c3);
        let month = digit_val(c5) * 10 + digit_val(c6);
        let day = digit_val(c8) * 10 + digit_val(c9);
        DateString::from_ymd(year, month, day)
    }
}

/// Executable twin of [`spec_is_digit`].
fn is_digit(c: char) -> (r: bool)
    ensures
        r == spec_is_digit(c),
{
    let v = c as u32;
    48 <= v && v <= 57
}

/// Executable twin of [`spec_digit_val`]; meaningful only on digits.
fn digit_val(c: char) -> (r: u32)
    requires
        spec_is_digit(c),
    ensures
        r == spec_digit_val(c),
{
    c as u32 - 48
}

} // verus!
