//! Update-time inference. A date stamp `YYYY-MM-DD` at the front of the
//! date-source name (the file's base name for `Flat` articles, the parent
//! directory's name for `Tree` articles) wins over the file-system time;
//! the stamp is read as midnight UTC of that proleptic-Gregorian date.

use vstd::prelude::*;
use crate::FeedError;
use crate::category::Category;
use crate::paths::base_name;
use crate::paths::base_name_str;
use crate::paths::parent_name;
use crate::paths::parent_name_str;
use crate::text::char_is_digit;
use crate::text::digit_val;
use crate::text::is_digit;

verus! {

/// The name begins with `YYYY-MM-DD`: four ASCII digits, a hyphen, two
/// digits, a hyphen, two digits.
pub open spec fn has_date_prefix(s: Seq<char>) -> bool {
    &&& s.len() >= 10
    &&& is_digit(s[0])
    &&& is_digit(s[1])
    &&& is_digit(s[2])
    &&& is_digit(s[3])
    &&& s[4] == '-'
    &&& is_digit(s[5])
    &&& is_digit(s[6])
    &&& s[7] == '-'
    &&& is_digit(s[8])
    &&& is_digit(s[9])
}

pub open spec fn prefix_year(s: Seq<char>) -> int {
    1000 * digit_val(s[0]) + 100 * digit_val(s[1]) + 10 * digit_val(s[2]) + digit_val(s[3])
}

pub open spec fn prefix_month(s: Seq<char>) -> int {
    10 * digit_val(s[5]) + digit_val(s[6])
}

pub open spec fn prefix_day(s: Seq<char>) -> int {
    10 * digit_val(s[8]) + digit_val(s[9])
}

pub open spec fn is_leap_year(y: int) -> bool {
    y % 4 == 0 && (y % 100 != 0 || y % 400 == 0)
}

/// Days in the months before month `m` of a year of the given kind.
pub open spec fn days_before_month(m: int, leap: bool) -> int {
    let plain: int = if m == 1 {
        0
    } else if m == 2 {
        31
    } else if m == 3 {
        59
    } else if m == 4 {
        90
    } else if m == 5 {
        120
    } else if m == 6 {
        151
    } else if m == 7 {
        181
    } else if m == 8 {
        212
    } else if m == 9 {
        243
    } else if m == 10 {
        273
    } else if m == 11 {
        304
    } else {
        334
    };
    if leap && m > 2 {
        plain + 1
    } else {
        plain
    }
}

pub open spec fn days_in_month(y: int, m: int) -> int {
    if m == 2 {
        if is_leap_year(y) {
            29
        } else {
            28
        }
    } else if m == 4 || m == 6 || m == 9 || m == 11 {
        30
    } else {
        31
    }
}

/// A calendar date the stamp can denote: a four-digit year and a real
/// month and day of the proleptic Gregorian calendar.
pub open spec fn valid_date(y: int, m: int, d: int) -> bool {
    0 <= y <= 9999 && 1 <= m <= 12 && 1 <= d <= days_in_month(y, m)
}

/// Leap years among the years `0, 1, ..., y - 1`.
pub open spec fn leap_years_before(y: int) -> int {
    (y + 3) / 4 - (y + 99) / 100 + (y + 399) / 400
}

/// Days from 1970-01-01 to the given date (negative for earlier dates).
/// 719528 is the day count from 0000-01-01 to 1970-01-01.
pub open spec fn days_from_epoch(y: int, m: int, d: int) -> int {
    365 * y + leap_years_before(y) + days_before_month(m, is_leap_year(y)) + (d - 1) - 719528
}

/// Seconds from the Unix epoch to midnight UTC of the given date.
pub open spec fn date_epoch_secs(y: int, m: int, d: int) -> int {
    86400 * days_from_epoch(y, m, d)
}

/// Whether the stamped date exists in the calendar.
pub open spec fn prefix_date_valid(s: Seq<char>) -> bool {
    valid_date(prefix_year(s), prefix_month(s), prefix_day(s))
}

/// Check the stamp grammar at the front of a name.
pub fn date_prefix_check(s: &str) -> (r: bool)
    ensures
        r == has_date_prefix(s@),
{
    let n = s.unicode_len();
    if n < 10 {
        return false;
    }
    char_is_digit(s.get_char(0)) && char_is_digit(s.get_char(1)) && char_is_digit(s.get_char(2))
        && char_is_digit(s.get_char(3)) && s.get_char(4) == '-' && char_is_digit(s.get_char(5))
        && char_is_digit(s.get_char(6)) && s.get_char(7) == '-' && char_is_digit(s.get_char(8))
        && char_is_digit(s.get_char(9))
}

fn digit_at(s: &str, i: usize) -> (r: u64)
    requires
        i < s@.len(),
        is_digit(s@[i as int]),
    ensures
        r == digit_val(s@[i as int]),
        r <= 9,
{
    let c = s.get_char(i);
    (c as u32 - 48) as u64
}

/// Midnight UTC of a calendar date, in seconds from the Unix epoch.
pub fn epoch_from_ymd(y: u64, m: u64, d: u64) -> (r: i64)
    requires
        valid_date(y as int, m as int, d as int),
    ensures
        r == date_epoch_secs(y as int, m as int, d as int),
{
    let leap = (y % 4 == 0) && (y % 100 != 0 || y % 400 == 0);
    let plain: u64 = if m == 1 {
        0
    } else if m == 2 {
        31
    } else if m == 3 {
        59
    } else if m == 4 {
        90
    } else if m == 5 {
        120
    } else if m == 6 {
        151
    } else if m == 7 {
        181
    } else if m == 8 {
        212
    } else if m == 9 {
        243
    } else if m == 10 {
        273
    } else if m == 11 {
        304
    } else {
        334
    };
    let before_month: u64 = if leap && m > 2 {
        plain + 1
    } else {
        plain
    };
    assert((y + 99) / 100 <= 100 + 365 * y) by (nonlinear_arith)
        requires
            0 <= y <= 9999,
    ;
    let gathered: u64 = 365 * y + (y + 3) / 4 + (y + 399) / 400 + before_month + (d - 1);
    assert((y + 99) / 100 <= gathered);
    let days_from_zero: u64 = gathered - (y + 99) / 100;
    assert(days_from_zero <= 4000000);
    let r: i64 = 86400 * (days_from_zero as i64 - 719528);
    r
}

/// The name whose leading date stamp decides the update time: the file's
/// own base name for `Flat` articles, the parent directory's name for
/// `Tree` ones.
pub open spec fn date_source(path: Seq<char>, cat: Category) -> Seq<char> {
    match cat {
        Category::Flat => base_name(path),
        Category::Tree => parent_name(path)->Some_0,
    }
}

/// Resolve the update time of an article file. A well-formed date stamp on
/// the date-source name is used as midnight UTC, with no fallback; a stamp
/// naming no real date is an error; without a stamp, the file-system time
/// `fs_time` (seconds from the Unix epoch) is the answer.
pub fn get_update_time(filepath: &str, cat: Category, fs_time: i64) -> (r: Result<i64, FeedError>)
    requires
        cat is Tree ==> parent_name(filepath@) is Some,
    ensures
        match r {
            Ok(t) => {
                &&& has_date_prefix(date_source(filepath@, cat)) ==> {
                    &&& prefix_date_valid(date_source(filepath@, cat))
                    &&& t == date_epoch_secs(
                        prefix_year(date_source(filepath@, cat)),
                        prefix_month(date_source(filepath@, cat)),
                        prefix_day(date_source(filepath@, cat)),
                    )
                }
                &&& !has_date_prefix(date_source(filepath@, cat)) ==> t == fs_time
            },
            Err(e) => {
                &&& e == FeedError::InvalidDate
                &&& has_date_prefix(date_source(filepath@, cat))
                &&& !prefix_date_valid(date_source(filepath@, cat))
            },
        },
{
    let source: String = match cat {
        Category::Flat => base_name_str(filepath),
        Category::Tree => parent_name_str(filepath).unwrap(),
    };
    let name = source.as_str();
    if !date_prefix_check(name) {
        return Ok(fs_time);
    }
    let y = 1000 * digit_at(name, 0) + 100 * digit_at(name, 1) + 10 * digit_at(name, 2) + digit_at(
        name,
        3,
    );
    let m = 10 * digit_at(name, 5) + digit_at(name, 6);
    let d = 10 * digit_at(name, 8) + digit_at(name, 9);
    let leap = (y % 4 == 0) && (y % 100 != 0 || y % 400 == 0);
    let month_len: u64 = if m == 2 {
        if leap {
            29
        } else {
            28
        }
    } else if m == 4 || m == 6 || m == 9 || m == 11 {
        30
    } else {
        31
    };
    if m < 1 || m > 12 || d < 1 || d > month_len {
        return Err(FeedError::InvalidDate);
    }
    Ok(epoch_from_ymd(y, m, d))
}

} // verus!
