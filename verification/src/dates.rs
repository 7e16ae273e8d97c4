//! Calendar dates as plain year/month/day values.
//!
//! Dates cross the library boundary in the ISO `YYYY-MM-DD` text form used by
//! the upstream providers; parsing and ordering are verified here.

use chrono::Datelike;
use vstd::prelude::*;

verus! {

/// A calendar date. Valid values satisfy [`Date::valid`].
#[derive(Clone, Copy, Debug, PartialEq, Eq, Structural)]
pub struct Date {
    pub year: i32,
    pub month: u8,
    pub day: u8,
}

pub open spec fn spec_is_leap_year(y: int) -> bool {
    (y % 4 == 0 && y % 100 != 0) || y % 400 == 0
}

pub open spec fn spec_days_in_month(y: int, m: int) -> int {
    if m == 2 {
        if spec_is_leap_year(y) {
            29
        } else {
            28
        }
    } else if m == 4 || m == 6 || m == 9 || m == 11 {
        30
    } else {
        31
    }
}

impl Date {
    /// A proper calendar date with a four-digit year.
    pub open spec fn valid(self) -> bool {
        0 <= self.year <= 9999 && 1 <= self.month <= 12 && 1 <= self.day
            <= spec_days_in_month(self.year as int, self.month as int)
    }

    /// `self` on or before `other` in calendar order.
    pub open spec fn spec_le(self, other: Date) -> bool {
        if self.year != other.year {
            self.year < other.year
        } else if self.month != other.month {
            self.month < other.month
        } else {
            self.day <= other.day
        }
    }

    /// Calendar comparison: `self` on or before `other`.
    pub fn le(&self, other: &Date) -> (r: bool)
        ensures
            r == self.spec_le(*other),
    {
        if self.year != other.year {
            self.year < other.year
        } else if self.month != other.month {
            self.month < other.month
        } else {
            self.day <= other.day
        }
    }
}

pub fn is_leap_year(y: i32) -> (r: bool)
    ensures
        r == spec_is_leap_year(y as int),
{
    (y % 4 == 0 && y % 100 != 0) || y % 400 == 0
}

pub fn days_in_month(y: i32, m: u8) -> (r: u8)
    ensures
        r as int == spec_days_in_month(y as int, m as int),
{
    if m == 2 {
        if is_leap_year(y) {
            29
        } else {
            28
        }
    } else if m == 4 || m == 6 || m == 9 || m == 11 {
        30
    } else {
        31
    }
}

/// An ASCII decimal digit.
pub open spec fn spec_is_digit(c: char) -> bool {
    ('0' as u32) <= (c as u32) <= ('9' as u32)
}

/// The numeric value of an ASCII decimal digit.
pub open spec fn spec_digit_val(c: char) -> int {
    c as u32 - '0' as u32
}

/// The date that the text `s` denotes in strict `YYYY-MM-DD` form, if it
/// denotes a proper calendar date.
pub open spec fn spec_parse_date(s: Seq<char>) -> Option<Date> {
    if s.len() == 10 && s[4] == '-' && s[7] == '-' && spec_is_digit(s[0]) && spec_is_digit(s[1])
        && spec_is_digit(s[2]) && spec_is_digit(s[3]) && spec_is_digit(s[5]) && spec_is_digit(s[6])
        && spec_is_digit(s[8]) && spec_is_digit(s[9]) {
        let y = 1000 * spec_digit_val(s[0]) + 100 * spec_digit_val(s[1]) + 10 * spec_digit_val(
            s[2],
        ) + spec_digit_val(s[3]);
        let m = 10 * spec_digit_val(s[5]) + spec_digit_val(s[6]);
        let d = 10 * spec_digit_val(s[8]) + spec_digit_val(s[9]);
        if 1 <= m <= 12 && 1 <= d <= spec_days_in_month(y, m) {
            Some(
                Date {
                    year: y as i32,
                    month: m as u8,
                    day: d as u8,
                },
            )
        } else {
            None
        }
    } else {
        None
    }
}

fn digit_val(c: char) -> (r: Option<u8>)
    ensures
        r is Some <==> spec_is_digit(c),
        r matches Some(v) ==> v as int == spec_digit_val(c),
{
    let u = c as u32;
    if 48 <= u && u <= 57 {
        Some((u - 48) as u8)
    } else {
        None
    }
}

/// Parse a date in strict `YYYY-MM-DD` form; `None` for anything else.
pub fn parse_date(s: &str) -> (r: Option<Date>)
    ensures
        r == spec_parse_date(s@),
        r matches Some(d) ==> d.valid(),
{
    if s.unicode_len() != 10 {
        return None;
    }
    if s.get_char(4) != '-' || s.get_char(7) != '-' {
        return None;
    }
    let d0 = digit_val(s.get_char(0));
    let d1 = digit_val(s.get_char(1));
    let d2 = digit_val(s.get_char(2));
    let d3 = digit_val(s.get_char(3));
    let d5 = digit_val(s.get_char(5));
    let d6 = digit_val(s.get_char(6));
    let d8 = digit_val(s.get_char(8));
    let d9 = digit_val(s.get_char(9));
    match (d0, d1, d2, d3, d5, d6, d8, d9) {
        (
            Some(y0),
            Some(y1),
            Some(y2),
            Some(y3),
            Some(m0),
            Some(m1),
            Some(a0),
            Some(a1),
        ) => {
            let y: i32 = 1000 * (y0 as i32) + 100 * (y1 as i32) + 10 * (y2 as i32) + (y3 as i32);
            let m: u8 = 10 * m0 + m1;
            let d: u8 = 10 * a0 + a1;
            if 1 <= m && m <= 12 && 1 <= d && d <= days_in_month(y, m) {
                Some(Date { year: y, month: m, day: d })
            } else {
                None
            }
        },
        _ => None,
    }
}

proof fn lemma_lex_le_common_prefix(a: Seq<char>, b: Seq<char>, k: int)
    requires
        0 <= k <= a.len(),
        k <= b.len(),
        forall|j: int| 0 <= j < k ==> (a[j] as u32) == (b[j] as u32),
    ensures
        crate::strutil::spec_lex_le(a, b) == crate::strutil::spec_lex_le(a.skip(k), b.skip(k)),
    decreases k,
{
    if k == 0 {
        assert(a.skip(0) =~= a);
        assert(b.skip(0) =~= b);
    } else {
        assert(crate::strutil::spec_lex_le(a, b) == crate::strutil::spec_lex_le(
            a.skip(1),
            b.skip(1),
        ));
        lemma_lex_le_common_prefix(a.skip(1), b.skip(1), k - 1);
        assert(a.skip(1).skip(k - 1) =~= a.skip(k));
        assert(b.skip(1).skip(k - 1) =~= b.skip(k));
    }
}

/// Law: on date text in strict `YYYY-MM-DD` form, lexicographic order by
/// code point is calendar order. This is what lets date ranges over the
/// text form be compared without parsing.
pub proof fn lemma_lex_le_is_calendar_order(t1: Seq<char>, t2: Seq<char>, d1: Date, d2: Date)
    requires
        spec_parse_date(t1) == Some(d1),
        spec_parse_date(t2) == Some(d2),
    ensures
        crate::strutil::spec_lex_le(t1, t2) == d1.spec_le(d2),
{
    if forall|j: int| 0 <= j < 10 ==> #[trigger] (t1[j] as u32) == (t2[j] as u32) {
        // Code-point-equal texts denote the same date and compare equal.
        lemma_lex_le_common_prefix(t1, t2, 10);
        assert(t1.skip(10) =~= Seq::<char>::empty());
        assert(t2.skip(10) =~= Seq::<char>::empty());
    } else {
        // The first differing position; 4 and 7 hold '-' in both.
        let m = choose|m: int| 0 <= m < 10 && (t1[m] as u32) != (t2[m] as u32);
        first_difference_exists(t1, t2, m);
        let k = choose|k: int|
            0 <= k < 10 && (t1[k] as u32) != (t2[k] as u32) && (forall|j: int|
                0 <= j < k ==> (t1[j] as u32) == (t2[j] as u32));
        assert(k != 4 && k != 7);
        lemma_lex_le_common_prefix(t1, t2, k);
        assert(t1.skip(k)[0] == t1[k]);
        assert(t2.skip(k)[0] == t2[k]);
        assert(crate::strutil::spec_lex_le(t1, t2) == ((t1[k] as u32) < (t2[k] as u32)));
        digits_decide_order(t1, t2, d1, d2, k);
    }
}

proof fn first_difference_exists(t1: Seq<char>, t2: Seq<char>, m: int)
    requires
        0 <= m < 10,
        (t1[m] as u32) != (t2[m] as u32),
        t1.len() == 10,
        t2.len() == 10,
    ensures
        exists|k: int|
            0 <= k < 10 && (t1[k] as u32) != (t2[k] as u32) && (forall|j: int|
                0 <= j < k ==> (t1[j] as u32) == (t2[j] as u32)),
    decreases m,
{
    if forall|j: int| 0 <= j < m ==> #[trigger] (t1[j] as u32) == (t2[j] as u32) {
        assert(0 <= m < 10 && (t1[m] as u32) != (t2[m] as u32) && (forall|j: int|
            0 <= j < m ==> (t1[j] as u32) == (t2[j] as u32)));
    } else {
        let m2 = choose|m2: int| 0 <= m2 < m && (t1[m2] as u32) != (t2[m2] as u32);
        first_difference_exists(t1, t2, m2);
    }
}

proof fn digits_decide_order(t1: Seq<char>, t2: Seq<char>, d1: Date, d2: Date, k: int)
    requires
        spec_parse_date(t1) == Some(d1),
        spec_parse_date(t2) == Some(d2),
        0 <= k < 10,
        k != 4,
        k != 7,
        (t1[k] as u32) != (t2[k] as u32),
        forall|j: int| 0 <= j < k ==> (t1[j] as u32) == (t2[j] as u32),
    ensures
        d1.spec_le(d2) == ((t1[k] as u32) < (t2[k] as u32)),
{
    assert(spec_digit_val(t1[k]) != spec_digit_val(t2[k]));
    if k <= 3 {
        assert((d1.year < d2.year) == (spec_digit_val(t1[k]) < spec_digit_val(t2[k])));
        assert(d1.year != d2.year);
    } else if k <= 6 {
        assert(d1.year == d2.year);
        assert((d1.month < d2.month) == (spec_digit_val(t1[k]) < spec_digit_val(t2[k])));
        assert(d1.month != d2.month);
    } else {
        assert(d1.year == d2.year && d1.month == d2.month);
        assert((d1.day < d2.day) == (spec_digit_val(t1[k]) < spec_digit_val(t2[k])));
        assert(d1.day != d2.day);
    }
}

/// Relies on chrono's `Utc::now` and `Datelike`: the current UTC calendar
/// date, whose month is in 1..=12 and day in 1..=31.
#[verifier::external_body]
pub(crate) fn today_date() -> (r: Date)
    ensures
        1 <= r.month <= 12,
        1 <= r.day <= 31,
{
    let now = chrono::Utc::now().date_naive();
    Date { year: now.year(), month: now.month() as u8, day: now.day() as u8 }
}

} // verus!
