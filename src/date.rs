//! Calendar and ordinal dates, and date-time text.
use vstd::prelude::*;
use crate::error::ErrorKind;
use crate::num::{all_digits, digits_capped, lemma_all_digits_concat, digits_value, lemma_digits_bound, pow10};

verus! {

/// A date and time of day with a fixed offset from UTC. Text that gives no
/// offset is read as UTC.
#[derive(Clone, Copy, Debug, PartialEq, Eq)]
pub struct Timestamp {
    pub year: i32,
    pub month: u8,
    pub day: u8,
    pub hour: u8,
    pub minute: u8,
    pub second: u8,
    /// Minutes east of UTC.
    pub offset_minutes: i16,
}

/// A time of day with its offset from UTC.
#[derive(Clone, Copy, Debug, PartialEq, Eq)]
pub struct Clock {
    pub hour: u8,
    pub minute: u8,
    pub second: u8,
    pub offset_minutes: i16,
}

pub open spec fn is_leap(y: int) -> bool {
    (y % 4 == 0 && y % 100 != 0) || y % 400 == 0
}

pub open spec fn year_length(y: int) -> int {
    if is_leap(y) { 366 } else { 365 }
}

pub open spec fn days_in_month(y: int, m: int) -> int {
    if m == 2 {
        if is_leap(y) { 29 } else { 28 }
    } else if m == 4 || m == 6 || m == 9 || m == 11 {
        30
    } else {
        31
    }
}

pub open spec fn valid_date(y: int, m: int, d: int) -> bool {
    1 <= m <= 12 && 1 <= d <= days_in_month(y, m)
}

/// Days of the year before the first of month `m`.
pub open spec fn days_before_month(y: int, m: int) -> int
    decreases m,
{
    if m <= 1 {
        0
    } else {
        days_before_month(y, m - 1) + days_in_month(y, m - 1)
    }
}

/// The day of the year on which `(y, m, d)` falls, counting January 1 as 1.
pub open spec fn day_of_year(y: int, m: int, d: int) -> int {
    days_before_month(y, m) + d
}

/// Month and day reached by counting `rest` days from the first of month `m`.
pub open spec fn month_day_from(y: int, m: int, rest: int) -> (int, int)
    decreases 12 - m,
{
    if m >= 12 || rest <= days_in_month(y, m) {
        (m, rest)
    } else {
        month_day_from(y, m + 1, rest - days_in_month(y, m))
    }
}

/// The month and day of day `doy` of year `y`: January 1 plus `doy - 1` days.
pub open spec fn month_day(y: int, doy: int) -> (int, int) {
    month_day_from(y, 1, doy)
}

proof fn lemma_year_days(y: int)
    ensures
        days_before_month(y, 12) + 31 == year_length(y),
{
    reveal_with_fuel(days_before_month, 12);
}

proof fn lemma_month_day_from(y: int, m: int, rest: int)
    requires
        1 <= m <= 12,
        1 <= rest,
        days_before_month(y, m) + rest <= year_length(y),
    ensures
        valid_date(y, month_day_from(y, m, rest).0, month_day_from(y, m, rest).1),
        day_of_year(y, month_day_from(y, m, rest).0, month_day_from(y, m, rest).1)
            == days_before_month(y, m) + rest,
    decreases 12 - m,
{
    lemma_year_days(y);
    if m >= 12 || rest <= days_in_month(y, m) {
    } else {
        lemma_month_day_from(y, m + 1, rest - days_in_month(y, m));
    }
}

/// Every day of a year, turned into a month and a day, is a valid date that
/// falls on that same day of the year.
pub proof fn law_ordinal_round_trip(y: int, doy: int)
    requires
        1 <= doy <= year_length(y),
    ensures
        valid_date(y, month_day(y, doy).0, month_day(y, doy).1),
        day_of_year(y, month_day(y, doy).0, month_day(y, doy).1) == doy,
{
    lemma_month_day_from(y, 1, doy);
}

/// Day 366 exists only in a leap year: in any other year it is out of range.
pub proof fn law_day_366_needs_leap_year(y: int, c: Clock)
    requires
        !is_leap(y),
    ensures
        ordinal_stamp(y, 366, c) == Err::<Timestamp, ErrorKind>(ErrorKind::RangeViolation),
{
}

pub fn leap_year(y: i32) -> (r: bool)
    ensures
        r == is_leap(y as int),
{
    (y % 4 == 0 && y % 100 != 0) || y % 400 == 0
}

pub fn month_length(y: i32, m: u8) -> (r: u8)
    ensures
        r == days_in_month(y as int, m as int),
{
    if m == 2 {
        if leap_year(y) { 29 } else { 28 }
    } else if m == 4 || m == 6 || m == 9 || m == 11 {
        30
    } else {
        31
    }
}

/// The month and day of day `doy` of year `y`.
pub fn ordinal_to_month_day(y: i32, doy: u16) -> (r: (u8, u8))
    requires
        1 <= doy <= year_length(y as int),
    ensures
        r.0 == month_day(y as int, doy as int).0,
        r.1 == month_day(y as int, doy as int).1,
        valid_date(y as int, r.0 as int, r.1 as int),
{
    proof {
        law_ordinal_round_trip(y as int, doy as int);
        lemma_year_days(y as int);
    }
    let mut m: u8 = 1;
    let mut rest: u16 = doy;
    while m < 12 && rest > month_length(y, m) as u16
        invariant
            1 <= m <= 12,
            1 <= rest,
            days_before_month(y as int, m as int) + rest == doy,
            month_day_from(y as int, m as int, rest as int) == month_day(y as int, doy as int),
        decreases 12 - m,
    {
        rest = rest - month_length(y, m) as u16;
        m = m + 1;
    }
    (m, rest as u8)
}

/// `s[i..i + n]` is a run of `n` digits.
pub open spec fn digits_at(s: Seq<char>, i: int, n: int) -> bool {
    0 <= i && 0 <= n && i + n <= s.len() && all_digits(s.subrange(i, i + n))
}

/// The value of the digits `s[i..i + n]`.
pub open spec fn num_at(s: Seq<char>, i: int, n: int) -> int {
    digits_value(s.subrange(i, i + n))
}

pub open spec fn midnight_utc() -> Clock {
    Clock { hour: 0, minute: 0, second: 0, offset_minutes: 0 }
}

/// An offset suffix: nothing or `Z` for UTC, else `+HH:MM` or `-HH:MM`.
pub open spec fn zone_text(z: Seq<char>) -> Option<int> {
    if z.len() == 0 || (z.len() == 1 && z[0] == 'Z') {
        Some(0)
    } else if z.len() == 6 && (z[0] == '+' || z[0] == '-') && digits_at(z, 1, 2) && z[3] == ':'
        && digits_at(z, 4, 2) && num_at(z, 1, 2) <= 23 && num_at(z, 4, 2) <= 59 {
        let off = num_at(z, 1, 2) * 60 + num_at(z, 4, 2);
        Some(if z[0] == '-' { -off } else { off })
    } else {
        None
    }
}

/// What may follow a date: nothing (midnight, UTC), or `T` or a space, then
/// `HH:MM` or `HH:MM:SS`, then an offset suffix.
pub open spec fn clock_text(t: Seq<char>) -> Option<Clock> {
    if t.len() == 0 {
        Some(midnight_utc())
    } else if (t[0] == 'T' || t[0] == ' ') && t.len() >= 6 && digits_at(t, 1, 2) && t[3] == ':'
        && digits_at(t, 4, 2) {
        let has_sec = t.len() >= 9 && t[6] == ':';
        let zs: int = if has_sec { 9 } else { 6 };
        let sec = if has_sec { num_at(t, 7, 2) } else { 0 };
        let zone = zone_text(t.subrange(zs, t.len() as int));
        if (!has_sec || digits_at(t, 7, 2)) && num_at(t, 1, 2) <= 23 && num_at(t, 4, 2) <= 59 && sec
            <= 59 && zone is Some {
            Some(
                Clock {
                    hour: num_at(t, 1, 2) as u8,
                    minute: num_at(t, 4, 2) as u8,
                    second: sec as u8,
                    offset_minutes: zone->0 as i16,
                },
            )
        } else {
            None
        }
    } else {
        None
    }
}

pub open spec fn stamp(y: int, m: int, d: int, c: Clock) -> Timestamp {
    Timestamp {
        year: y as i32,
        month: m as u8,
        day: d as u8,
        hour: c.hour,
        minute: c.minute,
        second: c.second,
        offset_minutes: c.offset_minutes,
    }
}

/// Day `doy` of year `y` at the given time, where the year is positive and the
/// day lies within it.
pub open spec fn ordinal_stamp(y: int, doy: int, c: Clock) -> Result<Timestamp, ErrorKind> {
    if 1 <= y <= i32::MAX && 1 <= doy <= year_length(y) {
        Ok(stamp(y, month_day(y, doy).0, month_day(y, doy).1, c))
    } else {
        Err(ErrorKind::RangeViolation)
    }
}

/// A calendar date `YYYY-MM-DD`, then what `clock_text` accepts.
pub open spec fn calendar_text(s: Seq<char>) -> Result<Timestamp, ErrorKind> {
    if s.len() >= 10 && digits_at(s, 0, 4) && s[4] == '-' && digits_at(s, 5, 2) && s[7] == '-'
        && digits_at(s, 8, 2) && clock_text(s.subrange(10, s.len() as int)) is Some {
        let y = num_at(s, 0, 4);
        let m = num_at(s, 5, 2);
        let d = num_at(s, 8, 2);
        if y >= 1 && valid_date(y, m, d) {
            Ok(stamp(y, m, d, clock_text(s.subrange(10, s.len() as int))->0))
        } else {
            Err(ErrorKind::RangeViolation)
        }
    } else {
        Err(ErrorKind::ParseFailure)
    }
}

/// An ordinal date: seven digits `YYYYDDD`, or `YYYY-DDD` followed by what
/// `clock_text` accepts.
pub open spec fn ordinal_text(s: Seq<char>) -> Result<Timestamp, ErrorKind> {
    if s.len() == 7 && digits_at(s, 0, 7) {
        ordinal_stamp(num_at(s, 0, 4), num_at(s, 4, 3), midnight_utc())
    } else if s.len() >= 8 && digits_at(s, 0, 4) && s[4] == '-' && digits_at(s, 5, 3)
        && clock_text(s.subrange(8, s.len() as int)) is Some {
        ordinal_stamp(num_at(s, 0, 4), num_at(s, 5, 3), clock_text(s.subrange(8, s.len() as int))->0)
    } else {
        Err(ErrorKind::ParseFailure)
    }
}

proof fn lemma_digits_split(s: Seq<char>, i: int, a: int, b: int)
    requires
        0 <= i,
        0 <= a,
        0 <= b,
        i + a + b <= s.len(),
    ensures
        digits_at(s, i, a + b) == (digits_at(s, i, a) && digits_at(s, i + a, b)),
{
    assert(s.subrange(i, i + a + b) =~= s.subrange(i, i + a) + s.subrange(i + a, i + a + b));
    lemma_all_digits_concat(s.subrange(i, i + a), s.subrange(i + a, i + a + b));
}

/// The value of `n` digits at `s[i..]`, where they are there.
fn number_at(s: &Vec<char>, i: usize, n: usize) -> (r: Option<u32>)
    requires
        n <= 4,
    ensures
        r is Some <==> digits_at(s@, i as int, n as int),
        r is Some ==> r->0 == num_at(s@, i as int, n as int) && r->0 < 10000,
{
    if n > s.len() || i > s.len() - n {
        return None;
    }
    match digits_capped(s, i, i + n, 9999) {
        Some(v) => Some(v as u32),
        None => {
            proof {
                if all_digits(s@.subrange(i as int, i + n)) {
                    lemma_digits_bound(s@.subrange(i as int, i + n));
                    reveal_with_fuel(pow10, 5);
                }
            }
            None
        },
    }
}

fn zone_in(s: &Vec<char>, lo: usize) -> (r: Option<i16>)
    requires
        lo <= s@.len(),
    ensures
        r is Some <==> zone_text(s@.subrange(lo as int, s@.len() as int)) is Some,
        r is Some ==> r->0 == zone_text(s@.subrange(lo as int, s@.len() as int))->0,
{
    let ghost z = s@.subrange(lo as int, s@.len() as int);
    let len = s.len() - lo;
    if len == 0 || (len == 1 && s[lo] == 'Z') {
        return Some(0);
    }
    if len != 6 || !(s[lo] == '+' || s[lo] == '-') || s[lo + 3] != ':' {
        return None;
    }
    assert(z.subrange(1, 3) =~= s@.subrange(lo + 1, lo + 3));
    assert(z.subrange(4, 6) =~= s@.subrange(lo + 4, lo + 6));
    let h = match number_at(s, lo + 1, 2) {
        Some(v) => v,
        None => {
            return None;
        },
    };
    let m = match number_at(s, lo + 4, 2) {
        Some(v) => v,
        None => {
            return None;
        },
    };
    if h > 23 || m > 59 {
        return None;
    }
    let off = (h * 60 + m) as i16;
    if s[lo] == '-' {
        Some(-off)
    } else {
        Some(off)
    }
}

fn clock_in(s: &Vec<char>, lo: usize) -> (r: Option<Clock>)
    requires
        lo <= s@.len(),
    ensures
        r == clock_text(s@.subrange(lo as int, s@.len() as int)),
{
    let ghost t = s@.subrange(lo as int, s@.len() as int);
    let len = s.len() - lo;
    if len == 0 {
        return Some(Clock { hour: 0, minute: 0, second: 0, offset_minutes: 0 });
    }
    if !(s[lo] == 'T' || s[lo] == ' ') || len < 6 || s[lo + 3] != ':' {
        return None;
    }
    assert(t.subrange(1, 3) =~= s@.subrange(lo + 1, lo + 3));
    assert(t.subrange(4, 6) =~= s@.subrange(lo + 4, lo + 6));
    let h = match number_at(s, lo + 1, 2) {
        Some(v) => v,
        None => {
            return None;
        },
    };
    let mi = match number_at(s, lo + 4, 2) {
        Some(v) => v,
        None => {
            return None;
        },
    };
    let has_sec = len >= 9 && s[lo + 6] == ':';
    let mut sec: u32 = 0;
    if has_sec {
        assert(t.subrange(7, 9) =~= s@.subrange(lo + 7, lo + 9));
        match number_at(s, lo + 7, 2) {
            Some(v) => {
                sec = v;
            },
            None => {
                return None;
            },
        }
    }
    let zs: usize = if has_sec { lo + 9 } else { lo + 6 };
    assert(t.subrange(zs - lo, t.len() as int) =~= s@.subrange(zs as int, s@.len() as int));
    let off = match zone_in(s, zs) {
        Some(v) => v,
        None => {
            return None;
        },
    };
    if h > 23 || mi > 59 || sec > 59 {
        return None;
    }
    Some(Clock { hour: h as u8, minute: mi as u8, second: sec as u8, offset_minutes: off })
}

/// Reads a time of day, `HH:MM` or `HH:MM:SS`, with an optional offset suffix.
pub fn parse_time_of_day(text: &str) -> (r: Option<Clock>)
    ensures
        r == clock_text(seq!['T'] + text@),
{
    let t = crate::num::chars_of(text);
    let mut s: Vec<char> = Vec::new();
    s.push('T');
    let mut i: usize = 0;
    while i < t.len()
        invariant
            i <= t@.len(),
            s@ == seq!['T'] + t@.subrange(0, i as int),
        decreases t@.len() - i,
    {
        s.push(t[i]);
        i = i + 1;
        assert(s@ =~= seq!['T'] + t@.subrange(0, i as int));
    }
    assert(s@ =~= seq!['T'] + text@);
    assert(s@.subrange(0, s@.len() as int) =~= s@);
    clock_in(&s, 0)
}

/// Reads a calendar date with an optional time of day and offset.
pub fn parse_calendar(text: &str) -> (r: Result<Timestamp, ErrorKind>)
    ensures
        r == calendar_text(text@),
{
    let s = crate::num::chars_of(text);
    if s.len() < 10 || s[4] != '-' || s[7] != '-' {
        return Err(ErrorKind::ParseFailure);
    }
    let y = match number_at(&s, 0, 4) {
        Some(v) => v,
        None => {
            return Err(ErrorKind::ParseFailure);
        },
    };
    let m = match number_at(&s, 5, 2) {
        Some(v) => v,
        None => {
            return Err(ErrorKind::ParseFailure);
        },
    };
    let d = match number_at(&s, 8, 2) {
        Some(v) => v,
        None => {
            return Err(ErrorKind::ParseFailure);
        },
    };
    let c = match clock_in(&s, 10) {
        Some(c) => c,
        None => {
            return Err(ErrorKind::ParseFailure);
        },
    };
    if y < 1 || m < 1 || m > 12 || d < 1 || d > month_length(y as i32, m as u8) as u32 {
        return Err(ErrorKind::RangeViolation);
    }
    Ok(
        Timestamp {
            year: y as i32,
            month: m as u8,
            day: d as u8,
            hour: c.hour,
            minute: c.minute,
            second: c.second,
            offset_minutes: c.offset_minutes,
        },
    )
}

/// Day `doy` of year `y` at the given time of day.
pub fn ordinal_date(y: i64, doy: i64, c: Clock) -> (r: Result<Timestamp, ErrorKind>)
    ensures
        r == ordinal_stamp(y as int, doy as int, c),
{
    if y < 1 || y > i32::MAX as i64 || doy < 1 || doy > 366 {
        return Err(ErrorKind::RangeViolation);
    }
    if doy == 366 && !leap_year(y as i32) {
        return Err(ErrorKind::RangeViolation);
    }
    let (m, d) = ordinal_to_month_day(y as i32, doy as u16);
    Ok(
        Timestamp {
            year: y as i32,
            month: m,
            day: d,
            hour: c.hour,
            minute: c.minute,
            second: c.second,
            offset_minutes: c.offset_minutes,
        },
    )
}

/// Reads an ordinal date, `YYYYDDD` or `YYYY-DDD` with an optional time of day and offset.
pub fn parse_ordinal(text: &str) -> (r: Result<Timestamp, ErrorKind>)
    ensures
        r == ordinal_text(text@),
{
    let s = crate::num::chars_of(text);
    if s.len() == 7 {
        let y = number_at(&s, 0, 4);
        let doy = number_at(&s, 4, 3);
        if y.is_some() && doy.is_some() {
            proof {
                lemma_digits_split(s@, 0, 4, 3);
            }
            return ordinal_date(y.unwrap() as i64, doy.unwrap() as i64, Clock { hour: 0, minute: 0, second: 0, offset_minutes: 0 });
        }
        proof {
            lemma_digits_split(s@, 0, 4, 3);
        }
        return Err(ErrorKind::ParseFailure);
    }
    if s.len() < 8 || s[4] != '-' {
        return Err(ErrorKind::ParseFailure);
    }
    let y = match number_at(&s, 0, 4) {
        Some(v) => v,
        None => {
            return Err(ErrorKind::ParseFailure);
        },
    };
    let doy = match number_at(&s, 5, 3) {
        Some(v) => v,
        None => {
            return Err(ErrorKind::ParseFailure);
        },
    };
    let c = match clock_in(&s, 8) {
        Some(c) => c,
        None => {
            return Err(ErrorKind::ParseFailure);
        },
    };
    ordinal_date(y as i64, doy as i64, c)
}

} // verus!
