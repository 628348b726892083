//! Field codecs: strict ones that fail the record, and the tolerant lift of any of them.
use vstd::prelude::*;
use crate::date::{calendar_text, clock_text, parse_time_of_day, ordinal_stamp, ordinal_text, parse_calendar, parse_ordinal, midnight_utc, ordinal_date, Clock, Timestamp};
use crate::error::{ErrorKind, FieldFailure};
use crate::json::{get_field, names_view, resolve, JsonValue};
use crate::num::{decimal_text, int_text, parse_decimal, parse_int, Decimal};

verus! {

/// The raw value of a field, found under the first alias the object holds.
pub open spec fn raw(entries: Seq<(String, JsonValue)>, aliases: Seq<&str>) -> Option<JsonValue> {
    resolve(entries, names_view(aliases))
}

/// An integer, given as a JSON number or as a numeral in a string.
pub open spec fn int_field(v: Option<JsonValue>) -> Result<i64, ErrorKind> {
    match v {
        None => Err(ErrorKind::MissingRequiredField),
        Some(JsonValue::Number(t)) => match int_text(t@) {
            Some(n) => Ok(n as i64),
            None => Err(ErrorKind::TypeMismatch),
        },
        Some(JsonValue::Str(t)) => match int_text(t@) {
            Some(n) => Ok(n as i64),
            None => Err(ErrorKind::ParseFailure),
        },
        Some(_) => Err(ErrorKind::TypeMismatch),
    }
}

/// An integer, as `int_field` reads it, in the range of `i32`.
pub open spec fn int32_field(v: Option<JsonValue>) -> Result<i32, ErrorKind> {
    match int_field(v) {
        Ok(n) => if i32::MIN <= n && n <= i32::MAX {
            Ok(n as i32)
        } else {
            Err(ErrorKind::RangeViolation)
        },
        Err(k) => Err(k),
    }
}

/// A decimal number, given as a JSON number or as a numeral in a string.
pub open spec fn decimal_field(v: Option<JsonValue>) -> Result<Decimal, ErrorKind> {
    match v {
        None => Err(ErrorKind::MissingRequiredField),
        Some(JsonValue::Number(t)) => match decimal_text(t@) {
            Some(d) => Ok(d),
            None => Err(ErrorKind::RangeViolation),
        },
        Some(JsonValue::Str(t)) => match decimal_text(t@) {
            Some(d) => Ok(d),
            None => Err(ErrorKind::ParseFailure),
        },
        Some(_) => Err(ErrorKind::TypeMismatch),
    }
}

/// A JSON string.
pub open spec fn string_field(v: Option<JsonValue>) -> Result<String, ErrorKind> {
    match v {
        None => Err(ErrorKind::MissingRequiredField),
        Some(JsonValue::Str(t)) => Ok(t),
        Some(_) => Err(ErrorKind::TypeMismatch),
    }
}

/// A calendar date-time string.
pub open spec fn calendar_field(v: Option<JsonValue>) -> Result<Timestamp, ErrorKind> {
    match v {
        None => Err(ErrorKind::MissingRequiredField),
        Some(JsonValue::Str(t)) => calendar_text(t@),
        Some(_) => Err(ErrorKind::TypeMismatch),
    }
}

/// An ordinal date-time, as a string or as a seven-digit JSON number `YYYYDDD`.
pub open spec fn ordinal_field(v: Option<JsonValue>) -> Result<Timestamp, ErrorKind> {
    match v {
        None => Err(ErrorKind::MissingRequiredField),
        Some(JsonValue::Str(t)) => ordinal_text(t@),
        Some(JsonValue::Number(t)) => ordinal_text(t@),
        Some(_) => Err(ErrorKind::TypeMismatch),
    }
}

/// A time of day: midnight UTC where absent, else a string `HH:MM[:SS]` with an
/// optional offset suffix.
pub open spec fn time_field(v: Option<JsonValue>) -> Result<Clock, ErrorKind> {
    match v {
        None => Ok(midnight_utc()),
        Some(JsonValue::Str(t)) => match clock_text(seq!['T'] + t@) {
            Some(c) => Ok(c),
            None => Err(ErrorKind::ParseFailure),
        },
        Some(_) => Err(ErrorKind::TypeMismatch),
    }
}

/// An ordinal date from a year, a day-of-year and an optional time of day held apart.
pub open spec fn ordinal_pair_field(
    year: Option<JsonValue>,
    doy: Option<JsonValue>,
    time: Option<JsonValue>,
) -> Result<Timestamp, ErrorKind> {
    match int_field(year) {
        Err(k) => Err(k),
        Ok(y) => match int_field(doy) {
            Err(k) => Err(k),
            Ok(d) => match time_field(time) {
                Err(k) => Err(k),
                Ok(c) => ordinal_stamp(y as int, d as int, c),
            },
        },
    }
}

/// The tolerant reading of a strict result: its value, or nothing on any failure.
pub open spec fn tolerant_of<T>(r: Result<T, ErrorKind>) -> Option<T> {
    match r {
        Ok(v) => Some(v),
        Err(_) => None,
    }
}

/// Lifts a strict codec's result into a tolerant one: a failure of any kind
/// becomes an absent value.
pub fn tolerant<T>(r: Result<T, ErrorKind>) -> (o: Option<T>)
    ensures
        o == tolerant_of(r),
{
    match r {
        Ok(v) => Some(v),
        Err(_) => None,
    }
}

pub fn decode_int(entries: &Vec<(String, JsonValue)>, aliases: &[&str]) -> (r: Result<i64, ErrorKind>)
    ensures
        r == int_field(raw(entries@, aliases@)),
{
    match get_field(entries, aliases) {
        None => Err(ErrorKind::MissingRequiredField),
        Some(JsonValue::Number(t)) => match parse_int(t.as_str()) {
            Some(n) => Ok(n),
            None => Err(ErrorKind::TypeMismatch),
        },
        Some(JsonValue::Str(t)) => match parse_int(t.as_str()) {
            Some(n) => Ok(n),
            None => Err(ErrorKind::ParseFailure),
        },
        Some(_) => Err(ErrorKind::TypeMismatch),
    }
}

pub fn decode_int32(entries: &Vec<(String, JsonValue)>, aliases: &[&str]) -> (r: Result<i32, ErrorKind>)
    ensures
        r == int32_field(raw(entries@, aliases@)),
{
    match decode_int(entries, aliases) {
        Ok(n) => if i32::MIN as i64 <= n && n <= i32::MAX as i64 {
            Ok(n as i32)
        } else {
            Err(ErrorKind::RangeViolation)
        },
        Err(k) => Err(k),
    }
}

pub fn decode_decimal(entries: &Vec<(String, JsonValue)>, aliases: &[&str]) -> (r: Result<Decimal, ErrorKind>)
    ensures
        r == decimal_field(raw(entries@, aliases@)),
{
    match get_field(entries, aliases) {
        None => Err(ErrorKind::MissingRequiredField),
        Some(JsonValue::Number(t)) => match parse_decimal(t.as_str()) {
            Some(d) => Ok(d),
            None => Err(ErrorKind::RangeViolation),
        },
        Some(JsonValue::Str(t)) => match parse_decimal(t.as_str()) {
            Some(d) => Ok(d),
            None => Err(ErrorKind::ParseFailure),
        },
        Some(_) => Err(ErrorKind::TypeMismatch),
    }
}

pub fn decode_string(entries: &Vec<(String, JsonValue)>, aliases: &[&str]) -> (r: Result<String, ErrorKind>)
    ensures
        r == string_field(raw(entries@, aliases@)),
{
    match get_field(entries, aliases) {
        None => Err(ErrorKind::MissingRequiredField),
        Some(JsonValue::Str(t)) => Ok(t.clone()),
        Some(_) => Err(ErrorKind::TypeMismatch),
    }
}

pub fn decode_calendar(entries: &Vec<(String, JsonValue)>, aliases: &[&str]) -> (r: Result<Timestamp, ErrorKind>)
    ensures
        r == calendar_field(raw(entries@, aliases@)),
{
    match get_field(entries, aliases) {
        None => Err(ErrorKind::MissingRequiredField),
        Some(JsonValue::Str(t)) => parse_calendar(t.as_str()),
        Some(_) => Err(ErrorKind::TypeMismatch),
    }
}

pub fn decode_ordinal(entries: &Vec<(String, JsonValue)>, aliases: &[&str]) -> (r: Result<Timestamp, ErrorKind>)
    ensures
        r == ordinal_field(raw(entries@, aliases@)),
{
    match get_field(entries, aliases) {
        None => Err(ErrorKind::MissingRequiredField),
        Some(JsonValue::Str(t)) => parse_ordinal(t.as_str()),
        Some(JsonValue::Number(t)) => parse_ordinal(t.as_str()),
        Some(_) => Err(ErrorKind::TypeMismatch),
    }
}

pub fn decode_ordinal_pair(
    entries: &Vec<(String, JsonValue)>,
    year_aliases: &[&str],
    doy_aliases: &[&str],
    time_aliases: &[&str],
) -> (r: Result<Timestamp, ErrorKind>)
    ensures
        r == ordinal_pair_field(
            raw(entries@, year_aliases@),
            raw(entries@, doy_aliases@),
            raw(entries@, time_aliases@),
        ),
{
    let y = match decode_int(entries, year_aliases) {
        Ok(y) => y,
        Err(k) => {
            return Err(k);
        },
    };
    let d = match decode_int(entries, doy_aliases) {
        Ok(d) => d,
        Err(k) => {
            return Err(k);
        },
    };
    let c = match get_field(entries, time_aliases) {
        None => Clock { hour: 0, minute: 0, second: 0, offset_minutes: 0 },
        Some(JsonValue::Str(t)) => match parse_time_of_day(t.as_str()) {
            Some(c) => c,
            None => {
                return Err(ErrorKind::ParseFailure);
            },
        },
        Some(_) => {
            return Err(ErrorKind::TypeMismatch);
        },
    };
    ordinal_date(y, d, c)
}

/// The failures a strict result adds to its record's list.
pub open spec fn failure_of<T>(r: Result<T, ErrorKind>, field: &'static str) -> Seq<FieldFailure> {
    match r {
        Ok(_) => seq![],
        Err(k) => seq![FieldFailure { field, kind: k }],
    }
}

/// Records the failure of a required field, if it failed.
pub fn note<T>(fails: &mut Vec<FieldFailure>, r: &Result<T, ErrorKind>, field: &'static str)
    ensures
        final(fails)@ == old(fails)@ + failure_of(*r, field),
{
    match r {
        Ok(_) => {
            assert(old(fails)@ + failure_of(*r, field) =~= old(fails)@);
        },
        Err(k) => {
            fails.push(FieldFailure { field, kind: *k });
        },
    }
}

} // verus!
