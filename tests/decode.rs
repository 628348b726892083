use mars_raw_utils::report::{csv_line, decimal_to_text, int_to_text, timestamp_text, weather_cells};
use mars_raw_utils::codec::{decode_decimal, decode_int, decode_ordinal_pair, tolerant};
use mars_raw_utils::date::{ordinal_date, ordinal_to_month_day, parse_calendar, parse_ordinal, Clock, Timestamp};
use mars_raw_utils::error::{DecodeError, ErrorKind, FieldFailure};
use mars_raw_utils::json::{find_key, get_field, text_eq, JsonValue};
use mars_raw_utils::num::{parse_decimal, parse_int, Decimal};
use mars_raw_utils::passes::{decode_overflight, decode_passes};
use mars_raw_utils::weather::{decode_sol, decode_weather};

fn s(t: &str) -> JsonValue {
    JsonValue::Str(t.to_string())
}

fn n(t: &str) -> JsonValue {
    JsonValue::Number(t.to_string())
}

fn obj(members: Vec<(&str, JsonValue)>) -> Vec<(String, JsonValue)> {
    members.into_iter().map(|(k, v)| (k.to_string(), v)).collect()
}

fn dec(negative: bool, mantissa: u64, exponent: i64) -> Decimal {
    Decimal { negative, mantissa, exponent }
}

fn midnight() -> Clock {
    Clock { hour: 0, minute: 0, second: 0, offset_minutes: 0 }
}

fn weather_members() -> Vec<(&'static str, JsonValue)> {
    vec![
        ("terrestrial_date", s("2021-03-05")),
        ("sol", n("10")),
        ("ls", s("76.0")),
        ("season", s("month 3")),
        ("min_temp", s("-75")),
        ("max_temp", JsonValue::Null),
        ("pressure", s("750.7")),
        ("sunrise", s("06:31")),
        ("sunset", s("18:48")),
    ]
}

fn without(members: Vec<(&'static str, JsonValue)>, key: &str) -> Vec<(&'static str, JsonValue)> {
    members.into_iter().filter(|(k, _)| *k != key).collect()
}

fn replaced(members: Vec<(&'static str, JsonValue)>, key: &'static str, v: JsonValue) -> Vec<(&'static str, JsonValue)> {
    let mut out = without(members, key);
    out.push((key, v));
    out
}

fn pass_members() -> Vec<(&'static str, JsonValue)> {
    vec![
        ("OVERFLIGHTID", s("MRO-2021-064")),
        ("SPACECRAFTORBITER", s("MRO")),
        ("SPACECRAFTLANDER", s("M20")),
        ("STARTRISEYEAR", n("2021")),
        ("STARTRISEDAYOFYEAR", n("64")),
        ("OVERFLIGHTPASSNUMBER", s("3")),
        ("MAXIMUMELEVATION", n("45.5")),
        ("MAXIMUMELEVATIONTIME", s("2021-064T12:34:56")),
        ("MAXIMUMELEVATIONRANGE", s("1234.5")),
        ("STARTTIME", s("2021-064T12:30:00")),
        ("ENDTIME", s("2021-064T12:40:00")),
        ("RISESETDURATION", n("600")),
        ("REQUESTTYPE", s("OPEN")),
        ("REQUESTFORWARDLINKDATARATE", n("8000")),
        ("HAILSTART", s("2021-064T12:29:00")),
        ("HAILDURATION", s("n/a")),
    ]
}

#[test]
fn weather_record_scenario() {
    let e = obj(weather_members());
    let m = decode_sol(&e).unwrap();
    assert_eq!((m.terrestrial_date.year, m.terrestrial_date.month, m.terrestrial_date.day), (2021, 3, 5));
    assert_eq!((m.terrestrial_date.hour, m.terrestrial_date.minute, m.terrestrial_date.offset_minutes), (0, 0, 0));
    assert_eq!(m.sol, 10);
    assert_eq!(m.solar_longitude, dec(false, 760, -1));
    assert_eq!(m.min_temp, Some(dec(true, 75, 0)));
    assert_eq!(m.max_temp, None);
    assert_eq!(m.pressure, Some(dec(false, 7507, -1)));
    assert_eq!(m.season, "month 3");
    assert_eq!(m.sunrise, "06:31");
    assert_eq!(m.sunset, "18:48");
}

#[test]
fn overflight_start_rise_at_midnight() {
    let e = obj(pass_members());
    let o = decode_overflight(&e).unwrap();
    assert_eq!(
        o.start_rise,
        Timestamp { year: 2021, month: 3, day: 5, hour: 0, minute: 0, second: 0, offset_minutes: 0 }
    );
    assert_eq!(o.start_rise_year, 2021);
    assert_eq!(o.start_rise_day_of_year, 64);
    assert_eq!(o.overflight_pass_number, 3);
    assert_eq!(o.maximum_elevation, dec(false, 455, -1));
    assert_eq!(
        o.maximum_elevation_time,
        Timestamp { year: 2021, month: 3, day: 5, hour: 12, minute: 34, second: 56, offset_minutes: 0 }
    );
    assert_eq!(o.rise_set_duration, dec(false, 600, 0));
    assert_eq!(o.request_type, Some("OPEN".to_string()));
    assert_eq!(o.request_category, None);
    assert_eq!(o.request_forward_link_data_rate, Some(8000));
    assert_eq!(o.hail_start.map(|t| (t.hour, t.minute)), Some((12, 29)));
    assert_eq!(o.hail_duration, None);
    assert_eq!(o.overflight_id, "MRO-2021-064");
}

#[test]
fn overflight_snake_case_keys() {
    let e = obj(vec![
        ("overflight_id", s("x")),
        ("spacecraft_orbiter", s("TGO")),
        ("spacecraft_lander", s("M20")),
        ("start_rise_year", s("2020")),
        ("start_rise_day_of_year", s("366")),
        ("overflight_pass_number", n("1")),
        ("maximum_elevation", n("1")),
        ("maximum_elevation_time", n("2020366")),
        ("maximum_elevation_range", n("1")),
        ("start_time", s("2020-366")),
        ("end_time", s("2020-366T23:59:59Z")),
        ("rise_set_duration", n("1e2")),
    ]);
    let o = decode_overflight(&e).unwrap();
    assert_eq!((o.start_rise.month, o.start_rise.day), (12, 31));
    assert_eq!((o.maximum_elevation_time.month, o.maximum_elevation_time.day), (12, 31));
    assert_eq!(o.rise_set_duration, dec(false, 1, 2));
}

#[test]
fn malformed_optional_fields_become_absent() {
    for bad in [s("warm"), JsonValue::Bool(true), JsonValue::Array(vec![]), s("")] {
        let e = obj(replaced(weather_members(), "min_temp", bad));
        let m = decode_sol(&e).unwrap();
        assert_eq!(m.min_temp, None);
        assert_eq!(m.sol, 10);
    }
    let e = obj(replaced(pass_members(), "REQUESTFORWARDLINKDATARATE", s("fast")));
    assert_eq!(decode_overflight(&e).unwrap().request_forward_link_data_rate, None);
    let e = obj(replaced(pass_members(), "HAILSTART", s("2021-400")));
    assert_eq!(decode_overflight(&e).unwrap().hail_start, None);
    let e = obj(replaced(pass_members(), "REQUESTTYPE", n("5")));
    assert_eq!(decode_overflight(&e).unwrap().request_type, None);
}

#[test]
fn missing_required_field_fails_record() {
    let e = obj(without(weather_members(), "sol"));
    let f = decode_sol(&e).unwrap_err();
    assert_eq!(f, vec![FieldFailure { field: "sol", kind: ErrorKind::MissingRequiredField }]);
    let e = obj(without(without(weather_members(), "sunset"), "ls"));
    let f = decode_sol(&e).unwrap_err();
    assert_eq!(
        f,
        vec![
            FieldFailure { field: "solar_longitude", kind: ErrorKind::MissingRequiredField },
            FieldFailure { field: "sunset", kind: ErrorKind::MissingRequiredField },
        ]
    );
    let e = obj(without(pass_members(), "ENDTIME"));
    let f = decode_overflight(&e).unwrap_err();
    assert_eq!(f, vec![FieldFailure { field: "end_time", kind: ErrorKind::MissingRequiredField }]);
}

#[test]
fn error_kinds_of_required_fields() {
    let e = obj(replaced(weather_members(), "sol", JsonValue::Bool(false)));
    assert_eq!(decode_sol(&e).unwrap_err()[0].kind, ErrorKind::TypeMismatch);
    let e = obj(replaced(weather_members(), "sol", s("ten")));
    assert_eq!(decode_sol(&e).unwrap_err()[0].kind, ErrorKind::ParseFailure);
    let e = obj(replaced(weather_members(), "sol", n("10.5")));
    assert_eq!(decode_sol(&e).unwrap_err()[0].kind, ErrorKind::TypeMismatch);
    let e = obj(replaced(weather_members(), "sol", n("3000000000")));
    assert_eq!(decode_sol(&e).unwrap_err()[0].kind, ErrorKind::RangeViolation);
    let e = obj(replaced(weather_members(), "terrestrial_date", s("2021-02-30")));
    assert_eq!(
        decode_sol(&e).unwrap_err(),
        vec![FieldFailure { field: "terrestrial_date", kind: ErrorKind::RangeViolation }]
    );
    let e = obj(replaced(weather_members(), "terrestrial_date", s("March 5")));
    assert_eq!(decode_sol(&e).unwrap_err()[0].kind, ErrorKind::ParseFailure);
    let e = obj(replaced(pass_members(), "STARTRISEDAYOFYEAR", n("366")));
    assert_eq!(
        decode_overflight(&e).unwrap_err(),
        vec![FieldFailure { field: "start_rise", kind: ErrorKind::RangeViolation }]
    );
}

#[test]
fn day_366_of_common_year_is_out_of_range() {
    assert_eq!(ordinal_date(2021, 366, midnight()), Err(ErrorKind::RangeViolation));
    assert_eq!(ordinal_date(2021, 0, midnight()), Err(ErrorKind::RangeViolation));
    assert_eq!(ordinal_date(0, 1, midnight()), Err(ErrorKind::RangeViolation));
    assert_eq!(ordinal_date(2020, 366, midnight()).map(|t| (t.month, t.day)), Ok((12, 31)));
    assert_eq!(parse_ordinal("2021366"), Err(ErrorKind::RangeViolation));
    assert_eq!(parse_ordinal("2021-36"), Err(ErrorKind::ParseFailure));
}

#[test]
fn ordinal_days_map_to_calendar() {
    assert_eq!(ordinal_to_month_day(2020, 60), (2, 29));
    assert_eq!(ordinal_to_month_day(2021, 60), (3, 1));
    assert_eq!(ordinal_to_month_day(2021, 1), (1, 1));
    assert_eq!(ordinal_to_month_day(2021, 365), (12, 31));
    assert_eq!(ordinal_to_month_day(1900, 365), (12, 31));
    assert_eq!(ordinal_to_month_day(2000, 366), (12, 31));
}

#[test]
fn second_alias_and_first_alias_priority() {
    let e = obj(weather_members());
    assert_eq!(decode_decimal(&e, &["solar_longitude", "ls"]), Ok(dec(false, 760, -1)));
    let e = obj(replaced(weather_members(), "solar_longitude", s("12.5")));
    assert_eq!(decode_sol(&e).unwrap().solar_longitude, dec(false, 125, -1));
    let e = obj(vec![("b", n("2")), ("a", n("1"))]);
    assert_eq!(decode_int(&e, &["a", "b"]), Ok(1));
    assert_eq!(decode_int(&e, &["c", "b"]), Ok(2));
    assert_eq!(decode_int(&e, &["c", "d"]), Err(ErrorKind::MissingRequiredField));
    assert!(get_field(&e, &["A"]).is_none());
    assert!(matches!(find_key(&e, "b"), Some(JsonValue::Number(t)) if t == "2"));
}

#[test]
fn empty_feed_decodes_to_nothing() {
    assert_eq!(decode_weather(&JsonValue::Array(vec![])).unwrap().sols.len(), 0);
    let doc = JsonValue::Object(obj(vec![("sols", JsonValue::Array(vec![]))]));
    assert_eq!(decode_weather(&doc).unwrap().sols.len(), 0);
    let doc = JsonValue::Object(obj(vec![("marsRelay", JsonValue::Array(vec![]))]));
    assert_eq!(decode_passes(&doc).unwrap().overflights.len(), 0);
}

#[test]
fn feed_keeps_order_and_stops_at_first_bad_record() {
    let good = JsonValue::Object(obj(weather_members()));
    let other = JsonValue::Object(obj(replaced(weather_members(), "sol", n("11"))));
    let doc = JsonValue::Object(obj(vec![("sols", JsonValue::Array(vec![good, other]))]));
    let sols = decode_weather(&doc).unwrap().sols;
    assert_eq!(sols.iter().map(|m| m.sol).collect::<Vec<_>>(), vec![10, 11]);

    let good = JsonValue::Object(obj(weather_members()));
    let bad = JsonValue::Object(obj(without(weather_members(), "season")));
    let worse = JsonValue::Null;
    let doc = JsonValue::Array(vec![good, bad, worse]);
    assert_eq!(
        decode_weather(&doc).unwrap_err(),
        DecodeError::Record {
            index: 1,
            failures: vec![FieldFailure { field: "season", kind: ErrorKind::MissingRequiredField }],
        }
    );
}

#[test]
fn malformed_documents() {
    assert_eq!(decode_weather(&s("sols")).unwrap_err(), DecodeError::MalformedDocument);
    let doc = JsonValue::Object(obj(vec![("sols", JsonValue::Null)]));
    assert_eq!(decode_weather(&doc).unwrap_err(), DecodeError::MalformedDocument);
    let doc = JsonValue::Array(vec![n("1")]);
    assert_eq!(decode_passes(&doc).unwrap_err(), DecodeError::MalformedDocument);
}

#[test]
fn integer_text() {
    assert_eq!(parse_int("42"), Some(42));
    assert_eq!(parse_int("-7"), Some(-7));
    assert_eq!(parse_int("+7"), Some(7));
    assert_eq!(parse_int("9223372036854775807"), Some(i64::MAX));
    assert_eq!(parse_int("-9223372036854775808"), Some(i64::MIN));
    assert_eq!(parse_int("9223372036854775808"), None);
    assert_eq!(parse_int(""), None);
    assert_eq!(parse_int("-"), None);
    assert_eq!(parse_int("1.0"), None);
    assert_eq!(parse_int(" 1"), None);
}

#[test]
fn decimal_text() {
    assert_eq!(parse_decimal("750.7"), Some(dec(false, 7507, -1)));
    assert_eq!(parse_decimal("-75"), Some(dec(true, 75, 0)));
    assert_eq!(parse_decimal(".5"), Some(dec(false, 5, -1)));
    assert_eq!(parse_decimal("5."), Some(dec(false, 5, 0)));
    assert_eq!(parse_decimal("1.5e-7"), Some(dec(false, 15, -8)));
    assert_eq!(parse_decimal("2E+3"), Some(dec(false, 2, 3)));
    assert_eq!(parse_decimal("."), None);
    assert_eq!(parse_decimal("1e"), None);
    assert_eq!(parse_decimal("1.2.3"), None);
    assert_eq!(parse_decimal("abc"), None);
    assert_eq!(parse_decimal("99999999999999999999"), None);
}

#[test]
fn calendar_text_with_time_and_offset() {
    assert_eq!(
        parse_calendar("2021-03-05T06:31:02-07:30"),
        Ok(Timestamp { year: 2021, month: 3, day: 5, hour: 6, minute: 31, second: 2, offset_minutes: -450 })
    );
    assert_eq!(parse_calendar("2021-03-05 06:31").map(|t| (t.hour, t.minute, t.second)), Ok((6, 31, 0)));
    assert_eq!(parse_calendar("2024-02-29Z").is_err(), true);
    assert_eq!(parse_calendar("2024-02-29").map(|t| t.day), Ok(29));
    assert_eq!(parse_calendar("2023-02-29"), Err(ErrorKind::RangeViolation));
    assert_eq!(parse_calendar("2021-03-05T25:00"), Err(ErrorKind::ParseFailure));
    assert_eq!(parse_calendar("2021/03/05"), Err(ErrorKind::ParseFailure));
}

#[test]
fn ordinal_pair_and_tolerant_lift() {
    let e = obj(vec![("y", n("2021")), ("d", s("64")), ("t", s("07:08:09+01:00")), ("bad", s("7h"))]);
    assert_eq!(decode_ordinal_pair(&e, &["y"], &["d"], &[]).map(|t| (t.month, t.day, t.hour)), Ok((3, 5, 0)));
    assert_eq!(
        decode_ordinal_pair(&e, &["y"], &["d"], &["t"]),
        Ok(Timestamp { year: 2021, month: 3, day: 5, hour: 7, minute: 8, second: 9, offset_minutes: 60 })
    );
    assert_eq!(decode_ordinal_pair(&e, &["y"], &["d"], &["bad"]), Err(ErrorKind::ParseFailure));
    assert_eq!(decode_ordinal_pair(&e, &["y"], &["x"], &[]), Err(ErrorKind::MissingRequiredField));
    assert_eq!(tolerant(decode_int(&e, &["y"])), Some(2021));
    assert_eq!(tolerant(decode_int(&e, &["x"])), None);
    assert!(text_eq("sol", "sol"));
    assert!(!text_eq("sol", "sols"));
}

#[test]
fn report_cells_and_csv_line() {
    let m = decode_sol(&obj(weather_members())).unwrap();
    let cells = weather_cells(&m);
    assert_eq!(
        cells,
        vec!["2021-03-05 00:00:00 +00:00", "10", "", "-75", "750.7", "06:31", "18:48", "month 3"]
    );
    assert_eq!(csv_line(&cells), "2021-03-05 00:00:00 +00:00,10,,-75,750.7,06:31,18:48,month 3");
    assert_eq!(csv_line(&vec![]), "");
    assert_eq!(decimal_to_text(&dec(false, 760, -1)), "76.0");
    assert_eq!(decimal_to_text(&dec(false, 5, -1)), "5e-1");
    assert_eq!(decimal_to_text(&dec(true, 2, 3)), "-2e3");
    assert_eq!(int_to_text(i64::MIN), "-9223372036854775808");
    assert_eq!(int_to_text(0), "0");
    let t = Timestamp { year: 987, month: 1, day: 2, hour: 3, minute: 4, second: 5, offset_minutes: -450 };
    assert_eq!(timestamp_text(&t), "0987-01-02 03:04:05 -07:30");
}
