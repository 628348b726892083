//! Surface weather records, one per sol.
use vstd::prelude::*;
use crate::codec::{decimal_field, decode_calendar, decode_decimal, decode_int32, decode_string, failure_of, int32_field, calendar_field, note, raw, string_field, tolerant, tolerant_of};
use crate::date::Timestamp;
use crate::error::{DecodeError, ErrorKind, FieldFailure};
use crate::json::{entries_of, find_items, items_of, lemma_resolve_other_key, JsonValue};
use crate::num::Decimal;

verus! {

/// One sol of surface weather observations.
#[derive(Clone, Debug)]
pub struct MedaSol {
    /// Earth date of the observation.
    pub terrestrial_date: Timestamp,
    /// Mission sol number.
    pub sol: i32,
    /// Solar longitude, in degrees.
    pub solar_longitude: Decimal,
    pub season: String,
    /// Minimum temperature, in degrees Celsius.
    pub min_temp: Option<Decimal>,
    /// Maximum temperature, in degrees Celsius.
    pub max_temp: Option<Decimal>,
    /// Atmospheric pressure, in pascals.
    pub pressure: Option<Decimal>,
    pub sunrise: String,
    pub sunset: String,
}

/// A weather feed: its sols in feed order.
#[derive(Clone, Debug)]
pub struct MedaSols {
    pub sols: Vec<MedaSol>,
}

/// The failures of the required fields of a weather record, in field order.
pub open spec fn sol_failures(e: Seq<(String, JsonValue)>) -> Seq<FieldFailure> {
    failure_of(calendar_field(raw(e, seq!["terrestrial_date"])), "terrestrial_date")
        + failure_of(int32_field(raw(e, seq!["sol"])), "sol")
        + failure_of(decimal_field(raw(e, seq!["solar_longitude", "ls"])), "solar_longitude")
        + failure_of(string_field(raw(e, seq!["season"])), "season")
        + failure_of(string_field(raw(e, seq!["sunrise"])), "sunrise")
        + failure_of(string_field(raw(e, seq!["sunset"])), "sunset")
}

/// The weather record an object decodes to, where it has no failures.
pub open spec fn sol_of(e: Seq<(String, JsonValue)>) -> MedaSol {
    MedaSol {
        terrestrial_date: calendar_field(raw(e, seq!["terrestrial_date"]))->Ok_0,
        sol: int32_field(raw(e, seq!["sol"]))->Ok_0,
        solar_longitude: decimal_field(raw(e, seq!["solar_longitude", "ls"]))->Ok_0,
        season: string_field(raw(e, seq!["season"]))->Ok_0,
        min_temp: tolerant_of(decimal_field(raw(e, seq!["min_temp"]))),
        max_temp: tolerant_of(decimal_field(raw(e, seq!["max_temp"]))),
        pressure: tolerant_of(decimal_field(raw(e, seq!["pressure"]))),
        sunrise: string_field(raw(e, seq!["sunrise"]))->Ok_0,
        sunset: string_field(raw(e, seq!["sunset"]))->Ok_0,
    }
}

/// Decodes one weather record from the members of an object: every required field
/// must decode, and all that do not are reported together; an optional field
/// that does not decode is left absent.
#[verifier::rlimit(100)]
pub fn decode_sol(entries: &Vec<(String, JsonValue)>) -> (r: Result<MedaSol, Vec<FieldFailure>>)
    ensures
        r is Ok <==> sol_failures(entries@).len() == 0,
        r is Ok ==> r->Ok_0 == sol_of(entries@),
        r is Err ==> r->Err_0@ == sol_failures(entries@),
{
    let mut fails: Vec<FieldFailure> = Vec::new();
    // Each alias list is written out again in the contract as a sequence; the
    // assertions tie the two spellings together.
    proof {
        assert(["terrestrial_date"]@ == seq!["terrestrial_date"]);
    }
    let terrestrial_date = decode_calendar(entries, &["terrestrial_date"]);
    note(&mut fails, &terrestrial_date, "terrestrial_date");
    proof {
        assert(["sol"]@ == seq!["sol"]);
    }
    let sol = decode_int32(entries, &["sol"]);
    note(&mut fails, &sol, "sol");
    proof {
        assert(["solar_longitude", "ls"]@ == seq!["solar_longitude", "ls"]);
    }
    let solar_longitude = decode_decimal(entries, &["solar_longitude", "ls"]);
    note(&mut fails, &solar_longitude, "solar_longitude");
    proof {
        assert(["season"]@ == seq!["season"]);
    }
    let season = decode_string(entries, &["season"]);
    note(&mut fails, &season, "season");
    proof {
        assert(["min_temp"]@ == seq!["min_temp"]);
    }
    let min_temp = tolerant(decode_decimal(entries, &["min_temp"]));
    proof {
        assert(["max_temp"]@ == seq!["max_temp"]);
    }
    let max_temp = tolerant(decode_decimal(entries, &["max_temp"]));
    proof {
        assert(["pressure"]@ == seq!["pressure"]);
    }
    let pressure = tolerant(decode_decimal(entries, &["pressure"]));
    proof {
        assert(["sunrise"]@ == seq!["sunrise"]);
    }
    let sunrise = decode_string(entries, &["sunrise"]);
    note(&mut fails, &sunrise, "sunrise");
    proof {
        assert(["sunset"]@ == seq!["sunset"]);
    }
    let sunset = decode_string(entries, &["sunset"]);
    note(&mut fails, &sunset, "sunset");
    assert(fails@ =~= sol_failures(entries@));
    if fails.len() > 0 {
        return Err(fails);
    }
    Ok(
        MedaSol {
            terrestrial_date: terrestrial_date.unwrap(),
            sol: sol.unwrap(),
            solar_longitude: solar_longitude.unwrap(),
            season: season.unwrap(),
            min_temp,
            max_temp,
            pressure,
            sunrise: sunrise.unwrap(),
            sunset: sunset.unwrap(),
        },
    )
}

/// An element of the feed array that decodes without failure.
pub open spec fn sol_ok(v: JsonValue) -> bool {
    v is Object && sol_failures(entries_of(v)).len() == 0
}

/// The feed array: the document itself, or its `sols` member.
pub open spec fn sol_items(doc: JsonValue) -> Option<Seq<JsonValue>> {
    items_of(doc, seq!["sols"])
}

/// Decodes a whole feed: a JSON array of weather objects, or an object holding one
/// under `sols`. Succeeds exactly when every element decodes, keeping their order;
/// otherwise reports the first element that does not.
pub fn decode_weather(doc: &JsonValue) -> (r: Result<MedaSols, DecodeError>)
    ensures
        r is Ok <==> (sol_items(*doc) is Some && forall|i: int|
            0 <= i < sol_items(*doc)->0.len() ==> #[trigger] sol_ok(sol_items(*doc)->0[i])),
        r is Ok ==> r->Ok_0.sols@.len() == sol_items(*doc)->0.len() && forall|i: int|
            0 <= i < r->Ok_0.sols@.len() ==> #[trigger] r->Ok_0.sols@[i] == sol_of(entries_of(sol_items(*doc)->0[i])),
        r matches Err(DecodeError::Record { index, failures }) ==> {
            &&& sol_items(*doc) is Some
            &&& index < sol_items(*doc)->0.len()
            &&& forall|j: int| 0 <= j < index ==> #[trigger] sol_ok(sol_items(*doc)->0[j])
            &&& sol_items(*doc)->0[index as int] is Object
            &&& failures@ == sol_failures(entries_of(sol_items(*doc)->0[index as int]))
            &&& failures@.len() > 0
        },
        r matches Err(DecodeError::MalformedDocument) ==> sol_items(*doc) is None || exists|index: int|
            0 <= index < sol_items(*doc)->0.len() && !(sol_items(*doc)->0[index] is Object) && forall|j: int|
            0 <= j < index ==> #[trigger] sol_ok(sol_items(*doc)->0[j]),
{
    proof {
        assert(["sols"]@ == seq!["sols"]);
    }
    let items = match find_items(doc, &["sols"]) {
        Some(items) => items,
        None => {
            return Err(DecodeError::MalformedDocument);
        },
    };
    let mut out: Vec<MedaSol> = Vec::new();
    let mut i: usize = 0;
    while i < items.len()
        invariant
            items@ == sol_items(*doc)->0,
            sol_items(*doc) is Some,
            i <= items@.len(),
            out@.len() == i,
            forall|j: int| 0 <= j < i ==> #[trigger] sol_ok(items@[j]),
            forall|j: int| 0 <= j < i ==> #[trigger] out@[j] == sol_of(entries_of(items@[j])),
        decreases items@.len() - i,
    {
        match &items[i] {
            JsonValue::Object(entries) => match decode_sol(entries) {
                Ok(v) => {
                    out.push(v);
                },
                Err(failures) => {
                    assert(!sol_ok(items@[i as int]));
                    return Err(DecodeError::Record { index: i, failures });
                },
            },
            _ => {
                assert(!sol_ok(items@[i as int]));
                return Err(DecodeError::MalformedDocument);
            },
        }
        i = i + 1;
    }
    Ok(MedaSols { sols: out })
}

/// Leaving out a required field of a weather record, under all its aliases, fails
/// the record with a missing-field failure that names it.
pub proof fn law_missing_sol_field(e: Seq<(String, JsonValue)>)
    ensures
        raw(e, seq!["terrestrial_date"]) is None ==> sol_failures(e).contains(
            FieldFailure { field: "terrestrial_date", kind: ErrorKind::MissingRequiredField },
        ),
        raw(e, seq!["sol"]) is None ==> sol_failures(e).contains(
            FieldFailure { field: "sol", kind: ErrorKind::MissingRequiredField },
        ),
        raw(e, seq!["solar_longitude", "ls"]) is None ==> sol_failures(e).contains(
            FieldFailure { field: "solar_longitude", kind: ErrorKind::MissingRequiredField },
        ),
        raw(e, seq!["season"]) is None ==> sol_failures(e).contains(
            FieldFailure { field: "season", kind: ErrorKind::MissingRequiredField },
        ),
        raw(e, seq!["sunrise"]) is None ==> sol_failures(e).contains(
            FieldFailure { field: "sunrise", kind: ErrorKind::MissingRequiredField },
        ),
        raw(e, seq!["sunset"]) is None ==> sol_failures(e).contains(
            FieldFailure { field: "sunset", kind: ErrorKind::MissingRequiredField },
        ),
{
    if raw(e, seq!["terrestrial_date"]) is None {
        assert(sol_failures(e)[0] == FieldFailure { field: "terrestrial_date", kind: ErrorKind::MissingRequiredField });
    }
    if raw(e, seq!["sol"]) is None {
        let pre = failure_of(calendar_field(raw(e, seq!["terrestrial_date"])), "terrestrial_date");
        assert(sol_failures(e)[pre.len() as int] == FieldFailure { field: "sol", kind: ErrorKind::MissingRequiredField });
    }
    if raw(e, seq!["solar_longitude", "ls"]) is None {
        let pre = failure_of(calendar_field(raw(e, seq!["terrestrial_date"])), "terrestrial_date") + failure_of(int32_field(raw(e, seq!["sol"])), "sol");
        assert(sol_failures(e)[pre.len() as int] == FieldFailure { field: "solar_longitude", kind: ErrorKind::MissingRequiredField });
    }
    if raw(e, seq!["season"]) is None {
        let pre = failure_of(calendar_field(raw(e, seq!["terrestrial_date"])), "terrestrial_date") + failure_of(int32_field(raw(e, seq!["sol"])), "sol") + failure_of(decimal_field(raw(e, seq!["solar_longitude", "ls"])), "solar_longitude");
        assert(sol_failures(e)[pre.len() as int] == FieldFailure { field: "season", kind: ErrorKind::MissingRequiredField });
    }
    if raw(e, seq!["sunrise"]) is None {
        let pre = failure_of(calendar_field(raw(e, seq!["terrestrial_date"])), "terrestrial_date") + failure_of(int32_field(raw(e, seq!["sol"])), "sol") + failure_of(decimal_field(raw(e, seq!["solar_longitude", "ls"])), "solar_longitude") + failure_of(string_field(raw(e, seq!["season"])), "season");
        assert(sol_failures(e)[pre.len() as int] == FieldFailure { field: "sunrise", kind: ErrorKind::MissingRequiredField });
    }
    if raw(e, seq!["sunset"]) is None {
        let pre = failure_of(calendar_field(raw(e, seq!["terrestrial_date"])), "terrestrial_date") + failure_of(int32_field(raw(e, seq!["sol"])), "sol") + failure_of(decimal_field(raw(e, seq!["solar_longitude", "ls"])), "solar_longitude") + failure_of(string_field(raw(e, seq!["season"])), "season") + failure_of(string_field(raw(e, seq!["sunrise"])), "sunrise");
        assert(sol_failures(e)[pre.len() as int] == FieldFailure { field: "sunset", kind: ErrorKind::MissingRequiredField });
    }
}

/// A member under an optional field's key never fails the record, and a value
/// that does not decode leaves that field absent.
pub proof fn law_optional_weather_field(e: Seq<(String, JsonValue)>, k: String, v: JsonValue)
    requires
        k@ == "min_temp"@ || k@ == "max_temp"@ || k@ == "pressure"@,
    ensures
        sol_failures(seq![(k, v)] + e) == sol_failures(e),
        decimal_field(Some(v)) is Err && k@ == "min_temp"@ ==> sol_of(seq![(k, v)] + e).min_temp is None,
        decimal_field(Some(v)) is Err && k@ == "max_temp"@ ==> sol_of(seq![(k, v)] + e).max_temp is None,
        decimal_field(Some(v)) is Err && k@ == "pressure"@ ==> sol_of(seq![(k, v)] + e).pressure is None,
{
    reveal_strlit("min_temp");
    reveal_strlit("max_temp");
    reveal_strlit("pressure");
    reveal_strlit("terrestrial_date");
    reveal_strlit("sol");
    reveal_strlit("solar_longitude");
    reveal_strlit("ls");
    reveal_strlit("season");
    reveal_strlit("sunrise");
    reveal_strlit("sunset");
    assert(k@.len() == 8);
    assert("terrestrial_date"@.len() == 16);
    assert("sol"@.len() == 3);
    assert("solar_longitude"@.len() == 15);
    assert("ls"@.len() == 2);
    lemma_resolve_other_key(e, k, v, seq!["terrestrial_date"]);
    lemma_resolve_other_key(e, k, v, seq!["sol"]);
    lemma_resolve_other_key(e, k, v, seq!["solar_longitude", "ls"]);
    lemma_resolve_other_key(e, k, v, seq!["season"]);
    lemma_resolve_other_key(e, k, v, seq!["sunrise"]);
    lemma_resolve_other_key(e, k, v, seq!["sunset"]);
    let s = seq![(k, v)] + e;
    assert(s[0] == (k, v));
}

} // verus!
