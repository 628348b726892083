//! Orbiter relay passes over a lander.
use vstd::prelude::*;
use crate::codec::{decimal_field, decode_decimal, decode_int, decode_ordinal, decode_ordinal_pair, decode_string, failure_of, int_field, note, ordinal_field, ordinal_pair_field, raw, string_field, tolerant, tolerant_of};
use crate::date::Timestamp;
use crate::error::{DecodeError, ErrorKind, FieldFailure};
use crate::json::{entries_of, find_items, items_of, lemma_resolve_other_key, JsonValue};
use crate::num::Decimal;

verus! {

/// One relay pass of an orbiter over a lander.
#[derive(Clone, Debug)]
pub struct Overflight {
    pub overflight_id: String,
    pub spacecraft_orbiter: String,
    pub spacecraft_lander: String,
    pub start_rise_year: i64,
    pub start_rise_day_of_year: i64,
    /// Midnight UTC of the day the pass rises, from its year and day of the year.
    pub start_rise: Timestamp,
    pub overflight_pass_number: i64,
    pub maximum_elevation: Decimal,
    pub maximum_elevation_time: Timestamp,
    pub maximum_elevation_range: Decimal,
    pub start_time: Timestamp,
    pub end_time: Timestamp,
    pub rise_set_duration: Decimal,
    pub request_type: Option<String>,
    pub request_category: Option<String>,
    pub request_forward_link_data_rate: Option<i64>,
    pub request_return_link_data_rate: Option<i64>,
    pub request_data_volume_returned: Option<Decimal>,
    pub request_adr_enable_flag: Option<String>,
    pub ack_type: Option<String>,
    pub ack_support_plan: Option<String>,
    pub ack_forward_link_data_rate: Option<i64>,
    pub ack_return_link_data_rate: Option<i64>,
    pub ack_adr_enable_flag: Option<String>,
    pub orbiter_scorecard_forward_link_data_rate: Option<i64>,
    pub orbiter_scorecard_return_link_data_rate: Option<i64>,
    pub orbiter_scorecard_data_volume_returned: Option<Decimal>,
    pub link_type: Option<String>,
    pub hail_start_src: Option<String>,
    pub hail_start: Option<Timestamp>,
    pub hail_end_src: Option<String>,
    pub hail_end: Option<Timestamp>,
    pub hail_duration: Option<Decimal>,
    pub date_last_updated: Option<Timestamp>,
}

/// A relay feed: its passes in feed order.
#[derive(Clone, Debug)]
pub struct OverflightResponse {
    pub overflights: Vec<Overflight>,
}

/// The failures of the required fields of a relay pass record, in field order.
pub open spec fn overflight_failures(e: Seq<(String, JsonValue)>) -> Seq<FieldFailure> {
    failure_of(string_field(raw(e, seq!["overflight_id", "OVERFLIGHTID"])), "overflight_id")
        + failure_of(string_field(raw(e, seq!["spacecraft_orbiter", "SPACECRAFTORBITER"])), "spacecraft_orbiter")
        + failure_of(string_field(raw(e, seq!["spacecraft_lander", "SPACECRAFTLANDER"])), "spacecraft_lander")
        + failure_of(int_field(raw(e, seq!["start_rise_year", "STARTRISEYEAR"])), "start_rise_year")
        + failure_of(int_field(raw(e, seq!["start_rise_day_of_year", "STARTRISEDAYOFYEAR"])), "start_rise_day_of_year")
        + failure_of(ordinal_pair_field(raw(e, seq!["start_rise_year", "STARTRISEYEAR"]), raw(e, seq!["start_rise_day_of_year", "STARTRISEDAYOFYEAR"]), raw(e, Seq::<&str>::empty())), "start_rise")
        + failure_of(int_field(raw(e, seq!["overflight_pass_number", "OVERFLIGHTPASSNUMBER"])), "overflight_pass_number")
        + failure_of(decimal_field(raw(e, seq!["maximum_elevation", "MAXIMUMELEVATION"])), "maximum_elevation")
        + failure_of(ordinal_field(raw(e, seq!["maximum_elevation_time", "MAXIMUMELEVATIONTIME"])), "maximum_elevation_time")
        + failure_of(decimal_field(raw(e, seq!["maximum_elevation_range", "MAXIMUMELEVATIONRANGE"])), "maximum_elevation_range")
        + failure_of(ordinal_field(raw(e, seq!["start_time", "STARTTIME"])), "start_time")
        + failure_of(ordinal_field(raw(e, seq!["end_time", "ENDTIME"])), "end_time")
        + failure_of(decimal_field(raw(e, seq!["rise_set_duration", "RISESETDURATION"])), "rise_set_duration")
}

/// The relay pass record an object decodes to, where it has no failures.
pub open spec fn overflight_of(e: Seq<(String, JsonValue)>) -> Overflight {
    Overflight {
        overflight_id: string_field(raw(e, seq!["overflight_id", "OVERFLIGHTID"]))->Ok_0,
        spacecraft_orbiter: string_field(raw(e, seq!["spacecraft_orbiter", "SPACECRAFTORBITER"]))->Ok_0,
        spacecraft_lander: string_field(raw(e, seq!["spacecraft_lander", "SPACECRAFTLANDER"]))->Ok_0,
        start_rise_year: int_field(raw(e, seq!["start_rise_year", "STARTRISEYEAR"]))->Ok_0,
        start_rise_day_of_year: int_field(raw(e, seq!["start_rise_day_of_year", "STARTRISEDAYOFYEAR"]))->Ok_0,
        start_rise: ordinal_pair_field(raw(e, seq!["start_rise_year", "STARTRISEYEAR"]), raw(e, seq!["start_rise_day_of_year", "STARTRISEDAYOFYEAR"]), raw(e, Seq::<&str>::empty()))->Ok_0,
        overflight_pass_number: int_field(raw(e, seq!["overflight_pass_number", "OVERFLIGHTPASSNUMBER"]))->Ok_0,
        maximum_elevation: decimal_field(raw(e, seq!["maximum_elevation", "MAXIMUMELEVATION"]))->Ok_0,
        maximum_elevation_time: ordinal_field(raw(e, seq!["maximum_elevation_time", "MAXIMUMELEVATIONTIME"]))->Ok_0,
        maximum_elevation_range: decimal_field(raw(e, seq!["maximum_elevation_range", "MAXIMUMELEVATIONRANGE"]))->Ok_0,
        start_time: ordinal_field(raw(e, seq!["start_time", "STARTTIME"]))->Ok_0,
        end_time: ordinal_field(raw(e, seq!["end_time", "ENDTIME"]))->Ok_0,
        rise_set_duration: decimal_field(raw(e, seq!["rise_set_duration", "RISESETDURATION"]))->Ok_0,
        request_type: tolerant_of(string_field(raw(e, seq!["request_type", "REQUESTTYPE"]))),
        request_category: tolerant_of(string_field(raw(e, seq!["request_category", "REQUESTCATEGORY"]))),
        request_forward_link_data_rate: tolerant_of(int_field(raw(e, seq!["request_forward_link_data_rate", "REQUESTFORWARDLINKDATARATE"]))),
        request_return_link_data_rate: tolerant_of(int_field(raw(e, seq!["request_return_link_data_rate", "REQUESTRETURNLINKDATARATE"]))),
        request_data_volume_returned: tolerant_of(decimal_field(raw(e, seq!["request_data_volume_returned", "REQUESTDATAVOLUMERETURNED"]))),
        request_adr_enable_flag: tolerant_of(string_field(raw(e, seq!["request_adr_enable_flag", "REQUESTADR_ENABLE_FLAG"]))),
        ack_type: tolerant_of(string_field(raw(e, seq!["ack_type", "ACKTYPE"]))),
        ack_support_plan: tolerant_of(string_field(raw(e, seq!["ack_support_plan", "ACKSUPPORTPLAN"]))),
        ack_forward_link_data_rate: tolerant_of(int_field(raw(e, seq!["ack_forward_link_data_rate", "ACKFORWARDLINKDATARATE"]))),
        ack_return_link_data_rate: tolerant_of(int_field(raw(e, seq!["ack_return_link_data_rate", "ACKRETURNLINKDATARATE"]))),
        ack_adr_enable_flag: tolerant_of(string_field(raw(e, seq!["ack_adr_enable_flag", "ACKADR_ENABLE_FLAG"]))),
        orbiter_scorecard_forward_link_data_rate: tolerant_of(int_field(raw(e, seq!["orbiter_scorecard_forward_link_data_rate", "ORBITERSCORECARDFORWARDLINKDATARATE"]))),
        orbiter_scorecard_return_link_data_rate: tolerant_of(int_field(raw(e, seq!["orbiter_scorecard_return_link_data_rate", "ORBITERSCORECARDRETURNLINKDATARATE"]))),
        orbiter_scorecard_data_volume_returned: tolerant_of(decimal_field(raw(e, seq!["orbiter_scorecard_data_volume_returned", "ORBITERSCORECARDDATAVOLUMERETURNED"]))),
        link_type: tolerant_of(string_field(raw(e, seq!["link_type", "LINKTYPE"]))),
        hail_start_src: tolerant_of(string_field(raw(e, seq!["hail_start_src", "HAILSTARTSRC"]))),
        hail_start: tolerant_of(ordinal_field(raw(e, seq!["hail_start", "HAILSTART"]))),
        hail_end_src: tolerant_of(string_field(raw(e, seq!["hail_end_src", "HAILENDSRC"]))),
        hail_end: tolerant_of(ordinal_field(raw(e, seq!["hail_end", "HAILEND"]))),
        hail_duration: tolerant_of(decimal_field(raw(e, seq!["hail_duration", "HAILDURATION"]))),
        date_last_updated: tolerant_of(ordinal_field(raw(e, seq!["date_last_updated", "DATELASTUPDATED"]))),
    }
}

/// Decodes one relay pass record from the members of an object: every required field
/// must decode, and all that do not are reported together; an optional field
/// that does not decode is left absent.
#[verifier::rlimit(100)]
pub fn decode_overflight(entries: &Vec<(String, JsonValue)>) -> (r: Result<Overflight, Vec<FieldFailure>>)
    ensures
        r is Ok <==> overflight_failures(entries@).len() == 0,
        r is Ok ==> r->Ok_0 == overflight_of(entries@),
        r is Err ==> r->Err_0@ == overflight_failures(entries@),
{
    let mut fails: Vec<FieldFailure> = Vec::new();
    // Each alias list is written out again in the contract as a sequence; the
    // assertions tie the two spellings together.
    proof {
        assert(["overflight_id", "OVERFLIGHTID"]@ == seq!["overflight_id", "OVERFLIGHTID"]);
    }
    let overflight_id = decode_string(entries, &["overflight_id", "OVERFLIGHTID"]);
    note(&mut fails, &overflight_id, "overflight_id");
    proof {
        assert(["spacecraft_orbiter", "SPACECRAFTORBITER"]@ == seq!["spacecraft_orbiter", "SPACECRAFTORBITER"]);
    }
    let spacecraft_orbiter = decode_string(entries, &["spacecraft_orbiter", "SPACECRAFTORBITER"]);
    note(&mut fails, &spacecraft_orbiter, "spacecraft_orbiter");
    proof {
        assert(["spacecraft_lander", "SPACECRAFTLANDER"]@ == seq!["spacecraft_lander", "SPACECRAFTLANDER"]);
    }
    let spacecraft_lander = decode_string(entries, &["spacecraft_lander", "SPACECRAFTLANDER"]);
    note(&mut fails, &spacecraft_lander, "spacecraft_lander");
    proof {
        assert(["start_rise_year", "STARTRISEYEAR"]@ == seq!["start_rise_year", "STARTRISEYEAR"]);
    }
    let start_rise_year = decode_int(entries, &["start_rise_year", "STARTRISEYEAR"]);
    note(&mut fails, &start_rise_year, "start_rise_year");
    proof {
        assert(["start_rise_day_of_year", "STARTRISEDAYOFYEAR"]@ == seq!["start_rise_day_of_year", "STARTRISEDAYOFYEAR"]);
    }
    let start_rise_day_of_year = decode_int(entries, &["start_rise_day_of_year", "STARTRISEDAYOFYEAR"]);
    note(&mut fails, &start_rise_day_of_year, "start_rise_day_of_year");
    proof {
        assert(["start_rise_year", "STARTRISEYEAR"]@ == seq!["start_rise_year", "STARTRISEYEAR"]);
        assert(["start_rise_day_of_year", "STARTRISEDAYOFYEAR"]@ == seq!["start_rise_day_of_year", "STARTRISEDAYOFYEAR"]);
    }
    let start_rise = decode_ordinal_pair(entries, &["start_rise_year", "STARTRISEYEAR"], &["start_rise_day_of_year", "STARTRISEDAYOFYEAR"], &[]);
    note(&mut fails, &start_rise, "start_rise");
    proof {
        assert(["overflight_pass_number", "OVERFLIGHTPASSNUMBER"]@ == seq!["overflight_pass_number", "OVERFLIGHTPASSNUMBER"]);
    }
    let overflight_pass_number = decode_int(entries, &["overflight_pass_number", "OVERFLIGHTPASSNUMBER"]);
    note(&mut fails, &overflight_pass_number, "overflight_pass_number");
    proof {
        assert(["maximum_elevation", "MAXIMUMELEVATION"]@ == seq!["maximum_elevation", "MAXIMUMELEVATION"]);
    }
    let maximum_elevation = decode_decimal(entries, &["maximum_elevation", "MAXIMUMELEVATION"]);
    note(&mut fails, &maximum_elevation, "maximum_elevation");
    proof {
        assert(["maximum_elevation_time", "MAXIMUMELEVATIONTIME"]@ == seq!["maximum_elevation_time", "MAXIMUMELEVATIONTIME"]);
    }
    let maximum_elevation_time = decode_ordinal(entries, &["maximum_elevation_time", "MAXIMUMELEVATIONTIME"]);
    note(&mut fails, &maximum_elevation_time, "maximum_elevation_time");
    proof {
        assert(["maximum_elevation_range", "MAXIMUMELEVATIONRANGE"]@ == seq!["maximum_elevation_range", "MAXIMUMELEVATIONRANGE"]);
    }
    let maximum_elevation_range = decode_decimal(entries, &["maximum_elevation_range", "MAXIMUMELEVATIONRANGE"]);
    note(&mut fails, &maximum_elevation_range, "maximum_elevation_range");
    proof {
        assert(["start_time", "STARTTIME"]@ == seq!["start_time", "STARTTIME"]);
    }
    let start_time = decode_ordinal(entries, &["start_time", "STARTTIME"]);
    note(&mut fails, &start_time, "start_time");
    proof {
        assert(["end_time", "ENDTIME"]@ == seq!["end_time", "ENDTIME"]);
    }
    let end_time = decode_ordinal(entries, &["end_time", "ENDTIME"]);
    note(&mut fails, &end_time, "end_time");
    proof {
        assert(["rise_set_duration", "RISESETDURATION"]@ == seq!["rise_set_duration", "RISESETDURATION"]);
    }
    let rise_set_duration = decode_decimal(entries, &["rise_set_duration", "RISESETDURATION"]);
    note(&mut fails, &rise_set_duration, "rise_set_duration");
    proof {
        assert(["request_type", "REQUESTTYPE"]@ == seq!["request_type", "REQUESTTYPE"]);
    }
    let request_type = tolerant(decode_string(entries, &["request_type", "REQUESTTYPE"]));
    proof {
        assert(["request_category", "REQUESTCATEGORY"]@ == seq!["request_category", "REQUESTCATEGORY"]);
    }
    let request_category = tolerant(decode_string(entries, &["request_category", "REQUESTCATEGORY"]));
    proof {
        assert(["request_forward_link_data_rate", "REQUESTFORWARDLINKDATARATE"]@ == seq!["request_forward_link_data_rate", "REQUESTFORWARDLINKDATARATE"]);
    }
    let request_forward_link_data_rate = tolerant(decode_int(entries, &["request_forward_link_data_rate", "REQUESTFORWARDLINKDATARATE"]));
    proof {
        assert(["request_return_link_data_rate", "REQUESTRETURNLINKDATARATE"]@ == seq!["request_return_link_data_rate", "REQUESTRETURNLINKDATARATE"]);
    }
    let request_return_link_data_rate = tolerant(decode_int(entries, &["request_return_link_data_rate", "REQUESTRETURNLINKDATARATE"]));
    proof {
        assert(["request_data_volume_returned", "REQUESTDATAVOLUMERETURNED"]@ == seq!["request_data_volume_returned", "REQUESTDATAVOLUMERETURNED"]);
    }
    let request_data_volume_returned = tolerant(decode_decimal(entries, &["request_data_volume_returned", "REQUESTDATAVOLUMERETURNED"]));
    proof {
        assert(["request_adr_enable_flag", "REQUESTADR_ENABLE_FLAG"]@ == seq!["request_adr_enable_flag", "REQUESTADR_ENABLE_FLAG"]);
    }
    let request_adr_enable_flag = tolerant(decode_string(entries, &["request_adr_enable_flag", "REQUESTADR_ENABLE_FLAG"]));
    proof {
        assert(["ack_type", "ACKTYPE"]@ == seq!["ack_type", "ACKTYPE"]);
    }
    let ack_type = tolerant(decode_string(entries, &["ack_type", "ACKTYPE"]));
    proof {
        assert(["ack_support_plan", "ACKSUPPORTPLAN"]@ == seq!["ack_support_plan", "ACKSUPPORTPLAN"]);
    }
    let ack_support_plan = tolerant(decode_string(entries, &["ack_support_plan", "ACKSUPPORTPLAN"]));
    proof {
        assert(["ack_forward_link_data_rate", "ACKFORWARDLINKDATARATE"]@ == seq!["ack_forward_link_data_rate", "ACKFORWARDLINKDATARATE"]);
    }
    let ack_forward_link_data_rate = tolerant(decode_int(entries, &["ack_forward_link_data_rate", "ACKFORWARDLINKDATARATE"]));
    proof {
        assert(["ack_return_link_data_rate", "ACKRETURNLINKDATARATE"]@ == seq!["ack_return_link_data_rate", "ACKRETURNLINKDATARATE"]);
    }
    let ack_return_link_data_rate = tolerant(decode_int(entries, &["ack_return_link_data_rate", "ACKRETURNLINKDATARATE"]));
    proof {
        assert(["ack_adr_enable_flag", "ACKADR_ENABLE_FLAG"]@ == seq!["ack_adr_enable_flag", "ACKADR_ENABLE_FLAG"]);
    }
    let ack_adr_enable_flag = tolerant(decode_string(entries, &["ack_adr_enable_flag", "ACKADR_ENABLE_FLAG"]));
    proof {
        assert(["orbiter_scorecard_forward_link_data_rate", "ORBITERSCORECARDFORWARDLINKDATARATE"]@ == seq!["orbiter_scorecard_forward_link_data_rate", "ORBITERSCORECARDFORWARDLINKDATARATE"]);
    }
    let orbiter_scorecard_forward_link_data_rate = tolerant(decode_int(entries, &["orbiter_scorecard_forward_link_data_rate", "ORBITERSCORECARDFORWARDLINKDATARATE"]));
    proof {
        assert(["orbiter_scorecard_return_link_data_rate", "ORBITERSCORECARDRETURNLINKDATARATE"]@ == seq!["orbiter_scorecard_return_link_data_rate", "ORBITERSCORECARDRETURNLINKDATARATE"]);
    }
    let orbiter_scorecard_return_link_data_rate = tolerant(decode_int(entries, &["orbiter_scorecard_return_link_data_rate", "ORBITERSCORECARDRETURNLINKDATARATE"]));
    proof {
        assert(["orbiter_scorecard_data_volume_returned", "ORBITERSCORECARDDATAVOLUMERETURNED"]@ == seq!["orbiter_scorecard_data_volume_returned", "ORBITERSCORECARDDATAVOLUMERETURNED"]);
    }
    let orbiter_scorecard_data_volume_returned = tolerant(decode_decimal(entries, &["orbiter_scorecard_data_volume_returned", "ORBITERSCORECARDDATAVOLUMERETURNED"]));
    proof {
        assert(["link_type", "LINKTYPE"]@ == seq!["link_type", "LINKTYPE"]);
    }
    let link_type = tolerant(decode_string(entries, &["link_type", "LINKTYPE"]));
    proof {
        assert(["hail_start_src", "HAILSTARTSRC"]@ == seq!["hail_start_src", "HAILSTARTSRC"]);
    }
    let hail_start_src = tolerant(decode_string(entries, &["hail_start_src", "HAILSTARTSRC"]));
    proof {
        assert(["hail_start", "HAILSTART"]@ == seq!["hail_start", "HAILSTART"]);
    }
    let hail_start = tolerant(decode_ordinal(entries, &["hail_start", "HAILSTART"]));
    proof {
        assert(["hail_end_src", "HAILENDSRC"]@ == seq!["hail_end_src", "HAILENDSRC"]);
    }
    let hail_end_src = tolerant(decode_string(entries, &["hail_end_src", "HAILENDSRC"]));
    proof {
        assert(["hail_end", "HAILEND"]@ == seq!["hail_end", "HAILEND"]);
    }
    let hail_end = tolerant(decode_ordinal(entries, &["hail_end", "HAILEND"]));
    proof {
        assert(["hail_duration", "HAILDURATION"]@ == seq!["hail_duration", "HAILDURATION"]);
    }
    let hail_duration = tolerant(decode_decimal(entries, &["hail_duration", "HAILDURATION"]));
    proof {
        assert(["date_last_updated", "DATELASTUPDATED"]@ == seq!["date_last_updated", "DATELASTUPDATED"]);
    }
    let date_last_updated = tolerant(decode_ordinal(entries, &["date_last_updated", "DATELASTUPDATED"]));
    assert(fails@ =~= overflight_failures(entries@));
    if fails.len() > 0 {
        return Err(fails);
    }
    Ok(
        Overflight {
            overflight_id: overflight_id.unwrap(),
            spacecraft_orbiter: spacecraft_orbiter.unwrap(),
            spacecraft_lander: spacecraft_lander.unwrap(),
            start_rise_year: start_rise_year.unwrap(),
            start_rise_day_of_year: start_rise_day_of_year.unwrap(),
            start_rise: start_rise.unwrap(),
            overflight_pass_number: overflight_pass_number.unwrap(),
            maximum_elevation: maximum_elevation.unwrap(),
            maximum_elevation_time: maximum_elevation_time.unwrap(),
            maximum_elevation_range: maximum_elevation_range.unwrap(),
            start_time: start_time.unwrap(),
            end_time: end_time.unwrap(),
            rise_set_duration: rise_set_duration.unwrap(),
            request_type,
            request_category,
            request_forward_link_data_rate,
            request_return_link_data_rate,
            request_data_volume_returned,
            request_adr_enable_flag,
            ack_type,
            ack_support_plan,
            ack_forward_link_data_rate,
            ack_return_link_data_rate,
            ack_adr_enable_flag,
            orbiter_scorecard_forward_link_data_rate,
            orbiter_scorecard_return_link_data_rate,
            orbiter_scorecard_data_volume_returned,
            link_type,
            hail_start_src,
            hail_start,
            hail_end_src,
            hail_end,
            hail_duration,
            date_last_updated,
        },
    )
}

/// An element of the feed array that decodes without failure.
pub open spec fn overflight_ok(v: JsonValue) -> bool {
    v is Object && overflight_failures(entries_of(v)).len() == 0
}

/// The feed array: the document itself, or its `overflights` member.
pub open spec fn overflight_items(doc: JsonValue) -> Option<Seq<JsonValue>> {
    items_of(doc, seq!["overflights", "marsRelay"])
}

/// Decodes a whole feed: a JSON array of relay pass objects, or an object holding one
/// under `overflights`. Succeeds exactly when every element decodes, keeping their order;
/// otherwise reports the first element that does not.
pub fn decode_passes(doc: &JsonValue) -> (r: Result<OverflightResponse, DecodeError>)
    ensures
        r is Ok <==> (overflight_items(*doc) is Some && forall|i: int|
            0 <= i < overflight_items(*doc)->0.len() ==> #[trigger] overflight_ok(overflight_items(*doc)->0[i])),
        r is Ok ==> r->Ok_0.overflights@.len() == overflight_items(*doc)->0.len() && forall|i: int|
            0 <= i < r->Ok_0.overflights@.len() ==> #[trigger] r->Ok_0.overflights@[i] == overflight_of(entries_of(overflight_items(*doc)->0[i])),
        r matches Err(DecodeError::Record { index, failures }) ==> {
            &&& overflight_items(*doc) is Some
            &&& index < overflight_items(*doc)->0.len()
            &&& forall|j: int| 0 <= j < index ==> #[trigger] overflight_ok(overflight_items(*doc)->0[j])
            &&& overflight_items(*doc)->0[index as int] is Object
            &&& failures@ == overflight_failures(entries_of(overflight_items(*doc)->0[index as int]))
            &&& failures@.len() > 0
        },
        r matches Err(DecodeError::MalformedDocument) ==> overflight_items(*doc) is None || exists|index: int|
            0 <= index < overflight_items(*doc)->0.len() && !(overflight_items(*doc)->0[index] is Object) && forall|j: int|
            0 <= j < index ==> #[trigger] overflight_ok(overflight_items(*doc)->0[j]),
{
    proof {
        assert(["overflights", "marsRelay"]@ == seq!["overflights", "marsRelay"]);
    }
    let items = match find_items(doc, &["overflights", "marsRelay"]) {
        Some(items) => items,
        None => {
            return Err(DecodeError::MalformedDocument);
        },
    };
    let mut out: Vec<Overflight> = Vec::new();
    let mut i: usize = 0;
    while i < items.len()
        invariant
            items@ == overflight_items(*doc)->0,
            overflight_items(*doc) is Some,
            i <= items@.len(),
            out@.len() == i,
            forall|j: int| 0 <= j < i ==> #[trigger] overflight_ok(items@[j]),
            forall|j: int| 0 <= j < i ==> #[trigger] out@[j] == overflight_of(entries_of(items@[j])),
        decreases items@.len() - i,
    {
        match &items[i] {
            JsonValue::Object(entries) => match decode_overflight(entries) {
                Ok(v) => {
                    out.push(v);
                },
                Err(failures) => {
                    assert(!overflight_ok(items@[i as int]));
                    return Err(DecodeError::Record { index: i, failures });
                },
            },
            _ => {
                assert(!overflight_ok(items@[i as int]));
                return Err(DecodeError::MalformedDocument);
            },
        }
        i = i + 1;
    }
    Ok(OverflightResponse { overflights: out })
}

/// Leaving out a required field of a relay pass record, under all its aliases, fails
/// the record with a missing-field failure that names it.
pub proof fn law_missing_overflight_field(e: Seq<(String, JsonValue)>)
    ensures
        raw(e, seq!["overflight_id", "OVERFLIGHTID"]) is None ==> overflight_failures(e).contains(
            FieldFailure { field: "overflight_id", kind: ErrorKind::MissingRequiredField },
        ),
        raw(e, seq!["spacecraft_orbiter", "SPACECRAFTORBITER"]) is None ==> overflight_failures(e).contains(
            FieldFailure { field: "spacecraft_orbiter", kind: ErrorKind::MissingRequiredField },
        ),
        raw(e, seq!["spacecraft_lander", "SPACECRAFTLANDER"]) is None ==> overflight_failures(e).contains(
            FieldFailure { field: "spacecraft_lander", kind: ErrorKind::MissingRequiredField },
        ),
        raw(e, seq!["start_rise_year", "STARTRISEYEAR"]) is None ==> overflight_failures(e).contains(
            FieldFailure { field: "start_rise_year", kind: ErrorKind::MissingRequiredField },
        ),
        raw(e, seq!["start_rise_day_of_year", "STARTRISEDAYOFYEAR"]) is None ==> overflight_failures(e).contains(
            FieldFailure { field: "start_rise_day_of_year", kind: ErrorKind::MissingRequiredField },
        ),
        raw(e, seq!["overflight_pass_number", "OVERFLIGHTPASSNUMBER"]) is None ==> overflight_failures(e).contains(
            FieldFailure { field: "overflight_pass_number", kind: ErrorKind::MissingRequiredField },
        ),
        raw(e, seq!["maximum_elevation", "MAXIMUMELEVATION"]) is None ==> overflight_failures(e).contains(
            FieldFailure { field: "maximum_elevation", kind: ErrorKind::MissingRequiredField },
        ),
        raw(e, seq!["maximum_elevation_time", "MAXIMUMELEVATIONTIME"]) is None ==> overflight_failures(e).contains(
            FieldFailure { field: "maximum_elevation_time", kind: ErrorKind::MissingRequiredField },
        ),
        raw(e, seq!["maximum_elevation_range", "MAXIMUMELEVATIONRANGE"]) is None ==> overflight_failures(e).contains(
            FieldFailure { field: "maximum_elevation_range", kind: ErrorKind::MissingRequiredField },
        ),
        raw(e, seq!["start_time", "STARTTIME"]) is None ==> overflight_failures(e).contains(
            FieldFailure { field: "start_time", kind: ErrorKind::MissingRequiredField },
        ),
        raw(e, seq!["end_time", "ENDTIME"]) is None ==> overflight_failures(e).contains(
            FieldFailure { field: "end_time", kind: ErrorKind::MissingRequiredField },
        ),
        raw(e, seq!["rise_set_duration", "RISESETDURATION"]) is None ==> overflight_failures(e).contains(
            FieldFailure { field: "rise_set_duration", kind: ErrorKind::MissingRequiredField },
        ),
{
    if raw(e, seq!["overflight_id", "OVERFLIGHTID"]) is None {
        assert(overflight_failures(e)[0] == FieldFailure { field: "overflight_id", kind: ErrorKind::MissingRequiredField });
    }
    if raw(e, seq!["spacecraft_orbiter", "SPACECRAFTORBITER"]) is None {
        let pre = failure_of(string_field(raw(e, seq!["overflight_id", "OVERFLIGHTID"])), "overflight_id");
        assert(overflight_failures(e)[pre.len() as int] == FieldFailure { field: "spacecraft_orbiter", kind: ErrorKind::MissingRequiredField });
    }
    if raw(e, seq!["spacecraft_lander", "SPACECRAFTLANDER"]) is None {
        let pre = failure_of(string_field(raw(e, seq!["overflight_id", "OVERFLIGHTID"])), "overflight_id") + failure_of(string_field(raw(e, seq!["spacecraft_orbiter", "SPACECRAFTORBITER"])), "spacecraft_orbiter");
        assert(overflight_failures(e)[pre.len() as int] == FieldFailure { field: "spacecraft_lander", kind: ErrorKind::MissingRequiredField });
    }
    if raw(e, seq!["start_rise_year", "STARTRISEYEAR"]) is None {
        let pre = failure_of(string_field(raw(e, seq!["overflight_id", "OVERFLIGHTID"])), "overflight_id") + failure_of(string_field(raw(e, seq!["spacecraft_orbiter", "SPACECRAFTORBITER"])), "spacecraft_orbiter") + failure_of(string_field(raw(e, seq!["spacecraft_lander", "SPACECRAFTLANDER"])), "spacecraft_lander");
        assert(overflight_failures(e)[pre.len() as int] == FieldFailure { field: "start_rise_year", kind: ErrorKind::MissingRequiredField });
    }
    if raw(e, seq!["start_rise_day_of_year", "STARTRISEDAYOFYEAR"]) is None {
        let pre = failure_of(string_field(raw(e, seq!["overflight_id", "OVERFLIGHTID"])), "overflight_id") + failure_of(string_field(raw(e, seq!["spacecraft_orbiter", "SPACECRAFTORBITER"])), "spacecraft_orbiter") + failure_of(string_field(raw(e, seq!["spacecraft_lander", "SPACECRAFTLANDER"])), "spacecraft_lander") + failure_of(int_field(raw(e, seq!["start_rise_year", "STARTRISEYEAR"])), "start_rise_year");
        assert(overflight_failures(e)[pre.len() as int] == FieldFailure { field: "start_rise_day_of_year", kind: ErrorKind::MissingRequiredField });
    }
    if raw(e, seq!["overflight_pass_number", "OVERFLIGHTPASSNUMBER"]) is None {
        let pre = failure_of(string_field(raw(e, seq!["overflight_id", "OVERFLIGHTID"])), "overflight_id") + failure_of(string_field(raw(e, seq!["spacecraft_orbiter", "SPACECRAFTORBITER"])), "spacecraft_orbiter") + failure_of(string_field(raw(e, seq!["spacecraft_lander", "SPACECRAFTLANDER"])), "spacecraft_lander") + failure_of(int_field(raw(e, seq!["start_rise_year", "STARTRISEYEAR"])), "start_rise_year") + failure_of(int_field(raw(e, seq!["start_rise_day_of_year", "STARTRISEDAYOFYEAR"])), "start_rise_day_of_year") + failure_of(ordinal_pair_field(raw(e, seq!["start_rise_year", "STARTRISEYEAR"]), raw(e, seq!["start_rise_day_of_year", "STARTRISEDAYOFYEAR"]), raw(e, Seq::<&str>::empty())), "start_rise");
        assert(overflight_failures(e)[pre.len() as int] == FieldFailure { field: "overflight_pass_number", kind: ErrorKind::MissingRequiredField });
    }
    if raw(e, seq!["maximum_elevation", "MAXIMUMELEVATION"]) is None {
        let pre = failure_of(string_field(raw(e, seq!["overflight_id", "OVERFLIGHTID"])), "overflight_id") + failure_of(string_field(raw(e, seq!["spacecraft_orbiter", "SPACECRAFTORBITER"])), "spacecraft_orbiter") + failure_of(string_field(raw(e, seq!["spacecraft_lander", "SPACECRAFTLANDER"])), "spacecraft_lander") + failure_of(int_field(raw(e, seq!["start_rise_year", "STARTRISEYEAR"])), "start_rise_year") + failure_of(int_field(raw(e, seq!["start_rise_day_of_year", "STARTRISEDAYOFYEAR"])), "start_rise_day_of_year") + failure_of(ordinal_pair_field(raw(e, seq!["start_rise_year", "STARTRISEYEAR"]), raw(e, seq!["start_rise_day_of_year", "STARTRISEDAYOFYEAR"]), raw(e, Seq::<&str>::empty())), "start_rise") + failure_of(int_field(raw(e, seq!["overflight_pass_number", "OVERFLIGHTPASSNUMBER"])), "overflight_pass_number");
        assert(overflight_failures(e)[pre.len() as int] == FieldFailure { field: "maximum_elevation", kind: ErrorKind::MissingRequiredField });
    }
    if raw(e, seq!["maximum_elevation_time", "MAXIMUMELEVATIONTIME"]) is None {
        let pre = failure_of(string_field(raw(e, seq!["overflight_id", "OVERFLIGHTID"])), "overflight_id") + failure_of(string_field(raw(e, seq!["spacecraft_orbiter", "SPACECRAFTORBITER"])), "spacecraft_orbiter") + failure_of(string_field(raw(e, seq!["spacecraft_lander", "SPACECRAFTLANDER"])), "spacecraft_lander") + failure_of(int_field(raw(e, seq!["start_rise_year", "STARTRISEYEAR"])), "start_rise_year") + failure_of(int_field(raw(e, seq!["start_rise_day_of_year", "STARTRISEDAYOFYEAR"])), "start_rise_day_of_year") + failure_of(ordinal_pair_field(raw(e, seq!["start_rise_year", "STARTRISEYEAR"]), raw(e, seq!["start_rise_day_of_year", "STARTRISEDAYOFYEAR"]), raw(e, Seq::<&str>::empty())), "start_rise") + failure_of(int_field(raw(e, seq!["overflight_pass_number", "OVERFLIGHTPASSNUMBER"])), "overflight_pass_number") + failure_of(decimal_field(raw(e, seq!["maximum_elevation", "MAXIMUMELEVATION"])), "maximum_elevation");
        assert(overflight_failures(e)[pre.len() as int] == FieldFailure { field: "maximum_elevation_time", kind: ErrorKind::MissingRequiredField });
    }
    if raw(e, seq!["maximum_elevation_range", "MAXIMUMELEVATIONRANGE"]) is None {
        let pre = failure_of(string_field(raw(e, seq!["overflight_id", "OVERFLIGHTID"])), "overflight_id") + failure_of(string_field(raw(e, seq!["spacecraft_orbiter", "SPACECRAFTORBITER"])), "spacecraft_orbiter") + failure_of(string_field(raw(e, seq!["spacecraft_lander", "SPACECRAFTLANDER"])), "spacecraft_lander") + failure_of(int_field(raw(e, seq!["start_rise_year", "STARTRISEYEAR"])), "start_rise_year") + failure_of(int_field(raw(e, seq!["start_rise_day_of_year", "STARTRISEDAYOFYEAR"])), "start_rise_day_of_year") + failure_of(ordinal_pair_field(raw(e, seq!["start_rise_year", "STARTRISEYEAR"]), raw(e, seq!["start_rise_day_of_year", "STARTRISEDAYOFYEAR"]), raw(e, Seq::<&str>::empty())), "start_rise") + failure_of(int_field(raw(e, seq!["overflight_pass_number", "OVERFLIGHTPASSNUMBER"])), "overflight_pass_number") + failure_of(decimal_field(raw(e, seq!["maximum_elevation", "MAXIMUMELEVATION"])), "maximum_elevation") + failure_of(ordinal_field(raw(e, seq!["maximum_elevation_time", "MAXIMUMELEVATIONTIME"])), "maximum_elevation_time");
        assert(overflight_failures(e)[pre.len() as int] == FieldFailure { field: "maximum_elevation_range", kind: ErrorKind::MissingRequiredField });
    }
    if raw(e, seq!["start_time", "STARTTIME"]) is None {
        let pre = failure_of(string_field(raw(e, seq!["overflight_id", "OVERFLIGHTID"])), "overflight_id") + failure_of(string_field(raw(e, seq!["spacecraft_orbiter", "SPACECRAFTORBITER"])), "spacecraft_orbiter") + failure_of(string_field(raw(e, seq!["spacecraft_lander", "SPACECRAFTLANDER"])), "spacecraft_lander") + failure_of(int_field(raw(e, seq!["start_rise_year", "STARTRISEYEAR"])), "start_rise_year") + failure_of(int_field(raw(e, seq!["start_rise_day_of_year", "STARTRISEDAYOFYEAR"])), "start_rise_day_of_year") + failure_of(ordinal_pair_field(raw(e, seq!["start_rise_year", "STARTRISEYEAR"]), raw(e, seq!["start_rise_day_of_year", "STARTRISEDAYOFYEAR"]), raw(e, Seq::<&str>::empty())), "start_rise") + failure_of(int_field(raw(e, seq!["overflight_pass_number", "OVERFLIGHTPASSNUMBER"])), "overflight_pass_number") + failure_of(decimal_field(raw(e, seq!["maximum_elevation", "MAXIMUMELEVATION"])), "maximum_elevation") + failure_of(ordinal_field(raw(e, seq!["maximum_elevation_time", "MAXIMUMELEVATIONTIME"])), "maximum_elevation_time") + failure_of(decimal_field(raw(e, seq!["maximum_elevation_range", "MAXIMUMELEVATIONRANGE"])), "maximum_elevation_range");
        assert(overflight_failures(e)[pre.len() as int] == FieldFailure { field: "start_time", kind: ErrorKind::MissingRequiredField });
    }
    if raw(e, seq!["end_time", "ENDTIME"]) is None {
        let pre = failure_of(string_field(raw(e, seq!["overflight_id", "OVERFLIGHTID"])), "overflight_id") + failure_of(string_field(raw(e, seq!["spacecraft_orbiter", "SPACECRAFTORBITER"])), "spacecraft_orbiter") + failure_of(string_field(raw(e, seq!["spacecraft_lander", "SPACECRAFTLANDER"])), "spacecraft_lander") + failure_of(int_field(raw(e, seq!["start_rise_year", "STARTRISEYEAR"])), "start_rise_year") + failure_of(int_field(raw(e, seq!["start_rise_day_of_year", "STARTRISEDAYOFYEAR"])), "start_rise_day_of_year") + failure_of(ordinal_pair_field(raw(e, seq!["start_rise_year", "STARTRISEYEAR"]), raw(e, seq!["start_rise_day_of_year", "STARTRISEDAYOFYEAR"]), raw(e, Seq::<&str>::empty())), "start_rise") + failure_of(int_field(raw(e, seq!["overflight_pass_number", "OVERFLIGHTPASSNUMBER"])), "overflight_pass_number") + failure_of(decimal_field(raw(e, seq!["maximum_elevation", "MAXIMUMELEVATION"])), "maximum_elevation") + failure_of(ordinal_field(raw(e, seq!["maximum_elevation_time", "MAXIMUMELEVATIONTIME"])), "maximum_elevation_time") + failure_of(decimal_field(raw(e, seq!["maximum_elevation_range", "MAXIMUMELEVATIONRANGE"])), "maximum_elevation_range") + failure_of(ordinal_field(raw(e, seq!["start_time", "STARTTIME"])), "start_time");
        assert(overflight_failures(e)[pre.len() as int] == FieldFailure { field: "end_time", kind: ErrorKind::MissingRequiredField });
    }
    if raw(e, seq!["rise_set_duration", "RISESETDURATION"]) is None {
        let pre = failure_of(string_field(raw(e, seq!["overflight_id", "OVERFLIGHTID"])), "overflight_id") + failure_of(string_field(raw(e, seq!["spacecraft_orbiter", "SPACECRAFTORBITER"])), "spacecraft_orbiter") + failure_of(string_field(raw(e, seq!["spacecraft_lander", "SPACECRAFTLANDER"])), "spacecraft_lander") + failure_of(int_field(raw(e, seq!["start_rise_year", "STARTRISEYEAR"])), "start_rise_year") + failure_of(int_field(raw(e, seq!["start_rise_day_of_year", "STARTRISEDAYOFYEAR"])), "start_rise_day_of_year") + failure_of(ordinal_pair_field(raw(e, seq!["start_rise_year", "STARTRISEYEAR"]), raw(e, seq!["start_rise_day_of_year", "STARTRISEDAYOFYEAR"]), raw(e, Seq::<&str>::empty())), "start_rise") + failure_of(int_field(raw(e, seq!["overflight_pass_number", "OVERFLIGHTPASSNUMBER"])), "overflight_pass_number") + failure_of(decimal_field(raw(e, seq!["maximum_elevation", "MAXIMUMELEVATION"])), "maximum_elevation") + failure_of(ordinal_field(raw(e, seq!["maximum_elevation_time", "MAXIMUMELEVATIONTIME"])), "maximum_elevation_time") + failure_of(decimal_field(raw(e, seq!["maximum_elevation_range", "MAXIMUMELEVATIONRANGE"])), "maximum_elevation_range") + failure_of(ordinal_field(raw(e, seq!["start_time", "STARTTIME"])), "start_time") + failure_of(ordinal_field(raw(e, seq!["end_time", "ENDTIME"])), "end_time");
        assert(overflight_failures(e)[pre.len() as int] == FieldFailure { field: "rise_set_duration", kind: ErrorKind::MissingRequiredField });
    }
}

/// A member under the key of an optional field of a relay pass record never fails the
/// record: the required fields decode as they would without it.
pub proof fn law_optional_overflight_field(e: Seq<(String, JsonValue)>, k: String, v: JsonValue)
    requires
        k@ == "request_type"@
            || k@ == "REQUESTTYPE"@
            || k@ == "request_category"@
            || k@ == "REQUESTCATEGORY"@
            || k@ == "request_forward_link_data_rate"@
            || k@ == "REQUESTFORWARDLINKDATARATE"@
            || k@ == "request_return_link_data_rate"@
            || k@ == "REQUESTRETURNLINKDATARATE"@
            || k@ == "request_data_volume_returned"@
            || k@ == "REQUESTDATAVOLUMERETURNED"@
            || k@ == "request_adr_enable_flag"@
            || k@ == "REQUESTADR_ENABLE_FLAG"@
            || k@ == "ack_type"@
            || k@ == "ACKTYPE"@
            || k@ == "ack_support_plan"@
            || k@ == "ACKSUPPORTPLAN"@
            || k@ == "ack_forward_link_data_rate"@
            || k@ == "ACKFORWARDLINKDATARATE"@
            || k@ == "ack_return_link_data_rate"@
            || k@ == "ACKRETURNLINKDATARATE"@
            || k@ == "ack_adr_enable_flag"@
            || k@ == "ACKADR_ENABLE_FLAG"@
            || k@ == "orbiter_scorecard_forward_link_data_rate"@
            || k@ == "ORBITERSCORECARDFORWARDLINKDATARATE"@
            || k@ == "orbiter_scorecard_return_link_data_rate"@
            || k@ == "ORBITERSCORECARDRETURNLINKDATARATE"@
            || k@ == "orbiter_scorecard_data_volume_returned"@
            || k@ == "ORBITERSCORECARDDATAVOLUMERETURNED"@
            || k@ == "link_type"@
            || k@ == "LINKTYPE"@
            || k@ == "hail_start_src"@
            || k@ == "HAILSTARTSRC"@
            || k@ == "hail_start"@
            || k@ == "HAILSTART"@
            || k@ == "hail_end_src"@
            || k@ == "HAILENDSRC"@
            || k@ == "hail_end"@
            || k@ == "HAILEND"@
            || k@ == "hail_duration"@
            || k@ == "HAILDURATION"@
            || k@ == "date_last_updated"@
            || k@ == "DATELASTUPDATED"@,
    ensures
        overflight_failures(seq![(k, v)] + e) == overflight_failures(e),
{
    reveal_strlit("ACKADR_ENABLE_FLAG");
    reveal_strlit("ACKFORWARDLINKDATARATE");
    reveal_strlit("ACKRETURNLINKDATARATE");
    reveal_strlit("ACKSUPPORTPLAN");
    reveal_strlit("ACKTYPE");
    reveal_strlit("DATELASTUPDATED");
    reveal_strlit("ENDTIME");
    reveal_strlit("HAILDURATION");
    reveal_strlit("HAILEND");
    reveal_strlit("HAILENDSRC");
    reveal_strlit("HAILSTART");
    reveal_strlit("HAILSTARTSRC");
    reveal_strlit("LINKTYPE");
    reveal_strlit("MAXIMUMELEVATION");
    reveal_strlit("MAXIMUMELEVATIONRANGE");
    reveal_strlit("MAXIMUMELEVATIONTIME");
    reveal_strlit("ORBITERSCORECARDDATAVOLUMERETURNED");
    reveal_strlit("ORBITERSCORECARDFORWARDLINKDATARATE");
    reveal_strlit("ORBITERSCORECARDRETURNLINKDATARATE");
    reveal_strlit("OVERFLIGHTID");
    reveal_strlit("OVERFLIGHTPASSNUMBER");
    reveal_strlit("REQUESTADR_ENABLE_FLAG");
    reveal_strlit("REQUESTCATEGORY");
    reveal_strlit("REQUESTDATAVOLUMERETURNED");
    reveal_strlit("REQUESTFORWARDLINKDATARATE");
    reveal_strlit("REQUESTRETURNLINKDATARATE");
    reveal_strlit("REQUESTTYPE");
    reveal_strlit("RISESETDURATION");
    reveal_strlit("SPACECRAFTLANDER");
    reveal_strlit("SPACECRAFTORBITER");
    reveal_strlit("STARTRISEDAYOFYEAR");
    reveal_strlit("STARTRISEYEAR");
    reveal_strlit("STARTTIME");
    reveal_strlit("ack_adr_enable_flag");
    reveal_strlit("ack_forward_link_data_rate");
    reveal_strlit("ack_return_link_data_rate");
    reveal_strlit("ack_support_plan");
    reveal_strlit("ack_type");
    reveal_strlit("date_last_updated");
    reveal_strlit("end_time");
    reveal_strlit("hail_duration");
    reveal_strlit("hail_end");
    reveal_strlit("hail_end_src");
    reveal_strlit("hail_start");
    reveal_strlit("hail_start_src");
    reveal_strlit("link_type");
    reveal_strlit("maximum_elevation");
    reveal_strlit("maximum_elevation_range");
    reveal_strlit("maximum_elevation_time");
    reveal_strlit("orbiter_scorecard_data_volume_returned");
    reveal_strlit("orbiter_scorecard_forward_link_data_rate");
    reveal_strlit("orbiter_scorecard_return_link_data_rate");
    reveal_strlit("overflight_id");
    reveal_strlit("overflight_pass_number");
    reveal_strlit("request_adr_enable_flag");
    reveal_strlit("request_category");
    reveal_strlit("request_data_volume_returned");
    reveal_strlit("request_forward_link_data_rate");
    reveal_strlit("request_return_link_data_rate");
    reveal_strlit("request_type");
    reveal_strlit("rise_set_duration");
    reveal_strlit("spacecraft_lander");
    reveal_strlit("spacecraft_orbiter");
    reveal_strlit("start_rise_day_of_year");
    reveal_strlit("start_rise_year");
    reveal_strlit("start_time");
    assert("ACKADR_ENABLE_FLAG"@.len() == 18);
    assert("ACKFORWARDLINKDATARATE"@.len() == 22);
    assert("ACKRETURNLINKDATARATE"@.len() == 21);
    assert("ACKSUPPORTPLAN"@.len() == 14);
    assert("ACKTYPE"@.len() == 7);
    assert("DATELASTUPDATED"@.len() == 15);
    assert("ENDTIME"@.len() == 7);
    assert("HAILDURATION"@.len() == 12);
    assert("HAILEND"@.len() == 7);
    assert("HAILENDSRC"@.len() == 10);
    assert("HAILSTART"@.len() == 9);
    assert("HAILSTARTSRC"@.len() == 12);
    assert("LINKTYPE"@.len() == 8);
    assert("MAXIMUMELEVATION"@.len() == 16);
    assert("MAXIMUMELEVATIONRANGE"@.len() == 21);
    assert("MAXIMUMELEVATIONTIME"@.len() == 20);
    assert("ORBITERSCORECARDDATAVOLUMERETURNED"@.len() == 34);
    assert("ORBITERSCORECARDFORWARDLINKDATARATE"@.len() == 35);
    assert("ORBITERSCORECARDRETURNLINKDATARATE"@.len() == 34);
    assert("OVERFLIGHTID"@.len() == 12);
    assert("OVERFLIGHTPASSNUMBER"@.len() == 20);
    assert("REQUESTADR_ENABLE_FLAG"@.len() == 22);
    assert("REQUESTCATEGORY"@.len() == 15);
    assert("REQUESTDATAVOLUMERETURNED"@.len() == 25);
    assert("REQUESTFORWARDLINKDATARATE"@.len() == 26);
    assert("REQUESTRETURNLINKDATARATE"@.len() == 25);
    assert("REQUESTTYPE"@.len() == 11);
    assert("RISESETDURATION"@.len() == 15);
    assert("SPACECRAFTLANDER"@.len() == 16);
    assert("SPACECRAFTORBITER"@.len() == 17);
    assert("STARTRISEDAYOFYEAR"@.len() == 18);
    assert("STARTRISEYEAR"@.len() == 13);
    assert("STARTTIME"@.len() == 9);
    assert("ack_adr_enable_flag"@.len() == 19);
    assert("ack_forward_link_data_rate"@.len() == 26);
    assert("ack_return_link_data_rate"@.len() == 25);
    assert("ack_support_plan"@.len() == 16);
    assert("ack_type"@.len() == 8);
    assert("date_last_updated"@.len() == 17);
    assert("end_time"@.len() == 8);
    assert("hail_duration"@.len() == 13);
    assert("hail_end"@.len() == 8);
    assert("hail_end_src"@.len() == 12);
    assert("hail_start"@.len() == 10);
    assert("hail_start_src"@.len() == 14);
    assert("link_type"@.len() == 9);
    assert("maximum_elevation"@.len() == 17);
    assert("maximum_elevation_range"@.len() == 23);
    assert("maximum_elevation_time"@.len() == 22);
    assert("orbiter_scorecard_data_volume_returned"@.len() == 38);
    assert("orbiter_scorecard_forward_link_data_rate"@.len() == 40);
    assert("orbiter_scorecard_return_link_data_rate"@.len() == 39);
    assert("overflight_id"@.len() == 13);
    assert("overflight_pass_number"@.len() == 22);
    assert("request_adr_enable_flag"@.len() == 23);
    assert("request_category"@.len() == 16);
    assert("request_data_volume_returned"@.len() == 28);
    assert("request_forward_link_data_rate"@.len() == 30);
    assert("request_return_link_data_rate"@.len() == 29);
    assert("request_type"@.len() == 12);
    assert("rise_set_duration"@.len() == 17);
    assert("spacecraft_lander"@.len() == 17);
    assert("spacecraft_orbiter"@.len() == 18);
    assert("start_rise_day_of_year"@.len() == 22);
    assert("start_rise_year"@.len() == 15);
    assert("start_time"@.len() == 10);
    assert("overflight_id"@[0] != "hail_duration"@[0]);
    assert("overflight_id"@ != k@);
    assert("OVERFLIGHTID"@[0] != "request_type"@[0]);
    assert("OVERFLIGHTID"@[0] != "HAILSTARTSRC"@[0]);
    assert("OVERFLIGHTID"@[0] != "hail_end_src"@[0]);
    assert("OVERFLIGHTID"@[0] != "HAILDURATION"@[0]);
    assert("OVERFLIGHTID"@ != k@);
    lemma_resolve_other_key(e, k, v, seq!["overflight_id", "OVERFLIGHTID"]);
    assert("spacecraft_orbiter"@[0] != "ACKADR_ENABLE_FLAG"@[0]);
    assert("spacecraft_orbiter"@ != k@);
    assert("SPACECRAFTORBITER"@[0] != "date_last_updated"@[0]);
    assert("SPACECRAFTORBITER"@ != k@);
    lemma_resolve_other_key(e, k, v, seq!["spacecraft_orbiter", "SPACECRAFTORBITER"]);
    assert("spacecraft_lander"@[0] != "date_last_updated"@[0]);
    assert("spacecraft_lander"@ != k@);
    assert("SPACECRAFTLANDER"@[0] != "request_category"@[0]);
    assert("SPACECRAFTLANDER"@[0] != "ack_support_plan"@[0]);
    assert("SPACECRAFTLANDER"@ != k@);
    lemma_resolve_other_key(e, k, v, seq!["spacecraft_lander", "SPACECRAFTLANDER"]);
    assert("start_rise_year"@[0] != "REQUESTCATEGORY"@[0]);
    assert("start_rise_year"@[0] != "DATELASTUPDATED"@[0]);
    assert("start_rise_year"@ != k@);
    assert("STARTRISEYEAR"@[0] != "hail_duration"@[0]);
    assert("STARTRISEYEAR"@ != k@);
    lemma_resolve_other_key(e, k, v, seq!["start_rise_year", "STARTRISEYEAR"]);
    assert("start_rise_day_of_year"@[0] != "REQUESTADR_ENABLE_FLAG"@[0]);
    assert("start_rise_day_of_year"@[0] != "ACKFORWARDLINKDATARATE"@[0]);
    assert("start_rise_day_of_year"@ != k@);
    assert("STARTRISEDAYOFYEAR"@[0] != "ACKADR_ENABLE_FLAG"@[0]);
    assert("STARTRISEDAYOFYEAR"@ != k@);
    lemma_resolve_other_key(e, k, v, seq!["start_rise_day_of_year", "STARTRISEDAYOFYEAR"]);
    assert("start_rise_year"@[0] != "REQUESTCATEGORY"@[0]);
    assert("start_rise_year"@[0] != "DATELASTUPDATED"@[0]);
    assert("start_rise_year"@ != k@);
    assert("STARTRISEYEAR"@[0] != "hail_duration"@[0]);
    assert("STARTRISEYEAR"@ != k@);
    lemma_resolve_other_key(e, k, v, seq!["start_rise_year", "STARTRISEYEAR"]);
    assert("start_rise_day_of_year"@[0] != "REQUESTADR_ENABLE_FLAG"@[0]);
    assert("start_rise_day_of_year"@[0] != "ACKFORWARDLINKDATARATE"@[0]);
    assert("start_rise_day_of_year"@ != k@);
    assert("STARTRISEDAYOFYEAR"@[0] != "ACKADR_ENABLE_FLAG"@[0]);
    assert("STARTRISEDAYOFYEAR"@ != k@);
    lemma_resolve_other_key(e, k, v, seq!["start_rise_day_of_year", "STARTRISEDAYOFYEAR"]);
    lemma_resolve_other_key(e, k, v, Seq::<&str>::empty());
    assert("overflight_pass_number"@[0] != "REQUESTADR_ENABLE_FLAG"@[0]);
    assert("overflight_pass_number"@[0] != "ACKFORWARDLINKDATARATE"@[0]);
    assert("overflight_pass_number"@ != k@);
    assert("OVERFLIGHTPASSNUMBER"@ != k@);
    lemma_resolve_other_key(e, k, v, seq!["overflight_pass_number", "OVERFLIGHTPASSNUMBER"]);
    assert("maximum_elevation"@[0] != "date_last_updated"@[0]);
    assert("maximum_elevation"@ != k@);
    assert("MAXIMUMELEVATION"@[0] != "request_category"@[0]);
    assert("MAXIMUMELEVATION"@[0] != "ack_support_plan"@[0]);
    assert("MAXIMUMELEVATION"@ != k@);
    lemma_resolve_other_key(e, k, v, seq!["maximum_elevation", "MAXIMUMELEVATION"]);
    assert("maximum_elevation_time"@[0] != "REQUESTADR_ENABLE_FLAG"@[0]);
    assert("maximum_elevation_time"@[0] != "ACKFORWARDLINKDATARATE"@[0]);
    assert("maximum_elevation_time"@ != k@);
    assert("MAXIMUMELEVATIONTIME"@ != k@);
    lemma_resolve_other_key(e, k, v, seq!["maximum_elevation_time", "MAXIMUMELEVATIONTIME"]);
    assert("maximum_elevation_range"@[0] != "request_adr_enable_flag"@[0]);
    assert("maximum_elevation_range"@ != k@);
    assert("MAXIMUMELEVATIONRANGE"@[0] != "ACKRETURNLINKDATARATE"@[0]);
    assert("MAXIMUMELEVATIONRANGE"@ != k@);
    lemma_resolve_other_key(e, k, v, seq!["maximum_elevation_range", "MAXIMUMELEVATIONRANGE"]);
    assert("start_time"@[0] != "hail_start"@[0]);
    assert("start_time"@[0] != "HAILENDSRC"@[0]);
    assert("start_time"@ != k@);
    assert("STARTTIME"@[0] != "link_type"@[0]);
    assert("STARTTIME"@[0] != "HAILSTART"@[0]);
    assert("STARTTIME"@ != k@);
    lemma_resolve_other_key(e, k, v, seq!["start_time", "STARTTIME"]);
    assert("end_time"@[0] != "ack_type"@[0]);
    assert("end_time"@[0] != "LINKTYPE"@[0]);
    assert("end_time"@[0] != "hail_end"@[0]);
    assert("end_time"@ != k@);
    assert("ENDTIME"@[0] != "ACKTYPE"@[0]);
    assert("ENDTIME"@[0] != "HAILEND"@[0]);
    assert("ENDTIME"@ != k@);
    lemma_resolve_other_key(e, k, v, seq!["end_time", "ENDTIME"]);
    assert("rise_set_duration"@[0] != "date_last_updated"@[0]);
    assert("rise_set_duration"@ != k@);
    assert("RISESETDURATION"@[1] != "REQUESTCATEGORY"@[1]);
    assert("RISESETDURATION"@[0] != "DATELASTUPDATED"@[0]);
    assert("RISESETDURATION"@ != k@);
    lemma_resolve_other_key(e, k, v, seq!["rise_set_duration", "RISESETDURATION"]);
}

} // verus!
