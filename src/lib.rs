//! Tolerant decoding of loosely typed JSON telemetry feeds into typed records.
//!
//! A feed arrives as a `json::JsonValue` tree. Each record field is read by a
//! codec from `codec`: strict codecs fail the record, and `codec::tolerant`
//! turns any strict result into an optional one. `weather` and `passes` hold
//! the two record schemas and decode whole feeds; `report` renders weather rows.
//! Date-time text without an explicit offset is read as UTC.

pub mod codec;
pub mod date;
pub mod error;
pub mod json;
pub mod num;
pub mod passes;
pub mod report;
pub mod weather;
