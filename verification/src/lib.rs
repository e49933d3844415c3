//! Convert instants between named IANA timezones and report zone metadata:
//! the UTC offset at an instant, a daylight-saving flag, and the difference
//! between two zones' local clocks.

use vstd::prelude::*;

pub mod calendar;
pub mod converter;
pub mod tz;

pub use converter::{TimeZoneConverter, TimeZoneInfo, TimestampWithZone};

verus! {

/// Errors reported by the timezone operations.
#[derive(Debug)]
pub enum Errors {
    /// The given name does not resolve to a known timezone.
    InvalidTimeZone(String),
    /// A textual datetime could not be parsed.
    ParseError(String),
    /// An instant could not be re-expressed in another zone.
    ConversionError(String),
}

} // verus!
