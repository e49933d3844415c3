//! The boundary to the IANA timezone database and to the system clock.
//!
//! Everything the rest of the crate knows about a named zone comes through the
//! functions here: whether a name resolves, the zone's UTC offset at an
//! instant, its abbreviation at an instant, and the current time. Each result
//! that depends on the zone data alone is given an uninterpreted name, so that
//! callers' contracts can speak of it exactly.

use vstd::prelude::*;
use chrono::Offset;
use chrono::TimeZone;
use chrono_tz::OffsetName;

verus! {

/// Earliest supported instant: 0001-01-02T00:00:00Z, in seconds since the Unix
/// epoch. One day inside the first representable date, so that a local clock
/// up to a day behind UTC still renders to a year no earlier than 1.
pub const INSTANT_MIN: i64 = -62135510400;

/// Latest supported instant: 9999-12-30T23:59:59Z, in seconds since the Unix
/// epoch. One day inside the last representable date, so that a local clock up
/// to a day ahead of UTC still renders to a year no later than 9999.
pub const INSTANT_MAX: i64 = 253402214399;

/// An instant the library accepts: a second count within the supported range.
pub open spec fn valid_instant(t: int) -> bool {
    INSTANT_MIN <= t <= INSTANT_MAX
}

/// Whether the name resolves in the timezone database.
pub uninterp spec fn is_valid_zone(name: Seq<char>) -> bool;

/// The zone's UTC offset in seconds east of UTC at instant `t` (seconds since
/// the Unix epoch), as the timezone database rules give it.
pub uninterp spec fn zone_offset(name: Seq<char>, t: int) -> int;

/// The zone's offset abbreviation at instant `t` (for example the bytes of
/// "EST"), where the timezone database records one.
pub uninterp spec fn zone_abbrev(name: Seq<char>, t: int) -> Option<Seq<u8>>;

/// Relies on chrono_tz's `Tz::from_str`: a lookup of the name in the built-in
/// zone table, so success is a function of the name alone.
#[verifier::external_body]
pub(crate) fn tz_resolves(name: &str) -> (r: bool)
    ensures
        r == is_valid_zone(name@),
{
    name.parse::<chrono_tz::Tz>().is_ok()
}

/// Relies on chrono_tz's `Tz::offset_from_utc_datetime`, which looks the
/// instant up in the zone's rule spans and is total, and on chrono's
/// `Offset::fix` and `FixedOffset::local_minus_utc`, whose value chrono
/// documents to lie strictly between -86400 and 86400 seconds. The offset is a
/// function of the zone name and the instant alone.
#[verifier::external_body]
pub(crate) fn tz_offset_seconds(name: &str, t: i64) -> (r: i32)
    requires
        is_valid_zone(name@),
        valid_instant(t as int),
    ensures
        r == zone_offset(name@, t as int),
        -86400 < r < 86400,
{
    let tz: chrono_tz::Tz = name.parse().unwrap();
    let utc = chrono::DateTime::<chrono::Utc>::from_timestamp(t, 0).unwrap();
    tz.offset_from_utc_datetime(&utc.naive_utc()).fix().local_minus_utc()
}

/// The byte sequence an abbreviation holds, as a mathematical value.
pub open spec fn abbrev_view(a: Option<Vec<u8>>) -> Option<Seq<u8>> {
    match a {
        Some(v) => Some(v@),
        None => None,
    }
}

/// Relies on chrono_tz's `OffsetName::abbreviation`: the name recorded for the
/// rule span that covers the instant, a function of the zone name and the
/// instant alone; `None` where the database records no abbreviation.
#[verifier::external_body]
pub(crate) fn tz_abbreviation(name: &str, t: i64) -> (r: Option<Vec<u8>>)
    requires
        is_valid_zone(name@),
        valid_instant(t as int),
    ensures
        abbrev_view(r) == zone_abbrev(name@, t as int),
{
    let tz: chrono_tz::Tz = name.parse().unwrap();
    let utc = chrono::DateTime::<chrono::Utc>::from_timestamp(t, 0).unwrap();
    let off = tz.offset_from_utc_datetime(&utc.naive_utc());
    off.abbreviation().map(|a| a.as_bytes().to_vec())
}

/// Relies on std's `SystemTime::now` and `duration_since`: the system clock
/// in seconds since the Unix epoch, negative where the clock is set before
/// it. Neither call panics; the value depends on the machine and the moment,
/// so nothing is promised of it, and callers must handle every value.
#[verifier::external_body]
pub(crate) fn now_unix() -> (r: i64)
{
    match std::time::SystemTime::now().duration_since(std::time::UNIX_EPOCH) {
        Ok(since) => since.as_secs() as i64,
        Err(before) => (-(before.duration().as_secs() as i128)) as i64,
    }
}

} // verus!
