//! Conversion between two named timezones and the queries on them: the
//! current time in either zone, the source zone's offset and daylight-saving
//! flag, and the offset difference between the zones.

use vstd::prelude::*;
use crate::Errors;
use crate::tz::{
    INSTANT_MAX, INSTANT_MIN, abbrev_view, is_valid_zone, now_unix, tz_abbreviation,
    tz_offset_seconds, tz_resolves, valid_instant, zone_abbrev, zone_offset,
};

verus! {

/// An absolute instant, in seconds since the Unix epoch, tagged with the zone
/// whose rules apply when it is shown to a reader.
#[derive(Debug)]
pub struct TimestampWithZone {
    pub instant: i64,
    pub zone: String,
}

/// A snapshot of one zone at one instant: its name, its offset east of UTC in
/// seconds, and whether the daylight-saving heuristic holds of it.
#[derive(Debug)]
pub struct TimeZoneInfo {
    pub name: String,
    pub offset_seconds: i32,
    pub is_dst: bool,
}

/// The byte 'D' in ASCII.
pub const BYTE_UPPER_D: u8 = 68;

/// The byte 'T' in ASCII.
pub const BYTE_UPPER_T: u8 = 84;

/// The daylight-saving heuristic: an abbreviation is recorded and its final
/// two bytes are "DT" (as in "EDT" or "PDT"). Zones whose abbreviations do
/// not follow this suffix convention read as not on daylight saving even
/// during a seasonal shift; the heuristic is coarse by design.
pub open spec fn dst_flag(abbr: Option<Seq<u8>>) -> bool {
    match abbr {
        Some(s) => s.len() >= 2 && s[s.len() - 2] == BYTE_UPPER_D && s[s.len() - 1]
            == BYTE_UPPER_T,
        None => false,
    }
}

fn ends_with_dt(abbr: &Option<Vec<u8>>) -> (r: bool)
    ensures
        r == dst_flag(abbrev_view(*abbr)),
{
    match abbr {
        Some(v) => v.len() >= 2 && v[v.len() - 2] == BYTE_UPPER_D && v[v.len() - 1]
            == BYTE_UPPER_T,
        None => false,
    }
}

/// A pair of resolved timezone names: conversions re-express an instant in
/// the target zone, and the queries read the source zone (or both).
#[derive(Debug)]
pub struct TimeZoneConverter {
    pub source: String,
    pub target: String,
}

impl TimeZoneConverter {
    /// `output` is `input` re-expressed by this converter: the same absolute
    /// instant, tagged with the target zone.
    pub open spec fn converts_to(self, input: TimestampWithZone, output: TimestampWithZone) -> bool {
        output.instant == input.instant && output.zone@ == self.target@
    }

    /// `info` is the source zone's snapshot at instant `t`.
    pub open spec fn is_info_at(self, info: TimeZoneInfo, t: int) -> bool {
        &&& info.name@ == self.source@
        &&& info.offset_seconds == zone_offset(self.source@, t)
        &&& info.is_dst == dst_flag(zone_abbrev(self.source@, t))
    }

    /// The source zone's offset minus the target zone's, in seconds, at
    /// instant `t`. Positive where the source's local clock reads ahead.
    pub open spec fn difference_spec(self, t: int) -> int {
        zone_offset(self.source@, t) - zone_offset(self.target@, t)
    }

    /// Validates both names against the timezone database; the first name
    /// that fails to resolve is the one reported.
    pub fn new(source: &str, target: &str) -> (r: Result<TimeZoneConverter, Errors>)
        ensures
            r is Ok <==> is_valid_zone(source@) && is_valid_zone(target@),
            r matches Ok(c) ==> c.source@ == source@ && c.target@ == target@,
            !is_valid_zone(source@) ==> (r matches Err(e) && e matches Errors::InvalidTimeZone(n)
                && n@ == source@),
            is_valid_zone(source@) && !is_valid_zone(target@) ==> (r matches Err(e)
                && e matches Errors::InvalidTimeZone(n) && n@ == target@),
    {
        if !tz_resolves(source) {
            return Err(Errors::InvalidTimeZone(source.to_owned()));
        }
        if !tz_resolves(target) {
            return Err(Errors::InvalidTimeZone(target.to_owned()));
        }
        Ok(TimeZoneConverter { source: source.to_owned(), target: target.to_owned() })
    }

    /// Re-expresses the given instant in the target zone. The absolute
    /// instant is preserved; only the attached zone changes, whatever zone
    /// the input carried.
    pub fn convert(&self, timestamp: TimestampWithZone) -> (r: Result<TimestampWithZone, Errors>)
        ensures
            r matches Ok(out) && self.converts_to(timestamp, out),
    {
        Ok(TimestampWithZone { instant: timestamp.instant, zone: self.target.clone() })
    }

    /// Instant `t` tagged with the source zone: the whole decision on a
    /// clock reading, for every value of it. Succeeds exactly on the
    /// supported range, carrying `t` itself.
    pub fn current_time_source_at(&self, t: i64) -> (r: Result<TimestampWithZone, Errors>)
        ensures
            valid_instant(t as int) ==> (r matches Ok(ts) && ts.instant == t
                && ts.zone@ == self.source@),
            !valid_instant(t as int) ==> (r matches Err(e) && e is ConversionError),
    {
        if t < INSTANT_MIN || t > INSTANT_MAX {
            return Err(Errors::ConversionError("the clock reads outside the supported range".to_owned()));
        }
        Ok(TimestampWithZone { instant: t, zone: self.source.clone() })
    }

    /// Instant `t` tagged with the target zone: as `current_time_source_at`,
    /// for the other configured zone.
    pub fn current_time_target_at(&self, t: i64) -> (r: Result<TimestampWithZone, Errors>)
        ensures
            valid_instant(t as int) ==> (r matches Ok(ts) && ts.instant == t
                && ts.zone@ == self.target@),
            !valid_instant(t as int) ==> (r matches Err(e) && e is ConversionError),
    {
        if t < INSTANT_MIN || t > INSTANT_MAX {
            return Err(Errors::ConversionError("the clock reads outside the supported range".to_owned()));
        }
        Ok(TimestampWithZone { instant: t, zone: self.target.clone() })
    }

    /// The clock's current instant, tagged with the source zone:
    /// `current_time_source_at` at the clock's reading. Fails only where the
    /// clock reads outside the supported instant range.
    pub fn get_current_time_source(&self) -> (r: Result<TimestampWithZone, Errors>)
        ensures
            r matches Ok(ts) ==> ts.zone@ == self.source@ && valid_instant(ts.instant as int),
            r matches Err(e) ==> e is ConversionError,
    {
        self.current_time_source_at(now_unix())
    }

    /// The clock's current instant, tagged with the target zone:
    /// `current_time_target_at` at the clock's reading. Fails only where the
    /// clock reads outside the supported instant range.
    pub fn get_current_time_target(&self) -> (r: Result<TimestampWithZone, Errors>)
        ensures
            r matches Ok(ts) ==> ts.zone@ == self.target@ && valid_instant(ts.instant as int),
            r matches Err(e) ==> e is ConversionError,
    {
        self.current_time_target_at(now_unix())
    }

    /// The source zone's snapshot at the given instant, decided for every
    /// `t`: succeeds exactly where the instant is in the supported range and
    /// the source name resolves.
    pub fn timezone_info_at(&self, t: i64) -> (r: Result<TimeZoneInfo, Errors>)
        ensures
            r is Ok <==> valid_instant(t as int) && is_valid_zone(self.source@),
            r matches Ok(info) ==> self.is_info_at(info, t as int) && -86400
                < info.offset_seconds < 86400,
            !valid_instant(t as int) ==> (r matches Err(e) && e is ConversionError),
            valid_instant(t as int) && !is_valid_zone(self.source@) ==> (r matches Err(e)
                && e matches Errors::InvalidTimeZone(n) && n@ == self.source@),
    {
        if t < INSTANT_MIN || t > INSTANT_MAX {
            return Err(Errors::ConversionError("the instant is outside the supported range".to_owned()));
        }
        if !tz_resolves(self.source.as_str()) {
            return Err(Errors::InvalidTimeZone(self.source.clone()));
        }
        let offset_seconds = tz_offset_seconds(self.source.as_str(), t);
        let abbr = tz_abbreviation(self.source.as_str(), t);
        let is_dst = ends_with_dt(&abbr);
        Ok(TimeZoneInfo { name: self.source.clone(), offset_seconds, is_dst })
    }

    /// The source zone's snapshot now: `timezone_info_at` at the clock's
    /// current instant.
    pub fn get_timezone_info(&self) -> (r: Result<TimeZoneInfo, Errors>)
        ensures
            r matches Ok(info) ==> exists|t: int|
                valid_instant(t) && #[trigger] self.is_info_at(info, t),
            r matches Err(e) ==> e is ConversionError || (e matches Errors::InvalidTimeZone(n)
                && n@ == self.source@ && !is_valid_zone(self.source@)),
            is_valid_zone(self.source@) ==> (r is Ok || (r matches Err(e)
                && e is ConversionError)),
    {
        let t = now_unix();
        let result = self.timezone_info_at(t);
        proof {
            if result is Ok {
                assert(valid_instant(t as int) && self.is_info_at(result->Ok_0, t as int));
            }
        }
        result
    }

    /// The offset difference at the given instant, in seconds, decided for
    /// every `t`: succeeds exactly where the instant is in the supported
    /// range and both names resolve, and reports the first name that fails.
    pub fn time_difference_at(&self, t: i64) -> (r: Result<i64, Errors>)
        ensures
            r is Ok <==> valid_instant(t as int) && is_valid_zone(self.source@)
                && is_valid_zone(self.target@),
            r matches Ok(d) ==> d == self.difference_spec(t as int) && -172800 < d < 172800,
            !valid_instant(t as int) ==> (r matches Err(e) && e is ConversionError),
            valid_instant(t as int) && !is_valid_zone(self.source@) ==> (r matches Err(e)
                && e matches Errors::InvalidTimeZone(n) && n@ == self.source@),
            valid_instant(t as int) && is_valid_zone(self.source@)
                && !is_valid_zone(self.target@) ==> (r matches Err(e)
                && e matches Errors::InvalidTimeZone(n) && n@ == self.target@),
    {
        if t < INSTANT_MIN || t > INSTANT_MAX {
            return Err(Errors::ConversionError("the instant is outside the supported range".to_owned()));
        }
        if !tz_resolves(self.source.as_str()) {
            return Err(Errors::InvalidTimeZone(self.source.clone()));
        }
        if !tz_resolves(self.target.as_str()) {
            return Err(Errors::InvalidTimeZone(self.target.clone()));
        }
        let source_offset = tz_offset_seconds(self.source.as_str(), t);
        let target_offset = tz_offset_seconds(self.target.as_str(), t);
        Ok((source_offset as i64) - (target_offset as i64))
    }

    /// The offset difference now, in seconds: `time_difference_at` at the
    /// clock's current instant. The fractional-hour reading is this value
    /// over 3600.
    pub fn get_time_difference(&self) -> (r: Result<i64, Errors>)
        ensures
            r matches Ok(d) ==> exists|t: int|
                valid_instant(t) && d == #[trigger] self.difference_spec(t),
            r matches Err(e) ==> e is ConversionError || (e matches Errors::InvalidTimeZone(n)
                && (n@ == self.source@ || n@ == self.target@) && !is_valid_zone(n@)),
            is_valid_zone(self.source@) && is_valid_zone(self.target@) ==> (r is Ok
                || (r matches Err(e) && e is ConversionError)),
    {
        let t = now_unix();
        let result = self.time_difference_at(t);
        proof {
            if result is Ok {
                assert(valid_instant(t as int) && result->Ok_0 == self.difference_spec(t as int));
            }
        }
        result
    }
}

/// Round trip: re-expressing an instant in another zone and then back in the
/// zone it started from yields the identical absolute instant, for every
/// zone pair and every instant.
pub proof fn lemma_round_trip(
    there: TimeZoneConverter,
    back: TimeZoneConverter,
    start: TimestampWithZone,
    mid: TimestampWithZone,
    end: TimestampWithZone,
)
    requires
        back.target@ == start.zone@,
        there.converts_to(start, mid),
        back.converts_to(mid, end),
    ensures
        end.instant == start.instant,
        end.zone@ == start.zone@,
{
}

/// Swapping source and target negates the offset difference, at every
/// instant.
pub proof fn lemma_difference_antisymmetric(
    c: TimeZoneConverter,
    swapped: TimeZoneConverter,
    t: int,
)
    requires
        swapped.source@ == c.target@,
        swapped.target@ == c.source@,
    ensures
        swapped.difference_spec(t) == -c.difference_spec(t),
{
}

/// Two snapshots of the same converter at the same instant agree in every
/// field: the query keeps no hidden state between calls.
pub proof fn lemma_info_idempotent(
    c: TimeZoneConverter,
    first: TimeZoneInfo,
    second: TimeZoneInfo,
    t: int,
)
    requires
        c.is_info_at(first, t),
        c.is_info_at(second, t),
    ensures
        first.name@ == second.name@,
        first.offset_seconds == second.offset_seconds,
        first.is_dst == second.is_dst,
{
}

} // verus!
