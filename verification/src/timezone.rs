//! The timezone a temporal column is decoded under. A zone is modelled by
//! the UTC offset it prescribes, in seconds; the offset of a named zone at
//! an instant is looked up in the zone database. The timezone never changes
//! what a temporal column stores — only how a stored raw integer is
//! interpreted as a local wall-clock value.

use vstd::prelude::*;

verus! {

/// Seconds in one day.
pub const SECONDS_PER_DAY: i64 = 86400;

/// A calendar/offset rule, reduced to the UTC offset it prescribes:
/// local wall-clock seconds = UTC seconds + `offset_seconds`.
#[derive(Clone, Copy, PartialEq, Eq, Structural, Debug)]
pub struct Timezone {
    pub offset_seconds: i32,
}

/// The UTC offset, in seconds, that the zone database gives the zone of
/// this name at this instant (seconds since the Unix epoch); `None` when no
/// zone of this name exists. The database is compiled into the library, so
/// the offset is a function of the name and the instant alone.
pub uninterp spec fn tz_offset_of(name: Seq<char>, unix_seconds: u32) -> Option<i32>;

/// Relies on `chrono_tz::Tz::from_str` and
/// `chrono::TimeZone::offset_from_utc_datetime`: the UTC offset of a named
/// zone at a given instant, from the zone database compiled into `chrono_tz`.
#[verifier::external_body]
fn lookup_utc_offset(name: &str, unix_seconds: u32) -> (r: Option<i32>)
    ensures
        r == tz_offset_of(name@, unix_seconds),
{
    let tz: chrono_tz::Tz = match name.parse() {
        Ok(t) => t,
        Err(_) => return None,
    };
    let utc = chrono::DateTime::from_timestamp(unix_seconds as i64, 0)?;
    let offset = chrono::TimeZone::offset_from_utc_datetime(&tz, &utc.naive_utc());
    Some(chrono::Offset::fix(&offset).local_minus_utc())
}

impl Timezone {
    /// A zone that is a fixed offset from UTC.
    pub fn from_offset(offset_seconds: i32) -> (tz: Timezone)
        ensures
            tz.offset_seconds == offset_seconds,
    {
        Timezone { offset_seconds }
    }

    /// UTC itself.
    pub fn utc() -> (tz: Timezone)
        ensures
            tz.offset_seconds == 0,
    {
        Timezone { offset_seconds: 0 }
    }

    /// The zone of this name as the zone database has it at the given
    /// instant, or `None` for an unknown name.
    pub fn resolve(name: &str, unix_seconds: u32) -> (r: Option<Timezone>)
        ensures
            r == match tz_offset_of(name@, unix_seconds) {
                Some(o) => Some(Timezone { offset_seconds: o }),
                None => None::<Timezone>,
            },
    {
        match lookup_utc_offset(name, unix_seconds) {
            Some(o) => Some(Timezone { offset_seconds: o }),
            None => None,
        }
    }

    /// Local wall-clock seconds denoted by a raw date-time value (seconds
    /// since the epoch) under this zone.
    pub open spec fn spec_datetime_interpretation(self, raw: u32) -> int {
        raw + self.offset_seconds
    }

    pub fn datetime_interpretation(&self, raw: u32) -> (r: i64)
        ensures
            r == self.spec_datetime_interpretation(raw),
    {
        raw as i64 + self.offset_seconds as i64
    }

    /// Local wall-clock seconds at which a raw date value (days since the
    /// epoch) begins under this zone.
    pub open spec fn spec_date_interpretation(self, raw: u16) -> int {
        raw * (SECONDS_PER_DAY as int) + self.offset_seconds
    }

    pub fn date_interpretation(&self, raw: u16) -> (r: i64)
        ensures
            r == self.spec_date_interpretation(raw),
    {
        raw as i64 * SECONDS_PER_DAY + self.offset_seconds as i64
    }
}

/// Interpretation is applied after storage and is injective in the zone: two
/// zones with different offsets interpret the same raw value differently,
/// while the raw value itself is unchanged.
pub proof fn lemma_interpretation_depends_on_zone(a: Timezone, b: Timezone, raw_date: u16, raw_datetime: u32)
    requires
        a.offset_seconds != b.offset_seconds,
    ensures
        a.spec_date_interpretation(raw_date) != b.spec_date_interpretation(raw_date),
        a.spec_datetime_interpretation(raw_datetime) != b.spec_datetime_interpretation(
            raw_datetime,
        ),
{
}

} // verus!
