//! Points in time with a fixed offset from UTC, and their RFC 3339 text.
//!
//! The text is produced by `chrono`. A [`Timestamp`] can only be made of
//! values that `chrono` can write, so that writing one never fails.

use vstd::prelude::*;
use chrono::{DateTime, FixedOffset, SecondsFormat};

verus! {

/// `chrono::SecondsFormat`, an enum of unit variants.
#[verifier::external_type_specification]
pub struct ExSecondsFormat(SecondsFormat);

/// Timestamps are written with whole seconds.
pub const RFC_3339_SECONDS_FORMAT: SecondsFormat = SecondsFormat::Secs;

/// The offset is always written in digits, `+00:00` rather than `Z`.
pub const RFC_3339_USE_Z: bool = false;

/// The text that `DateTime::<FixedOffset>::to_rfc3339_opts` gives, under the
/// two options, for the instant `seconds` and `nanoseconds` after the Unix
/// epoch, seen at `offset_seconds` east of UTC. The precision is one of the
/// five that `chrono` documents; for its hidden sixth variant, on which
/// `to_rfc3339_opts` does not return, the name says nothing. It is `None` where `chrono`
/// has no such offset (a day or more), no such instant (outside its range
/// of years, or `nanoseconds` not below a second except in a leap second),
/// or no local time for the instant at that offset.
pub uninterp spec fn rfc3339_text(
    seconds: i64,
    nanoseconds: u32,
    offset_seconds: i32,
    precision: SecondsFormat,
    use_z: bool,
) -> Option<Seq<char>>;

/// Makes the `chrono` value through `FixedOffset::east_opt`,
/// `DateTime::from_timestamp` and `DateTime::with_timezone`, checks with
/// `NaiveDateTime::checked_add_offset` that it has a local time, which
/// `to_rfc3339_opts` needs, and returns what `to_rfc3339_opts` writes. The
/// hidden variant of the precision, on which `to_rfc3339_opts` panics, is
/// left out.
#[verifier::external_body]
pub(crate) fn format_rfc3339(
    seconds: i64,
    nanoseconds: u32,
    offset_seconds: i32,
    precision: SecondsFormat,
    use_z: bool,
) -> (res: Option<String>)
    requires
        !(precision is __NonExhaustive),
    ensures
        res is Some <==> rfc3339_text(seconds, nanoseconds, offset_seconds, precision, use_z)
            is Some,
        res matches Some(text) ==> Some(text@) == rfc3339_text(
            seconds,
            nanoseconds,
            offset_seconds,
            precision,
            use_z,
        ),
{
    let offset = FixedOffset::east_opt(offset_seconds)?;
    let local = DateTime::from_timestamp(seconds, nanoseconds)?.with_timezone(&offset);
    local.naive_utc().checked_add_offset(offset)?;
    Some(local.to_rfc3339_opts(precision, use_z))
}

/// An instant with a fixed offset from UTC.
#[derive(Clone, Copy, Debug)]
pub struct Timestamp {
    seconds: i64,
    nanoseconds: u32,
    offset_seconds: i32,
}

/// Whether the three values make a timestamp that can be written.
pub open spec fn representable(seconds: i64, nanoseconds: u32, offset_seconds: i32) -> bool {
    rfc3339_text(
        seconds,
        nanoseconds,
        offset_seconds,
        RFC_3339_SECONDS_FORMAT,
        RFC_3339_USE_Z,
    ) is Some
}

impl Timestamp {
    #[verifier::type_invariant]
    spec fn well_formed(self) -> bool {
        representable(self.seconds, self.nanoseconds, self.offset_seconds)
    }

    /// Whole seconds since the Unix epoch.
    pub closed spec fn spec_seconds(&self) -> i64 {
        self.seconds
    }

    /// Nanoseconds past the whole second.
    pub closed spec fn spec_nanoseconds(&self) -> u32 {
        self.nanoseconds
    }

    /// Seconds east of UTC.
    pub closed spec fn spec_offset_seconds(&self) -> i32 {
        self.offset_seconds
    }

    /// The timestamp as RFC 3339 text with whole seconds and a numeric
    /// offset, such as `2005-01-01T00:00:00+00:00`.
    pub open spec fn text(self) -> Seq<char> {
        rfc3339_text(
            self.spec_seconds(),
            self.spec_nanoseconds(),
            self.spec_offset_seconds(),
            RFC_3339_SECONDS_FORMAT,
            RFC_3339_USE_Z,
        ).unwrap()
    }

    /// The timestamp of the instant `seconds` and `nanoseconds` after the
    /// Unix epoch at `offset_seconds` east of UTC, or `None` where the three
    /// do not make a timestamp that can be written.
    pub fn new(seconds: i64, nanoseconds: u32, offset_seconds: i32) -> (res: Option<Timestamp>)
        ensures
            res is Some <==> representable(seconds, nanoseconds, offset_seconds),
            res matches Some(t) ==> t.spec_seconds() == seconds && t.spec_nanoseconds()
                == nanoseconds && t.spec_offset_seconds() == offset_seconds,
    {
        match format_rfc3339(
            seconds,
            nanoseconds,
            offset_seconds,
            RFC_3339_SECONDS_FORMAT,
            RFC_3339_USE_Z,
        ) {
            Some(_) => Some(Timestamp { seconds, nanoseconds, offset_seconds }),
            None => None,
        }
    }

    #[verifier::when_used_as_spec(spec_seconds)]
    pub fn seconds(&self) -> (res: i64)
        ensures
            res == self.spec_seconds(),
    {
        self.seconds
    }

    #[verifier::when_used_as_spec(spec_nanoseconds)]
    pub fn nanoseconds(&self) -> (res: u32)
        ensures
            res == self.spec_nanoseconds(),
    {
        self.nanoseconds
    }

    #[verifier::when_used_as_spec(spec_offset_seconds)]
    pub fn offset_seconds(&self) -> (res: i32)
        ensures
            res == self.spec_offset_seconds(),
    {
        self.offset_seconds
    }

    /// Writes the timestamp as RFC 3339 text.
    pub fn to_rfc3339(&self) -> (res: String)
        ensures
            res@ == self.text(),
    {
        proof {
            use_type_invariant(self);
        }
        match format_rfc3339(
            self.seconds,
            self.nanoseconds,
            self.offset_seconds,
            RFC_3339_SECONDS_FORMAT,
            RFC_3339_USE_Z,
        ) {
            Some(text) => text,
            None => String::new(),
        }
    }
}

} // verus!
