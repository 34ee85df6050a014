//! UTC instants and their ISO-8601 text.

use vstd::prelude::*;

verus! {

/// A UTC instant: whole seconds since 1970-01-01T00:00:00Z, and the
/// nanoseconds into that second.
#[derive(Clone, Copy, Debug, PartialEq, Eq, Structural)]
pub struct Timestamp {
    pub secs: i64,
    pub nanos: u32,
}

/// The text that chrono writes for the UTC instant `secs`, `nanos` in RFC 3339
/// form with a `Z` suffix and as many fraction digits as the nanoseconds need
/// (none, three, six or nine); `None` where chrono has no date for the
/// instant.
pub uninterp spec fn utc_iso8601(secs: int, nanos: int) -> Option<Seq<char>>;

/// Whether the instant `secs`, `nanos` lies in the years 1970 to 9999 and
/// is no leap second: at least the epoch, before 10000-01-01T00:00:00Z, with
/// less than a second of nanoseconds.
pub open spec fn plain_instant(secs: int, nanos: int) -> bool {
    0 <= secs < 253_402_300_800 && 0 <= nanos < 1_000_000_000
}

/// Calls `chrono::DateTime::<Utc>::from_timestamp` and, on the date it gives,
/// `DateTime::to_rfc3339_opts` with `SecondsFormat::AutoSi` and `use_z`.
/// Of the text nothing is claimed but that it is the one chrono writes for
/// these two numbers. There is none exactly when chrono rejects them, which
/// it does for no instant of the years 1970 to 9999 that is not a leap
/// second.
#[verifier::external_body]
pub(crate) fn iso8601_text(secs: i64, nanos: u32) -> (text: Option<String>)
    ensures
        text is Some <==> utc_iso8601(secs as int, nanos as int) is Some,
        text matches Some(written) ==> utc_iso8601(secs as int, nanos as int) == Some(written@),
        plain_instant(secs as int, nanos as int) ==> text is Some,
{
    match chrono::DateTime::<chrono::Utc>::from_timestamp(secs, nanos) {
        Some(at) => Some(at.to_rfc3339_opts(chrono::SecondsFormat::AutoSi, true)),
        None => None,
    }
}

impl Timestamp {
    /// The instant `nanos` nanoseconds after `secs` seconds past the epoch.
    pub fn new(secs: i64, nanos: u32) -> (at: Self)
        ensures
            at == (Timestamp { secs, nanos }),
    {
        Timestamp { secs, nanos }
    }

    /// This instant as ISO-8601 text, where it has one.
    pub open spec fn iso8601(&self) -> Option<Seq<char>> {
        utc_iso8601(self.secs as int, self.nanos as int)
    }

    /// Whether this instant lies in the years 1970 to 9999 and is no leap
    /// second. Every such instant has a text.
    pub open spec fn is_plain(&self) -> bool {
        plain_instant(self.secs as int, self.nanos as int)
    }
}

} // verus!
