//! RFC 3339 timestamps, through `chrono`.

use vstd::prelude::*;
use chrono::{DateTime, SecondsFormat, Utc};

verus! {

/// The RFC 3339 text (whole seconds, `Z` suffix) of the UTC instant `secs`
/// seconds after the Unix epoch, or `None` when chrono cannot represent it.
pub uninterp spec fn rfc3339_utc_secs(secs: i64) -> Option<Seq<char>>;

/// The instant that an RFC 3339 text denotes, as whole seconds after the
/// Unix epoch and the nanoseconds past that second (more than a second's
/// worth during a leap second), or `None` when the text does not parse.
pub uninterp spec fn rfc3339_instant(s: Seq<char>) -> Option<(i64, u32)>;

/// Calls `DateTime::<Utc>::from_timestamp(secs, 0)` and formats the result
/// with `to_rfc3339_opts(SecondsFormat::Secs, true)`. The text is named by
/// [`rfc3339_utc_secs`]; nothing more is claimed of it.
#[verifier::external_body]
pub(crate) fn format_utc_secs(secs: i64) -> (r: Option<String>)
    ensures
        match r {
            Some(s) => rfc3339_utc_secs(secs) == Some(s@),
            None => rfc3339_utc_secs(secs) is None,
        },
{
    DateTime::<Utc>::from_timestamp(secs, 0).map(|d| d.to_rfc3339_opts(SecondsFormat::Secs, true))
}

/// Calls `DateTime::parse_from_rfc3339(s)` and reads the parsed instant
/// with `timestamp()` and `timestamp_subsec_nanos()`; a parse error becomes
/// `None`. The result is named by [`rfc3339_instant`].
#[verifier::external_body]
pub(crate) fn parse_rfc3339_instant(s: &str) -> (r: Option<(i64, u32)>)
    ensures
        r == rfc3339_instant(s@),
{
    match DateTime::parse_from_rfc3339(s) {
        Ok(d) => Some((d.timestamp(), d.timestamp_subsec_nanos())),
        Err(_) => None,
    }
}

/// The text shown for an instant chrono cannot represent: the epoch.
pub open spec fn epoch_text() -> Seq<char> {
    "1970-01-01T00:00:00Z"@
}

/// RFC 3339 text of a Unix-seconds instant; instants outside chrono's range
/// fall back to the epoch.
pub fn iso(unix_secs: i64) -> (r: String)
    ensures
        match rfc3339_utc_secs(unix_secs) {
            Some(s) => r@ == s,
            None => r@ == epoch_text(),
        },
{
    match format_utc_secs(unix_secs) {
        Some(s) => s,
        None => {
            let e = String::from_str("1970-01-01T00:00:00Z");
            proof {
                reveal_strlit("1970-01-01T00:00:00Z");
            }
            e
        },
    }
}

} // verus!
