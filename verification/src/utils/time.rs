//! Timestamps as text.

use chrono::TimeZone;
use vstd::prelude::*;

verus! {

/// What chrono prints for the UTC time `secs` seconds after the Unix
/// epoch under the format `pattern`.
pub uninterp spec fn utc_timestamp_text(secs: int, pattern: Seq<char>) -> Seq<char>;

/// The format of every timestamp of the read surface: date and time to
/// the second, a fraction only where there is one, and `Z`.
pub open spec fn timestamp_pattern() -> Seq<char> {
    "%Y-%m-%dT%H:%M:%S%.fZ"@
}

/// The text of a block timestamp.
pub open spec fn timestamp_text(secs: u32) -> Seq<char> {
    utc_timestamp_text(secs as int, timestamp_pattern())
}

/// Calls chrono's `TimeZone::timestamp` on `Utc` with no nanoseconds and
/// `DateTime::format` with `pattern`. The contract names the text that
/// comes back and claims no more than that it depends on the two
/// arguments alone. Every `u32` is a time that chrono can hold; the one
/// pattern that is let in is made of specifiers that chrono knows, so the
/// formatting does not fail.
#[verifier::external_body]
#[allow(deprecated)]
pub(crate) fn format_utc(secs: u32, pattern: &str) -> (text: String)
    requires
        pattern@ == timestamp_pattern(),
    ensures
        text@ == utc_timestamp_text(secs as int, pattern@),
{
    chrono::Utc.timestamp(secs as i64, 0).format(pattern).to_string()
}

/// A block timestamp as text, such as `2015-05-15T00:00:00Z`.
pub fn format_timestamp(secs: u32) -> (text: String)
    ensures
        text@ == timestamp_text(secs),
{
    format_utc(secs, "%Y-%m-%dT%H:%M:%S%.fZ")
}

} // verus!
