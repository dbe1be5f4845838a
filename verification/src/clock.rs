//! The few places where wall-clock time and calendar arithmetic enter the
//! library.  Everything else works on plain epoch-millisecond values.

use vstd::prelude::*;

verus! {

/// The epoch-millisecond value of an RFC 3339 timestamp, or `None` when the
/// text is not a valid timestamp.
pub uninterp spec fn rfc3339_millis_of(s: Seq<char>) -> Option<i64>;

/// The compact `YYYYMMDD-HHMMSS` UTC rendering of an epoch-millisecond
/// value, used as the suffix of generated Job names.
pub uninterp spec fn compact_utc_of(millis: i64) -> Seq<char>;

/// Relies on chrono's `Utc::now`: the current wall-clock time.  Nothing can
/// be promised of the value.
#[verifier::external_body]
pub fn now_epoch_millis() -> i64 {
    chrono::Utc::now().timestamp_millis()
}

/// Relies on chrono's `DateTime::parse_from_rfc3339`: the result depends on
/// the text alone, and parsing succeeds exactly when the text is a valid
/// RFC 3339 timestamp.
#[verifier::external_body]
pub fn parse_rfc3339_millis(s: &str) -> (r: Option<i64>)
    ensures
        r == rfc3339_millis_of(s@),
{
    chrono::DateTime::parse_from_rfc3339(s).ok().map(|t| t.timestamp_millis())
}

/// Relies on chrono's `format`: the rendering depends on the
/// epoch-millisecond value alone.  Out-of-range values render as the empty
/// string.
#[verifier::external_body]
pub fn format_compact_utc(millis: i64) -> (r: String)
    ensures
        r@ == compact_utc_of(millis),
{
    match chrono::DateTime::<chrono::Utc>::from_timestamp_millis(millis) {
        Some(t) => t.format("%Y%m%d-%H%M%S").to_string(),
        None => String::new(),
    }
}

} // verus!
