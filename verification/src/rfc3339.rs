//! Time elapsed between two RFC 3339 date-times.

use vstd::prelude::*;

verus! {

/// The whole milliseconds that lie between the instants which two RFC 3339
/// date-times denote, counted from `earlier` to `later` and negative where
/// `later` is the earlier of the two; nothing where either text is not an
/// RFC 3339 date-time.
pub uninterp spec fn rfc3339_millis_between(later: Seq<char>, earlier: Seq<char>) -> Option<i64>;

/// Reads both texts with `chrono::DateTime::parse_from_rfc3339`, subtracts
/// the second instant from the first and takes
/// `chrono::TimeDelta::num_milliseconds` of the difference.
///
/// Trusted, not proved: the result is the named number of milliseconds,
/// which depends on the two texts alone, and is nothing exactly where one of
/// the texts is refused. The grammar and the calendar arithmetic are chrono's
/// and are not spelled out here.
#[verifier::external_body]
pub(crate) fn millis_between(later: &str, earlier: &str) -> (elapsed: Option<i64>)
    ensures
        elapsed == rfc3339_millis_between(later@, earlier@),
{
    let end = match chrono::DateTime::parse_from_rfc3339(later) {
        Ok(instant) => instant,
        Err(_) => return None,
    };
    let start = match chrono::DateTime::parse_from_rfc3339(earlier) {
        Ok(instant) => instant,
        Err(_) => return None,
    };
    Some((end - start).num_milliseconds())
}

} // verus!
