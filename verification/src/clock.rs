use vstd::prelude::*;

verus! {

/// The RFC 3339 rendering of a timestamp (seconds since the Unix epoch):
/// a function of the timestamp alone.
pub uninterp spec fn rfc3339_of(timestamp: i64) -> Seq<char>;

/// Relies on chrono's DateTime::from_timestamp and to_rfc3339: renders a
/// timestamp inside the supported window as RFC 3339 text.
#[verifier::external_body]
pub(crate) fn format_rfc3339(timestamp: i64) -> (r: String)
    requires
        0 <= timestamp <= crate::models::MAX_UNIX_TIME,
    ensures
        r@ == rfc3339_of(timestamp),
{
    match chrono::DateTime::<chrono::Utc>::from_timestamp(timestamp, 0) {
        Some(t) => t.to_rfc3339(),
        None => String::new(),
    }
}

} // verus!
