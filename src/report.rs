//! Writing a commit time as text.
use vstd::prelude::*;

verus! {

/// Seconds since the epoch of 0001-01-01T00:00:00Z.
pub const EARLIEST_SECONDS: i64 = -62135596800;

/// Seconds since the epoch of 9999-12-31T23:59:59Z.
pub const LATEST_SECONDS: i64 = 253402300799;

/// The RFC 3339 text, in UTC, of a time in seconds since the epoch.
pub uninterp spec fn rfc3339_of(seconds: int) -> Seq<char>;

/// Relies on time::at_utc and time::Tm::rfc3339: the UTC date and time of
/// `seconds`, written as RFC 3339. Within four-digit years the conversion
/// cannot fail.
#[verifier::external_body]
fn rfc3339_utc(seconds: i64) -> (r: String)
    requires
        EARLIEST_SECONDS <= seconds <= LATEST_SECONDS,
    ensures
        r@ == rfc3339_of(seconds as int),
{
    format!("{}", time::at_utc(time::Timespec::new(seconds, 0)).rfc3339())
}

/// The RFC 3339 text of a commit time, where its year has four digits.
pub fn commit_time_text(seconds: i64) -> (r: Option<String>)
    ensures
        EARLIEST_SECONDS <= seconds <= LATEST_SECONDS ==> (r matches Some(t) && t@
            == rfc3339_of(seconds as int)),
        !(EARLIEST_SECONDS <= seconds <= LATEST_SECONDS) ==> r.is_none(),
{
    if EARLIEST_SECONDS <= seconds && seconds <= LATEST_SECONDS {
        Some(rfc3339_utc(seconds))
    } else {
        None
    }
}

} // verus!
