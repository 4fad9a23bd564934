//! Reading the clock for the event handlers.

use vstd::prelude::*;
use crate::text::opt_view;
use crate::tui::messages::Clock;

verus! {

/// Reads `std::time::SystemTime::now` as whole milliseconds since the Unix
/// epoch, or `None` when the clock reads a time before the epoch
/// (`duration_since` fails). The time is the machine's, so nothing is
/// stated of it.
#[verifier::external_body]
fn millis_since_epoch() -> (r: Option<u64>) {
    match std::time::SystemTime::now().duration_since(std::time::UNIX_EPOCH) {
        Ok(d) => Some(d.as_millis() as u64),
        Err(_) => None,
    }
}

/// What `chrono::DateTime::<Utc>::from_timestamp_millis` followed by
/// `to_rfc3339` gives for a millisecond count: the instant as RFC 3339 text
/// in UTC, or `None` when the count lies outside chrono's range of dates.
pub uninterp spec fn spec_rfc3339_of_millis(ms: u64) -> Option<Seq<char>>;

/// Calls `chrono::DateTime::<Utc>::from_timestamp_millis` and formats the
/// instant with `to_rfc3339`; the result is named by
/// `spec_rfc3339_of_millis`. A count above `i64::MAX` is outside chrono's
/// range, and neither call panics.
#[verifier::external_body]
fn rfc3339_of_millis(ms: u64) -> (r: Option<String>)
    ensures
        opt_view(r) == spec_rfc3339_of_millis(ms),
{
    i64::try_from(ms)
        .ok()
        .and_then(chrono::DateTime::<chrono::Utc>::from_timestamp_millis)
        .map(|dt| dt.to_rfc3339())
}

/// The RFC 3339 text of the clock at `now_ms`; empty when chrono has no
/// date for it.
pub open spec fn spec_clock_text(now_ms: u64) -> Seq<char> {
    match spec_rfc3339_of_millis(now_ms) {
        Some(t) => t,
        None => Seq::empty(),
    }
}

/// The clock made of a reading in milliseconds since the Unix epoch: a time
/// before the epoch (`None`) reads as 0 ms, and the text gives the same
/// instant in RFC 3339 form.
pub fn clock_reading(millis: Option<u64>) -> (c: Clock)
    ensures
        c.now_ms == (match millis {
            Some(m) => m,
            None => 0u64,
        }),
        c.now_rfc3339@ == spec_clock_text(c.now_ms),
{
    let now_ms: u64 = match millis {
        Some(m) => m,
        None => 0,
    };
    let now_rfc3339 = match rfc3339_of_millis(now_ms) {
        Some(t) => t,
        None => String::new(),
    };
    proof {
        assert(now_rfc3339@ =~= spec_clock_text(now_ms));
    }
    Clock { now_ms, now_rfc3339 }
}

/// Reads the clock once: the time in milliseconds since the Unix epoch (a
/// time before the epoch reads as 0 ms) and the same instant as RFC 3339
/// text. The time is the machine's, so which time is read is not stated.
pub fn read_clock() -> (c: Clock)
    ensures
        c.now_rfc3339@ == spec_clock_text(c.now_ms),
{
    clock_reading(millis_since_epoch())
}

} // verus!
