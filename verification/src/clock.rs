//! Time: the expiry a service announces, and the time of day.

use vstd::prelude::*;

verus! {

/// The seconds since the epoch that `chrono` reads from an RFC 3339 date
/// and time, or nothing where the text is none.
pub uninterp spec fn rfc3339_epoch(text: Seq<char>) -> Option<i64>;

/// Calls `chrono::DateTime::parse_from_rfc3339` and, on success,
/// `DateTime::timestamp`. The result depends on the text alone.
#[verifier::external_body]
fn chrono_epoch(text: &str) -> (r: Option<i64>)
    ensures
        r == rfc3339_epoch(text@),
{
    match chrono::DateTime::parse_from_rfc3339(text) {
        Ok(moment) => Some(moment.timestamp()),
        Err(_) => None,
    }
}

/// Calls `std::time::SystemTime::now` and `SystemTime::duration_since`
/// with the epoch: the whole seconds that this machine's clock is past
/// the epoch, or nothing where it is set before. Nothing is claimed of
/// the value.
#[verifier::external_body]
fn system_seconds() -> Option<u64> {
    match std::time::SystemTime::now().duration_since(std::time::UNIX_EPOCH) {
        Ok(elapsed) => Some(elapsed.as_secs()),
        Err(_) => None,
    }
}

/// Calls `chrono::DateTime::from_timestamp` with whole seconds and, on
/// success, `DateTime::timestamp`, which gives the same seconds back.
/// `None` marks seconds beyond the dates that `chrono` holds.
#[verifier::external_body]
fn chrono_timestamp(seconds: i64) -> (r: Option<i64>)
    ensures
        r matches Some(t) ==> t == seconds,
{
    match chrono::DateTime::from_timestamp(seconds, 0) {
        Some(moment) => Some(moment.timestamp()),
        None => None,
    }
}

/// The instant that an RFC 3339 text names, in seconds since the epoch.
pub fn epoch_of_rfc3339(text: &str) -> (r: Option<i64>)
    ensures
        r == rfc3339_epoch(text@),
{
    chrono_epoch(text)
}

/// The current time in seconds since the epoch, which is never
/// negative. Two calls may differ. `None` where the clock of the
/// machine is set before the epoch or beyond the dates that can be told.
pub fn now() -> (r: Option<i64>)
    ensures
        r matches Some(t) ==> t >= 0,
{
    match system_seconds() {
        Some(seconds) => {
            if seconds > 0x7fff_ffff_ffff_ffffu64 {
                None
            } else {
                chrono_timestamp(seconds as i64)
            }
        },
        None => None,
    }
}

} // verus!
