use vstd::prelude::*;

verus! {

/// Every instant chrono can represent lies below this many milliseconds
/// past the Unix epoch: its date range ends in year 262142, about 8.3e15
/// milliseconds, so this round bound holds with room to spare.
pub const CLOCK_MILLIS_BOUND: i64 = 9_000_000_000_000_000;

/// Relies on chrono::Utc::now, read out through DateTime::timestamp_millis:
/// the current time as milliseconds since the Unix epoch. Which instant
/// comes back depends on the clock, so only chrono's own range is assumed
/// of it: `Utc::now` panics rather than hand back a time before the epoch,
/// and every instant it can represent lies below `CLOCK_MILLIS_BOUND`.
#[verifier::external_body]
pub fn now_epoch_millis() -> (r: i64)
    ensures
        0 <= r <= CLOCK_MILLIS_BOUND,
{
    chrono::Utc::now().timestamp_millis()
}

/// The absolute deadline `timeout_ms` past `now_millis`: exactly their sum,
/// or `None` when the timeout or the sum leaves the range of i64
/// milliseconds.
pub fn deadline_from(now_millis: i64, timeout_ms: u64) -> (r: Option<i64>)
    ensures
        r matches Some(d) ==> d == now_millis + timeout_ms,
        r is None <==> (timeout_ms > i64::MAX || now_millis + timeout_ms > i64::MAX),
{
    if timeout_ms > i64::MAX as u64 {
        return None;
    }
    let t = timeout_ms as i64;
    if now_millis <= i64::MAX - t {
        Some(now_millis + t)
    } else {
        None
    }
}

/// The absolute deadline `timeout_ms` past the current time, in milliseconds
/// since the Unix epoch. It exists for every timeout that cannot overflow
/// from any representable clock value — in particular for every timeout of
/// practical size — and never for one beyond i64::MAX milliseconds; when it
/// exists it lies between the timeout itself and the timeout past the last
/// representable instant.
pub fn deadline_after(timeout_ms: u64) -> (r: Option<i64>)
    ensures
        timeout_ms + CLOCK_MILLIS_BOUND <= i64::MAX ==> r is Some,
        timeout_ms > i64::MAX ==> r is None,
        r matches Some(d) ==> timeout_ms <= d <= CLOCK_MILLIS_BOUND + timeout_ms,
{
    let now = now_epoch_millis();
    deadline_from(now, timeout_ms)
}

} // verus!
