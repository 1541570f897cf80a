use vstd::prelude::*;
use crate::error::ErrorCode;

verus! {

/// Whether `timestamp` lies strictly inside `(now - window_size, now + window_size)`,
/// the bounds taken as integers: no bound wraps around.
pub open spec fn within_window(now: u64, window_size: u64, timestamp: u64) -> bool {
    now - window_size < timestamp < now + window_size
}

/// The window check, telling which bound a rejected timestamp broke.
pub open spec fn window_check(now: u64, window_size: u64, timestamp: u64) -> Result<(), ErrorCode> {
    if timestamp >= now + window_size {
        Err(ErrorCode::TimestampTooBig)
    } else if timestamp <= now - window_size {
        Err(ErrorCode::TimestampTooSmall)
    } else {
        Ok(())
    }
}

/// Whether `claimed_timestamp` lies strictly within `window_size` seconds of `now`.
pub fn in_window(now: u64, window_size: u64, claimed_timestamp: u64) -> (r: bool)
    ensures
        r == within_window(now, window_size, claimed_timestamp),
{
    check_window(now, window_size, claimed_timestamp).is_ok()
}

/// Admits `timestamp` when it lies strictly within `window_size` seconds of
/// `now`; otherwise says whether it is too far in the future or in the past.
pub fn check_window(now: u64, window_size: u64, timestamp: u64) -> (r: Result<(), ErrorCode>)
    ensures
        r == window_check(now, window_size, timestamp),
        r is Ok <==> within_window(now, window_size, timestamp),
{
    if timestamp >= now && timestamp - now >= window_size {
        Err(ErrorCode::TimestampTooBig)
    } else if timestamp <= now && now - timestamp >= window_size {
        Err(ErrorCode::TimestampTooSmall)
    } else {
        Ok(())
    }
}

/// Both ends of the window are excluded, and a window of size zero admits
/// nothing, not even `now` itself.
pub proof fn lemma_window_ends_excluded(now: u64, window_size: u64)
    ensures
        now >= window_size ==> window_check(now, window_size, (now - window_size) as u64) is Err,
        0 < window_size <= now ==> window_check(now, window_size, (now - window_size) as u64)
            == Err::<(), ErrorCode>(ErrorCode::TimestampTooSmall),
        now + window_size <= u64::MAX ==> window_check(now, window_size, (now + window_size) as u64)
            == Err::<(), ErrorCode>(ErrorCode::TimestampTooBig),
        window_check(now, 0, now) is Err,
{
}

/// With a window wider than `now`, the lower bound lies below zero and does
/// not wrap around: every timestamp below the upper bound is admitted, zero
/// included.
pub proof fn lemma_lower_bound_below_zero(now: u64, window_size: u64, timestamp: u64)
    requires
        window_size > now,
        timestamp < now + window_size,
    ensures
        window_check(now, window_size, timestamp) == Ok::<(), ErrorCode>(()),
        window_check(now, window_size, 0) == Ok::<(), ErrorCode>(()),
{
}

} // verus!
