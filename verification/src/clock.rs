//! Local time, and the signed skew that carries it over to server time.
//!
//! Timestamps are unsigned 64-bit millisecond counts. A skew is the signed
//! 64-bit difference of two of them, taken modulo 2^64, so that adding the
//! skew of a server time against a local time back onto that local time
//! always gives the server time again.

use vstd::prelude::*;

verus! {

/// The number of values of a 64-bit word.
pub open spec fn word() -> int {
    0x1_0000_0000_0000_0000
}

/// The representative of `x` modulo 2^64 that a `u64` holds.
pub open spec fn wrap_unsigned(x: int) -> int {
    x % word()
}

/// The representative of `x` modulo 2^64 that an `i64` holds.
pub open spec fn wrap_signed(x: int) -> int {
    let m = x % word();
    if m >= 0x8000_0000_0000_0000 {
        m - word()
    } else {
        m
    }
}

/// The skew that takes local time `local` to server time `server`.
pub open spec fn skew_between(server: u64, local: u64) -> int {
    wrap_signed(server - local)
}

/// Local time `local` carried over to server time by `skew`.
pub open spec fn skewed(local: u64, skew: i64) -> int {
    wrap_unsigned(local + skew)
}

/// Milliseconds gone by at `now` since `since`; none if `now` is the earlier one.
pub open spec fn elapsed(since: u64, now: u64) -> int {
    if now >= since {
        now - since
    } else {
        0
    }
}

/// Whether `duration` milliseconds have gone by at `now` since `since`.
pub open spec fn expired(since: u64, duration: u64, now: u64) -> bool {
    now >= since + duration
}

/// Reads the local clock through `embassy_time::Instant::now` and converts the
/// instant to whole milliseconds with `Instant::as_millis`. Nothing is claimed
/// of the reading: it is whatever the time driver reports.
#[verifier::external_body]
pub(crate) fn now_millis() -> (now: u64) {
    embassy_time::Instant::now().as_millis()
}

/// Computes the skew that takes `local` to `server`.
pub fn clock_skew(server: u64, local: u64) -> (skew: i64)
    ensures
        skew == skew_between(server, local),
        i64::MIN <= server - local <= i64::MAX ==> skew == server - local,
{
    if server >= local {
        let ahead: u64 = server - local;
        if ahead <= 0x7fff_ffff_ffff_ffff {
            ahead as i64
        } else {
            let rest: u64 = u64::MAX - ahead;
            -(rest as i64) - 1
        }
    } else {
        let behind: u64 = local - server;
        if behind <= 0x7fff_ffff_ffff_ffff {
            -(behind as i64)
        } else if behind == 0x8000_0000_0000_0000 {
            i64::MIN
        } else {
            let rest: u64 = u64::MAX - behind;
            (rest as i64) + 1
        }
    }
}

/// Carries local time `local` over to server time.
pub fn apply_skew(local: u64, skew: i64) -> (time: u64)
    ensures
        time == skewed(local, skew),
        0 <= local + skew <= u64::MAX ==> time == local + skew,
{
    if skew >= 0 {
        let ahead: u64 = skew as u64;
        let room: u64 = u64::MAX - local;
        if ahead <= room {
            local + ahead
        } else {
            ahead - room - 1
        }
    } else {
        let behind: u64 = if skew == i64::MIN {
            0x8000_0000_0000_0000
        } else {
            (-skew) as u64
        };
        if behind <= local {
            local - behind
        } else {
            u64::MAX - (behind - local) + 1
        }
    }
}

/// Milliseconds gone by at `now` since `since`; none if `now` is the earlier one.
pub fn elapsed_since(since: u64, now: u64) -> (gone: u64)
    ensures
        gone == elapsed(since, now),
{
    if now >= since {
        now - since
    } else {
        0
    }
}

/// Whether `duration` milliseconds have gone by at `now` since `since`. The
/// deadline is taken in unbounded integers: one beyond the range of the clock
/// is never reached.
pub fn has_expired(since: u64, duration: u64, now: u64) -> (due: bool)
    ensures
        due == expired(since, duration, now),
{
    match since.checked_add(duration) {
        Some(deadline) => now >= deadline,
        None => false,
    }
}

/// Carrying a local time over by the skew of a server time against that same
/// local time gives the server time.
pub proof fn lemma_skew_round_trip(server: u64, local: u64)
    ensures
        i64::MIN <= skew_between(server, local) <= i64::MAX,
        wrap_unsigned(local + skew_between(server, local)) == server,
{
}

} // verus!
