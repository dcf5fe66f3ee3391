//! The clock, and which timestamps are fresh by it.
use vstd::prelude::*;

verus! {

/// A request whose `timestamp_nanos` is further than this from the clock, in
/// either direction, is a replay: 30 seconds.
pub const REPLAY_WINDOW_NANOS: u64 = 30_000_000_000;

/// Whether a timestamp is at most the replay window away from the clock, on
/// either side.
pub open spec fn is_fresh(now: int, timestamp_nanos: int) -> bool {
    now - REPLAY_WINDOW_NANOS <= timestamp_nanos <= now + REPLAY_WINDOW_NANOS
}

/// `SystemTime::elapsed` on the Unix epoch, in nanoseconds; nothing if the
/// system clock stands before the epoch. What the clock says is not claimed.
#[verifier::external_body]
fn elapsed_since_epoch() -> (r: Option<u128>) {
    match std::time::UNIX_EPOCH.elapsed() {
        Ok(elapsed) => Some(elapsed.as_nanos()),
        Err(_) => None,
    }
}

/// The timestamp for an elapsed time: its nanoseconds modulo 2^64.
pub fn timestamp_of(elapsed: Option<u128>) -> (r: Option<u64>)
    ensures
        r is Some <==> elapsed is Some,
        elapsed matches Some(n) ==> r == Some((n % 0x1_0000_0000_0000_0000) as u64),
{
    match elapsed {
        Some(n) => Some((n % 0x1_0000_0000_0000_0000) as u64),
        None => None,
    }
}

/// The clock in nanoseconds since the Unix epoch, the `timestamp_nanos` of a
/// request made now. There is none while the system clock stands before 1970.
/// What the clock reads is not stated; see `timestamp_of` for what is made of it.
pub fn now_nanos() -> (r: Option<u64>) {
    timestamp_of(elapsed_since_epoch())
}

/// Whether a timestamp is within the replay window of the clock reading `now`.
pub fn timestamp_fresh_at(now: u64, timestamp_nanos: u64) -> (r: bool)
    ensures
        r == is_fresh(now as int, timestamp_nanos as int),
{
    let diff: u64 = if now > timestamp_nanos {
        now - timestamp_nanos
    } else {
        timestamp_nanos - now
    };
    diff <= REPLAY_WINDOW_NANOS
}

/// Whether a timestamp is fresh by a clock that may have no reading.
pub open spec fn is_fresh_by(now: Option<u64>, timestamp_nanos: u64) -> bool {
    now matches Some(n) && is_fresh(n as int, timestamp_nanos as int)
}

/// Whether a timestamp is within the replay window of the current clock. With
/// no clock reading nothing is fresh.
pub fn timestamp_fresh(timestamp_nanos: u64) -> (r: bool)
    ensures
        exists|now: Option<u64>| r == #[trigger] is_fresh_by(now, timestamp_nanos),
{
    let now: Option<u64> = now_nanos();
    let fresh: bool = match now {
        Some(n) => timestamp_fresh_at(n, timestamp_nanos),
        None => false,
    };
    assert(fresh == is_fresh_by(now, timestamp_nanos));
    fresh
}

/// Drift counts alike in both directions: a timestamp is fresh at a clock
/// reading exactly when the reading would be fresh as a timestamp.
pub proof fn law_freshness_is_symmetric(now: u64, timestamp_nanos: u64)
    ensures
        is_fresh(now as int, timestamp_nanos as int) <==> is_fresh(
            timestamp_nanos as int,
            now as int,
        ),
{
}

/// A captured request cannot be replayed for good: once the clock is past the
/// window, the timestamp is refused at every later reading.
pub proof fn law_stale_stays_stale(now: u64, later: u64, timestamp_nanos: u64)
    requires
        timestamp_nanos <= now <= later,
        !is_fresh(now as int, timestamp_nanos as int),
    ensures
        !is_fresh(later as int, timestamp_nanos as int),
{
}

} // verus!
