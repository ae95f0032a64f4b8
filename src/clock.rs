use vstd::prelude::*;

verus! {

#[verifier::external_type_specification]
#[verifier::external_body]
pub struct ExSystemTime(std::time::SystemTime);

#[verifier::external_type_specification]
#[verifier::external_body]
pub struct ExInstant(std::time::Instant);

/// The wall clock; nothing is known of its reading.
pub assume_specification[ std::time::SystemTime::now ]() -> std::time::SystemTime;

/// The monotonic clock; nothing is known of its reading.
pub assume_specification[ std::time::Instant::now ]() -> std::time::Instant;

/// Relies on SystemTime::duration_since: the nanoseconds from the Unix
/// epoch to `t`, or `None` where `t` lies before it.
#[verifier::external_body]
pub(crate) fn nanos_since_epoch(t: &std::time::SystemTime) -> (r: Option<u128>) {
    match t.duration_since(std::time::UNIX_EPOCH) {
        Ok(d) => Some(d.as_nanos()),
        Err(_) => None,
    }
}

/// Relies on Instant::elapsed: the nanoseconds since `start`.
#[verifier::external_body]
pub(crate) fn nanos_elapsed(start: &std::time::Instant) -> (r: u128) {
    start.elapsed().as_nanos()
}

/// A count of nanoseconds as a `u64`: its low 64 bits.
pub open spec fn truncated(n: u128) -> u64 {
    (n % 0x1_0000_0000_0000_0000u128) as u64
}

pub fn truncate_nanos(n: u128) -> (r: u64)
    ensures
        r == truncated(n),
        n <= u64::MAX ==> r == n,
{
    (n % 0x1_0000_0000_0000_0000u128) as u64
}

/// The timestamp for a wall-clock reading of `since_epoch` nanoseconds after
/// the Unix epoch (`None` for a reading before it, which gives zero).
pub fn now_ns(since_epoch: Option<u128>) -> (r: u64)
    ensures
        r == match since_epoch {
            Some(n) => truncated(n),
            None => 0,
        },
{
    match since_epoch {
        Some(n) => truncate_nanos(n),
        None => 0,
    }
}

} // verus!
