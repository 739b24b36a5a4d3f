use vstd::prelude::*;

verus! {

/// std's `SystemTime`, carried through opaquely.
#[verifier::external_type_specification]
#[verifier::external_body]
pub struct ExSystemTime(std::time::SystemTime);

/// Relies on std's `SystemTime::now`: the wall-clock time of the machine.
#[verifier::external_body]
fn now() -> (r: std::time::SystemTime) {
    std::time::SystemTime::now()
}

/// Relies on std's `SystemTime::duration_since(UNIX_EPOCH)`: the whole
/// seconds since the Unix epoch, `None` when `t` lies before it.
#[verifier::external_body]
fn seconds_since_epoch(t: &std::time::SystemTime) -> (r: Option<u64>) {
    t.duration_since(std::time::UNIX_EPOCH).ok().map(|d| d.as_secs())
}

/// Seconds given by a clock reading: the seconds since the Unix epoch, or
/// 0 for a reading before it (`None`).
pub open spec fn seconds_of(since_epoch: Option<u64>) -> u64 {
    match since_epoch {
        Some(s) => s,
        None => 0,
    }
}

/// A reading `a` is no later than a reading `b`.
pub open spec fn reading_le(a: Option<u64>, b: Option<u64>) -> bool {
    match (a, b) {
        (None, _) => true,
        (Some(x), Some(y)) => x <= y,
        (Some(_), None) => false,
    }
}

/// Seconds for a clock reading, 0 before the epoch.
pub fn seconds_or_zero(since_epoch: Option<u64>) -> (r: u64)
    ensures
        r == seconds_of(since_epoch),
{
    match since_epoch {
        Some(s) => s,
        None => 0,
    }
}

/// A later clock reading never gives fewer seconds.
pub proof fn lemma_seconds_monotone(a: Option<u64>, b: Option<u64>)
    requires
        reading_le(a, b),
    ensures
        seconds_of(a) <= seconds_of(b),
{
}

/// Seconds since the Unix epoch by the machine's clock; 0 when the clock
/// reads earlier than the epoch.
pub fn current_seconds() -> (r: u64) {
    seconds_or_zero(seconds_since_epoch(&now()))
}

} // verus!
