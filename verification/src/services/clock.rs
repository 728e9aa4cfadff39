use vstd::prelude::*;

verus! {

/// `std::time::SystemTime::elapsed` on `std::time::UNIX_EPOCH`: the time that
/// has passed from the Unix epoch to now, or nothing where the machine's
/// clock stands before the epoch. The value depends on that clock, so nothing
/// is claimed of it.
#[verifier::external_body]
fn elapsed_since_epoch() -> (elapsed: Option<core::time::Duration>) {
    match std::time::UNIX_EPOCH.elapsed() {
        Ok(elapsed) => Some(elapsed),
        Err(_) => None,
    }
}

/// `core::time::Duration::as_secs`: the whole seconds of a duration. Nothing
/// is claimed of the number.
#[verifier::external_body]
fn whole_seconds(elapsed: &core::time::Duration) -> (seconds: u64) {
    elapsed.as_secs()
}

/// The current time in whole seconds since the Unix epoch, UTC. A clock that
/// stands before the epoch reads as the epoch itself, and one beyond the range
/// of the result as its largest value.
pub fn unix_time_now() -> (now: i64)
    ensures
        now >= 0,
{
    match elapsed_since_epoch() {
        Some(elapsed) => {
            let seconds: u64 = whole_seconds(&elapsed);
            if seconds > i64::MAX as u64 {
                i64::MAX
            } else {
                seconds as i64
            }
        },
        None => 0,
    }
}

} // verus!
