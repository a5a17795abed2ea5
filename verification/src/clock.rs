//! Wall-clock readings. The readings depend on the time of the call, so
//! nothing is promised of them; verified code takes them as arguments and is
//! proved for every value. Both boundaries are panic-free: a clock set
//! before 1970 reads as absent, not as a crash.

use vstd::prelude::*;

verus! {

/// Relies on `SystemTime::now` and `SystemTime::duration_since(UNIX_EPOCH)`:
/// the time since the Unix epoch as whole seconds and the nanoseconds within
/// the second, or nothing for a clock set before 1970 (the error arm of
/// `duration_since`). The result depends on the clock, so nothing more is
/// promised of it.
#[verifier::external_body]
fn epoch_time_parts() -> Option<(u64, u32)> {
    match std::time::SystemTime::now().duration_since(std::time::UNIX_EPOCH) {
        Ok(d) => Some((d.as_secs(), d.subsec_nanos())),
        Err(_) => None,
    }
}

/// The current time as milliseconds since the Unix epoch: zero for a clock
/// set before 1970, saturating at the machine limit far past any real date.
pub fn now_millis() -> u64 {
    match epoch_time_parts() {
        Some((secs, nanos)) => {
            let millis_in_sec: u64 = (nanos / 1000000) as u64;
            if secs > (u64::MAX - millis_in_sec) / 1000 {
                u64::MAX
            } else {
                proof {
                    assert(secs * 1000 + millis_in_sec <= u64::MAX) by (nonlinear_arith)
                        requires
                            secs <= (u64::MAX - millis_in_sec) / 1000,
                            millis_in_sec <= u64::MAX,
                    ;
                }
                secs * 1000 + millis_in_sec
            }
        },
        None => 0,
    }
}

/// Relies on `SystemTime::now`/`duration_since(UNIX_EPOCH)` and on
/// `chrono::DateTime::from_timestamp` and `DateTime::format`: today's UTC
/// date in year-month-day order with dashes. A clock set before 1970 (the
/// error arm) reads as the epoch; a timestamp outside the calendar's range
/// (the absent arm of `from_timestamp`) reads as empty. The result depends
/// on the clock, so nothing is promised of it.
#[verifier::external_body]
pub fn current_date_string() -> String {
    let secs: i64 = match std::time::SystemTime::now().duration_since(std::time::UNIX_EPOCH) {
        Ok(d) => d.as_secs() as i64,
        Err(_) => 0,
    };
    match chrono::DateTime::<chrono::Utc>::from_timestamp(secs, 0) {
        Some(t) => t.format("%Y-%m-%d").to_string(),
        None => String::new(),
    }
}

} // verus!
