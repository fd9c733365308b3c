//! The wall-clock capability.
//!
//! The current calendar year is an ambient dependency; it enters the runtime
//! only through this trusted boundary, and everything downstream of it is
//! verified for every value the clock could return.

use vstd::prelude::*;

verus! {

/// Relies on std::time::SystemTime::now and duration_since (whose
/// documentation promises an error, not a panic, on a clock before the Unix
/// epoch), chrono::DateTime::from_timestamp (`None` on a timestamp outside
/// chrono's range) and chrono::Datelike::year in the machine's local time
/// zone.  Nothing is promised of the year — it depends on the wall clock,
/// so every caller must hold for any outcome; a clock the conversion cannot
/// represent is reported as an error rather than a panic.
#[verifier::external_body]
pub fn wall_clock_year() -> (r: Result<i32, String>) {
    let dur = std::time::SystemTime::now()
        .duration_since(std::time::UNIX_EPOCH)
        .map_err(|e| e.to_string())?;
    let utc = chrono::DateTime::from_timestamp(dur.as_secs() as i64, dur.subsec_nanos())
        .ok_or("system time out of range".to_string())?;
    Ok(chrono::Datelike::year(&utc.with_timezone(&chrono::Local)))
}

} // verus!
