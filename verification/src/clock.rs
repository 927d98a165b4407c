use vstd::prelude::*;

verus! {

/// The current UTC time as text: year, month, day, an underscore, hour,
/// minute and second.  The time since 1970 is read with
/// `SystemTime::elapsed` on `UNIX_EPOCH`, turned into a date by
/// `chrono::DateTime::from_timestamp` and written by `DateTime::format`.
/// `None` where the clock stands before 1970 or beyond what chrono can
/// hold.  Nothing is claimed of the text: it depends on the clock.
#[verifier::external_body]
pub(crate) fn utc_stamp() -> (stamp: Option<String>) {
    let since = std::time::UNIX_EPOCH.elapsed().ok()?;
    let seconds = i64::try_from(since.as_secs()).ok()?;
    let at = chrono::DateTime::from_timestamp(seconds, since.subsec_nanos())?;
    Some(at.format("%Y%m%d_%H%M%S").to_string())
}

} // verus!
