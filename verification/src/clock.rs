use vstd::prelude::*;

verus! {

/// Relies on `chrono::Utc::now` and `DateTime::timestamp`: the current
/// time as whole seconds since the Unix epoch. `Utc::now` only returns
/// once the system clock is at or past the epoch, so the count is
/// non-negative; nothing more can be promised of a clock reading.
#[verifier::external_body]
pub(crate) fn now_timestamp() -> (t: i64)
    ensures
        0 <= t,
{
    chrono::Utc::now().timestamp()
}

} // verus!
