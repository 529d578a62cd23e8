use vstd::prelude::*;

verus! {

/// Relies on chrono::Utc::now: the current wall-clock time in whole seconds
/// since the Unix epoch. Nothing is promised of the value; callers state what
/// holds for every reading.
#[verifier::external_body]
pub(crate) fn now_timestamp() -> i64 {
    chrono::Utc::now().timestamp()
}

} // verus!
