//! The wall clock.
use vstd::prelude::*;

verus! {

/// Calls `time::now` and reads the seconds of `Tm::to_timespec`: the seconds since the
/// epoch on the machine's clock. Trusted, with nothing claimed of the number: it differs
/// from call to call.
#[verifier::external_body]
pub(crate) fn epoch_seconds() -> (seconds: i64) {
    time::now().to_timespec().sec
}

} // verus!
