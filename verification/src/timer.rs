//! The clock and the handles of the expiry scheduler.

use vstd::prelude::*;

verus! {

/// The handle by which a scheduled expiry task is cancelled. Verus sees
/// nothing inside it; the registry only stores and cancels it.
#[verifier::external_type_specification]
#[verifier::external_body]
pub struct ExAbortHandle(tokio::task::AbortHandle);

/// `AbortHandle::abort` from tokio: asks the runtime to cancel the task.
/// Cancelling a task that has finished or was cancelled before does
/// nothing.
#[verifier::external_body]
pub(crate) fn cancel_timer(handle: &tokio::task::AbortHandle) {
    handle.abort()
}

/// `Utc::now().timestamp()` from chrono: the clock's reading in seconds
/// since the Unix epoch. Nothing is claimed of the value. chrono refuses
/// to read a clock that is set before the epoch.
#[verifier::external_body]
pub(crate) fn unix_now() -> i64 {
    chrono::Utc::now().timestamp()
}

} // verus!
