//! The clock that times a run.

use vstd::prelude::*;
use web_time::Instant;

verus! {

/// `web_time::Instant`, a point in time on a clock that never runs
/// backwards. Off the web it is `std::time::Instant` itself.
#[verifier::external_type_specification]
#[verifier::external_body]
pub struct ExInstant(Instant);

/// `Instant::now`: the current point in time. Nothing is known of it.
#[verifier::external_body]
pub(crate) fn now() -> Instant {
    Instant::now()
}

/// `Instant::elapsed`, written out with `{:?}`: the time that has passed
/// since `start`, in the unit that suits its size. It differs from call to
/// call, so nothing is said of the text.
#[verifier::external_body]
pub(crate) fn elapsed_text(start: &Instant) -> String {
    format!("{:?}", start.elapsed())
}

} // verus!
