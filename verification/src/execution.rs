//! The shared execution helper of the synchronous engine: it runs one
//! computation and wraps its outcome, together with the elapsed wall-clock
//! time of the attempt, into a `Measurement`.

use vstd::prelude::*;
use crate::observation::{Failure, Measurement};

verus! {

#[verifier::external_type_specification]
#[verifier::external_body]
pub struct ExInstant(std::time::Instant);

/// Relies on `std::time::Instant::now`: a reading of the monotonic clock.
/// The reading depends on when the call happens, so nothing is stated of it.
#[verifier::external_body]
fn instant_now() -> (r: std::time::Instant) {
    std::time::Instant::now()
}

/// Relies on `std::time::Instant::elapsed`: the wall-clock time that passed
/// since `start` was taken. The result depends on when the call happens, so
/// nothing is stated of it.
#[verifier::external_body]
fn elapsed_since(start: &std::time::Instant) -> (r: core::time::Duration) {
    start.elapsed()
}

/// Executes one path: calls the computation once and records its outcome,
/// value or captured failure, with the duration of the attempt. The result
/// field of the measurement is exactly what the computation handed back.
pub fn measure<T, F: Fn() -> Result<T, Failure>>(f: F) -> (r: Measurement<T>)
    requires
        call_requires(f, ()),
    ensures
        call_ensures(f, (), r.result),
{
    let start = instant_now();
    let result = f();
    let duration = elapsed_since(&start);
    Measurement { result, duration }
}

} // verus!
