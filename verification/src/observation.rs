//! The result model shared by both execution engines: the outcome of one
//! executed path, the timed `Measurement` around it, and the paired
//! `Observation` that a publisher receives.

use vstd::prelude::*;

verus! {

/// The captured payload of a failed execution path.
///
/// A failing computation does not abort the evaluation; it hands back a
/// `Failure` carrying a description of what went wrong, and the engine
/// records it in the `Measurement` of that path.
#[derive(Debug, Clone, PartialEq, Eq)]
pub struct Failure {
    pub message: String,
}

/// The one-directional comparison an experiment value must support against
/// the control value.
///
/// The relation is deliberately asymmetric: `TE: ComparesTo<T>` says values
/// of `TE` can be checked against values of `T`, and nothing is implied in
/// the other direction, nor between two values of `TE`.
pub trait ComparesTo<T> {
    /// What equality-against-the-control means for this pair of types.
    spec fn compares_to_spec(&self, other: &T) -> bool;

    /// Decides whether `self` compares equal to the control value `other`.
    fn compares_to(&self, other: &T) -> (r: bool)
        ensures
            r == self.compares_to_spec(other),
    ;
}

impl ComparesTo<i32> for i32 {
    open spec fn compares_to_spec(&self, other: &i32) -> bool {
        self == other
    }

    fn compares_to(&self, other: &i32) -> (r: bool) {
        *self == *other
    }
}

impl ComparesTo<i64> for i64 {
    open spec fn compares_to_spec(&self, other: &i64) -> bool {
        self == other
    }

    fn compares_to(&self, other: &i64) -> (r: bool) {
        *self == *other
    }
}

impl ComparesTo<u32> for u32 {
    open spec fn compares_to_spec(&self, other: &u32) -> bool {
        self == other
    }

    fn compares_to(&self, other: &u32) -> (r: bool) {
        *self == *other
    }
}

impl ComparesTo<u64> for u64 {
    open spec fn compares_to_spec(&self, other: &u64) -> bool {
        self == other
    }

    fn compares_to(&self, other: &u64) -> (r: bool) {
        *self == *other
    }
}

impl ComparesTo<usize> for usize {
    open spec fn compares_to_spec(&self, other: &usize) -> bool {
        self == other
    }

    fn compares_to(&self, other: &usize) -> (r: bool) {
        *self == *other
    }
}

impl ComparesTo<bool> for bool {
    open spec fn compares_to_spec(&self, other: &bool) -> bool {
        self == other
    }

    fn compares_to(&self, other: &bool) -> (r: bool) {
        *self == *other
    }
}

/// The outcome of executing one path once: the produced value or the
/// captured failure, together with the elapsed wall-clock time of the
/// attempt. The duration is measured even when the path fails.
#[derive(Debug)]
pub struct Measurement<T> {
    pub result: Result<T, Failure>,
    pub duration: core::time::Duration,
}

/// The paired outcome of one evaluation cycle of the synchronous engine:
/// one `Measurement` for the control path and one for the experiment path.
#[derive(Debug)]
pub struct Observation<T, TE> {
    pub control: Measurement<T>,
    pub experiment: Measurement<TE>,
}

impl<T, TE: ComparesTo<T>> Observation<T, TE> {
    /// Both sides succeeded and the experiment's value compares equal to the
    /// control's value. Durations play no part.
    pub open spec fn is_matching_spec(&self) -> bool {
        match (self.experiment.result, self.control.result) {
            (Ok(e), Ok(c)) => e.compares_to_spec(&c),
            _ => false,
        }
    }

    /// Whether the control and the experiment produced comparably equal values.
    pub fn is_matching(&self) -> (r: bool)
        ensures
            r == self.is_matching_spec(),
    {
        match (&self.experiment.result, &self.control.result) {
            (Ok(e), Ok(c)) => e.compares_to(c),
            _ => false,
        }
    }
}

/// The paired outcome of one evaluation cycle of the asynchronous engine.
///
/// That engine applies no per-path failure isolation and takes no durations:
/// by the time an observation exists, both computations have completed, so
/// the two sides are the raw produced values.
#[derive(Debug)]
pub struct AsyncObservation<T, TE> {
    pub control: T,
    pub experiment: TE,
}

impl<T, TE: ComparesTo<T>> AsyncObservation<T, TE> {
    /// The experiment's value compares equal to the control's value.
    pub open spec fn is_matching_spec(&self) -> bool {
        self.experiment.compares_to_spec(&self.control)
    }

    /// Whether the control and the experiment produced comparably equal values.
    pub fn is_matching(&self) -> (r: bool)
        ensures
            r == self.is_matching_spec(),
    {
        self.experiment.compares_to(&self.control)
    }
}

/// Matching depends on the recorded results alone: two observations whose
/// sides hold the same results report the same matching verdict, whatever
/// durations their measurements recorded.
pub proof fn lemma_matching_ignores_durations<T, TE: ComparesTo<T>>(
    a: Observation<T, TE>,
    b: Observation<T, TE>,
)
    requires
        a.control.result == b.control.result,
        a.experiment.result == b.experiment.result,
    ensures
        a.is_matching_spec() == b.is_matching_spec(),
{
}

/// When both sides succeeded, matching is exactly the experiment value's
/// comparison against the control value: equal-comparing values match, and
/// differing values do not.
pub proof fn lemma_matching_follows_values<T, TE: ComparesTo<T>>(
    o: Observation<T, TE>,
    cv: T,
    ev: TE,
)
    requires
        o.control.result == Ok::<T, Failure>(cv),
        o.experiment.result == Ok::<TE, Failure>(ev),
    ensures
        o.is_matching_spec() == ev.compares_to_spec(&cv),
{
}

/// A failure on either side rules matching out, whatever the other side did.
pub proof fn lemma_failure_never_matches<T, TE: ComparesTo<T>>(o: Observation<T, TE>)
    requires
        o.control.result is Err || o.experiment.result is Err,
    ensures
        !o.is_matching_spec(),
{
}

} // verus!
