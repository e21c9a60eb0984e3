//! The asynchronous execution engine: the same four-stage single-use builder
//! as the synchronous one, holding deferred computations instead of
//! callables.
//!
//! This engine applies no per-path failure isolation and measures no
//! durations: the two computations are meant to be driven concurrently to
//! completion by the caller, and a failure in either aborts the whole
//! evaluation before any observation exists. Verified code cannot suspend,
//! so the engine splits the terminal operation: [`AsyncCompleteExperiment::should_run`]
//! evaluates the run predicate once, eagerly; the caller drives the two
//! computations taken out of [`AsyncCompleteExperiment::into_computations`];
//! and [`conclude`] assembles the observation from the two produced values,
//! hands it to the publisher, and yields the control's value.

use vstd::prelude::*;
use crate::observation::AsyncObservation;

verus! {

/// The first builder stage: a named experiment with nothing bound yet.
///
/// The name is required non-empty at construction and only serves as
/// metadata; construction with an empty name is ruled out up front.
#[derive(Debug, Clone)]
pub struct AsyncExperiment {
    /// The name under which the experiment is registered.
    name: &'static str,
}

impl AsyncExperiment {
    /// The registered name.
    pub closed spec fn spec_name(&self) -> Seq<char> {
        self.name@
    }

    /// Starts a builder under the given non-empty name.
    pub fn new(name: &'static str) -> (r: Self)
        requires
            name@.len() > 0,
        ensures
            r.spec_name() == name@,
    {
        Self { name }
    }

    /// The name the builder was constructed with.
    pub fn name(&self) -> (r: &'static str)
        ensures
            r@ == self.spec_name(),
    {
        self.name
    }

    /// Binds the deferred control computation, fixing the ground-truth
    /// output type.
    pub fn control<T, F>(self, f: F) -> (r: AsyncControlOnly<T, F>) where
        F: core::future::Future<Output = T>,
        ensures
            r.spec_name() == self.spec_name(),
            r.spec_control() == f,
    {
        AsyncControlOnly { name: self.name, control: f }
    }
}

/// The second builder stage: the deferred control computation is bound, and
/// only a deferred experiment computation can be bound next.
#[verifier::reject_recursive_types(TC)]
pub struct AsyncControlOnly<TC, FC> where FC: core::future::Future<Output = TC> {
    name: &'static str,
    control: FC,
}

impl<TC, FC> AsyncControlOnly<TC, FC> where FC: core::future::Future<Output = TC> {
    /// The registered name.
    pub closed spec fn spec_name(&self) -> Seq<char> {
        self.name@
    }

    /// The bound deferred control computation.
    pub closed spec fn spec_control(&self) -> FC {
        self.control
    }

    /// The name the builder was constructed with.
    pub fn name(&self) -> (r: &'static str)
        ensures
            r@ == self.spec_name(),
    {
        self.name
    }

    /// Binds the deferred experiment computation. The stage it returns is
    /// already runnable: a publisher that does nothing is installed by
    /// default.
    pub fn experiment<T, F>(self, f: F) -> (r: AsyncCompleteExperiment<
        TC,
        FC,
        T,
        F,
        impl Fn(&AsyncObservation<TC, T>),
    >) where F: core::future::Future<Output = T>
        ensures
            r.spec_name() == self.spec_name(),
            r.spec_control() == self.spec_control(),
            r.spec_experiment() == f,
            forall|o: &AsyncObservation<TC, T>| #[trigger] call_requires(r.spec_publish(), (o,)),
    {
        AsyncCompleteExperiment {
            name: self.name,
            control: self.control,
            experiment: f,
            publish: (|_o: &AsyncObservation<TC, T>| {}),
        }
    }
}

/// The final builder stage: both deferred computations are bound, a
/// publisher is installed, and the evaluation can be driven exactly once.
#[verifier::reject_recursive_types(TC)]
#[verifier::reject_recursive_types(TE)]
pub struct AsyncCompleteExperiment<TC, FC, TE, FE, FP> where
    FC: core::future::Future<Output = TC>,
    FE: core::future::Future<Output = TE>,
{
    name: &'static str,
    control: FC,
    experiment: FE,
    publish: FP,
}

impl<TC, FC, TE, FE, FP> AsyncCompleteExperiment<TC, FC, TE, FE, FP> where
    FC: core::future::Future<Output = TC>,
    FE: core::future::Future<Output = TE>,
{
    /// The registered name.
    pub closed spec fn spec_name(&self) -> Seq<char> {
        self.name@
    }

    /// The bound deferred control computation.
    pub closed spec fn spec_control(&self) -> FC {
        self.control
    }

    /// The bound deferred experiment computation.
    pub closed spec fn spec_experiment(&self) -> FE {
        self.experiment
    }

    /// The installed publisher.
    pub closed spec fn spec_publish(&self) -> FP {
        self.publish
    }

    /// The name the builder was constructed with.
    pub fn name(&self) -> (r: &'static str)
        ensures
            r@ == self.spec_name(),
    {
        self.name
    }

    /// Replaces the default publisher with a caller-supplied one. The
    /// publisher receives a read-only view of the observation and its result
    /// is discarded; it does not change what the evaluation yields.
    pub fn publish<F>(self, f: F) -> (r: AsyncCompleteExperiment<TC, FC, TE, FE, F>) where
        F: Fn(&AsyncObservation<TC, TE>),
        ensures
            r.spec_name() == self.spec_name(),
            r.spec_control() == self.spec_control(),
            r.spec_experiment() == self.spec_experiment(),
            r.spec_publish() == f,
    {
        AsyncCompleteExperiment {
            name: self.name,
            control: self.control,
            experiment: self.experiment,
            publish: f,
        }
    }

    /// Evaluates the run predicate, once and eagerly: the decision whether
    /// to drive the experiment at all falls before any suspension.
    pub fn should_run<P>(&self, predicate: P) -> (r: bool) where P: Fn() -> bool
        requires
            call_requires(predicate, ()),
        ensures
            call_ensures(predicate, (), r),
    {
        predicate()
    }

    /// Consumes the builder and hands out its two deferred computations and
    /// its publisher, for the caller to drive: the control and the
    /// experiment to completion together when the run predicate held, the
    /// control alone — the experiment left undriven — when it did not.
    pub fn into_computations(self) -> (r: (FC, FE, FP))
        ensures
            r.0 == self.spec_control(),
            r.1 == self.spec_experiment(),
            r.2 == self.spec_publish(),
    {
        let AsyncCompleteExperiment { name: _, control, experiment, publish } = self;
        (control, experiment, publish)
    }
}

/// The conclusion of one asynchronous evaluation, once both computations
/// have run to completion: assembles the observation from the two produced
/// values, hands it to the publisher, and yields the control's value —
/// exactly the value the control computation produced, never the
/// experiment's. The publisher went through a call on exactly the
/// observation holding the two values, as the second clause states.
pub fn conclude<TC, TE, FP>(control_output: TC, experiment_output: TE, publish: FP) -> (r: TC) where
    FP: Fn(&AsyncObservation<TC, TE>),
    requires
        forall|o: &AsyncObservation<TC, TE>| #[trigger] call_requires(publish, (o,)),
    ensures
        r == control_output,
        exists|o: &AsyncObservation<TC, TE>|
            {
                &&& o.control == control_output
                &&& o.experiment == experiment_output
                &&& #[trigger] call_ensures(publish, (o,), ())
            },
{
    let observation = AsyncObservation { control: control_output, experiment: experiment_output };
    publish(&observation);
    proof {
        assert(call_ensures(publish, (&observation,), ()));
    }
    let AsyncObservation { control, experiment: _ } = observation;
    control
}

} // verus!
