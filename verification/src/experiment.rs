//! The synchronous execution engine: a single-use builder that progresses
//! from a name, to a bound control computation, to a bound experiment
//! computation, and then runs both paths on the calling thread.
//!
//! Each computation hands back either its value or a captured [`Failure`];
//! neither outcome aborts the evaluation. The engine records one timed
//! [`Measurement`] per path, assembles an [`Observation`], hands it to the
//! publisher, and then returns the control's outcome — a captured control
//! failure included, unmodified — to the caller. The experiment's outcome is
//! visible to the publisher alone.

use vstd::prelude::*;
use crate::execution::measure;
use crate::observation::{ComparesTo, Failure, Observation};

verus! {

/// One bound computation of the synchronous engine, kept with the phantom
/// of its output type.
#[verifier::reject_recursive_types(T)]
pub struct Executable<T, F> where F: Fn() -> Result<T, Failure> {
    pub phantom_return_type: core::marker::PhantomData<T>,
    pub f: F,
}

impl<T, F> Executable<T, F> where F: Fn() -> Result<T, Failure> {
    /// Wraps one computation for later execution.
    pub fn new(f: F) -> (r: Self)
        ensures
            r.f == f,
    {
        Self { phantom_return_type: core::marker::PhantomData, f }
    }
}

/// The first builder stage: a named experiment with nothing bound yet.
///
/// The name is required non-empty at construction and only serves as
/// metadata; construction with an empty name is ruled out up front.
#[derive(Debug, Clone)]
pub struct Experiment {
    /// The name under which the experiment is registered.
    name: &'static str,
}

impl Experiment {
    /// The registered name.
    pub closed spec fn spec_name(&self) -> Seq<char> {
        self.name@
    }

    /// Starts a builder under the given non-empty name.
    pub fn new(name: &'static str) -> (r: Self)
        requires
            name@.len() > 0,
        ensures
            r.spec_name() == name@,
    {
        Self { name }
    }

    /// The name the builder was constructed with.
    pub fn name(&self) -> (r: &'static str)
        ensures
            r@ == self.spec_name(),
    {
        self.name
    }

    /// Binds the control computation, fixing the ground-truth output type.
    pub fn control<T, F>(self, f: F) -> (r: ControlOnly<T, F>) where F: Fn() -> Result<T, Failure>
        ensures
            r.spec_name() == self.spec_name(),
            r.spec_control() == f,
    {
        ControlOnly { name: self.name, control: Executable::<T, F>::new(f) }
    }
}

/// The second builder stage: the control computation is bound, and only an
/// experiment computation can be bound next.
#[verifier::reject_recursive_types(TC)]
pub struct ControlOnly<TC, FC> where FC: Fn() -> Result<TC, Failure> {
    name: &'static str,
    control: Executable<TC, FC>,
}

impl<TC, FC> ControlOnly<TC, FC> where FC: Fn() -> Result<TC, Failure> {
    /// The registered name.
    pub closed spec fn spec_name(&self) -> Seq<char> {
        self.name@
    }

    /// The bound control computation.
    pub closed spec fn spec_control(&self) -> FC {
        self.control.f
    }

    /// The name the builder was constructed with.
    pub fn name(&self) -> (r: &'static str)
        ensures
            r@ == self.spec_name(),
    {
        self.name
    }

    /// Binds the experiment computation. The stage it returns is already
    /// runnable: a publisher that does nothing is installed by default.
    pub fn experiment<T, F>(self, f: F) -> (r: CompleteExperiment<
        TC,
        FC,
        T,
        F,
        impl Fn(&Observation<TC, T>),
    >) where F: Fn() -> Result<T, Failure>
        ensures
            r.spec_name() == self.spec_name(),
            r.spec_control() == self.spec_control(),
            r.spec_experiment() == f,
            forall|o: &Observation<TC, T>| #[trigger] call_requires(r.spec_publish(), (o,)),
    {
        CompleteExperiment {
            name: self.name,
            control: self.control,
            experiment: Executable::<T, F>::new(f),
            publish: (|_o: &Observation<TC, T>| {}),
        }
    }
}

/// The final builder stage: both paths are bound, a publisher is installed,
/// and the experiment can be run exactly once.
#[verifier::reject_recursive_types(TC)]
#[verifier::reject_recursive_types(TE)]
pub struct CompleteExperiment<TC, FC, TE, FE, FP> where
    FC: Fn() -> Result<TC, Failure>,
    FE: Fn() -> Result<TE, Failure>,
{
    name: &'static str,
    control: Executable<TC, FC>,
    experiment: Executable<TE, FE>,
    publish: FP,
}

impl<TC, FC, TE, FE, FP> CompleteExperiment<TC, FC, TE, FE, FP> where
    FC: Fn() -> Result<TC, Failure>,
    FE: Fn() -> Result<TE, Failure>,
{
    /// The registered name.
    pub closed spec fn spec_name(&self) -> Seq<char> {
        self.name@
    }

    /// The bound control computation.
    pub closed spec fn spec_control(&self) -> FC {
        self.control.f
    }

    /// The bound experiment computation.
    pub closed spec fn spec_experiment(&self) -> FE {
        self.experiment.f
    }

    /// The installed publisher.
    pub closed spec fn spec_publish(&self) -> FP {
        self.publish
    }

    /// The name the builder was constructed with.
    pub fn name(&self) -> (r: &'static str)
        ensures
            r@ == self.spec_name(),
    {
        self.name
    }

    /// Replaces the default publisher with a caller-supplied one. The
    /// publisher receives a read-only view of the observation and its result
    /// is discarded; it does not change what the run returns.
    pub fn publish<F>(self, f: F) -> (r: CompleteExperiment<TC, FC, TE, FE, F>) where
        TE: ComparesTo<TC>,
        F: Fn(&Observation<TC, TE>),
        ensures
            r.spec_name() == self.spec_name(),
            r.spec_control() == self.spec_control(),
            r.spec_experiment() == self.spec_experiment(),
            r.spec_publish() == f,
    {
        CompleteExperiment {
            name: self.name,
            control: self.control,
            experiment: self.experiment,
            publish: f,
        }
    }

    /// Runs both paths unconditionally: `run_if` with an always-true
    /// predicate. The result is an outcome the control computation can
    /// produce — never the experiment's — and the publisher went through a
    /// call on an observation that records that outcome on the control side
    /// and an outcome of the experiment computation on the experiment side.
    pub fn run(self) -> (r: Result<TC, Failure>) where
        TE: ComparesTo<TC>,
        FP: Fn(&Observation<TC, TE>),
        requires
            call_requires(self.spec_control(), ()),
            call_requires(self.spec_experiment(), ()),
            forall|o: &Observation<TC, TE>| #[trigger] call_requires(self.spec_publish(), (o,)),
        ensures
            call_ensures(self.spec_control(), (), r),
            exists|o: &Observation<TC, TE>|
                {
                    &&& o.control.result == r
                    &&& call_ensures(self.spec_experiment(), (), o.experiment.result)
                    &&& #[trigger] call_ensures(self.spec_publish(), (o,), ())
                },
    {
        self.run_if(|| -> (b: bool)
            ensures b,
            { true })
    }

    /// Evaluates the predicate once. When it holds, executes the control and
    /// then the experiment, each under its own timed, failure-capturing
    /// measurement, hands the assembled observation to the publisher, and
    /// returns the control's recorded outcome — the captured control failure
    /// unmodified, after the publisher has seen it. When the predicate does
    /// not hold, calls the control alone, unmeasured, and returns its
    /// outcome; no observation is built and the publisher is not invoked.
    ///
    /// Either way the result is an outcome of the control computation: the
    /// experiment's outcome is never handed to the caller. When the
    /// predicate can only hold, the second clause pins the publish step: the
    /// publisher went through a call on an observation recording the
    /// returned control outcome and an outcome of the experiment
    /// computation.
    pub fn run_if<P>(self, predicate: P) -> (r: Result<TC, Failure>) where
        TE: ComparesTo<TC>,
        FP: Fn(&Observation<TC, TE>),
        P: Fn() -> bool,
        requires
            call_requires(predicate, ()),
            call_requires(self.spec_control(), ()),
            call_requires(self.spec_experiment(), ()),
            forall|o: &Observation<TC, TE>| #[trigger] call_requires(self.spec_publish(), (o,)),
        ensures
            call_ensures(self.spec_control(), (), r),
            (forall|b: bool| call_ensures(predicate, (), b) ==> b) ==> exists|o: &Observation<TC, TE>|
                {
                    &&& o.control.result == r
                    &&& call_ensures(self.spec_experiment(), (), o.experiment.result)
                    &&& #[trigger] call_ensures(self.spec_publish(), (o,), ())
                },
    {
        let CompleteExperiment { name: _, control, experiment, publish } = self;
        if predicate() {
            let control_measurement = measure(control.f);
            let experiment_measurement = measure(experiment.f);
            let observation = Observation {
                control: control_measurement,
                experiment: experiment_measurement,
            };
            proof {
                assert(call_requires(self.spec_publish(), (&observation,)));
            }
            publish(&observation);
            proof {
                assert(call_ensures(self.spec_publish(), (&observation,), ()));
            }
            let Observation { control: published_control, experiment: _ } = observation;
            published_control.result
        } else {
            (control.f)()
        }
    }
}

/// The caller of a run only ever observes the control's outcome: when every
/// outcome the control computation can produce is `expected`, whatever
/// `run`/`run_if` hands back is `expected` too — a failed, mismatching or
/// absent experiment never changes it, and a captured control failure comes
/// back as the control produced it.
pub proof fn lemma_run_returns_control_outcome<TC, FC: Fn() -> Result<TC, Failure>>(
    control: FC,
    expected: Result<TC, Failure>,
    returned: Result<TC, Failure>,
)
    requires
        forall|out: Result<TC, Failure>| #[trigger] call_ensures(control, (), out)
            ==> out == expected,
        call_ensures(control, (), returned),
    ensures
        returned == expected,
{
}

} // verus!
