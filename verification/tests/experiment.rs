use std::cell::Cell;

use scientisto::experiment::Experiment;
use scientisto::observation::{ComparesTo, Failure, Observation};

#[test]
fn experiment_experiment_should_derive_the_debug_trait() {
    let experiment = Experiment::new("empty experiment");

    assert_ne!(format!("{:?}", experiment), "");
}

#[test]
fn experiment_should_return_name_if_it_is_valid() {
    let actual_name: &str = "Any ľšýžľš is OK";
    let experiment = Experiment::new(actual_name);

    assert_eq!(experiment.name(), actual_name);
}

#[test]
fn experiment_should_return_name_the_control_object() {
    let actual_name: &str = "Only control callback";
    let experiment = Experiment::new(actual_name).control(|| Ok(false));

    assert_eq!(experiment.name(), actual_name);
}

#[test]
fn experiment_should_return_name_if_control_and_experiment_are_fully_specified() {
    let name: &str = "Only control callback";
    let experiment = Experiment::new(name).control(|| Ok(1)).experiment(|| Ok(1));

    assert_eq!(experiment.name(), name);
}

#[test]
fn experiment_should_always_return_the_control_value() {
    let expected = 1;
    let actual = Experiment::new("Test")
        .control(move || Ok(expected))
        .experiment(move || Ok(expected))
        .run();

    assert_eq!(actual, Ok(expected));
}

#[test]
fn experiment_should_not_run_the_experiment_if_conditioned_not_to() {
    let expected = 1;
    let actual = Experiment::new("Test")
        .control(move || Ok(expected))
        .experiment(move || Ok(expected))
        .run_if(|| false);

    assert_eq!(actual, Ok(expected));
}

#[test]
fn experiment_should_publish_the_results_when_publish_method_is_specified() {
    let expected = 1;
    let _ = Experiment::new("Test")
        .control(move || Ok(expected))
        .experiment(move || Ok(expected))
        .publish(|o: &Observation<i32, i32>| assert!(o.is_matching()))
        .run();
}

#[derive(PartialEq, Copy, Clone)]
struct TestI64 {
    value: i64,
}

impl ComparesTo<i32> for TestI64 {
    fn compares_to_spec(&self, other: &i32) -> bool {
        self.value as i32 == *other
    }

    fn compares_to(&self, other: &i32) -> bool {
        self.value as i32 == *other
    }
}

#[test]
fn experiment_should_work_with_different_return_types_if_they_are_comparable() {
    let expected: i32 = 1;
    let expected_as_i64 = TestI64 {
        value: expected as i64,
    };

    assert!(expected_as_i64 == expected_as_i64); // implements PartialEq

    let _ = Experiment::new("Test")
        .control(move || Ok(expected))
        .experiment(move || Ok(expected_as_i64))
        .publish(|o: &Observation<i32, TestI64>| assert!(o.is_matching()))
        .run();
}

#[test]
fn experiment_should_return_control_value_if_the_experiment_value_is_different() {
    let expected: i32 = 1;
    let actual = Experiment::new("Test")
        .control(move || Ok(expected))
        .experiment(move || Ok(expected + 1))
        .publish(|o: &Observation<i32, i32>| assert!(!o.is_matching()))
        .run();

    assert_eq!(actual, Ok(expected));
}

#[test]
fn experiment_should_return_control_value_if_the_experiment_panics() {
    let expected: i32 = 1;
    let actual = Experiment::new("Test")
        .control(move || Ok(expected))
        .experiment(|| -> Result<i32, Failure> {
            Err(Failure {
                message: String::from("Yikes"),
            })
        })
        .run();

    assert_eq!(actual, Ok(expected));
}

#[test]
fn experiment_control_failure_is_handed_back_after_publishing() {
    let publish_calls = Cell::new(0);
    let failure = Failure {
        message: String::from("Oops"),
    };
    let expected_failure = failure.clone();
    let actual = Experiment::new("Test")
        .control(move || -> Result<i32, Failure> { Err(failure.clone()) })
        .experiment(|| Ok(1))
        .publish(|o: &Observation<i32, i32>| {
            publish_calls.set(publish_calls.get() + 1);
            assert!(o.control.result.is_err());
            assert!(!o.is_matching());
        })
        .run();

    assert_eq!(publish_calls.get(), 1);
    assert_eq!(actual, Err(expected_failure));
}

#[test]
fn experiment_skipped_run_invokes_neither_experiment_nor_publisher() {
    let experiment_calls = Cell::new(0);
    let publish_calls = Cell::new(0);
    let actual = Experiment::new("Test")
        .control(|| Ok(1))
        .experiment(|| {
            experiment_calls.set(experiment_calls.get() + 1);
            Ok(2)
        })
        .publish(|_o: &Observation<i32, i32>| {
            publish_calls.set(publish_calls.get() + 1);
        })
        .run_if(|| false);

    assert_eq!(actual, Ok(1));
    assert_eq!(experiment_calls.get(), 0);
    assert_eq!(publish_calls.get(), 0);
}

#[test]
fn experiment_failing_experiment_leaves_the_outcome_untouched() {
    let publish_calls = Cell::new(0);
    let actual = Experiment::new("Test")
        .control(|| Ok(1))
        .experiment(|| -> Result<i32, Failure> {
            Err(Failure {
                message: String::from("broken candidate"),
            })
        })
        .publish(|o: &Observation<i32, i32>| {
            publish_calls.set(publish_calls.get() + 1);
            assert!(!o.is_matching());
        })
        .run();

    assert_eq!(publish_calls.get(), 1);
    assert_eq!(actual, Ok(1));
}

#[test]
fn measure_records_the_outcome_the_computation_produced() {
    let measurement = scientisto::execution::measure(|| Ok(41i32));
    assert_eq!(measurement.result, Ok(41));

    let failed = scientisto::execution::measure(|| -> Result<i32, Failure> {
        Err(Failure {
            message: String::from("boom"),
        })
    });
    assert_eq!(
        failed.result,
        Err(Failure {
            message: String::from("boom"),
        })
    );
}
