use jmcgmqp::results::{
    checked_total, Results, SampleDescriptor, Throughput, WorkerResult, NANOS_PER_SECOND,
};

fn second() -> u64 {
    1_000_000_000
}

fn workers(units: &[u64]) -> Vec<WorkerResult> {
    let mut out = Vec::new();
    for (i, u) in units.iter().enumerate() {
        out.push(WorkerResult::new(i as u64, *u, second()));
    }
    out
}

#[test]
fn worker_result_keeps_its_fields() {
    let w = WorkerResult::new(3, 17, 2_500);
    assert_eq!(w.worker_id, 3);
    assert_eq!(w.units_completed, 17);
    assert_eq!(w.elapsed_nanos, 2_500);
}

#[test]
fn nanos_per_second_is_a_billion() {
    assert_eq!(NANOS_PER_SECOND, 1_000_000_000);
}

#[test]
fn four_workers_over_one_second_total_42() {
    let results = Results::new(workers(&[10, 12, 9, 11]), second());
    assert_eq!(results.messages_total(), 42);
    assert_eq!(results.messages_per_second(), 42);
    assert_eq!(results.duration_nanos(), second());
    assert_eq!(results.worker_results().len(), 4);
    let rate = results.messages_total() as f64 / (results.duration_nanos() as f64 / 1e9);
    assert_eq!(rate, 42.0);
}

#[test]
fn total_is_the_sum_of_the_workers() {
    let units = [0u64, 1, 5, 1_000_000, 7, 7, 3];
    let expected: u64 = units.iter().sum();
    let results = Results::new(workers(&units), second());
    assert_eq!(results.messages_total(), expected);
    assert_eq!(results.messages_total(), 1_000_023);
    let again: u64 = results.worker_results().iter().map(|w| w.units_completed).sum();
    assert_eq!(results.messages_total(), again);
}

#[test]
fn total_of_one_worker_is_its_count() {
    let results = Results::new(workers(&[u64::MAX]), second());
    assert_eq!(results.messages_total(), u64::MAX);
}

#[test]
fn results_keep_the_workers_in_order() {
    let given = workers(&[4, 8, 15, 16, 23, 42]);
    let results = Results::new(given.clone(), 3 * second());
    assert_eq!(results.worker_results(), &given);
    assert_eq!(results.worker_results()[2].worker_id, 2);
    assert_eq!(results.worker_results()[2].units_completed, 15);
}

#[test]
fn no_workers_total_zero() {
    let results = Results::new(Vec::new(), second());
    assert_eq!(results.messages_total(), 0);
    assert_eq!(results.messages_per_second(), 0);
    assert!(results.worker_results().is_empty());
}

#[test]
fn checked_total_adds_up() {
    assert_eq!(checked_total(&Vec::new()), Some(0));
    assert_eq!(checked_total(&workers(&[10, 12, 9, 11])), Some(42));
    assert_eq!(checked_total(&workers(&[u64::MAX - 1, 1])), Some(u64::MAX));
}

#[test]
fn checked_total_reports_overflow() {
    assert_eq!(checked_total(&workers(&[u64::MAX, 1])), None);
    assert_eq!(checked_total(&workers(&[1, u64::MAX, 0])), None);
    assert_eq!(checked_total(&workers(&[u64::MAX / 2 + 1, u64::MAX / 2 + 1])), None);
}

#[test]
fn messages_per_second_rounds_down() {
    let results = Results::new(workers(&[3, 4]), 2 * second());
    assert_eq!(results.messages_per_second(), 3);
    let rate = results.messages_total() as f64 / (results.duration_nanos() as f64 / 1e9);
    assert_eq!(rate, 3.5);
}

#[test]
fn messages_per_second_over_a_short_window() {
    let results = Results::new(workers(&[100]), second() / 2);
    assert_eq!(results.messages_per_second(), 200);
    let tiny = Results::new(workers(&[u64::MAX]), 1);
    assert_eq!(tiny.messages_per_second(), u64::MAX as u128 * 1_000_000_000);
}

#[test]
fn messages_per_second_over_three_seconds() {
    let results = Results::new(workers(&[1_000, 2_000, 3_001]), 3 * second());
    assert_eq!(results.messages_total(), 6_001);
    assert_eq!(results.messages_per_second(), 2_000);
}

#[test]
fn throughput_of_results_is_total_over_window() {
    let results = Results::new(workers(&[10, 12, 9, 11]), 3 * second());
    let t = results.throughput();
    assert_eq!(t, Throughput { messages: 42, nanos: 3_000_000_000 });
    assert_eq!(t.per_second(), 14);
}

#[test]
fn throughput_order_is_that_of_fractions() {
    let slow = Throughput { messages: 25, nanos: 2 * second() };
    let fast = Throughput { messages: 13, nanos: second() };
    assert!(slow.at_most(&fast));
    assert!(!fast.at_most(&slow));
    assert!(fast.exceeds(&slow));
    assert!(!slow.exceeds(&fast));
}

#[test]
fn equal_rates_over_different_windows() {
    let a = Throughput { messages: 50, nanos: second() };
    let b = Throughput { messages: 150, nanos: 3 * second() };
    assert!(a.at_most(&b));
    assert!(b.at_most(&a));
    assert!(!a.exceeds(&b));
    assert!(!b.exceeds(&a));
}

#[test]
fn throughput_order_at_the_limits() {
    let top = Throughput { messages: u64::MAX, nanos: 1 };
    let next = Throughput { messages: u64::MAX - 1, nanos: 1 };
    let low = Throughput { messages: 1, nanos: u64::MAX };
    let none = Throughput { messages: 0, nanos: u64::MAX };
    assert!(top.exceeds(&next));
    assert!(next.exceeds(&low));
    assert!(low.exceeds(&none));
    assert!(none.at_most(&low));
    assert!(top.at_most(&top));
    assert_eq!(low.per_second(), 0);
}

#[test]
fn same_window_orders_by_units() {
    let a = Throughput { messages: 180, nanos: second() };
    let b = Throughput { messages: 150, nanos: second() };
    assert!(b.at_most(&a));
    assert!(a.exceeds(&b));
}

#[test]
fn results_clone_is_equal() {
    let results = Results::new(workers(&[10, 12, 9, 11]), second());
    let copy = results.clone();
    assert_eq!(copy, results);
    assert_eq!(copy.messages_total(), 42);
    assert_eq!(copy.worker_results(), results.worker_results());
}

#[test]
fn descriptor_keeps_its_labels() {
    let d = SampleDescriptor::new(8, String::from("threading"), String::from("postgres"));
    assert_eq!(d.worker_count, 8);
    assert_eq!(d.algorithm_label, "threading");
    assert_eq!(d.backend_label, "postgres");
    assert_eq!(d.clone(), d);
}
