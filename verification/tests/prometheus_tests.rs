use jmcgmqp::prometheus::{push_job, test_cmd, Prometheus};

#[test]
fn new_registry_holds_the_test_gauge_at_zero() {
    let p = Prometheus::new().unwrap();
    assert_eq!(p.test_metric_value(), 0);
    assert_eq!(p.test_metric.get(), 0);
    let job = p.push();
    assert_eq!(job.metrics.len(), 1);
    assert_eq!(job.metrics[0].get_name(), "test");
    assert_eq!(job.metrics[0].get_help(), "Test metric.");
    assert_eq!(job.metrics[0].get_metric().len(), 1);
    assert_eq!(job.metrics[0].get_metric()[0].get_gauge().get_value(), 0.0);
}

#[test]
fn two_registries_do_not_share_the_gauge() {
    let mut a = Prometheus::new().unwrap();
    let b = Prometheus::new().unwrap();
    a.test_metric.set(11);
    assert_eq!(a.test_metric_value(), 11);
    assert_eq!(b.test_metric_value(), 0);
}

#[test]
fn push_names_job_labels_and_gateway() {
    let p = Prometheus::new().unwrap();
    let job = p.push();
    assert_eq!(job.job, "mq-producer");
    assert_eq!(job.url, "localhost:9091");
    assert_eq!(job.grouping, vec![(String::from("lang"), String::from("rust"))]);
    assert!(!job.job.contains('/'));
    assert!(!job.grouping[0].1.contains('/'));
}

#[test]
fn push_carries_the_value_of_the_gauge() {
    let mut p = Prometheus::new().unwrap();
    p.test_metric.set(-7);
    assert_eq!(p.test_metric.get(), -7);
    let job = p.push();
    assert_eq!(job.metrics[0].get_metric()[0].get_gauge().get_value(), -7.0);
    p.test_metric.set(i64::MAX);
    assert_eq!(p.test_metric_value(), i64::MAX);
}

#[test]
fn test_cmd_sets_the_gauge_to_two() {
    let mut p = Prometheus::new().unwrap();
    let job = test_cmd(&mut p);
    assert_eq!(p.test_metric_value(), 2);
    assert_eq!(job.job, "mq-producer");
    assert_eq!(job.url, "localhost:9091");
    assert_eq!(job.grouping, vec![(String::from("lang"), String::from("rust"))]);
    assert_eq!(job.metrics.len(), 1);
    assert_eq!(job.metrics[0].get_name(), "test");
    assert_eq!(job.metrics[0].get_metric()[0].get_gauge().get_value(), 2.0);
    let again = test_cmd(&mut p);
    assert_eq!(again.metrics[0].get_metric()[0].get_gauge().get_value(), 2.0);
}

#[test]
fn push_job_hands_on_the_families_as_they_are() {
    let mut p = Prometheus::new().unwrap();
    p.test_metric.set(5);
    let gathered = p.push().metrics;
    let expected = gathered.clone();
    let job = push_job(gathered);
    assert_eq!(job.metrics, expected);
    assert_eq!(job.metrics.len(), 1);
    assert_eq!(job.metrics[0].get_metric()[0].get_gauge().get_value(), 5.0);
    assert_eq!(job.job, "mq-producer");
    assert_eq!(job.url, "localhost:9091");
    assert_eq!(job.grouping, vec![(String::from("lang"), String::from("rust"))]);
}

#[test]
fn push_job_of_nothing_is_empty() {
    let job = push_job(Vec::new());
    assert!(job.metrics.is_empty());
    assert_eq!(job.job, "mq-producer");
    assert_eq!(job.url, "localhost:9091");
    assert_eq!(job.grouping, vec![(String::from("lang"), String::from("rust"))]);
}

#[test]
fn push_job_keeps_the_order_of_the_families() {
    let mut a = prometheus::proto::MetricFamily::new();
    a.set_name(String::from("zeta"));
    let mut b = prometheus::proto::MetricFamily::new();
    b.set_name(String::from("alpha"));
    let job = push_job(vec![a, b]);
    assert_eq!(job.metrics.len(), 2);
    assert_eq!(job.metrics[0].get_name(), "zeta");
    assert_eq!(job.metrics[1].get_name(), "alpha");
}

#[test]
fn push_gathers_at_the_time_of_the_call() {
    let mut p = Prometheus::new().unwrap();
    let before = p.push();
    p.test_metric.set(9);
    let after = p.push();
    assert_eq!(before.metrics[0].get_metric()[0].get_gauge().get_value(), 0.0);
    assert_eq!(after.metrics[0].get_metric()[0].get_gauge().get_value(), 9.0);
    assert_eq!(after.metrics[0].get_name(), "test");
    assert_eq!(after.metrics[0].get_help(), "Test metric.");
}

#[test]
fn set_test_metric_changes_the_value_only() {
    let mut p = Prometheus::new().unwrap();
    p.set_test_metric(41);
    assert_eq!(p.test_metric_value(), 41);
    p.set_test_metric(i64::MIN);
    assert_eq!(p.test_metric.get(), i64::MIN);
    let job = p.push();
    assert_eq!(job.metrics.len(), 1);
    assert_eq!(job.metrics[0].get_name(), "test");
    assert_eq!(job.metrics[0].get_help(), "Test metric.");
}
