use pyrngx_engine::metrics::MetricsCounter;

#[test]
fn scrape_reports_zero_initially() {
    let counter = MetricsCounter::new();
    assert_eq!(
        counter.scrape(),
        "# TYPE fastflow_tasks_completed counter\nfastflow_tasks_completed 0\n"
    );
}

#[test]
fn scrape_is_idempotent_without_increment() {
    let mut counter = MetricsCounter::new();
    counter.inc_tasks(17);
    let first = counter.scrape();
    let second = counter.scrape();
    assert_eq!(first, second);
}

#[test]
fn scrape_reports_sum_of_increments() {
    let mut counter = MetricsCounter::new();
    counter.inc_tasks(5);
    counter.inc_tasks(3);
    assert_eq!(
        counter.scrape(),
        "# TYPE fastflow_tasks_completed counter\nfastflow_tasks_completed 8\n"
    );
}

#[test]
fn scrape_renders_large_values_exactly() {
    let mut counter = MetricsCounter::new();
    counter.inc_tasks(1234567890123);
    assert_eq!(
        counter.scrape(),
        "# TYPE fastflow_tasks_completed counter\nfastflow_tasks_completed 1234567890123\n"
    );
}

#[test]
fn counter_wraps_like_an_atomic_add() {
    let mut counter = MetricsCounter::new();
    counter.inc_tasks(u64::MAX);
    counter.inc_tasks(5);
    assert_eq!(
        counter.scrape(),
        "# TYPE fastflow_tasks_completed counter\nfastflow_tasks_completed 4\n"
    );
}
