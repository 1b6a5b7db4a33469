use pyrngx_engine::scheduler::{TaskScheduler, WorkerStep};

/// Drives worker polls until the queue is empty, collecting every task
/// handed out, the way a pool of workers drains the core.
fn drain(s: &mut TaskScheduler<usize>) -> Vec<usize> {
    let mut ran: Vec<usize> = Vec::new();
    loop {
        match s.worker_poll() {
            WorkerStep::Stop => break,
            WorkerStep::Run(t) => ran.push(t),
            WorkerStep::Idle => break,
        }
    }
    ran
}

#[test]
fn it_runs_tasks() {
    let mut scheduler = TaskScheduler::new(2);
    for i in 0..8 {
        scheduler.submit(i);
    }
    let ran = drain(&mut scheduler);
    scheduler.shutdown();
    assert!(ran.len() >= 8);
}

#[test]
fn tasks_all_execute_exactly_once() {
    let mut scheduler = TaskScheduler::new(8);
    let mut counter: usize = 0;
    for i in 0..1000 {
        scheduler.submit(i);
    }
    for t in drain(&mut scheduler) {
        let _ = t;
        counter += 1;
    }
    scheduler.shutdown();
    assert_eq!(counter, 1000);
}

#[test]
fn single_worker_runs_in_submission_order() {
    let mut scheduler = TaskScheduler::new(1);
    for i in 0..100 {
        scheduler.submit(i);
    }
    let log = drain(&mut scheduler);
    let expected: Vec<usize> = (0..100).collect();
    assert_eq!(log, expected);
}

#[test]
fn shutdown_stops_every_worker_poll() {
    let mut scheduler = TaskScheduler::new(4);
    scheduler.submit(1);
    scheduler.submit(2);
    scheduler.shutdown();
    for _ in 0..10 {
        assert!(matches!(scheduler.worker_poll(), WorkerStep::Stop));
    }
}

#[test]
fn completed_never_exceeds_submitted() {
    let mut scheduler = TaskScheduler::new(2);
    for i in 0..5 {
        scheduler.submit(i);
    }
    let mut completed: usize = 0;
    for _ in 0..2 {
        if let WorkerStep::Run(_) = scheduler.worker_poll() {
            completed += 1;
        }
    }
    scheduler.shutdown();
    // The three queued-but-undispatched tasks are silently discarded.
    assert!(matches!(scheduler.worker_poll(), WorkerStep::Stop));
    assert!(completed <= 5);
    assert_eq!(completed, 2);
    assert_eq!(scheduler.pending_count(), 3);
}

#[test]
fn zero_worker_scheduler_never_executes() {
    let mut scheduler = TaskScheduler::new(0);
    for i in 0..3 {
        scheduler.submit(i);
    }
    // No worker exists, so nothing ever polls: every task stays pending.
    assert_eq!(scheduler.pending_count(), 3);
    assert!(!scheduler.is_stopped());
    scheduler.shutdown();
    assert!(scheduler.is_stopped());
    assert_eq!(scheduler.pending_count(), 3);
}

#[test]
fn idle_poll_leaves_queue_alone() {
    let mut scheduler: TaskScheduler<usize> = TaskScheduler::new(1);
    assert!(matches!(scheduler.worker_poll(), WorkerStep::Idle));
    scheduler.submit(7);
    assert!(matches!(scheduler.worker_poll(), WorkerStep::Run(7)));
    assert!(matches!(scheduler.worker_poll(), WorkerStep::Idle));
}
