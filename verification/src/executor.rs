use crate::scheduler::TaskScheduler;
use vstd::prelude::*;

verus! {

/// Facade over [`TaskScheduler`]: callers depend on this narrow interface —
/// submit work, shut down — rather than on the scheduler's internals.
///
/// The facade owns its scheduler outright, so shutting it down needs no
/// runtime ownership check: the type system already forbids a second handle.
pub struct Executor<T> {
    scheduler: TaskScheduler<T>,
}

impl<T> Executor<T> {
    /// The scheduler behind the facade.
    pub closed spec fn scheduler(self) -> TaskScheduler<T> {
        self.scheduler
    }

    pub open spec fn wf(self) -> bool {
        self.scheduler().wf()
    }

    /// Creates a scheduler with `workers` workers behind a fresh facade.
    pub fn new(workers: usize) -> (e: Self)
        ensures
            e.wf(),
            e.scheduler().pending() == Seq::<T>::empty(),
            e.scheduler().submitted() == Seq::<T>::empty(),
            e.scheduler().executed() == Seq::<T>::empty(),
            !e.scheduler().stopped(),
            e.scheduler().worker_count() == workers,
    {
        Executor { scheduler: TaskScheduler::new(workers) }
    }

    /// Forwards directly to [`TaskScheduler::submit`], with its semantics:
    /// the task joins the tail of the queue, nothing can fail.
    pub fn submit(&mut self, task: T)
        requires
            old(self).wf(),
            !old(self).scheduler().stopped(),
        ensures
            final(self).wf(),
            final(self).scheduler().pending() == old(self).scheduler().pending().push(task),
            final(self).scheduler().submitted() == old(self).scheduler().submitted().push(task),
            final(self).scheduler().executed() == old(self).scheduler().executed(),
            final(self).scheduler().stopped() == old(self).scheduler().stopped(),
            final(self).scheduler().worker_count() == old(self).scheduler().worker_count(),
    {
        self.scheduler.submit(task);
    }

    /// Forwards directly to [`TaskScheduler::shutdown`]: sets the stop flag;
    /// still-pending tasks are silently discarded.
    pub fn shutdown(&mut self)
        requires
            old(self).wf(),
            !old(self).scheduler().stopped(),
        ensures
            final(self).wf(),
            final(self).scheduler().stopped(),
            final(self).scheduler().pending() == old(self).scheduler().pending(),
            final(self).scheduler().submitted() == old(self).scheduler().submitted(),
            final(self).scheduler().executed() == old(self).scheduler().executed(),
            final(self).scheduler().worker_count() == old(self).scheduler().worker_count(),
    {
        self.scheduler.shutdown();
    }
}

} // verus!
