use vstd::prelude::*;

verus! {

/// What a worker finds when it polls the scheduler: the order to terminate,
/// one task to run on its own thread, or nothing for now (the worker idles
/// briefly and polls again).
pub enum WorkerStep<T> {
    Stop,
    Run(T),
    Idle,
}

/// The sequential core of the worker-pool scheduler: an unbounded FIFO of
/// pending tasks and a stop flag, together with a ghost record of every task
/// ever submitted and every task handed out for execution.
///
/// The core is driven one mutually exclusive step at a time; the callers
/// provide the threads, the lock around the core, the idle sleep, and the
/// join on shutdown. A task is anything the caller wants executed; the core
/// never looks inside one.
pub struct TaskScheduler<T> {
    queue: Vec<T>,
    stop: bool,
    workers: usize,
    submitted: Ghost<Seq<T>>,
    executed: Ghost<Seq<T>>,
}

impl<T> TaskScheduler<T> {
    /// The tasks enqueued but not yet handed to any worker, in FIFO order.
    pub closed spec fn pending(self) -> Seq<T> {
        self.queue@
    }

    /// Whether shutdown has set the stop flag.
    pub closed spec fn stopped(self) -> bool {
        self.stop
    }

    /// The fixed number of workers the scheduler was created for.
    pub closed spec fn worker_count(self) -> nat {
        self.workers as nat
    }

    /// Every task ever submitted, in submission order.
    pub closed spec fn submitted(self) -> Seq<T> {
        self.submitted@
    }

    /// Every task handed to a worker for execution, in dequeue order.
    pub closed spec fn executed(self) -> Seq<T> {
        self.executed@
    }

    /// The core's invariant: the submission log is exactly the execution log
    /// followed by the still-pending queue. Tasks are neither invented nor
    /// reordered; a task leaves the queue only by being handed to a worker.
    pub open spec fn wf(self) -> bool {
        self.submitted() == self.executed() + self.pending()
    }

    /// A fresh scheduler: nothing queued, nothing executed, not stopped.
    /// `num_workers` may be zero; such a scheduler accepts submissions that
    /// no worker will ever poll for.
    pub fn new(num_workers: usize) -> (s: Self)
        ensures
            s.wf(),
            s.pending() == Seq::<T>::empty(),
            s.submitted() == Seq::<T>::empty(),
            s.executed() == Seq::<T>::empty(),
            !s.stopped(),
            s.worker_count() == num_workers,
    {
        let s = TaskScheduler {
            queue: Vec::new(),
            stop: false,
            workers: num_workers,
            submitted: Ghost(Seq::empty()),
            executed: Ghost(Seq::empty()),
        };
        proof {
            assert(s.submitted() =~= s.executed() + s.pending());
        }
        s
    }

    /// Enqueues a task at the tail. Never fails, never blocks, and gives the
    /// caller no way to observe completion. Only a scheduler that has not
    /// been shut down accepts submissions.
    pub fn submit(&mut self, task: T)
        requires
            old(self).wf(),
            !old(self).stopped(),
        ensures
            final(self).wf(),
            final(self).pending() == old(self).pending().push(task),
            final(self).submitted() == old(self).submitted().push(task),
            final(self).executed() == old(self).executed(),
            final(self).stopped() == old(self).stopped(),
            final(self).worker_count() == old(self).worker_count(),
    {
        self.submitted = Ghost(self.submitted@.push(task));
        self.queue.push(task);
        proof {
            assert(self.submitted() =~= self.executed() + self.pending());
        }
    }

    /// One iteration of a worker's poll loop. If the stop flag is set the
    /// worker is told to terminate, whatever is still queued (those tasks are
    /// silently discarded, never executed). Otherwise the head of the queue,
    /// if any, is handed out for execution; an empty queue tells the worker
    /// to idle and poll again.
    pub fn worker_poll(&mut self) -> (step: WorkerStep<T>)
        requires
            old(self).wf(),
        ensures
            final(self).wf(),
            final(self).stopped() == old(self).stopped(),
            final(self).worker_count() == old(self).worker_count(),
            final(self).submitted() == old(self).submitted(),
            old(self).stopped() ==> step is Stop && final(self).pending() == old(self).pending()
                && final(self).executed() == old(self).executed(),
            !old(self).stopped() && old(self).pending().len() == 0 ==> step is Idle
                && final(self).pending() == old(self).pending()
                && final(self).executed() == old(self).executed(),
            !old(self).stopped() && old(self).pending().len() > 0 ==> {
                &&& step == WorkerStep::Run(old(self).pending()[0])
                &&& final(self).pending() == old(self).pending().drop_first()
                &&& final(self).executed() == old(self).executed().push(old(self).pending()[0])
            },
    {
        if self.stop {
            WorkerStep::Stop
        } else if self.queue.len() > 0 {
            let task = self.queue.remove(0);
            self.executed = Ghost(self.executed@.push(task));
            proof {
                assert(self.pending() =~= old(self).pending().drop_first());
                assert(self.submitted() =~= self.executed() + self.pending());
            }
            WorkerStep::Run(task)
        } else {
            WorkerStep::Idle
        }
    }

    /// Sets the stop flag, exactly once. Tasks still pending stay in the
    /// queue but will never be handed out: every later poll returns
    /// `WorkerStep::Stop`. Waiting for the workers to terminate is the
    /// caller's part of shutdown.
    pub fn shutdown(&mut self)
        requires
            old(self).wf(),
            !old(self).stopped(),
        ensures
            final(self).wf(),
            final(self).stopped(),
            final(self).pending() == old(self).pending(),
            final(self).submitted() == old(self).submitted(),
            final(self).executed() == old(self).executed(),
            final(self).worker_count() == old(self).worker_count(),
    {
        self.stop = true;
    }

    /// How many tasks are pending right now.
    pub fn pending_count(&self) -> (n: usize)
        ensures
            n == self.pending().len(),
    {
        self.queue.len()
    }

    /// Whether the scheduler has been shut down.
    pub fn is_stopped(&self) -> (b: bool)
        ensures
            b == self.stopped(),
    {
        self.stop
    }
}

/// No task is lost while the scheduler runs: once every pending task has been
/// handed out (the queue is empty), the executed tasks are exactly the
/// submitted ones, in full — whatever interleaving of submissions and polls
/// led there.
pub proof fn lemma_none_lost<T>(s: TaskScheduler<T>)
    requires
        s.wf(),
        s.pending().len() == 0,
    ensures
        s.executed() == s.submitted(),
{
    assert(s.executed() =~= s.executed() + s.pending());
}

/// Dequeue order is submission order: at every moment the tasks handed out
/// for execution form exactly the first `executed().len()` submitted tasks,
/// in submission order. With a single worker this is FIFO execution.
pub proof fn lemma_fifo_order<T>(s: TaskScheduler<T>)
    requires
        s.wf(),
    ensures
        s.executed() == s.submitted().take(s.executed().len() as int),
{
    assert(s.executed() =~= s.submitted().take(s.executed().len() as int));
}

/// Never more executions than submissions: tasks queued at shutdown may be
/// discarded, so the executed count is bounded by the submitted count.
pub proof fn lemma_executed_bounded<T>(s: TaskScheduler<T>)
    requires
        s.wf(),
    ensures
        s.executed().len() <= s.submitted().len(),
{
}

} // verus!
