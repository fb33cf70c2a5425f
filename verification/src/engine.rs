//! Worker-pool hand-off: after each swap the engine republishes the new
//! read-store reference to every worker through that worker's bounded
//! control-task queue. The broadcast is fire-and-forget: workers converge
//! to the new generation when they next drain their queue.

use vstd::prelude::*;

use crate::config;
use crate::store::StoreRef;
use crate::store::StoreSlot;

verus! {

/// Capacity of each worker's control-task queue; a broadcast to a full
/// queue drops the task, exactly as a send to a full bounded channel does.
pub const CTL_QUEUE_CAP: usize = 1000;

/// A one-shot instruction delivered to exactly one worker: replace its
/// cached store reference, or replace its behavioral flags.
#[derive(Debug, Clone, Copy, PartialEq, Eq, Structural)]
pub enum ControlTask {
    SetStore(StoreRef),
    SetConfig(config::Worker),
}

pub struct Engine {
    current: StoreRef,
    ctl_queues: Vec<Vec<ControlTask>>,
    worker_conf: config::Worker,
    shutdown: bool,
}

/// Mathematical content of the engine: the reference it most recently
/// published, the pending control tasks per worker (oldest first), the
/// worker configuration it broadcasts, and the stop flag for workers.
pub ghost struct EngineView {
    pub current: StoreRef,
    pub queues: Seq<Seq<ControlTask>>,
    pub worker_conf: config::Worker,
    pub shutdown: bool,
}

impl View for Engine {
    type V = EngineView;

    closed spec fn view(&self) -> EngineView {
        EngineView {
            current: self.current,
            queues: Seq::new(self.ctl_queues@.len(), |i: int| self.ctl_queues@[i]@),
            worker_conf: self.worker_conf,
            shutdown: self.shutdown,
        }
    }
}

/// What one broadcast does to one worker's queue: appends the task, unless
/// the queue is full, in which case the task is dropped for that worker.
pub open spec fn push_bounded(q: Seq<ControlTask>, t: ControlTask) -> Seq<ControlTask> {
    if q.len() < CTL_QUEUE_CAP {
        q.push(t)
    } else {
        q
    }
}

/// Broadcast of one control task to every worker's queue.
pub open spec fn spec_broadcast(queues: Seq<Seq<ControlTask>>, t: ControlTask) -> Seq<
    Seq<ControlTask>,
> {
    Seq::new(queues.len(), |i: int| push_bounded(queues[i], t))
}

impl Engine {
    /// An engine for `n_workers` workers, each with an empty control queue.
    /// Until the first publish, workers are directed at the initial read
    /// store, which is still empty.
    pub fn new(conf: config::Worker, n_workers: usize) -> (e: Self)
        ensures
            e@.current == (StoreRef { slot: StoreSlot::First, iteration: 0 }),
            e@.queues.len() == n_workers,
            forall|i: int| 0 <= i < n_workers ==> e@.queues[i] == Seq::<ControlTask>::empty(),
            e@.worker_conf == conf,
            !e@.shutdown,
    {
        let mut queues: Vec<Vec<ControlTask>> = Vec::new();
        let mut i: usize = 0;
        while i < n_workers
            invariant
                i <= n_workers,
                queues@.len() == i,
                forall|j: int| 0 <= j < i ==> queues@[j]@ == Seq::<ControlTask>::empty(),
            decreases n_workers - i,
        {
            queues.push(Vec::new());
            i += 1;
        }
        Engine {
            current: StoreRef { slot: StoreSlot::First, iteration: 0 },
            ctl_queues: queues,
            worker_conf: conf,
            shutdown: false,
        }
    }

    /// Enqueue one control task for every worker. Fire-and-forget: a full
    /// queue drops the task, and no acknowledgment is awaited.
    fn broadcast(&mut self, task: ControlTask)
        ensures
            final(self)@.current == old(self)@.current,
            final(self)@.queues == spec_broadcast(old(self)@.queues, task),
            final(self)@.worker_conf == old(self)@.worker_conf,
            final(self)@.shutdown == old(self)@.shutdown,
    {
        let n = self.ctl_queues.len();
        let mut i: usize = 0;
        while i < n
            invariant
                n == self.ctl_queues@.len(),
                i <= n,
                self.current == old(self).current,
                self.worker_conf == old(self).worker_conf,
                self.shutdown == old(self).shutdown,
                forall|j: int|
                    0 <= j < i ==> self.ctl_queues@[j]@ == push_bounded(
                        #[trigger] old(self)@.queues[j],
                        task,
                    ),
                forall|j: int| i <= j < n ==> self.ctl_queues@[j]@ == old(self)@.queues[j],
            decreases n - i,
        {
            let mut q: Vec<ControlTask> = Vec::new();
            self.ctl_queues.set_and_swap(i, &mut q);
            if q.len() < CTL_QUEUE_CAP {
                q.push(task);
            }
            self.ctl_queues.set_and_swap(i, &mut q);
            i += 1;
        }
        proof {
            assert(final(self)@.queues =~= spec_broadcast(old(self)@.queues, task));
        }
    }

    /// Publish a new read-store reference to every worker.
    pub fn set_new_store(&mut self, store_ref: StoreRef)
        ensures
            final(self)@.current == store_ref,
            final(self)@.queues == spec_broadcast(
                old(self)@.queues,
                ControlTask::SetStore(store_ref),
            ),
            final(self)@.worker_conf == old(self)@.worker_conf,
            final(self)@.shutdown == old(self)@.shutdown,
    {
        self.current = store_ref;
        self.broadcast(ControlTask::SetStore(store_ref));
    }

    /// Broadcast a new worker configuration to every worker.
    pub fn update_config(&mut self, conf: config::Worker)
        ensures
            final(self)@.current == old(self)@.current,
            final(self)@.queues == spec_broadcast(old(self)@.queues, ControlTask::SetConfig(conf)),
            final(self)@.worker_conf == conf,
            final(self)@.shutdown == old(self)@.shutdown,
    {
        self.worker_conf = conf;
        self.broadcast(ControlTask::SetConfig(conf));
    }

    /// Non-blocking receive of one control task for the given worker:
    /// consumes the oldest queued task, if any.
    pub fn take_ctl_task(&mut self, idx: usize) -> (r: Option<ControlTask>)
        requires
            idx < old(self)@.queues.len(),
        ensures
            final(self)@.current == old(self)@.current,
            final(self)@.worker_conf == old(self)@.worker_conf,
            final(self)@.shutdown == old(self)@.shutdown,
            final(self)@.queues.len() == old(self)@.queues.len(),
            forall|j: int|
                0 <= j < old(self)@.queues.len() && j != idx ==> final(self)@.queues[j] == old(
                    self,
                )@.queues[j],
            match r {
                Some(t) => old(self)@.queues[idx as int].len() > 0 && t == old(
                    self,
                )@.queues[idx as int][0] && final(self)@.queues[idx as int] == old(
                    self,
                )@.queues[idx as int].drop_first(),
                None => old(self)@.queues[idx as int].len() == 0 && final(self)@.queues[idx as int]
                    == old(self)@.queues[idx as int],
            },
    {
        let mut q: Vec<ControlTask> = Vec::new();
        self.ctl_queues.set_and_swap(idx, &mut q);
        let r = if q.len() > 0 {
            Some(q.remove(0))
        } else {
            None
        };
        self.ctl_queues.set_and_swap(idx, &mut q);
        proof {
            assert(final(self)@.queues =~= old(self)@.queues.update(
                idx as int,
                final(self)@.queues[idx as int],
            ));
        }
        r
    }

    /// Tell every worker to finish its current iteration and exit. Joining
    /// the worker threads is the caller's concern.
    pub fn stop(&mut self)
        ensures
            final(self)@.current == old(self)@.current,
            final(self)@.queues == old(self)@.queues,
            final(self)@.worker_conf == old(self)@.worker_conf,
            final(self)@.shutdown,
    {
        self.shutdown = true;
    }

    /// Whether workers have been told to stop.
    pub fn is_shutdown(&self) -> (r: bool)
        ensures
            r == self@.shutdown,
    {
        self.shutdown
    }

    /// The most recently published store reference.
    pub fn current_store(&self) -> (r: StoreRef)
        ensures
            r == self@.current,
    {
        self.current
    }

    /// Number of workers this engine serves.
    pub fn n_workers(&self) -> (n: usize)
        ensures
            n == self@.queues.len(),
    {
        self.ctl_queues.len()
    }
}

} // verus!
