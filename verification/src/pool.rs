//! The bookkeeping of the worker pool: which tasks wait, in what order they
//! are handed to workers, and when the pool stops taking tasks.
//!
//! The pool holds no threads. Worker threads share one `ThreadPool` behind a
//! lock: the listener calls `execute`, each worker calls `claim` in a loop
//! and does what the answer says, and `shutdown` closes the intake.

use crate::error::ServerError;
use std::collections::VecDeque;
use vstd::prelude::*;

verus! {

/// A pool of `workers` workers and the tasks that wait for one of them.
pub struct ThreadPool<T> {
    workers: usize,
    queue: VecDeque<T>,
    open: bool,
}

/// A pool as a mathematical value.
pub struct PoolView<T> {
    /// The number of workers.
    pub workers: nat,
    /// The tasks that wait, the one that waits longest first.
    pub pending: Seq<T>,
    /// Whether the pool takes tasks.
    pub open: bool,
}

/// What a worker that asks for work is told.
pub enum Claim<T> {
    /// A job to run; the worker asks again when it is done.
    Run(T),
    /// Nothing waits; ask again when a task has come in or the pool has
    /// been shut down.
    Wait,
    /// Nothing waits and nothing will come: leave.
    Exit,
}

/// The pool after `task` was offered to it: an open pool puts it behind the
/// tasks that wait, a pool that was shut down stays as it is.
pub open spec fn offered<T>(pool: PoolView<T>, task: T) -> PoolView<T> {
    if pool.open {
        PoolView { workers: pool.workers, pending: pool.pending.push(task), open: true }
    } else {
        pool
    }
}

/// The pool after each of `tasks` was offered to it, in order.
pub open spec fn offered_all<T>(pool: PoolView<T>, tasks: Seq<T>) -> PoolView<T>
    decreases tasks.len(),
{
    if tasks.len() == 0 {
        pool
    } else {
        offered(offered_all(pool, tasks.drop_last()), tasks.last())
    }
}

/// What a worker that asks is told: the task that waits longest, if there
/// is one; to leave, if none waits and the pool was shut down.
pub open spec fn answer<T>(pool: PoolView<T>) -> Claim<T> {
    if pool.pending.len() > 0 {
        Claim::Run(pool.pending[0])
    } else if pool.open {
        Claim::Wait
    } else {
        Claim::Exit
    }
}

/// The pool after a worker has asked: without the task that was handed out.
pub open spec fn claimed<T>(pool: PoolView<T>) -> PoolView<T> {
    if pool.pending.len() > 0 {
        PoolView { workers: pool.workers, pending: pool.pending.skip(1), open: pool.open }
    } else {
        pool
    }
}

/// The pool after workers have asked `n` times.
pub open spec fn claimed_times<T>(pool: PoolView<T>, n: nat) -> PoolView<T>
    decreases n,
{
    if n == 0 {
        pool
    } else {
        claimed(claimed_times(pool, (n - 1) as nat))
    }
}

/// The pool after it was shut down: the tasks that wait stay.
pub open spec fn shut_down<T>(pool: PoolView<T>) -> PoolView<T> {
    PoolView { workers: pool.workers, pending: pool.pending, open: false }
}

impl<T> View for ThreadPool<T> {
    type V = PoolView<T>;

    closed spec fn view(&self) -> PoolView<T> {
        PoolView { workers: self.workers as nat, pending: self.queue@, open: self.open }
    }
}

impl<T> ThreadPool<T> {
    /// A pool of `size` workers that takes tasks and holds none yet.
    pub fn new(size: usize) -> (pool: ThreadPool<T>)
        requires
            size > 0,
        ensures
            pool@ == (PoolView::<T> { workers: size as nat, pending: Seq::empty(), open: true }),
    {
        ThreadPool { workers: size, queue: VecDeque::new(), open: true }
    }

    /// Offers `task` to the pool. An open pool puts it behind the tasks
    /// that wait; a pool that was shut down refuses it and stays as it is.
    pub fn execute(&mut self, task: T) -> (r: Result<(), ServerError>)
        ensures
            final(self)@ == offered(old(self)@, task),
            old(self)@.open ==> r is Ok,
            !old(self)@.open ==> r == Err::<(), ServerError>(ServerError::PoolClosed),
    {
        if self.open {
            self.queue.push_back(task);
            Ok(())
        } else {
            Err(ServerError::PoolClosed)
        }
    }

    /// Answers a worker that asks for work.
    pub fn claim(&mut self) -> (r: Claim<T>)
        ensures
            r == answer(old(self)@),
            final(self)@ == claimed(old(self)@),
    {
        match self.queue.pop_front() {
            Some(task) => Claim::Run(task),
            None => if self.open {
                Claim::Wait
            } else {
                Claim::Exit
            },
        }
    }

    /// Shuts the pool down: it takes no more tasks. Those that wait are
    /// still handed out.
    pub fn shutdown(&mut self)
        ensures
            final(self)@ == shut_down(old(self)@),
    {
        self.open = false;
    }

    /// The number of workers.
    pub fn size(&self) -> (n: usize)
        ensures
            n == self@.workers,
    {
        self.workers
    }

    /// Whether the pool takes tasks.
    pub fn is_open(&self) -> (b: bool)
        ensures
            b == self@.open,
    {
        self.open
    }

    /// The number of tasks that wait.
    pub fn waiting(&self) -> (n: usize)
        ensures
            n == self@.pending.len(),
    {
        self.queue.len()
    }
}

/// Tasks offered to an open pool are all taken, each once, behind those
/// that waited already and in the order in which they were offered.
pub proof fn lemma_offered_tasks_wait_in_order<T>(pool: PoolView<T>, tasks: Seq<T>)
    requires
        pool.open,
    ensures
        offered_all(pool, tasks).pending == pool.pending + tasks,
        offered_all(pool, tasks).open,
        offered_all(pool, tasks).workers == pool.workers,
    decreases tasks.len(),
{
    if tasks.len() > 0 {
        lemma_offered_tasks_wait_in_order(pool, tasks.drop_last());
    }
}

/// Asking `n` times, with at least `n` tasks waiting, hands out the first
/// `n` of them and leaves the rest; open or shut, the pool stays as it was.
pub proof fn lemma_claims_take_from_the_front<T>(pool: PoolView<T>, n: nat)
    requires
        n <= pool.pending.len(),
    ensures
        claimed_times(pool, n).pending == pool.pending.skip(n as int),
        claimed_times(pool, n).open == pool.open,
        claimed_times(pool, n).workers == pool.workers,
        n < pool.pending.len() ==> answer(claimed_times(pool, n)) == Claim::Run(
            pool.pending[n as int],
        ),
    decreases n,
{
    if n > 0 {
        lemma_claims_take_from_the_front(pool, (n - 1) as nat);
    }
}

/// Every task that was offered is handed out exactly once: after `tasks`
/// were offered to an open pool in which nothing waited, the `i`-th time a
/// worker asks it is handed `tasks[i]`, and once workers have asked as many
/// times as there are tasks, nothing waits.
pub proof fn lemma_each_task_handed_out_once<T>(pool: PoolView<T>, tasks: Seq<T>, i: nat)
    requires
        pool.open,
        pool.pending.len() == 0,
        i < tasks.len(),
    ensures
        answer(claimed_times(offered_all(pool, tasks), i)) == Claim::Run(tasks[i as int]),
        claimed_times(offered_all(pool, tasks), tasks.len()).pending.len() == 0,
        answer(claimed_times(offered_all(pool, tasks), tasks.len())) == Claim::<T>::Wait,
{
    lemma_offered_tasks_wait_in_order(pool, tasks);
    let full = offered_all(pool, tasks);
    lemma_claims_take_from_the_front(full, i);
    lemma_claims_take_from_the_front(full, tasks.len());
}

/// A pool that was shut down refuses every task and keeps what waits.
pub proof fn lemma_shut_pool_refuses<T>(pool: PoolView<T>, task: T)
    ensures
        offered(shut_down(pool), task) == shut_down(pool),
        shut_down(pool).pending == pool.pending,
{
}

/// After a shutdown the tasks that waited are still handed out, each once
/// and in order, and only then are workers told to leave.
pub proof fn lemma_shutdown_runs_what_waits<T>(pool: PoolView<T>, i: nat)
    requires
        i <= pool.pending.len(),
    ensures
        i < pool.pending.len() ==> answer(claimed_times(shut_down(pool), i)) == Claim::Run(
            pool.pending[i as int],
        ),
        i == pool.pending.len() ==> answer(claimed_times(shut_down(pool), i)) == Claim::<T>::Exit,
{
    lemma_claims_take_from_the_front(shut_down(pool), i);
}

/// What can happen to a pool.
pub enum PoolEvent<T> {
    /// A task is offered.
    Offer(T),
    /// A worker asks for work.
    Ask,
    /// The pool is shut down.
    Shut,
}

/// The pool after one event.
pub open spec fn after_event<T>(pool: PoolView<T>, event: PoolEvent<T>) -> PoolView<T> {
    match event {
        PoolEvent::Offer(task) => offered(pool, task),
        PoolEvent::Ask => claimed(pool),
        PoolEvent::Shut => shut_down(pool),
    }
}

/// The pool after `events`, in order.
pub open spec fn after_events<T>(pool: PoolView<T>, events: Seq<PoolEvent<T>>) -> PoolView<T>
    decreases events.len(),
{
    if events.len() == 0 {
        pool
    } else {
        after_event(after_events(pool, events.drop_last()), events.last())
    }
}

/// The tasks that the pool took in the course of `events`: those that were
/// offered while it was open, in the order of the offers.
pub open spec fn taken<T>(pool: PoolView<T>, events: Seq<PoolEvent<T>>) -> Seq<T>
    decreases events.len(),
{
    if events.len() == 0 {
        Seq::empty()
    } else {
        let before = after_events(pool, events.drop_last());
        match events.last() {
            PoolEvent::Offer(task) if before.open => taken(pool, events.drop_last()).push(task),
            _ => taken(pool, events.drop_last()),
        }
    }
}

/// The tasks that workers were handed in the course of `events`, in the
/// order in which they asked.
pub open spec fn handed_out<T>(pool: PoolView<T>, events: Seq<PoolEvent<T>>) -> Seq<T>
    decreases events.len(),
{
    if events.len() == 0 {
        Seq::empty()
    } else {
        let before = after_events(pool, events.drop_last());
        match events.last() {
            PoolEvent::Ask if before.pending.len() > 0 => handed_out(
                pool,
                events.drop_last(),
            ).push(before.pending[0]),
            _ => handed_out(pool, events.drop_last()),
        }
    }
}

/// No task is lost and none is handed out twice, however offers, workers
/// that ask and a shutdown follow one another: the tasks that waited at
/// first and those taken since, in order, are the tasks handed out since
/// followed by the tasks that still wait.
pub proof fn lemma_no_task_lost_or_repeated<T>(pool: PoolView<T>, events: Seq<PoolEvent<T>>)
    ensures
        pool.pending + taken(pool, events) == handed_out(pool, events) + after_events(
            pool,
            events,
        ).pending,
        after_events(pool, events).workers == pool.workers,
    decreases events.len(),
{
    if events.len() > 0 {
        let earlier = events.drop_last();
        lemma_no_task_lost_or_repeated(pool, earlier);
        let before = after_events(pool, earlier);
        let h = handed_out(pool, earlier);
        match events.last() {
            PoolEvent::Offer(task) => {
                if before.open {
                    assert(h + before.pending.push(task) =~= (h + before.pending).push(task));
                }
            },
            PoolEvent::Ask => {
                if before.pending.len() > 0 {
                    assert(h.push(before.pending[0]) + before.pending.skip(1) =~= h
                        + before.pending);
                }
            },
            PoolEvent::Shut => {},
        }
    }
}

/// Once the pool is shut down it stays so: whatever is offered afterwards
/// is refused, and nothing is put behind the tasks that wait.
pub proof fn lemma_shut_pool_takes_nothing<T>(pool: PoolView<T>, events: Seq<PoolEvent<T>>)
    requires
        !pool.open,
    ensures
        !after_events(pool, events).open,
        taken(pool, events) == Seq::<T>::empty(),
        after_events(pool, events).pending.len() <= pool.pending.len(),
    decreases events.len(),
{
    if events.len() > 0 {
        lemma_shut_pool_takes_nothing(pool, events.drop_last());
    }
}

} // verus!
