//! Bounded-concurrency task queue: pending tasks in FIFO order, a counting
//! permit pool whose bound is never exceeded, and continue-and-collect
//! execution that returns the genuine outcome of every task.

use vstd::prelude::*;

use crate::api_service::ApiService;
use crate::commands::CommandResult;
use crate::crawl_command::CrawlCommand;
use crate::errors::FirecrawlError;
use crate::scrape_command::ScrapeCommand;
use crate::storage::ContentRepository;
use crate::task_service::TaskDefinition;

verus! {

/// Outcome of one executed task: its result, or the failure it ended in.
/// One task's failure never aborts the rest of a batch.
#[derive(Debug)]
pub enum TaskOutcome {
    Completed(CommandResult),
    Failed(FirecrawlError),
}

impl TaskOutcome {
    /// Whether this outcome is a success.
    pub fn is_completed(&self) -> (r: bool)
        ensures
            r == (self matches TaskOutcome::Completed(_)),
    {
        match self {
            TaskOutcome::Completed(_) => true,
            TaskOutcome::Failed(_) => false,
        }
    }
}

/// Whether an outcome can belong to a task: a success must carry the task's
/// own kind and URL.
pub open spec fn outcome_matches(task: TaskDefinition, outcome: TaskOutcome) -> bool {
    match outcome {
        TaskOutcome::Completed(c) => match task {
            TaskDefinition::Scrape { url, .. } => c matches CommandResult::Scrape {
                url: u,
                file_path,
            } && u@ == url@,
            TaskDefinition::Crawl { url, .. } => c matches CommandResult::Crawl {
                url: u,
                file_paths,
            } && u@ == url@,
        },
        TaskOutcome::Failed(_) => true,
    }
}

/// The failure the library itself owes before any collaborator is asked:
/// a task with an empty URL always yields the validation failure, never a
/// collaborator outcome.
pub open spec fn owed_validation_failure(task: TaskDefinition, outcome: TaskOutcome) -> bool {
    task.spec_url().len() == 0 ==> (outcome matches TaskOutcome::Failed(e) && e matches
        FirecrawlError::ValidationError(m) && m@ == "URL is required"@)
}

/// The number of completed outcomes.
pub open spec fn count_completed(s: Seq<TaskOutcome>) -> int
    decreases s.len(),
{
    if s.len() == 0 {
        0
    } else {
        count_completed(s.drop_last()) + if s.last() is Completed {
            1int
        } else {
            0int
        }
    }
}

/// The completed count lies between zero and the batch size.
pub proof fn lemma_count_completed_bounds(s: Seq<TaskOutcome>)
    ensures
        0 <= count_completed(s) <= s.len(),
    decreases s.len(),
{
    if s.len() > 0 {
        lemma_count_completed_bounds(s.drop_last());
    }
}

/// Counting permit pool bounding simultaneous task execution. A permit is
/// acquired before a task starts executing and released unconditionally when
/// its execution finishes, so the number in flight never exceeds the limit.
pub struct PermitPool {
    limit: usize,
    in_flight: usize,
}

impl PermitPool {
    /// The pool's bound.
    pub closed spec fn spec_limit(self) -> usize {
        self.limit
    }

    /// How many permits are currently held.
    pub closed spec fn spec_in_flight(self) -> usize {
        self.in_flight
    }

    /// The pool's invariant: held permits never exceed the bound.
    pub open spec fn wf(self) -> bool {
        self.spec_in_flight() <= self.spec_limit()
    }

    /// A pool with the given bound and no permit held.
    pub fn new(limit: usize) -> (r: Self)
        ensures
            r.wf(),
            r.spec_limit() == limit,
            r.spec_in_flight() == 0,
    {
        PermitPool { limit, in_flight: 0 }
    }

    /// The pool's bound.
    pub fn limit(&self) -> (r: usize)
        ensures
            r == self.spec_limit(),
    {
        self.limit
    }

    /// How many permits are currently held.
    pub fn in_flight(&self) -> (r: usize)
        ensures
            r == self.spec_in_flight(),
    {
        self.in_flight
    }

    /// Takes a permit exactly when one is free.
    pub fn try_acquire(&mut self) -> (r: bool)
        requires
            old(self).wf(),
        ensures
            final(self).wf(),
            final(self).spec_limit() == old(self).spec_limit(),
            r == (old(self).spec_in_flight() < old(self).spec_limit()),
            r ==> final(self).spec_in_flight() == old(self).spec_in_flight() + 1,
            !r ==> final(self).spec_in_flight() == old(self).spec_in_flight(),
    {
        if self.in_flight < self.limit {
            self.in_flight = self.in_flight + 1;
            true
        } else {
            false
        }
    }

    /// Hands a held permit back.
    pub fn release(&mut self)
        requires
            old(self).wf(),
            old(self).spec_in_flight() > 0,
        ensures
            final(self).wf(),
            final(self).spec_limit() == old(self).spec_limit(),
            final(self).spec_in_flight() == old(self).spec_in_flight() - 1,
    {
        self.in_flight = self.in_flight - 1;
    }
}

/// However permits are taken and returned through `try_acquire` and
/// `release`, a well-formed pool never has more tasks in flight than its
/// bound: both operations require and preserve `wf`, and `wf` is exactly
/// this bound.
pub proof fn lemma_in_flight_bounded(p: PermitPool)
    requires
        p.wf(),
    ensures
        p.spec_in_flight() <= p.spec_limit(),
{
}

/// Task queue for managing and executing commands with a concurrency bound.
pub struct TaskQueue {
    commands: Vec<TaskDefinition>,
    concurrency_limit: usize,
}

impl TaskQueue {
    /// The pending tasks, in FIFO order.
    pub closed spec fn spec_commands(self) -> Seq<TaskDefinition> {
        self.commands@
    }

    /// The queue's concurrency bound.
    pub closed spec fn spec_limit(self) -> usize {
        self.concurrency_limit
    }

    /// Creates a new task queue with the given concurrency bound.
    pub fn new(concurrency_limit: usize) -> (r: Self)
        ensures
            r.spec_commands().len() == 0,
            r.spec_limit() == concurrency_limit,
    {
        TaskQueue { commands: Vec::new(), concurrency_limit }
    }

    /// Appends a task to the pending set; never blocks.
    pub fn enqueue(&mut self, command: TaskDefinition)
        ensures
            final(self).spec_commands() == old(self).spec_commands().push(command),
            final(self).spec_limit() == old(self).spec_limit(),
    {
        self.commands.push(command);
    }

    /// The number of pending tasks.
    pub fn pending_count(&self) -> (r: usize)
        ensures
            r == self.spec_commands().len(),
    {
        self.commands.len()
    }

    /// Whether no task is pending.
    pub fn is_empty(&self) -> (r: bool)
        ensures
            r == (self.spec_commands().len() == 0),
    {
        self.commands.len() == 0
    }

    /// Drains the queue in FIFO order with the given permit bound: each task
    /// takes one permit before executing and gives it back when it ends,
    /// whatever way it ends, and a failure never aborts the batch.
    fn drain<A: ApiService, R: ContentRepository>(
        &mut self,
        api: &mut A,
        repository: &mut R,
        output_dir: &str,
        pool_limit: usize,
    ) -> (r: Vec<TaskOutcome>)
        requires
            pool_limit >= 1,
        ensures
            final(self).spec_commands().len() == 0,
            final(self).spec_limit() == old(self).spec_limit(),
            r@.len() == old(self).spec_commands().len(),
            forall|i: int|
                0 <= i < r@.len() ==> outcome_matches(
                    old(self).spec_commands()[i],
                    #[trigger] r@[i],
                ),
            forall|i: int|
                0 <= i < r@.len() ==> owed_validation_failure(
                    old(self).spec_commands()[i],
                    #[trigger] r@[i],
                ),
    {
        let ghost orig = self.commands@;
        let mut results: Vec<TaskOutcome> = Vec::new();
        let mut pool = PermitPool::new(pool_limit);
        while self.commands.len() > 0
            invariant
                pool.wf(),
                pool.spec_limit() == pool_limit >= 1,
                pool.spec_in_flight() == 0,
                self.concurrency_limit == old(self).spec_limit(),
                orig.len() == results@.len() + self.commands@.len(),
                self.commands@ =~= orig.subrange(results@.len() as int, orig.len() as int),
                forall|i: int|
                    0 <= i < results@.len() ==> outcome_matches(orig[i], #[trigger] results@[i]),
                forall|i: int|
                    0 <= i < results@.len() ==> owed_validation_failure(
                        orig[i],
                        #[trigger] results@[i],
                    ),
            decreases self.commands@.len(),
        {
            let command = self.commands.remove(0);
            proof {
                assert(command == orig[results@.len() as int]);
            }
            let acquired = pool.try_acquire();
            assert(acquired);
            let executed = match command {
                TaskDefinition::Scrape { url, options, format } => {
                    let cmd = ScrapeCommand::new(url, options, format);
                    cmd.execute(api, repository, output_dir)
                },
                TaskDefinition::Crawl { url, options, format } => {
                    let cmd = CrawlCommand::new(url, options, format);
                    cmd.execute(api, repository, output_dir)
                },
            };
            pool.release();
            let outcome = match executed {
                Ok(result) => TaskOutcome::Completed(result),
                Err(e) => TaskOutcome::Failed(e),
            };
            results.push(outcome);
            proof {
                assert(self.commands@ =~= orig.subrange(
                    results@.len() as int,
                    orig.len() as int,
                ));
            }
        }
        results
    }

    /// Executes all pending tasks in FIFO order under this queue's
    /// concurrency bound (a bound of zero is treated as one, so work can
    /// proceed). Outcomes come back in enqueue order; failures are collected
    /// alongside successes.
    pub fn execute_all<A: ApiService, R: ContentRepository>(
        &mut self,
        api: &mut A,
        repository: &mut R,
        output_dir: &str,
    ) -> (r: Vec<TaskOutcome>)
        ensures
            final(self).spec_commands().len() == 0,
            final(self).spec_limit() == old(self).spec_limit(),
            r@.len() == old(self).spec_commands().len(),
            forall|i: int|
                0 <= i < r@.len() ==> outcome_matches(
                    old(self).spec_commands()[i],
                    #[trigger] r@[i],
                ),
            forall|i: int|
                0 <= i < r@.len() ==> owed_validation_failure(
                    old(self).spec_commands()[i],
                    #[trigger] r@[i],
                ),
    {
        let limit = if self.concurrency_limit >= 1 {
            self.concurrency_limit
        } else {
            1
        };
        self.drain(api, repository, output_dir, limit)
    }

    /// Executes all pending tasks one at a time, in FIFO order. Outcomes
    /// come back in enqueue order; failures are collected alongside
    /// successes.
    pub fn execute_sequential<A: ApiService, R: ContentRepository>(
        &mut self,
        api: &mut A,
        repository: &mut R,
        output_dir: &str,
    ) -> (r: Vec<TaskOutcome>)
        ensures
            final(self).spec_commands().len() == 0,
            final(self).spec_limit() == old(self).spec_limit(),
            r@.len() == old(self).spec_commands().len(),
            forall|i: int|
                0 <= i < r@.len() ==> outcome_matches(
                    old(self).spec_commands()[i],
                    #[trigger] r@[i],
                ),
            forall|i: int|
                0 <= i < r@.len() ==> owed_validation_failure(
                    old(self).spec_commands()[i],
                    #[trigger] r@[i],
                ),
    {
        self.drain(api, repository, output_dir, 1)
    }
}

/// Factory for task queues tuned to different workloads.
pub struct TaskQueueFactory;

impl TaskQueueFactory {
    /// A queue for high-priority tasks: one at a time.
    pub fn create_high_priority() -> (r: TaskQueue)
        ensures
            r.spec_commands().len() == 0,
            r.spec_limit() == 1,
    {
        TaskQueue::new(1)
    }

    /// A queue for normal tasks.
    pub fn create_normal() -> (r: TaskQueue)
        ensures
            r.spec_commands().len() == 0,
            r.spec_limit() == 4,
    {
        TaskQueue::new(4)
    }

    /// A queue for bulk operations.
    pub fn create_bulk() -> (r: TaskQueue)
        ensures
            r.spec_commands().len() == 0,
            r.spec_limit() == 10,
    {
        TaskQueue::new(10)
    }

    /// A queue with a caller-chosen bound.
    pub fn create_custom(concurrency_limit: usize) -> (r: TaskQueue)
        ensures
            r.spec_commands().len() == 0,
            r.spec_limit() == concurrency_limit,
    {
        TaskQueue::new(concurrency_limit)
    }
}

} // verus!
