//! Observer fan-out for task lifecycle events: monotonic counters updated
//! synchronously, and registered observers each hearing every event.

use vstd::prelude::*;

use crate::errors::FirecrawlError;
use crate::task_service::{bump_usize, TaskStatistics};
use crate::text::str_eq;

verus! {

/// Contract of a progress observer. Progress is a whole-number percentage.
pub trait ProgressObserver {
    /// Called when a task starts.
    fn on_task_started(&self, url: &str, task_type: &str);

    /// Called when a task reports progress.
    fn on_task_progress(&self, url: &str, task_type: &str, percent: u32);

    /// Called when a task completes.
    fn on_task_completed(&self, url: &str, task_type: &str);

    /// Called when a task fails.
    fn on_task_failed(&self, url: &str, task_type: &str, error: &FirecrawlError);

    /// A unique identifier for this observer.
    fn observer_id(&self) -> String;
}

/// Observer that ignores every event.
pub struct SilentProgressObserver;

impl ProgressObserver for SilentProgressObserver {
    fn on_task_started(&self, url: &str, task_type: &str) {
    }

    fn on_task_progress(&self, url: &str, task_type: &str, percent: u32) {
    }

    fn on_task_completed(&self, url: &str, task_type: &str) {
    }

    fn on_task_failed(&self, url: &str, task_type: &str, error: &FirecrawlError) {
    }

    fn observer_id(&self) -> String {
        String::from_str("silent")
    }
}

/// The observer list without every pair stored under `id`, keeping the
/// order of the rest.
pub open spec fn spec_without_observer<O: ProgressObserver>(
    obs: Seq<(String, O)>,
    id: Seq<char>,
) -> Seq<(String, O)>
    decreases obs.len(),
{
    if obs.len() == 0 {
        Seq::empty()
    } else {
        let front = spec_without_observer(obs.drop_last(), id);
        if obs.last().0@ == id {
            front
        } else {
            front.push(obs.last())
        }
    }
}

proof fn lemma_without_observer_clean<O: ProgressObserver>(obs: Seq<(String, O)>, id: Seq<char>)
    ensures
        forall|i: int|
            0 <= i < spec_without_observer(obs, id).len() ==> (#[trigger] spec_without_observer(
                obs,
                id,
            )[i]).0@ != id,
    decreases obs.len(),
{
    if obs.len() > 0 {
        lemma_without_observer_clean(obs.drop_last(), id);
        let front = spec_without_observer(obs.drop_last(), id);
        if obs.last().0@ != id {
            assert(spec_without_observer(obs, id) == front.push(obs.last()));
            assert forall|i: int|
                0 <= i < front.push(obs.last()).len() implies (#[trigger] front.push(
                obs.last(),
            )[i]).0@ != id by {
                if i < front.len() {
                    assert(front.push(obs.last())[i] == front[i]);
                } else {
                    assert(front.push(obs.last())[i] == obs.last());
                }
            }
        }
    }
}

/// Progress service: keeps task statistics and fans events out to the
/// registered observers, each keyed by its identifier.
pub struct DefaultProgressService<O: ProgressObserver> {
    statistics: TaskStatistics,
    observers: Vec<(String, O)>,
}

impl<O: ProgressObserver> DefaultProgressService<O> {
    /// The current statistics.
    pub closed spec fn stats(self) -> TaskStatistics {
        self.statistics
    }

    /// The registered observers, each with the identifier it is stored
    /// under, in registration order.
    pub closed spec fn spec_observers(self) -> Seq<(String, O)> {
        self.observers@
    }

    /// How many observers are registered.
    pub open spec fn spec_observer_count(self) -> int {
        self.spec_observers().len() as int
    }

    /// A service with zeroed statistics and no observers.
    pub fn new() -> (r: Self)
        ensures
            r.stats() == TaskStatistics::spec_zero(),
            r.spec_observer_count() == 0,
    {
        DefaultProgressService { statistics: TaskStatistics::default(), observers: Vec::new() }
    }

    /// Registers an observer under its own identifier: the observer now
    /// stands at the end of the list under the identifier it reported, any
    /// prior entry under that identifier has left, and the others keep
    /// their order.
    pub fn register_observer(&mut self, observer: O)
        ensures
            final(self).stats() == old(self).stats(),
            exists|id: String|
                final(self).spec_observers() == spec_without_observer(
                    old(self).spec_observers(),
                    id@,
                ).push((id, observer)),
    {
        let id = observer.observer_id();
        let ghost witness = id;
        self.unregister_observer(id.as_str());
        self.observers.push((id, observer));
        proof {
            assert(final(self).spec_observers() == spec_without_observer(
                old(self).spec_observers(),
                witness@,
            ).push((witness, observer)));
        }
    }

    /// Unregisters every observer stored under the given identifier: none
    /// remains, and the others keep their order.
    pub fn unregister_observer(&mut self, observer_id: &str)
        ensures
            final(self).stats() == old(self).stats(),
            final(self).spec_observers() == spec_without_observer(
                old(self).spec_observers(),
                observer_id@,
            ),
            forall|i: int|
                0 <= i < final(self).spec_observers().len() ==> (#[trigger] final(self).spec_observers()[i]).0@ != observer_id@,
    {
        let ghost orig = self.observers@;
        let ghost mut consumed: int = 0;
        let mut i: usize = 0;
        while i < self.observers.len()
            invariant
                self.statistics == old(self).statistics,
                0 <= consumed <= orig.len(),
                i == spec_without_observer(orig.subrange(0, consumed), observer_id@).len(),
                self.observers@ =~= spec_without_observer(orig.subrange(0, consumed), observer_id@)
                    + orig.subrange(consumed, orig.len() as int),
            decreases orig.len() - consumed,
        {
            proof {
                assert(self.observers@[i as int] == orig[consumed]);
                assert(orig.subrange(0, consumed + 1).drop_last() =~= orig.subrange(0, consumed));
                assert(orig.subrange(0, consumed + 1).last() == orig[consumed]);
            }
            if str_eq(self.observers[i].0.as_str(), observer_id) {
                let _ = self.observers.remove(i);
                proof {
                    consumed = consumed + 1;
                    assert(self.observers@ =~= spec_without_observer(
                        orig.subrange(0, consumed),
                        observer_id@,
                    ) + orig.subrange(consumed, orig.len() as int));
                }
            } else {
                i = i + 1;
                proof {
                    consumed = consumed + 1;
                    assert(self.observers@ =~= spec_without_observer(
                        orig.subrange(0, consumed),
                        observer_id@,
                    ) + orig.subrange(consumed, orig.len() as int));
                }
            }
        }
        proof {
            assert(consumed == orig.len());
            assert(orig.subrange(0, orig.len() as int) =~= orig);
            assert(self.observers@ =~= spec_without_observer(orig, observer_id@));
            lemma_without_observer_clean(orig, observer_id@);
        }
    }

    /// Notifies that a task started: the total counter goes up by one, the
    /// per-kind counter of a `scrape` or `crawl` task goes up by one, then
    /// every observer hears the event.
    pub fn notify_task_started(&mut self, url: &str, task_type: &str)
        ensures
            final(self).spec_observer_count() == old(self).spec_observer_count(),
            final(self).stats() == (TaskStatistics {
                total_tasks: bump_usize(old(self).stats().total_tasks),
                scrape_tasks: if task_type@ == "scrape"@ {
                    bump_usize(old(self).stats().scrape_tasks)
                } else {
                    old(self).stats().scrape_tasks
                },
                crawl_tasks: if task_type@ != "scrape"@ && task_type@ == "crawl"@ {
                    bump_usize(old(self).stats().crawl_tasks)
                } else {
                    old(self).stats().crawl_tasks
                },
                ..old(self).stats()
            }),
    {
        if self.statistics.total_tasks < usize::MAX {
            self.statistics.total_tasks = self.statistics.total_tasks + 1;
        }
        if str_eq(task_type, "scrape") {
            if self.statistics.scrape_tasks < usize::MAX {
                self.statistics.scrape_tasks = self.statistics.scrape_tasks + 1;
            }
        } else if str_eq(task_type, "crawl") {
            if self.statistics.crawl_tasks < usize::MAX {
                self.statistics.crawl_tasks = self.statistics.crawl_tasks + 1;
            }
        }
        let ghost settled = self.statistics;
        let n = self.observers.len();
        let mut i: usize = 0;
        while i < n
            invariant
                i <= n,
                n == self.observers@.len(),
                self.statistics == settled,
            decreases n - i,
        {
            self.observers[i].1.on_task_started(url, task_type);
            i = i + 1;
        }
    }

    /// Notifies task progress to every observer; counters are untouched.
    pub fn notify_task_progress(&self, url: &str, task_type: &str, percent: u32) {
        let n = self.observers.len();
        let mut i: usize = 0;
        while i < n
            invariant
                i <= n,
                n == self.observers@.len(),
            decreases n - i,
        {
            self.observers[i].1.on_task_progress(url, task_type, percent);
            i = i + 1;
        }
    }

    /// Notifies that a task completed: the completed counter goes up by one,
    /// then every observer hears the event.
    pub fn notify_task_completed(&mut self, url: &str, task_type: &str)
        ensures
            final(self).spec_observer_count() == old(self).spec_observer_count(),
            final(self).stats() == (TaskStatistics {
                completed_tasks: bump_usize(old(self).stats().completed_tasks),
                ..old(self).stats()
            }),
    {
        if self.statistics.completed_tasks < usize::MAX {
            self.statistics.completed_tasks = self.statistics.completed_tasks + 1;
        }
        let ghost settled = self.statistics;
        let n = self.observers.len();
        let mut i: usize = 0;
        while i < n
            invariant
                i <= n,
                n == self.observers@.len(),
                self.statistics == settled,
            decreases n - i,
        {
            self.observers[i].1.on_task_completed(url, task_type);
            i = i + 1;
        }
    }

    /// Notifies that a task failed: the failed counter goes up by one, then
    /// every observer hears the event with the error.
    pub fn notify_task_failed(&mut self, url: &str, task_type: &str, error: &FirecrawlError)
        ensures
            final(self).spec_observer_count() == old(self).spec_observer_count(),
            final(self).stats() == (TaskStatistics {
                failed_tasks: bump_usize(old(self).stats().failed_tasks),
                ..old(self).stats()
            }),
    {
        if self.statistics.failed_tasks < usize::MAX {
            self.statistics.failed_tasks = self.statistics.failed_tasks + 1;
        }
        let ghost settled = self.statistics;
        let n = self.observers.len();
        let mut i: usize = 0;
        while i < n
            invariant
                i <= n,
                n == self.observers@.len(),
                self.statistics == settled,
            decreases n - i,
        {
            self.observers[i].1.on_task_failed(url, task_type, error);
            i = i + 1;
        }
    }

    /// A point-in-time snapshot of the statistics.
    pub fn get_statistics(&self) -> (r: TaskStatistics)
        ensures
            r == self.stats(),
    {
        self.statistics
    }
}

/// Factory for progress services.
pub struct ProgressServiceFactory;

impl ProgressServiceFactory {
    /// A progress service with no observers: statistics only.
    pub fn create_silent_service() -> (r: DefaultProgressService<SilentProgressObserver>)
        ensures
            r.stats() == TaskStatistics::spec_zero(),
            r.spec_observer_count() == 0,
    {
        DefaultProgressService::new()
    }
}

} // verus!
