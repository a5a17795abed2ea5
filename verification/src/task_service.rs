//! The task orchestration service: cache-aware execution of single tasks,
//! batch execution through the queue, and execution statistics.

use vstd::prelude::*;

use crate::api_service::ApiService;
use crate::cache_service::{bump64, entry_fresh, refreshed_entry, spec_expiry, CacheEntryView, CacheKeyView, CacheKind, MemoryCacheService};
use crate::cli::{CrawlOptions, OutputFormat, ScrapeOptions};
use crate::commands::CommandResult;
use crate::config::AppConfig;
use crate::crawl_command::CrawlCommand;
use crate::errors::{FirecrawlError, FirecrawlResult};
use crate::progress_service::{DefaultProgressService, ProgressObserver};
use crate::scrape_command::ScrapeCommand;
use crate::storage::ContentRepository;
use crate::task_queue::{count_completed, lemma_count_completed_bounds, outcome_matches, owed_validation_failure, TaskOutcome, TaskQueueFactory};

verus! {

/// A counter increment that stops at the machine limit.
pub open spec fn bump_usize(x: usize) -> usize {
    if x < usize::MAX {
        (x + 1) as usize
    } else {
        x
    }
}

/// A counter incremented `n` times, stopping at the machine limit.
pub open spec fn bumps(x: usize, n: int) -> usize
    decreases n,
{
    if n <= 0 {
        x
    } else {
        bump_usize(bumps(x, n - 1))
    }
}

/// The number of single-page tasks in a batch.
pub open spec fn count_scrape_tasks(s: Seq<TaskDefinition>) -> int
    decreases s.len(),
{
    if s.len() == 0 {
        0
    } else {
        count_scrape_tasks(s.drop_last()) + if s.last().spec_is_scrape() {
            1int
        } else {
            0int
        }
    }
}

/// The single-page count lies between zero and the batch size.
pub proof fn lemma_count_scrape_tasks_bounds(s: Seq<TaskDefinition>)
    ensures
        0 <= count_scrape_tasks(s) <= s.len(),
    decreases s.len(),
{
    if s.len() > 0 {
        lemma_count_scrape_tasks_bounds(s.drop_last());
    }
}

/// Task execution statistics. The execution time average is in milliseconds.
#[derive(Debug, Clone, Copy, PartialEq, Eq, Structural)]
pub struct TaskStatistics {
    pub total_tasks: usize,
    pub completed_tasks: usize,
    pub failed_tasks: usize,
    pub scrape_tasks: usize,
    pub crawl_tasks: usize,
    pub cache_hits: usize,
    pub cache_misses: usize,
    pub average_execution_time_millis: u64,
}

impl TaskStatistics {
    /// Statistics with every counter at zero.
    pub open spec fn spec_zero() -> TaskStatistics {
        TaskStatistics {
            total_tasks: 0,
            completed_tasks: 0,
            failed_tasks: 0,
            scrape_tasks: 0,
            crawl_tasks: 0,
            cache_hits: 0,
            cache_misses: 0,
            average_execution_time_millis: 0,
        }
    }

    /// The success rate as a whole-number percentage: completed per total,
    /// zero where no task ran yet, stopping at the machine limit.
    pub open spec fn spec_success_rate(self) -> int {
        if self.total_tasks == 0 {
            0
        } else if (self.completed_tasks * 100) / (self.total_tasks as int) > u64::MAX {
            u64::MAX as int
        } else {
            (self.completed_tasks * 100) / (self.total_tasks as int)
        }
    }

    /// Calculates the success rate as a whole-number percentage.
    pub fn success_rate(&self) -> (r: u64)
        ensures
            r == self.spec_success_rate(),
    {
        if self.total_tasks == 0 {
            0
        } else {
            let completed: u128 = self.completed_tasks as u128;
            let total: u128 = self.total_tasks as u128;
            let rate: u128 = (completed * 100) / total;
            if rate > u64::MAX as u128 {
                u64::MAX
            } else {
                rate as u64
            }
        }
    }

    /// The cache hit rate as a whole-number percentage: hits per cache
    /// operation, or zero where the cache was never consulted.
    pub open spec fn spec_cache_hit_rate(self) -> int {
        if self.cache_hits + self.cache_misses == 0 {
            0
        } else {
            (self.cache_hits * 100) / (self.cache_hits + self.cache_misses)
        }
    }

    /// Calculates the cache hit rate as a whole-number percentage.
    pub fn cache_hit_rate(&self) -> (r: u64)
        ensures
            r == self.spec_cache_hit_rate(),
    {
        if self.cache_hits == 0 && self.cache_misses == 0 {
            0
        } else {
            let hits: u128 = self.cache_hits as u128;
            let misses: u128 = self.cache_misses as u128;
            let rate: u128 = (hits * 100) / (hits + misses);
            proof {
                assert(rate <= 100) by (nonlinear_arith)
                    requires
                        rate == (hits * 100) / (hits + misses),
                        hits + misses > 0,
                        hits <= usize::MAX,
                        misses <= usize::MAX,
                ;
            }
            rate as u64
        }
    }
}

impl Default for TaskStatistics {
    fn default() -> (r: Self)
        ensures
            r == TaskStatistics::spec_zero(),
    {
        TaskStatistics {
            total_tasks: 0,
            completed_tasks: 0,
            failed_tasks: 0,
            scrape_tasks: 0,
            crawl_tasks: 0,
            cache_hits: 0,
            cache_misses: 0,
            average_execution_time_millis: 0,
        }
    }
}


/// Whether the cache, if one is configured, holds a fresh entry for the key.
pub open spec fn cache_has_fresh(
    cache: Option<MemoryCacheService>,
    k: CacheKeyView,
    now: u64,
) -> bool {
    match cache {
        Some(c) => c.contents().contains_key(k) && entry_fresh(c.contents()[k], now),
        None => false,
    }
}

/// The data cached under the key.
pub open spec fn cache_entry_data(cache: Option<MemoryCacheService>, k: CacheKeyView) -> crate::commands::CommandResultView
    recommends
        cache is Some,
{
    cache.unwrap().contents()[k].data
}

/// The contents of the cache.
pub open spec fn cache_contents_of(cache: Option<MemoryCacheService>) -> Map<
    CacheKeyView,
    crate::cache_service::CacheEntryView,
>
    recommends
        cache is Some,
{
    cache.unwrap().contents()
}

/// The configured time-to-live of the cache, in milliseconds.
pub open spec fn cache_ttl_of(cache: Option<MemoryCacheService>) -> u64 {
    match cache {
        Some(c) => c.spec_ttl_millis(),
        None => 0,
    }
}

/// The hit counter of the cache, if one is configured.
pub open spec fn cache_hits_of(cache: Option<MemoryCacheService>) -> u64 {
    match cache {
        Some(c) => c.stats().cache_hits,
        None => 0,
    }
}

/// Task definition for batch operations.
#[derive(Debug, Clone)]
pub enum TaskDefinition {
    Scrape { url: String, options: Option<ScrapeOptions>, format: OutputFormat },
    Crawl { url: String, options: Option<CrawlOptions>, format: OutputFormat },
}

impl TaskDefinition {
    /// The task's target URL.
    pub open spec fn spec_url(self) -> Seq<char> {
        match self {
            TaskDefinition::Scrape { url, .. } => url@,
            TaskDefinition::Crawl { url, .. } => url@,
        }
    }

    /// The task's output format.
    pub open spec fn spec_format(self) -> OutputFormat {
        match self {
            TaskDefinition::Scrape { format, .. } => format,
            TaskDefinition::Crawl { format, .. } => format,
        }
    }

    /// Whether the task is a single-page scrape.
    pub open spec fn spec_is_scrape(self) -> bool {
        self matches TaskDefinition::Scrape { .. }
    }

    /// Gets the task's target URL.
    pub fn url(&self) -> (r: &str)
        ensures
            r@ == self.spec_url(),
    {
        match self {
            TaskDefinition::Scrape { url, .. } => url.as_str(),
            TaskDefinition::Crawl { url, .. } => url.as_str(),
        }
    }

    /// Gets the task's output format.
    pub fn format(&self) -> (r: &OutputFormat)
        ensures
            *r == self.spec_format(),
    {
        match self {
            TaskDefinition::Scrape { format, .. } => format,
            TaskDefinition::Crawl { format, .. } => format,
        }
    }

    /// Gets the task's kind label.
    pub fn task_type(&self) -> (r: &'static str)
        ensures
            self.spec_is_scrape() ==> r@ == "scrape"@,
            !self.spec_is_scrape() ==> r@ == "crawl"@,
    {
        match self {
            TaskDefinition::Scrape { .. } => "scrape",
            TaskDefinition::Crawl { .. } => "crawl",
        }
    }
}

/// Service for managing and executing tasks against injected collaborators:
/// the remote service, a persister, an optional result cache, and the
/// progress service.
pub struct TaskService<A: ApiService, R: ContentRepository, O: ProgressObserver> {
    api_service: A,
    progress_service: DefaultProgressService<O>,
    cache_service: Option<MemoryCacheService>,
    repository: R,
    config: AppConfig,
}

impl<A: ApiService, R: ContentRepository, O: ProgressObserver> TaskService<A, R, O> {
    /// The remote service collaborator.
    pub closed spec fn spec_api(self) -> A {
        self.api_service
    }

    /// The result cache, where one is configured.
    pub closed spec fn spec_cache(self) -> Option<MemoryCacheService> {
        self.cache_service
    }

    /// The current task statistics.
    pub closed spec fn spec_stats(self) -> TaskStatistics {
        self.progress_service.stats()
    }

    /// Internal consistency: the cache, where present, is consistent.
    pub open spec fn wf(self) -> bool {
        match self.spec_cache() {
            Some(c) => c.wf(),
            None => true,
        }
    }

    /// Creates a new task service with its collaborators.
    pub fn new(
        api_service: A,
        progress_service: DefaultProgressService<O>,
        cache_service: Option<MemoryCacheService>,
        repository: R,
        config: AppConfig,
    ) -> (r: Self)
        requires
            cache_service matches Some(c) ==> c.wf(),
        ensures
            r.wf(),
            r.spec_api() == api_service,
            r.spec_cache() == cache_service,
            r.spec_stats() == progress_service.stats(),
    {
        TaskService { api_service, progress_service, cache_service, repository, config }
    }

    /// Executes a single scrape task. A warm cache short-circuits the work:
    /// when a fresh entry exists for the URL and format, its value comes
    /// back, the remote service is never consulted, and no task is counted
    /// as started. Otherwise the task runs against the remote service, a
    /// success is written through the cache, and the statistics record the
    /// task's start and its completion or failure.
    pub fn execute_scrape(
        &mut self,
        url: String,
        options: Option<ScrapeOptions>,
        format: OutputFormat,
        now: u64,
    ) -> (r: FirecrawlResult<CommandResult>)
        requires
            old(self).wf(),
        ensures
            final(self).wf(),
            ({
                let k = (CacheKind::Scrape, url@, format);
                cache_has_fresh(old(self).spec_cache(), k, now) ==> {
                    &&& r matches Ok(res) && res@ == cache_entry_data(old(self).spec_cache(), k)
                    &&& final(self).spec_api() == old(self).spec_api()
                    &&& final(self).spec_stats() == old(self).spec_stats()
                    &&& final(self).spec_cache() matches Some(c2) && c2.stats().cache_hits
                        == bump64(cache_hits_of(old(self).spec_cache())) && (c2.contents()
                        =~= cache_contents_of(old(self).spec_cache()).insert(
                        k,
                        refreshed_entry(cache_contents_of(old(self).spec_cache())[k], now),
                    ))
                }
            }),
            ({
                let k = (CacheKind::Scrape, url@, format);
                !cache_has_fresh(old(self).spec_cache(), k, now) ==> {
                    &&& (r matches Ok(res) ==> res matches CommandResult::Scrape {
                        url: u,
                        file_path,
                    } && u@ == url@)
                    &&& (r matches Ok(res) ==> (old(self).spec_cache() matches Some(_)
                        ==> (final(self).spec_cache() matches Some(c2)
                        && c2.contents().contains_key(k) && c2.contents()[k]
                        == (CacheEntryView {
                            data: res@,
                            created_at: now,
                            expires_at: spec_expiry(now, cache_ttl_of(old(self).spec_cache())),
                            access_count: 1,
                            last_accessed: now,
                        }))))
                    &&& (r is Ok ==> final(self).spec_stats() == (TaskStatistics {
                        total_tasks: bump_usize(old(self).spec_stats().total_tasks),
                        scrape_tasks: bump_usize(old(self).spec_stats().scrape_tasks),
                        completed_tasks: bump_usize(old(self).spec_stats().completed_tasks),
                        ..old(self).spec_stats()
                    }))
                    &&& (r is Err ==> final(self).spec_stats() == (TaskStatistics {
                        total_tasks: bump_usize(old(self).spec_stats().total_tasks),
                        scrape_tasks: bump_usize(old(self).spec_stats().scrape_tasks),
                        failed_tasks: bump_usize(old(self).spec_stats().failed_tasks),
                        ..old(self).spec_stats()
                    }))
                }
            }),
    {
        if let Some(cache) = &mut self.cache_service {
            if let Some(cached_result) = cache.get_scrape_result(url.as_str(), format, now) {
                return Ok(cached_result);
            }
        }
        self.progress_service.notify_task_started(url.as_str(), "scrape");
        let command = ScrapeCommand::new(url, options, format);
        let output_dir = self.config.get_effective_output_dir();
        match command.execute(&mut self.api_service, &mut self.repository, output_dir.as_str()) {
            Ok(result) => {
                if let Some(cache) = &mut self.cache_service {
                    cache.store_scrape_result(command.url(), format, &result, now);
                }
                self.progress_service.notify_task_completed(command.url(), "scrape");
                Ok(result)
            },
            Err(e) => {
                self.progress_service.notify_task_failed(command.url(), "scrape", &e);
                Err(e)
            },
        }
    }

    /// Executes a single crawl task, with the same cache short-circuit,
    /// write-through and statistics discipline as a scrape task.
    pub fn execute_crawl(
        &mut self,
        url: String,
        options: Option<CrawlOptions>,
        format: OutputFormat,
        now: u64,
    ) -> (r: FirecrawlResult<CommandResult>)
        requires
            old(self).wf(),
        ensures
            final(self).wf(),
            ({
                let k = (CacheKind::Crawl, url@, format);
                cache_has_fresh(old(self).spec_cache(), k, now) ==> {
                    &&& r matches Ok(res) && res@ == cache_entry_data(old(self).spec_cache(), k)
                    &&& final(self).spec_api() == old(self).spec_api()
                    &&& final(self).spec_stats() == old(self).spec_stats()
                    &&& final(self).spec_cache() matches Some(c2) && c2.stats().cache_hits
                        == bump64(cache_hits_of(old(self).spec_cache())) && (c2.contents()
                        =~= cache_contents_of(old(self).spec_cache()).insert(
                        k,
                        refreshed_entry(cache_contents_of(old(self).spec_cache())[k], now),
                    ))
                }
            }),
            ({
                let k = (CacheKind::Crawl, url@, format);
                !cache_has_fresh(old(self).spec_cache(), k, now) ==> {
                    &&& (r matches Ok(res) ==> res matches CommandResult::Crawl {
                        url: u,
                        file_paths,
                    } && u@ == url@)
                    &&& (r matches Ok(res) ==> (old(self).spec_cache() matches Some(_)
                        ==> (final(self).spec_cache() matches Some(c2)
                        && c2.contents().contains_key(k) && c2.contents()[k]
                        == (CacheEntryView {
                            data: res@,
                            created_at: now,
                            expires_at: spec_expiry(now, cache_ttl_of(old(self).spec_cache())),
                            access_count: 1,
                            last_accessed: now,
                        }))))
                    &&& (r is Ok ==> final(self).spec_stats() == (TaskStatistics {
                        total_tasks: bump_usize(old(self).spec_stats().total_tasks),
                        crawl_tasks: bump_usize(old(self).spec_stats().crawl_tasks),
                        completed_tasks: bump_usize(old(self).spec_stats().completed_tasks),
                        ..old(self).spec_stats()
                    }))
                    &&& (r is Err ==> final(self).spec_stats() == (TaskStatistics {
                        total_tasks: bump_usize(old(self).spec_stats().total_tasks),
                        crawl_tasks: bump_usize(old(self).spec_stats().crawl_tasks),
                        failed_tasks: bump_usize(old(self).spec_stats().failed_tasks),
                        ..old(self).spec_stats()
                    }))
                }
            }),
    {
        proof {
            reveal_strlit("scrape");
            reveal_strlit("crawl");
            assert("scrape"@.len() == 6);
            assert("crawl"@.len() == 5);
            assert("crawl"@ != "scrape"@);
        }
        if let Some(cache) = &mut self.cache_service {
            if let Some(cached_result) = cache.get_crawl_result(url.as_str(), format, now) {
                return Ok(cached_result);
            }
        }
        self.progress_service.notify_task_started(url.as_str(), "crawl");
        let command = CrawlCommand::new(url, options, format);
        let output_dir = self.config.get_effective_output_dir();
        match command.execute(&mut self.api_service, &mut self.repository, output_dir.as_str()) {
            Ok(result) => {
                if let Some(cache) = &mut self.cache_service {
                    cache.store_crawl_result(command.url(), format, &result, now);
                }
                self.progress_service.notify_task_completed(command.url(), "crawl");
                Ok(result)
            },
            Err(e) => {
                self.progress_service.notify_task_failed(command.url(), "crawl", &e);
                Err(e)
            },
        }
    }

    /// Executes a batch of tasks through a queue: every task yields its own
    /// genuine outcome, in enqueue order, and one failure aborts nothing.
    /// The progress service hears one start event per task and one terminal
    /// event per outcome.
    pub fn execute_batch(&mut self, tasks: Vec<TaskDefinition>) -> (r: Vec<TaskOutcome>)
        requires
            old(self).wf(),
        ensures
            final(self).wf(),
            r@.len() == tasks@.len(),
            forall|i: int|
                0 <= i < r@.len() ==> outcome_matches(tasks@[i], #[trigger] r@[i]),
            forall|i: int|
                0 <= i < r@.len() ==> owed_validation_failure(tasks@[i], #[trigger] r@[i]),
            final(self).spec_stats() == (TaskStatistics {
                total_tasks: bumps(old(self).spec_stats().total_tasks, tasks@.len() as int),
                scrape_tasks: bumps(
                    old(self).spec_stats().scrape_tasks,
                    count_scrape_tasks(tasks@),
                ),
                crawl_tasks: bumps(
                    old(self).spec_stats().crawl_tasks,
                    tasks@.len() - count_scrape_tasks(tasks@),
                ),
                completed_tasks: bumps(
                    old(self).spec_stats().completed_tasks,
                    count_completed(r@),
                ),
                failed_tasks: bumps(
                    old(self).spec_stats().failed_tasks,
                    r@.len() - count_completed(r@),
                ),
                ..old(self).spec_stats()
            }),
    {
        let ghost task_list = tasks@;
        let ghost stats0 = self.progress_service.stats();
        proof {
            reveal_strlit("scrape");
            reveal_strlit("crawl");
            assert("scrape"@.len() == 6);
            assert("crawl"@.len() == 5);
            assert("crawl"@ != "scrape"@);
        }
        let mut queue = TaskQueueFactory::create_normal();
        let mut labels: Vec<(String, &'static str)> = Vec::new();
        let mut rest = tasks;
        while rest.len() > 0
            invariant
                queue.spec_commands() + rest@ =~= task_list,
                queue.spec_commands().len() + rest@.len() == task_list.len(),
                labels@.len() == queue.spec_commands().len(),
                self.cache_service == old(self).cache_service,
                self.progress_service.stats() == (TaskStatistics {
                    total_tasks: bumps(
                        stats0.total_tasks,
                        queue.spec_commands().len() as int,
                    ),
                    scrape_tasks: bumps(
                        stats0.scrape_tasks,
                        count_scrape_tasks(
                            task_list.subrange(0, queue.spec_commands().len() as int),
                        ),
                    ),
                    crawl_tasks: bumps(
                        stats0.crawl_tasks,
                        queue.spec_commands().len() - count_scrape_tasks(
                            task_list.subrange(0, queue.spec_commands().len() as int),
                        ),
                    ),
                    ..stats0
                }),
            decreases rest@.len(),
        {
            let ghost k = queue.spec_commands().len() as int;
            let t = rest.remove(0);
            proof {
                reveal_strlit("scrape");
                reveal_strlit("crawl");
                assert("scrape"@.len() == 6);
                assert("crawl"@.len() == 5);
                assert("crawl"@ != "scrape"@);
                assert(t == task_list[k]);
                assert(task_list.subrange(0, k + 1).drop_last() =~= task_list.subrange(0, k));
                assert(task_list.subrange(0, k + 1).last() == task_list[k]);
                lemma_count_scrape_tasks_bounds(task_list.subrange(0, k));
                lemma_count_scrape_tasks_bounds(task_list.subrange(0, k + 1));
            }
            let url = String::from_str(t.url());
            let task_type = t.task_type();
            self.progress_service.notify_task_started(url.as_str(), task_type);
            labels.push((url, task_type));
            queue.enqueue(t);
            proof {
                assert(queue.spec_commands() + rest@ =~= task_list);
            }
        }
        proof {
            assert(queue.spec_commands() =~= task_list);
            assert(task_list.subrange(0, task_list.len() as int) =~= task_list);
        }
        let ghost stats1 = self.progress_service.stats();
        let output_dir = self.config.get_effective_output_dir();
        let outcomes = queue.execute_all(
            &mut self.api_service,
            &mut self.repository,
            output_dir.as_str(),
        );
        let n = outcomes.len();
        let mut i: usize = 0;
        while i < n
            invariant
                n == outcomes@.len(),
                n == labels@.len(),
                i <= n,
                self.cache_service == old(self).cache_service,
                self.progress_service.stats() == (TaskStatistics {
                    completed_tasks: bumps(
                        stats1.completed_tasks,
                        count_completed(outcomes@.subrange(0, i as int)),
                    ),
                    failed_tasks: bumps(
                        stats1.failed_tasks,
                        i - count_completed(outcomes@.subrange(0, i as int)),
                    ),
                    ..stats1
                }),
            decreases n - i,
        {
            proof {
                assert(outcomes@.subrange(0, i + 1 as int).drop_last() =~= outcomes@.subrange(
                    0,
                    i as int,
                ));
                assert(outcomes@.subrange(0, i + 1 as int).last() == outcomes@[i as int]);
                lemma_count_completed_bounds(outcomes@.subrange(0, i as int));
                lemma_count_completed_bounds(outcomes@.subrange(0, i + 1 as int));
            }
            match &outcomes[i] {
                TaskOutcome::Completed(_) => {
                    self.progress_service.notify_task_completed(
                        labels[i].0.as_str(),
                        labels[i].1,
                    );
                },
                TaskOutcome::Failed(e) => {
                    self.progress_service.notify_task_failed(labels[i].0.as_str(), labels[i].1, e);
                },
            }
            i = i + 1;
        }
        proof {
            assert(outcomes@.subrange(0, n as int) =~= outcomes@);
            lemma_count_completed_bounds(outcomes@);
            lemma_count_scrape_tasks_bounds(task_list);
        }
        outcomes
    }

    /// The remote service collaborator, for inspection.
    pub fn api_service(&self) -> (r: &A)
        ensures
            r == &self.spec_api(),
    {
        &self.api_service
    }

    /// A point-in-time snapshot of the task statistics.
    pub fn get_statistics(&self) -> (r: TaskStatistics)
        ensures
            r == self.spec_stats(),
    {
        self.progress_service.get_statistics()
    }

    /// Empties the cache, where one is configured.
    pub fn clear_cache(&mut self) -> (r: FirecrawlResult<()>)
        ensures
            r matches Ok(()),
            final(self).wf(),
            old(self).spec_cache() is Some ==> (final(self).spec_cache() matches Some(c) && (
            c.contents().dom() =~= Set::empty())),
            old(self).spec_cache() is None ==> final(self).spec_cache() is None,
    {
        if let Some(cache) = &mut self.cache_service {
            cache.clear();
        }
        Ok(())
    }

    /// Whether a fresh result for the URL and format is cached, under either
    /// task kind. Without a cache nothing is ever cached.
    pub fn is_cached(&self, url: &str, format: &OutputFormat, now: u64) -> (r: bool)
        requires
            self.wf(),
        ensures
            r == match self.spec_cache() {
                Some(c) => {
                    let ks = (CacheKind::Scrape, url@, *format);
                    let kc = (CacheKind::Crawl, url@, *format);
                    ||| (c.contents().contains_key(ks) && entry_fresh(c.contents()[ks], now))
                    ||| (c.contents().contains_key(kc) && entry_fresh(c.contents()[kc], now))
                },
                None => false,
            },
    {
        match &self.cache_service {
            Some(cache) => cache.contains_entry(url, *format, now),
            None => false,
        }
    }
}

/// Builder for `TaskService`: each collaborator is injected, and building
/// fails with a configuration error naming the first missing one.
pub struct TaskServiceBuilder<A: ApiService, R: ContentRepository, O: ProgressObserver> {
    pub api_service: Option<A>,
    pub progress_service: Option<DefaultProgressService<O>>,
    pub cache_service: Option<MemoryCacheService>,
    pub repository: Option<R>,
    pub config: Option<AppConfig>,
}

impl<A: ApiService, R: ContentRepository, O: ProgressObserver> TaskServiceBuilder<A, R, O> {
    /// Starts with nothing injected.
    pub fn new() -> (r: Self)
        ensures
            r.api_service is None,
            r.progress_service is None,
            r.cache_service is None,
            r.repository is None,
            r.config is None,
    {
        TaskServiceBuilder {
            api_service: None,
            progress_service: None,
            cache_service: None,
            repository: None,
            config: None,
        }
    }

    /// Injects the remote service.
    pub fn with_api_service(self, service: A) -> (r: Self)
        ensures
            r == (TaskServiceBuilder { api_service: Some(service), ..self }),
    {
        let mut b = self;
        b.api_service = Some(service);
        b
    }

    /// Injects the progress service.
    pub fn with_progress_service(self, service: DefaultProgressService<O>) -> (r: Self)
        ensures
            r == (TaskServiceBuilder { progress_service: Some(service), ..self }),
    {
        let mut b = self;
        b.progress_service = Some(service);
        b
    }

    /// Injects the cache, or switches caching off with `None`.
    pub fn with_cache_service(self, service: Option<MemoryCacheService>) -> (r: Self)
        ensures
            r == (TaskServiceBuilder { cache_service: service, ..self }),
    {
        let mut b = self;
        b.cache_service = service;
        b
    }

    /// Injects the persister.
    pub fn with_repository(self, repository: R) -> (r: Self)
        ensures
            r == (TaskServiceBuilder { repository: Some(repository), ..self }),
    {
        let mut b = self;
        b.repository = Some(repository);
        b
    }

    /// Injects the configuration.
    pub fn with_config(self, config: AppConfig) -> (r: Self)
        ensures
            r == (TaskServiceBuilder { config: Some(config), ..self }),
    {
        let mut b = self;
        b.config = Some(config);
        b
    }

    /// Builds the service: succeeds exactly when the remote service, the
    /// progress service, the persister and the configuration were all
    /// injected and the cache, if any, is consistent; otherwise the error
    /// names the first missing collaborator.
    pub fn build(self) -> (r: FirecrawlResult<TaskService<A, R, O>>)
        requires
            self.cache_service matches Some(c) ==> c.wf(),
        ensures
            (self.api_service is Some && self.progress_service is Some && self.repository is Some
                && self.config is Some) ==> (r matches Ok(s) && s.wf() && s.spec_cache()
                == self.cache_service),
            self.api_service is None ==> (r matches Err(FirecrawlError::ConfigurationError(m))
                && m@ == "ApiService is required"@),
            self.api_service is Some && self.progress_service is None ==> (r matches Err(
                FirecrawlError::ConfigurationError(m),
            ) && m@ == "ProgressService is required"@),
            self.api_service is Some && self.progress_service is Some && self.repository is None
                ==> (r matches Err(FirecrawlError::ConfigurationError(m)) && m@
                == "ContentRepository is required"@),
            self.api_service is Some && self.progress_service is Some && self.repository is Some
                && self.config is None ==> (r matches Err(FirecrawlError::ConfigurationError(m))
                && m@ == "AppConfig is required"@),
    {
        let api_service = match self.api_service {
            Some(s) => s,
            None => {
                return Err(
                    FirecrawlError::ConfigurationError(String::from_str("ApiService is required")),
                );
            },
        };
        let progress_service = match self.progress_service {
            Some(s) => s,
            None => {
                return Err(
                    FirecrawlError::ConfigurationError(
                        String::from_str("ProgressService is required"),
                    ),
                );
            },
        };
        let repository = match self.repository {
            Some(s) => s,
            None => {
                return Err(
                    FirecrawlError::ConfigurationError(
                        String::from_str("ContentRepository is required"),
                    ),
                );
            },
        };
        let config = match self.config {
            Some(s) => s,
            None => {
                return Err(
                    FirecrawlError::ConfigurationError(String::from_str("AppConfig is required")),
                );
            },
        };
        Ok(
            TaskService {
                api_service,
                progress_service,
                cache_service: self.cache_service,
                repository,
                config,
            },
        )
    }
}

} // verus!
