use firecrawl_cli::api_service::MockApiService;
use firecrawl_cli::cli::OutputFormat;
use firecrawl_cli::crawl_model::CrawlResponse;
use firecrawl_cli::scrape_model::ScrapeResponse;
use firecrawl_cli::storage::{ContentRepository, StorageError};
use firecrawl_cli::task_queue::{PermitPool, TaskOutcome, TaskQueue, TaskQueueFactory};
use firecrawl_cli::task_service::TaskDefinition;

struct MemoryRepository {
    saved: usize,
}

impl MemoryRepository {
    fn new() -> Self {
        MemoryRepository { saved: 0 }
    }
}

impl ContentRepository for MemoryRepository {
    fn save_scrape_result(
        &mut self,
        _result: &ScrapeResponse,
        url: &str,
        _format: OutputFormat,
        output_dir: &str,
    ) -> Result<String, StorageError> {
        self.saved += 1;
        Ok(format!("{}/{}.md", output_dir, url.len()))
    }

    fn save_crawl_results(
        &mut self,
        results: &Vec<CrawlResponse>,
        _url: &str,
        _format: OutputFormat,
        output_dir: &str,
    ) -> Result<Vec<String>, StorageError> {
        self.saved += 1;
        Ok(results.iter().enumerate().map(|(i, _)| format!("{}/{}.md", output_dir, i)).collect())
    }
}

fn scrape_task(url: &str) -> TaskDefinition {
    TaskDefinition::Scrape {
        url: url.to_string(),
        options: None,
        format: OutputFormat::Markdown,
    }
}

#[test]
fn test_task_queue_basic_operations() {
    let mut queue = TaskQueue::new(2);

    assert!(queue.is_empty());
    assert_eq!(queue.pending_count(), 0);

    let command = scrape_task("https://example.com");
    queue.enqueue(command);

    assert!(!queue.is_empty());
    assert_eq!(queue.pending_count(), 1);
}

#[test]
fn test_permit_pool_never_exceeds_limit() {
    // An instrumented run against the permit pool: with a bound of two, the
    // peak number in flight is exactly two and a third acquisition fails.
    let mut pool = PermitPool::new(2);
    let mut peak = 0;

    assert!(pool.try_acquire());
    peak = peak.max(pool.in_flight());
    assert!(pool.try_acquire());
    peak = peak.max(pool.in_flight());
    assert!(!pool.try_acquire());
    peak = peak.max(pool.in_flight());

    assert_eq!(peak, 2);
    assert_eq!(pool.limit(), 2);
    assert!(pool.in_flight() <= pool.limit());

    pool.release();
    assert!(pool.try_acquire());
    assert_eq!(pool.in_flight(), 2);
}

#[test]
fn test_execute_all_returns_genuine_outcomes_in_order() {
    let mut queue = TaskQueue::new(2);
    queue.enqueue(scrape_task("https://example.com/a"));
    // An empty URL fails validation before any remote call.
    queue.enqueue(scrape_task(""));
    queue.enqueue(scrape_task("https://example.com/c"));

    let mut api = MockApiService::new();
    let mut repository = MemoryRepository::new();
    let outcomes = queue.execute_all(&mut api, &mut repository, "./out");

    assert_eq!(outcomes.len(), 3);
    assert!(queue.is_empty());
    assert!(outcomes[0].is_completed());
    // The empty-URL task fails with the library's own validation error.
    match &outcomes[1] {
        TaskOutcome::Failed(firecrawl_cli::errors::FirecrawlError::ValidationError(m)) => {
            assert_eq!(m, "URL is required");
        }
        other => panic!("expected the validation failure, got {:?}", other),
    }
    assert!(outcomes[2].is_completed());
    // The failing task aborted nothing: both valid tasks reached the remote
    // service.
    assert_eq!(api.scrape_calls, 2);
    match &outcomes[0] {
        TaskOutcome::Completed(result) => match result {
            firecrawl_cli::commands::CommandResult::Scrape { url, .. } => {
                assert_eq!(url, "https://example.com/a");
            }
            other => panic!("expected a scrape result, got {:?}", other),
        },
        other => panic!("expected a completed outcome, got {:?}", other),
    }
}

#[test]
fn test_execute_sequential_drains_fifo() {
    let mut queue = TaskQueueFactory::create_high_priority();
    queue.enqueue(scrape_task("https://example.com/1"));
    queue.enqueue(scrape_task("https://example.com/2"));

    let mut api = MockApiService::new();
    let mut repository = MemoryRepository::new();
    let outcomes = queue.execute_sequential(&mut api, &mut repository, "./out");

    assert_eq!(outcomes.len(), 2);
    assert!(outcomes.iter().all(|o| o.is_completed()));
    assert_eq!(api.scrape_calls, 2);
    assert_eq!(repository.saved, 2);
}

#[test]
fn test_factory_limits() {
    assert_eq!(TaskQueueFactory::create_high_priority().pending_count(), 0);
    let normal = TaskQueueFactory::create_normal();
    assert!(normal.is_empty());
    let bulk = TaskQueueFactory::create_bulk();
    assert!(bulk.is_empty());
    let custom = TaskQueueFactory::create_custom(7);
    assert!(custom.is_empty());
}
