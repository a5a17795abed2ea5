use std::cell::RefCell;
use std::rc::Rc;

use firecrawl_cli::api_service::MockApiService;
use firecrawl_cli::cache_service::MemoryCacheService;
use firecrawl_cli::cli::{CrawlOptions, OutputFormat};
use firecrawl_cli::commands::CommandResult;
use firecrawl_cli::config::{AppConfig, CacheConfig};
use firecrawl_cli::crawl_model::CrawlResponse;
use firecrawl_cli::errors::FirecrawlError;
use firecrawl_cli::progress_service::{DefaultProgressService, ProgressObserver};
use firecrawl_cli::scrape_model::ScrapeResponse;
use firecrawl_cli::storage::{ContentRepository, StorageError};
use firecrawl_cli::task_service::{TaskDefinition, TaskService, TaskServiceBuilder};

struct MemoryRepository;

impl ContentRepository for MemoryRepository {
    fn save_scrape_result(
        &mut self,
        _result: &ScrapeResponse,
        _url: &str,
        _format: OutputFormat,
        output_dir: &str,
    ) -> Result<String, StorageError> {
        Ok(format!("{}/page.md", output_dir))
    }

    fn save_crawl_results(
        &mut self,
        results: &Vec<CrawlResponse>,
        _url: &str,
        _format: OutputFormat,
        output_dir: &str,
    ) -> Result<Vec<String>, StorageError> {
        Ok(results.iter().enumerate().map(|(i, _)| format!("{}/{}.md", output_dir, i)).collect())
    }
}

struct TestProgressObserver {
    id: String,
    events: Rc<RefCell<Vec<String>>>,
}

impl ProgressObserver for TestProgressObserver {
    fn on_task_started(&self, url: &str, task_type: &str) {
        self.events.borrow_mut().push(format!("started:{}:{}", task_type, url));
    }

    fn on_task_progress(&self, url: &str, task_type: &str, percent: u32) {
        self.events.borrow_mut().push(format!("progress:{}:{}:{}", task_type, url, percent));
    }

    fn on_task_completed(&self, url: &str, task_type: &str) {
        self.events.borrow_mut().push(format!("completed:{}:{}", task_type, url));
    }

    fn on_task_failed(&self, url: &str, task_type: &str, error: &FirecrawlError) {
        self.events.borrow_mut().push(format!(
            "failed:{}:{}:{}",
            task_type,
            url,
            error.error_code()
        ));
    }

    fn observer_id(&self) -> String {
        self.id.clone()
    }
}

fn warm_cache_service() -> TaskService<MockApiService, MemoryRepository, TestProgressObserver> {
    let cache = MemoryCacheService::new(CacheConfig {
        enabled: true,
        directory: "./cache".to_string(),
        ttl_millis: 0,
        max_size_mb: 100,
    });
    TaskService::new(
        MockApiService::new(),
        DefaultProgressService::new(),
        Some(cache),
        MemoryRepository,
        AppConfig::default(),
    )
}

#[test]
fn test_progress_service() {
    let events = Rc::new(RefCell::new(Vec::new()));
    let observer = TestProgressObserver { id: "test-observer".to_string(), events: events.clone() };

    let mut service = DefaultProgressService::new();
    service.register_observer(observer);

    service.notify_task_started("https://example.com", "scrape");
    service.notify_task_progress("https://example.com", "scrape", 50);
    service.notify_task_completed("https://example.com", "scrape");

    let seen = events.borrow();
    assert_eq!(seen.len(), 3);
    assert_eq!(seen[0], "started:scrape:https://example.com");
    assert_eq!(seen[1], "progress:scrape:https://example.com:50");
    assert_eq!(seen[2], "completed:scrape:https://example.com");
}

#[test]
fn test_statistics() {
    let mut service: DefaultProgressService<TestProgressObserver> = DefaultProgressService::new();

    service.notify_task_started("https://example1.com", "scrape");
    service.notify_task_started("https://example2.com", "crawl");
    service.notify_task_completed("https://example1.com", "scrape");
    service.notify_task_failed(
        "https://example2.com",
        "crawl",
        &FirecrawlError::ValidationError("test error".to_string()),
    );

    let stats = service.get_statistics();
    assert_eq!(stats.total_tasks, 2);
    assert_eq!(stats.completed_tasks, 1);
    assert_eq!(stats.failed_tasks, 1);
    assert_eq!(stats.scrape_tasks, 1);
    assert_eq!(stats.crawl_tasks, 1);
    assert_eq!(stats.success_rate(), 50);
}

#[test]
fn test_observer_replacement_and_removal() {
    let events = Rc::new(RefCell::new(Vec::new()));
    let first = TestProgressObserver { id: "o".to_string(), events: events.clone() };
    let second = TestProgressObserver { id: "o".to_string(), events: events.clone() };

    let mut service = DefaultProgressService::new();
    service.register_observer(first);
    service.register_observer(second);
    service.notify_task_completed("https://example.com", "scrape");
    // The same identifier registered twice keeps one observer.
    assert_eq!(events.borrow().len(), 1);

    service.unregister_observer("o");
    service.notify_task_completed("https://example.com", "scrape");
    assert_eq!(events.borrow().len(), 1);
}

#[test]
fn test_warm_cache_performs_one_remote_call() {
    // Running the same single-page task twice against a warm cache: the
    // second run is a cache hit and the remote call counter stays at one.
    let mut service = warm_cache_service();

    let first = service
        .execute_scrape("https://example.com".to_string(), None, OutputFormat::Markdown, 1000)
        .unwrap();
    assert!(matches!(first, CommandResult::Scrape { .. }));
    assert_eq!(service.api_service().scrape_calls, 1);

    let second = service
        .execute_scrape("https://example.com".to_string(), None, OutputFormat::Markdown, 2000)
        .unwrap();
    match second {
        CommandResult::Scrape { url, .. } => assert_eq!(url, "https://example.com"),
        other => panic!("expected a scrape result, got {:?}", other),
    }
    assert_eq!(service.api_service().scrape_calls, 1);
    assert!(service.is_cached("https://example.com", &OutputFormat::Markdown, 2000));
}

#[test]
fn test_batch_of_two_tasks_completes_with_statistics() {
    // One single-page task and one multi-page task: two outcomes, both
    // completed, and the statistics record two started and completed tasks.
    let mut service = warm_cache_service();

    let tasks = vec![
        TaskDefinition::Scrape {
            url: "https://example.com".to_string(),
            options: None,
            format: OutputFormat::Markdown,
        },
        TaskDefinition::Crawl {
            url: "https://example.org".to_string(),
            options: Some(CrawlOptions {
                limit: Some(3),
                formats: None,
                only_main_content: None,
            }),
            format: OutputFormat::Markdown,
        },
    ];

    let outcomes = service.execute_batch(tasks);
    assert_eq!(outcomes.len(), 2);
    assert!(outcomes.iter().all(|o| o.is_completed()));

    let stats = service.get_statistics();
    assert_eq!(stats.total_tasks, 2);
    assert_eq!(stats.completed_tasks, 2);
    assert_eq!(stats.failed_tasks, 0);
}

#[test]
fn test_execute_crawl_updates_cache_and_statistics() {
    let mut service = warm_cache_service();
    let result = service
        .execute_crawl("https://example.org".to_string(), None, OutputFormat::Markdown, 10)
        .unwrap();
    assert!(matches!(result, CommandResult::Crawl { .. }));
    assert_eq!(service.api_service().crawl_calls, 1);

    // A second run hits the cache: no further crawl is started.
    let again = service
        .execute_crawl("https://example.org".to_string(), None, OutputFormat::Markdown, 20)
        .unwrap();
    assert!(matches!(again, CommandResult::Crawl { .. }));
    assert_eq!(service.api_service().crawl_calls, 1);

    let stats = service.get_statistics();
    assert_eq!(stats.total_tasks, 1);
    assert_eq!(stats.crawl_tasks, 1);
    assert_eq!(stats.completed_tasks, 1);
}

#[test]
fn test_clear_cache_empties_the_cache() {
    let mut service = warm_cache_service();
    service
        .execute_scrape("https://example.com".to_string(), None, OutputFormat::Markdown, 1)
        .unwrap();
    assert!(service.is_cached("https://example.com", &OutputFormat::Markdown, 2));

    service.clear_cache().unwrap();
    assert!(!service.is_cached("https://example.com", &OutputFormat::Markdown, 3));
}

#[test]
fn test_builder_names_first_missing_collaborator() {
    let builder: TaskServiceBuilder<MockApiService, MemoryRepository, TestProgressObserver> =
        TaskServiceBuilder::new();
    match builder.build() {
        Err(FirecrawlError::ConfigurationError(m)) => {
            assert_eq!(m, "ApiService is required");
        }
        _ => panic!("expected a configuration error"),
    }

    let builder: TaskServiceBuilder<MockApiService, MemoryRepository, TestProgressObserver> =
        TaskServiceBuilder::new().with_api_service(MockApiService::new());
    match builder.build() {
        Err(FirecrawlError::ConfigurationError(m)) => {
            assert_eq!(m, "ProgressService is required");
        }
        _ => panic!("expected a configuration error"),
    }

    let service = TaskServiceBuilder::new()
        .with_api_service(MockApiService::new())
        .with_progress_service(DefaultProgressService::<TestProgressObserver>::new())
        .with_cache_service(None)
        .with_repository(MemoryRepository)
        .with_config(AppConfig::default())
        .build();
    assert!(service.is_ok());
}
