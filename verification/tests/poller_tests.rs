use firecrawl_cli::api_service::{ApiService, MockApiService};
use firecrawl_cli::crawl_model::{CrawlRequest, CrawlStartResponse};
use firecrawl_cli::errors::{FirecrawlResult, NetworkError};
use firecrawl_cli::scrape_model::ScrapeResponse;
use firecrawl_cli::crawl_model::{CrawlState, CrawlStatusResponse};
use firecrawl_cli::errors::{ApiError, FirecrawlError};
use firecrawl_cli::crawl_command::crawl_responses_from_data;
use firecrawl_cli::poller::{CrawlProgressLog, JobPoller};
use firecrawl_cli::scrape_model::{Metadata, ScrapeData, ScrapeRequest};

fn page(url: &str, markdown: &str) -> ScrapeData {
    ScrapeData {
        url: Some(url.to_string()),
        markdown: Some(markdown.to_string()),
        html: None,
        raw_html: None,
        images: None,
        screenshot: None,
        links: None,
        warning: None,
        metadata: Metadata {
            title: Some("A page".to_string()),
            description: None,
            language: None,
            source_url: None,
        },
    }
}

fn in_progress(completed: u32, total: u32) -> CrawlStatusResponse {
    CrawlStatusResponse {
        status: "scraping".to_string(),
        completed: Some(completed),
        total: Some(total),
        data: None,
        error: None,
    }
}

fn completed_with(pages: Vec<ScrapeData>) -> CrawlStatusResponse {
    CrawlStatusResponse {
        status: "completed".to_string(),
        completed: None,
        total: None,
        data: Some(pages),
        error: None,
    }
}

fn failed_with(reason: &str) -> CrawlStatusResponse {
    CrawlStatusResponse {
        status: "failed".to_string(),
        completed: None,
        total: None,
        data: None,
        error: Some(reason.to_string()),
    }
}

#[test]
fn test_poller_reports_progress_then_returns_results() {
    // Scripted service: in progress twice, then completed with one page.
    let script = vec![
        in_progress(1, 3),
        in_progress(2, 3),
        completed_with(vec![page("https://example.org/a", "# a")]),
    ];
    let mut api = MockApiService::with_poll_script(script);
    let mut log = CrawlProgressLog::new();

    let result = JobPoller::monitor_crawl_job(&mut api, "job-1", &mut log).unwrap();
    assert_eq!(result.len(), 1);
    assert_eq!(result[0].url, Some("https://example.org/a".to_string()));

    // The observer heard exactly one event per non-terminal poll, with
    // non-decreasing pairs.
    assert_eq!(log.events.len(), 2);
    assert_eq!((log.events[0].completed, log.events[0].total), (1, 3));
    assert_eq!((log.events[1].completed, log.events[1].total), (2, 3));
    assert!(log.events[0].completed <= log.events[1].completed);
    assert!(log.events[0].total <= log.events[1].total);
    assert_eq!(api.poll_calls, 3);
}

#[test]
fn test_poller_surfaces_failure_reason() {
    let mut api = MockApiService::with_poll_script(vec![failed_with("x")]);
    let mut log = CrawlProgressLog::new();

    let result = JobPoller::monitor_crawl_job(&mut api, "job-2", &mut log);
    match result {
        Err(FirecrawlError::ApiError(ApiError::Other(message))) => {
            assert!(message.contains("x"));
            assert_eq!(message, "Crawl failed: x");
        }
        other => panic!("expected the failure reason to surface, got {:?}", other),
    }
    assert!(log.events.is_empty());
}

#[test]
fn test_classify_status_maps_the_three_cases() {
    let done = JobPoller::classify_status("j", completed_with(vec![]));
    assert!(matches!(done, CrawlState::Completed { .. }));

    let failed = JobPoller::classify_status("j", failed_with("boom"));
    match failed {
        CrawlState::Failed { job_id, error } => {
            assert_eq!(job_id, "j");
            assert_eq!(error, "boom");
        }
        other => panic!("expected a failed state, got {:?}", other),
    }

    let running = JobPoller::classify_status("j", in_progress(2, 5));
    match running {
        CrawlState::InProgress { completed, total, status, .. } => {
            assert_eq!(completed, 2);
            assert_eq!(total, 5);
            assert_eq!(status, "scraping");
        }
        other => panic!("expected an in-progress state, got {:?}", other),
    }
}

#[test]
fn test_classify_status_fills_missing_fields() {
    let response = CrawlStatusResponse {
        status: "queued".to_string(),
        completed: None,
        total: None,
        data: None,
        error: None,
    };
    match JobPoller::classify_status("j", response) {
        CrawlState::InProgress { completed, total, .. } => {
            assert_eq!(completed, 0);
            assert_eq!(total, 0);
        }
        other => panic!("expected an in-progress state, got {:?}", other),
    }

    let failed = CrawlStatusResponse {
        status: "failed".to_string(),
        completed: None,
        total: None,
        data: None,
        error: None,
    };
    match JobPoller::classify_status("j", failed) {
        CrawlState::Failed { error, .. } => assert_eq!(error, "Unknown error"),
        other => panic!("expected a failed state, got {:?}", other),
    }
}

#[test]
fn test_crawl_responses_from_data_numbers_pages() {
    let data = vec![page("https://example.org/a", "# a"), page("https://example.org/b", "# b")];
    let responses = crawl_responses_from_data(data, 777);
    assert_eq!(responses.len(), 2);
    assert_eq!(responses[0].id, "crawl-result-0");
    assert_eq!(responses[1].id, "crawl-result-1");
    assert_eq!(responses[0].url, "https://example.org/a");
    assert_eq!(responses[1].url, "https://example.org/b");
    assert_eq!(responses[0].status, "completed");
    assert_eq!(responses[0].completed_at, Some(777));
    assert_eq!(responses[0].markdown, Some("# a".to_string()));
    assert_eq!(responses[0].metadata.title, Some("A page".to_string()));
    assert_eq!(responses[0].metadata.page_title, Some("A page".to_string()));
}

#[test]
fn test_mock_api_service() {
    let mut service = MockApiService::new();

    let mut request = ScrapeRequest::default();
    request.url = "https://example.com".to_string();
    let result = service.scrape_url(&request).unwrap();
    assert!(result.success);
    assert_eq!(service.scrape_calls, 1);

    let status = service.poll_status("any-job").unwrap();
    assert_eq!(status.status, "completed");
}

/// Service whose polling transport always fails.
struct BrokenPollService;

impl ApiService for BrokenPollService {
    fn scrape_url(&mut self, _request: &ScrapeRequest) -> FirecrawlResult<ScrapeResponse> {
        Err(FirecrawlError::NetworkError(NetworkError::ConnectionFailed("down".to_string())))
    }

    fn crawl_url(&mut self, _request: &CrawlRequest) -> FirecrawlResult<CrawlStartResponse> {
        Ok(CrawlStartResponse { job_id: "j".to_string() })
    }

    fn poll_status(&mut self, _job_id: &str) -> FirecrawlResult<CrawlStatusResponse> {
        Err(FirecrawlError::NetworkError(NetworkError::ConnectionFailed("down".to_string())))
    }

    fn wait_before_repoll(&mut self) {}
}

#[test]
fn test_poll_transport_failure_is_kept_apart_from_job_failure() {
    let mut api = BrokenPollService;
    let mut log = CrawlProgressLog::new();
    match JobPoller::monitor_crawl_job(&mut api, "job-3", &mut log) {
        Err(FirecrawlError::ApiError(ApiError::RequestError(m))) => {
            assert_eq!(m, "Poll failed: Network error: Connection failed: down");
        }
        other => panic!("expected a poll-failure request error, got {:?}", other),
    }
    assert!(log.events.is_empty());
}
