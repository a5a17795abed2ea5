use firecrawl_cli::api_service::ApiService;
use firecrawl_cli::cli::{OutputFormat, ScrapeOptions};
use firecrawl_cli::crawl_command::{CrawlCommand, CrawlCommandBuilder};
use firecrawl_cli::crawl_model::{CrawlRequest, CrawlResponse, CrawlStartResponse, CrawlStatusResponse};
use firecrawl_cli::errors::{ApiError, FirecrawlError, FirecrawlResult};
use firecrawl_cli::scrape_command::{ScrapeCommand, ScrapeCommandBuilder};
use firecrawl_cli::scrape_model::{ScrapeRequest, ScrapeResponse};
use firecrawl_cli::storage::{ContentRepository, StorageError};
use firecrawl_cli::tui::{App, Mode, Operation};

/// Service whose responses are marked unsuccessful.
struct UnsuccessfulApiService;

impl ApiService for UnsuccessfulApiService {
    fn scrape_url(&mut self, _request: &ScrapeRequest) -> FirecrawlResult<ScrapeResponse> {
        Ok(ScrapeResponse { success: false, data: None, error: Some("nope".to_string()) })
    }

    fn crawl_url(&mut self, _request: &CrawlRequest) -> FirecrawlResult<CrawlStartResponse> {
        Ok(CrawlStartResponse { job_id: "j".to_string() })
    }

    fn poll_status(&mut self, _job_id: &str) -> FirecrawlResult<CrawlStatusResponse> {
        Ok(CrawlStatusResponse {
            status: "failed".to_string(),
            completed: None,
            total: None,
            data: None,
            error: Some("remote trouble".to_string()),
        })
    }

    fn wait_before_repoll(&mut self) {}
}

struct CountingRepository {
    saves: usize,
}

impl ContentRepository for CountingRepository {
    fn save_scrape_result(
        &mut self,
        _result: &ScrapeResponse,
        _url: &str,
        _format: OutputFormat,
        output_dir: &str,
    ) -> Result<String, StorageError> {
        self.saves += 1;
        Ok(format!("{}/saved.md", output_dir))
    }

    fn save_crawl_results(
        &mut self,
        _results: &Vec<CrawlResponse>,
        _url: &str,
        _format: OutputFormat,
        _output_dir: &str,
    ) -> Result<Vec<String>, StorageError> {
        self.saves += 1;
        Ok(vec![])
    }
}

#[test]
fn test_scrape_command_builder_requires_url() {
    let missing = ScrapeCommandBuilder::new().build();
    match missing {
        Err(FirecrawlError::ValidationError(m)) => assert_eq!(m, "URL is required"),
        other => panic!("expected a validation error, got {:?}", other),
    }

    let built = ScrapeCommand::builder()
        .url("https://example.com".to_string())
        .output_format(OutputFormat::Html)
        .build()
        .unwrap();
    assert_eq!(built.url(), "https://example.com");
    assert_eq!(built.output_format(), OutputFormat::Html);
}

#[test]
fn test_crawl_command_builder_requires_url() {
    let missing = CrawlCommandBuilder::new().build();
    assert!(matches!(missing, Err(FirecrawlError::ValidationError(_))));

    let built = CrawlCommand::builder().url("https://example.org".to_string()).build().unwrap();
    assert_eq!(built.url(), "https://example.org");
}

#[test]
fn test_command_descriptions() {
    let scrape = ScrapeCommand::new("https://example.com".to_string(), None, OutputFormat::Markdown);
    assert_eq!(scrape.description(), "Scrape https://example.com as markdown");

    let crawl = CrawlCommand::new("https://example.org".to_string(), None, OutputFormat::Json);
    assert_eq!(crawl.description(), "Crawl https://example.org as json");
}

#[test]
fn test_scrape_command_builds_its_request() {
    let options = ScrapeOptions {
        only_main_content: Some(true),
        include_tags: Some(vec!["article".to_string()]),
        exclude_tags: None,
        formats: None,
    };
    let command = ScrapeCommand::new(
        "https://example.com".to_string(),
        Some(options),
        OutputFormat::Html,
    );
    let request = command.build_request();
    assert_eq!(request.url, "https://example.com");
    assert_eq!(request.formats, vec![OutputFormat::Html]);
    assert_eq!(request.only_main_content, Some(true));
    assert_eq!(request.include_tags, Some(vec!["article".to_string()]));
    assert_eq!(request.exclude_tags, None);
}

#[test]
fn test_scrape_request_builder_sets_fields() {
    let request: ScrapeRequest = ScrapeRequest::builder()
        .url("https://example.com".to_string())
        .formats(vec![OutputFormat::Markdown, OutputFormat::RawHtml])
        .only_main_content(true)
        .timeout(45)
        .build();
    assert_eq!(request.url, "https://example.com");
    assert_eq!(request.formats.len(), 2);
    assert_eq!(request.only_main_content, Some(true));
    assert_eq!(request.timeout, Some(45));
    assert_eq!(request.mobile, None);
}

#[test]
fn test_output_format_labels() {
    assert_eq!(OutputFormat::Markdown.label(), "markdown");
    assert_eq!(OutputFormat::RawHtml.label(), "rawHtml");
    assert_eq!(OutputFormat::Raw.file_extension(), "txt");
    assert_eq!(OutputFormat::Links.file_extension(), "json");
    assert_eq!(OutputFormat::default(), OutputFormat::Markdown);
}

#[test]
fn test_app_board_and_selection() {
    let mut app = App::new();
    assert_eq!(app.mode, Mode::Normal);
    assert!(app.tasks.is_empty());

    app.add_scrape_task("https://example.com".to_string());
    app.add_crawl_task("https://example.org".to_string());
    assert_eq!(app.tasks.len(), 2);
    assert_eq!(app.tasks[0].id, 0);
    assert_eq!(app.tasks[1].id, 1);
    assert!(matches!(app.tasks[1].operation, Operation::Crawl));

    app.select_next_task();
    assert_eq!(app.selected_task, 1);
    app.select_next_task();
    assert_eq!(app.selected_task, 0);
    app.select_previous_task();
    assert_eq!(app.selected_task, 1);
}

#[test]
fn test_app_input_editing_submits_trimmed_url() {
    let mut app = App::new();
    app.mode = Mode::Input;
    for c in " https://example.com  ".chars() {
        app.handle_input_char(c);
    }
    app.handle_input_char('\u{8}');
    app.handle_input_char(' ');
    app.handle_input_char('\n');

    assert_eq!(app.tasks.len(), 1);
    assert_eq!(app.tasks[0].url, "https://example.com");
    assert_eq!(app.mode, Mode::Normal);
    assert!(app.input.is_empty());

    // A blank submission changes nothing.
    app.mode = Mode::Input;
    app.handle_input_char(' ');
    app.handle_input_char('\n');
    assert_eq!(app.tasks.len(), 1);
    assert_eq!(app.mode, Mode::Input);
}

#[test]
fn test_scrape_command_rejects_unsuccessful_response() {
    let command = ScrapeCommand::new("https://example.com".to_string(), None, OutputFormat::Markdown);
    let mut api = UnsuccessfulApiService;
    let mut repository = CountingRepository { saves: 0 };
    match command.execute(&mut api, &mut repository, "./out") {
        Err(FirecrawlError::ApiError(ApiError::InvalidResponse(m))) => {
            assert_eq!(m, "API request failed");
        }
        other => panic!("expected an invalid-response error, got {:?}", other),
    }
    // Nothing was persisted for the unsuccessful response.
    assert_eq!(repository.saves, 0);
}

#[test]
fn test_crawl_command_surfaces_remote_failure() {
    let command = CrawlCommand::new("https://example.org".to_string(), None, OutputFormat::Markdown);
    let mut api = UnsuccessfulApiService;
    let mut repository = CountingRepository { saves: 0 };
    match command.execute(&mut api, &mut repository, "./out") {
        Err(FirecrawlError::ApiError(ApiError::Other(m))) => {
            assert_eq!(m, "Crawl failed: remote trouble");
        }
        other => panic!("expected the remote failure to surface, got {:?}", other),
    }
    assert_eq!(repository.saves, 0);
}
