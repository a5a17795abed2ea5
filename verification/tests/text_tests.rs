use firecrawl_cli::cli::OutputFormat;
use firecrawl_cli::client::{retry_decision, AttemptOutcome, FirecrawlClient, RetryAction};
use firecrawl_cli::crawl_model::CrawlMetadata;
use firecrawl_cli::errors::{ApiError, ContextualError, ErrorContext, FirecrawlError, NetworkError};
use firecrawl_cli::naming::filename_for;
use firecrawl_cli::savers::{HtmlSaver, JsonSaver, MarkdownSaver, RawSaver};
use firecrawl_cli::scrape_model::{Metadata, ScrapeData, ScrapeResponse};
use firecrawl_cli::storage::{FileSystemRepository, StorageError};
use firecrawl_cli::text::{parse_u64, to_lowercase, trim_spaces, u64_to_string};
use firecrawl_cli::utils::{document_filename, render_with_frontmatter};

#[test]
fn test_parse_u64_accepts_numerals_only() {
    assert_eq!(parse_u64("0"), Some(0));
    assert_eq!(parse_u64("18446744073709551615"), Some(u64::MAX));
    assert_eq!(parse_u64("18446744073709551616"), None);
    assert_eq!(parse_u64(""), None);
    assert_eq!(parse_u64("12a"), None);
    assert_eq!(parse_u64("-1"), None);
    assert_eq!(parse_u64("042"), Some(42));
}

#[test]
fn test_u64_to_string_prints_decimals() {
    assert_eq!(u64_to_string(0), "0");
    assert_eq!(u64_to_string(7), "7");
    assert_eq!(u64_to_string(1203), "1203");
    assert_eq!(u64_to_string(u64::MAX), "18446744073709551615");
}

#[test]
fn test_to_lowercase_folds_ascii() {
    assert_eq!(to_lowercase("MarkDown"), "markdown");
    assert_eq!(to_lowercase("ABC-123"), "abc-123");
    assert_eq!(to_lowercase(""), "");
}

#[test]
fn test_trim_spaces() {
    assert_eq!(trim_spaces("  hello \t"), "hello");
    assert_eq!(trim_spaces("\n\r "), "");
    assert_eq!(trim_spaces("word"), "word");
    assert_eq!(trim_spaces(" a b "), "a b");
}

#[test]
fn test_filename_generation_slugs_the_url() {
    // Would fail if the slug engine handed its argument back unchanged:
    // the URL's punctuation must become dashes.
    let repository = FileSystemRepository::new("/tmp".to_string());
    let filename = repository.generate_filename("https://example.com/test", OutputFormat::Markdown);
    assert_eq!(filename, "https-example-com-test.md");

    let indexed = filename_for("https://example.com", Some(1), OutputFormat::Markdown);
    assert_eq!(indexed, "https-example-com-1.md");
}

#[test]
fn test_document_filename_prefers_the_title() {
    assert_eq!(
        document_filename("https://example.com", Some("My Great Page"), "md"),
        "my-great-page.md"
    );
    assert_eq!(document_filename("https://example.com", None, "json"), "https-example-com.json");
}

#[test]
fn test_render_with_frontmatter() {
    let rendered = render_with_frontmatter("https://example.com", "# Body");
    assert_eq!(rendered, "---\nurl: https://example.com\n---\n\n# Body");
}

#[test]
fn test_error_codes_and_retryability() {
    let validation = FirecrawlError::ValidationError("bad".to_string());
    assert_eq!(validation.error_code(), "VALIDATION_ERROR");
    assert!(!validation.is_retryable());
    assert_eq!(validation.user_message(), "Invalid input: bad");

    let network =
        FirecrawlError::NetworkError(NetworkError::ConnectionFailed("down".to_string()));
    assert_eq!(network.error_code(), "NETWORK_ERROR");
    assert!(network.is_retryable());

    let rate = FirecrawlError::ApiError(ApiError::RateLimitExceeded);
    assert_eq!(rate.error_code(), "API_ERROR");
    assert!(rate.is_retryable());

    // Rate limiting is retryable whichever shape it arrives in.
    let rate_limited = FirecrawlError::RateLimitError("slow down".to_string());
    assert_eq!(rate_limited.error_code(), "RATE_LIMIT_ERROR");
    assert!(rate_limited.is_retryable());

    let storage = FirecrawlError::StorageError(StorageError::FileNotFound("f".to_string()));
    assert_eq!(storage.error_code(), "STORAGE_ERROR");
    assert!(!storage.is_retryable());
    assert_eq!(storage.message(), "Storage error: File not found: f");

    let failure = FirecrawlError::ApiError(ApiError::ApiFailure {
        status: 503,
        message: "unavailable".to_string(),
    });
    assert_eq!(failure.message(), "API error: API request failed with status 503: unavailable");
}

#[test]
fn test_client_normalizes_base_url() {
    let client = FirecrawlClient::new("https://api.example.com///", Some("k")).unwrap();
    assert_eq!(client.base_url(), "https://api.example.com");
    assert_eq!(client.endpoint_url("/scrape"), "https://api.example.com/scrape");
    assert_eq!(client.auth_header_value(), Some("Bearer k".to_string()));
}

#[test]
fn test_retry_decision_rules() {
    // Success and client errors are accepted outright.
    assert_eq!(retry_decision(0, 3, &AttemptOutcome::Delivered { status: 200 }), RetryAction::Accept);
    assert_eq!(retry_decision(3, 3, &AttemptOutcome::Delivered { status: 404 }), RetryAction::Accept);
    // Server errors and transport failures retry while attempts remain.
    assert_eq!(
        retry_decision(0, 3, &AttemptOutcome::Delivered { status: 500 }),
        RetryAction::RetryAfterDelay
    );
    assert_eq!(
        retry_decision(3, 3, &AttemptOutcome::Delivered { status: 500 }),
        RetryAction::GiveUp
    );
    assert_eq!(
        retry_decision(1, 3, &AttemptOutcome::TransportFailure { message: "x".to_string() }),
        RetryAction::RetryAfterDelay
    );
}

fn sample_response(markdown: Option<&str>, html: Option<&str>) -> ScrapeResponse {
    ScrapeResponse {
        success: true,
        data: Some(ScrapeData {
            url: Some("https://example.com".to_string()),
            markdown: markdown.map(|m| m.to_string()),
            html: html.map(|h| h.to_string()),
            raw_html: None,
            images: None,
            screenshot: None,
            links: None,
            warning: None,
            metadata: Metadata {
                title: Some("A Title".to_string()),
                description: None,
                language: None,
                source_url: None,
            },
        }),
        error: None,
    }
}

#[test]
fn test_markdown_saver_renders_exactly() {
    let saver = MarkdownSaver;
    let response = sample_response(Some("body text"), None);
    let rendered = saver.render_scrape_result(&response, "https://example.com", "2001-01-01");
    assert_eq!(
        rendered,
        "# A Title\n\n**Source:** https://example.com\n\n**Timestamp:** 2001-01-01\n\n---\n\nbody text"
    );
    assert_eq!(saver.file_extension(), "md");
    assert_eq!(saver.generate_filename("https://example.com", None), "https-example-com.md");
}

#[test]
fn test_html_saver_content_selection() {
    let saver = HtmlSaver;
    let with_html = sample_response(None, Some("<p>hi</p>"));
    assert_eq!(saver.scrape_content(&with_html).unwrap(), "<p>hi</p>");

    let without = sample_response(None, None);
    match saver.scrape_content(&without) {
        Err(StorageError::UnsupportedContentType(m)) => {
            assert_eq!(m, "HTML content not available");
        }
        other => panic!("expected an unsupported-content error, got {:?}", other),
    }

    let no_data = ScrapeResponse { success: false, data: None, error: None };
    match saver.scrape_content(&no_data) {
        Err(StorageError::UnsupportedContentType(m)) => {
            assert_eq!(m, "Scrape data not available");
        }
        other => panic!("expected an unsupported-content error, got {:?}", other),
    }
}

#[test]
fn test_raw_saver_prefers_markdown() {
    let saver = RawSaver;
    let both = sample_response(Some("md body"), Some("<p>html</p>"));
    assert_eq!(saver.scrape_content(&both).unwrap(), "md body");

    let neither = sample_response(None, None);
    assert_eq!(saver.scrape_content(&neither).unwrap(), "No content available");
}

#[test]
fn test_json_saver_filenames() {
    let saver = JsonSaver;
    assert_eq!(saver.file_extension(), "json");
    assert_eq!(saver.crawl_results_filename("20010101_120000"), "crawl_results_20010101_120000.json");
}

#[test]
fn test_markdown_saver_renders_crawl_page() {
    let saver = MarkdownSaver;
    let page = firecrawl_cli::crawl_model::CrawlResponse {
        id: "crawl-result-0".to_string(),
        url: "https://example.org/a".to_string(),
        status: "completed".to_string(),
        completed_at: Some(5),
        markdown: Some("page body".to_string()),
        html: None,
        metadata: CrawlMetadata {
            title: Some("Page".to_string()),
            description: None,
            language: None,
            keywords: None,
            robots: None,
            og_image: None,
            page_title: None,
            author: None,
            published_date: None,
            modified_date: None,
            site_name: None,
        },
    };
    let rendered = saver.render_crawl_result(&page, "https://example.org", "t0");
    assert_eq!(
        rendered,
        "# Page\n\n**Source:** https://example.org/a\n\n**Crawl from:** https://example.org\n\n**Timestamp:** t0\n\n---\n\npage body"
    );
}

#[test]
fn test_scrape_data_summary() {
    let response = sample_response(Some("body"), Some("<p>b</p>"));
    let data = response.data.unwrap();
    assert_eq!(
        data.summary(),
        "Scrape Data:\n  URL: https://example.com\n  Available formats: Markdown, HTML\n"
    );

    let bare = ScrapeData {
        url: None,
        markdown: None,
        html: None,
        raw_html: None,
        images: None,
        screenshot: None,
        links: Some(vec!["https://example.com/a".to_string()]),
        warning: Some("partial".to_string()),
        metadata: Metadata { title: None, description: None, language: None, source_url: None },
    };
    assert_eq!(
        bare.summary(),
        "Scrape Data:\n  Available formats: Links\n  Links found: 1\n  Warning: partial\n"
    );
}

#[test]
fn test_error_context_carries_details() {
    let context = ErrorContext::new("scrape", "client")
        .with_url("https://example.com")
        .with_info("attempt", "2");
    assert_eq!(context.operation, "scrape");
    assert_eq!(context.component, "client");
    assert_eq!(context.url, Some("https://example.com".to_string()));
    assert_eq!(context.additional_info, vec![("attempt".to_string(), "2".to_string())]);

    let wrapped = ContextualError::with_context(
        FirecrawlError::ValidationError("bad".to_string()),
        "scrape",
        "client",
    );
    assert!(matches!(wrapped.error, FirecrawlError::ValidationError(_)));
    assert_eq!(wrapped.context.operation, "scrape");
}
