//! The remote-service boundary: the contract the core depends on, a health
//! snapshot type, and a scriptable in-memory service for deterministic runs.

use vstd::prelude::*;

use crate::crawl_model::{CrawlRequest, CrawlStartResponse, CrawlStatusResponse};
use crate::errors::{FirecrawlError, FirecrawlResult};
use crate::scrape_model::{Metadata, ScrapeData, ScrapeRequest, ScrapeResponse};

verus! {

/// Contract of the remote content-extraction service. Implementations issue
/// the actual requests; the core only depends on these four operations and
/// is verified for every outcome they can produce.
pub trait ApiService {
    /// Scrapes a single URL.
    fn scrape_url(&mut self, request: &ScrapeRequest) -> FirecrawlResult<ScrapeResponse>;

    /// Starts a crawl job; returns the job handle.
    fn crawl_url(&mut self, request: &CrawlRequest) -> FirecrawlResult<CrawlStartResponse>;

    /// Polls the status of a crawl job.
    fn poll_status(&mut self, job_id: &str) -> FirecrawlResult<CrawlStatusResponse>;

    /// Suspends between two status polls; the fixed interval lives here.
    fn wait_before_repoll(&mut self);
}

/// Point-in-time health snapshot of the remote service. Times are in
/// milliseconds.
#[derive(Debug, Clone)]
pub struct ApiStatus {
    pub is_healthy: bool,
    pub rate_limit_remaining: Option<u32>,
    pub rate_limit_reset_millis: Option<u64>,
    pub response_time_millis: u64,
}

/// Progress of a running crawl job.
#[derive(Debug, Clone)]
pub struct CrawlProgress {
    pub completed: u32,
    pub total: u32,
    pub current_url: Option<String>,
    pub status: String,
}

/// Scriptable in-memory service: it answers every request locally, counts
/// the calls it receives, and plays back a prepared list of poll responses.
pub struct MockApiService {
    /// Poll responses handed out in order; when exhausted, every further
    /// poll reports a completed job with no pages.
    pub poll_script: Vec<CrawlStatusResponse>,
    /// How many scrape requests were received.
    pub scrape_calls: u64,
    /// How many crawl-start requests were received.
    pub crawl_calls: u64,
    /// How many status polls were received.
    pub poll_calls: u64,
}

impl MockApiService {
    /// A service with an empty script: every poll reports completion.
    pub fn new() -> (r: Self)
        ensures
            r.poll_script@.len() == 0,
            r.scrape_calls == 0,
            r.crawl_calls == 0,
            r.poll_calls == 0,
    {
        MockApiService { poll_script: Vec::new(), scrape_calls: 0, crawl_calls: 0, poll_calls: 0 }
    }

    /// A service that plays back the given poll responses in order.
    pub fn with_poll_script(poll_script: Vec<CrawlStatusResponse>) -> (r: Self)
        ensures
            r.poll_script == poll_script,
            r.scrape_calls == 0,
            r.crawl_calls == 0,
            r.poll_calls == 0,
    {
        MockApiService { poll_script, scrape_calls: 0, crawl_calls: 0, poll_calls: 0 }
    }
}

impl ApiService for MockApiService {
    fn scrape_url(&mut self, request: &ScrapeRequest) -> FirecrawlResult<ScrapeResponse> {
        if self.scrape_calls < u64::MAX {
            self.scrape_calls = self.scrape_calls + 1;
        }
        Ok(
            ScrapeResponse {
                success: true,
                data: Some(
                    ScrapeData {
                        url: Some(request.url.clone()),
                        markdown: Some(String::from_str("# Mock Content")),
                        html: Some(String::from_str("<h1>Mock Content</h1>")),
                        raw_html: None,
                        images: None,
                        screenshot: None,
                        links: None,
                        warning: None,
                        metadata: Metadata {
                            title: Some(String::from_str("Mock Title")),
                            description: Some(String::from_str("Mock Description")),
                            language: Some(String::from_str("en")),
                            source_url: Some(request.url.clone()),
                        },
                    },
                ),
                error: None,
            },
        )
    }

    fn crawl_url(&mut self, request: &CrawlRequest) -> FirecrawlResult<CrawlStartResponse> {
        if self.crawl_calls < u64::MAX {
            self.crawl_calls = self.crawl_calls + 1;
        }
        Ok(CrawlStartResponse { job_id: String::from_str("mock-crawl-id") })
    }

    fn poll_status(&mut self, job_id: &str) -> FirecrawlResult<CrawlStatusResponse> {
        if self.poll_calls < u64::MAX {
            self.poll_calls = self.poll_calls + 1;
        }
        if self.poll_script.len() > 0 {
            Ok(self.poll_script.remove(0))
        } else {
            Ok(
                CrawlStatusResponse {
                    status: String::from_str("completed"),
                    completed: None,
                    total: None,
                    data: Some(Vec::new()),
                    error: None,
                },
            )
        }
    }

    fn wait_before_repoll(&mut self) {
    }
}

} // verus!
