//! Request and response models for multi-page crawl jobs.

use vstd::prelude::*;

use crate::cli::OutputFormat;
use crate::scrape_model::ScrapeData;

verus! {

/// Main crawl request structure.
#[derive(Debug, Clone)]
pub struct CrawlRequest {
    pub url: String,
    pub limit: Option<u32>,
    pub formats: Option<Vec<OutputFormat>>,
    pub only_main_content: Option<bool>,
}

impl Default for CrawlRequest {
    fn default() -> (r: Self)
        ensures
            r.url@.len() == 0,
            r.limit is None,
            r.formats is None,
            r.only_main_content is None,
    {
        CrawlRequest { url: String::new(), limit: None, formats: None, only_main_content: None }
    }
}

/// Response received when starting a new crawl job.
#[derive(Debug, Clone)]
pub struct CrawlStartResponse {
    pub job_id: String,
}

/// Crawl response structure for one crawled page.
///
/// Timestamps are milliseconds since the Unix epoch.
#[derive(Debug, Clone)]
pub struct CrawlResponse {
    pub id: String,
    pub url: String,
    pub status: String,
    pub completed_at: Option<u64>,
    pub markdown: Option<String>,
    pub html: Option<String>,
    pub metadata: CrawlMetadata,
}

/// Metadata for crawl responses.
///
/// Date fields are milliseconds since the Unix epoch.
#[derive(Debug, Clone)]
pub struct CrawlMetadata {
    pub title: Option<String>,
    pub description: Option<String>,
    pub language: Option<String>,
    pub keywords: Option<Vec<String>>,
    pub robots: Option<String>,
    pub og_image: Option<String>,
    pub page_title: Option<String>,
    pub author: Option<String>,
    pub published_date: Option<u64>,
    pub modified_date: Option<u64>,
    pub site_name: Option<String>,
}

impl CrawlMetadata {
    /// A metadata record with nothing known.
    pub fn empty() -> (r: Self)
        ensures
            r.title is None,
            r.description is None,
            r.language is None,
            r.keywords is None,
            r.robots is None,
            r.og_image is None,
            r.page_title is None,
            r.author is None,
            r.published_date is None,
            r.modified_date is None,
            r.site_name is None,
    {
        CrawlMetadata {
            title: None,
            description: None,
            language: None,
            keywords: None,
            robots: None,
            og_image: None,
            page_title: None,
            author: None,
            published_date: None,
            modified_date: None,
            site_name: None,
        }
    }
}

/// The states a crawl job can be in.
#[derive(Debug, Clone)]
pub enum CrawlState {
    Started { job_id: String },
    InProgress { job_id: String, status: String, completed: u32, total: u32 },
    Completed { job_id: String, data: Vec<ScrapeData> },
    Failed { job_id: String, error: String },
}

/// Response structure for checking crawl job status.
#[derive(Debug, Clone)]
pub struct CrawlStatusResponse {
    pub status: String,
    pub completed: Option<u32>,
    pub total: Option<u32>,
    pub data: Option<Vec<ScrapeData>>,
    pub error: Option<String>,
}

/// Builder for `CrawlRequest`.
pub struct CrawlRequestBuilder {
    pub url: String,
    pub limit: Option<u32>,
    pub formats: Option<Vec<OutputFormat>>,
    pub only_main_content: Option<bool>,
}

impl CrawlRequestBuilder {
    /// Starts a builder with the given URL and nothing else set.
    pub fn new(url: String) -> (r: Self)
        ensures
            r.url == url,
            r.limit is None,
            r.formats is None,
            r.only_main_content is None,
    {
        CrawlRequestBuilder { url, limit: None, formats: None, only_main_content: None }
    }

    /// Replaces the starting URL.
    pub fn url(self, url: String) -> (r: Self)
        ensures
            r == (CrawlRequestBuilder { url: url, ..self }),
    {
        let mut b = self;
        b.url = url;
        b
    }

    /// Sets the page limit.
    pub fn limit(self, limit: Option<u32>) -> (r: Self)
        ensures
            r == (CrawlRequestBuilder { limit: limit, ..self }),
    {
        let mut b = self;
        b.limit = limit;
        b
    }

    /// Sets the requested output formats.
    pub fn formats(self, formats: Option<Vec<OutputFormat>>) -> (r: Self)
        ensures
            r == (CrawlRequestBuilder { formats: formats, ..self }),
    {
        let mut b = self;
        b.formats = formats;
        b
    }

    /// Sets whether only the main content is extracted per page.
    pub fn only_main_content(self, only_main_content: Option<bool>) -> (r: Self)
        ensures
            r == (CrawlRequestBuilder { only_main_content: only_main_content, ..self }),
    {
        let mut b = self;
        b.only_main_content = only_main_content;
        b
    }

    /// Finishes the builder; never fails.
    pub fn build(self) -> (r: Result<CrawlRequest, String>)
        ensures
            r matches Ok(c) && c.url == self.url && c.limit == self.limit && c.formats
                == self.formats && c.only_main_content == self.only_main_content,
    {
        Ok(
            CrawlRequest {
                url: self.url,
                limit: self.limit,
                formats: self.formats,
                only_main_content: self.only_main_content,
            },
        )
    }
}

impl CrawlRequest {
    /// Starts a builder with an empty URL.
    pub fn builder() -> (r: CrawlRequestBuilder)
        ensures
            r.url@.len() == 0,
            r.limit is None,
            r.formats is None,
            r.only_main_content is None,
    {
        CrawlRequestBuilder {
            url: String::new(),
            limit: None,
            formats: None,
            only_main_content: None,
        }
    }
}

} // verus!
