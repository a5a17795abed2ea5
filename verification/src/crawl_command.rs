//! The multi-page fetch command: starts a crawl job, drives the polling
//! state machine to a terminal outcome, and persists the crawled pages.

use vstd::prelude::*;

use crate::api_service::ApiService;
use crate::cli::{CrawlOptions, OutputFormat};
use crate::clock::now_millis;
use crate::commands::CommandResult;
use crate::crawl_model::{CrawlMetadata, CrawlRequest, CrawlResponse};
use crate::errors::{FirecrawlError, FirecrawlResult};
use crate::poller::{CrawlProgressObserver, JobPoller, SilentCrawlObserver};
use crate::scrape_model::ScrapeData;
use crate::storage::ContentRepository;
use crate::text::{clone_opt_string, dec_rep, u64_to_string};

verus! {

/// Turns the pages of a completed crawl into per-page crawl responses: page
/// `i` gets the identifier `crawl-result-i`, the page's own URL (or
/// `unknown`), the `completed` status with the given completion time, the
/// page's content, and its title carried into the metadata.
pub fn crawl_responses_from_data(data: Vec<ScrapeData>, completed_at_millis: u64) -> (r: Vec<
    CrawlResponse,
>)
    ensures
        r@.len() == data@.len(),
        forall|i: int|
            0 <= i < data@.len() ==> {
                let d = data@[i];
                let c = #[trigger] r@[i];
                &&& c.id@ == "crawl-result-"@ + dec_rep(i)
                &&& (d.url matches Some(u) ==> c.url == u)
                &&& (d.url is None ==> c.url@ == "unknown"@)
                &&& c.status@ == "completed"@
                &&& c.completed_at == Some(completed_at_millis)
                &&& c.markdown == d.markdown
                &&& c.html == d.html
                &&& c.metadata.title == d.metadata.title
                &&& c.metadata.language == d.metadata.language
                &&& c.metadata.page_title == d.metadata.title
                &&& c.metadata.keywords is None
                &&& c.metadata.published_date is None
            },
{
    let ghost orig = data@;
    let mut rest = data;
    let mut out: Vec<CrawlResponse> = Vec::new();
    let mut index: u64 = 0;
    while rest.len() > 0
        invariant
            index == out@.len(),
            orig.len() == out@.len() + rest@.len(),
            rest@ =~= orig.subrange(out@.len() as int, orig.len() as int),
            forall|i: int|
                0 <= i < out@.len() ==> {
                    let d = orig[i];
                    let c = #[trigger] out@[i];
                    &&& c.id@ == "crawl-result-"@ + dec_rep(i)
                    &&& (d.url matches Some(u) ==> c.url == u)
                    &&& (d.url is None ==> c.url@ == "unknown"@)
                    &&& c.status@ == "completed"@
                    &&& c.completed_at == Some(completed_at_millis)
                    &&& c.markdown == d.markdown
                    &&& c.html == d.html
                    &&& c.metadata.title == d.metadata.title
                    &&& c.metadata.language == d.metadata.language
                    &&& c.metadata.page_title == d.metadata.title
                    &&& c.metadata.keywords is None
                    &&& c.metadata.published_date is None
                },
        decreases rest@.len(),
    {
        let d = rest.remove(0);
        proof {
            assert(d == orig[out@.len() as int]);
        }
        let id = String::from_str("crawl-result-").concat(u64_to_string(index).as_str());
        let url = match d.url {
            Some(u) => u,
            None => String::from_str("unknown"),
        };
        let title = clone_opt_string(&d.metadata.title);
        let response = CrawlResponse {
            id,
            url,
            status: String::from_str("completed"),
            completed_at: Some(completed_at_millis),
            markdown: d.markdown,
            html: d.html,
            metadata: CrawlMetadata {
                title,
                description: None,
                language: d.metadata.language,
                keywords: None,
                robots: None,
                og_image: None,
                page_title: d.metadata.title,
                author: None,
                published_date: None,
                modified_date: None,
                site_name: None,
            },
        };
        out.push(response);
        index = out.len() as u64;
        proof {
            assert(rest@ =~= orig.subrange(out@.len() as int, orig.len() as int));
        }
    }
    proof {
        assert(out@.len() == orig.len());
    }
    out
}

/// Command for crawling a URL.
#[derive(Debug, Clone)]
pub struct CrawlCommand {
    pub url: String,
    pub options: Option<CrawlOptions>,
    pub output_format: OutputFormat,
}

impl CrawlCommand {
    /// Creates a new crawl command.
    pub fn new(url: String, options: Option<CrawlOptions>, output_format: OutputFormat) -> (r:
        Self)
        ensures
            r.url == url,
            r.options == options,
            r.output_format == output_format,
    {
        CrawlCommand { url, options, output_format }
    }

    /// Starts a builder for a crawl command.
    pub fn builder() -> (r: CrawlCommandBuilder)
        ensures
            r.url is None,
            r.options is None,
            r.output_format == OutputFormat::Markdown,
    {
        CrawlCommandBuilder::new()
    }

    /// The request this command sends: its URL and the limit and main-content
    /// switch from its options.
    pub fn build_request(&self) -> (r: CrawlRequest)
        ensures
            r.url == self.url,
            r.formats is None,
            self.options is None ==> r.limit is None && r.only_main_content is None,
            self.options matches Some(o) ==> r.limit == o.limit && r.only_main_content
                == o.only_main_content,
    {
        match &self.options {
            Some(options) => CrawlRequest {
                url: self.url.clone(),
                limit: options.limit,
                formats: None,
                only_main_content: options.only_main_content,
            },
            None => CrawlRequest {
                url: self.url.clone(),
                limit: None,
                formats: None,
                only_main_content: None,
            },
        }
    }

    /// Starts the crawl job and polls it to a terminal outcome, forwarding
    /// progress to the observer; the completed pages come back converted to
    /// per-page responses: whatever the service answered, every returned
    /// page is numbered in order, marked completed and stamped.
    pub fn execute_crawl<A: ApiService, P: CrawlProgressObserver>(
        &self,
        api: &mut A,
        observer: &mut P,
    ) -> (r: FirecrawlResult<Vec<CrawlResponse>>)
        ensures
            r matches Ok(pages) ==> forall|i: int|
                0 <= i < pages@.len() ==> {
                    let c = #[trigger] pages@[i];
                    &&& c.id@ == "crawl-result-"@ + dec_rep(i)
                    &&& c.status@ == "completed"@
                    &&& c.completed_at is Some
                },
    {
        let request = self.build_request();
        let start = match api.crawl_url(&request) {
            Ok(s) => s,
            Err(e) => {
                return Err(e);
            },
        };
        let data = match JobPoller::monitor_crawl_job(api, start.job_id.as_str(), observer) {
            Ok(d) => d,
            Err(e) => {
                return Err(e);
            },
        };
        Ok(crawl_responses_from_data(data, now_millis()))
    }

    /// Executes the command: fails fast with a validation error on an empty
    /// URL (touching neither collaborator), otherwise crawls through the
    /// service and persists through the repository. A success always carries
    /// this command's URL.
    pub fn execute<A: ApiService, R: ContentRepository>(
        &self,
        api: &mut A,
        repository: &mut R,
        output_dir: &str,
    ) -> (r: FirecrawlResult<CommandResult>)
        ensures
            self.url@.len() == 0 ==> {
                &&& r matches Err(FirecrawlError::ValidationError(m)) && m@ == "URL is required"@
                &&& *final(api) == *old(api)
                &&& *final(repository) == *old(repository)
            },
            r matches Ok(c) ==> c matches CommandResult::Crawl { url, file_paths } && url@
                == self.url@,
            r matches Err(FirecrawlError::ValidationError(_)) ==> *final(repository) == *old(
                repository,
            ),
            r matches Err(FirecrawlError::ApiError(_)) ==> *final(repository) == *old(
                repository,
            ),
    {
        if self.url.as_str().unicode_len() == 0 {
            return Err(FirecrawlError::ValidationError(String::from_str("URL is required")));
        }
        let mut observer = SilentCrawlObserver;
        let crawl_results = match self.execute_crawl(api, &mut observer) {
            Ok(results) => results,
            Err(e) => {
                return Err(e);
            },
        };
        let file_paths = match repository.save_crawl_results(
            &crawl_results,
            self.url.as_str(),
            self.output_format,
            output_dir,
        ) {
            Ok(paths) => paths,
            Err(e) => {
                return Err(FirecrawlError::StorageError(e));
            },
        };
        Ok(CommandResult::Crawl { url: self.url.clone(), file_paths })
    }

    /// A human-readable summary of what this command does.
    pub fn description(&self) -> (r: String)
        ensures
            r@ == "Crawl "@ + self.url@ + " as "@ + self.output_format.spec_label(),
    {
        String::from_str("Crawl ").concat(self.url.as_str()).concat(" as ").concat(
            self.output_format.label(),
        )
    }

    /// The URL this command operates on.
    pub fn url(&self) -> (r: &str)
        ensures
            r@ == self.url@,
    {
        self.url.as_str()
    }

    /// The requested output format.
    pub fn output_format(&self) -> (r: OutputFormat)
        ensures
            r == self.output_format,
    {
        self.output_format
    }
}

/// Builder for `CrawlCommand`.
pub struct CrawlCommandBuilder {
    pub url: Option<String>,
    pub options: Option<CrawlOptions>,
    pub output_format: OutputFormat,
}

impl CrawlCommandBuilder {
    /// Starts with no URL, no options, and the markdown format.
    pub fn new() -> (r: Self)
        ensures
            r.url is None,
            r.options is None,
            r.output_format == OutputFormat::Markdown,
    {
        CrawlCommandBuilder { url: None, options: None, output_format: OutputFormat::Markdown }
    }

    /// Sets the URL.
    pub fn url(self, url: String) -> (r: Self)
        ensures
            r == (CrawlCommandBuilder { url: Some(url), ..self }),
    {
        let mut b = self;
        b.url = Some(url);
        b
    }

    /// Sets the options.
    pub fn options(self, options: CrawlOptions) -> (r: Self)
        ensures
            r == (CrawlCommandBuilder { options: Some(options), ..self }),
    {
        let mut b = self;
        b.options = Some(options);
        b
    }

    /// Sets the output format.
    pub fn output_format(self, format: OutputFormat) -> (r: Self)
        ensures
            r == (CrawlCommandBuilder { output_format: format, ..self }),
    {
        let mut b = self;
        b.output_format = format;
        b
    }

    /// Finishes the builder: a command exactly when a URL was set, else a
    /// validation error.
    pub fn build(self) -> (r: FirecrawlResult<CrawlCommand>)
        ensures
            self.url matches Some(u) ==> (r matches Ok(c) && c.url == u && c.options
                == self.options && c.output_format == self.output_format),
            self.url is None ==> (r matches Err(FirecrawlError::ValidationError(m)) && m@
                == "URL is required"@),
    {
        match self.url {
            Some(url) => Ok(
                CrawlCommand { url, options: self.options, output_format: self.output_format },
            ),
            None => Err(FirecrawlError::ValidationError(String::from_str("URL is required"))),
        }
    }
}

} // verus!
