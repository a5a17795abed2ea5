//! The single-page fetch command: validates its input, issues one scrape
//! through the service boundary, and persists the outcome.

use vstd::prelude::*;

use crate::api_service::ApiService;
use crate::cli::{OutputFormat, ScrapeOptions};
use crate::commands::CommandResult;
use crate::errors::{FirecrawlError, FirecrawlResult};
use crate::scrape_model::{ScrapeRequest, ScrapeRequestBuilder, ScrapeResponse};
use crate::storage::ContentRepository;

verus! {

/// Command for scraping a single URL.
#[derive(Debug, Clone)]
pub struct ScrapeCommand {
    pub url: String,
    pub options: Option<ScrapeOptions>,
    pub output_format: OutputFormat,
}

impl ScrapeCommand {
    /// Creates a new scrape command.
    pub fn new(url: String, options: Option<ScrapeOptions>, output_format: OutputFormat) -> (r:
        Self)
        ensures
            r.url == url,
            r.options == options,
            r.output_format == output_format,
    {
        ScrapeCommand { url, options, output_format }
    }

    /// Starts a builder for a scrape command.
    pub fn builder() -> (r: ScrapeCommandBuilder)
        ensures
            r.url is None,
            r.options is None,
            r.output_format == OutputFormat::Markdown,
    {
        ScrapeCommandBuilder::new()
    }

    /// The request this command sends: its URL, exactly its one output
    /// format, and the content filters from its options.
    pub fn build_request(&self) -> (r: ScrapeRequest)
        ensures
            r.url == self.url,
            r.formats@.len() == 1 && r.formats@[0] == self.output_format,
            self.options is None ==> {
                &&& r.only_main_content is None
                &&& r.include_tags is None
                &&& r.exclude_tags is None
            },
            self.options matches Some(o) ==> {
                &&& r.only_main_content == o.only_main_content
                &&& (o.include_tags is None <==> r.include_tags is None)
                &&& (o.exclude_tags is None <==> r.exclude_tags is None)
            },
    {
        let mut formats: Vec<OutputFormat> = Vec::new();
        formats.push(self.output_format);
        let mut builder = ScrapeRequest::builder().url(self.url.clone()).formats(formats);
        if let Some(options) = &self.options {
            if let Some(omc) = options.only_main_content {
                builder = builder.only_main_content(omc);
            }
            if let Some(tags) = &options.include_tags {
                builder = builder.include_tags(crate::commands::clone_string_vec(tags));
            }
            if let Some(tags) = &options.exclude_tags {
                builder = builder.exclude_tags(crate::commands::clone_string_vec(tags));
            }
        }
        builder.build()
    }

    /// Issues the scrape through the service boundary. What comes back is
    /// whatever the service answered for this command's request.
    pub fn execute_scrape<A: ApiService>(&self, api: &mut A) -> (r: FirecrawlResult<
        ScrapeResponse,
    >) {
        let request = self.build_request();
        api.scrape_url(&request)
    }

    /// The library's own judgement of what the service answered: a response
    /// the service marked successful passes through unchanged; one marked
    /// unsuccessful becomes an invalid-response error.
    pub fn accept_scrape_response(response: ScrapeResponse) -> (r: FirecrawlResult<
        ScrapeResponse,
    >)
        ensures
            response.success ==> (r matches Ok(res) && res == response),
            !response.success ==> (r matches Err(FirecrawlError::ApiError(e)) && e matches
                crate::errors::ApiError::InvalidResponse(m) && m@ == "API request failed"@),
    {
        if response.success {
            Ok(response)
        } else {
            Err(
                FirecrawlError::ApiError(
                    crate::errors::ApiError::InvalidResponse(
                        String::from_str("API request failed"),
                    ),
                ),
            )
        }
    }

    /// Executes the command: fails fast with a validation error on an empty
    /// URL (touching neither collaborator), otherwise scrapes through the
    /// service and persists through the repository. A response the service
    /// marks unsuccessful is an invalid-response error, and nothing is
    /// persisted for it. A success always carries this command's URL.
    pub fn execute<A: ApiService, R: ContentRepository>(
        &self,
        api: &mut A,
        repository: &mut R,
        output_dir: &str,
    ) -> (r: FirecrawlResult<CommandResult>)
        ensures
            self.url@.len() == 0 ==> {
                &&& r matches Err(FirecrawlError::ValidationError(m)) && m@ == "URL is required"@
                &&& *final(api) == *old(api)
                &&& *final(repository) == *old(repository)
            },
            r matches Ok(c) ==> c matches CommandResult::Scrape { url, file_path } && url@
                == self.url@,
            r matches Err(FirecrawlError::ValidationError(_)) ==> *final(repository) == *old(
                repository,
            ),
            r matches Err(FirecrawlError::ApiError(_)) ==> *final(repository) == *old(
                repository,
            ),
    {
        if self.url.as_str().unicode_len() == 0 {
            return Err(FirecrawlError::ValidationError(String::from_str("URL is required")));
        }
        let scrape_result = match self.execute_scrape(api) {
            Ok(resp) => resp,
            Err(e) => {
                return Err(e);
            },
        };
        let scrape_result = match Self::accept_scrape_response(scrape_result) {
            Ok(resp) => resp,
            Err(e) => {
                return Err(e);
            },
        };
        let file_path = match repository.save_scrape_result(
            &scrape_result,
            self.url.as_str(),
            self.output_format,
            output_dir,
        ) {
            Ok(path) => path,
            Err(e) => {
                return Err(FirecrawlError::StorageError(e));
            },
        };
        Ok(CommandResult::Scrape { url: self.url.clone(), file_path })
    }

    /// A human-readable summary of what this command does.
    pub fn description(&self) -> (r: String)
        ensures
            r@ == "Scrape "@ + self.url@ + " as "@ + self.output_format.spec_label(),
    {
        String::from_str("Scrape ").concat(self.url.as_str()).concat(" as ").concat(
            self.output_format.label(),
        )
    }

    /// The URL this command operates on.
    pub fn url(&self) -> (r: &str)
        ensures
            r@ == self.url@,
    {
        self.url.as_str()
    }

    /// The requested output format.
    pub fn output_format(&self) -> (r: OutputFormat)
        ensures
            r == self.output_format,
    {
        self.output_format
    }
}

/// Builder for `ScrapeCommand`.
pub struct ScrapeCommandBuilder {
    pub url: Option<String>,
    pub options: Option<ScrapeOptions>,
    pub output_format: OutputFormat,
}

impl ScrapeCommandBuilder {
    /// Starts with no URL, no options, and the markdown format.
    pub fn new() -> (r: Self)
        ensures
            r.url is None,
            r.options is None,
            r.output_format == OutputFormat::Markdown,
    {
        ScrapeCommandBuilder { url: None, options: None, output_format: OutputFormat::Markdown }
    }

    /// Sets the URL.
    pub fn url(self, url: String) -> (r: Self)
        ensures
            r == (ScrapeCommandBuilder { url: Some(url), ..self }),
    {
        let mut b = self;
        b.url = Some(url);
        b
    }

    /// Sets the options.
    pub fn options(self, options: ScrapeOptions) -> (r: Self)
        ensures
            r == (ScrapeCommandBuilder { options: Some(options), ..self }),
    {
        let mut b = self;
        b.options = Some(options);
        b
    }

    /// Sets the output format.
    pub fn output_format(self, format: OutputFormat) -> (r: Self)
        ensures
            r == (ScrapeCommandBuilder { output_format: format, ..self }),
    {
        let mut b = self;
        b.output_format = format;
        b
    }

    /// Finishes the builder: a command exactly when a URL was set, else a
    /// validation error.
    pub fn build(self) -> (r: FirecrawlResult<ScrapeCommand>)
        ensures
            self.url matches Some(u) ==> (r matches Ok(c) && c.url == u && c.options
                == self.options && c.output_format == self.output_format),
            self.url is None ==> (r matches Err(FirecrawlError::ValidationError(m)) && m@
                == "URL is required"@),
    {
        match self.url {
            Some(url) => Ok(
                ScrapeCommand { url, options: self.options, output_format: self.output_format },
            ),
            None => Err(FirecrawlError::ValidationError(String::from_str("URL is required"))),
        }
    }
}

} // verus!
