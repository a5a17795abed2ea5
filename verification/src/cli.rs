//! Command-line facing value types: output formats and per-operation options.

use vstd::prelude::*;

verus! {

/// Output format options for scraped or crawled content.
#[derive(Debug, Clone, Copy, PartialEq, Eq, Structural)]
pub enum OutputFormat {
    Markdown,
    Html,
    Json,
    Raw,
    RawHtml,
    Links,
    Images,
}

impl OutputFormat {
    /// The wire label of the format, as the remote service spells it.
    pub open spec fn spec_label(self) -> Seq<char> {
        match self {
            OutputFormat::Markdown => "markdown"@,
            OutputFormat::Html => "html"@,
            OutputFormat::Json => "json"@,
            OutputFormat::Raw => "raw"@,
            OutputFormat::RawHtml => "rawHtml"@,
            OutputFormat::Links => "links"@,
            OutputFormat::Images => "images"@,
        }
    }

    /// Human-readable label of the format.
    pub fn label(&self) -> (r: &'static str)
        ensures
            r@ == self.spec_label(),
    {
        match self {
            OutputFormat::Markdown => "markdown",
            OutputFormat::Html => "html",
            OutputFormat::Json => "json",
            OutputFormat::Raw => "raw",
            OutputFormat::RawHtml => "rawHtml",
            OutputFormat::Links => "links",
            OutputFormat::Images => "images",
        }
    }

    /// The file extension used when content in this format is saved.
    pub open spec fn spec_file_extension(self) -> Seq<char> {
        match self {
            OutputFormat::Markdown => "md"@,
            OutputFormat::Html => "html"@,
            OutputFormat::Json => "json"@,
            OutputFormat::Raw => "txt"@,
            OutputFormat::RawHtml => "html"@,
            OutputFormat::Links => "json"@,
            OutputFormat::Images => "json"@,
        }
    }

    /// The file extension used when content in this format is saved.
    pub fn file_extension(&self) -> (r: &'static str)
        ensures
            r@ == self.spec_file_extension(),
    {
        match self {
            OutputFormat::Markdown => "md",
            OutputFormat::Html => "html",
            OutputFormat::Json => "json",
            OutputFormat::Raw => "txt",
            OutputFormat::RawHtml => "html",
            OutputFormat::Links => "json",
            OutputFormat::Images => "json",
        }
    }
}

impl Default for OutputFormat {
    fn default() -> (r: Self)
        ensures
            r == OutputFormat::Markdown,
    {
        OutputFormat::Markdown
    }
}

/// Scrape operation options.
#[derive(Debug, Clone)]
pub struct ScrapeOptions {
    pub only_main_content: Option<bool>,
    pub include_tags: Option<Vec<String>>,
    pub exclude_tags: Option<Vec<String>>,
    pub formats: Option<Vec<OutputFormat>>,
}

impl Default for ScrapeOptions {
    fn default() -> (r: Self)
        ensures
            r.only_main_content is None,
            r.include_tags is None,
            r.exclude_tags is None,
            r.formats is None,
    {
        ScrapeOptions { only_main_content: None, include_tags: None, exclude_tags: None, formats: None }
    }
}

/// Crawl operation options.
#[derive(Debug, Clone)]
pub struct CrawlOptions {
    pub limit: Option<u32>,
    pub formats: Option<Vec<OutputFormat>>,
    pub only_main_content: Option<bool>,
}

impl Default for CrawlOptions {
    fn default() -> (r: Self)
        ensures
            r.limit is None,
            r.formats is None,
            r.only_main_content is None,
    {
        CrawlOptions { limit: None, formats: None, only_main_content: None }
    }
}

/// Kinds of operation a queued task can perform.
#[derive(Debug, Clone, Copy, PartialEq, Eq, Structural)]
pub enum Action {
    Scrape,
    Crawl,
}

} // verus!
