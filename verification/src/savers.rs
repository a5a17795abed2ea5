//! Content-format writers: one saver per output format. Each saver renders
//! content and names files; the byte-for-byte writing of the rendered text
//! is left to the surrounding program.

use vstd::prelude::*;

use crate::cli::OutputFormat;
use crate::crawl_model::CrawlResponse;
use crate::naming::{filename_for, spec_filename};
use crate::scrape_model::ScrapeResponse;
use crate::storage::StorageError;

verus! {

/// The title of a scrape response, or `Untitled`.
pub open spec fn spec_scrape_title(result: ScrapeResponse) -> Seq<char> {
    match result.data {
        Some(d) => match d.metadata.title {
            Some(t) => t@,
            None => "Untitled"@,
        },
        None => "Untitled"@,
    }
}

/// The markdown of a scrape response, or a stock note.
pub open spec fn spec_scrape_markdown(result: ScrapeResponse) -> Seq<char> {
    match result.data {
        Some(d) => match d.markdown {
            Some(m) => m@,
            None => "No content available"@,
        },
        None => "No content available"@,
    }
}

/// Markdown content saver.
pub struct MarkdownSaver;

impl MarkdownSaver {
    /// The file extension of markdown documents.
    pub fn file_extension(&self) -> (r: &'static str)
        ensures
            r@ == "md"@,
    {
        "md"
    }

    /// The filename for a URL, with an optional running index.
    pub fn generate_filename(&self, url: &str, index: Option<u64>) -> (r: String)
        ensures
            r@ == spec_filename(
                url@,
                match index {
                    Some(i) => Some(i as int),
                    None => None,
                },
                "md"@,
            ),
    {
        filename_for(url, index, OutputFormat::Markdown)
    }

    /// Renders one scrape result as a markdown document: title, source URL,
    /// timestamp, a rule, then the content.
    pub fn render_scrape_result(&self, result: &ScrapeResponse, url: &str, timestamp: &str) -> (r:
        String)
        ensures
            r@ == "# "@ + spec_scrape_title(*result) + "\n\n**Source:** "@ + url@
                + "\n\n**Timestamp:** "@ + timestamp@ + "\n\n---\n\n"@ + spec_scrape_markdown(
                *result,
            ),
    {
        let title: &str = match &result.data {
            Some(d) => match &d.metadata.title {
                Some(t) => t.as_str(),
                None => "Untitled",
            },
            None => "Untitled",
        };
        let markdown: &str = match &result.data {
            Some(d) => match &d.markdown {
                Some(m) => m.as_str(),
                None => "No content available",
            },
            None => "No content available",
        };
        String::from_str("# ").concat(title).concat("\n\n**Source:** ").concat(url).concat(
            "\n\n**Timestamp:** ",
        ).concat(timestamp).concat("\n\n---\n\n").concat(markdown)
    }

    /// Renders one crawled page as a markdown document: title, the page's
    /// own URL, the crawl's origin URL, timestamp, a rule, then the content.
    pub fn render_crawl_result(
        &self,
        result: &CrawlResponse,
        origin_url: &str,
        timestamp: &str,
    ) -> (r: String)
        ensures
            r@ == "# "@ + (match result.metadata.title {
                Some(t) => t@,
                None => "Untitled"@,
            }) + "\n\n**Source:** "@ + result.url@ + "\n\n**Crawl from:** "@ + origin_url@
                + "\n\n**Timestamp:** "@ + timestamp@ + "\n\n---\n\n"@ + (
            match result.markdown {
                Some(m) => m@,
                None => "No content available"@,
            }),
    {
        let title: &str = match &result.metadata.title {
            Some(t) => t.as_str(),
            None => "Untitled",
        };
        let markdown: &str = match &result.markdown {
            Some(m) => m.as_str(),
            None => "No content available",
        };
        String::from_str("# ").concat(title).concat("\n\n**Source:** ").concat(
            result.url.as_str(),
        ).concat("\n\n**Crawl from:** ").concat(origin_url).concat("\n\n**Timestamp:** ").concat(
            timestamp,
        ).concat("\n\n---\n\n").concat(markdown)
    }
}

/// HTML content saver.
pub struct HtmlSaver;

impl HtmlSaver {
    /// The file extension of HTML documents.
    pub fn file_extension(&self) -> (r: &'static str)
        ensures
            r@ == "html"@,
    {
        "html"
    }

    /// The filename for a URL, with an optional running index.
    pub fn generate_filename(&self, url: &str, index: Option<u64>) -> (r: String)
        ensures
            r@ == spec_filename(
                url@,
                match index {
                    Some(i) => Some(i as int),
                    None => None,
                },
                "html"@,
            ),
    {
        filename_for(url, index, OutputFormat::Html)
    }

    /// The HTML to save for a scrape result: the processed HTML, else the
    /// raw HTML; an unsupported-content error where the response carries no
    /// data or no HTML at all.
    pub fn scrape_content(&self, result: &ScrapeResponse) -> (r: Result<String, StorageError>)
        ensures
            result.data is None ==> (r matches Err(StorageError::UnsupportedContentType(m)) && m@
                == "Scrape data not available"@),
            result.data matches Some(d) ==> match d.html {
                Some(h) => r matches Ok(c) && c@ == h@,
                None => match d.raw_html {
                    Some(h) => r matches Ok(c) && c@ == h@,
                    None => r matches Err(StorageError::UnsupportedContentType(m)) && m@
                        == "HTML content not available"@,
                },
            },
    {
        match &result.data {
            None => Err(
                StorageError::UnsupportedContentType(
                    String::from_str("Scrape data not available"),
                ),
            ),
            Some(d) => match &d.html {
                Some(h) => Ok(h.clone()),
                None => match &d.raw_html {
                    Some(h) => Ok(h.clone()),
                    None => Err(
                        StorageError::UnsupportedContentType(
                            String::from_str("HTML content not available"),
                        ),
                    ),
                },
            },
        }
    }

    /// The HTML to save for one crawled page; an unsupported-content error
    /// naming the page where it carries none.
    pub fn crawl_content(&self, result: &CrawlResponse) -> (r: Result<String, StorageError>)
        ensures
            match result.html {
                Some(h) => r matches Ok(c) && c@ == h@,
                None => r matches Err(StorageError::UnsupportedContentType(m)) && m@
                    == "HTML content not available for "@ + result.url@,
            },
    {
        match &result.html {
            Some(h) => Ok(h.clone()),
            None => Err(
                StorageError::UnsupportedContentType(
                    String::from_str("HTML content not available for ").concat(
                        result.url.as_str(),
                    ),
                ),
            ),
        }
    }
}

/// JSON content saver. The JSON encoding itself is the surrounding
/// program's concern; this saver owns the naming rules.
pub struct JsonSaver;

impl JsonSaver {
    /// The file extension of JSON documents.
    pub fn file_extension(&self) -> (r: &'static str)
        ensures
            r@ == "json"@,
    {
        "json"
    }

    /// The filename for a URL, with an optional running index.
    pub fn generate_filename(&self, url: &str, index: Option<u64>) -> (r: String)
        ensures
            r@ == spec_filename(
                url@,
                match index {
                    Some(i) => Some(i as int),
                    None => None,
                },
                "json"@,
            ),
    {
        filename_for(url, index, OutputFormat::Json)
    }

    /// The filename of the single file holding a whole crawl's results,
    /// stamped with the given timestamp text.
    pub fn crawl_results_filename(&self, timestamp: &str) -> (r: String)
        ensures
            r@ == "crawl_results_"@ + timestamp@ + ".json"@,
    {
        String::from_str("crawl_results_").concat(timestamp).concat(".json")
    }
}

/// Raw text content saver.
pub struct RawSaver;

impl RawSaver {
    /// The file extension of raw text documents.
    pub fn file_extension(&self) -> (r: &'static str)
        ensures
            r@ == "txt"@,
    {
        "txt"
    }

    /// The filename for a URL, with an optional running index.
    pub fn generate_filename(&self, url: &str, index: Option<u64>) -> (r: String)
        ensures
            r@ == spec_filename(
                url@,
                match index {
                    Some(i) => Some(i as int),
                    None => None,
                },
                "txt"@,
            ),
    {
        filename_for(url, index, OutputFormat::Raw)
    }

    /// The text to save for a scrape result: the first of markdown,
    /// processed HTML and raw HTML, else a stock note; an error where the
    /// response carries no data.
    pub fn scrape_content(&self, result: &ScrapeResponse) -> (r: Result<String, StorageError>)
        ensures
            result.data is None ==> (r matches Err(StorageError::UnsupportedContentType(m)) && m@
                == "Scrape data not available"@),
            result.data matches Some(d) ==> (r matches Ok(c) && c@ == (match d.markdown {
                Some(m) => m@,
                None => match d.html {
                    Some(h) => h@,
                    None => match d.raw_html {
                        Some(rh) => rh@,
                        None => "No content available"@,
                    },
                },
            })),
    {
        match &result.data {
            None => Err(
                StorageError::UnsupportedContentType(
                    String::from_str("Scrape data not available"),
                ),
            ),
            Some(d) => match &d.markdown {
                Some(m) => Ok(m.clone()),
                None => match &d.html {
                    Some(h) => Ok(h.clone()),
                    None => match &d.raw_html {
                        Some(rh) => Ok(rh.clone()),
                        None => Ok(String::from_str("No content available")),
                    },
                },
            },
        }
    }

    /// The text to save for one crawled page: its markdown, else its HTML,
    /// else a stock note.
    pub fn crawl_content(&self, result: &CrawlResponse) -> (r: String)
        ensures
            r@ == (match result.markdown {
                Some(m) => m@,
                None => match result.html {
                    Some(h) => h@,
                    None => "No content available"@,
                },
            }),
    {
        match &result.markdown {
            Some(m) => m.clone(),
            None => match &result.html {
                Some(h) => h.clone(),
                None => String::from_str("No content available"),
            },
        }
    }
}

} // verus!
