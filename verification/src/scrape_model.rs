//! Request and response models for single-page scrape operations.

use vstd::prelude::*;

use crate::cli::OutputFormat;
use crate::text::{dec_rep, spec_join, join_strs, u64_to_string};

verus! {

/// Available parser types for special content handling.
#[derive(Debug, Clone, Copy, PartialEq, Eq, Structural)]
pub enum ParserType {
    Pdf,
}

/// Proxy selection options for requests.
#[derive(Debug, Clone, Copy, PartialEq, Eq, Structural)]
pub enum ProxyType {
    Basic,
    Stealth,
    Auto,
}

/// Geographic location configuration for requests.
#[derive(Debug, Clone)]
pub struct Location {
    pub country: String,
    pub languages: Vec<String>,
}

/// Wait action configuration for controlling timing.
#[derive(Debug, Clone)]
pub struct WaitAction {
    pub milliseconds: u64,
    pub selector: Option<String>,
}

/// Click action configuration.
#[derive(Debug, Clone)]
pub struct ClickAction {
    pub selector: String,
    pub all: bool,
}

/// Key-press action configuration.
#[derive(Debug, Clone)]
pub struct PressAKeyAction {
    pub key: String,
}

/// Scroll action configuration.
#[derive(Debug, Clone)]
pub struct ScrollAction {
    pub direction: String,
    pub selector: Option<String>,
}

/// JavaScript execution action configuration.
#[derive(Debug, Clone)]
pub struct ExecuteJavaScriptAction {
    pub script: String,
}

/// Paper formats for generated documents.
#[derive(Debug, Clone, Copy, PartialEq, Eq, Structural)]
pub enum Format {
    A0,
    A1,
    A2,
    A3,
    A4,
    A5,
    A6,
    Letter,
    Legal,
    Tabloid,
    Ledger,
}

/// Actions to perform during scraping.
#[derive(Debug, Clone)]
pub enum Action {
    Wait(WaitAction),
}

/// Main scrape request structure containing all configuration options.
#[derive(Debug, Clone)]
pub struct ScrapeRequest {
    pub url: String,
    pub formats: Vec<OutputFormat>,
    pub only_main_content: Option<bool>,
    pub include_tags: Option<Vec<String>>,
    pub exclude_tags: Option<Vec<String>>,
    pub remove_base64_images: Option<bool>,
    pub headers: Option<Vec<(String, String)>>,
    pub timeout: Option<u64>,
    pub wait_for: Option<u64>,
    pub mobile: Option<bool>,
    pub block_ads: Option<bool>,
    pub skip_tls_verification: Option<bool>,
    pub proxy: Option<ProxyType>,
    pub location: Option<Location>,
    pub parsers: Option<Vec<ParserType>>,
    pub actions: Option<Vec<Action>>,
    pub max_age: Option<u64>,
    pub store_in_cache: Option<bool>,
    pub zero_data_retention: Option<bool>,
}

impl ScrapeRequest {
    /// Starts a builder for a scrape request.
    pub fn builder() -> (r: ScrapeRequestBuilder)
        ensures
            r.request.url@.len() == 0,
            r.request.formats@.len() == 0,
            r.request.only_main_content is None,
            r.request.include_tags is None,
            r.request.exclude_tags is None,
            r.request.remove_base64_images is None,
            r.request.headers is None,
            r.request.timeout is None,
            r.request.wait_for is None,
            r.request.mobile is None,
            r.request.block_ads is None,
            r.request.skip_tls_verification is None,
            r.request.proxy is None,
            r.request.location is None,
            r.request.parsers is None,
            r.request.actions is None,
            r.request.max_age is None,
            r.request.store_in_cache is None,
            r.request.zero_data_retention is None,
    {
        ScrapeRequestBuilder::new()
    }
}

impl Default for ScrapeRequest {
    fn default() -> (r: Self)
        ensures
            r.url@.len() == 0,
            r.formats@.len() == 0,
            r.only_main_content is None,
            r.include_tags is None,
            r.exclude_tags is None,
            r.remove_base64_images is None,
            r.headers is None,
            r.timeout is None,
            r.wait_for is None,
            r.mobile is None,
            r.block_ads is None,
            r.skip_tls_verification is None,
            r.proxy is None,
            r.location is None,
            r.parsers is None,
            r.actions is None,
            r.max_age is None,
            r.store_in_cache is None,
            r.zero_data_retention is None,
    {
        ScrapeRequest {
            url: String::new(),
            formats: Vec::new(),
            only_main_content: None,
            include_tags: None,
            exclude_tags: None,
            remove_base64_images: None,
            headers: None,
            timeout: None,
            wait_for: None,
            mobile: None,
            block_ads: None,
            skip_tls_verification: None,
            proxy: None,
            location: None,
            parsers: None,
            actions: None,
            max_age: None,
            store_in_cache: None,
            zero_data_retention: None,
        }
    }
}

/// Builder for `ScrapeRequest`.
pub struct ScrapeRequestBuilder {
    pub request: ScrapeRequest,
}

impl ScrapeRequestBuilder {
    /// Starts from an all-default request.
    pub fn new() -> (r: Self)
        ensures
            r.request.url@.len() == 0,
            r.request.formats@.len() == 0,
            r.request.only_main_content is None,
            r.request.include_tags is None,
            r.request.exclude_tags is None,
            r.request.remove_base64_images is None,
            r.request.headers is None,
            r.request.timeout is None,
            r.request.wait_for is None,
            r.request.mobile is None,
            r.request.block_ads is None,
            r.request.skip_tls_verification is None,
            r.request.proxy is None,
            r.request.location is None,
            r.request.parsers is None,
            r.request.actions is None,
            r.request.max_age is None,
            r.request.store_in_cache is None,
            r.request.zero_data_retention is None,
    {
        ScrapeRequestBuilder { request: ScrapeRequest::default() }
    }

    /// Sets the target URL.
    pub fn url(self, url: String) -> (r: Self)
        ensures
            r.request == (ScrapeRequest { url: url, ..self.request }),
    {
        let mut b = self;
        b.request.url = url;
        b
    }

    /// Sets the requested output formats.
    pub fn formats(self, formats: Vec<OutputFormat>) -> (r: Self)
        ensures
            r.request == (ScrapeRequest { formats: formats, ..self.request }),
    {
        let mut b = self;
        b.request.formats = formats;
        b
    }

    /// Sets whether only the main content is extracted.
    pub fn only_main_content(self, only_main_content: bool) -> (r: Self)
        ensures
            r.request == (ScrapeRequest {
                only_main_content: Some(only_main_content),
                ..self.request
            }),
    {
        let mut b = self;
        b.request.only_main_content = Some(only_main_content);
        b
    }

    /// Sets the HTML tags to include in the output.
    pub fn include_tags(self, tags: Vec<String>) -> (r: Self)
        ensures
            r.request == (ScrapeRequest { include_tags: Some(tags), ..self.request }),
    {
        let mut b = self;
        b.request.include_tags = Some(tags);
        b
    }

    /// Sets the HTML tags to exclude from the output.
    pub fn exclude_tags(self, tags: Vec<String>) -> (r: Self)
        ensures
            r.request == (ScrapeRequest { exclude_tags: Some(tags), ..self.request }),
    {
        let mut b = self;
        b.request.exclude_tags = Some(tags);
        b
    }

    /// Sets whether base64-encoded images are removed from the content.
    pub fn remove_base64_images(self, remove: bool) -> (r: Self)
        ensures
            r.request == (ScrapeRequest { remove_base64_images: Some(remove), ..self.request }),
    {
        let mut b = self;
        b.request.remove_base64_images = Some(remove);
        b
    }

    /// Sets custom request headers.
    pub fn headers(self, headers: Vec<(String, String)>) -> (r: Self)
        ensures
            r.request == (ScrapeRequest { headers: Some(headers), ..self.request }),
    {
        let mut b = self;
        b.request.headers = Some(headers);
        b
    }

    /// Sets the request timeout in seconds.
    pub fn timeout(self, timeout: u64) -> (r: Self)
        ensures
            r.request == (ScrapeRequest { timeout: Some(timeout), ..self.request }),
    {
        let mut b = self;
        b.request.timeout = Some(timeout);
        b
    }

    /// Sets the wait time after page load, in milliseconds.
    pub fn wait_for(self, wait_for: u64) -> (r: Self)
        ensures
            r.request == (ScrapeRequest { wait_for: Some(wait_for), ..self.request }),
    {
        let mut b = self;
        b.request.wait_for = Some(wait_for);
        b
    }

    /// Sets whether a mobile user agent is used.
    pub fn mobile(self, mobile: bool) -> (r: Self)
        ensures
            r.request == (ScrapeRequest { mobile: Some(mobile), ..self.request }),
    {
        let mut b = self;
        b.request.mobile = Some(mobile);
        b
    }

    /// Sets whether advertisements are blocked.
    pub fn block_ads(self, block: bool) -> (r: Self)
        ensures
            r.request == (ScrapeRequest { block_ads: Some(block), ..self.request }),
    {
        let mut b = self;
        b.request.block_ads = Some(block);
        b
    }

    /// Sets whether TLS verification is skipped.
    pub fn skip_tls_verification(self, skip: bool) -> (r: Self)
        ensures
            r.request == (ScrapeRequest { skip_tls_verification: Some(skip), ..self.request }),
    {
        let mut b = self;
        b.request.skip_tls_verification = Some(skip);
        b
    }

    /// Sets the proxy configuration.
    pub fn proxy(self, proxy: ProxyType) -> (r: Self)
        ensures
            r.request == (ScrapeRequest { proxy: Some(proxy), ..self.request }),
    {
        let mut b = self;
        b.request.proxy = Some(proxy);
        b
    }

    /// Sets the geographic location.
    pub fn location(self, location: Location) -> (r: Self)
        ensures
            r.request == (ScrapeRequest { location: Some(location), ..self.request }),
    {
        let mut b = self;
        b.request.location = Some(location);
        b
    }

    /// Sets the special content parsers.
    pub fn parsers(self, parsers: Vec<ParserType>) -> (r: Self)
        ensures
            r.request == (ScrapeRequest { parsers: Some(parsers), ..self.request }),
    {
        let mut b = self;
        b.request.parsers = Some(parsers);
        b
    }

    /// Sets the actions to perform during scraping.
    pub fn actions(self, actions: Vec<Action>) -> (r: Self)
        ensures
            r.request == (ScrapeRequest { actions: Some(actions), ..self.request }),
    {
        let mut b = self;
        b.request.actions = Some(actions);
        b
    }

    /// Sets the maximum age for cached results, in seconds.
    pub fn max_age(self, max_age: u64) -> (r: Self)
        ensures
            r.request == (ScrapeRequest { max_age: Some(max_age), ..self.request }),
    {
        let mut b = self;
        b.request.max_age = Some(max_age);
        b
    }

    /// Sets whether results are stored in the remote cache.
    pub fn store_in_cache(self, store: bool) -> (r: Self)
        ensures
            r.request == (ScrapeRequest { store_in_cache: Some(store), ..self.request }),
    {
        let mut b = self;
        b.request.store_in_cache = Some(store);
        b
    }

    /// Sets whether zero data retention mode is enabled.
    pub fn zero_data_retention(self, zero: bool) -> (r: Self)
        ensures
            r.request == (ScrapeRequest { zero_data_retention: Some(zero), ..self.request }),
    {
        let mut b = self;
        b.request.zero_data_retention = Some(zero);
        b
    }

    /// Finishes the builder and hands out the request.
    pub fn build(self) -> (r: ScrapeRequest)
        ensures
            r == self.request,
    {
        self.request
    }
}

/// Generic API response wrapper: success flag plus data payload.
#[derive(Debug)]
pub struct ApiResponse<T> {
    pub success: bool,
    pub data: T,
}

/// Detailed error information returned by the remote service.
#[derive(Debug, Clone)]
pub struct ApiError {
    pub success: bool,
    pub code: String,
    pub message: String,
}

/// Scrape response wrapper.
#[derive(Debug, Clone)]
pub struct ScrapeResponse {
    pub success: bool,
    pub data: Option<ScrapeData>,
    pub error: Option<String>,
}

/// Extracted content of one scraped page, in the formats the service returned.
#[derive(Debug, Clone)]
pub struct ScrapeData {
    pub url: Option<String>,
    pub markdown: Option<String>,
    pub html: Option<String>,
    pub raw_html: Option<String>,
    pub images: Option<Vec<String>>,
    pub screenshot: Option<String>,
    pub links: Option<Vec<String>>,
    pub warning: Option<String>,
    pub metadata: Metadata,
}

impl ScrapeData {
    /// The names of the content formats this response carries, in a fixed
    /// order.
    pub open spec fn spec_format_names(self) -> Seq<Seq<char>> {
        let base = Seq::<Seq<char>>::empty();
        let s1 = if self.markdown is Some {
            base.push("Markdown"@)
        } else {
            base
        };
        let s2 = if self.html is Some {
            s1.push("HTML"@)
        } else {
            s1
        };
        let s3 = if self.raw_html is Some {
            s2.push("Raw HTML"@)
        } else {
            s2
        };
        let s4 = if self.screenshot is Some {
            s3.push("Screenshot"@)
        } else {
            s3
        };
        let s5 = if self.links is Some {
            s4.push("Links"@)
        } else {
            s4
        };
        if self.images is Some {
            s5.push("Images"@)
        } else {
            s5
        }
    }

    /// The human-readable summary of this response: its URL, the formats it
    /// carries, how many links were found, and any warning, each on its own
    /// line and present only where known.
    pub open spec fn spec_summary(self) -> Seq<char> {
        let head = "Scrape Data:\n"@;
        let with_url = match self.url {
            Some(u) => head + "  URL: "@ + u@ + "\n"@,
            None => head,
        };
        let names = self.spec_format_names();
        let with_formats = if names.len() > 0 {
            with_url + "  Available formats: "@ + spec_join(names, ", "@) + "\n"@
        } else {
            with_url
        };
        let with_links = match self.links {
            Some(l) => with_formats + "  Links found: "@ + dec_rep(l@.len() as int) + "\n"@,
            None => with_formats,
        };
        match self.warning {
            Some(w) => with_links + "  Warning: "@ + w@ + "\n"@,
            None => with_links,
        }
    }

    /// Renders the human-readable summary.
    pub fn summary(&self) -> (r: String)
        ensures
            r@ == self.spec_summary(),
    {
        let mut out = String::from_str("Scrape Data:\n");
        if let Some(u) = &self.url {
            out.append("  URL: ");
            out.append(u.as_str());
            out.append("\n");
        }
        let mut names: Vec<&str> = Vec::new();
        if self.markdown.is_some() {
            names.push("Markdown");
        }
        if self.html.is_some() {
            names.push("HTML");
        }
        if self.raw_html.is_some() {
            names.push("Raw HTML");
        }
        if self.screenshot.is_some() {
            names.push("Screenshot");
        }
        if self.links.is_some() {
            names.push("Links");
        }
        if self.images.is_some() {
            names.push("Images");
        }
        proof {
            assert(names.deep_view() =~= self.spec_format_names());
        }
        if names.len() > 0 {
            out.append("  Available formats: ");
            let joined = join_strs(&names, ", ");
            out.append(joined.as_str());
            out.append("\n");
        }
        if let Some(l) = &self.links {
            out.append("  Links found: ");
            let count = u64_to_string(l.len() as u64);
            out.append(count.as_str());
            out.append("\n");
        }
        if let Some(w) = &self.warning {
            out.append("  Warning: ");
            out.append(w.as_str());
            out.append("\n");
        }
        out
    }
}

/// Structured metadata extracted from a scraped page.
#[derive(Debug, Clone)]
pub struct Metadata {
    pub title: Option<String>,
    pub description: Option<String>,
    pub language: Option<String>,
    pub source_url: Option<String>,
}

/// Result of a sub-scrape operation.
#[derive(Debug, Clone)]
pub struct ScrapeResult {
    pub url: String,
    pub html: Option<String>,
}

} // verus!
