//! Application configuration: the settings tree, hand-written defaults with
//! exact contracts, validation, and a builder.

use vstd::prelude::*;

use crate::cli::OutputFormat;
use crate::clock::current_date_string;
use crate::errors::{FirecrawlError, FirecrawlResult};

verus! {

/// API-related configuration. Durations are plain integers: the request
/// timeout in seconds and the retry delay in milliseconds.
#[derive(Debug, Clone)]
pub struct ApiConfig {
    pub base_url: String,
    pub api_key: Option<String>,
    pub timeout_secs: u64,
    pub max_retries: u32,
    pub retry_delay_millis: u64,
    pub user_agent: Option<String>,
    pub proxy: Option<ProxyConfig>,
}

/// Proxy configuration.
#[derive(Debug, Clone)]
pub struct ProxyConfig {
    pub url: String,
    pub username: Option<String>,
    pub password: Option<String>,
}

/// Output-related configuration.
#[derive(Debug, Clone)]
pub struct OutputConfig {
    pub default_directory: String,
    pub default_format: OutputFormat,
    pub create_date_subdirectories: bool,
    pub filename_prefix: Option<String>,
    pub overwrite_existing: bool,
    pub max_filename_length: usize,
}

/// Execution-related configuration. The progress update interval is in
/// milliseconds.
#[derive(Debug, Clone)]
pub struct ExecutionConfig {
    pub max_concurrent_tasks: usize,
    pub default_crawl_limit: Option<u32>,
    pub progress_update_interval_millis: u64,
    pub verbose_logging: bool,
    pub cache: CacheConfig,
}

/// Cache configuration. The time-to-live is in milliseconds; zero means
/// entries never expire.
#[derive(Debug, Clone)]
pub struct CacheConfig {
    pub enabled: bool,
    pub directory: String,
    pub ttl_millis: u64,
    pub max_size_mb: u64,
}

/// UI-related configuration.
#[derive(Debug, Clone)]
pub struct UiConfig {
    pub enable_colors: bool,
    pub theme: ThemeConfig,
    pub tui: TuiConfig,
}

/// Theme configuration.
#[derive(Debug, Clone)]
pub struct ThemeConfig {
    pub color_scheme: String,
    pub use_unicode: bool,
}

/// Terminal-interface configuration. The refresh rate is in milliseconds.
#[derive(Debug, Clone)]
pub struct TuiConfig {
    pub refresh_rate_millis: u64,
    pub max_log_lines: usize,
    pub show_help_by_default: bool,
}

/// Application configuration tree.
#[derive(Debug, Clone)]
pub struct AppConfig {
    pub api: ApiConfig,
    pub output: OutputConfig,
    pub execution: ExecutionConfig,
    pub ui: UiConfig,
}

impl Default for ApiConfig {
    fn default() -> (r: Self)
        ensures
            r.base_url@ == "https://api.firecrawl.dev"@,
            r.api_key is None,
            r.timeout_secs == 30,
            r.max_retries == 3,
            r.retry_delay_millis == 1000,
            r.user_agent is None,
            r.proxy is None,
    {
        ApiConfig {
            base_url: String::from_str("https://api.firecrawl.dev"),
            api_key: None,
            timeout_secs: 30,
            max_retries: 3,
            retry_delay_millis: 1000,
            user_agent: None,
            proxy: None,
        }
    }
}

impl Default for OutputConfig {
    fn default() -> (r: Self)
        ensures
            r.default_directory@ == "./output"@,
            r.default_format == OutputFormat::Markdown,
            !r.create_date_subdirectories,
            r.filename_prefix is None,
            !r.overwrite_existing,
            r.max_filename_length == 255,
    {
        OutputConfig {
            default_directory: String::from_str("./output"),
            default_format: OutputFormat::Markdown,
            create_date_subdirectories: false,
            filename_prefix: None,
            overwrite_existing: false,
            max_filename_length: 255,
        }
    }
}

impl Default for CacheConfig {
    fn default() -> (r: Self)
        ensures
            !r.enabled,
            r.directory@ == "./cache"@,
            r.ttl_millis == 3600000,
            r.max_size_mb == 100,
    {
        CacheConfig {
            enabled: false,
            directory: String::from_str("./cache"),
            ttl_millis: 3600000,
            max_size_mb: 100,
        }
    }
}

impl Default for ExecutionConfig {
    fn default() -> (r: Self)
        ensures
            r.max_concurrent_tasks == 4,
            r.default_crawl_limit == Some(10u32),
            r.progress_update_interval_millis == 500,
            !r.verbose_logging,
            !r.cache.enabled,
            r.cache.directory@ == "./cache"@,
            r.cache.ttl_millis == 3600000,
            r.cache.max_size_mb == 100,
    {
        ExecutionConfig {
            max_concurrent_tasks: 4,
            default_crawl_limit: Some(10),
            progress_update_interval_millis: 500,
            verbose_logging: false,
            cache: CacheConfig::default(),
        }
    }
}

impl Default for ThemeConfig {
    fn default() -> (r: Self)
        ensures
            r.color_scheme@ == "default"@,
            r.use_unicode,
    {
        ThemeConfig { color_scheme: String::from_str("default"), use_unicode: true }
    }
}

impl Default for TuiConfig {
    fn default() -> (r: Self)
        ensures
            r.refresh_rate_millis == 100,
            r.max_log_lines == 1000,
            r.show_help_by_default,
    {
        TuiConfig { refresh_rate_millis: 100, max_log_lines: 1000, show_help_by_default: true }
    }
}

impl Default for UiConfig {
    fn default() -> (r: Self)
        ensures
            r.enable_colors,
            r.theme.color_scheme@ == "default"@,
            r.theme.use_unicode,
            r.tui.refresh_rate_millis == 100,
            r.tui.max_log_lines == 1000,
            r.tui.show_help_by_default,
    {
        UiConfig { enable_colors: true, theme: ThemeConfig::default(), tui: TuiConfig::default() }
    }
}

impl Default for AppConfig {
    fn default() -> (r: Self)
        ensures
            r.api.base_url@ == "https://api.firecrawl.dev"@,
            r.api.api_key is None,
            r.api.timeout_secs == 30,
            r.api.max_retries == 3,
            r.api.retry_delay_millis == 1000,
            r.api.user_agent is None,
            r.api.proxy is None,
            r.output.default_directory@ == "./output"@,
            r.output.default_format == OutputFormat::Markdown,
            !r.output.create_date_subdirectories,
            r.output.filename_prefix is None,
            !r.output.overwrite_existing,
            r.output.max_filename_length == 255,
            r.execution.max_concurrent_tasks == 4,
            r.execution.default_crawl_limit == Some(10u32),
            r.execution.progress_update_interval_millis == 500,
            !r.execution.verbose_logging,
            !r.execution.cache.enabled,
            r.execution.cache.directory@ == "./cache"@,
            r.execution.cache.ttl_millis == 3600000,
            r.execution.cache.max_size_mb == 100,
            r.ui.enable_colors,
            r.ui.theme.color_scheme@ == "default"@,
            r.ui.theme.use_unicode,
            r.ui.tui.refresh_rate_millis == 100,
            r.ui.tui.max_log_lines == 1000,
            r.ui.tui.show_help_by_default,
    {
        AppConfig {
            api: ApiConfig::default(),
            output: OutputConfig::default(),
            execution: ExecutionConfig::default(),
            ui: UiConfig::default(),
        }
    }
}

impl AppConfig {
    /// Whether every validation rule holds.
    pub open spec fn spec_is_valid(self) -> bool {
        &&& self.api.base_url@.len() > 0
        &&& self.api.timeout_secs > 0
        &&& self.execution.max_concurrent_tasks > 0
        &&& self.output.max_filename_length > 0
        &&& (self.api.proxy matches Some(p) ==> p.url@.len() > 0)
    }

    /// The message of the first validation rule that fails, checked in order.
    pub open spec fn spec_first_violation(self) -> Seq<char> {
        if self.api.base_url@.len() == 0 {
            "API base URL cannot be empty"@
        } else if self.api.timeout_secs == 0 {
            "API timeout must be greater than 0"@
        } else if self.execution.max_concurrent_tasks == 0 {
            "Max concurrent tasks must be greater than 0"@
        } else if self.output.max_filename_length == 0 {
            "Max filename length must be greater than 0"@
        } else {
            "Proxy URL cannot be empty"@
        }
    }

    /// Validates the configuration: `Ok` exactly when every rule holds, else
    /// a configuration error carrying the first violated rule's message.
    pub fn validate(&self) -> (r: FirecrawlResult<()>)
        ensures
            (r matches Ok(())) <==> self.spec_is_valid(),
            !self.spec_is_valid() ==> (r matches Err(e) && e matches
                FirecrawlError::ConfigurationError(m) && m@ == self.spec_first_violation()),
    {
        if self.api.base_url.as_str().unicode_len() == 0 {
            return Err(
                FirecrawlError::ConfigurationError(
                    String::from_str("API base URL cannot be empty"),
                ),
            );
        }
        if self.api.timeout_secs == 0 {
            return Err(
                FirecrawlError::ConfigurationError(
                    String::from_str("API timeout must be greater than 0"),
                ),
            );
        }
        if self.execution.max_concurrent_tasks == 0 {
            return Err(
                FirecrawlError::ConfigurationError(
                    String::from_str("Max concurrent tasks must be greater than 0"),
                ),
            );
        }
        if self.output.max_filename_length == 0 {
            return Err(
                FirecrawlError::ConfigurationError(
                    String::from_str("Max filename length must be greater than 0"),
                ),
            );
        }
        if let Some(proxy) = &self.api.proxy {
            if proxy.url.as_str().unicode_len() == 0 {
                return Err(
                    FirecrawlError::ConfigurationError(
                        String::from_str("Proxy URL cannot be empty"),
                    ),
                );
            }
        }
        Ok(())
    }

    /// The effective output directory: the configured default, with a
    /// date-named subdirectory appended when that option is on. The date
    /// comes from the wall clock, so only the prefix is pinned down.
    pub fn get_effective_output_dir(&self) -> (r: String)
        ensures
            !self.output.create_date_subdirectories ==> r@ == self.output.default_directory@,
            self.output.create_date_subdirectories ==> {
                &&& r@.len() > self.output.default_directory@.len()
                &&& r@.subrange(0, self.output.default_directory@.len() + 1 as int)
                    == self.output.default_directory@.push('/')
            },
    {
        if self.output.create_date_subdirectories {
            let date_str = current_date_string();
            let r = self.output.default_directory.clone().concat("/").concat(date_str.as_str());
            proof {
                reveal_strlit("/");
                assert(r@.subrange(0, self.output.default_directory@.len() + 1 as int)
                    =~= self.output.default_directory@.push('/'));
            }
            r
        } else {
            self.output.default_directory.clone()
        }
    }

    /// Starts a configuration builder.
    pub fn builder() -> (r: AppConfigBuilder)
        ensures
            r.config.api.base_url@ == "https://api.firecrawl.dev"@,
            r.config.api.api_key is None,
            r.config.api.timeout_secs == 30,
            r.config.api.max_retries == 3,
            r.config.api.retry_delay_millis == 1000,
            r.config.api.user_agent is None,
            r.config.api.proxy is None,
            r.config.output.default_directory@ == "./output"@,
            r.config.output.default_format == OutputFormat::Markdown,
            !r.config.output.create_date_subdirectories,
            r.config.output.filename_prefix is None,
            !r.config.output.overwrite_existing,
            r.config.output.max_filename_length == 255,
            r.config.execution.max_concurrent_tasks == 4,
            r.config.execution.default_crawl_limit == Some(10u32),
            r.config.execution.progress_update_interval_millis == 500,
            !r.config.execution.verbose_logging,
            !r.config.execution.cache.enabled,
            r.config.execution.cache.directory@ == "./cache"@,
            r.config.execution.cache.ttl_millis == 3600000,
            r.config.execution.cache.max_size_mb == 100,
            r.config.ui.enable_colors,
            r.config.ui.theme.color_scheme@ == "default"@,
            r.config.ui.theme.use_unicode,
            r.config.ui.tui.refresh_rate_millis == 100,
            r.config.ui.tui.max_log_lines == 1000,
            r.config.ui.tui.show_help_by_default,
    {
        AppConfigBuilder::new()
    }
}

/// Builder for `AppConfig`, starting from the defaults.
pub struct AppConfigBuilder {
    pub config: AppConfig,
}

impl AppConfigBuilder {
    /// Starts from the default configuration.
    pub fn new() -> (r: Self)
        ensures
            r.config.api.base_url@ == "https://api.firecrawl.dev"@,
            r.config.api.api_key is None,
            r.config.api.timeout_secs == 30,
            r.config.api.max_retries == 3,
            r.config.api.retry_delay_millis == 1000,
            r.config.api.user_agent is None,
            r.config.api.proxy is None,
            r.config.output.default_directory@ == "./output"@,
            r.config.output.default_format == OutputFormat::Markdown,
            !r.config.output.create_date_subdirectories,
            r.config.output.filename_prefix is None,
            !r.config.output.overwrite_existing,
            r.config.output.max_filename_length == 255,
            r.config.execution.max_concurrent_tasks == 4,
            r.config.execution.default_crawl_limit == Some(10u32),
            r.config.execution.progress_update_interval_millis == 500,
            !r.config.execution.verbose_logging,
            !r.config.execution.cache.enabled,
            r.config.execution.cache.directory@ == "./cache"@,
            r.config.execution.cache.ttl_millis == 3600000,
            r.config.execution.cache.max_size_mb == 100,
            r.config.ui.enable_colors,
            r.config.ui.theme.color_scheme@ == "default"@,
            r.config.ui.theme.use_unicode,
            r.config.ui.tui.refresh_rate_millis == 100,
            r.config.ui.tui.max_log_lines == 1000,
            r.config.ui.tui.show_help_by_default,
    {
        AppConfigBuilder { config: AppConfig::default() }
    }

    /// Sets the API base URL.
    pub fn api_url(self, url: String) -> (r: Self)
        ensures
            r.config == (AppConfig {
                api: (ApiConfig { base_url: url, ..self.config.api }),
                ..self.config
            }),
    {
        let mut b = self;
        b.config.api.base_url = url;
        b
    }

    /// Sets the API key.
    pub fn api_key(self, key: Option<String>) -> (r: Self)
        ensures
            r.config == (AppConfig {
                api: (ApiConfig { api_key: key, ..self.config.api }),
                ..self.config
            }),
    {
        let mut b = self;
        b.config.api.api_key = key;
        b
    }

    /// Sets the request timeout, in seconds.
    pub fn timeout(self, timeout_secs: u64) -> (r: Self)
        ensures
            r.config == (AppConfig {
                api: (ApiConfig { timeout_secs: timeout_secs, ..self.config.api }),
                ..self.config
            }),
    {
        let mut b = self;
        b.config.api.timeout_secs = timeout_secs;
        b
    }

    /// Sets the default output directory.
    pub fn output_directory(self, dir: String) -> (r: Self)
        ensures
            r.config == (AppConfig {
                output: (OutputConfig { default_directory: dir, ..self.config.output }),
                ..self.config
            }),
    {
        let mut b = self;
        b.config.output.default_directory = dir;
        b
    }

    /// Sets the default output format.
    pub fn output_format(self, format: OutputFormat) -> (r: Self)
        ensures
            r.config == (AppConfig {
                output: (OutputConfig { default_format: format, ..self.config.output }),
                ..self.config
            }),
    {
        let mut b = self;
        b.config.output.default_format = format;
        b
    }

    /// Sets the maximum number of concurrent tasks.
    pub fn max_concurrent_tasks(self, max: usize) -> (r: Self)
        ensures
            r.config == (AppConfig {
                execution: (ExecutionConfig {
                    max_concurrent_tasks: max,
                    ..self.config.execution
                }),
                ..self.config
            }),
    {
        let mut b = self;
        b.config.execution.max_concurrent_tasks = max;
        b
    }

    /// Switches result caching on or off.
    pub fn enable_caching(self, enabled: bool) -> (r: Self)
        ensures
            r.config == (AppConfig {
                execution: (ExecutionConfig {
                    cache: (CacheConfig { enabled: enabled, ..self.config.execution.cache }),
                    ..self.config.execution
                }),
                ..self.config
            }),
    {
        let mut b = self;
        b.config.execution.cache.enabled = enabled;
        b
    }

    /// Switches verbose logging on or off.
    pub fn verbose_logging(self, enabled: bool) -> (r: Self)
        ensures
            r.config == (AppConfig {
                execution: (ExecutionConfig {
                    verbose_logging: enabled,
                    ..self.config.execution
                }),
                ..self.config
            }),
    {
        let mut b = self;
        b.config.execution.verbose_logging = enabled;
        b
    }

    /// Validates and hands out the configuration.
    pub fn build(self) -> (r: FirecrawlResult<AppConfig>)
        ensures
            self.config.spec_is_valid() ==> (r matches Ok(c) && c == self.config),
            !self.config.spec_is_valid() ==> (r matches Err(e) && e matches
                FirecrawlError::ConfigurationError(m) && m@ == self.config.spec_first_violation()),
    {
        match self.config.validate() {
            Ok(()) => Ok(self.config),
            Err(e) => Err(e),
        }
    }
}

} // verus!
