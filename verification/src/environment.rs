//! Configuration from environment values: the variable names, the exact
//! parsers for formats, booleans and numbers, and the rules that turn a set
//! of read variable values into an application configuration.

use vstd::prelude::*;

use crate::cli::OutputFormat;
use crate::config::{ApiConfig, AppConfig, ExecutionConfig, OutputConfig, ProxyConfig, UiConfig};
use crate::errors::{FirecrawlError, FirecrawlResult};
use crate::text::{lower_seq, parse_u64, spec_parse_u64, str_eq, to_lowercase};

verus! {

/// Environment variable: the API base URL.
pub const API_URL: &'static str = "FIRECRAWL_API_URL";

/// Environment variable: the API key.
pub const API_KEY: &'static str = "FIRECRAWL_API_KEY";

/// Environment variable: the request timeout in seconds.
pub const TIMEOUT: &'static str = "FIRECRAWL_TIMEOUT";

/// Environment variable: the maximum number of retries.
pub const MAX_RETRIES: &'static str = "FIRECRAWL_MAX_RETRIES";

/// Environment variable: the delay between retries in milliseconds.
pub const RETRY_DELAY: &'static str = "FIRECRAWL_RETRY_DELAY";

/// Environment variable: the output directory.
pub const OUTPUT_DIR: &'static str = "FIRECRAWL_OUTPUT_DIR";

/// Environment variable: the default output format.
pub const DEFAULT_FORMAT: &'static str = "FIRECRAWL_DEFAULT_FORMAT";

/// Environment variable: the maximum number of concurrent tasks.
pub const MAX_CONCURRENT_TASKS: &'static str = "FIRECRAWL_MAX_CONCURRENT_TASKS";

/// Environment variable: verbose logging.
pub const VERBOSE_LOGGING: &'static str = "FIRECRAWL_VERBOSE";

/// Environment variable: result caching.
pub const CACHE_ENABLED: &'static str = "FIRECRAWL_CACHE_ENABLED";

/// Environment variable: the cache directory.
pub const CACHE_DIR: &'static str = "FIRECRAWL_CACHE_DIR";

/// Environment variable: the proxy URL.
pub const PROXY_URL: &'static str = "FIRECRAWL_PROXY_URL";

/// Environment variable: the custom user agent.
pub const USER_AGENT: &'static str = "FIRECRAWL_USER_AGENT";

/// Environment variable: colored output.
pub const ENABLE_COLORS: &'static str = "FIRECRAWL_COLORS";

/// The values read from the environment, one per variable; a variable that
/// was not set is `None`.
#[derive(Debug, Clone)]
pub struct EnvSettings {
    pub api_url: Option<String>,
    pub api_key: Option<String>,
    pub timeout: Option<String>,
    pub max_retries: Option<String>,
    pub retry_delay: Option<String>,
    pub output_dir: Option<String>,
    pub default_format: Option<String>,
    pub max_concurrent_tasks: Option<String>,
    pub verbose_logging: Option<String>,
    pub cache_enabled: Option<String>,
    pub cache_dir: Option<String>,
    pub proxy_url: Option<String>,
    pub proxy_username: Option<String>,
    pub proxy_password: Option<String>,
    pub user_agent: Option<String>,
    pub enable_colors: Option<String>,
}

impl Default for EnvSettings {
    fn default() -> (r: Self)
        ensures
            r.api_url is None,
            r.api_key is None,
            r.timeout is None,
            r.max_retries is None,
            r.retry_delay is None,
            r.output_dir is None,
            r.default_format is None,
            r.max_concurrent_tasks is None,
            r.verbose_logging is None,
            r.cache_enabled is None,
            r.cache_dir is None,
            r.proxy_url is None,
            r.proxy_username is None,
            r.proxy_password is None,
            r.user_agent is None,
            r.enable_colors is None,
    {
        EnvSettings {
            api_url: None,
            api_key: None,
            timeout: None,
            max_retries: None,
            retry_delay: None,
            output_dir: None,
            default_format: None,
            max_concurrent_tasks: None,
            verbose_logging: None,
            cache_enabled: None,
            cache_dir: None,
            proxy_url: None,
            proxy_username: None,
            proxy_password: None,
            user_agent: None,
            enable_colors: None,
        }
    }
}

/// The format a format name denotes, compared without regard to ASCII case:
/// `markdown` and `md`, `html`, `json`, `raw` and `txt`; anything else
/// denotes nothing.
pub open spec fn spec_parse_output_format(s: Seq<char>) -> Option<OutputFormat> {
    let l = lower_seq(s);
    if l == "markdown"@ || l == "md"@ {
        Some(OutputFormat::Markdown)
    } else if l == "html"@ {
        Some(OutputFormat::Html)
    } else if l == "json"@ {
        Some(OutputFormat::Json)
    } else if l == "raw"@ || l == "txt"@ {
        Some(OutputFormat::Raw)
    } else {
        None
    }
}

/// Parses an output format name, without regard to ASCII case.
pub fn parse_output_format(format_str: &str) -> (r: Result<OutputFormat, ()>)
    ensures
        match spec_parse_output_format(format_str@) {
            Some(f) => r == Result::<OutputFormat, ()>::Ok(f),
            None => r == Result::<OutputFormat, ()>::Err(()),
        },
{
    let lower = to_lowercase(format_str);
    let l = lower.as_str();
    if str_eq(l, "markdown") || str_eq(l, "md") {
        Ok(OutputFormat::Markdown)
    } else if str_eq(l, "html") {
        Ok(OutputFormat::Html)
    } else if str_eq(l, "json") {
        Ok(OutputFormat::Json)
    } else if str_eq(l, "raw") || str_eq(l, "txt") {
        Ok(OutputFormat::Raw)
    } else {
        Err(())
    }
}

/// The truth a text denotes, compared without regard to ASCII case: `true`,
/// `1`, `yes`, `on` and `enabled` are true; everything else is false.
pub open spec fn spec_parse_bool(s: Seq<char>) -> bool {
    let l = lower_seq(s);
    ||| l == "true"@
    ||| l == "1"@
    ||| l == "yes"@
    ||| l == "on"@
    ||| l == "enabled"@
}

/// Parses a boolean value, without regard to ASCII case.
pub fn parse_bool(value: &str) -> (r: bool)
    ensures
        r == spec_parse_bool(value@),
{
    let lower = to_lowercase(value);
    let l = lower.as_str();
    str_eq(l, "true") || str_eq(l, "1") || str_eq(l, "yes") || str_eq(l, "on") || str_eq(
        l,
        "enabled",
    )
}

/// The timeout that a read value yields: the parse of the text where it is a
/// numeral, else the default.
pub open spec fn spec_env_u64(v: Option<String>, dflt: u64) -> u64 {
    match v {
        Some(t) => match spec_parse_u64(t@) {
            Some(n) => n,
            None => dflt,
        },
        None => dflt,
    }
}

/// The base URL the settings yield.
pub open spec fn spec_env_base_url(settings: EnvSettings) -> Seq<char> {
    match settings.api_url {
        Some(u) => u@,
        None => "https://api.firecrawl.dev"@,
    }
}

/// Whether the configuration built from the settings passes validation.
pub open spec fn spec_env_valid(settings: EnvSettings) -> bool {
    &&& spec_env_base_url(settings).len() > 0
    &&& spec_env_u64(settings.timeout, 30) > 0
    &&& (match settings.max_concurrent_tasks {
        Some(t) => match spec_parse_u64(t@) {
            Some(n) => n <= usize::MAX ==> n > 0,
            None => true,
        },
        None => true,
    })
    &&& (settings.proxy_url matches Some(u) ==> u@.len() > 0)
}

/// The API section that a set of environment values denotes.
fn env_api_config(
    api_url: Option<String>,
    api_key: Option<String>,
    timeout: Option<String>,
    max_retries: Option<String>,
    retry_delay: Option<String>,
    user_agent: Option<String>,
    proxy_url: Option<String>,
    proxy_username: Option<String>,
    proxy_password: Option<String>,
) -> (c: ApiConfig)
    ensures
        c.base_url@ == (match api_url {
            Some(u) => u@,
            None => "https://api.firecrawl.dev"@,
        }),
        c.api_key == api_key,
        c.timeout_secs == spec_env_u64(timeout, 30),
        c.max_retries == (match max_retries {
            Some(t) => match spec_parse_u64(t@) {
                Some(n) => if n <= u32::MAX {
                    n as u32
                } else {
                    3u32
                },
                None => 3u32,
            },
            None => 3u32,
        }),
        c.retry_delay_millis == spec_env_u64(retry_delay, 1000),
        c.user_agent == user_agent,
        (proxy_url matches Some(u) ==> c.proxy matches Some(p) && p.url == u && p.username
            == proxy_username && p.password == proxy_password),
        (proxy_url is None ==> c.proxy is None),
{
    let mut api = ApiConfig::default();
    if let Some(url) = api_url {
        api.base_url = url;
    }
    if let Some(key) = api_key {
        api.api_key = Some(key);
    }
    if let Some(timeout_str) = timeout {
        if let Some(secs) = parse_u64(timeout_str.as_str()) {
            api.timeout_secs = secs;
        }
    }
    if let Some(retries_str) = max_retries {
        if let Some(retries) = parse_u64(retries_str.as_str()) {
            if retries <= u32::MAX as u64 {
                api.max_retries = retries as u32;
            }
        }
    }
    if let Some(delay_str) = retry_delay {
        if let Some(millis) = parse_u64(delay_str.as_str()) {
            api.retry_delay_millis = millis;
        }
    }
    if let Some(agent) = user_agent {
        api.user_agent = Some(agent);
    }
    if let Some(url) = proxy_url {
        api.proxy = Some(ProxyConfig { url, username: proxy_username, password: proxy_password });
    }
    api
}

/// The output section that a set of environment values denotes.
fn env_output_config(output_dir: Option<String>, default_format: Option<String>) -> (c:
    OutputConfig)
    ensures
        (output_dir matches Some(d) ==> c.default_directory == d),
        (output_dir is None ==> c.default_directory@ == "./output"@),
        c.default_format == (match default_format {
            Some(f) => match spec_parse_output_format(f@) {
                Some(fmt) => fmt,
                None => OutputFormat::Markdown,
            },
            None => OutputFormat::Markdown,
        }),
        c.max_filename_length == 255,
{
    let mut output = OutputConfig::default();
    if let Some(dir) = output_dir {
        output.default_directory = dir;
    }
    if let Some(format_str) = default_format {
        if let Ok(format) = parse_output_format(format_str.as_str()) {
            output.default_format = format;
        }
    }
    output
}

/// The execution section that a set of environment values denotes.
fn env_execution_config(
    max_concurrent_tasks: Option<String>,
    verbose_logging: Option<String>,
    cache_enabled: Option<String>,
    cache_dir: Option<String>,
) -> (c: ExecutionConfig)
    ensures
        c.max_concurrent_tasks == (match max_concurrent_tasks {
            Some(t) => match spec_parse_u64(t@) {
                Some(n) => if n <= usize::MAX {
                    n as usize
                } else {
                    4usize
                },
                None => 4usize,
            },
            None => 4usize,
        }),
        c.verbose_logging == (match verbose_logging {
            Some(v) => spec_parse_bool(v@),
            None => false,
        }),
        c.cache.enabled == (match cache_enabled {
            Some(v) => spec_parse_bool(v@),
            None => false,
        }),
        (cache_dir matches Some(d) ==> c.cache.directory == d),
        (cache_dir is None ==> c.cache.directory@ == "./cache"@),
{
    let mut execution = ExecutionConfig::default();
    if let Some(max_tasks_str) = max_concurrent_tasks {
        if let Some(max_tasks) = parse_u64(max_tasks_str.as_str()) {
            if max_tasks <= usize::MAX as u64 {
                execution.max_concurrent_tasks = max_tasks as usize;
            }
        }
    }
    if let Some(verbose_str) = verbose_logging {
        execution.verbose_logging = parse_bool(verbose_str.as_str());
    }
    if let Some(cache_str) = cache_enabled {
        execution.cache.enabled = parse_bool(cache_str.as_str());
    }
    if let Some(dir) = cache_dir {
        execution.cache.directory = dir;
    }
    execution
}

/// Builds the application configuration from values read from the
/// environment. Every set variable overrides the default; a numeric or
/// format value that does not parse is ignored. The result is validated:
/// success exactly when the resulting configuration is valid.
pub fn load_from_env(settings: EnvSettings) -> (r: FirecrawlResult<AppConfig>)
    ensures
        (r is Ok) == spec_env_valid(settings),
        r matches Err(e) ==> e matches FirecrawlError::ConfigurationError(_),
        r matches Ok(c) ==> {
            &&& c.api.base_url@ == spec_env_base_url(settings)
            &&& c.api.api_key == settings.api_key
            &&& c.api.timeout_secs == spec_env_u64(settings.timeout, 30)
            &&& c.api.retry_delay_millis == spec_env_u64(settings.retry_delay, 1000)
            &&& c.api.max_retries == (match settings.max_retries {
                Some(t) => match spec_parse_u64(t@) {
                    Some(n) => if n <= u32::MAX {
                        n as u32
                    } else {
                        3u32
                    },
                    None => 3u32,
                },
                None => 3u32,
            })
            &&& c.execution.max_concurrent_tasks == (match settings.max_concurrent_tasks {
                Some(t) => match spec_parse_u64(t@) {
                    Some(n) => if n <= usize::MAX {
                        n as usize
                    } else {
                        4usize
                    },
                    None => 4usize,
                },
                None => 4usize,
            })
            &&& c.api.user_agent == settings.user_agent
            &&& (settings.proxy_url matches Some(u) ==> c.api.proxy matches Some(p) && p.url == u
                && p.username == settings.proxy_username && p.password
                == settings.proxy_password)
            &&& (settings.proxy_url is None ==> c.api.proxy is None)
            &&& (settings.output_dir matches Some(d) ==> c.output.default_directory == d)
            &&& (settings.output_dir is None ==> c.output.default_directory@ == "./output"@)
            &&& c.output.default_format == (match settings.default_format {
                Some(f) => match spec_parse_output_format(f@) {
                    Some(fmt) => fmt,
                    None => OutputFormat::Markdown,
                },
                None => OutputFormat::Markdown,
            })
            &&& c.execution.verbose_logging == (match settings.verbose_logging {
                Some(v) => spec_parse_bool(v@),
                None => false,
            })
            &&& c.execution.cache.enabled == (match settings.cache_enabled {
                Some(v) => spec_parse_bool(v@),
                None => false,
            })
            &&& (settings.cache_dir matches Some(d) ==> c.execution.cache.directory == d)
            &&& (settings.cache_dir is None ==> c.execution.cache.directory@ == "./cache"@)
            &&& c.ui.enable_colors == (match settings.enable_colors {
                Some(v) => spec_parse_bool(v@),
                None => true,
            })
        },
{
    let ghost settings0 = settings;
    let api = env_api_config(
        settings.api_url,
        settings.api_key,
        settings.timeout,
        settings.max_retries,
        settings.retry_delay,
        settings.user_agent,
        settings.proxy_url,
        settings.proxy_username,
        settings.proxy_password,
    );
    let output = env_output_config(settings.output_dir, settings.default_format);
    let execution = env_execution_config(
        settings.max_concurrent_tasks,
        settings.verbose_logging,
        settings.cache_enabled,
        settings.cache_dir,
    );
    let mut ui = UiConfig::default();
    if let Some(colors_str) = settings.enable_colors {
        ui.enable_colors = parse_bool(colors_str.as_str());
    }
    let config = AppConfig { api, output, execution, ui };
    proof {
        assert(config.spec_is_valid() == spec_env_valid(settings0));
    }
    match config.validate() {
        Ok(()) => Ok(config),
        Err(e) => Err(e),
    }
}

/// The environment documentation text.
pub open spec fn spec_env_docs() -> Seq<char> {
    ENV_DOCS@
}

/// Documentation of every environment variable the program reads.
pub fn get_env_docs() -> (r: String)
    ensures
        r@ == spec_env_docs(),
{
    String::from_str(ENV_DOCS)
}

pub const ENV_DOCS: &'static str = "Environment Variables for Firecrawl CLI:\n\nAPI Configuration:\n  FIRECRAWL_API_URL              Base URL for the Firecrawl API (default: https://api.firecrawl.dev)\n  FIRECRAWL_API_KEY                API key for authentication\n  FIRECRAWL_TIMEOUT              Request timeout in seconds (default: 30)\n  FIRECRAWL_MAX_RETRIES           Maximum number of retry attempts (default: 3)\n  FIRECRAWL_RETRY_DELAY          Delay between retries in milliseconds (default: 1000)\n  FIRECRAWL_USER_AGENT        Custom User-Agent string\n  FIRECRAWL_PROXY_URL            Proxy URL (e.g., http://proxy.example.com:8080)\n\nOutput Configuration:\n  FIRECRAWL_OUTPUT_DIR          Default output directory (default: ./output)\n  FIRECRAWL_DEFAULT_FORMAT       Default output format (markdown, html, json, raw)\n\nExecution Configuration:\n  FIRECRAWL_MAX_CONCURRENT_TASKS   Maximum number of concurrent tasks (default: 4)\n  FIRECRAWL_VERBOSE         Enable verbose logging (true/false)\n  FIRECRAWL_CACHE_ENABLED     Enable result caching (true/false)\n  FIRECRAWL_CACHE_DIR        Cache directory for storing results\n\nUI Configuration:\n  FIRECRAWL_COLORS         Enable colored output (true/false)\n\nProxy Authentication:\n  FIRECRAWL_PROXY_USERNAME   Proxy username (optional)\n  FIRECRAWL_PROXY_PASSWORD   Proxy password (optional)\n\nExamples:\n  export FIRECRAWL_API_KEY=your-api-key-here\n  export FIRECRAWL_OUTPUT_DIR=./my-output\n  export FIRECRAWL_MAX_CONCURRENT_TASKS=8\n  export FIRECRAWL_VERBOSE=true\n";

} // verus!
