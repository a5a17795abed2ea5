//! Configuration file handling: where configuration files are looked for,
//! how environment values override a loaded file, and a sample file. The
//! reading, writing and parsing of the files themselves belong to the
//! surrounding program.

use vstd::prelude::*;

use crate::cli::OutputFormat;
use crate::config::{ApiConfig, AppConfig, ExecutionConfig, OutputConfig};
use crate::errors::{FirecrawlError, FirecrawlResult};
use crate::text::str_eq;

verus! {

/// Configuration file loader.
pub struct ConfigLoader;

/// The configuration that environment overrides yield: a key, or a
/// non-default URL, timeout, directory, format, concurrency bound or
/// verbosity read from the environment wins over the file's value.
pub open spec fn spec_apply_env_overrides(config: AppConfig, env_config: AppConfig) -> AppConfig {
    AppConfig {
        api: ApiConfig {
            api_key: if env_config.api.api_key is Some {
                env_config.api.api_key
            } else {
                config.api.api_key
            },
            base_url: if env_config.api.base_url@ != "https://api.firecrawl.dev"@ {
                env_config.api.base_url
            } else {
                config.api.base_url
            },
            timeout_secs: if env_config.api.timeout_secs != 30 {
                env_config.api.timeout_secs
            } else {
                config.api.timeout_secs
            },
            ..config.api
        },
        output: OutputConfig {
            default_directory: if env_config.output.default_directory@ != "./output"@ {
                env_config.output.default_directory
            } else {
                config.output.default_directory
            },
            default_format: if env_config.output.default_format != OutputFormat::Markdown {
                env_config.output.default_format
            } else {
                config.output.default_format
            },
            ..config.output
        },
        execution: ExecutionConfig {
            max_concurrent_tasks: if env_config.execution.max_concurrent_tasks != 4 {
                env_config.execution.max_concurrent_tasks
            } else {
                config.execution.max_concurrent_tasks
            },
            verbose_logging: config.execution.verbose_logging
                || env_config.execution.verbose_logging,
            ..config.execution
        },
        ui: config.ui,
    }
}

impl ConfigLoader {
    /// The default configuration file locations, in order of preference:
    /// the working directory, then the home directory where one is known,
    /// then the system-wide directory.
    pub fn default_config_paths(home_dir: Option<&str>) -> (r: Vec<String>)
        ensures
            r@.len() == (if home_dir is Some {
                15int
            } else {
                9int
            }),
            r@[0]@ == "firecrawl.toml"@,
            r@[1]@ == "firecrawl.yaml"@,
            r@[2]@ == "firecrawl.yml"@,
            r@[3]@ == ".firecrawl.toml"@,
            r@[4]@ == ".firecrawl.yaml"@,
            r@[5]@ == ".firecrawl.yml"@,
            home_dir matches Some(h) ==> {
                &&& r@[6]@ == h@ + "/.config/firecrawl/config.toml"@
                &&& r@[7]@ == h@ + "/.config/firecrawl/config.yaml"@
                &&& r@[8]@ == h@ + "/.config/firecrawl/config.yml"@
                &&& r@[9]@ == h@ + "/.firecrawl.toml"@
                &&& r@[10]@ == h@ + "/.firecrawl.yaml"@
                &&& r@[11]@ == h@ + "/.firecrawl.yml"@
                &&& r@[12]@ == "/etc/firecrawl/config.toml"@
                &&& r@[13]@ == "/etc/firecrawl/config.yaml"@
                &&& r@[14]@ == "/etc/firecrawl/config.yml"@
            },
            home_dir is None ==> {
                &&& r@[6]@ == "/etc/firecrawl/config.toml"@
                &&& r@[7]@ == "/etc/firecrawl/config.yaml"@
                &&& r@[8]@ == "/etc/firecrawl/config.yml"@
            },
    {
        let mut paths: Vec<String> = Vec::new();
        paths.push(String::from_str("firecrawl.toml"));
        paths.push(String::from_str("firecrawl.yaml"));
        paths.push(String::from_str("firecrawl.yml"));
        paths.push(String::from_str(".firecrawl.toml"));
        paths.push(String::from_str(".firecrawl.yaml"));
        paths.push(String::from_str(".firecrawl.yml"));
        if let Some(home) = home_dir {
            paths.push(String::from_str(home).concat("/.config/firecrawl/config.toml"));
            paths.push(String::from_str(home).concat("/.config/firecrawl/config.yaml"));
            paths.push(String::from_str(home).concat("/.config/firecrawl/config.yml"));
            paths.push(String::from_str(home).concat("/.firecrawl.toml"));
            paths.push(String::from_str(home).concat("/.firecrawl.yaml"));
            paths.push(String::from_str(home).concat("/.firecrawl.yml"));
        }
        paths.push(String::from_str("/etc/firecrawl/config.toml"));
        paths.push(String::from_str("/etc/firecrawl/config.yaml"));
        paths.push(String::from_str("/etc/firecrawl/config.yml"));
        paths
    }

    /// Applies environment overrides to a loaded configuration and
    /// validates the result: the merged configuration exactly when it is
    /// valid, else a configuration error.
    pub fn apply_env_overrides(config: AppConfig, env_config: AppConfig) -> (r: FirecrawlResult<
        AppConfig,
    >)
        ensures
            (r is Ok) == spec_apply_env_overrides(config, env_config).spec_is_valid(),
            r matches Ok(c) ==> c == spec_apply_env_overrides(config, env_config),
            r matches Err(e) ==> e matches FirecrawlError::ConfigurationError(_),
    {
        let mut merged = config;
        if env_config.api.api_key.is_some() {
            merged.api.api_key = env_config.api.api_key;
        }
        if !str_eq(env_config.api.base_url.as_str(), "https://api.firecrawl.dev") {
            merged.api.base_url = env_config.api.base_url;
        }
        if env_config.api.timeout_secs != 30 {
            merged.api.timeout_secs = env_config.api.timeout_secs;
        }
        if !str_eq(env_config.output.default_directory.as_str(), "./output") {
            merged.output.default_directory = env_config.output.default_directory;
        }
        if !(env_config.output.default_format == OutputFormat::Markdown) {
            merged.output.default_format = env_config.output.default_format;
        }
        if env_config.execution.max_concurrent_tasks != 4 {
            merged.execution.max_concurrent_tasks = env_config.execution.max_concurrent_tasks;
        }
        if env_config.execution.verbose_logging {
            merged.execution.verbose_logging = true;
        }
        match merged.validate() {
            Ok(()) => Ok(merged),
            Err(e) => Err(e),
        }
    }

    /// A sample configuration file with every setting at its default.
    pub fn generate_sample_config() -> (r: String)
        ensures
            r@ == spec_sample_config(),
    {
        String::from_str(SAMPLE_CONFIG)
    }
}

/// The text of the sample configuration file.
pub open spec fn spec_sample_config() -> Seq<char> {
    SAMPLE_CONFIG@
}

/// The sample configuration file with every setting at its default.
pub const SAMPLE_CONFIG: &'static str = "# Firecrawl CLI configuration\n\n[api]\nbase_url = \"https://api.firecrawl.dev\"\n# api_key = \"your-api-key-here\"\ntimeout_secs = 30\nmax_retries = 3\nretry_delay_millis = 1000\n\n[output]\ndefault_directory = \"./output\"\ndefault_format = \"markdown\"\ncreate_date_subdirectories = false\noverwrite_existing = false\nmax_filename_length = 255\n\n[execution]\nmax_concurrent_tasks = 4\nprogress_update_interval_millis = 500\nverbose_logging = false\n\n[execution.cache]\nenabled = false\ndirectory = \"./cache\"\nttl_millis = 3600000\nmax_size_mb = 100\n\n[ui]\nenable_colors = true\n\n[ui.theme]\ncolor_scheme = \"default\"\nuse_unicode = true\n\n[ui.tui]\nrefresh_rate_millis = 100\nmax_log_lines = 1000\nshow_help_by_default = true\n";

} // verus!
