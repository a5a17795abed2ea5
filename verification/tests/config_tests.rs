use firecrawl_cli::cli::OutputFormat;
use firecrawl_cli::client_builder::FirecrawlClientBuilder;
use firecrawl_cli::config::{ApiConfig, AppConfig, AppConfigBuilder};
use firecrawl_cli::environment::{load_from_env, parse_bool, parse_output_format, EnvSettings};
use firecrawl_cli::errors::FirecrawlError;
use firecrawl_cli::loader::ConfigLoader;

#[test]
fn test_client_builder_default() {
    let builder = FirecrawlClientBuilder::new();
    assert_eq!(builder.max_retries, 3);
    assert_eq!(builder.timeout_secs, 30);
    assert!(builder.http2);
    assert!(builder.compression);
}

#[test]
fn test_client_builder_configuration() {
    let builder = FirecrawlClientBuilder::new()
        .base_url("https://test.example.com".to_string())
        .api_key(Some("test-key".to_string()))
        .timeout(60)
        .max_retries(5)
        .user_agent(Some("test-agent".to_string()));

    assert_eq!(builder.base_url, Some("https://test.example.com".to_string()));
    assert_eq!(builder.api_key, Some("test-key".to_string()));
    assert_eq!(builder.timeout_secs, 60);
    assert_eq!(builder.max_retries, 5);
    assert_eq!(builder.user_agent, Some("test-agent".to_string()));
}

#[test]
fn test_from_config() {
    let config = ApiConfig {
        base_url: "https://test.example.com".to_string(),
        api_key: Some("test-key".to_string()),
        timeout_secs: 45,
        max_retries: 2,
        retry_delay_millis: 500,
        user_agent: Some("test-agent".to_string()),
        proxy: None,
    };

    let builder = FirecrawlClientBuilder::from_config(&config);
    assert_eq!(builder.base_url, Some("https://test.example.com".to_string()));
    assert_eq!(builder.api_key, Some("test-key".to_string()));
    assert_eq!(builder.timeout_secs, 45);
    assert_eq!(builder.max_retries, 2);
}

#[test]
fn test_parse_output_format() {
    assert_eq!(parse_output_format("markdown"), Ok(OutputFormat::Markdown));
    assert_eq!(parse_output_format("MD"), Ok(OutputFormat::Markdown));
    assert_eq!(parse_output_format("html"), Ok(OutputFormat::Html));
    assert_eq!(parse_output_format("HTML"), Ok(OutputFormat::Html));
    assert_eq!(parse_output_format("json"), Ok(OutputFormat::Json));
    assert_eq!(parse_output_format("raw"), Ok(OutputFormat::Raw));
    assert_eq!(parse_output_format("txt"), Ok(OutputFormat::Raw));
    assert!(parse_output_format("invalid").is_err());
}

#[test]
fn test_parse_bool() {
    assert!(parse_bool("true"));
    assert!(parse_bool("TRUE"));
    assert!(parse_bool("1"));
    assert!(parse_bool("yes"));
    assert!(parse_bool("YES"));
    assert!(parse_bool("on"));
    assert!(parse_bool("enabled"));

    assert!(!parse_bool("false"));
    assert!(!parse_bool("FALSE"));
    assert!(!parse_bool("0"));
    assert!(!parse_bool("no"));
    assert!(!parse_bool("off"));
    assert!(!parse_bool("disabled"));
    assert!(!parse_bool("invalid"));
}

#[test]
fn test_load_from_env() {
    let mut settings = EnvSettings::default();
    settings.api_key = Some("test-key".to_string());
    settings.timeout = Some("60".to_string());
    settings.max_concurrent_tasks = Some("8".to_string());
    settings.verbose_logging = Some("true".to_string());

    let config = load_from_env(settings).unwrap();

    assert_eq!(config.api.api_key, Some("test-key".to_string()));
    assert_eq!(config.api.timeout_secs, 60);
    assert_eq!(config.execution.max_concurrent_tasks, 8);
    assert!(config.execution.verbose_logging);
}

#[test]
fn test_load_from_env_rejects_zero_timeout() {
    let mut settings = EnvSettings::default();
    settings.timeout = Some("0".to_string());
    let result = load_from_env(settings);
    assert!(matches!(
        result,
        Err(FirecrawlError::ConfigurationError(_))
    ));
}

#[test]
fn test_generate_sample_config() {
    let sample = ConfigLoader::generate_sample_config();
    assert!(!sample.is_empty());
    assert!(sample.contains("[api]"));
    assert!(sample.contains("[output]"));
}

#[test]
fn test_default_config_paths() {
    let paths = ConfigLoader::default_config_paths(Some("/home/someone"));
    assert!(!paths.is_empty());
    assert!(paths.iter().any(|p| p.contains("firecrawl.toml")));
    assert_eq!(paths.len(), 15);
    assert_eq!(paths[6], "/home/someone/.config/firecrawl/config.toml");

    let without_home = ConfigLoader::default_config_paths(None);
    assert_eq!(without_home.len(), 9);
}

#[test]
fn test_validate_rejects_empty_base_url() {
    let mut config = AppConfig::default();
    config.api.base_url = String::new();
    match config.validate() {
        Err(FirecrawlError::ConfigurationError(m)) => {
            assert_eq!(m, "API base URL cannot be empty");
        }
        other => panic!("expected a configuration error, got {:?}", other),
    }
}

#[test]
fn test_validate_rejects_zero_concurrency() {
    let result = AppConfigBuilder::new().max_concurrent_tasks(0).build();
    match result {
        Err(FirecrawlError::ConfigurationError(m)) => {
            assert_eq!(m, "Max concurrent tasks must be greater than 0");
        }
        other => panic!("expected a configuration error, got {:?}", other),
    }
}

#[test]
fn test_config_builder_roundtrip() {
    let config = AppConfig::builder()
        .api_url("https://self-hosted.example".to_string())
        .api_key(Some("k".to_string()))
        .timeout(12)
        .output_directory("./somewhere".to_string())
        .output_format(OutputFormat::Json)
        .max_concurrent_tasks(2)
        .enable_caching(true)
        .verbose_logging(true)
        .build()
        .unwrap();
    assert_eq!(config.api.base_url, "https://self-hosted.example");
    assert_eq!(config.api.timeout_secs, 12);
    assert_eq!(config.output.default_format, OutputFormat::Json);
    assert!(config.execution.cache.enabled);
    assert!(config.execution.verbose_logging);
}

#[test]
fn test_apply_env_overrides() {
    let mut file_config = AppConfig::default();
    file_config.api.base_url = "https://from-file.example".to_string();
    file_config.execution.max_concurrent_tasks = 9;

    let mut env_config = AppConfig::default();
    env_config.api.api_key = Some("env-key".to_string());
    env_config.api.timeout_secs = 77;

    let merged = ConfigLoader::apply_env_overrides(file_config, env_config).unwrap();
    assert_eq!(merged.api.base_url, "https://from-file.example");
    assert_eq!(merged.api.api_key, Some("env-key".to_string()));
    assert_eq!(merged.api.timeout_secs, 77);
    assert_eq!(merged.execution.max_concurrent_tasks, 9);
}

#[test]
fn test_default_header_overwrites_by_name() {
    let builder = FirecrawlClientBuilder::new()
        .default_header("X-Team".to_string(), "alpha".to_string())
        .default_header("X-Trace".to_string(), "1".to_string())
        .default_header("X-Team".to_string(), "beta".to_string());
    // Setting a header under an existing name replaces it in place: no
    // duplicate names, order kept.
    assert_eq!(
        builder.default_headers,
        vec![
            ("X-Team".to_string(), "beta".to_string()),
            ("X-Trace".to_string(), "1".to_string()),
        ]
    );

    let bulk = builder.default_headers(vec![
        ("X-Trace".to_string(), "2".to_string()),
        ("X-New".to_string(), "n".to_string()),
    ]);
    assert_eq!(
        bulk.default_headers,
        vec![
            ("X-Team".to_string(), "beta".to_string()),
            ("X-Trace".to_string(), "2".to_string()),
            ("X-New".to_string(), "n".to_string()),
        ]
    );
}
