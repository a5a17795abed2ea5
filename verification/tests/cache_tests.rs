use firecrawl_cli::cache_service::{CacheKind, CacheServiceFactory, MemoryCacheService, NoOpCacheService};
use firecrawl_cli::cli::OutputFormat;
use firecrawl_cli::commands::CommandResult;
use firecrawl_cli::config::{AppConfig, CacheConfig};

fn create_test_scrape_result() -> CommandResult {
    CommandResult::Scrape {
        url: "https://example.com".to_string(),
        file_path: "/test/example.md".to_string(),
    }
}

fn enabled_cache(ttl_millis: u64) -> MemoryCacheService {
    MemoryCacheService::new(CacheConfig {
        enabled: true,
        directory: "/tmp/cache".to_string(),
        ttl_millis,
        max_size_mb: 100,
    })
}

#[test]
fn test_memory_cache_basic_operations() {
    let mut cache = enabled_cache(3600000);

    let result = create_test_scrape_result();
    cache.store_scrape_result("https://example.com", OutputFormat::Markdown, &result, 1000);

    let retrieved = cache.get_scrape_result("https://example.com", OutputFormat::Markdown, 1000);
    assert!(retrieved.is_some());

    assert!(cache.contains_entry("https://example.com", OutputFormat::Markdown, 1000));

    let miss = cache.get_scrape_result("https://nonexistent.com", OutputFormat::Markdown, 1000);
    assert!(miss.is_none());
}

#[test]
fn test_cache_statistics() {
    let mut cache = enabled_cache(3600000);

    let result = create_test_scrape_result();
    cache.store_scrape_result("https://example.com", OutputFormat::Markdown, &result, 50);
    cache.get_scrape_result("https://example.com", OutputFormat::Markdown, 60);
    cache.get_scrape_result("https://nonexistent.com", OutputFormat::Markdown, 70);

    let stats = cache.get_statistics();
    assert_eq!(stats.total_entries, 1);
    assert_eq!(stats.scrape_entries, 1);
    assert_eq!(stats.cache_hits, 1);
    assert_eq!(stats.cache_misses, 1);
    assert_eq!(stats.calculate_hit_rate(), 50);
}

#[test]
fn test_cache_expiration() {
    // A very short time-to-live: one millisecond.
    let mut cache = enabled_cache(1);

    let result = create_test_scrape_result();
    cache.store_scrape_result("https://example.com", OutputFormat::Markdown, &result, 100);

    // Ten milliseconds later the entry has expired.
    let retrieved = cache.get_scrape_result("https://example.com", OutputFormat::Markdown, 110);
    assert!(retrieved.is_none());

    // The expiry check removed the entry as a side effect.
    assert!(!cache.contains_entry("https://example.com", OutputFormat::Markdown, 110));
}

#[test]
fn test_put_with_zero_ttl_never_expires() {
    // Zero time-to-live means entries never expire.
    let mut cache = enabled_cache(0);
    let result = create_test_scrape_result();
    cache.store_scrape_result("https://example.com", OutputFormat::Markdown, &result, 0);

    let hits_before = cache.get_statistics().cache_hits;
    let retrieved =
        cache.get_scrape_result("https://example.com", OutputFormat::Markdown, u64::MAX);
    match retrieved {
        Some(CommandResult::Scrape { url, file_path }) => {
            assert_eq!(url, "https://example.com");
            assert_eq!(file_path, "/test/example.md");
        }
        other => panic!("expected the stored scrape result, got {:?}", other),
    }
    assert_eq!(cache.get_statistics().cache_hits, hits_before + 1);
}

#[test]
fn test_expired_entry_is_removed_and_counts_one_miss() {
    let mut cache = enabled_cache(1);
    let result = create_test_scrape_result();
    cache.store_scrape_result("https://example.com", OutputFormat::Markdown, &result, 1000);

    let misses_before = cache.get_statistics().cache_misses;
    let after = cache.get_scrape_result("https://example.com", OutputFormat::Markdown, 1002);
    assert!(after.is_none());
    let stats = cache.get_statistics();
    assert_eq!(stats.cache_misses, misses_before + 1);
    assert_eq!(stats.total_entries, 0);
    assert!(!cache.contains_entry("https://example.com", OutputFormat::Markdown, 1002));
}

#[test]
fn test_clean_expired_returns_removed_count() {
    let mut cache = enabled_cache(10);
    let result = create_test_scrape_result();
    cache.store_scrape_result("https://a.example", OutputFormat::Markdown, &result, 0);
    cache.store_scrape_result("https://b.example", OutputFormat::Markdown, &result, 100);
    cache.store_crawl_result("https://c.example", OutputFormat::Html, &result, 100);

    // At time 50 only the first entry (stored at 0, expiring at 10) is stale.
    let removed = cache.clean_expired(50);
    assert_eq!(removed, 1);
    let stats = cache.get_statistics();
    assert_eq!(stats.total_entries, 2);
    assert_eq!(stats.scrape_entries, 1);
    assert_eq!(stats.crawl_entries, 1);
}

#[test]
fn test_clear_resets_everything() {
    let mut cache = enabled_cache(0);
    let result = create_test_scrape_result();
    cache.store_scrape_result("https://example.com", OutputFormat::Markdown, &result, 5);
    cache.get_scrape_result("https://example.com", OutputFormat::Markdown, 6);

    cache.clear();
    let stats = cache.get_statistics();
    assert_eq!(stats.total_entries, 0);
    assert_eq!(stats.cache_hits, 0);
    assert_eq!(stats.cache_misses, 0);
    assert!(!cache.contains_entry("https://example.com", OutputFormat::Markdown, 6));
}

#[test]
fn test_overwrite_keeps_one_entry() {
    let mut cache = enabled_cache(0);
    let first = create_test_scrape_result();
    let second = CommandResult::Scrape {
        url: "https://example.com".to_string(),
        file_path: "/test/second.md".to_string(),
    };
    cache.store_scrape_result("https://example.com", OutputFormat::Markdown, &first, 1);
    cache.store_scrape_result("https://example.com", OutputFormat::Markdown, &second, 2);

    assert_eq!(cache.get_statistics().total_entries, 1);
    match cache.get_scrape_result("https://example.com", OutputFormat::Markdown, 3) {
        Some(CommandResult::Scrape { file_path, .. }) => {
            assert_eq!(file_path, "/test/second.md");
        }
        other => panic!("expected the overwritten result, got {:?}", other),
    }
}

#[test]
fn test_noop_cache_stores_nothing() {
    let cache = NoOpCacheService;
    let result = create_test_scrape_result();
    cache.store_scrape_result("https://example.com", OutputFormat::Markdown, &result);
    assert!(cache.get_scrape_result("https://example.com", OutputFormat::Markdown).is_none());
    assert!(!cache.contains_entry("https://example.com", OutputFormat::Markdown));
    assert_eq!(cache.clean_expired(), 0);
}

#[test]
fn test_factory_respects_enabled_flag() {
    let disabled = AppConfig::default();
    assert!(CacheServiceFactory::create_from_config(&disabled).is_none());

    let mut enabled = AppConfig::default();
    enabled.execution.cache.enabled = true;
    assert!(CacheServiceFactory::create_from_config(&enabled).is_some());
}

#[test]
fn test_put_with_explicit_ttl() {
    // The per-call time-to-live wins over the configured one.
    let mut cache = enabled_cache(3600000);
    let result = create_test_scrape_result();
    cache.put(CacheKind::Scrape, "https://example.com", OutputFormat::Markdown, &result, 1, 100);

    assert!(cache.contains_entry("https://example.com", OutputFormat::Markdown, 101));
    assert!(cache.get_scrape_result("https://example.com", OutputFormat::Markdown, 102).is_none());
}
