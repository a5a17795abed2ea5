//! Builder for the remote-service client settings, with every transport
//! option the surrounding program may hand to its HTTP stack. Durations are
//! plain integers: seconds unless a field says milliseconds.

use vstd::prelude::*;

use crate::client::{EnhancedFirecrawlClient, FirecrawlClient};
use crate::config::{ApiConfig, ProxyConfig};
use crate::errors::{FirecrawlError, FirecrawlResult};
use crate::text::{clone_opt_string, spec_trim_trailing_slashes, str_eq, trim_trailing_slashes};

verus! {

/// Builder for client settings with comprehensive configuration options.
pub struct FirecrawlClientBuilder {
    pub base_url: Option<String>,
    pub api_key: Option<String>,
    pub timeout_secs: u64,
    pub connect_timeout_secs: u64,
    pub read_timeout_secs: u64,
    pub max_retries: u32,
    pub retry_delay_millis: u64,
    pub user_agent: Option<String>,
    pub proxy: Option<ProxyConfig>,
    pub default_headers: Vec<(String, String)>,
    pub pool_max_idle_per_host: usize,
    pub pool_idle_timeout_secs: u64,
    pub http2: bool,
    pub tcp_keepalive_secs: Option<u64>,
    pub tcp_nodelay: bool,
    pub compression: bool,
    pub follow_redirects: bool,
    pub redirect_limit: u32,
    pub enable_cookies: bool,
    pub validate_certs: bool,
}

impl Default for FirecrawlClientBuilder {
    fn default() -> (r: Self)
        ensures
            r.base_url is None,
            r.api_key is None,
            r.timeout_secs == 30,
            r.connect_timeout_secs == 10,
            r.read_timeout_secs == 30,
            r.max_retries == 3,
            r.retry_delay_millis == 1000,
            r.user_agent is None,
            r.proxy is None,
            r.default_headers@.len() == 0,
            r.pool_max_idle_per_host == 10,
            r.pool_idle_timeout_secs == 90,
            r.http2,
            r.tcp_keepalive_secs == Some(60u64),
            r.tcp_nodelay,
            r.compression,
            r.follow_redirects,
            r.redirect_limit == 5,
            !r.enable_cookies,
            r.validate_certs,
    {
        FirecrawlClientBuilder {
            base_url: None,
            api_key: None,
            timeout_secs: 30,
            connect_timeout_secs: 10,
            read_timeout_secs: 30,
            max_retries: 3,
            retry_delay_millis: 1000,
            user_agent: None,
            proxy: None,
            default_headers: Vec::new(),
            pool_max_idle_per_host: 10,
            pool_idle_timeout_secs: 90,
            http2: true,
            tcp_keepalive_secs: Some(60),
            tcp_nodelay: true,
            compression: true,
            follow_redirects: true,
            redirect_limit: 5,
            enable_cookies: false,
            validate_certs: true,
        }
    }
}

fn clone_proxy(p: &Option<ProxyConfig>) -> (r: Option<ProxyConfig>)
    ensures
        r == *p,
{
    match p {
        Some(c) => Some(
            ProxyConfig {
                url: c.url.clone(),
                username: clone_opt_string(&c.username),
                password: clone_opt_string(&c.password),
            },
        ),
        None => None,
    }
}

/// A header list with `(name, value)` set: the first pair under `name` is
/// replaced in place, keeping the order; a fresh name goes to the end.
pub open spec fn spec_header_insert(
    hs: Seq<(String, String)>,
    name: String,
    value: String,
) -> Seq<(String, String)>
    decreases hs.len(),
{
    if hs.len() == 0 {
        seq![(name, value)]
    } else if hs[0].0@ == name@ {
        seq![(name, value)] + hs.drop_first()
    } else {
        seq![hs[0]] + spec_header_insert(hs.drop_first(), name, value)
    }
}

/// A header list with every pair of `added` set in order, each by
/// `spec_header_insert`.
pub open spec fn spec_header_extend(
    hs: Seq<(String, String)>,
    added: Seq<(String, String)>,
) -> Seq<(String, String)>
    decreases added.len(),
{
    if added.len() == 0 {
        hs
    } else {
        spec_header_extend(spec_header_insert(hs, added[0].0, added[0].1), added.drop_first())
    }
}

proof fn lemma_header_insert_found(hs: Seq<(String, String)>, i: int, name: String, value: String)
    requires
        0 <= i < hs.len(),
        hs[i].0@ == name@,
        forall|j: int| 0 <= j < i ==> (#[trigger] hs[j]).0@ != name@,
    ensures
        spec_header_insert(hs, name, value) =~= hs.update(i, (name, value)),
    decreases i,
{
    if i == 0 {
        assert(seq![(name, value)] + hs.drop_first() =~= hs.update(0, (name, value)));
    } else {
        assert(hs[0].0@ != name@);
        assert forall|j: int| 0 <= j < i - 1 implies (#[trigger] hs.drop_first()[j]).0@
            != name@ by {
            assert(hs.drop_first()[j] == hs[j + 1]);
        }
        lemma_header_insert_found(hs.drop_first(), i - 1, name, value);
        assert(seq![hs[0]] + hs.drop_first().update(i - 1, (name, value)) =~= hs.update(
            i,
            (name, value),
        ));
    }
}

proof fn lemma_header_insert_missing(hs: Seq<(String, String)>, name: String, value: String)
    requires
        forall|j: int| 0 <= j < hs.len() ==> (#[trigger] hs[j]).0@ != name@,
    ensures
        spec_header_insert(hs, name, value) =~= hs.push((name, value)),
    decreases hs.len(),
{
    if hs.len() > 0 {
        assert forall|j: int| 0 <= j < hs.drop_first().len() implies (#[trigger] hs.drop_first()[j]).0@
            != name@ by {
            assert(hs.drop_first()[j] == hs[j + 1]);
        }
        lemma_header_insert_missing(hs.drop_first(), name, value);
        assert(seq![hs[0]] + hs.drop_first().push((name, value)) =~= hs.push((name, value)));
    }
}

impl FirecrawlClientBuilder {
    /// Starts a builder with the default settings.
    pub fn new() -> (r: Self)
        ensures
            r.base_url is None,
            r.api_key is None,
            r.timeout_secs == 30,
            r.connect_timeout_secs == 10,
            r.read_timeout_secs == 30,
            r.max_retries == 3,
            r.retry_delay_millis == 1000,
            r.user_agent is None,
            r.proxy is None,
            r.default_headers@.len() == 0,
            r.pool_max_idle_per_host == 10,
            r.pool_idle_timeout_secs == 90,
            r.http2,
            r.tcp_keepalive_secs == Some(60u64),
            r.tcp_nodelay,
            r.compression,
            r.follow_redirects,
            r.redirect_limit == 5,
            !r.enable_cookies,
            r.validate_certs,
    {
        FirecrawlClientBuilder::default()
    }

    /// Starts a builder from an API configuration: its URL, key, timeout,
    /// retry policy, user agent and proxy carry over; the connection timeout
    /// is the request timeout capped at fifteen seconds.
    pub fn from_config(config: &ApiConfig) -> (r: Self)
        ensures
            r.base_url matches Some(u) && u == config.base_url,
            r.api_key == config.api_key,
            r.timeout_secs == config.timeout_secs,
            r.read_timeout_secs == config.timeout_secs,
            r.connect_timeout_secs == (if config.timeout_secs < 15 {
                config.timeout_secs
            } else {
                15u64
            }),
            r.max_retries == config.max_retries,
            r.retry_delay_millis == config.retry_delay_millis,
            r.user_agent == config.user_agent,
            r.proxy == config.proxy,
            r.default_headers@.len() == 0,
            r.pool_max_idle_per_host == 10,
            r.pool_idle_timeout_secs == 90,
            r.http2,
            r.tcp_keepalive_secs == Some(60u64),
            r.tcp_nodelay,
            r.compression,
            r.follow_redirects,
            r.redirect_limit == 5,
            !r.enable_cookies,
            r.validate_certs,
    {
        let mut builder = FirecrawlClientBuilder::default();
        builder.base_url = Some(config.base_url.clone());
        builder.api_key = clone_opt_string(&config.api_key);
        builder.timeout_secs = config.timeout_secs;
        builder.read_timeout_secs = config.timeout_secs;
        builder.connect_timeout_secs = if config.timeout_secs < 15 {
            config.timeout_secs
        } else {
            15
        };
        builder.max_retries = config.max_retries;
        builder.retry_delay_millis = config.retry_delay_millis;
        builder.user_agent = clone_opt_string(&config.user_agent);
        builder.proxy = clone_proxy(&config.proxy);
        builder
    }

    /// Sets the base URL for the API.
    pub fn base_url(self, url: String) -> (r: Self)
        ensures
            r == (FirecrawlClientBuilder { base_url: Some(url), ..self }),
    {
        let mut b = self;
        b.base_url = Some(url);
        b
    }

    /// Sets the API key for authentication.
    pub fn api_key(self, key: Option<String>) -> (r: Self)
        ensures
            r == (FirecrawlClientBuilder { api_key: key, ..self }),
    {
        let mut b = self;
        b.api_key = key;
        b
    }

    /// Sets the overall request timeout, in seconds; the read timeout
    /// follows it.
    pub fn timeout(self, timeout_secs: u64) -> (r: Self)
        ensures
            r == (FirecrawlClientBuilder {
                timeout_secs: timeout_secs,
                read_timeout_secs: timeout_secs,
                ..self
            }),
    {
        let mut b = self;
        b.timeout_secs = timeout_secs;
        b.read_timeout_secs = timeout_secs;
        b
    }

    /// Sets the connection timeout, in seconds.
    pub fn connect_timeout(self, timeout_secs: u64) -> (r: Self)
        ensures
            r == (FirecrawlClientBuilder { connect_timeout_secs: timeout_secs, ..self }),
    {
        let mut b = self;
        b.connect_timeout_secs = timeout_secs;
        b
    }

    /// Sets the read timeout, in seconds.
    pub fn read_timeout(self, timeout_secs: u64) -> (r: Self)
        ensures
            r == (FirecrawlClientBuilder { read_timeout_secs: timeout_secs, ..self }),
    {
        let mut b = self;
        b.read_timeout_secs = timeout_secs;
        b
    }

    /// Sets the maximum number of retry attempts.
    pub fn max_retries(self, retries: u32) -> (r: Self)
        ensures
            r == (FirecrawlClientBuilder { max_retries: retries, ..self }),
    {
        let mut b = self;
        b.max_retries = retries;
        b
    }

    /// Sets the delay between retry attempts, in milliseconds.
    pub fn retry_delay(self, delay_millis: u64) -> (r: Self)
        ensures
            r == (FirecrawlClientBuilder { retry_delay_millis: delay_millis, ..self }),
    {
        let mut b = self;
        b.retry_delay_millis = delay_millis;
        b
    }

    /// Sets the user agent.
    pub fn user_agent(self, agent: Option<String>) -> (r: Self)
        ensures
            r == (FirecrawlClientBuilder { user_agent: agent, ..self }),
    {
        let mut b = self;
        b.user_agent = agent;
        b
    }

    /// Sets the proxy configuration.
    pub fn proxy(self, proxy: Option<ProxyConfig>) -> (r: Self)
        ensures
            r == (FirecrawlClientBuilder { proxy: proxy, ..self }),
    {
        let mut b = self;
        b.proxy = proxy;
        b
    }

    /// Sets one default header sent with every request: a header already
    /// set under the same name is replaced in place.
    pub fn default_header(self, name: String, value: String) -> (r: Self)
        ensures
            r.default_headers@ == spec_header_insert(self.default_headers@, name, value),
            r == (FirecrawlClientBuilder { default_headers: r.default_headers, ..self }),
    {
        let mut b = self;
        let n = b.default_headers.len();
        let mut i: usize = 0;
        while i < n
            invariant
                i <= n,
                n == b.default_headers@.len(),
                b.default_headers@ == self.default_headers@,
                b == (FirecrawlClientBuilder { default_headers: b.default_headers, ..self }),
                forall|j: int| 0 <= j < i ==> (#[trigger] b.default_headers@[j]).0@ != name@,
            decreases n - i,
        {
            if str_eq(b.default_headers[i].0.as_str(), name.as_str()) {
                proof {
                    lemma_header_insert_found(self.default_headers@, i as int, name, value);
                }
                let _ = b.default_headers.remove(i);
                b.default_headers.insert(i, (name, value));
                proof {
                    assert(b.default_headers@ =~= self.default_headers@.update(
                        i as int,
                        (name, value),
                    ));
                }
                return b;
            }
            i = i + 1;
        }
        proof {
            lemma_header_insert_missing(self.default_headers@, name, value);
        }
        b.default_headers.push((name, value));
        proof {
            assert(b.default_headers@ =~= spec_header_insert(self.default_headers@, name, value));
        }
        b
    }

    /// Sets several default headers in order, each as `default_header`
    /// does: later pairs win over earlier ones and over headers already set
    /// under the same name.
    pub fn default_headers(self, headers: Vec<(String, String)>) -> (r: Self)
        ensures
            r.default_headers@ == spec_header_extend(self.default_headers@, headers@),
            r == (FirecrawlClientBuilder { default_headers: r.default_headers, ..self }),
    {
        let mut b = self;
        let mut rest = headers;
        let ghost goal = spec_header_extend(self.default_headers@, rest@);
        while rest.len() > 0
            invariant
                spec_header_extend(b.default_headers@, rest@) == goal,
                b == (FirecrawlClientBuilder { default_headers: b.default_headers, ..self }),
            decreases rest@.len(),
        {
            let ghost hs0 = b.default_headers@;
            let ghost rest0 = rest@;
            let pair = rest.remove(0);
            proof {
                assert(pair == rest0[0]);
                assert(rest@ =~= rest0.drop_first());
            }
            b = b.default_header(pair.0, pair.1);
            proof {
                assert(spec_header_extend(hs0, rest0) == spec_header_extend(
                    spec_header_insert(hs0, rest0[0].0, rest0[0].1),
                    rest0.drop_first(),
                ));
            }
        }
        b
    }

    /// Sets the maximum number of idle connections per host.
    pub fn pool_max_idle_per_host(self, max_idle: usize) -> (r: Self)
        ensures
            r == (FirecrawlClientBuilder { pool_max_idle_per_host: max_idle, ..self }),
    {
        let mut b = self;
        b.pool_max_idle_per_host = max_idle;
        b
    }

    /// Sets the idle timeout for pooled connections, in seconds.
    pub fn pool_idle_timeout(self, timeout_secs: u64) -> (r: Self)
        ensures
            r == (FirecrawlClientBuilder { pool_idle_timeout_secs: timeout_secs, ..self }),
    {
        let mut b = self;
        b.pool_idle_timeout_secs = timeout_secs;
        b
    }

    /// Switches HTTP/2 on or off.
    pub fn http2(self, enabled: bool) -> (r: Self)
        ensures
            r == (FirecrawlClientBuilder { http2: enabled, ..self }),
    {
        let mut b = self;
        b.http2 = enabled;
        b
    }

    /// Sets the TCP keepalive, in seconds.
    pub fn tcp_keepalive(self, duration_secs: Option<u64>) -> (r: Self)
        ensures
            r == (FirecrawlClientBuilder { tcp_keepalive_secs: duration_secs, ..self }),
    {
        let mut b = self;
        b.tcp_keepalive_secs = duration_secs;
        b
    }

    /// Switches TCP nodelay on or off.
    pub fn tcp_nodelay(self, enabled: bool) -> (r: Self)
        ensures
            r == (FirecrawlClientBuilder { tcp_nodelay: enabled, ..self }),
    {
        let mut b = self;
        b.tcp_nodelay = enabled;
        b
    }

    /// Switches response compression on or off.
    pub fn compression(self, enabled: bool) -> (r: Self)
        ensures
            r == (FirecrawlClientBuilder { compression: enabled, ..self }),
    {
        let mut b = self;
        b.compression = enabled;
        b
    }

    /// Switches redirect following on or off.
    pub fn follow_redirects(self, enabled: bool) -> (r: Self)
        ensures
            r == (FirecrawlClientBuilder { follow_redirects: enabled, ..self }),
    {
        let mut b = self;
        b.follow_redirects = enabled;
        b
    }

    /// Sets the maximum number of redirects to follow.
    pub fn redirect_limit(self, limit: u32) -> (r: Self)
        ensures
            r == (FirecrawlClientBuilder { redirect_limit: limit, ..self }),
    {
        let mut b = self;
        b.redirect_limit = limit;
        b
    }

    /// Switches cookie handling on or off.
    pub fn enable_cookies(self, enabled: bool) -> (r: Self)
        ensures
            r == (FirecrawlClientBuilder { enable_cookies: enabled, ..self }),
    {
        let mut b = self;
        b.enable_cookies = enabled;
        b
    }

    /// Switches certificate validation on or off.
    pub fn validate_certs(self, enabled: bool) -> (r: Self)
        ensures
            r == (FirecrawlClientBuilder { validate_certs: enabled, ..self }),
    {
        let mut b = self;
        b.validate_certs = enabled;
        b
    }

    /// Builds the full connection settings: fails exactly when no base URL
    /// was set; otherwise the base URL is normalized and the retry policy
    /// and default headers carry over.
    pub fn build_enhanced(self) -> (r: FirecrawlResult<EnhancedFirecrawlClient>)
        ensures
            self.base_url is None ==> (r matches Err(FirecrawlError::ConfigurationError(m)) && m@
                == "Base URL is required"@),
            self.base_url matches Some(u) ==> (r matches Ok(c) && c.base_url@
                == spec_trim_trailing_slashes(u@) && c.api_key == self.api_key && c.max_retries
                == self.max_retries && c.retry_delay_millis == self.retry_delay_millis
                && c.default_headers@ == self.default_headers@),
    {
        match self.base_url {
            None => Err(
                FirecrawlError::ConfigurationError(String::from_str("Base URL is required")),
            ),
            Some(url) => Ok(
                EnhancedFirecrawlClient {
                    base_url: trim_trailing_slashes(url.as_str()),
                    api_key: self.api_key,
                    max_retries: self.max_retries,
                    retry_delay_millis: self.retry_delay_millis,
                    default_headers: self.default_headers,
                },
            ),
        }
    }

    /// Builds the plain client settings: fails exactly when no base URL was
    /// set; otherwise the base URL is normalized and the key carries over.
    pub fn build(self) -> (r: FirecrawlResult<FirecrawlClient>)
        ensures
            self.base_url is None ==> (r matches Err(FirecrawlError::ConfigurationError(m)) && m@
                == "Base URL is required"@),
            self.base_url matches Some(u) ==> (r matches Ok(c) && c.base_url@
                == spec_trim_trailing_slashes(u@) && c.api_key == self.api_key),
    {
        match self.build_enhanced() {
            Ok(enhanced) => Ok(FirecrawlClient::from(enhanced)),
            Err(e) => Err(e),
        }
    }
}

/// Factory for pre-configured clients.
pub struct FirecrawlClientFactory;

impl FirecrawlClientFactory {
    /// A client for the public service endpoint.
    pub fn create_default() -> (r: FirecrawlResult<FirecrawlClient>)
        ensures
            r matches Ok(c) && c.base_url@ == spec_trim_trailing_slashes(
                "https://api.firecrawl.dev"@,
            ) && c.api_key is None,
    {
        FirecrawlClientBuilder::new().base_url(String::from_str("https://api.firecrawl.dev"))
            .build()
    }

    /// A client from an API configuration.
    pub fn from_config(config: &ApiConfig) -> (r: FirecrawlResult<FirecrawlClient>)
        ensures
            config.base_url@.len() >= 0 ==> (r matches Ok(c) && c.base_url@
                == spec_trim_trailing_slashes(config.base_url@) && c.api_key == config.api_key),
    {
        FirecrawlClientBuilder::from_config(config).build()
    }

    /// A client tuned for batch throughput: longer timeout, larger pool,
    /// more retries.
    pub fn create_high_performance() -> (r: FirecrawlResult<FirecrawlClient>)
        ensures
            r matches Ok(c) && c.base_url@ == spec_trim_trailing_slashes(
                "https://api.firecrawl.dev"@,
            ) && c.api_key is None,
    {
        FirecrawlClientBuilder::new().base_url(String::from_str("https://api.firecrawl.dev"))
            .timeout(60).connect_timeout(10).pool_max_idle_per_host(50).pool_idle_timeout(300)
            .max_retries(5).compression(true).http2(true).build()
    }

    /// A client tuned for single low-latency requests.
    pub fn create_low_latency() -> (r: FirecrawlResult<FirecrawlClient>)
        ensures
            r matches Ok(c) && c.base_url@ == spec_trim_trailing_slashes(
                "https://api.firecrawl.dev"@,
            ) && c.api_key is None,
    {
        FirecrawlClientBuilder::new().base_url(String::from_str("https://api.firecrawl.dev"))
            .timeout(15).connect_timeout(5).pool_max_idle_per_host(5).max_retries(1).tcp_nodelay(
            true,
        ).build()
    }
}

} // verus!
