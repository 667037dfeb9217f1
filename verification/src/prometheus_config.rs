//! How to reach the Prometheus server, and how patiently.

use crate::names::{lemma_lookup_at, lemma_lookup_none, lookup};
use crate::text::{opt_text, parse_unsigned, parses_unsigned, str_eq, unsigned_value};
use std::time::Duration;
use vstd::prelude::*;
use vstd::string::*;

verus! {

/// The nanoseconds that a `Duration` holds, as `Duration::as_nanos` gives
/// them.
pub uninterp spec fn duration_nanos(d: Duration) -> nat;

/// `Duration::from_secs` makes the duration of that many whole seconds.
pub assume_specification[ Duration::from_secs ](secs: u64) -> (d: Duration)
    ensures
        duration_nanos(d) == secs * 1_000_000_000,
;

/// A `Duration` is plain data: its `clone` is a copy.
pub assume_specification[ <Duration as Clone>::clone ](d: &Duration) -> (r: Duration)
    ensures
        r == *d,
;

/// Configuration for Prometheus
#[derive(Debug, Clone)]
pub struct PrometheusConfig {
    /// URL of the Prometheus server
    pub url: String,
    /// Timeout for Prometheus API requests
    pub timeout: Duration,
    /// Number of attempts for a query
    pub retries: u32,
    /// Backoff between retries in milliseconds
    pub retry_backoff_ms: u64,
    /// Minimal interval between requests in milliseconds (simple rate limit)
    pub min_request_interval_ms: Option<u64>,
    /// Cache TTL for metadata/labels in seconds
    pub cache_ttl_secs: Option<u64>,
    /// Basic auth username
    pub username: Option<String>,
    /// Basic auth password
    pub password: Option<String>,
}

/// The mathematical value of a [`PrometheusConfig`].
pub ghost struct ConfigView {
    pub url: Seq<char>,
    pub timeout_nanos: nat,
    pub retries: u32,
    pub retry_backoff_ms: u64,
    pub min_request_interval_ms: Option<u64>,
    pub cache_ttl_secs: Option<u64>,
    pub username: Option<Seq<char>>,
    pub password: Option<Seq<char>>,
}

impl View for PrometheusConfig {
    type V = ConfigView;

    open spec fn view(&self) -> ConfigView {
        ConfigView {
            url: self.url@,
            timeout_nanos: duration_nanos(self.timeout),
            retries: self.retries,
            retry_backoff_ms: self.retry_backoff_ms,
            min_request_interval_ms: self.min_request_interval_ms,
            cache_ttl_secs: self.cache_ttl_secs,
            username: opt_text(self.username),
            password: opt_text(self.password),
        }
    }
}

/// The configuration that is used where nothing is set.
pub open spec fn default_config() -> ConfigView {
    ConfigView {
        url: "http://localhost:9090"@,
        timeout_nanos: 10 * 1_000_000_000,
        retries: 3,
        retry_backoff_ms: 500,
        min_request_interval_ms: None,
        cache_ttl_secs: None,
        username: None,
        password: None,
    }
}

/// The views of a list of named settings.
pub open spec fn settings(vars: Seq<(&str, &str)>) -> Seq<(Seq<char>, Seq<char>)> {
    Seq::new(vars.len(), |i: int| (vars[i].0@, vars[i].1@))
}

/// The unsigned number that the setting `name` holds, where it is set to the
/// decimal text of a number of at most `max`.
pub open spec fn number_setting(
    vars: Seq<(Seq<char>, Seq<char>)>,
    name: Seq<char>,
    max: nat,
) -> Option<nat> {
    match lookup(vars, name) {
        Some(text) => if parses_unsigned(text, max) {
            Some(unsigned_value(text))
        } else {
            None
        },
        None => None,
    }
}

/// The number `n` where there is one, `fallback` otherwise.
pub open spec fn or_default(n: Option<nat>, fallback: nat) -> nat {
    match n {
        Some(n) => n,
        None => fallback,
    }
}

/// The number `n` as a `u64`, where there is one.
pub open spec fn as_u64(n: Option<nat>) -> Option<u64> {
    match n {
        Some(n) => Some(n as u64),
        None => None,
    }
}

/// The configuration that a list of settings describes: each of the eight
/// names is looked up, a number that does not parse counts as not set, and
/// what is not set keeps its default.
pub open spec fn config_of(vars: Seq<(Seq<char>, Seq<char>)>) -> ConfigView {
    let max64 = u64::MAX as nat;
    ConfigView {
        url: match lookup(vars, "PROMETHEUS_URL"@) {
            Some(url) => url,
            None => "http://localhost:9090"@,
        },
        timeout_nanos: or_default(number_setting(vars, "PROMETHEUS_TIMEOUT"@, max64), 10)
            * 1_000_000_000,
        retries: or_default(number_setting(vars, "PROMETHEUS_RETRIES"@, u32::MAX as nat), 3) as u32,
        retry_backoff_ms: or_default(
            number_setting(vars, "PROMETHEUS_RETRY_BACKOFF_MS"@, max64),
            500,
        ) as u64,
        min_request_interval_ms: as_u64(number_setting(vars, "PROMETHEUS_MIN_INTERVAL_MS"@, max64)),
        cache_ttl_secs: as_u64(number_setting(vars, "PROMETHEUS_CACHE_TTL_SECS"@, max64)),
        username: lookup(vars, "PROMETHEUS_USERNAME"@),
        password: lookup(vars, "PROMETHEUS_PASSWORD"@),
    }
}

/// The value of the first setting named `name`.
fn setting<'a>(vars: &[(&'a str, &'a str)], name: &str) -> (r: Option<&'a str>)
    ensures
        match r {
            Some(value) => lookup(settings(vars@), name@) == Some(value@),
            None => lookup(settings(vars@), name@) is None,
        },
{
    let ghost entries = settings(vars@);
    let mut i: usize = 0;
    while i < vars.len()
        invariant
            i <= vars.len(),
            entries == settings(vars@),
            forall|j: int| 0 <= j < i ==> (#[trigger] entries[j]).0 != name@,
        decreases vars.len() - i,
    {
        if str_eq(vars[i].0, name) {
            proof {
                lemma_lookup_at(entries, name@, i as int);
            }
            return Some(vars[i].1);
        }
        i = i + 1;
    }
    proof {
        lemma_lookup_none(entries, name@);
    }
    None
}

/// The number that the setting `name` holds.
fn number<'a>(vars: &[(&'a str, &'a str)], name: &str, max: u64) -> (r: Option<u64>)
    ensures
        match r {
            Some(n) => number_setting(settings(vars@), name@, max as nat) == Some(n as nat),
            None => number_setting(settings(vars@), name@, max as nat) is None,
        },
{
    match setting(vars, name) {
        Some(text) => parse_unsigned(text, max),
        None => None,
    }
}

/// The owned copy of an optional text.
fn owned(text: Option<&str>) -> (r: Option<String>)
    ensures
        match text {
            Some(t) => opt_text(r) == Some(t@),
            None => r is None,
        },
{
    match text {
        Some(t) => Some(String::from_str(t)),
        None => None,
    }
}

impl Default for PrometheusConfig {
    fn default() -> (cfg: Self)
        ensures
            cfg@ == default_config(),
    {
        Self {
            url: String::from_str("http://localhost:9090"),
            timeout: Duration::from_secs(10),
            retries: 3,
            retry_backoff_ms: 500,
            min_request_interval_ms: None,
            cache_ttl_secs: None,
            username: None,
            password: None,
        }
    }
}

impl PrometheusConfig {
    /// Create a new PrometheusConfig from a list of named settings, such as
    /// the variables of the environment. Of two settings with one name the
    /// first counts.
    pub fn from_map(vars: &[(&str, &str)]) -> (cfg: Self)
        ensures
            cfg@ == config_of(settings(vars@)),
    {
        let url = match setting(vars, "PROMETHEUS_URL") {
            Some(url) => String::from_str(url),
            None => String::from_str("http://localhost:9090"),
        };
        let timeout_secs: u64 = match number(vars, "PROMETHEUS_TIMEOUT", u64::MAX) {
            Some(n) => n,
            None => 10,
        };
        let retries: u32 = match number(vars, "PROMETHEUS_RETRIES", 0xffff_ffff) {
            Some(n) => n as u32,
            None => 3,
        };
        let retry_backoff_ms: u64 = match number(vars, "PROMETHEUS_RETRY_BACKOFF_MS", u64::MAX) {
            Some(n) => n,
            None => 500,
        };
        let min_request_interval_ms = number(vars, "PROMETHEUS_MIN_INTERVAL_MS", u64::MAX);
        let cache_ttl_secs = number(vars, "PROMETHEUS_CACHE_TTL_SECS", u64::MAX);
        let username = owned(setting(vars, "PROMETHEUS_USERNAME"));
        let password = owned(setting(vars, "PROMETHEUS_PASSWORD"));
        Self {
            url,
            timeout: Duration::from_secs(timeout_secs),
            retries,
            retry_backoff_ms,
            min_request_interval_ms,
            cache_ttl_secs,
            username,
            password,
        }
    }

    /// Create a new PrometheusConfig with the given URL
    pub fn with_url(url: String) -> (cfg: Self)
        ensures
            cfg@ == (ConfigView { url: url@, ..default_config() }),
    {
        Self {
            url,
            timeout: Duration::from_secs(10),
            retries: 3,
            retry_backoff_ms: 500,
            min_request_interval_ms: None,
            cache_ttl_secs: None,
            username: None,
            password: None,
        }
    }

    /// Set the timeout, in seconds
    pub fn with_timeout(self, timeout_secs: u64) -> (cfg: Self)
        ensures
            cfg@ == (ConfigView { timeout_nanos: timeout_secs as nat * 1_000_000_000, ..self@ }),
    {
        let mut cfg = self;
        cfg.timeout = Duration::from_secs(timeout_secs);
        cfg
    }

    /// Set the number of attempts for a query
    pub fn with_retries(self, retries: u32) -> (cfg: Self)
        ensures
            cfg@ == (ConfigView { retries, ..self@ }),
    {
        let mut cfg = self;
        cfg.retries = retries;
        cfg
    }

    /// Set backoff between retries
    pub fn with_retry_backoff_ms(self, ms: u64) -> (cfg: Self)
        ensures
            cfg@ == (ConfigView { retry_backoff_ms: ms, ..self@ }),
    {
        let mut cfg = self;
        cfg.retry_backoff_ms = ms;
        cfg
    }

    /// Set min request interval (rate limit)
    pub fn with_min_interval_ms(self, ms: u64) -> (cfg: Self)
        ensures
            cfg@ == (ConfigView { min_request_interval_ms: Some(ms), ..self@ }),
    {
        let mut cfg = self;
        cfg.min_request_interval_ms = Some(ms);
        cfg
    }

    /// Set cache TTL (seconds)
    pub fn with_cache_ttl_secs(self, secs: u64) -> (cfg: Self)
        ensures
            cfg@ == (ConfigView { cache_ttl_secs: Some(secs), ..self@ }),
    {
        let mut cfg = self;
        cfg.cache_ttl_secs = Some(secs);
        cfg
    }

    /// Set basic auth
    pub fn with_basic_auth(self, username: &str, password: &str) -> (cfg: Self)
        ensures
            cfg@ == (ConfigView {
                username: Some(username@),
                password: Some(password@),
                ..self@
            }),
    {
        let mut cfg = self;
        cfg.username = Some(String::from_str(username));
        cfg.password = Some(String::from_str(password));
        cfg
    }
}

} // verus!
