//! Application configuration: defaults, validation and human-readable delays.
use std::time::Duration;
use vstd::prelude::*;
use crate::error::CloudPingError;
use crate::time_utils::duration_millis;

verus! {

/// Supported output formats for test results.
#[derive(Debug, Clone, Copy, PartialEq, Eq, Structural)]
pub enum OutputFormat {
    Json,
    Table,
    Csv,
}

impl Default for OutputFormat {
    fn default() -> (r: Self)
        ensures
            r == OutputFormat::Table,
    {
        OutputFormat::Table
    }
}

/// Application configuration with defaults and validation.
#[derive(Debug, Clone)]
pub struct AppConfig {
    /// Default number of pings for comprehensive tests
    pub default_ping_count: usize,
    /// Number of pings for quick tests
    pub quick_ping_count: usize,
    /// Request timeout in milliseconds
    pub timeout_ms: u64,
    /// Request timeout as a duration
    pub timeout: Duration,
    /// Maximum number of concurrent threads
    pub max_threads: usize,
    /// Enable colored terminal output
    pub enable_color_output: bool,
    /// Save results to file automatically
    pub save_results_to_file: bool,
    /// Filename for results output
    pub results_filename: String,
    /// Data file path
    pub data_file: String,
    /// Enable progress bars
    pub show_progress: bool,
    /// Retry attempts for failed requests
    pub retry_attempts: usize,
    /// Delay between retries in milliseconds
    pub retry_delay_ms: u64,
    /// Delay between retries as a duration
    pub retry_delay: Duration,
    /// Enable detailed logging
    pub verbose: bool,
    /// Output format (json, table, csv)
    pub output_format: OutputFormat,
    /// HTTP user agent string
    pub user_agent: String,
    /// Enable TLS certificate validation
    pub validate_certificates: bool,
}

/// Library version.
pub const VERSION: &'static str = "0.1.0";

/// Maximum recommended concurrent connections.
pub const MAX_CONCURRENT_CONNECTIONS: usize = 50;

/// Default timeout for HTTP requests in milliseconds.
pub const DEFAULT_TIMEOUT_MS: u64 = 5000;

/// The user agent sent with HTTP requests.
pub const USER_AGENT: &'static str = "cloud-ping-rs/0.1.0";

/// Largest number of worker threads a configuration may ask for.
pub const MAX_THREADS_LIMIT: usize = 100;

pub fn default_timeout() -> (r: Duration)
    ensures
        duration_millis(r) == 5000,
{
    Duration::from_millis(5000)
}

pub fn default_retry_delay() -> (r: Duration)
    ensures
        duration_millis(r) == 100,
{
    Duration::from_millis(100)
}

/// Regions are enabled unless their description says otherwise.
pub fn default_enabled() -> (r: bool)
    ensures
        r,
{
    true
}

impl Default for AppConfig {
    fn default() -> (r: Self)
        ensures
            r.default_ping_count == 10,
            r.quick_ping_count == 3,
            r.timeout_ms == 5000,
            duration_millis(r.timeout) == 5000,
            r.max_threads == 10,
            r.enable_color_output,
            r.save_results_to_file,
            r.results_filename@ == "connection_benchmark_results.json"@,
            r.data_file@ == "data.json"@,
            r.show_progress,
            r.retry_attempts == 2,
            r.retry_delay_ms == 100,
            duration_millis(r.retry_delay) == 100,
            !r.verbose,
            r.output_format == OutputFormat::Table,
            r.user_agent@ == USER_AGENT@,
            !r.validate_certificates,
    {
        AppConfig {
            default_ping_count: 10,
            quick_ping_count: 3,
            timeout_ms: 5000,
            timeout: default_timeout(),
            max_threads: 10,
            enable_color_output: true,
            save_results_to_file: true,
            results_filename: "connection_benchmark_results.json".to_owned(),
            data_file: "data.json".to_owned(),
            show_progress: true,
            retry_attempts: 2,
            retry_delay_ms: 100,
            retry_delay: default_retry_delay(),
            verbose: false,
            output_format: OutputFormat::default(),
            user_agent: USER_AGENT.to_owned(),
            validate_certificates: false,
        }
    }
}

/// The whole milliseconds of the duration that `humantime::parse_duration`
/// reads from `s`, or `None` where it refuses `s`.
pub uninterp spec fn human_duration(s: Seq<char>) -> Option<nat>;

#[verifier::external_type_specification]
#[verifier::external_body]
pub struct ExDurationError(humantime::DurationError);

/// Relies on `humantime::parse_duration`: whether it accepts the text and the
/// duration it reads depend on the text alone.
#[verifier::external_body]
fn parse_human_duration(s: &str) -> (r: Result<Duration, humantime::DurationError>)
    ensures
        match r {
            Ok(d) => human_duration(s@) == Some(duration_millis(d)),
            Err(_) => human_duration(s@).is_none(),
        },
{
    humantime::parse_duration(s)
}

/// Relies on the `Display` impl of `humantime::DurationError` for the text of
/// a refusal.
#[verifier::external_body]
fn duration_error_text(e: &humantime::DurationError) -> String {
    e.to_string()
}

/// The field a configuration is refused for, and why; `None` when it is valid.
pub open spec fn config_violation(c: AppConfig) -> Option<(Seq<char>, Seq<char>)> {
    if c.default_ping_count == 0 {
        Some(("default_ping_count"@, "must be greater than 0"@))
    } else if c.quick_ping_count == 0 {
        Some(("quick_ping_count"@, "must be greater than 0"@))
    } else if c.timeout_ms == 0 {
        Some(("timeout_ms"@, "must be greater than 0"@))
    } else if c.max_threads == 0 {
        Some(("max_threads"@, "must be greater than 0"@))
    } else if c.max_threads > MAX_THREADS_LIMIT {
        Some(("max_threads"@, "should not exceed 100 for stability"@))
    } else {
        None
    }
}

impl AppConfig {
    /// Validate configuration constraints; the first violated one is reported.
    pub fn validate(&self) -> (r: Result<(), CloudPingError>)
        ensures
            match config_violation(*self) {
                None => r is Ok,
                Some((f, m)) => r matches Err(CloudPingError::Validation { field, message })
                    && field@ == f && message@ == m,
            },
    {
        proof {
            reveal_strlit("default_ping_count");
            reveal_strlit("quick_ping_count");
            reveal_strlit("timeout_ms");
            reveal_strlit("max_threads");
            reveal_strlit("must be greater than 0");
            reveal_strlit("should not exceed 100 for stability");
        }
        if self.default_ping_count == 0 {
            return Err(CloudPingError::validation("default_ping_count", "must be greater than 0"));
        }
        if self.quick_ping_count == 0 {
            return Err(CloudPingError::validation("quick_ping_count", "must be greater than 0"));
        }
        if self.timeout_ms == 0 {
            return Err(CloudPingError::validation("timeout_ms", "must be greater than 0"));
        }
        if self.max_threads == 0 {
            return Err(CloudPingError::validation("max_threads", "must be greater than 0"));
        }
        if self.max_threads > MAX_THREADS_LIMIT {
            return Err(
                CloudPingError::validation("max_threads", "should not exceed 100 for stability"),
            );
        }
        Ok(())
    }

    /// Timeout as a duration (preferred over `timeout_ms`).
    pub fn get_timeout(&self) -> (r: Duration)
        ensures
            r == self.timeout,
    {
        self.timeout
    }

    /// Retry delay as a duration (preferred over `retry_delay_ms`).
    pub fn get_retry_delay(&self) -> (r: Duration)
        ensures
            r == self.retry_delay,
    {
        self.retry_delay
    }

    /// Set the timeout from human-readable text (e.g. "5s", "500ms"); on a
    /// refusal the configuration is left as it was.
    pub fn set_timeout_from_str(&mut self, timeout_str: &str) -> (r: Result<(), CloudPingError>)
        ensures
            human_duration(timeout_str@) is Some <==> r is Ok,
            match human_duration(timeout_str@) {
                Some(ms) => {
                    &&& duration_millis(final(self).timeout) == ms
                    &&& final(self).timeout_ms == ms as u64
                    &&& final(self).retry_delay == old(self).retry_delay
                    &&& final(self).retry_delay_ms == old(self).retry_delay_ms
                },
                None => {
                    &&& *final(self) == *old(self)
                    &&& r matches Err(CloudPingError::Config { .. })
                },
            },
    {
        match parse_human_duration(timeout_str) {
            Ok(d) => {
                self.timeout = d;
                self.timeout_ms = d.as_millis() as u64;
                Ok(())
            },
            Err(e) => {
                let mut message = "Invalid timeout format: ".to_owned();
                message.append(duration_error_text(&e).as_str());
                Err(CloudPingError::Config { message })
            },
        }
    }

    /// Set the retry delay from human-readable text (e.g. "100ms", "1s"); on a
    /// refusal the configuration is left as it was.
    pub fn set_retry_delay_from_str(&mut self, delay_str: &str) -> (r: Result<(), CloudPingError>)
        ensures
            human_duration(delay_str@) is Some <==> r is Ok,
            match human_duration(delay_str@) {
                Some(ms) => {
                    &&& duration_millis(final(self).retry_delay) == ms
                    &&& final(self).retry_delay_ms == ms as u64
                    &&& final(self).timeout == old(self).timeout
                    &&& final(self).timeout_ms == old(self).timeout_ms
                },
                None => {
                    &&& *final(self) == *old(self)
                    &&& r matches Err(CloudPingError::Config { .. })
                },
            },
    {
        match parse_human_duration(delay_str) {
            Ok(d) => {
                self.retry_delay = d;
                self.retry_delay_ms = d.as_millis() as u64;
                Ok(())
            },
            Err(e) => {
                let mut message = "Invalid retry delay format: ".to_owned();
                message.append(duration_error_text(&e).as_str());
                Err(CloudPingError::Config { message })
            },
        }
    }
}

} // verus!
