//! Data model of the probe-to-score pipeline.
pub mod builder;
pub mod endpoint;
pub mod filter;
pub mod freshness;
pub mod rate_limiter;
pub mod region_rules;
pub mod ring_buffer;
pub mod status;
pub mod summary;

pub use builder::AggregatorStateBuilder;
pub use endpoint::{Endpoint, ProbeType};
pub use rate_limiter::RateLimiter;
pub use ring_buffer::RingBuffer;
pub use status::{AlertSeverity, DisplayFormatter, HealthStatus};
pub use summary::AggregatorSummary;
