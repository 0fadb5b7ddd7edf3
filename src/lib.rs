//! Network endpoint probing, sliding-window health metrics and alerting.
pub mod collection_utils;
pub mod config;
pub mod error;
pub mod format_utils;
pub mod models;
pub mod monitoring;
pub mod network;
pub mod probe;
pub mod text;
pub mod time_utils;
pub mod ui_utils;

pub use collection_utils::CollectionUtils;
pub use config::{AppConfig, OutputFormat};
pub use error::CloudPingError;
pub use format_utils::FormatUtils;
pub use models::{
    AggregatorStateBuilder, AggregatorSummary, AlertSeverity, DisplayFormatter, Endpoint,
    HealthStatus, ProbeType, RateLimiter, RingBuffer,
};
pub use network::{NetworkTester, NetworkTesterBuilder};
pub use probe::ProbeConfig;
pub use time_utils::TimeUtils;
pub use ui_utils::{DisplayUtils, ProgressBarFactory};
