//! Configuration: application settings, logging settings and the extended
//! settings with environment, CORS and connection limits.
pub mod app;
pub mod logging;
pub mod meta;

pub use app::{ApiServer, AppConfig};
pub use logging::{LogFormat, LogLevel, Logging};
