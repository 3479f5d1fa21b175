//! The items most endpoints need.
pub use crate::config::{AppConfig, LogFormat, LogLevel, Logging};
pub use crate::endpoint::{ApiKeyLocation, Endpoint, HttpMethod, Meta, Route, SecurityScheme};
pub use crate::params::{ParamError, Path, Query};
pub use crate::response::{ApiResponse, Error, Response};
pub use crate::server::Context;
