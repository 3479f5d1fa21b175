//! Middleware: request identifiers, rate limiting, bearer-token
//! authentication and CORS.
pub mod auth;
pub mod cors;
pub mod rate_limit;
pub mod request_id;

pub use auth::BearerAuth;
pub use cors::Cors;
pub use rate_limit::RateLimit;
pub use request_id::RequestId;
