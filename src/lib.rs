//! Typed endpoint registration and request dispatch: route descriptions,
//! parameter stores, the response envelope, and the API description that is
//! derived from the same route metadata.
pub mod config;
pub mod endpoint;
pub mod middleware;
pub mod openapi;
pub mod params;
pub mod prelude;
pub mod response;
pub mod server;
pub mod text;
