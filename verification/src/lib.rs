//! Core of a minimal liveness-probe web service.
//!
//! The service exposes a single route, `GET /health_check`, whose handler
//! always answers with status 200 and an empty body. This crate holds the
//! verified part: the response model, the constant handler, and the route
//! dispatch decision. Binding a TCP listener and serving HTTP connections
//! is left to an unverified front end.

pub mod response;
pub mod routing;
pub mod strutil;
