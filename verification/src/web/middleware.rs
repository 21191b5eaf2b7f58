//! Middleware.

pub mod request_trace;
