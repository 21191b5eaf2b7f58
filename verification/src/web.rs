//! Helpers for web services.

pub mod di;
pub mod duration;
pub mod figment_ext;
pub mod future;
pub mod jemalloc;
pub mod json;
pub mod middleware;
pub mod sql;
