//! Configuration of the jemalloc allocator and a report of its state.

pub mod info;
pub mod init;

pub use info::{BackgroundThread, JemallocInfo, JemallocRawData, Options, Stats};
pub use init::{is_background_thread_supported, Jemalloc};
