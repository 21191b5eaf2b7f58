//! Small utilities for services: pseudo-terminal lifecycle rules, build
//! metadata, configuration parsing, text and time formatting.

pub mod build_info;
pub mod cargo;
pub mod chars;
pub mod config;
pub mod io;
pub mod pty;
pub mod text;
pub mod time;
pub mod token;
pub mod web;
