//! Tokens.

pub mod once_token;
