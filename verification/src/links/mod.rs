//! Link understanding: configuration, page-text clean-up and URL safety checks.

pub mod config;
pub mod content;
pub mod ssrf;
