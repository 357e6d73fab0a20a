//! One interface to several issue trackers.

pub mod args;
pub mod commands;
pub mod config;
pub mod credentials;
pub mod encoding;
pub mod error;
pub mod http;
pub mod json;
pub mod providers;
pub mod text;
pub mod unified;
