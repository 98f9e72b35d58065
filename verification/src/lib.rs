//! Verified core of the figex command-line tool: error taxonomy, settings
//! resolution, CDP target discovery and session decisions, health reports
//! and logo text handling.

pub mod cdp;
pub mod cli;
pub mod config;
pub mod error;
pub mod flf;
pub mod font;
pub mod logo;
pub mod raw;
pub mod report;
pub mod runtime;
pub mod text;
