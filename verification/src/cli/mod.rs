//! The command-line tool's configuration resolution and portfolio paging.

pub mod config;
pub mod portfolio;
