//! Project-type detection and project-root resolution for a polyglot
//! developer command line.
//!
//! The filesystem is seen through a [`context::WorkingContext`]: the working
//! directory, the home and configuration-home directories, and one directory
//! listing for each ancestor that the upward scan may visit.

pub mod cli;
pub mod context;
pub mod manager;
pub mod manifest;
pub mod resolve;
